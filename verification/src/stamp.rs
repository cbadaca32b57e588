//! The minute a note is stamped with, and its twelve-digit text.

use vstd::prelude::*;

verus! {

/// The calendar fields of one minute of local time.
pub struct Moment {
    pub year: int,
    pub month: int,
    pub day: int,
    pub hour: int,
    pub minute: int,
}

/// The fields that a four-digit year and two-digit month, day, hour and minute
/// can hold. No calendar is consulted: the 31st is accepted in every month.
pub open spec fn in_range(m: Moment) -> bool {
    &&& 0 <= m.year <= 9999
    &&& 1 <= m.month <= 12
    &&& 1 <= m.day <= 31
    &&& 0 <= m.hour <= 23
    &&& 0 <= m.minute <= 59
}

/// The decimal digit for `d`, where `0 <= d <= 9`.
pub open spec fn digit(d: int) -> char {
    seq!['0', '1', '2', '3', '4', '5', '6', '7', '8', '9'][d]
}

/// One of the ten decimal digits.
pub open spec fn is_digit(c: char) -> bool {
    exists|d: int| 0 <= d <= 9 && c == #[trigger] digit(d)
}

/// `n` written with two decimal digits, where `0 <= n <= 99`.
pub open spec fn two_digits(n: int) -> Seq<char> {
    seq![digit(n / 10), digit(n % 10)]
}

/// `YYYYMMDDhhmm`: year, month, day, hour and minute, zero-padded, no separators.
pub open spec fn stamp_text(m: Moment) -> Seq<char> {
    two_digits(m.year / 100) + two_digits(m.year % 100) + two_digits(m.month) + two_digits(m.day)
        + two_digits(m.hour) + two_digits(m.minute)
}

/// Nothing but decimal digits.
pub open spec fn all_digits(s: Seq<char>) -> bool {
    forall|i: int| 0 <= i < s.len() ==> is_digit(#[trigger] s[i])
}

/// The text of a minute in range is twelve decimal digits.
pub proof fn lemma_stamp_text_is_twelve_digits(m: Moment)
    requires
        in_range(m),
    ensures
        stamp_text(m).len() == 12,
        all_digits(stamp_text(m)),
{
    let t = stamp_text(m);
    assert forall|i: int| 0 <= i < t.len() implies is_digit(#[trigger] t[i]) by {
        lemma_two_digits(m.year / 100);
        lemma_two_digits(m.year % 100);
        lemma_two_digits(m.month);
        lemma_two_digits(m.day);
        lemma_two_digits(m.hour);
        lemma_two_digits(m.minute);
    }
}

proof fn lemma_two_digits(n: int)
    requires
        0 <= n <= 99,
    ensures
        two_digits(n).len() == 2,
        is_digit(two_digits(n)[0]),
        is_digit(two_digits(n)[1]),
{
    assert(is_digit(digit(n / 10)));
    assert(is_digit(digit(n % 10)));
}

fn digit_str(d: u8) -> (r: &'static str)
    requires
        d <= 9,
    ensures
        r@ == seq![digit(d as int)],
{
    proof {
        reveal_strlit("0");
        reveal_strlit("1");
        reveal_strlit("2");
        reveal_strlit("3");
        reveal_strlit("4");
        reveal_strlit("5");
        reveal_strlit("6");
        reveal_strlit("7");
        reveal_strlit("8");
        reveal_strlit("9");
    }
    let r = match d {
        0 => "0",
        1 => "1",
        2 => "2",
        3 => "3",
        4 => "4",
        5 => "5",
        6 => "6",
        7 => "7",
        8 => "8",
        _ => "9",
    };
    assert(r@ =~= seq![digit(d as int)]);
    r
}

fn push_two_digits(buf: &mut String, n: u8)
    requires
        n <= 99,
    ensures
        final(buf)@ == old(buf)@ + two_digits(n as int),
{
    buf.append(digit_str(n / 10));
    buf.append(digit_str(n % 10));
    assert(buf@ =~= old(buf)@ + two_digits(n as int));
}

/// One minute of local time whose fields are in range.
#[derive(Clone, Copy, Debug)]
pub struct Timestamp {
    year: u16,
    month: u8,
    day: u8,
    hour: u8,
    minute: u8,
}

impl View for Timestamp {
    type V = Moment;

    closed spec fn view(&self) -> Moment {
        Moment {
            year: self.year as int,
            month: self.month as int,
            day: self.day as int,
            hour: self.hour as int,
            minute: self.minute as int,
        }
    }
}

/// Reads the local clock through `chrono::Local::now` and hands out the year,
/// month, day, hour and minute of the local date and time, as `Datelike` and
/// `Timelike` give them for a `DateTime`. What the clock shows is not known
/// here; chrono documents the month as 1 to 12, the day as 1 to 31, the hour as
/// 0 to 23 and the minute as 0 to 59, and the year as any year it can hold.
/// `Local::now` panics where the system clock stands before the year 1970.
#[verifier::external_body]
fn local_clock() -> (r: (i32, u32, u32, u32, u32))
    ensures
        1 <= r.1 <= 12,
        1 <= r.2 <= 31,
        r.3 <= 23,
        r.4 <= 59,
{
    let now = chrono::Local::now();
    (
        chrono::Datelike::year(&now),
        chrono::Datelike::month(&now),
        chrono::Datelike::day(&now),
        chrono::Timelike::hour(&now),
        chrono::Timelike::minute(&now),
    )
}

impl Timestamp {
    /// Every `Timestamp` is in range.
    #[verifier::type_invariant]
    pub open spec fn wf(self) -> bool {
        in_range(self@)
    }

    /// The minute with these fields, if they are in range.
    pub fn new(year: i32, month: u32, day: u32, hour: u32, minute: u32) -> (r: Option<Timestamp>)
        ensures
            r is Some <==> in_range(
                Moment {
                    year: year as int,
                    month: month as int,
                    day: day as int,
                    hour: hour as int,
                    minute: minute as int,
                },
            ),
            r matches Some(t) ==> t@ == (Moment {
                year: year as int,
                month: month as int,
                day: day as int,
                hour: hour as int,
                minute: minute as int,
            }),
    {
        if 0 <= year && year <= 9999 && 1 <= month && month <= 12 && 1 <= day && day <= 31 && hour
            <= 23 && minute <= 59 {
            Some(
                Timestamp {
                    year: year as u16,
                    month: month as u8,
                    day: day as u8,
                    hour: hour as u8,
                    minute: minute as u8,
                },
            )
        } else {
            None
        }
    }

    /// The current minute of local time. `None` where the clock shows a year
    /// that four digits cannot hold.
    pub fn now() -> (r: Option<Timestamp>)
        ensures
            r matches Some(t) ==> in_range(t@),
    {
        let (year, month, day, hour, minute) = local_clock();
        Timestamp::new(year, month, day, hour, minute)
    }

    /// The twelve digits `YYYYMMDDhhmm`.
    pub fn text(&self) -> (r: String)
        ensures
            r@ == stamp_text(self@),
            r@.len() == 12,
            all_digits(r@),
    {
        proof {
            use_type_invariant(self);
            lemma_stamp_text_is_twelve_digits(self@);
        }
        let mut buf = String::new();
        push_two_digits(&mut buf, (self.year / 100) as u8);
        push_two_digits(&mut buf, (self.year % 100) as u8);
        push_two_digits(&mut buf, self.month);
        push_two_digits(&mut buf, self.day);
        push_two_digits(&mut buf, self.hour);
        push_two_digits(&mut buf, self.minute);
        assert(buf@ =~= stamp_text(self@));
        buf
    }
}

} // verus!
