//! The command line: one optional positional argument, the note name.

use vstd::prelude::*;

verus! {

/// What the command line asked for.
#[derive(Debug)]
pub struct Args {
    /// The note name, if one was given.
    pub filename: Option<String>,
}

/// Why a command line gave no [`Args`]: help or the version was asked for, or
/// the line was not understood. `text` is what to print, `to_stderr` where,
/// and `code` the status to leave with.
#[derive(Debug)]
pub struct UsageStop {
    pub text: String,
    pub to_stderr: bool,
    pub code: i32,
}

pub const PROGRAM: &'static str = "zet";

pub const AUTHOR: &'static str = "Your Name";

pub const VERSION: &'static str = "1.0";

pub const ABOUT: &'static str = "Create and open zettel notes";

pub const ARGUMENT: &'static str = "filename";

pub const VALUE_NAME: &'static str = "FILENAME";

/// The texts of a command line, word by word.
pub open spec fn words(argv: Seq<&str>) -> Seq<Seq<char>> {
    Seq::new(argv.len(), |i: int| argv[i]@)
}

/// What clap makes of the command line `argv`, the program's own name first,
/// for a command that is described by `program`, `author`, `version` and
/// `about` and takes one optional positional argument `arg`, shown in help as
/// `value_name`: `Some` of the argument's value where the line is accepted,
/// `None` where clap stops with help, the version or an error.
pub uninterp spec fn clap_outcome(
    program: Seq<char>,
    author: Seq<char>,
    version: Seq<char>,
    about: Seq<char>,
    arg: Seq<char>,
    value_name: Seq<char>,
    argv: Seq<Seq<char>>,
) -> Option<Option<Seq<char>>>;

/// Builds a `clap::Command` with one positional `clap::Arg` that may be left
/// out, and parses `argv` with `Command::try_get_matches_from`, which returns
/// where `Command::get_matches_from` would leave the process. The value is read
/// with `ArgMatches::get_one`. The outcome is a function of the arguments
/// alone. Of a stop, the text is clap's rendered message without styling, and
/// `Error::use_stderr` and `Error::exit_code` give the stream and the status:
/// clap documents the status as 2 for the error stream and 0 otherwise.
///
/// clap gives every command flags of its own under the ids `help` and
/// `version`, and where debug assertions are on it panics on a command in
/// which two arguments share an id: `arg` must be neither.
#[verifier::external_body]
fn clap_parse(
    program: &'static str,
    author: &'static str,
    version: &'static str,
    about: &'static str,
    arg: &'static str,
    value_name: &'static str,
    argv: &[&str],
) -> (r: Result<Option<String>, UsageStop>)
    requires
        arg@ != "help"@,
        arg@ != "version"@,
    ensures
        match r {
            Ok(value) => clap_outcome(
                program@,
                author@,
                version@,
                about@,
                arg@,
                value_name@,
                words(argv@),
            ) == Some(value.deep_view()),
            Err(stop) => clap_outcome(
                program@,
                author@,
                version@,
                about@,
                arg@,
                value_name@,
                words(argv@),
            ) is None && stop.code == (if stop.to_stderr {
                2i32
            } else {
                0i32
            }),
        },
{
    let command = clap::Command::new(program).author(author).version(version).about(about).arg(
        clap::Arg::new(arg).value_name(value_name),
    );
    match command.try_get_matches_from(argv) {
        Ok(found) => Ok(found.get_one::<String>(arg).cloned()),
        Err(e) => Err(
            UsageStop { text: e.render().to_string(), to_stderr: e.use_stderr(), code: e.exit_code() },
        ),
    }
}

/// What this program's command line `argv` yields.
pub open spec fn parsed(argv: Seq<Seq<char>>) -> Option<Option<Seq<char>>> {
    clap_outcome(PROGRAM@, AUTHOR@, VERSION@, ABOUT@, ARGUMENT@, VALUE_NAME@, argv)
}

impl Args {
    /// Reads the command line `argv`, the program's own name first.
    pub fn parse_from(argv: &[&str]) -> (r: Result<Args, UsageStop>)
        ensures
            match r {
                Ok(args) => parsed(words(argv@)) == Some(args.filename.deep_view()),
                Err(stop) => parsed(words(argv@)) is None && stop.code == (if stop.to_stderr {
                    2i32
                } else {
                    0i32
                }),
            },
    {
        proof {
            reveal_strlit("filename");
            reveal_strlit("help");
            reveal_strlit("version");
            assert(ARGUMENT@.len() == 8 && "help"@.len() == 4 && "version"@.len() == 7);
        }
        match clap_parse(PROGRAM, AUTHOR, VERSION, ABOUT, ARGUMENT, VALUE_NAME, argv) {
            Ok(filename) => Ok(Args { filename }),
            Err(stop) => Err(stop),
        }
    }
}

} // verus!
