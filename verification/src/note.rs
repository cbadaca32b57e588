//! Where a note lies and what each visit appends to it.

use crate::stamp::{
    all_digits, in_range, lemma_stamp_text_is_twelve_digits, stamp_text, Moment, Timestamp,
};
use vstd::prelude::*;

verus! {

/// The folder under the notes root that new notes go to.
pub open spec fn inbox_text(root: Seq<char>) -> Seq<char> {
    root + "/0_inbox"@
}

/// `<dir>/<name>.md`
pub open spec fn path_text(dir: Seq<char>, name: Seq<char>) -> Seq<char> {
    dir + "/"@ + name + ".md"@
}

/// What stands before the stamp in a block: a level-1 heading marker, three
/// blank lines, the label `Links:` and one blank line.
pub open spec fn block_head() -> Seq<char> {
    "# \n\n\n\nLinks:\n\n"@
}

/// The block that one visit appends: the head, the stamp, a line end.
pub open spec fn block_text(m: Moment) -> Seq<char> {
    block_head() + stamp_text(m) + "\n"@
}

/// `needle` stands in `hay` from position `at` on.
pub open spec fn occurs_at(hay: Seq<char>, needle: Seq<char>, at: int) -> bool {
    0 <= at && at + needle.len() <= hay.len() && hay.subrange(at, at + needle.len()) == needle
}

/// `needle` stands somewhere in `hay`.
pub open spec fn contains_text(hay: Seq<char>, needle: Seq<char>) -> bool {
    exists|at: int| occurs_at(hay, needle, at)
}

/// `hay` holds a run of exactly twelve decimal digits, with a line end on
/// either side.
pub open spec fn has_stamp_token(hay: Seq<char>) -> bool {
    exists|at: int|
        1 <= at && at + 12 < hay.len() && all_digits(#[trigger] hay.subrange(at, at + 12)) && hay[at
            - 1] == '\n' && hay[at + 12] == '\n'
}

/// What a note holds after one visit: what it held before, or nothing if it
/// did not exist, and then the block.
pub open spec fn content_after(before: Option<Seq<char>>, m: Moment) -> Seq<char> {
    match before {
        Some(text) => text + block_text(m),
        None => block_text(m),
    }
}

proof fn lemma_block_shape(m: Moment)
    ensures
        block_head().len() == 14,
        block_text(m).len() == 27,
        "Links:"@.len() == 6,
        occurs_at(block_text(m), "Links:"@, 6),
        block_text(m).subrange(14, 26) == stamp_text(m),
        block_text(m)[13] == '\n',
        block_text(m)[26] == '\n',
{
    reveal_strlit("# \n\n\n\nLinks:\n\n");
    reveal_strlit("Links:");
    reveal_strlit("\n");
    let b = block_text(m);
    assert(stamp_text(m).len() == 12);
    assert(b.subrange(6, 12) =~= "Links:"@);
    assert(b.subrange(14, 26) =~= stamp_text(m));
}

/// Whatever a note held and whenever it is visited, it holds the label
/// `Links:` afterwards.
pub proof fn lemma_content_has_links_label(before: Option<Seq<char>>, m: Moment)
    ensures
        contains_text(content_after(before, m), "Links:"@),
{
    lemma_block_shape(m);
    let after = content_after(before, m);
    let skipped: int = match before {
        Some(text) => text.len() as int,
        None => 0,
    };
    assert(after.subrange(skipped + 6, skipped + 12) =~= block_text(m).subrange(6, 12));
    assert(occurs_at(after, "Links:"@, skipped + 6));
}

/// Whatever a note held, after a visit it holds a twelve-digit stamp on a line
/// of its own.
pub proof fn lemma_content_has_stamp_token(before: Option<Seq<char>>, m: Moment)
    requires
        in_range(m),
    ensures
        has_stamp_token(content_after(before, m)),
{
    lemma_block_shape(m);
    lemma_stamp_text_is_twelve_digits(m);
    let after = content_after(before, m);
    let skipped: int = match before {
        Some(text) => text.len() as int,
        None => 0,
    };
    let at = skipped + 14;
    assert(after.subrange(at, at + 12) =~= stamp_text(m));
    assert(after[at - 1] == block_text(m)[13]);
    assert(after[at + 12] == block_text(m)[26]);
}

/// A second visit adds a second block and takes nothing away: the note grows
/// each time, and what it held before each visit is how it begins afterwards.
pub proof fn lemma_second_visit_appends(before: Option<Seq<char>>, first: Moment, second: Moment)
    ensures
        ({
            let once = content_after(before, first);
            let twice = content_after(Some(once), second);
            &&& before matches Some(text) ==> text.len() < once.len() && text.is_prefix_of(once)
            &&& once.len() < twice.len()
            &&& once.is_prefix_of(twice)
            &&& twice == once + block_text(second)
            &&& block_text(first).is_suffix_of(once)
            &&& block_text(second).is_suffix_of(twice)
        }),
{
    lemma_block_shape(first);
    lemma_block_shape(second);
    let once = content_after(before, first);
    let twice = content_after(Some(once), second);
    assert(once.is_prefix_of(twice));
    assert(block_text(first).is_suffix_of(once));
    assert(block_text(second).is_suffix_of(twice));
    if let Some(text) = before {
        assert(text.is_prefix_of(once));
    }
}

/// The inbox folder of the notes root.
pub fn inbox_dir(root: &str) -> (r: String)
    ensures
        r@ == inbox_text(root@),
{
    let mut dir = root.to_owned();
    dir.append("/0_inbox");
    dir
}

/// The path of the note `name` in the folder `dir`.
pub fn note_path(dir: &str, name: &str) -> (r: String)
    ensures
        r@ == path_text(dir@, name@),
{
    let mut path = dir.to_owned();
    path.append("/");
    path.append(name);
    path.append(".md");
    path
}

/// The block to append for a visit at `stamp`.
pub fn template_block(stamp: &Timestamp) -> (r: String)
    ensures
        r@ == block_text(stamp@),
        contains_text(r@, "Links:"@),
        has_stamp_token(r@),
{
    let mut block = "# \n\n\n\nLinks:\n\n".to_owned();
    let digits = stamp.text();
    block.append(digits.as_str());
    block.append("\n");
    proof {
        use_type_invariant(stamp);
        lemma_content_has_links_label(None, stamp@);
        lemma_content_has_stamp_token(None, stamp@);
    }
    block
}

} // verus!
