//! The change detector: decides whether freshly fetched content differs
//! from what is stored on disk, and with how many added and removed lines.
//! The line diff itself comes from the `imara_diff` crate; this module
//! states what the library relies on about it and derives the write
//! decision from the counts.

use vstd::prelude::*;

verus! {

/// The added and removed line counts that the line diff of the two texts
/// reports: `.0` lines added, `.1` lines removed. The counts are a function
/// of the two texts alone.
pub uninterp spec fn line_diff(old_text: Seq<char>, new_text: Seq<char>) -> (nat, nat);

/// Relies on imara_diff: `InternedInput::new` tokenizes each text into
/// lines (newline separator included) and `Diff::compute` with
/// `Algorithm::Histogram` marks added and removed lines, counted by
/// `count_additions` and `count_removals`. The counts depend on the two
/// texts alone; for identical texts every line falls into the common
/// prefix, the edit script is empty and both counts are zero. `compute`
/// refuses inputs of `i32::MAX` lines or more; every line holds at least
/// one character, so the character bounds below keep it in range.
#[verifier::external_body]
fn line_diff_counts(old_text: &str, new_text: &str) -> (r: (usize, usize))
    requires
        old_text@.len() < 0x7fff_ffff,
        new_text@.len() < 0x7fff_ffff,
    ensures
        r.0 == line_diff(old_text@, new_text@).0,
        r.1 == line_diff(old_text@, new_text@).1,
        old_text@ == new_text@ ==> r.0 == 0 && r.1 == 0,
{
    let input = imara_diff::InternedInput::new(old_text, new_text);
    let diff = imara_diff::Diff::compute(imara_diff::Algorithm::Histogram, &input);
    (diff.count_additions() as usize, diff.count_removals() as usize)
}

/// Whether fetched content counts as changed against the stored text:
/// identical texts never do, and otherwise the line diff decides.
pub open spec fn spec_differs(old_text: Seq<char>, new_text: Seq<char>) -> bool {
    old_text != new_text && (line_diff(old_text, new_text).0 > 0 || line_diff(
        old_text,
        new_text,
    ).1 > 0)
}

/// Change detector: whether `new_text` differs from `old_text`, with the
/// added and removed line counts of the diff. An absent stored file is
/// passed as the empty string, so a first fetch is always a change.
pub fn differs(old_text: &str, new_text: &str) -> (r: (bool, usize, usize))
    requires
        old_text@.len() < 0x7fff_ffff,
        new_text@.len() < 0x7fff_ffff,
    ensures
        r.0 == spec_differs(old_text@, new_text@),
        r.1 == line_diff(old_text@, new_text@).0,
        r.2 == line_diff(old_text@, new_text@).1,
        // round trip: re-reading identical content reports no change and
        // zero added or removed lines
        old_text@ == new_text@ ==> !r.0 && r.1 == 0 && r.2 == 0,
{
    let (additions, removals) = line_diff_counts(old_text, new_text);
    (additions > 0 || removals > 0, additions, removals)
}

} // verus!
