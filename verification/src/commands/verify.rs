//! The decisions of the `verify` command: whether a managed file was modified, and the
//! line-by-line difference shown for it.

use vstd::prelude::*;

use crate::utils::{hash_bytes, sha256_digest, spec_hex_lower};
use vstd::string::StringSliceAdditionalSpecFns;

verus! {

/// The changes of a line diff: a tag (`'-'` removed, `'+'` added, `' '` kept) and the line's
/// text, terminator included.
pub open spec fn change_views(cs: Seq<(char, String)>) -> Seq<(char, Seq<char>)> {
    cs.map_values(|c: (char, String)| (c.0, c.1@))
}

/// The line changes that `similar::TextDiff::from_lines` finds from `old` to `new`.
pub uninterp spec fn line_changes(old: Seq<char>, new: Seq<char>) -> Seq<(char, Seq<char>)>;

/// The text on the old side of a diff: the kept and removed lines, in order.
pub open spec fn old_side(cs: Seq<(char, Seq<char>)>) -> Seq<char>
    decreases cs.len(),
{
    if cs.len() == 0 {
        Seq::empty()
    } else {
        old_side(cs.drop_last()) + if cs.last().0 == '+' { Seq::empty() } else { cs.last().1 }
    }
}

/// The text on the new side of a diff: the kept and added lines, in order.
pub open spec fn new_side(cs: Seq<(char, Seq<char>)>) -> Seq<char>
    decreases cs.len(),
{
    if cs.len() == 0 {
        Seq::empty()
    } else {
        new_side(cs.drop_last()) + if cs.last().0 == '-' { Seq::empty() } else { cs.last().1 }
    }
}

/// Calls `similar::TextDiff::from_lines` (Myers, no deadline) and lists all its changes, each
/// tag written as `ChangeTag` displays it. The list is named by `line_changes`; as any diff, its
/// kept and removed lines make up `old` and its kept and added lines make up `new`.
#[verifier::external_body]
fn line_diff(old: &str, new: &str) -> (r: Vec<(char, String)>)
    ensures
        change_views(r@) == line_changes(old@, new@),
        forall|i: int| 0 <= i < r@.len() ==> (#[trigger] r@[i]).0 == '-' || r@[i].0 == '+' || r@[i].0 == ' ',
        old_side(change_views(r@)) == old@,
        new_side(change_views(r@)) == new@,
{
    let mut r = Vec::new();
    for change in similar::TextDiff::from_lines(old, new).iter_all_changes() {
        let tag = match change.tag() {
            similar::ChangeTag::Delete => '-',
            similar::ChangeTag::Insert => '+',
            similar::ChangeTag::Equal => ' ',
        };
        r.push((tag, change.value().to_string()));
    }
    r
}

/// Whether a line's text ends in a line terminator.
pub open spec fn ends_with_newline(s: Seq<char>) -> bool {
    s.len() > 0 && (s.last() == '\n' || s.last() == '\r')
}

/// A change as shown: `- `, `+ ` or two spaces, the line, and a newline where it had none.
pub open spec fn shown_line(tag: char, line: Seq<char>) -> Seq<char> {
    (if tag == '-' {
        "- "@
    } else if tag == '+' {
        "+ "@
    } else {
        "  "@
    }) + line + if ends_with_newline(line) {
        Seq::empty()
    } else {
        "\n"@
    }
}

/// Each change as shown, with its tag.
pub fn show_changes(changes: &Vec<(char, String)>) -> (r: Vec<(char, String)>)
    ensures
        r@.len() == changes@.len(),
        forall|i: int|
            0 <= i < r@.len() ==> (#[trigger] r@[i]).0 == changes@[i].0 && r@[i].1@ == shown_line(
                changes@[i].0,
                changes@[i].1@,
            ),
{
    let mut r: Vec<(char, String)> = Vec::new();
    let mut i: usize = 0;
    while i < changes.len()
        invariant
            i <= changes@.len(),
            r@.len() == i,
            forall|j: int|
                0 <= j < i ==> (#[trigger] r@[j]).0 == changes@[j].0 && r@[j].1@ == shown_line(
                    changes@[j].0,
                    changes@[j].1@,
                ),
        decreases changes.len() - i,
    {
        let tag = changes[i].0;
        let line = changes[i].1.as_str();
        let mut s = if tag == '-' {
            "- ".to_string()
        } else if tag == '+' {
            "+ ".to_string()
        } else {
            "  ".to_string()
        };
        s.append(line);
        let cs = crate::text::chars_of(line);
        let n = cs.len();
        if !(n > 0 && (cs[n - 1] == '\n' || cs[n - 1] == '\r')) {
            s.append("\n");
        }
        r.push((tag, s));
        i = i + 1;
    }
    r
}

/// Compares a managed file as it is with what it should hold: `None` when both hash alike,
/// else the changes from the file to the wanted content, as shown.
pub fn compare_file(actual: &str, expected: &str) -> (r: Option<Vec<(char, String)>>)
    ensures
        r is None <==> spec_hex_lower(sha256_digest(actual.spec_bytes())) == spec_hex_lower(
            sha256_digest(expected.spec_bytes()),
        ),
        actual@ == expected@ ==> r is None,
        r matches Some(lines) ==> lines@.len() == line_changes(actual@, expected@).len(),
        r matches Some(lines) ==> forall|i: int|
            0 <= i < lines@.len() ==> (#[trigger] lines@[i]).0 == line_changes(actual@, expected@)[i].0
                && lines@[i].1@ == shown_line(
                line_changes(actual@, expected@)[i].0,
                line_changes(actual@, expected@)[i].1,
            ),
{
    let actual_hash = hash_bytes(actual.as_bytes());
    let expected_hash = hash_bytes(expected.as_bytes());
    if actual_hash == expected_hash {
        None
    } else {
        let changes = line_diff(actual, expected);
        let shown = show_changes(&changes);
        proof {
            assert forall|i: int| 0 <= i < shown@.len() implies (#[trigger] shown@[i]).0 == line_changes(
                actual@,
                expected@,
            )[i].0 && shown@[i].1@ == shown_line(
                line_changes(actual@, expected@)[i].0,
                line_changes(actual@, expected@)[i].1,
            ) by {
                assert(change_views(changes@)[i] == (changes@[i].0, changes@[i].1@));
            }
        }
        Some(shown)
    }
}

} // verus!
