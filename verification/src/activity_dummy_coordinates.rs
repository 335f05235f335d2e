//! Dummy coordinates for activity events: event lines of type `actstart` or `actend`
//! without coordinates get `x="0" y="0"` before their closing `/>`.

use crate::bash_utils::texts;
use crate::text::{chars_of, contains_chars, contains_seq, occurs_at, occurs_at_exec, string_of};
use vstd::prelude::*;

verus! {

/// ASCII whitespace (`u8::is_ascii_whitespace`): space, tab, line feed, form feed,
/// carriage return.
pub open spec fn is_ascii_whitespace(c: char) -> bool {
    c == ' ' || c == '\t' || c == '\n' || c == '\x0C' || c == '\r'
}

/// The last index below `k` at which `pat` occurs in `s`.
pub open spec fn last_occurrence_below(s: Seq<char>, pat: Seq<char>, k: int) -> Option<int>
    decreases k,
{
    if k <= 0 {
        None
    } else if occurs_at(s, pat, k - 1) {
        Some(k - 1)
    } else {
        last_occurrence_below(s, pat, k - 1)
    }
}

/// The last index at which `pat` occurs in `s` (`str::rfind`).
pub open spec fn last_occurrence(s: Seq<char>, pat: Seq<char>) -> Option<int> {
    last_occurrence_below(s, pat, s.len() + 1int)
}

/// The start of the run of ASCII whitespace that ends at index `end` of `s`.
pub open spec fn whitespace_run_start(s: Seq<char>, end: int) -> int
    decreases end,
{
    if end > 0 && is_ascii_whitespace(s[end - 1]) {
        whitespace_run_start(s, end - 1)
    } else {
        end
    }
}

/// The line is an event of type `actstart` or `actend`.
pub open spec fn is_activity_event(line: Seq<char>) -> bool {
    contains_seq(line, "<event"@) && (contains_seq(line, "type=\"actstart\""@) || contains_seq(
        line,
        "type=\"actend\""@,
    ))
}

/// An attribute starts at index `i`: `name_eq` (a name followed by `="`) occurs there,
/// at the start of the line or just after ASCII whitespace.
pub open spec fn attribute_at(line: Seq<char>, name_eq: Seq<char>, i: int) -> bool {
    occurs_at(line, name_eq, i) && (i == 0 || is_ascii_whitespace(line[i - 1]))
}

/// The line has an attribute `name_eq` (a name followed by `="`).
pub open spec fn has_attribute(line: Seq<char>, name_eq: Seq<char>) -> bool {
    exists|i: int| attribute_at(line, name_eq, i)
}

/// The line already has a coordinate attribute: an attribute named `x` or `y`.
pub open spec fn has_coordinates(line: Seq<char>) -> bool {
    has_attribute(line, "x=\""@) || has_attribute(line, "y=\""@)
}

/// The line with `x="0" y="0"` inserted before the whitespace that precedes its last
/// `/>`, if it is an activity event without coordinates that has a `/>`; else the line
/// unchanged.
pub open spec fn with_dummy_coordinates(line: Seq<char>) -> Seq<char> {
    if !is_activity_event(line) || has_coordinates(line) {
        line
    } else {
        match last_occurrence(line, "/>"@) {
            None => line,
            Some(closing) => {
                let at = whitespace_run_start(line, closing);
                line.take(at) + " x=\"0\" y=\"0\""@ + line.skip(at)
            },
        }
    }
}

fn is_ascii_whitespace_exec(c: char) -> (b: bool)
    ensures
        b == is_ascii_whitespace(c),
{
    c == ' ' || c == '\t' || c == '\n' || c == '\x0C' || c == '\r'
}

proof fn lemma_last_occurrence_none(s: Seq<char>, pat: Seq<char>, k: int)
    requires
        forall|i: int| 0 <= i < k ==> !occurs_at(s, pat, i),
    ensures
        last_occurrence_below(s, pat, k) is None,
    decreases k,
{
    if k > 0 {
        lemma_last_occurrence_none(s, pat, k - 1);
    }
}

proof fn lemma_last_occurrence_found(s: Seq<char>, pat: Seq<char>, k: int, i: int)
    requires
        0 <= i < k,
        occurs_at(s, pat, i),
        forall|j: int| i < j < k ==> !occurs_at(s, pat, j),
    ensures
        last_occurrence_below(s, pat, k) == Some(i),
    decreases k,
{
    if k - 1 > i {
        lemma_last_occurrence_found(s, pat, k - 1, i);
    }
}

/// Whether the line has an attribute `name_eq` (a name followed by `="`).
fn has_attribute_exec(line: &Vec<char>, name_eq: &Vec<char>) -> (b: bool)
    ensures
        b == has_attribute(line@, name_eq@),
{
    let mut i: usize = 0;
    while i < line.len()
        invariant
            i <= line@.len(),
            forall|k: int| 0 <= k < i ==> !attribute_at(line@, name_eq@, k),
        decreases line@.len() - i,
    {
        if occurs_at_exec(line, name_eq, i) && (i == 0 || is_ascii_whitespace_exec(line[i - 1])) {
            assert(attribute_at(line@, name_eq@, i as int));
            return true;
        }
        i = i + 1;
    }
    if occurs_at_exec(line, name_eq, i) && (i == 0 || is_ascii_whitespace_exec(line[i - 1])) {
        assert(attribute_at(line@, name_eq@, i as int));
        return true;
    }
    assert forall|k: int| !attribute_at(line@, name_eq@, k) by {
        if k > line@.len() {
            assert(!occurs_at(line@, name_eq@, k));
        }
    }
    false
}

/// Adds `x="0" y="0"` to event lines of type `actstart`/`actend` when coordinates are
/// missing, before the whitespace that precedes the closing `/>`.
pub fn add_dummy_coordinates_to_line(line: &str) -> (r: String)
    ensures
        r@ == with_dummy_coordinates(line@),
{
    let chars = chars_of(line);
    let is_target_event = contains_chars(&chars, &chars_of("<event")) && (contains_chars(
        &chars,
        &chars_of("type=\"actstart\""),
    ) || contains_chars(&chars, &chars_of("type=\"actend\"")));
    let has_coords = has_attribute_exec(&chars, &chars_of("x=\"")) || has_attribute_exec(
        &chars,
        &chars_of("y=\""),
    );
    if !is_target_event || has_coords {
        return String::from_str(line);
    }
    proof {
        reveal_strlit("/>");
    }
    let closing = chars_of("/>");
    let found = last_occurrence_exec(&chars, &closing);
    match found {
        None => String::from_str(line),
        Some(closing_index) => {
            let mut insertion_index = closing_index;
            while insertion_index > 0 && is_ascii_whitespace_exec(chars[insertion_index - 1])
                invariant
                    insertion_index <= closing_index <= chars@.len(),
                    whitespace_run_start(chars@, insertion_index as int) == whitespace_run_start(
                        chars@,
                        closing_index as int,
                    ),
                decreases insertion_index,
            {
                insertion_index = insertion_index - 1;
            }
            let mut out: Vec<char> = Vec::new();
            let mut i: usize = 0;
            while i < insertion_index
                invariant
                    i <= insertion_index <= chars@.len(),
                    out@ == chars@.take(i as int),
                decreases insertion_index - i,
            {
                out.push(chars[i]);
                i = i + 1;
                assert(chars@.take(i as int) =~= chars@.take(i - 1).push(chars@[i - 1]));
            }
            let mid = chars_of(" x=\"0\" y=\"0\"");
            let mut j: usize = 0;
            while j < mid.len()
                invariant
                    i == insertion_index,
                    j <= mid@.len(),
                    out@ == chars@.take(i as int) + mid@.take(j as int),
                decreases mid@.len() - j,
            {
                out.push(mid[j]);
                j = j + 1;
                assert(mid@.take(j as int) =~= mid@.take(j - 1).push(mid@[j - 1]));
            }
            assert(mid@.take(mid@.len() as int) =~= mid@);
            let ghost prefix = out@;
            while i < chars.len()
                invariant
                    insertion_index <= i <= chars@.len(),
                    out@ == prefix + chars@.subrange(insertion_index as int, i as int),
                decreases chars@.len() - i,
            {
                out.push(chars[i]);
                i = i + 1;
                assert(chars@.subrange(insertion_index as int, i as int) =~= chars@.subrange(
                    insertion_index as int,
                    i - 1,
                ).push(chars@[i - 1]));
            }
            assert(chars@.subrange(insertion_index as int, chars@.len() as int) =~= chars@.skip(
                insertion_index as int,
            ));
            string_of(&out)
        },
    }
}

/// The last index at which the non-empty `pat` occurs in `s`.
fn last_occurrence_exec(s: &Vec<char>, pat: &Vec<char>) -> (r: Option<usize>)
    requires
        pat@.len() > 0,
    ensures
        match r {
            Some(i) => last_occurrence(s@, pat@) == Some(i as int) && i < s@.len(),
            None => last_occurrence(s@, pat@) is None,
        },
{
    let mut k: usize = s.len();
    while k > 0
        invariant
            k <= s@.len(),
            pat@.len() > 0,
            forall|j: int| k <= j <= s@.len() ==> !occurs_at(s@, pat@, j),
        decreases k,
    {
        if occurs_at_exec(s, pat, k - 1) {
            proof {
                lemma_last_occurrence_found(s@, pat@, s@.len() + 1int, k - 1);
            }
            return Some(k - 1);
        }
        k = k - 1;
    }
    proof {
        lemma_last_occurrence_none(s@, pat@, s@.len() + 1int);
    }
    None
}

/// Adding dummy coordinates is idempotent: a line that already went through the
/// rewriting is left unchanged by a second one.
pub proof fn law_dummy_coordinates_idempotent(line: Seq<char>)
    ensures
        with_dummy_coordinates(with_dummy_coordinates(line)) == with_dummy_coordinates(line),
{
    let once = with_dummy_coordinates(line);
    if once != line {
        let closing = last_occurrence(line, "/>"@)->0;
        let at = whitespace_run_start(line, closing);
        lemma_last_occurrence_bound(line, "/>"@, line.len() + 1int);
        lemma_whitespace_run_start_bounds(line, closing);
        reveal_strlit(" x=\"0\" y=\"0\"");
        reveal_strlit("x=\"");
        let mid = " x=\"0\" y=\"0\""@;
        assert(once == line.take(at) + mid + line.skip(at));
        assert(once.subrange(at + 1, at + 4) =~= "x=\""@);
        assert(occurs_at(once, "x=\""@, at + 1));
        assert(once[at] == ' ');
        assert(attribute_at(once, "x=\""@, at + 1));
        assert(has_coordinates(once));
    }
}

/// The start of a whitespace run lies between the start of the text and its end.
proof fn lemma_whitespace_run_start_bounds(s: Seq<char>, end: int)
    requires
        0 <= end <= s.len(),
    ensures
        0 <= whitespace_run_start(s, end) <= end,
    decreases end,
{
    if end > 0 && is_ascii_whitespace(s[end - 1]) {
        lemma_whitespace_run_start_bounds(s, end - 1);
    }
}

/// A last occurrence found below `k` lies below `k` and within the text.
proof fn lemma_last_occurrence_bound(s: Seq<char>, pat: Seq<char>, k: int)
    ensures
        match last_occurrence_below(s, pat, k) {
            Some(i) => 0 <= i < k && occurs_at(s, pat, i) && i <= s.len(),
            None => true,
        },
    decreases k,
{
    if k > 0 && !occurs_at(s, pat, k - 1) {
        lemma_last_occurrence_bound(s, pat, k - 1);
    }
}

/// Number of lines that the rewriting changes.
pub open spec fn changed_lines(lines: Seq<Seq<char>>) -> nat
    decreases lines.len(),
{
    if lines.len() == 0 {
        0
    } else {
        changed_lines(lines.drop_last()) + (if with_dummy_coordinates(lines.last()) != lines.last() {
            1nat
        } else {
            0nat
        })
    }
}

/// The rewriting of an event file given as its lines: each line with dummy
/// coordinates added where they are missing, and the number of lines changed.
/// Reading and writing the file are the caller's.
pub fn add_dummy_coordinates_to_file(lines: &Vec<String>) -> (r: (Vec<String>, usize))
    ensures
        r.0@.len() == lines@.len(),
        forall|i: int| 0 <= i < lines@.len() ==> #[trigger] r.0@[i]@ == with_dummy_coordinates(lines@[i]@),
        r.1 == changed_lines(texts(lines@)),
{
    let mut out: Vec<String> = Vec::new();
    let mut changed: usize = 0;
    let mut i: usize = 0;
    while i < lines.len()
        invariant
            i <= lines@.len(),
            out@.len() == i,
            forall|k: int| 0 <= k < i ==> #[trigger] out@[k]@ == with_dummy_coordinates(lines@[k]@),
            changed == changed_lines(texts(lines@).take(i as int)),
            changed <= i,
        decreases lines@.len() - i,
    {
        let updated = add_dummy_coordinates_to_line(lines[i].as_str());
        proof {
            assert(texts(lines@).take(i + 1).drop_last() =~= texts(lines@).take(i as int));
        }
        if updated != lines[i] {
            changed = changed + 1;
        }
        out.push(updated);
        i = i + 1;
    }
    assert(texts(lines@).take(lines@.len() as int) =~= texts(lines@));
    (out, changed)
}

} // verus!
