//! Character-level helpers shared by the parsers of this crate.

use vstd::prelude::*;

verus! {

/// The characters of `s`, in order.
pub fn chars_of(s: &str) -> (out: Vec<char>)
    ensures
        out@ == s@,
{
    broadcast use vstd::string::group_string_axioms;

    let mut out: Vec<char> = Vec::new();
    let it = s.chars();
    for c in iter: it
        invariant
            iter.seq() == s@,
            out@ == s@.take(iter.index()),
    {
        out.push(c);
    }
    assert(out@ == s@);
    out
}

/// `head` followed by `tail`.
pub fn join(head: &str, tail: &str) -> (joined: String)
    ensures
        joined@ == head@ + tail@,
{
    let mut joined = String::from_str(head);
    joined.append(tail);
    joined
}

/// Whether `text` begins with `prefix`, character for character.
pub fn starts_with(text: &Vec<char>, prefix: &Vec<char>) -> (found: bool)
    ensures
        found == prefix@.is_prefix_of(text@),
{
    if prefix.len() > text.len() {
        return false;
    }
    let mut i: usize = 0;
    while i < prefix.len()
        invariant
            i <= prefix.len() <= text.len(),
            forall|k: int| 0 <= k < i ==> text@[k] == prefix@[k],
        decreases prefix.len() - i,
    {
        if text[i] != prefix[i] {
            assert(text@.subrange(0, prefix@.len() as int)[i as int] != prefix@[i as int]);
            return false;
        }
        i += 1;
    }
    assert(prefix@ =~= text@.subrange(0, prefix@.len() as int));
    true
}

/// Whether `text` ends with `suffix`, character for character.
pub fn ends_with(text: &Vec<char>, suffix: &Vec<char>) -> (found: bool)
    ensures
        found == suffix@.is_suffix_of(text@),
{
    if suffix.len() > text.len() {
        return false;
    }
    let shift: usize = text.len() - suffix.len();
    let mut i: usize = 0;
    while i < suffix.len()
        invariant
            i <= suffix.len() <= text.len(),
            shift == text.len() - suffix.len(),
            forall|k: int| 0 <= k < i ==> text@[shift + k] == suffix@[k],
        decreases suffix.len() - i,
    {
        if text[shift + i] != suffix[i] {
            assert(text@.subrange(shift as int, text@.len() as int)[i as int] != suffix@[i as int]);
            return false;
        }
        i += 1;
    }
    assert(suffix@ =~= text@.subrange(shift as int, text@.len() as int));
    true
}

/// The position of the first `wanted` in `text` at or after `from`, or the
/// length of `text` where there is none.
pub open spec fn first_at(text: Seq<char>, wanted: char, from: int) -> int
    decreases text.len() - from,
{
    if from < 0 || from >= text.len() {
        text.len() as int
    } else if text[from] == wanted {
        from
    } else {
        first_at(text, wanted, from + 1)
    }
}

/// The position of the first character of `text` that is not `skipped`, or
/// the length of `text` where every character is `skipped`.
pub open spec fn first_other(text: Seq<char>, skipped: char, from: int) -> int
    decreases text.len() - from,
{
    if from < 0 || from >= text.len() {
        text.len() as int
    } else if text[from] != skipped {
        from
    } else {
        first_other(text, skipped, from + 1)
    }
}

/// Scans for the first `wanted` at or after `from`.
pub fn find_char(text: &Vec<char>, wanted: char, from: usize) -> (at: usize)
    requires
        from <= text.len(),
    ensures
        at == first_at(text@, wanted, from as int),
        from <= at <= text.len(),
{
    let mut i: usize = from;
    while i < text.len() && text[i] != wanted
        invariant
            from <= i <= text.len(),
            first_at(text@, wanted, from as int) == first_at(text@, wanted, i as int),
        decreases text.len() - i,
    {
        i += 1;
    }
    i
}

/// Scans past every leading `skipped` at or after `from`.
pub fn skip_char(text: &Vec<char>, skipped: char, from: usize) -> (at: usize)
    requires
        from <= text.len(),
    ensures
        at == first_other(text@, skipped, from as int),
        from <= at <= text.len(),
{
    let mut i: usize = from;
    while i < text.len() && text[i] == skipped
        invariant
            from <= i <= text.len(),
            first_other(text@, skipped, from as int) == first_other(text@, skipped, i as int),
        decreases text.len() - i,
    {
        i += 1;
    }
    i
}

/// Between `from` and the first character that is not `skipped`, every
/// character is `skipped`, and the one that ends the run is not.
pub proof fn skipped_run(text: Seq<char>, skipped: char, from: int)
    requires
        0 <= from <= text.len(),
    ensures
        from <= first_other(text, skipped, from) <= text.len(),
        forall|i: int| from <= i < first_other(text, skipped, from) ==> text[i] == skipped,
        first_other(text, skipped, from) < text.len() ==> text[first_other(text, skipped, from)]
            != skipped,
    decreases text.len() - from,
{
    if from < text.len() && text[from] == skipped {
        skipped_run(text, skipped, from + 1);
    }
}

/// Between `from` and the first `wanted`, no character is `wanted`, and the
/// one that ends the run is.
pub proof fn scanned_run(text: Seq<char>, wanted: char, from: int)
    requires
        0 <= from <= text.len(),
    ensures
        from <= first_at(text, wanted, from) <= text.len(),
        forall|i: int| from <= i < first_at(text, wanted, from) ==> text[i] != wanted,
        first_at(text, wanted, from) < text.len() ==> text[first_at(text, wanted, from)] == wanted,
    decreases text.len() - from,
{
    if from < text.len() && text[from] != wanted {
        scanned_run(text, wanted, from + 1);
    }
}

} // verus!
