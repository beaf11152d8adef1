//! Counting the tags of a comma-separated tag list.
use vstd::prelude::*;

use vstd::std_specs::iter::IteratorSpec;

use crate::errors::Unit09Error;
use crate::validators::{assert_max_len, bounded_str_error, first_error, outcome};

verus! {

broadcast use vstd::string::axiom_spec_iter, vstd::string::next_postcondition;

/// Whether `c` has the Unicode White_Space property (what `char::is_whitespace`
/// and `str::trim` go by).
pub open spec fn is_white_space(c: char) -> bool {
    ||| c == '\t' || c == '\n' || c == '\u{B}' || c == '\u{C}' || c == '\r' || c == ' '
    ||| c == '\u{85}' || c == '\u{A0}' || c == '\u{1680}'
    ||| '\u{2000}' <= c <= '\u{200A}'
    ||| c == '\u{2028}' || c == '\u{2029}' || c == '\u{202F}' || c == '\u{205F}' || c == '\u{3000}'
}

/// Whether the segment after the last comma of `s` is blank (empty or all
/// white space).
pub open spec fn last_segment_blank(s: Seq<char>) -> bool
    decreases s.len(),
{
    if s.len() == 0 {
        true
    } else if s.last() == ',' {
        true
    } else {
        is_white_space(s.last()) && last_segment_blank(s.drop_last())
    }
}

/// The number of non-blank segments of `s` that a comma closes.
pub open spec fn closed_tag_count(s: Seq<char>) -> nat
    decreases s.len(),
{
    if s.len() == 0 {
        0
    } else if s.last() == ',' {
        closed_tag_count(s.drop_last()) + if last_segment_blank(s.drop_last()) {
            0nat
        } else {
            1nat
        }
    } else {
        closed_tag_count(s.drop_last())
    }
}

/// The number of non-blank comma-separated segments of `s`.
pub open spec fn tag_count(s: Seq<char>) -> nat {
    closed_tag_count(s) + if last_segment_blank(s) {
        0nat
    } else {
        1nat
    }
}

/// The error due to a tag list: empty passes; otherwise at most `max_len`
/// bytes and at most `max_tags` non-blank tags.
pub open spec fn tags_error(s: Seq<char>, max_len: nat, max_tags: nat) -> Option<Unit09Error> {
    if s.len() == 0 {
        None
    } else {
        first_error(
            bounded_str_error(s, max_len),
            if tag_count(s) > max_tags {
                Some(Unit09Error::ValueOutOfRange)
            } else {
                None
            },
        )
    }
}

/// Appending a character never lowers the tag count.
proof fn lemma_tag_count_grows(s: Seq<char>, c: char)
    ensures
        tag_count(s) <= tag_count(s.push(c)),
{
    assert(s.push(c).drop_last() =~= s);
}

/// Whether `c` is white space.
pub fn is_white_space_char(c: char) -> (r: bool)
    ensures
        r == is_white_space(c),
{
    c == '\t' || c == '\n' || c == '\u{B}' || c == '\u{C}' || c == '\r' || c == ' ' || c == '\u{85}'
        || c == '\u{A0}' || c == '\u{1680}' || ('\u{2000}' <= c && c <= '\u{200A}') || c
        == '\u{2028}' || c == '\u{2029}' || c == '\u{202F}' || c == '\u{205F}' || c == '\u{3000}'
}

/// Validate a comma-separated tag list: an empty list passes; any other
/// holds at most `max_len` bytes and at most `max_tags` tags that are not
/// blank.
pub fn assert_tags_reasonable(tags: &str, max_len: usize, max_tags: usize) -> (r: Result<
    (),
    Unit09Error,
>)
    ensures
        r == outcome(tags_error(tags@, max_len as nat, max_tags as nat)),
{
    if tags.is_empty() {
        return Ok(());
    }
    assert_max_len(tags, max_len)?;
    let mut it = tags.chars();
    let ghost mut seen: Seq<char> = Seq::empty();
    let mut count: usize = 0;
    let mut blank: bool = true;
    let mut exceeded: bool = false;
    loop
        invariant
            seen + it.remaining() == tags@,
            blank == last_segment_blank(seen),
            !exceeded ==> count == closed_tag_count(seen) && count <= max_tags,
            exceeded ==> tag_count(seen) > max_tags,
            it.decrease() is Some,
        ensures
            seen == tags@,
            blank == last_segment_blank(seen),
            !exceeded ==> count == closed_tag_count(seen) && count <= max_tags,
            exceeded ==> tag_count(seen) > max_tags,
        decreases it.decrease()->0,
    {
        let ghost before = seen;
        match it.next() {
            None => {
                assert(seen =~= tags@);
                break;
            },
            Some(c) => {
                proof {
                    seen = seen.push(c);
                    assert(seen.drop_last() =~= before);
                    assert(seen + it.remaining() =~= tags@) by {
                        assert(tags@ =~= before + seq![c] + it.remaining());
                    }
                    lemma_tag_count_grows(before, c);
                }
                if c == ',' {
                    if !exceeded && !blank {
                        if count == max_tags {
                            exceeded = true;
                        } else {
                            count = count + 1;
                        }
                    }
                    blank = true;
                } else {
                    blank = blank && is_white_space_char(c);
                }
            },
        }
    }
    if exceeded || (!blank && count == max_tags) {
        return Err(Unit09Error::ValueOutOfRange);
    }
    Ok(())
}

} // verus!
