//! Search terms as the directory and the catalogue take them: patterns for a
//! `LIKE` comparison in which the term's own wildcards count as plain
//! characters.

use vstd::prelude::*;
use vstd::std_specs::iter::IteratorSpec;
use vstd::string::*;

verus! {

/// A character as it stands in a pattern: the two wildcards and the escape
/// character itself get the escape character in front.
pub open spec fn escaped_char(c: char) -> Seq<char> {
    if c == '\\' || c == '%' || c == '_' {
        seq!['\\', c]
    } else {
        seq![c]
    }
}

/// A text as it stands in a pattern: every character escaped as needed.
pub open spec fn like_escaped(text: Seq<char>) -> Seq<char>
    decreases text.len(),
{
    if text.len() == 0 {
        Seq::empty()
    } else {
        like_escaped(text.drop_last()) + escaped_char(text.last())
    }
}

/// The pattern that matches every text beginning with `term`.
pub open spec fn prefix_pattern(term: Seq<char>) -> Seq<char> {
    like_escaped(term) + seq!['%']
}

/// The pattern that matches every text containing `term`.
pub open spec fn containing_pattern(term: Seq<char>) -> Seq<char> {
    seq!['%'] + like_escaped(term) + seq!['%']
}

/// Appends one character to a string with `String::push`.
#[verifier::external_body]
fn push_char(text: &mut String, c: char)
    ensures
        final(text)@ == old(text)@.push(c),
{
    text.push(c);
}

fn append_escaped(pattern: &mut String, term: &str)
    ensures
        final(pattern)@ == old(pattern)@ + like_escaped(term@),
{
    let ghost before = pattern@;
    let chars = term.chars();
    assert(before + like_escaped(term@.take(0)) =~= before);
    for c in it: chars
        invariant
            it.seq() == term@,
            pattern@ == before + like_escaped(term@.take(it.index() as int)),
    {
        let ghost at = it.index() as int;
        if c == '\\' || c == '%' || c == '_' {
            push_char(pattern, '\\');
        }
        push_char(pattern, c);
        proof {
            assert(term@.take(at + 1).drop_last() =~= term@.take(at));
            assert(term@.take(at + 1).last() == c);
            assert(pattern@ =~= before + like_escaped(term@.take(at + 1)));
        }
    }
    assert(term@.take(term@.len() as int) =~= term@);
}

/// Escapes a search term for use in a pattern.
pub fn escape_like(term: &str) -> (escaped: String)
    ensures
        escaped@ == like_escaped(term@),
{
    let mut escaped = String::new();
    append_escaped(&mut escaped, term);
    assert(escaped@ =~= like_escaped(term@));
    escaped
}

/// The pattern that matches every text beginning with the term.
pub fn pattern_beginning_with(term: &str) -> (pattern: String)
    ensures
        pattern@ == prefix_pattern(term@),
{
    let mut pattern = escape_like(term);
    push_char(&mut pattern, '%');
    pattern
}

/// The pattern that matches every text containing the term.
pub fn pattern_containing(term: &str) -> (pattern: String)
    ensures
        pattern@ == containing_pattern(term@),
{
    let mut pattern = String::new();
    push_char(&mut pattern, '%');
    append_escaped(&mut pattern, term);
    push_char(&mut pattern, '%');
    assert(pattern@ =~= containing_pattern(term@));
    pattern
}

} // verus!
