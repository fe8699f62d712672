//! The shape of a template's text: which templates are plain text, and
//! which hold nothing but plain text and placeholders.

use vstd::prelude::*;
use vstd::std_specs::iter::IteratorSpec;

verus! {

/// Whether a tag of the template language opens at position `at` of
/// `template`: `{{`, `{%` or `{#`.
pub open spec fn opens_tag(template: Seq<char>, at: int) -> bool {
    &&& 0 <= at < template.len() - 1
    &&& template[at] == '{'
    &&& (template[at + 1] == '{' || template[at + 1] == '%' || template[at + 1] == '#')
}

/// Whether `template` is plain text: no tag opens anywhere in it.
pub open spec fn is_plain(template: Seq<char>) -> bool {
    forall|at: int| !opens_tag(template, at)
}

/// Where a reader of a template stands after some of its characters.
#[derive(Clone, Copy, Debug, PartialEq, Eq, Structural)]
pub enum Scan {
    /// In text, and the last character does not start a tag.
    Text,
    /// In text, behind a `{` that may start a tag.
    Brace,
    /// Behind `{{`, before the name.
    Lead,
    /// In the name of a placeholder.
    Name,
    /// Behind the name, before `}}`.
    Trail,
    /// Behind the first `}` of `}}`.
    Close,
    /// Something other than text and placeholders was met.
    Refused,
}

/// Whether `c` may start the name of a placeholder: an ASCII letter or
/// `_`.
pub open spec fn is_name_start(c: char) -> bool {
    ||| 'a' <= c <= 'z'
    ||| 'A' <= c <= 'Z'
    ||| c == '_'
}

/// Whether `c` may stand in the name of a placeholder: an ASCII letter, an
/// ASCII digit, `_` or `.`.
pub open spec fn is_name_char(c: char) -> bool {
    ||| is_name_start(c)
    ||| '0' <= c <= '9'
    ||| c == '.'
}

/// Whether `c` is white space inside a tag: a space, a tab, a carriage
/// return or a line feed.
pub open spec fn is_tag_space(c: char) -> bool {
    c == ' ' || c == '\t' || c == '\r' || c == '\n'
}

/// Where the reader stands after one more character. A placeholder is
/// `{{`, white space, a name, white space, `}}`, and nothing else may stand
/// in it; a tag that opens with `{%` or `{#` is refused.
pub open spec fn scan_step(state: Scan, c: char) -> Scan {
    match state {
        Scan::Text => if c == '{' {
            Scan::Brace
        } else {
            Scan::Text
        },
        Scan::Brace => if c == '{' {
            Scan::Lead
        } else if c == '%' || c == '#' {
            Scan::Refused
        } else {
            Scan::Text
        },
        Scan::Lead => if is_tag_space(c) {
            Scan::Lead
        } else if is_name_start(c) {
            Scan::Name
        } else if c == '}' {
            Scan::Close
        } else {
            Scan::Refused
        },
        Scan::Name => if is_name_char(c) {
            Scan::Name
        } else if is_tag_space(c) {
            Scan::Trail
        } else if c == '}' {
            Scan::Close
        } else {
            Scan::Refused
        },
        Scan::Trail => if is_tag_space(c) {
            Scan::Trail
        } else if c == '}' {
            Scan::Close
        } else {
            Scan::Refused
        },
        Scan::Close => if c == '}' {
            Scan::Text
        } else {
            Scan::Refused
        },
        Scan::Refused => Scan::Refused,
    }
}

/// Where the reader stands after all of `template`.
pub open spec fn scan(template: Seq<char>) -> Scan
    decreases template.len(),
{
    if template.len() == 0 {
        Scan::Text
    } else {
        scan_step(scan(template.drop_last()), template.last())
    }
}

/// Whether `template` holds nothing but text and placeholders: every tag
/// that opens in it is `{{ name }}`, with a name of letters, digits, `_` and
/// `.` that starts with a letter or `_`, and is closed.
pub open spec fn is_simple(template: Seq<char>) -> bool {
    scan(template) == Scan::Text || scan(template) == Scan::Brace
}

/// Whether `c` may start the name of a placeholder.
pub fn name_start(c: char) -> (fits: bool)
    ensures
        fits == is_name_start(c),
{
    ('a' <= c && c <= 'z') || ('A' <= c && c <= 'Z') || c == '_'
}

/// Whether `c` may stand in the name of a placeholder.
pub fn name_char(c: char) -> (fits: bool)
    ensures
        fits == is_name_char(c),
{
    name_start(c) || ('0' <= c && c <= '9') || c == '.'
}

/// Whether `c` is white space inside a tag.
pub fn tag_space(c: char) -> (fits: bool)
    ensures
        fits == is_tag_space(c),
{
    c == ' ' || c == '\t' || c == '\r' || c == '\n'
}

/// Where the reader stands after one more character.
pub fn step(state: Scan, c: char) -> (next: Scan)
    ensures
        next == scan_step(state, c),
{
    match state {
        Scan::Text => if c == '{' {
            Scan::Brace
        } else {
            Scan::Text
        },
        Scan::Brace => if c == '{' {
            Scan::Lead
        } else if c == '%' || c == '#' {
            Scan::Refused
        } else {
            Scan::Text
        },
        Scan::Lead => if tag_space(c) {
            Scan::Lead
        } else if name_start(c) {
            Scan::Name
        } else if c == '}' {
            Scan::Close
        } else {
            Scan::Refused
        },
        Scan::Name => if name_char(c) {
            Scan::Name
        } else if tag_space(c) {
            Scan::Trail
        } else if c == '}' {
            Scan::Close
        } else {
            Scan::Refused
        },
        Scan::Trail => if tag_space(c) {
            Scan::Trail
        } else if c == '}' {
            Scan::Close
        } else {
            Scan::Refused
        },
        Scan::Close => if c == '}' {
            Scan::Text
        } else {
            Scan::Refused
        },
        Scan::Refused => Scan::Refused,
    }
}

/// Whether `template` holds nothing but text and placeholders.
pub fn is_placeholder_template(template: &str) -> (simple: bool)
    ensures
        simple == is_simple(template@),
{
    broadcast use {vstd::string::axiom_spec_iter, vstd::string::next_postcondition};

    let mut rest = template.chars();
    let mut state = Scan::Text;
    let ghost mut read: int = 0;
    assert(template@.take(0) =~= Seq::<char>::empty());
    assert(template@.skip(0) =~= template@);
    loop
        invariant
            0 <= read <= template@.len(),
            rest.remaining() == template@.skip(read),
            state == scan(template@.take(read)),
        decreases template@.len() - read,
    {
        match rest.next() {
            Some(c) => {
                proof {
                    assert(template@.skip(read)[0] == template@[read]);
                    assert(template@.skip(read).drop_first() =~= template@.skip(read + 1));
                    assert(template@.take(read + 1).drop_last() =~= template@.take(read));
                    assert(template@.take(read + 1).last() == template@[read]);
                    read = read + 1;
                }
                state = step(state, c);
            },
            None => {
                assert(template@.take(read) =~= template@);
                return state == Scan::Text || state == Scan::Brace;
            },
        }
    }
}

/// Plain text is among the templates of text and placeholders, and behind
/// it the reader stands in text.
pub proof fn lemma_plain_is_simple(template: Seq<char>)
    requires
        is_plain(template),
    ensures
        is_simple(template),
        scan(template) == Scan::Brace <==> template.len() > 0 && template.last() == '{',
    decreases template.len(),
{
    if template.len() > 0 {
        let front = template.drop_last();
        assert forall|at: int| !opens_tag(front, at) by {
            if opens_tag(front, at) {
                assert(opens_tag(template, at));
            }
        }
        lemma_plain_is_simple(front);
        if scan(front) == Scan::Brace {
            assert(!opens_tag(template, template.len() - 2));
            assert(front.last() == template[template.len() - 2]);
        }
    }
}

} // verus!
