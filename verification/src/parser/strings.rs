//! Quoted strings.
use super::error::ParseError;
use super::grammar;
use super::grammar::{escaped, escaped_char};
use super::Parser;
use std::borrow::Cow;
use vstd::prelude::*;

verus! {

/// Parses the double-quoted string that `input` starts with: what follows
/// the closing quote, and the content of the string with `\"`, `\\`, `\n`,
/// `\r` and `\t` resolved.
///
/// Fails with `ExpectedValue` where `input` does not start with a quote,
/// with `UnterminatedString` where the closing quote is missing, and with
/// `InvalidEscape`, at the backslash, where a backslash is followed by any
/// other character.
pub fn parse_string<'a>(input: &'a str) -> (r: Result<(&'a str, String), ParseError>)
    ensures
        match grammar::quoted_string(input@, 0) {
            Ok((text, n)) => r matches Ok((rest, found)) && found@ == text && rest@ == input@.skip(
                n as int,
            ),
            Err(f) => r matches Err(e) && e@ == f,
        },
{
    let parser = Parser::from(input);
    match parser.string_at(0) {
        Ok((text, end)) => {
            let owned = match text {
                Cow::Borrowed(part) => part.to_owned(),
                Cow::Owned(copy) => copy,
            };
            Ok((parser.rest(end), owned))
        },
        Err(e) => Err(e),
    }
}

/// Writing two texts one after the other escapes each as it would be
/// escaped alone.
pub proof fn lemma_escaped_concat(a: Seq<char>, b: Seq<char>)
    ensures
        escaped(a + b) == escaped(a) + escaped(b),
    decreases a.len(),
{
    if a.len() == 0 {
        assert(a + b =~= b);
        assert(escaped(a) + escaped(b) =~= escaped(b));
    } else {
        lemma_escaped_concat(a.drop_first(), b);
        assert((a + b).drop_first() =~= a.drop_first() + b);
        assert(escaped_char(a[0]) + (escaped(a.drop_first()) + escaped(b)) =~= (escaped_char(a[0])
            + escaped(a.drop_first())) + escaped(b));
    }
}

/// Writes `text` as it stands inside a quoted string: with a backslash
/// before every quote and every backslash.
pub fn escape(text: &str) -> (r: String)
    ensures
        r@ == escaped(text@),
{
    let mut out = String::new();
    for c in iter: text.chars()
        invariant
            iter.seq() == text@,
            out@ == escaped(text@.take(iter.index() as int)),
    {
        proof {
            let i = iter.index() as int;
            lemma_escaped_concat(text@.take(i), seq![c]);
            assert(text@.take(i) + seq![c] =~= text@.take(i + 1));
            assert(seq![c].drop_first() =~= Seq::<char>::empty());
            assert(escaped(seq![c].drop_first()) =~= Seq::<char>::empty());
            assert(escaped(seq![c]) =~= escaped_char(c));
        }
        if c == '"' || c == '\\' {
            out.push('\\');
            assert(escaped_char(c) =~= seq!['\\'].push(c));
        }
        out.push(c);
    }
    assert(text@.take(text@.len() as int) =~= text@);
    out
}

} // verus!
