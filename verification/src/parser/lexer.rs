//! Character classes, identifiers and quoted strings.
use super::error::{ErrorKind, Failure, ParseError, Production};
use super::grammar;
use super::grammar::CharClass;
use super::Parser;
use std::borrow::Cow;
use vstd::prelude::*;
use vstd::string::StrSliceExecFns;

verus! {

/// What std's `String::push` does, which is taken on trust: afterwards the
/// string holds what it held before, followed by the character `c`.
pub assume_specification[ String::push ](s: &mut String, c: char)
    ensures
        final(s)@ == old(s)@.push(c),
;

/// The result `r` of parsing the rest of a string, seen from `k` characters
/// earlier, where those characters stand for `prefix`.
pub open spec fn extended(
    prefix: Seq<char>,
    k: nat,
    r: Result<(Seq<char>, nat), Failure>,
) -> Result<(Seq<char>, nat), Failure> {
    match r {
        Ok((text, n)) => Ok((prefix + text, n + k)),
        Err(f) => Err(f),
    }
}

/// What has been read of a string body that starts at `start`, up to
/// offset `i`: the copy, once one had to be made, else the text itself.
pub open spec fn read_so_far(owned: &Option<String>, s: Seq<char>, start: int, i: int) -> Seq<
    char,
> {
    match owned {
        Some(o) => o@,
        None => s.subrange(start, i),
    }
}

/// Reading one more character of a string body that stands for `c` and is
/// written with `k` characters extends what was read before it.
pub proof fn lemma_extend_step(
    prefix: Seq<char>,
    done: nat,
    c: char,
    k: nat,
    r: Result<(Seq<char>, nat), Failure>,
)
    ensures
        extended(prefix, done, extended(seq![c], k, r)) == extended(prefix.push(c), done + k, r),
{
    match r {
        Ok((text, n)) => {
            assert(prefix + (seq![c] + text) =~= prefix.push(c) + text);
        },
        Err(_) => {},
    }
}

impl CharClass {
    /// Whether `c` belongs to the class.
    pub fn holds(&self, c: char) -> (b: bool)
        ensures
            b == self.contains(c),
    {
        match self {
            CharClass::Digit => '0' <= c && c <= '9',
            CharClass::Space => c == ' ' || c == '\t' || c == '\r' || c == '\n',
            CharClass::IdentifierRest => is_alpha(c) || ('0' <= c && c <= '9') || c == '_' || c
                == '-',
        }
    }
}

/// Whether `c` is one of `A` to `Z` and `a` to `z`.
pub fn is_alpha(c: char) -> (b: bool)
    ensures
        b == grammar::is_alpha(c),
{
    ('a' <= c && c <= 'z') || ('A' <= c && c <= 'Z')
}

/// The character that a backslash followed by `c` stands for, if any.
pub fn unescape(c: char) -> (r: Option<char>)
    ensures
        r == grammar::unescaped(c),
{
    if c == '"' {
        Some('"')
    } else if c == '\\' {
        Some('\\')
    } else if c == 'n' {
        Some('\n')
    } else if c == 'r' {
        Some('\r')
    } else if c == 't' {
        Some('\t')
    } else {
        None
    }
}

impl<'a> Parser<'a> {
    /// The end of the longest run of characters of `class` that starts at
    /// offset `pos`.
    pub fn scan(&self, pos: usize, class: CharClass) -> (end: usize)
        requires
            pos <= self@.len(),
        ensures
            end == pos + grammar::run_length(self@, pos as int, class),
            end <= self@.len(),
    {
        let n = self.len();
        let mut end: usize = pos;
        while end < n && class.holds(self.peek(end).unwrap())
            invariant
                n == self@.len(),
                pos <= end <= n,
                grammar::run_length(self@, pos as int, class) == (end - pos)
                    + grammar::run_length(self@, end as int, class),
            decreases n - end,
        {
            end += 1;
        }
        end
    }

    /// The offset at which `word` ends, if it stands at offset `pos`.
    pub fn word_at(&self, pos: usize, word: &str) -> (r: Option<usize>)
        requires
            pos <= self@.len(),
        ensures
            match r {
                Some(end) => grammar::has_prefix(self@, pos as int, word@) && end == pos
                    + word@.len(),
                None => !grammar::has_prefix(self@, pos as int, word@),
            },
    {
        let len = self.len();
        let n = word.unicode_len();
        if n > len - pos {
            return None;
        }
        let mut i: usize = 0;
        while i < n
            invariant
                len == self@.len(),
                n == word@.len(),
                pos + n <= len,
                i <= n,
                self@.subrange(pos as int, pos + i) == word@.subrange(0, i as int),
            decreases n - i,
        {
            let c = word.get_char(i);
            if !self.has_char(pos + i, c) {
                assert(self@.subrange(pos as int, pos + n)[i as int] != word@[i as int]);
                return None;
            }
            assert(self@.subrange(pos as int, pos + i + 1) =~= word@.subrange(0, i + 1)) by {
                assert(self@.subrange(pos as int, pos + i + 1) =~= self@.subrange(
                    pos as int,
                    pos + i,
                ).push(c));
                assert(word@.subrange(0, i + 1) =~= word@.subrange(0, i as int).push(c));
            }
            i += 1;
        }
        assert(word@.subrange(0, n as int) =~= word@);
        Some(pos + n)
    }

    /// Parses an identifier at offset `pos`: the name, and the offset at
    /// which it ends.
    pub fn identifier_at(&self, pos: usize) -> (r: Result<(&'a str, usize), ParseError>)
        requires
            pos <= self@.len(),
        ensures
            match grammar::identifier(self@, pos as int) {
                Ok((name, n)) => r matches Ok((found, end)) && found@ == name && end == pos + n,
                Err(f) => r matches Err(e) && e@ == f,
            },
            r matches Ok((_, end)) ==> pos < end <= self@.len(),
    {
        let len = self.len();
        let starts = match self.peek(pos) {
            Some(c) => is_alpha(c) || c == '_' || c == '-',
            None => false,
        };
        if starts && pos < len {
            let end = self.scan(pos + 1, CharClass::IdentifierRest);
            Ok((self.slice(pos, end), end))
        } else {
            Err(
                ParseError::new(ErrorKind::ExpectedIdentifier, pos).within(
                    Production::Identifier,
                    pos,
                ),
            )
        }
    }

    /// Parses a double-quoted string at offset `pos`: its content with the
    /// escape sequences resolved, and the offset just after the closing
    /// quote. The content borrows from the text where no backslash stands
    /// between the quotes, and is a copy where one does.
    pub fn string_at(&self, pos: usize) -> (r: Result<(Cow<'a, str>, usize), ParseError>)
        requires
            pos <= self@.len(),
        ensures
            match grammar::quoted_string(self@, pos as int) {
                Ok((text, n)) => r matches Ok((found, end)) && found@ == text && end == pos + n,
                Err(f) => r matches Err(e) && e@ == f,
            },
            r matches Ok((found, end)) ==> pos + 2 <= end <= self@.len() && (
            found matches Cow::Borrowed(_) <==> grammar::is_plain(self@, pos + 1, end - 1)),
    {
        let len = self.len();
        if !self.has_char(pos, '"') {
            return Err(ParseError::new(ErrorKind::ExpectedValue, pos));
        }
        let start = pos + 1;
        let mut i: usize = start;
        let mut owned: Option<String> = None;
        loop
            invariant
                len == self@.len(),
                start == pos + 1,
                start <= i <= len,
                owned is None <==> grammar::is_plain(self@, start as int, i as int),
                grammar::has_char(self@, pos as int, '"'),
                grammar::string_body(self@, start as int) == extended(
                    read_so_far(&owned, self@, start as int, i as int),
                    (i - start) as nat,
                    grammar::string_body(self@, i as int),
                ),
            decreases len - i,
        {
            let ghost before = read_so_far(&owned, self@, start as int, i as int);
            let c = match self.peek(i) {
                Some(c) => c,
                None => {
                    return Err(ParseError::new(ErrorKind::UnterminatedString, len));
                },
            };
            if c == '"' {
                let text = match owned {
                    Some(o) => Cow::Owned(o),
                    None => Cow::Borrowed(self.slice(start, i)),
                };
                assert(before + Seq::<char>::empty() =~= before);
                return Ok((text, i + 1));
            }
            let (plain, width): (char, usize) = if c == '\\' {
                let escaped = match self.peek(i + 1) {
                    Some(e) => e,
                    None => {
                        return Err(ParseError::new(ErrorKind::UnterminatedString, len));
                    },
                };
                match unescape(escaped) {
                    Some(u) => (u, 2),
                    None => {
                        return Err(ParseError::new(ErrorKind::InvalidEscape, i));
                    },
                }
            } else {
                (c, 1)
            };
            proof {
                lemma_extend_step(
                    before,
                    (i - start) as nat,
                    plain,
                    width as nat,
                    grammar::string_body(self@, i + width),
                );
            }
            if width == 1 && owned.is_none() {
                assert(before.push(plain) =~= self@.subrange(start as int, i + 1));
            } else {
                let mut text = match owned {
                    Some(o) => o,
                    None => self.slice(start, i).to_owned(),
                };
                text.push(plain);
                owned = Some(text);
            }
            i += width;
        }
    }
}

} // verus!
