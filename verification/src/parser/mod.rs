//! Parsing of machine-interface output records.
//!
//! A [`Parser`] holds the text of one record. Its methods parse one
//! production at a given offset; the functions of this module parse one
//! production at the start of a text and hand back what follows it.
pub mod error;
pub mod grammar;
pub mod laws;
pub mod lexer;
pub mod locality;
pub mod notation;
pub mod output_types;
pub mod progress;
pub mod records;
pub mod round_trip;
pub mod strings;
pub mod truncation;
pub mod values;

use error::{Frame, ParseError, Production};
use grammar::CharClass;
use output_types::{
    all_canonical, fields_of, is_canonical, AsyncKind, AsyncOutput, ListValue, OutputClass,
    OutputData, Output, StreamOutput, Token, Value, Variable, OOB,
};
use progress::{
    lemma_list_elements_in_bounds, lemma_list_in_bounds, lemma_quoted_string_in_bounds,
    lemma_tuple_value_in_bounds, lemma_value_in_bounds, lemma_variable_in_bounds,
};
use records::token_of;
use vstd::prelude::*;
use vstd::string::StrSliceExecFns;

verus! {

/// The number of levels of tuples and lists that the parsing functions of
/// this module follow before they give up with
/// [`error::ErrorKind::NestingTooDeep`]. A tuple or a list that is parsed
/// on its own counts as the first level.
pub const MAX_NESTING_DEPTH: usize = 128;

/// The text of one record, ready to be parsed at any offset. Offsets count
/// characters.
#[derive(Debug)]
pub struct Parser<'a> {
    input: &'a str,
    chars: Vec<char>,
    ascii: bool,
}

impl<'a> View for Parser<'a> {
    type V = Seq<char>;

    closed spec fn view(&self) -> Seq<char> {
        self.input@
    }
}

impl<'a> Parser<'a> {
    #[verifier::type_invariant]
    spec fn consistent(&self) -> bool {
        &&& self.chars@ == self.input@
        &&& self.ascii ==> self.input.is_ascii()
    }

    /// A parser for the text `data`.
    pub fn from(data: &'a str) -> (parser: Parser<'a>)
        ensures
            parser@ == data@,
    {
        let mut chars: Vec<char> = Vec::new();
        for c in iter: data.chars()
            invariant
                iter.seq() == data@,
                chars@ == iter.seq().take(iter.index() as int),
        {
            chars.push(c);
        }
        assert(chars@ =~= data@);
        Parser { input: data, chars, ascii: data.is_ascii() }
    }

    /// The number of characters of the text.
    pub fn len(&self) -> (n: usize)
        ensures
            n == self@.len(),
    {
        proof {
            use_type_invariant(self);
        }
        self.chars.len()
    }

    /// The character at offset `pos`, if the text is that long.
    pub fn peek(&self, pos: usize) -> (c: Option<char>)
        ensures
            match c {
                Some(x) => pos < self@.len() && self@[pos as int] == x,
                None => pos >= self@.len(),
            },
    {
        proof {
            use_type_invariant(self);
        }
        if pos < self.chars.len() {
            Some(self.chars[pos])
        } else {
            None
        }
    }

    /// Whether the character at offset `pos` is `c`.
    pub fn has_char(&self, pos: usize, c: char) -> (b: bool)
        ensures
            b == grammar::has_char(self@, pos as int, c),
    {
        proof {
            use_type_invariant(self);
        }
        pos < self.chars.len() && self.chars[pos] == c
    }

    /// The text from offset `from` up to offset `to`.
    pub fn slice(&self, from: usize, to: usize) -> (part: &'a str)
        requires
            from <= to <= self@.len(),
        ensures
            part@ == self@.subrange(from as int, to as int),
    {
        proof {
            use_type_invariant(self);
        }
        if self.ascii {
            self.input.substring_ascii(from, to)
        } else {
            self.input.substring_char(from, to)
        }
    }

    /// The text from offset `from` on.
    pub fn rest(&self, from: usize) -> (part: &'a str)
        requires
            from <= self@.len(),
        ensures
            part@ == self@.skip(from as int),
    {
        let part = self.slice(from, self.len());
        assert(self@.subrange(from as int, self@.len() as int) == self@.skip(from as int));
        part
    }
}

/// Parses the output record that `input` starts with: what follows the
/// record, and the record.
///
/// After the optional token, `^` introduces a result record, `*`, `+` and
/// `=` an async record, `~`, `@` and `&` a stream record; anything else
/// fails with `UnrecognizedRecordMarker`.
pub fn parse_mi_output<'a>(input: &'a str) -> (r: Result<(&'a str, Output<'a>), ParseError>)
    ensures
        match grammar::output(input@, MAX_NESTING_DEPTH as nat) {
            Ok((record, n)) => r matches Ok((rest, found))
                && found@ == record && found.is_canonical()
                && rest@ == input@.skip(n as int),
            Err(f) => r matches Err(e) && e@ == f,
        },
{
    let parser = Parser::from(input);
    match parser.output(MAX_NESTING_DEPTH) {
        Ok((found, end)) => Ok((parser.rest(end), found)),
        Err(e) => Err(e),
    }
}

/// Parses the result record that `input` starts with: the optional token,
/// `^`, the class, the results behind a comma if one follows the class,
/// and the line terminator if there is one. Fails with `ExpectedVariable`
/// where a comma follows the class and no variable begins behind it.
pub fn result_record<'a>(input: &'a str) -> (r: Result<(&'a str, OutputData<'a>), ParseError>)
    ensures
        match grammar::result_record(input@, 0, MAX_NESTING_DEPTH as nat) {
            Ok((data, n)) => r matches Ok((rest, found))
                && found@ == data && all_canonical(found.2@)
                && rest@ == input@.skip(n as int),
            Err(f) => r matches Err(e) && e@ == f,
        },
{
    let parser = Parser::from(input);
    match parser.result_record_at(0, MAX_NESTING_DEPTH) {
        Ok((found, end)) => Ok((parser.rest(end), found)),
        Err(e) => Err(e),
    }
}

/// Parses the out-of-band record that `input` starts with: an async record
/// or a stream record.
pub fn oob_record<'a>(input: &'a str) -> (r: Result<(&'a str, OOB<'a>), ParseError>)
    ensures
        match grammar::oob_record(input@, 0, MAX_NESTING_DEPTH as nat) {
            Ok((record, n)) => r matches Ok((rest, found))
                && found@ == record && found.is_canonical()
                && rest@ == input@.skip(n as int),
            Err(f) => r matches Err(e) && e@ == f,
        },
{
    let parser = Parser::from(input);
    match parser.oob_record_at(0, MAX_NESTING_DEPTH) {
        Ok((found, end)) => Ok((parser.rest(end), found)),
        Err(e) => Err(e),
    }
}

/// Parses the stream record that `input` starts with: `~`, `@` or `&`, a
/// quoted string, and the line terminator if there is one. The record
/// carries the text between the quotes as it is written.
pub fn stream_record<'a>(input: &'a str) -> (r: Result<(&'a str, StreamOutput<'a>), ParseError>)
    ensures
        match grammar::stream_record(input@, 0) {
            Ok((record, n)) => r matches Ok((rest, found)) && found@ == record
                && rest@ == input@.skip(n as int),
            Err(f) => r matches Err(e) && e@ == f,
        },
{
    let parser = Parser::from(input);
    match parser.stream_record_at(0) {
        Ok((found, end)) => Ok((parser.rest(end), found)),
        Err(e) => Err(e),
    }
}

/// Parses the async record that `input` starts with, of the kind that the
/// character after the optional token introduces.
pub fn async_record<'a>(input: &'a str) -> (r: Result<(&'a str, AsyncOutput<'a>), ParseError>)
    ensures
        match grammar::async_record(input@, 0, MAX_NESTING_DEPTH as nat) {
            Ok((record, n)) => r matches Ok((rest, found))
                && found@ == record && all_canonical(found.data().2@)
                && rest@ == input@.skip(n as int),
            Err(f) => r matches Err(e) && e@ == f,
        },
{
    let parser = Parser::from(input);
    match parser.async_record_at(0, MAX_NESTING_DEPTH) {
        Ok((found, end)) => Ok((parser.rest(end), found)),
        Err(e) => Err(e),
    }
}

/// Parses the async record of kind `kind` that `input` starts with: the
/// optional token, the marker of the kind, class and results, and the line
/// terminator if there is one.
pub fn async_record_kind<'a>(input: &'a str, kind: AsyncKind) -> (r: Result<
    (&'a str, AsyncOutput<'a>),
    ParseError,
>)
    ensures
        match grammar::async_record_kind(input@, 0, kind, MAX_NESTING_DEPTH as nat) {
            Ok((record, n)) => r matches Ok((rest, found))
                && found@ == record && all_canonical(found.data().2@)
                && rest@ == input@.skip(n as int),
            Err(f) => r matches Err(e) && e@ == f,
        },
{
    let parser = Parser::from(input);
    match parser.async_record_kind_at(0, kind, MAX_NESTING_DEPTH) {
        Ok((found, end)) => Ok((parser.rest(end), found)),
        Err(e) => Err(e),
    }
}

/// Parses the async record that `input` starts with, which `*` must
/// introduce.
pub fn exec_async_record<'a>(input: &'a str) -> (r: Result<(&'a str, AsyncOutput<'a>), ParseError>)
    ensures
        match grammar::async_record_kind(input@, 0, AsyncKind::Exec, MAX_NESTING_DEPTH as nat) {
            Ok((record, n)) => r matches Ok((rest, found))
                && found@ == record && all_canonical(found.data().2@)
                && rest@ == input@.skip(n as int),
            Err(f) => r matches Err(e) && e@ == f,
        },
{
    let parser = Parser::from(input);
    match parser.async_record_kind_at(0, AsyncKind::Exec, MAX_NESTING_DEPTH) {
        Ok((found, end)) => Ok((parser.rest(end), found)),
        Err(e) => Err(e),
    }
}

/// Parses the async record that `input` starts with, which `+` must
/// introduce.
pub fn status_async_record<'a>(input: &'a str) -> (r: Result<
    (&'a str, AsyncOutput<'a>),
    ParseError,
>)
    ensures
        match grammar::async_record_kind(input@, 0, AsyncKind::Status, MAX_NESTING_DEPTH as nat) {
            Ok((record, n)) => r matches Ok((rest, found))
                && found@ == record && all_canonical(found.data().2@)
                && rest@ == input@.skip(n as int),
            Err(f) => r matches Err(e) && e@ == f,
        },
{
    let parser = Parser::from(input);
    match parser.async_record_kind_at(0, AsyncKind::Status, MAX_NESTING_DEPTH) {
        Ok((found, end)) => Ok((parser.rest(end), found)),
        Err(e) => Err(e),
    }
}

/// Parses the async record that `input` starts with, which `=` must
/// introduce.
pub fn notify_async_record<'a>(input: &'a str) -> (r: Result<
    (&'a str, AsyncOutput<'a>),
    ParseError,
>)
    ensures
        match grammar::async_record_kind(input@, 0, AsyncKind::Notify, MAX_NESTING_DEPTH as nat) {
            Ok((record, n)) => r matches Ok((rest, found))
                && found@ == record && all_canonical(found.data().2@)
                && rest@ == input@.skip(n as int),
            Err(f) => r matches Err(e) && e@ == f,
        },
{
    let parser = Parser::from(input);
    match parser.async_record_kind_at(0, AsyncKind::Notify, MAX_NESTING_DEPTH) {
        Ok((found, end)) => Ok((parser.rest(end), found)),
        Err(e) => Err(e),
    }
}

/// Parses class and results of an async record at the start of `input`:
/// the class, a comma, and one or more variables. Fails with
/// `ExpectedVariable` where the comma, or the first variable behind it, is
/// missing. A later comma behind which no variable begins ends the results
/// and is left in what follows.
pub fn async_output<'a>(input: &'a str) -> (r: Result<
    (&'a str, (OutputClass<'a>, Vec<Variable<'a>>)),
    ParseError,
>)
    ensures
        match grammar::async_output(input@, 0, MAX_NESTING_DEPTH as nat) {
            Ok(((class, results), n)) => r matches Ok((rest, found))
                && found.0@ == class && fields_of(found.1@) == results && all_canonical(found.1@)
                && rest@ == input@.skip(n as int),
            Err(f) => r matches Err(e) && e@ == f,
        },
{
    let parser = Parser::from(input);
    match parser.async_output_at(0, MAX_NESTING_DEPTH) {
        Ok((found, end)) => Ok((parser.rest(end), found)),
        Err(e) => Err(e),
    }
}

/// Parses the one or more variables, separated by commas, that `input`
/// starts with. A comma behind which no variable begins ends them and is
/// left in what follows; a variable that begins behind a comma and fails
/// makes the whole fail.
pub fn result_list<'a>(input: &'a str) -> (r: Result<(&'a str, Vec<Variable<'a>>), ParseError>)
    ensures
        match grammar::result_list(input@, 0, MAX_NESTING_DEPTH as nat) {
            Ok((results, n)) => r matches Ok((rest, found))
                && fields_of(found@) == results && all_canonical(found@)
                && rest@ == input@.skip(n as int),
            Err(f) => r matches Err(e) && e@ == f,
        },
{
    let parser = Parser::from(input);
    match parser.result_list_at(0, MAX_NESTING_DEPTH) {
        Ok((found, end)) => Ok((parser.rest(end), found)),
        Err(e) => Err(e),
    }
}

/// Parses the class of a result record at the start of `input`: `done`,
/// `running`, `connected`, `error` or `exit`. Fails with
/// `ExpectedIdentifier` on anything else.
pub fn result_class<'a>(input: &'a str) -> (r: Result<(&'a str, OutputClass<'a>), ParseError>)
    ensures
        match grammar::result_class(input@, 0) {
            Ok((class, n)) => r matches Ok((rest, found)) && found@ == class
                && rest@ == input@.skip(n as int),
            Err(f) => r matches Err(e) && e@ == f,
        },
{
    let parser = Parser::from(input);
    match parser.result_class_at(0) {
        Ok((found, end)) => Ok((parser.rest(end), found)),
        Err(e) => Err(e),
    }
}

/// Parses the class of an async record at the start of `input`: `stopped`,
/// or else a letter and the longest run of letters, digits, `_` and `-`
/// behind it, as an unknown class that keeps this name. Fails with
/// `ExpectedIdentifier` where `input` starts with no letter.
pub fn async_class<'a>(input: &'a str) -> (r: Result<(&'a str, OutputClass<'a>), ParseError>)
    ensures
        match grammar::async_class(input@, 0) {
            Ok((class, n)) => r matches Ok((rest, found)) && found@ == class
                && rest@ == input@.skip(n as int),
            Err(f) => r matches Err(e) && e@ == f,
        },
{
    let parser = Parser::from(input);
    match parser.async_class_at(0) {
        Ok((found, end)) => Ok((parser.rest(end), found)),
        Err(e) => Err(e),
    }
}

/// Parses the optional token that `input` starts with: what follows the
/// digits, and the token. There is no token where there are no digits or
/// where they write a number above `u32::MAX`. Never fails.
pub fn token<'a>(input: &'a str) -> (r: Result<(&'a str, Option<Token>), ParseError>)
    ensures
        r matches Ok((rest, found)) && found == token_of(grammar::token(input@, 0).0) && rest@
            == input@.skip(grammar::token(input@, 0).1 as int),
{
    let parser = Parser::from(input);
    let (found, end) = parser.token_at(0);
    Ok((parser.rest(end), found))
}

/// Parses the variable that `input` starts with: an identifier, `=`, and a
/// value. Fails with `ExpectedEquals` where the `=` is missing, and with
/// the failure of the identifier or of the value otherwise.
pub fn variable<'a>(input: &'a str) -> (r: Result<(&'a str, Variable<'a>), ParseError>)
    ensures
        match grammar::variable(input@, 0, MAX_NESTING_DEPTH as nat) {
            Ok((field, n)) => r matches Ok((rest, found))
                && found@ == field && is_canonical(found.1)
                && rest@ == input@.skip(n as int),
            Err(f) => r matches Err(e) && e@ == f,
        },
{
    let parser = Parser::from(input);
    proof {
        lemma_variable_in_bounds(input@, 0, MAX_NESTING_DEPTH as nat);
    }
    match parser.variable_at(0, MAX_NESTING_DEPTH) {
        Ok((found, end)) => Ok((parser.rest(end), found)),
        Err(e) => Err(e),
    }
}

/// Parses the identifier that `input` starts with: the longest prefix of
/// the form `[A-Za-z_-][A-Za-z0-9_-]*`. Fails with `ExpectedIdentifier`
/// where there is none.
pub fn identifier<'a>(input: &'a str) -> (r: Result<(&'a str, &'a str), ParseError>)
    ensures
        match grammar::identifier(input@, 0) {
            Ok((name, n)) => r matches Ok((rest, found)) && found@ == name
                && rest@ == input@.skip(n as int),
            Err(f) => r matches Err(e) && e@ == f,
        },
{
    let parser = Parser::from(input);
    match parser.identifier_at(0) {
        Ok((found, end)) => Ok((parser.rest(end), found)),
        Err(e) => Err(e),
    }
}

/// Parses the value that `input` starts with: a scalar where it starts
/// with `"`, a tuple where it starts with `{`, a list where it starts with
/// `[`. Fails with `ExpectedValue` on anything else, and with
/// `NestingTooDeep` where tuples and lists are nested more than
/// [`MAX_NESTING_DEPTH`] levels deep.
pub fn value<'a>(input: &'a str) -> (r: Result<(&'a str, Value<'a>), ParseError>)
    ensures
        match grammar::value(input@, 0, MAX_NESTING_DEPTH as nat) {
            Ok((node, n)) => r matches Ok((rest, found)) && found@ == node && is_canonical(found)
                && rest@ == input@.skip(n as int),
            Err(f) => r matches Err(e) && e@ == f,
        },
{
    let parser = Parser::from(input);
    proof {
        lemma_value_in_bounds(input@, 0, MAX_NESTING_DEPTH as nat);
    }
    match parser.value_at(0, MAX_NESTING_DEPTH) {
        Ok((found, end)) => Ok((parser.rest(end), found)),
        Err(e) => Err(e),
    }
}

/// Parses the scalar that `input` starts with: a double-quoted string. The
/// scalar borrows from `input` where no backslash stands between the
/// quotes, and is a copy where one does.
pub fn constant<'a>(input: &'a str) -> (r: Result<(&'a str, Value<'a>), ParseError>)
    ensures
        match grammar::constant(input@, 0) {
            Ok((node, n)) => r matches Ok((rest, found)) && found@ == node && is_canonical(found)
                && rest@ == input@.skip(n as int),
            Err(f) => r matches Err(e) && e@ == f,
        },
{
    let parser = Parser::from(input);
    proof {
        lemma_quoted_string_in_bounds(input@, 0);
    }
    match parser.constant_at(0) {
        Ok((found, end)) => Ok((parser.rest(end), found)),
        Err(e) => Err(e),
    }
}

/// Parses the tuple that `input` starts with: `{`, no or more variables
/// separated by commas, and `}`. Fails with `UnterminatedTuple` where the
/// `}` is missing, and with `ExpectedVariable` where a comma is followed
/// by something that cannot start a variable.
pub fn tuple_value<'a>(input: &'a str) -> (r: Result<(&'a str, Value<'a>), ParseError>)
    ensures
        match grammar::tuple_value(input@, 0, (MAX_NESTING_DEPTH - 1) as nat) {
            Ok((node, n)) => r matches Ok((rest, found)) && found@ == node && is_canonical(found)
                && rest@ == input@.skip(n as int),
            Err(f) => r matches Err(e) && e@ == f,
        },
{
    let parser = Parser::from(input);
    proof {
        lemma_tuple_value_in_bounds(input@, 0, (MAX_NESTING_DEPTH - 1) as nat);
    }
    match parser.tuple_value_at(0, MAX_NESTING_DEPTH - 1) {
        Ok((found, end)) => Ok((parser.rest(end), found)),
        Err(e) => Err(e),
    }
}

/// Parses the one or more variables, separated by commas, that `input`
/// starts with, as the elements of a list. A comma behind which no
/// variable begins ends them and is left in what follows.
pub fn variable_list<'a>(input: &'a str) -> (r: Result<(&'a str, ListValue<'a>), ParseError>)
    ensures
        match grammar::variable_list(input@, 0, (MAX_NESTING_DEPTH - 1) as nat) {
            Ok((items, n)) => r matches Ok((rest, found))
                && found@ == items && is_canonical(Value::List(found))
                && rest@ == input@.skip(n as int),
            Err(f) => r matches Err(e) && e@ == f,
        },
{
    let parser = Parser::from(input);
    proof {
        lemma_list_elements_in_bounds(input@, 0, (MAX_NESTING_DEPTH - 1) as nat);
    }
    match parser.variable_list_at(0, MAX_NESTING_DEPTH - 1) {
        Ok((found, end)) => Ok((parser.rest(end), found)),
        Err(e) => Err(e),
    }
}

/// Parses the one or more values, separated by commas, that `input` starts
/// with, as the elements of a list. A comma behind which no value begins
/// ends them and is left in what follows.
pub fn value_list<'a>(input: &'a str) -> (r: Result<(&'a str, ListValue<'a>), ParseError>)
    ensures
        match grammar::value_list(input@, 0, (MAX_NESTING_DEPTH - 1) as nat) {
            Ok((items, n)) => r matches Ok((rest, found))
                && found@ == items && is_canonical(Value::List(found))
                && rest@ == input@.skip(n as int),
            Err(f) => r matches Err(e) && e@ == f,
        },
{
    let parser = Parser::from(input);
    proof {
        lemma_list_elements_in_bounds(input@, 0, (MAX_NESTING_DEPTH - 1) as nat);
    }
    match parser.value_list_at(0, MAX_NESTING_DEPTH - 1) {
        Ok((found, end)) => Ok((parser.rest(end), found)),
        Err(e) => Err(e),
    }
}

/// Parses the inside of an empty list: skips the whitespace that `input`
/// starts with and expects a `]`, which is left in what follows. Fails
/// with `UnterminatedList` where something else stands there.
pub fn empty<'a>(input: &'a str) -> (r: Result<(&'a str, ListValue<'a>), ParseError>)
    ensures
        match grammar::empty(input@, 0) {
            Ok((items, n)) => r matches Ok((rest, found))
                && found@ == items && is_canonical(Value::List(found))
                && rest@ == input@.skip(n as int),
            Err(f) => r matches Err(e) && e@ == f,
        },
{
    let parser = Parser::from(input);
    match parser.empty_at(0) {
        Ok((found, end)) => Ok((parser.rest(end), found)),
        Err(e) => Err(e),
    }
}

/// Parses the list that `input` starts with: `[`, then either nothing but
/// whitespace, or variables, or values, separated by commas, and `]`.
///
/// The first element decides whether the list holds variables or values.
/// Fails with `ExpectedListElement` where the first element is neither,
/// with `ExpectedVariable` or `ExpectedValue` where a comma is followed by
/// something that cannot start an element of that shape, and with
/// `UnterminatedList` where the `]` is missing.
pub fn list<'a>(input: &'a str) -> (r: Result<(&'a str, Value<'a>), ParseError>)
    ensures
        match grammar::list(input@, 0, (MAX_NESTING_DEPTH - 1) as nat) {
            Ok((node, n)) => r matches Ok((rest, found)) && found@ == node && is_canonical(found)
                && rest@ == input@.skip(n as int),
            Err(f) => r matches Err(e) && e@ == f,
        },
{
    let parser = Parser::from(input);
    proof {
        lemma_list_in_bounds(input@, 0, (MAX_NESTING_DEPTH - 1) as nat);
    }
    match parser.list_at(0, MAX_NESTING_DEPTH - 1) {
        Ok((found, end)) => Ok((parser.rest(end), found)),
        Err(e) => Err(e),
    }
}

/// Parses the prompt `(gdb)` that `input` starts with: what follows it.
/// Fails with `UnrecognizedRecordMarker` where `input` starts otherwise.
pub fn termination<'a>(input: &'a str) -> (r: Result<(&'a str, ()), ParseError>)
    ensures
        match grammar::termination(input@, 0) {
            Ok((_, n)) => r matches Ok((rest, _)) && rest@ == input@.skip(n as int),
            Err(f) => r matches Err(e) && e@ == f,
        },
{
    let parser = Parser::from(input);
    match parser.termination_at(0) {
        Ok(end) => Ok((parser.rest(end), ())),
        Err(e) => Err(e),
    }
}

/// Skips the whitespace that `input` starts with: what follows it.
pub fn ws<'a>(input: &'a str) -> (rest: &'a str)
    ensures
        rest@ == input@.skip(grammar::run_length(input@, 0, CharClass::Space) as int),
{
    let parser = Parser::from(input);
    let end = parser.scan(0, CharClass::Space);
    parser.rest(end)
}

/// The name of the variable that was being parsed in `frame`, an entry of
/// the context of a failure that parsing `input` gave: the identifier at
/// the offset at which the frame started, where the frame is that of a
/// variable.
pub fn variable_name<'a>(input: &'a str, frame: &Frame) -> (r: Option<&'a str>)
    ensures
        match r {
            Some(name) => frame.production == Production::Variable && (grammar::identifier(
                input@,
                frame.start as int,
            ) matches Ok((found, _)) && name@ == found),
            None => frame.production != Production::Variable || grammar::identifier(
                input@,
                frame.start as int,
            ) is Err,
        },
{
    let parser = Parser::from(input);
    if frame.production == Production::Variable && frame.start <= parser.len() {
        match parser.identifier_at(frame.start) {
            Ok((name, _)) => Some(name),
            Err(_) => None,
        }
    } else {
        None
    }
}

} // verus!
