//! The grammar of machine-interface output, as specification functions.
//!
//! Every production is a function of the whole input `s` and the offset `p`
//! at which it is tried. It yields either what it recognised together with
//! the number of characters it consumed, or a [`Failure`]. The executable
//! parser is proved to compute exactly these functions.
use super::error::{failure, in_context, ErrorKind, Failure, Production};
use super::output_types::{AsyncKind, Class, Data, Field, Items, Node, Record, Stream};
use vstd::prelude::*;

verus! {

/// A set of characters that the lexer scans runs of.
#[derive(Clone, Copy, Debug, PartialEq, Eq, Structural)]
pub enum CharClass {
    /// `0` to `9`.
    Digit,
    /// Space, tab, carriage return and line feed.
    Space,
    /// What may follow the first character of an identifier: letters,
    /// digits, `_` and `-`.
    IdentifierRest,
}

/// Whether `c` is one of `A` to `Z` and `a` to `z`.
pub open spec fn is_alpha(c: char) -> bool {
    ('a' <= c && c <= 'z') || ('A' <= c && c <= 'Z')
}

/// Whether `c` is one of `0` to `9`.
pub open spec fn is_digit(c: char) -> bool {
    '0' <= c && c <= '9'
}

/// Whether `c` is a space, a tab, a carriage return or a line feed.
pub open spec fn is_space(c: char) -> bool {
    c == ' ' || c == '\t' || c == '\r' || c == '\n'
}

/// Whether an identifier may start with `c`.
pub open spec fn starts_identifier(c: char) -> bool {
    is_alpha(c) || c == '_' || c == '-'
}

impl CharClass {
    /// Whether `c` belongs to the class.
    pub open spec fn contains(self, c: char) -> bool {
        match self {
            CharClass::Digit => is_digit(c),
            CharClass::Space => is_space(c),
            CharClass::IdentifierRest => is_alpha(c) || is_digit(c) || c == '_' || c == '-',
        }
    }
}

/// The length of the longest run of characters of `class` that starts at
/// offset `p` of `s`.
pub open spec fn run_length(s: Seq<char>, p: int, class: CharClass) -> nat
    decreases s.len() - p,
{
    if 0 <= p < s.len() && class.contains(s[p]) {
        1 + run_length(s, p + 1, class)
    } else {
        0
    }
}

/// Whether `word` stands in `s` at offset `p`.
pub open spec fn has_prefix(s: Seq<char>, p: int, word: Seq<char>) -> bool {
    0 <= p && p + word.len() <= s.len() && s.subrange(p, p + word.len()) == word
}

/// Whether character `c` stands in `s` at offset `p`.
pub open spec fn has_char(s: Seq<char>, p: int, c: char) -> bool {
    0 <= p < s.len() && s[p] == c
}

/// `[A-Za-z_-][A-Za-z0-9_-]*`: the longest such run at `p`.
pub open spec fn identifier(s: Seq<char>, p: int) -> Result<(Seq<char>, nat), Failure> {
    in_context(
        Production::Identifier,
        p,
        if 0 <= p < s.len() && starts_identifier(s[p]) {
            let n = 1 + run_length(s, p + 1, CharClass::IdentifierRest);
            Ok((s.subrange(p, p + n), n))
        } else {
            Err(failure(ErrorKind::ExpectedIdentifier, p))
        },
    )
}

/// The character that a backslash followed by `c` stands for, if any.
pub open spec fn unescaped(c: char) -> Option<char> {
    if c == '"' {
        Some('"')
    } else if c == '\\' {
        Some('\\')
    } else if c == 'n' {
        Some('\n')
    } else if c == 'r' {
        Some('\r')
    } else if c == 't' {
        Some('\t')
    } else {
        None
    }
}

/// The rest of a quoted string whose opening quote stands just before `p`:
/// its content with the escape sequences resolved, and the number of
/// characters up to and including the closing quote.
pub open spec fn string_body(s: Seq<char>, p: int) -> Result<(Seq<char>, nat), Failure>
    decreases s.len() - p,
{
    if !(0 <= p < s.len()) {
        Err(failure(ErrorKind::UnterminatedString, s.len() as int))
    } else if s[p] == '"' {
        Ok((Seq::empty(), 1))
    } else if s[p] == '\\' {
        if p + 1 >= s.len() {
            Err(failure(ErrorKind::UnterminatedString, s.len() as int))
        } else {
            match unescaped(s[p + 1]) {
                None => Err(failure(ErrorKind::InvalidEscape, p)),
                Some(c) => match string_body(s, p + 2) {
                    Ok((text, n)) => Ok((seq![c] + text, n + 2)),
                    Err(f) => Err(f),
                },
            }
        }
    } else {
        match string_body(s, p + 1) {
            Ok((text, n)) => Ok((seq![s[p]] + text, n + 1)),
            Err(f) => Err(f),
        }
    }
}

/// Whether no backslash stands in `s` from offset `from` up to offset `to`.
pub open spec fn is_plain(s: Seq<char>, from: int, to: int) -> bool {
    forall|i: int| from <= i < to ==> s[i] != '\\'
}

/// A double-quoted string at `p`.
pub open spec fn quoted_string(s: Seq<char>, p: int) -> Result<(Seq<char>, nat), Failure> {
    if has_char(s, p, '"') {
        match string_body(s, p + 1) {
            Ok((text, n)) => Ok((text, n + 1)),
            Err(f) => Err(f),
        }
    } else {
        Err(failure(ErrorKind::ExpectedValue, p))
    }
}

/// How the character `c` is written inside a quoted string: behind a
/// backslash if it is a quote or a backslash, else as it is.
pub open spec fn escaped_char(c: char) -> Seq<char> {
    if c == '"' || c == '\\' {
        seq!['\\', c]
    } else {
        seq![c]
    }
}

/// Whether `text` holds no quote and no backslash, so that it is written
/// inside a quoted string as it is.
pub open spec fn needs_no_escape(text: Seq<char>) -> bool {
    forall|i: int| 0 <= i < text.len() ==> text[i] != '"' && text[i] != '\\'
}

/// How `text` is written inside a quoted string.
pub open spec fn escaped(text: Seq<char>) -> Seq<char>
    decreases text.len(),
{
    if text.len() == 0 {
        Seq::empty()
    } else {
        escaped_char(text[0]) + escaped(text.drop_first())
    }
}

/// `text` as a quoted string.
pub open spec fn quoted(text: Seq<char>) -> Seq<char> {
    seq!['"'] + escaped(text) + seq!['"']
}

/// A scalar value: a quoted string. The scalar borrows its text from the
/// input where no backslash stands between the quotes, and holds a copy
/// where one does.
pub open spec fn constant(s: Seq<char>, p: int) -> Result<(Node, nat), Failure> {
    in_context(
        Production::Constant,
        p,
        match quoted_string(s, p) {
            Ok((text, n)) => Ok(
                (Node::Const { text, borrowed: is_plain(s, p + 1, p + n - 1) }, n),
            ),
            Err(f) => Err(f),
        },
    )
}

/// What a failure `r` of the results that are owed behind the comma at
/// `p - 1` is reported as: where no variable begins at `p`, a variable was
/// expected there.
pub open spec fn after_comma<T>(p: int, r: Result<T, Failure>) -> Result<T, Failure> {
    match r {
        Err(f) if f.position == p => Err(failure(ErrorKind::ExpectedVariable, p)),
        _ => r,
    }
}

/// A value at `p`: a scalar, a tuple or a list, told apart by the first
/// character. `d` is the number of levels of tuples and lists that may
/// still be entered.
pub open spec fn value(s: Seq<char>, p: int, d: nat) -> Result<(Node, nat), Failure>
    decreases s.len() - p, 4nat,
{
    in_context(
        Production::Value,
        p,
        if has_char(s, p, '"') {
            constant(s, p)
        } else if has_char(s, p, '{') {
            if d == 0 {
                Err(failure(ErrorKind::NestingTooDeep, p))
            } else {
                tuple_value(s, p, (d - 1) as nat)
            }
        } else if has_char(s, p, '[') {
            if d == 0 {
                Err(failure(ErrorKind::NestingTooDeep, p))
            } else {
                list(s, p, (d - 1) as nat)
            }
        } else {
            Err(failure(ErrorKind::ExpectedValue, p))
        },
    )
}

/// `name=value` at `p`.
pub open spec fn variable(s: Seq<char>, p: int, d: nat) -> Result<(Field, nat), Failure>
    decreases s.len() - p, 1nat,
{
    in_context(
        Production::Variable,
        p,
        match identifier(s, p) {
            Err(f) => Err(f),
            Ok((name, n)) => if has_char(s, p + n, '=') {
                match value(s, p + n + 1, d) {
                    Ok((v, m)) => Ok((Field { name, value: v }, n + 1 + m)),
                    Err(f) => Err(f),
                }
            } else {
                Err(failure(ErrorKind::ExpectedEquals, p + n))
            },
        },
    )
}

/// Whether `f`, the failure of a variable tried at `p`, says that no
/// variable begins at `p`.
pub open spec fn no_variable_at(p: int, f: Failure) -> bool {
    f.position == p
}

/// Whether `f`, the failure of a value tried at `p`, says that no value
/// begins at `p`.
pub open spec fn no_value_at(p: int, f: Failure) -> bool {
    f.position == p && f.kind == ErrorKind::ExpectedValue
}

/// One or more variables at `p`, separated by commas. A comma behind which
/// no variable begins ends the sequence and is not consumed; a variable
/// that begins behind a comma and fails makes the sequence fail.
pub open spec fn variables(s: Seq<char>, p: int, d: nat) -> Result<(Seq<Field>, nat), Failure>
    decreases s.len() - p, 2nat,
{
    match variable(s, p, d) {
        Err(f) => Err(f),
        Ok((first, n)) => if has_char(s, p + n, ',') {
            match variables(s, p + n + 1, d) {
                Ok((others, m)) => Ok((seq![first] + others, n + 1 + m)),
                Err(f) => if no_variable_at(p + n + 1, f) {
                    Ok((seq![first], n))
                } else {
                    Err(f)
                },
            }
        } else {
            Ok((seq![first], n))
        },
    }
}

/// One or more values at `p`, separated by commas. A comma behind which no
/// value begins ends the sequence and is not consumed; a value that begins
/// behind a comma and fails makes the sequence fail.
pub open spec fn values(s: Seq<char>, p: int, d: nat) -> Result<(Seq<Node>, nat), Failure>
    decreases s.len() - p, 5nat,
{
    match value(s, p, d) {
        Err(f) => Err(f),
        Ok((first, n)) => if has_char(s, p + n, ',') {
            match values(s, p + n + 1, d) {
                Ok((others, m)) => Ok((seq![first] + others, n + 1 + m)),
                Err(f) => if no_value_at(p + n + 1, f) {
                    Ok((seq![first], n))
                } else {
                    Err(f)
                },
            }
        } else {
            Ok((seq![first], n))
        },
    }
}

/// Whether a sequence of variables that reaches to `p` ends there: no comma
/// stands at `p`, or no variable begins behind the comma.
pub open spec fn variables_end(s: Seq<char>, p: int, d: nat) -> bool {
    !has_char(s, p, ',') || (variables(s, p + 1, d) matches Err(f) && no_variable_at(p + 1, f))
}

/// Whether a sequence of values that reaches to `p` ends there: no comma
/// stands at `p`, or no value begins behind the comma.
pub open spec fn values_end(s: Seq<char>, p: int, d: nat) -> bool {
    !has_char(s, p, ',') || (values(s, p + 1, d) matches Err(f) && no_value_at(p + 1, f))
}

/// `{}` or `{name=value,...}` at `p`. Behind every comma a variable must
/// begin.
pub open spec fn tuple_value(s: Seq<char>, p: int, d: nat) -> Result<(Node, nat), Failure>
    decreases s.len() - p, 3nat,
{
    in_context(
        Production::TupleValue,
        p,
        if !has_char(s, p, '{') {
            Err(failure(ErrorKind::ExpectedValue, p))
        } else if has_char(s, p + 1, '}') {
            Ok((Node::Tuple(Seq::empty()), 2))
        } else if p + 1 >= s.len() {
            Err(failure(ErrorKind::UnterminatedTuple, p + 1))
        } else {
            match variables(s, p + 1, d) {
                Err(f) => if f.position == p + 1 {
                    Err(failure(ErrorKind::UnterminatedTuple, p + 1))
                } else {
                    Err(f)
                },
                Ok((fields, n)) => if has_char(s, p + 1 + n, '}') {
                    Ok((Node::Tuple(fields), n + 2))
                } else if has_char(s, p + 1 + n, ',') {
                    Err(failure(ErrorKind::ExpectedVariable, p + 1 + n + 1))
                } else {
                    Err(failure(ErrorKind::UnterminatedTuple, p + 1 + n))
                },
            }
        },
    )
}

/// The variables of a list whose `[` stands just before `p`.
pub open spec fn variable_list(s: Seq<char>, p: int, d: nat) -> Result<(Items, nat), Failure>
    decreases s.len() - p, 3nat,
{
    in_context(
        Production::VariableList,
        p,
        match variables(s, p, d) {
            Ok((fields, n)) => Ok((Items::Variables(fields), n)),
            Err(f) => Err(f),
        },
    )
}

/// The values of a list whose `[` stands just before `p`.
pub open spec fn value_list(s: Seq<char>, p: int, d: nat) -> Result<(Items, nat), Failure>
    decreases s.len() - p, 6nat,
{
    in_context(
        Production::ValueList,
        p,
        match values(s, p, d) {
            Ok((nodes, n)) => Ok((Items::Values(nodes), n)),
            Err(f) => Err(f),
        },
    )
}

/// What a list reports when neither variables nor values could be parsed
/// at `p`, its first element: where no variable and no value begins at
/// `p`, that a list element was expected; otherwise the failure of the
/// attempt that got further, which is that of the values where one began.
pub open spec fn neither_shape(p: int, as_variables: Failure, as_values: Failure) -> Failure {
    if as_variables.position == p && as_values.position == p && as_values.kind
        == ErrorKind::ExpectedValue {
        failure(ErrorKind::ExpectedListElement, p)
    } else if as_values.position >= as_variables.position {
        as_values
    } else {
        as_variables
    }
}

/// The elements of a list whose `[` stands just before `p`: variables if
/// the input can be read so, else values.
pub open spec fn list_elements(s: Seq<char>, p: int, d: nat) -> Result<(Items, nat), Failure>
    decreases s.len() - p, 7nat,
{
    match variable_list(s, p, d) {
        Ok(r) => Ok(r),
        Err(as_variables) => match value_list(s, p, d) {
            Ok(r) => Ok(r),
            Err(as_values) => Err(neither_shape(p, as_variables, as_values)),
        },
    }
}

/// What a list of the shape of `items` misses behind a comma that no
/// element follows.
pub open spec fn expected_element(items: Items) -> ErrorKind {
    match items {
        Items::Values(_) => ErrorKind::ExpectedValue,
        _ => ErrorKind::ExpectedVariable,
    }
}

/// The inside of an empty list at `p`, just after the `[`: whitespace, if
/// any, up to a `]`, which is left where it is.
pub open spec fn empty(s: Seq<char>, p: int) -> Result<(Items, nat), Failure> {
    let blank = run_length(s, p, CharClass::Space);
    if has_char(s, p + blank, ']') {
        Ok((Items::Empty, blank))
    } else {
        Err(failure(ErrorKind::UnterminatedList, p + blank))
    }
}

/// `[]`, `[value,...]` or `[name=value,...]` at `p`. Whitespace may stand
/// between the brackets of an empty list, and nowhere else. Behind every
/// comma an element of the list's shape must begin.
pub open spec fn list(s: Seq<char>, p: int, d: nat) -> Result<(Node, nat), Failure>
    decreases s.len() - p, 3nat,
{
    in_context(
        Production::List,
        p,
        if !has_char(s, p, '[') {
            Err(failure(ErrorKind::ExpectedValue, p))
        } else {
            match empty(s, p + 1) {
                Ok((items, blank)) => Ok((Node::List(items), blank + 2)),
                Err(f) => if f.position >= s.len() {
                    Err(f)
                } else {
                    match list_elements(s, p + 1, d) {
                        Err(f) => Err(f),
                        Ok((items, n)) => if has_char(s, p + 1 + n, ']') {
                            Ok((Node::List(items), n + 2))
                        } else if has_char(s, p + 1 + n, ',') {
                            Err(failure(expected_element(items), p + 1 + n + 1))
                        } else {
                            Err(failure(ErrorKind::UnterminatedList, p + 1 + n))
                        },
                    }
                },
            }
        },
    )
}

/// The value of the decimal digit `c`.
pub open spec fn digit_value(c: char) -> nat {
    (c as u32 - '0' as u32) as nat
}

/// The number that the decimal digits `digits` write.
pub open spec fn decimal(digits: Seq<char>) -> nat
    decreases digits.len(),
{
    if digits.len() == 0 {
        0
    } else {
        10 * decimal(digits.drop_last()) + digit_value(digits.last())
    }
}

/// The sequence number at `p`: the longest run of digits, which may be
/// empty. There is no token where there are no digits, or where they write
/// a number above `u32::MAX`.
pub open spec fn token(s: Seq<char>, p: int) -> (Option<u32>, nat) {
    let n = run_length(s, p, CharClass::Digit);
    let number = decimal(s.subrange(p, p + n));
    (
        if n > 0 && number <= u32::MAX {
            Some(number as u32)
        } else {
            None
        },
        n,
    )
}

/// The class of a result record at `p`: one of five keywords.
pub open spec fn result_class(s: Seq<char>, p: int) -> Result<(Class, nat), Failure> {
    in_context(
        Production::ResultClass,
        p,
        if has_prefix(s, p, "done"@) {
            Ok((Class::Done, "done"@.len()))
        } else if has_prefix(s, p, "running"@) {
            Ok((Class::Running, "running"@.len()))
        } else if has_prefix(s, p, "connected"@) {
            Ok((Class::Connected, "connected"@.len()))
        } else if has_prefix(s, p, "error"@) {
            Ok((Class::Error, "error"@.len()))
        } else if has_prefix(s, p, "exit"@) {
            Ok((Class::Exit, "exit"@.len()))
        } else {
            Err(failure(ErrorKind::ExpectedIdentifier, p))
        },
    )
}

/// The length of the class name at `p`: a letter and the longest run of
/// letters, digits, `_` and `-` behind it; 0 where no letter stands at `p`.
pub open spec fn class_name_length(s: Seq<char>, p: int) -> nat {
    if 0 <= p < s.len() && is_alpha(s[p]) {
        1 + run_length(s, p + 1, CharClass::IdentifierRest)
    } else {
        0
    }
}

/// The class of an async record at `p`: `stopped`, or else a class name,
/// which is kept as it is written.
pub open spec fn async_class(s: Seq<char>, p: int) -> Result<(Class, nat), Failure> {
    in_context(
        Production::AsyncClass,
        p,
        if has_prefix(s, p, "stopped"@) {
            Ok((Class::Stopped, "stopped"@.len()))
        } else {
            let n = class_name_length(s, p);
            if n > 0 {
                Ok((Class::Unknown(s.subrange(p, p + n)), n))
            } else {
                Err(failure(ErrorKind::ExpectedIdentifier, p))
            }
        },
    )
}

/// The results of a record: one or more variables at `p`, separated by
/// commas.
pub open spec fn result_list(s: Seq<char>, p: int, d: nat) -> Result<(Seq<Field>, nat), Failure> {
    in_context(Production::ResultList, p, variables(s, p, d))
}

/// The length of the line terminator at `p`: a line feed, alone or after a
/// carriage return, or nothing.
pub open spec fn line_end(s: Seq<char>, p: int) -> nat {
    if has_char(s, p, '\n') {
        1
    } else if has_char(s, p, '\r') && has_char(s, p + 1, '\n') {
        2
    } else {
        0
    }
}

/// Class and results of an async record at `p`: the class, a comma, and
/// the results.
pub open spec fn async_output(s: Seq<char>, p: int, d: nat) -> Result<
    ((Class, Seq<Field>), nat),
    Failure,
> {
    in_context(
        Production::AsyncOutput,
        p,
        match async_class(s, p) {
            Err(f) => Err(f),
            Ok((class, n)) => if has_char(s, p + n, ',') {
                match after_comma(p + n + 1, result_list(s, p + n + 1, d)) {
                    Ok((results, m)) => Ok(((class, results), n + 1 + m)),
                    Err(f) => Err(f),
                }
            } else {
                Err(failure(ErrorKind::ExpectedVariable, p + n))
            },
        },
    )
}

impl AsyncKind {
    /// The character that introduces an async record of this kind.
    pub open spec fn spec_marker(self) -> char {
        match self {
            AsyncKind::Exec => '*',
            AsyncKind::Status => '+',
            AsyncKind::Notify => '=',
        }
    }

    /// The production that parses an async record of this kind.
    pub open spec fn spec_production(self) -> Production {
        match self {
            AsyncKind::Exec => Production::ExecAsync,
            AsyncKind::Status => Production::StatusAsync,
            AsyncKind::Notify => Production::NotifyAsync,
        }
    }
}

/// The stream whose records `c` introduces, if any.
pub open spec fn stream_of(c: char) -> Option<Stream> {
    if c == '~' {
        Some(Stream::Console)
    } else if c == '@' {
        Some(Stream::Target)
    } else if c == '&' {
        Some(Stream::Log)
    } else {
        None
    }
}

/// The kind of async record that `c` introduces, if any.
pub open spec fn async_kind_of(c: char) -> Option<AsyncKind> {
    if c == '*' {
        Some(AsyncKind::Exec)
    } else if c == '+' {
        Some(AsyncKind::Status)
    } else if c == '=' {
        Some(AsyncKind::Notify)
    } else {
        None
    }
}

/// An async record of kind `kind` at `p`: the optional token, the marker of
/// the kind, class and results, and the line terminator if there is one.
pub open spec fn async_record_kind(s: Seq<char>, p: int, kind: AsyncKind, d: nat) -> Result<
    ((AsyncKind, Data), nat),
    Failure,
> {
    let (number, n) = token(s, p);
    in_context(
        kind.spec_production(),
        p,
        if has_char(s, p + n, kind.spec_marker()) {
            match async_output(s, p + n + 1, d) {
                Err(f) => Err(f),
                Ok(((class, results), m)) => Ok(
                    (
                        (kind, Data { token: number, class, results }),
                        n + 1 + m + line_end(s, p + n + 1 + m),
                    ),
                ),
            }
        } else {
            Err(failure(ErrorKind::UnrecognizedRecordMarker, p + n))
        },
    )
}

/// An async record at `p`, of the kind that the character after the token
/// introduces.
pub open spec fn async_record(s: Seq<char>, p: int, d: nat) -> Result<
    ((AsyncKind, Data), nat),
    Failure,
> {
    let n = token(s, p).1;
    if 0 <= p + n < s.len() && async_kind_of(s[p + n]) is Some {
        async_record_kind(s, p, async_kind_of(s[p + n])->Some_0, d)
    } else {
        Err(failure(ErrorKind::UnrecognizedRecordMarker, p + n))
    }
}

/// A stream record at `p`: the marker of the stream, a quoted string, and
/// the line terminator if there is one. The record carries the text
/// between the quotes as it is written.
pub open spec fn stream_record(s: Seq<char>, p: int) -> Result<
    ((Stream, Seq<char>), nat),
    Failure,
> {
    in_context(
        Production::StreamRecord,
        p,
        if 0 <= p < s.len() && stream_of(s[p]) is Some {
            match quoted_string(s, p + 1) {
                Err(f) => Err(f),
                Ok((_, n)) => Ok(
                    (
                        (stream_of(s[p])->Some_0, s.subrange(p + 2, p + n)),
                        1 + n + line_end(s, p + 1 + n),
                    ),
                ),
            }
        } else {
            Err(failure(ErrorKind::UnrecognizedRecordMarker, p))
        },
    )
}

/// An out-of-band record at `p`: after the optional token, an async record
/// or a stream record. A token before a stream record is dropped.
pub open spec fn oob_record(s: Seq<char>, p: int, d: nat) -> Result<(Record, nat), Failure> {
    let n = token(s, p).1;
    in_context(
        Production::OobRecord,
        p,
        if 0 <= p + n < s.len() && async_kind_of(s[p + n]) is Some {
            match async_record(s, p, d) {
                Ok(((kind, data), m)) => Ok((Record::Async(kind, data), m)),
                Err(f) => Err(f),
            }
        } else if 0 <= p + n < s.len() && stream_of(s[p + n]) is Some {
            match stream_record(s, p + n) {
                Ok(((stream, text), m)) => Ok((Record::Stream(stream, text), n + m)),
                Err(f) => Err(f),
            }
        } else {
            Err(failure(ErrorKind::UnrecognizedRecordMarker, p + n))
        },
    )
}

/// A result record at `p`: the optional token, `^`, the class, the results
/// behind a comma if there are any, and the line terminator if there is
/// one.
pub open spec fn result_record(s: Seq<char>, p: int, d: nat) -> Result<(Data, nat), Failure> {
    let (number, n) = token(s, p);
    in_context(
        Production::ResultRecord,
        p,
        if has_char(s, p + n, '^') {
            match result_class(s, p + n + 1) {
                Err(f) => Err(f),
                Ok((class, m)) => {
                    let q = p + n + 1 + m;
                    if has_char(s, q, ',') {
                        match after_comma(q + 1, result_list(s, q + 1, d)) {
                            Err(f) => Err(f),
                            Ok((results, k)) => Ok(
                                (
                                    Data { token: number, class, results },
                                    n + 1 + m + 1 + k + line_end(s, q + 1 + k),
                                ),
                            ),
                        }
                    } else {
                        Ok(
                            (
                                Data { token: number, class, results: Seq::empty() },
                                n + 1 + m + line_end(s, q),
                            ),
                        )
                    }
                },
            }
        } else {
            Err(failure(ErrorKind::UnrecognizedRecordMarker, p + n))
        },
    )
}

/// One output record at the start of `s`: a result record where `^`
/// follows the optional token, an out-of-band record where one of `*`, `+`,
/// `=`, `~`, `@` and `&` does.
pub open spec fn output(s: Seq<char>, d: nat) -> Result<(Record, nat), Failure> {
    let n = token(s, 0).1;
    in_context(
        Production::Output,
        0,
        if has_char(s, n as int, '^') {
            match result_record(s, 0, d) {
                Ok((data, m)) => Ok((Record::Result(data), m)),
                Err(f) => Err(f),
            }
        } else if 0 <= n < s.len() && (async_kind_of(s[n as int]) is Some || stream_of(
            s[n as int],
        ) is Some) {
            oob_record(s, 0, d)
        } else {
            Err(failure(ErrorKind::UnrecognizedRecordMarker, n as int))
        },
    )
}

/// The prompt `(gdb)` that ends a sequence of records, at `p`.
pub open spec fn termination(s: Seq<char>, p: int) -> Result<((), nat), Failure> {
    in_context(
        Production::Termination,
        p,
        if has_prefix(s, p, "(gdb)"@) {
            Ok(((), "(gdb)"@.len()))
        } else {
            Err(failure(ErrorKind::UnrecognizedRecordMarker, p))
        },
    )
}

} // verus!
