//! Records: tokens, classes, result lists, and the three kinds of record.
use super::error::{ErrorKind, Failure, ParseError, Production};
use super::grammar;
use super::grammar::CharClass;
use super::lexer::is_alpha;
use super::output_types::{
    all_canonical, fields_of, AsyncKind, AsyncOutput, Class, Data, Field, OutputClass, OutputData,
    Output, Record, Stream, StreamOutput, Token, Variable, OOB,
};
use super::progress::{lemma_run_members, lemma_variables_in_bounds};
use super::values::is_parsed_variables;
use super::Parser;
use vstd::prelude::*;

verus! {

/// Appending a digit to a run of digits multiplies the number by ten and
/// adds the digit.
pub proof fn lemma_decimal_step(s: Seq<char>, from: int, to: int)
    requires
        0 <= from <= to < s.len(),
    ensures
        grammar::decimal(s.subrange(from, to + 1)) == 10 * grammar::decimal(s.subrange(from, to))
            + grammar::digit_value(s[to]),
{
    assert(s.subrange(from, to + 1).drop_last() =~= s.subrange(from, to));
}

/// Whether `r` is what the grammar's result `g` for a class at `pos` asks
/// for.
pub open spec fn is_parsed_class(
    r: Result<(OutputClass<'_>, usize), ParseError>,
    g: Result<(Class, nat), Failure>,
    pos: usize,
) -> bool {
    match g {
        Ok((class, n)) => r matches Ok((found, end)) && found@ == class && end == pos + n,
        Err(f) => r matches Err(e) && e@ == f,
    }
}

/// Whether `r` is what the grammar's result `g` for class and results at
/// `pos` asks for.
pub open spec fn is_parsed_async_output(
    r: Result<((OutputClass<'_>, Vec<Variable<'_>>), usize), ParseError>,
    g: Result<((Class, Seq<Field>), nat), Failure>,
    pos: usize,
) -> bool {
    match g {
        Ok(((class, results), n)) => r matches Ok(((found, vars), end)) && found@ == class
            && fields_of(vars@) == results && all_canonical(vars@) && end == pos + n,
        Err(f) => r matches Err(e) && e@ == f,
    }
}

/// Whether `r` is what the grammar's result `g` for an async record at
/// `pos` asks for.
pub open spec fn is_parsed_async(
    r: Result<(AsyncOutput<'_>, usize), ParseError>,
    g: Result<((AsyncKind, Data), nat), Failure>,
    pos: usize,
) -> bool {
    match g {
        Ok((record, n)) => r matches Ok((found, end)) && found@ == record && all_canonical(
            found.data().2@,
        ) && end == pos + n,
        Err(f) => r matches Err(e) && e@ == f,
    }
}

/// Whether `r` is what the grammar's result `g` for a stream record at
/// `pos` asks for.
pub open spec fn is_parsed_stream(
    r: Result<(StreamOutput<'_>, usize), ParseError>,
    g: Result<((Stream, Seq<char>), nat), Failure>,
    pos: usize,
) -> bool {
    match g {
        Ok((record, n)) => r matches Ok((found, end)) && found@ == record && end == pos + n,
        Err(f) => r matches Err(e) && e@ == f,
    }
}

/// Whether `r` is what the grammar's result `g` for a result record at
/// `pos` asks for.
pub open spec fn is_parsed_data(
    r: Result<(OutputData<'_>, usize), ParseError>,
    g: Result<(Data, nat), Failure>,
    pos: usize,
) -> bool {
    match g {
        Ok((data, n)) => r matches Ok((found, end)) && found@ == data && all_canonical(found.2@)
            && end == pos + n,
        Err(f) => r matches Err(e) && e@ == f,
    }
}

impl<'a> OOB<'a> {
    /// Whether the values of all results of the record are canonical.
    pub open spec fn is_canonical(self) -> bool {
        match self {
            OOB::StreamRecord(_) => true,
            OOB::AsyncRecord(a) => all_canonical(a.data().2@),
        }
    }
}

impl<'a> Output<'a> {
    /// Whether the values of all results of the record are canonical.
    pub open spec fn is_canonical(self) -> bool {
        match self {
            Output::ResultRecord(data) => all_canonical(data.2@),
            Output::OOBRecord(oob) => oob.is_canonical(),
        }
    }
}

/// Whether `r` is what the grammar's result `g` for an out-of-band record
/// at `pos` asks for.
pub open spec fn is_parsed_oob(
    r: Result<(OOB<'_>, usize), ParseError>,
    g: Result<(Record, nat), Failure>,
    pos: usize,
) -> bool {
    match g {
        Ok((record, n)) => r matches Ok((found, end)) && found@ == record && found.is_canonical()
            && end == pos + n,
        Err(f) => r matches Err(e) && e@ == f,
    }
}

/// Whether `r` is what the grammar's result `g` for a record at `pos` asks
/// for.
pub open spec fn is_parsed_output(
    r: Result<(Output<'_>, usize), ParseError>,
    g: Result<(Record, nat), Failure>,
    pos: usize,
) -> bool {
    match g {
        Ok((record, n)) => r matches Ok((found, end)) && found@ == record && found.is_canonical()
            && end == pos + n,
        Err(f) => r matches Err(e) && e@ == f,
    }
}

impl<'a> AsyncOutput<'a> {
    /// Token, class and results of the record.
    pub open spec fn data(self) -> OutputData<'a> {
        match self {
            AsyncOutput::ExeAsync(data) => data,
            AsyncOutput::StatusAsync(data) => data,
            AsyncOutput::NotifyAsync(data) => data,
        }
    }
}

impl AsyncKind {
    /// The character that introduces an async record of this kind.
    pub fn marker(&self) -> (c: char)
        ensures
            c == self.spec_marker(),
    {
        match self {
            AsyncKind::Exec => '*',
            AsyncKind::Status => '+',
            AsyncKind::Notify => '=',
        }
    }

    /// The production that parses an async record of this kind.
    pub fn production(&self) -> (p: Production)
        ensures
            p == self.spec_production(),
    {
        match self {
            AsyncKind::Exec => Production::ExecAsync,
            AsyncKind::Status => Production::StatusAsync,
            AsyncKind::Notify => Production::NotifyAsync,
        }
    }

    /// The kind of async record that `c` introduces, if any.
    pub fn from_marker(c: char) -> (r: Option<AsyncKind>)
        ensures
            r == grammar::async_kind_of(c),
    {
        if c == '*' {
            Some(AsyncKind::Exec)
        } else if c == '+' {
            Some(AsyncKind::Status)
        } else if c == '=' {
            Some(AsyncKind::Notify)
        } else {
            None
        }
    }

    /// The async record of this kind that holds `data`.
    pub fn record<'a>(&self, data: OutputData<'a>) -> (r: AsyncOutput<'a>)
        ensures
            r@ == (*self, data@),
            r.data() == data,
    {
        match self {
            AsyncKind::Exec => AsyncOutput::ExeAsync(data),
            AsyncKind::Status => AsyncOutput::StatusAsync(data),
            AsyncKind::Notify => AsyncOutput::NotifyAsync(data),
        }
    }
}

impl Stream {
    /// The stream whose records `c` introduces, if any.
    pub fn from_marker(c: char) -> (r: Option<Stream>)
        ensures
            r == grammar::stream_of(c),
    {
        if c == '~' {
            Some(Stream::Console)
        } else if c == '@' {
            Some(Stream::Target)
        } else if c == '&' {
            Some(Stream::Log)
        } else {
            None
        }
    }

    /// The record of this stream that carries `text`.
    pub fn record<'a>(&self, text: &'a str) -> (r: StreamOutput<'a>)
        ensures
            r@ == (*self, text@),
    {
        match self {
            Stream::Console => StreamOutput::Console(text),
            Stream::Target => StreamOutput::Target(text),
            Stream::Log => StreamOutput::Log(text),
        }
    }
}

/// The token with the number `number`, if there is one.
pub open spec fn token_of(number: Option<u32>) -> Option<Token> {
    match number {
        Some(n) => Some(Token(n)),
        None => None,
    }
}

impl<'a> Parser<'a> {
    /// Parses the optional token at offset `pos`: the token, if there is
    /// one, and the offset just after the digits.
    pub fn token_at(&self, pos: usize) -> (r: (Option<Token>, usize))
        requires
            pos <= self@.len(),
        ensures
            r.0 == token_of(grammar::token(self@, pos as int).0),
            r.1 == pos + grammar::token(self@, pos as int).1,
            r.1 <= self@.len(),
    {
        let end = self.scan(pos, CharClass::Digit);
        proof {
            lemma_run_members(self@, pos as int, CharClass::Digit);
        }
        let mut i: usize = pos;
        let mut number: u32 = 0;
        let mut fits = true;
        assert(self@.subrange(pos as int, pos as int) =~= Seq::<char>::empty());
        while i < end
            invariant
                pos <= i <= end <= self@.len(),
                forall|j: int| pos <= j < end ==> grammar::is_digit(#[trigger] self@[j]),
                fits ==> number == grammar::decimal(self@.subrange(pos as int, i as int)),
                !fits ==> grammar::decimal(self@.subrange(pos as int, i as int)) > u32::MAX,
            decreases end - i,
        {
            let c = match self.peek(i) {
                Some(c) => c,
                None => '0',
            };
            assert(grammar::is_digit(self@[i as int]));
            let digit: u32 = c as u32 - '0' as u32;
            proof {
                lemma_decimal_step(self@, pos as int, i as int);
            }
            if fits {
                let wide: u64 = number as u64 * 10 + digit as u64;
                if wide <= u32::MAX as u64 {
                    number = wide as u32;
                } else {
                    fits = false;
                }
            }
            i += 1;
        }
        if end > pos && fits {
            (Some(Token(number)), end)
        } else {
            (None, end)
        }
    }

    /// Parses the class of a result record at offset `pos`.
    pub fn result_class_at(&self, pos: usize) -> (r: Result<(OutputClass<'a>, usize), ParseError>)
        requires
            pos <= self@.len(),
        ensures
            is_parsed_class(r, grammar::result_class(self@, pos as int), pos),
            r matches Ok((_, end)) ==> end <= self@.len(),
    {
        if let Some(end) = self.word_at(pos, "done") {
            Ok((OutputClass::Done, end))
        } else if let Some(end) = self.word_at(pos, "running") {
            Ok((OutputClass::Running, end))
        } else if let Some(end) = self.word_at(pos, "connected") {
            Ok((OutputClass::Connected, end))
        } else if let Some(end) = self.word_at(pos, "error") {
            Ok((OutputClass::Error, end))
        } else if let Some(end) = self.word_at(pos, "exit") {
            Ok((OutputClass::Exit, end))
        } else {
            Err(
                ParseError::new(ErrorKind::ExpectedIdentifier, pos).within(
                    Production::ResultClass,
                    pos,
                ),
            )
        }
    }

    /// Parses the class of an async record at offset `pos`.
    pub fn async_class_at(&self, pos: usize) -> (r: Result<(OutputClass<'a>, usize), ParseError>)
        requires
            pos <= self@.len(),
        ensures
            is_parsed_class(r, grammar::async_class(self@, pos as int), pos),
            r matches Ok((_, end)) ==> end <= self@.len(),
    {
        if let Some(end) = self.word_at(pos, "stopped") {
            Ok((OutputClass::Stopped, end))
        } else {
            let len = self.len();
            let starts = match self.peek(pos) {
                Some(c) => is_alpha(c),
                None => false,
            };
            if starts && pos < len {
                let end = self.scan(pos + 1, CharClass::IdentifierRest);
                Ok((OutputClass::Unknown(self.slice(pos, end)), end))
            } else {
                Err(
                    ParseError::new(ErrorKind::ExpectedIdentifier, pos).within(
                        Production::AsyncClass,
                        pos,
                    ),
                )
            }
        }
    }

    /// Parses the results of a record at offset `pos`: one or more
    /// variables, separated by commas. A comma behind which no variable
    /// begins ends them and is left where it is.
    pub fn result_list_at(&self, pos: usize, depth: usize) -> (r: Result<
        (Vec<Variable<'a>>, usize),
        ParseError,
    >)
        requires
            pos <= self@.len(),
        ensures
            is_parsed_variables(r, grammar::result_list(self@, pos as int, depth as nat), pos),
            r matches Ok((_, end)) ==> end <= self@.len(),
    {
        proof {
            lemma_variables_in_bounds(self@, pos as int, depth as nat);
        }
        match self.variables_at(pos, depth) {
            Ok(found) => Ok(found),
            Err(e) => Err(e.within(Production::ResultList, pos)),
        }
    }

    /// Parses the results that follow the comma just before offset `pos`.
    fn results_after_comma(&self, pos: usize, depth: usize) -> (r: Result<
        (Vec<Variable<'a>>, usize),
        ParseError,
    >)
        requires
            pos <= self@.len(),
        ensures
            is_parsed_variables(
                r,
                grammar::after_comma(
                    pos as int,
                    grammar::result_list(self@, pos as int, depth as nat),
                ),
                pos,
            ),
            r matches Ok((_, end)) ==> end <= self@.len(),
    {
        match self.result_list_at(pos, depth) {
            Ok(found) => Ok(found),
            Err(e) => if e.position == pos {
                Err(ParseError::new(ErrorKind::ExpectedVariable, pos))
            } else {
                Err(e)
            },
        }
    }

    /// The offset just after the line terminator at offset `pos`, or `pos`
    /// where there is none.
    pub fn line_end_at(&self, pos: usize) -> (end: usize)
        requires
            pos <= self@.len(),
        ensures
            end == pos + grammar::line_end(self@, pos as int),
            end <= self@.len(),
    {
        let len = self.len();
        if self.has_char(pos, '\n') {
            pos + 1
        } else if self.has_char(pos, '\r') && self.has_char(pos + 1, '\n') {
            pos + 2
        } else {
            pos
        }
    }

    /// Parses class and results of an async record at offset `pos`.
    pub fn async_output_at(&self, pos: usize, depth: usize) -> (r: Result<
        ((OutputClass<'a>, Vec<Variable<'a>>), usize),
        ParseError,
    >)
        requires
            pos <= self@.len(),
        ensures
            is_parsed_async_output(r, grammar::async_output(self@, pos as int, depth as nat), pos),
            r matches Ok((_, end)) ==> end <= self@.len(),
    {
        let len = self.len();
        let r = match self.async_class_at(pos) {
            Err(e) => Err(e),
            Ok((class, end)) => if self.has_char(end, ',') {
                match self.results_after_comma(end + 1, depth) {
                    Ok((vars, after)) => Ok(((class, vars), after)),
                    Err(e) => Err(e),
                }
            } else {
                Err(ParseError::new(ErrorKind::ExpectedVariable, end))
            },
        };
        match r {
            Ok(found) => Ok(found),
            Err(e) => Err(e.within(Production::AsyncOutput, pos)),
        }
    }

    /// Parses an async record of kind `kind` at offset `pos`.
    pub fn async_record_kind_at(&self, pos: usize, kind: AsyncKind, depth: usize) -> (r: Result<
        (AsyncOutput<'a>, usize),
        ParseError,
    >)
        requires
            pos <= self@.len(),
        ensures
            is_parsed_async(
                r,
                grammar::async_record_kind(self@, pos as int, kind, depth as nat),
                pos,
            ),
            r matches Ok((_, end)) ==> end <= self@.len(),
    {
        let len = self.len();
        let (token, marker) = self.token_at(pos);
        let r = if self.has_char(marker, kind.marker()) {
            match self.async_output_at(marker + 1, depth) {
                Err(e) => Err(e),
                Ok(((class, vars), end)) => Ok(
                    (kind.record(OutputData(token, class, vars)), self.line_end_at(end)),
                ),
            }
        } else {
            Err(ParseError::new(ErrorKind::UnrecognizedRecordMarker, marker))
        };
        match r {
            Ok(found) => Ok(found),
            Err(e) => Err(e.within(kind.production(), pos)),
        }
    }

    /// The kind of async record that the character at offset `pos`
    /// introduces, if any.
    fn async_kind_at(&self, pos: usize) -> (r: Option<AsyncKind>)
        ensures
            r == if 0 <= pos < self@.len() {
                grammar::async_kind_of(self@[pos as int])
            } else {
                None
            },
    {
        match self.peek(pos) {
            Some(c) => AsyncKind::from_marker(c),
            None => None,
        }
    }

    /// The stream whose records the character at offset `pos` introduces,
    /// if any.
    fn stream_at(&self, pos: usize) -> (r: Option<Stream>)
        ensures
            r == if 0 <= pos < self@.len() {
                grammar::stream_of(self@[pos as int])
            } else {
                None
            },
    {
        match self.peek(pos) {
            Some(c) => Stream::from_marker(c),
            None => None,
        }
    }

    /// Parses an async record at offset `pos`.
    pub fn async_record_at(&self, pos: usize, depth: usize) -> (r: Result<
        (AsyncOutput<'a>, usize),
        ParseError,
    >)
        requires
            pos <= self@.len(),
        ensures
            is_parsed_async(r, grammar::async_record(self@, pos as int, depth as nat), pos),
            r matches Ok((_, end)) ==> end <= self@.len(),
    {
        let (_, marker) = self.token_at(pos);
        match self.async_kind_at(marker) {
            Some(kind) => self.async_record_kind_at(pos, kind, depth),
            None => Err(ParseError::new(ErrorKind::UnrecognizedRecordMarker, marker)),
        }
    }

    /// Parses a stream record at offset `pos`.
    pub fn stream_record_at(&self, pos: usize) -> (r: Result<(StreamOutput<'a>, usize), ParseError>)
        requires
            pos <= self@.len(),
        ensures
            is_parsed_stream(r, grammar::stream_record(self@, pos as int), pos),
            r matches Ok((_, end)) ==> end <= self@.len(),
    {
        let len = self.len();
        let r = match self.stream_at(pos) {
            None => Err(ParseError::new(ErrorKind::UnrecognizedRecordMarker, pos)),
            Some(stream) => match self.string_at(pos + 1) {
                Err(e) => Err(e),
                Ok((_, end)) => Ok(
                    (stream.record(self.slice(pos + 2, end - 1)), self.line_end_at(end)),
                ),
            },
        };
        match r {
            Ok(found) => Ok(found),
            Err(e) => Err(e.within(Production::StreamRecord, pos)),
        }
    }

    /// Parses an out-of-band record at offset `pos`.
    pub fn oob_record_at(&self, pos: usize, depth: usize) -> (r: Result<
        (OOB<'a>, usize),
        ParseError,
    >)
        requires
            pos <= self@.len(),
        ensures
            is_parsed_oob(r, grammar::oob_record(self@, pos as int, depth as nat), pos),
            r matches Ok((_, end)) ==> end <= self@.len(),
    {
        let (_, marker) = self.token_at(pos);
        let r = if self.async_kind_at(marker).is_some() {
            match self.async_record_at(pos, depth) {
                Ok((record, end)) => Ok((OOB::AsyncRecord(record), end)),
                Err(e) => Err(e),
            }
        } else if self.stream_at(marker).is_some() {
            match self.stream_record_at(marker) {
                Ok((record, end)) => Ok((OOB::StreamRecord(record), end)),
                Err(e) => Err(e),
            }
        } else {
            Err(ParseError::new(ErrorKind::UnrecognizedRecordMarker, marker))
        };
        match r {
            Ok(found) => Ok(found),
            Err(e) => Err(e.within(Production::OobRecord, pos)),
        }
    }

    /// Parses a result record at offset `pos`.
    pub fn result_record_at(&self, pos: usize, depth: usize) -> (r: Result<
        (OutputData<'a>, usize),
        ParseError,
    >)
        requires
            pos <= self@.len(),
        ensures
            is_parsed_data(r, grammar::result_record(self@, pos as int, depth as nat), pos),
            r matches Ok((_, end)) ==> end <= self@.len(),
    {
        let len = self.len();
        let (token, marker) = self.token_at(pos);
        let r = if self.has_char(marker, '^') {
            match self.result_class_at(marker + 1) {
                Err(e) => Err(e),
                Ok((class, end)) => if self.has_char(end, ',') {
                    match self.results_after_comma(end + 1, depth) {
                        Err(e) => Err(e),
                        Ok((vars, after)) => Ok(
                            (OutputData(token, class, vars), self.line_end_at(after)),
                        ),
                    }
                } else {
                    let vars: Vec<Variable<'a>> = Vec::new();
                    assert(fields_of(vars@) =~= Seq::<Field>::empty());
                    Ok((OutputData(token, class, vars), self.line_end_at(end)))
                },
            }
        } else {
            Err(ParseError::new(ErrorKind::UnrecognizedRecordMarker, marker))
        };
        match r {
            Ok(found) => Ok(found),
            Err(e) => Err(e.within(Production::ResultRecord, pos)),
        }
    }

    /// Parses the record that the text starts with.
    pub fn output(&self, depth: usize) -> (r: Result<(Output<'a>, usize), ParseError>)
        ensures
            is_parsed_output(r, grammar::output(self@, depth as nat), 0),
            r matches Ok((_, end)) ==> end <= self@.len(),
    {
        let (_, marker) = self.token_at(0);
        let r = if self.has_char(marker, '^') {
            match self.result_record_at(0, depth) {
                Ok((data, end)) => Ok((Output::ResultRecord(data), end)),
                Err(e) => Err(e),
            }
        } else if self.async_kind_at(marker).is_some() || self.stream_at(marker).is_some() {
            match self.oob_record_at(0, depth) {
                Ok((record, end)) => Ok((Output::OOBRecord(record), end)),
                Err(e) => Err(e),
            }
        } else {
            Err(ParseError::new(ErrorKind::UnrecognizedRecordMarker, marker))
        };
        match r {
            Ok(found) => Ok(found),
            Err(e) => Err(e.within(Production::Output, 0)),
        }
    }

    /// Parses the prompt `(gdb)` at offset `pos`: the offset just after it.
    pub fn termination_at(&self, pos: usize) -> (r: Result<usize, ParseError>)
        requires
            pos <= self@.len(),
        ensures
            match grammar::termination(self@, pos as int) {
                Ok((_, n)) => r matches Ok(end) && end == pos + n,
                Err(f) => r matches Err(e) && e@ == f,
            },
            r matches Ok(end) ==> end <= self@.len(),
    {
        match self.word_at(pos, "(gdb)") {
            Some(end) => Ok(end),
            None => Err(
                ParseError::new(ErrorKind::UnrecognizedRecordMarker, pos).within(
                    Production::Termination,
                    pos,
                ),
            ),
        }
    }
}

} // verus!
