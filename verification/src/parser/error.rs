//! Parse failures: what went wrong, where, and inside which productions.
use vstd::prelude::*;

verus! {

/// The reason a parse failed.
#[derive(Clone, Copy, Debug, PartialEq, Eq, Structural)]
pub enum ErrorKind {
    /// The input does not start with a character that may begin an identifier.
    ExpectedIdentifier,
    /// The input ends inside a quoted string.
    UnterminatedString,
    /// A backslash is followed by a character that is no known escape.
    InvalidEscape,
    /// The input starts with none of `"`, `{` and `[`.
    ExpectedValue,
    /// A tuple has no closing `}` where one is due.
    UnterminatedTuple,
    /// A comma is followed by something that cannot start a variable.
    ExpectedVariable,
    /// The first element of a list is neither a variable nor a value.
    ExpectedListElement,
    /// A list has no closing `]` where one is due.
    UnterminatedList,
    /// The name of a variable is not followed by `=`.
    ExpectedEquals,
    /// The character after the token introduces no known kind of record.
    UnrecognizedRecordMarker,
    /// Tuples and lists are nested more deeply than the parser follows.
    NestingTooDeep,
}

/// A production of the grammar, as it appears in the context of a failure.
#[derive(Clone, Copy, Debug, PartialEq, Eq, Structural)]
pub enum Production {
    Identifier,
    Constant,
    Value,
    TupleValue,
    List,
    VariableList,
    ValueList,
    Variable,
    ResultList,
    ResultClass,
    AsyncClass,
    AsyncOutput,
    ExecAsync,
    StatusAsync,
    NotifyAsync,
    StreamRecord,
    ResultRecord,
    OobRecord,
    Output,
    Termination,
}

/// One entry of a failure's context: a production and the offset in the input
/// at which the parser entered it.
#[derive(Clone, Copy, Debug, PartialEq, Eq, Structural)]
pub struct Frame {
    pub production: Production,
    pub start: usize,
}

/// A failure as the grammar defines it.
pub struct Failure {
    pub kind: ErrorKind,
    /// Offset of the first character that could not be accepted.
    pub position: int,
    /// The productions that were being parsed, outermost first, each with the
    /// offset at which it started.
    pub context: Seq<(Production, int)>,
}

/// A failed parse.
#[derive(Clone, Debug, PartialEq, Eq)]
pub struct ParseError {
    pub kind: ErrorKind,
    /// Offset, in characters from the start of the input, of the first
    /// character that could not be accepted.
    pub position: usize,
    /// The productions that were being parsed, outermost first.
    pub context: Vec<Frame>,
}

impl View for ParseError {
    type V = Failure;

    open spec fn view(&self) -> Failure {
        Failure {
            kind: self.kind,
            position: self.position as int,
            context: Seq::new(
                self.context@.len(),
                |i: int| (self.context@[i].production, self.context@[i].start as int),
            ),
        }
    }
}

/// A failure of `kind` at `position` with an empty context.
pub open spec fn failure(kind: ErrorKind, position: int) -> Failure {
    Failure { kind, position, context: Seq::empty() }
}

/// `f` as seen from production `production`, which started at `start`.
pub open spec fn within(production: Production, start: int, f: Failure) -> Failure {
    Failure { kind: f.kind, position: f.position, context: seq![(production, start)] + f.context }
}

/// The result `r` of a production's body, with the production added to the
/// context of a failure.
pub open spec fn in_context<T>(production: Production, start: int, r: Result<T, Failure>) -> Result<
    T,
    Failure,
> {
    match r {
        Ok(v) => Ok(v),
        Err(f) => Err(within(production, start, f)),
    }
}

impl Production {
    /// The name under which the production is shown in diagnostics.
    pub open spec fn spec_name(self) -> Seq<char> {
        match self {
            Production::Identifier => "identifier"@,
            Production::Constant => "constant"@,
            Production::Value => "value"@,
            Production::TupleValue => "tuple_value"@,
            Production::List => "list"@,
            Production::VariableList => "variable_list"@,
            Production::ValueList => "value_list"@,
            Production::Variable => "variable"@,
            Production::ResultList => "result_list"@,
            Production::ResultClass => "result_class"@,
            Production::AsyncClass => "async_class"@,
            Production::AsyncOutput => "async_output"@,
            Production::ExecAsync => "exec_async"@,
            Production::StatusAsync => "status_async"@,
            Production::NotifyAsync => "notify_async"@,
            Production::StreamRecord => "stream_record"@,
            Production::ResultRecord => "result_record"@,
            Production::OobRecord => "oob_record"@,
            Production::Output => "output"@,
            Production::Termination => "termination"@,
        }
    }

    /// The name under which the production is shown in diagnostics.
    pub fn name(&self) -> (r: &'static str)
        ensures
            r@ == self.spec_name(),
    {
        match self {
            Production::Identifier => "identifier",
            Production::Constant => "constant",
            Production::Value => "value",
            Production::TupleValue => "tuple_value",
            Production::List => "list",
            Production::VariableList => "variable_list",
            Production::ValueList => "value_list",
            Production::Variable => "variable",
            Production::ResultList => "result_list",
            Production::ResultClass => "result_class",
            Production::AsyncClass => "async_class",
            Production::AsyncOutput => "async_output",
            Production::ExecAsync => "exec_async",
            Production::StatusAsync => "status_async",
            Production::NotifyAsync => "notify_async",
            Production::StreamRecord => "stream_record",
            Production::ResultRecord => "result_record",
            Production::OobRecord => "oob_record",
            Production::Output => "output",
            Production::Termination => "termination",
        }
    }
}

impl ParseError {
    /// A failure of `kind` at `position` with an empty context.
    pub fn new(kind: ErrorKind, position: usize) -> (e: ParseError)
        ensures
            e@ == failure(kind, position as int),
    {
        let e = ParseError { kind, position, context: Vec::new() };
        assert(e@.context =~= Seq::empty());
        e
    }

    /// Adds the production that was being parsed around the failure as the
    /// new outermost entry of the context.
    pub fn within(self, production: Production, start: usize) -> (e: ParseError)
        ensures
            e@ == within(production, start as int, self@),
    {
        let mut context = self.context;
        context.insert(0, Frame { production, start });
        let e = ParseError { kind: self.kind, position: self.position, context };
        assert(e@.context =~= seq![(production, start as int)] + self@.context);
        e
    }

    /// The names of the productions in the context, outermost first.
    pub fn labels(&self) -> (names: Vec<&'static str>)
        ensures
            names@.len() == self@.context.len(),
            forall|i: int|
                0 <= i < names@.len() ==> (#[trigger] names@[i])@ == self@.context[i].0.spec_name(),
    {
        let mut names: Vec<&'static str> = Vec::new();
        let mut i: usize = 0;
        while i < self.context.len()
            invariant
                i <= self.context.len(),
                names@.len() == i,
                forall|j: int|
                    0 <= j < i ==> (#[trigger] names@[j])@ == self@.context[j].0.spec_name(),
            decreases self.context.len() - i,
        {
            names.push(self.context[i].production.name());
            i += 1;
        }
        names
    }
}

} // verus!
