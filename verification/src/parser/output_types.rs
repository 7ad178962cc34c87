//! The typed tree that one output record parses to, and the mathematical
//! model of that tree which the grammar and the contracts speak of.
use std::borrow::Cow;
use vstd::prelude::*;

verus! {

/// The sequence number that may precede a record.
#[derive(Clone, Copy, Debug, PartialEq, Eq, Structural)]
pub struct Token(pub u32);

/// Why a record was emitted. `Done`, `Running`, `Connected`, `Error` and
/// `Exit` close the reply to a command; `Stopped` and `Unknown` describe
/// notifications, `Unknown` keeping the class name as it was written.
#[derive(Debug, PartialEq)]
pub enum OutputClass<'a> {
    Done,
    Running,
    Connected,
    Error,
    Exit,
    Stopped,
    Unknown(&'a str),
}

/// A named value.
#[derive(Debug, PartialEq)]
pub struct Variable<'a>(pub &'a str, pub Value<'a>);

/// A value: a scalar, a tuple or a list.
#[derive(Debug, PartialEq)]
pub enum Value<'a> {
    /// A string, with its escape sequences resolved.
    Const(Cow<'a, str>),
    Tuple(TupleValue<'a>),
    List(ListValue<'a>),
}

/// What stands between `[` and `]`: nothing, values, or variables.
#[derive(Debug, PartialEq)]
pub enum ListValue<'a> {
    Empty,
    ValueList(Vec<Value<'a>>),
    VariableList(Vec<Variable<'a>>),
}

/// What stands between `{` and `}`.
#[derive(Debug, PartialEq)]
pub enum TupleValue<'a> {
    Empty,
    Data(Vec<Variable<'a>>),
}

/// The text of a stream record, as it stands between the quotes.
#[derive(Debug, PartialEq)]
pub enum StreamOutput<'a> {
    Console(&'a str),
    Target(&'a str),
    Log(&'a str),
}

/// The three streams a debugger writes to.
#[derive(Debug, PartialEq)]
pub enum StreamKind<'a> {
    Console(&'a str),
    Target(&'a str),
    Log(&'a str),
}

/// Token, class and results of a result record or of an async record.
#[derive(Debug, PartialEq)]
pub struct OutputData<'a>(pub Option<Token>, pub OutputClass<'a>, pub Vec<Variable<'a>>);

/// An async record: a notification of one of three kinds.
#[derive(Debug, PartialEq)]
pub enum AsyncOutput<'a> {
    ExeAsync(OutputData<'a>),
    StatusAsync(OutputData<'a>),
    NotifyAsync(OutputData<'a>),
}

/// An out-of-band record.
#[derive(Debug, PartialEq)]
pub enum OOB<'a> {
    StreamRecord(StreamOutput<'a>),
    AsyncRecord(AsyncOutput<'a>),
}

/// One parsed output record.
#[derive(Debug, PartialEq)]
pub enum Output<'a> {
    ResultRecord(OutputData<'a>),
    OOBRecord(OOB<'a>),
}

/// The model of a [`Value`].
pub enum Node {
    /// A scalar: its text, and whether the value borrows the text from the
    /// input or holds a copy of its own.
    Const { text: Seq<char>, borrowed: bool },
    Tuple(Seq<Field>),
    List(Items),
}

/// The model of a [`Variable`].
pub struct Field {
    pub name: Seq<char>,
    pub value: Node,
}

/// The model of a [`ListValue`].
pub enum Items {
    Empty,
    Values(Seq<Node>),
    Variables(Seq<Field>),
}

/// The model of an [`OutputClass`].
pub enum Class {
    Done,
    Running,
    Connected,
    Error,
    Exit,
    Stopped,
    Unknown(Seq<char>),
}

/// The model of an [`OutputData`].
pub struct Data {
    pub token: Option<u32>,
    pub class: Class,
    pub results: Seq<Field>,
}

/// The stream a stream record belongs to.
#[derive(Clone, Copy, Debug, PartialEq, Eq, Structural)]
pub enum Stream {
    Console,
    Target,
    Log,
}

/// The kind of an async record.
#[derive(Clone, Copy, Debug, PartialEq, Eq, Structural)]
pub enum AsyncKind {
    Exec,
    Status,
    Notify,
}

/// The model of an [`Output`].
pub enum Record {
    Result(Data),
    Async(AsyncKind, Data),
    Stream(Stream, Seq<char>),
}

/// The model of `v`.
pub open spec fn node_of(v: Value<'_>) -> Node
    decreases v,
{
    match v {
        Value::Const(text) => Node::Const {
            text: text@,
            borrowed: text matches Cow::Borrowed(_),
        },
        Value::Tuple(TupleValue::Empty) => Node::Tuple(Seq::empty()),
        Value::Tuple(TupleValue::Data(vars)) => Node::Tuple(
            Seq::new(
                vars.len() as nat,
                |i: int|
                    if 0 <= i < vars.len() {
                        Field { name: vars[i].0@, value: node_of(vars[i].1) }
                    } else {
                        Field { name: Seq::empty(), value: Node::Tuple(Seq::empty()) }
                    },
            ),
        ),
        Value::List(ListValue::Empty) => Node::List(Items::Empty),
        Value::List(ListValue::ValueList(items)) => Node::List(
            Items::Values(
                Seq::new(
                    items.len() as nat,
                    |i: int|
                        if 0 <= i < items.len() {
                            node_of(items[i])
                        } else {
                            Node::Tuple(Seq::empty())
                        },
                ),
            ),
        ),
        Value::List(ListValue::VariableList(vars)) => Node::List(
            Items::Variables(
                Seq::new(
                    vars.len() as nat,
                    |i: int|
                        if 0 <= i < vars.len() {
                            Field { name: vars[i].0@, value: node_of(vars[i].1) }
                        } else {
                            Field { name: Seq::empty(), value: Node::Tuple(Seq::empty()) }
                        },
                ),
            ),
        ),
    }
}

/// The models of the variables in `vars`, in order.
pub open spec fn fields_of(vars: Seq<Variable<'_>>) -> Seq<Field> {
    Seq::new(vars.len(), |i: int| Field { name: vars[i].0@, value: node_of(vars[i].1) })
}

/// The models of the values in `items`, in order.
pub open spec fn nodes_of(items: Seq<Value<'_>>) -> Seq<Node> {
    Seq::new(items.len(), |i: int| node_of(items[i]))
}

/// Whether `v` is written the one way the parser writes it: an empty tuple
/// as `TupleValue::Empty`, an empty list as `ListValue::Empty`, at every
/// level.
pub open spec fn is_canonical(v: Value<'_>) -> bool
    decreases v,
{
    match v {
        Value::Const(_) => true,
        Value::Tuple(TupleValue::Empty) => true,
        Value::Tuple(TupleValue::Data(vars)) => vars.len() > 0 && forall|i: int|
            0 <= i < vars.len() ==> is_canonical(#[trigger] vars[i].1),
        Value::List(ListValue::Empty) => true,
        Value::List(ListValue::ValueList(items)) => items.len() > 0 && forall|i: int|
            0 <= i < items.len() ==> is_canonical(#[trigger] items[i]),
        Value::List(ListValue::VariableList(vars)) => vars.len() > 0 && forall|i: int|
            0 <= i < vars.len() ==> is_canonical(#[trigger] vars[i].1),
    }
}

/// Whether the value of every variable in `vars` is canonical.
pub open spec fn all_canonical(vars: Seq<Variable<'_>>) -> bool {
    forall|i: int| 0 <= i < vars.len() ==> is_canonical(#[trigger] vars[i].1)
}

/// The model of a tuple is the sequence of the models of its variables.
pub proof fn lemma_node_of_tuple(vars: Vec<Variable<'_>>)
    ensures
        node_of(Value::Tuple(TupleValue::Data(vars))) == Node::Tuple(fields_of(vars@)),
{
    assert(node_of(Value::Tuple(TupleValue::Data(vars)))->Tuple_0 =~= fields_of(vars@));
}

/// The model of a list of variables is the sequence of their models.
pub proof fn lemma_node_of_variable_list(vars: Vec<Variable<'_>>)
    ensures
        node_of(Value::List(ListValue::VariableList(vars))) == Node::List(
            Items::Variables(fields_of(vars@)),
        ),
{
    assert(node_of(Value::List(ListValue::VariableList(vars)))->List_0->Variables_0 =~= fields_of(
        vars@,
    ));
}

/// The model of a list of values is the sequence of their models.
pub proof fn lemma_node_of_value_list(items: Vec<Value<'_>>)
    ensures
        node_of(Value::List(ListValue::ValueList(items))) == Node::List(
            Items::Values(nodes_of(items@)),
        ),
{
    assert(node_of(Value::List(ListValue::ValueList(items)))->List_0->Values_0 =~= nodes_of(
        items@,
    ));
}

/// The model of a list is the model of what stands between its brackets.
pub proof fn lemma_node_of_list(l: ListValue<'_>)
    ensures
        node_of(Value::List(l)) == Node::List(l@),
{
    match l {
        ListValue::Empty => {},
        ListValue::ValueList(items) => lemma_node_of_value_list(items),
        ListValue::VariableList(vars) => lemma_node_of_variable_list(vars),
    }
}

impl<'a> From<&'a str> for Value<'a> {
    /// The scalar `f`, borrowed.
    fn from(f: &'a str) -> (v: Self) {
        Value::Const(Cow::Borrowed(f))
    }
}

impl<'a> vstd::std_specs::convert::FromSpecImpl<&'a str> for Value<'a> {
    open spec fn obeys_from_spec() -> bool {
        true
    }

    open spec fn from_spec(f: &'a str) -> Self {
        Value::Const(Cow::Borrowed(f))
    }
}

impl<'a> From<Vec<Variable<'a>>> for TupleValue<'a> {
    /// The tuple of the variables `v`; `Empty` when there are none.
    fn from(v: Vec<Variable<'a>>) -> (t: Self) {
        if v.is_empty() {
            TupleValue::Empty
        } else {
            TupleValue::Data(v)
        }
    }
}

impl<'a> vstd::std_specs::convert::FromSpecImpl<Vec<Variable<'a>>> for TupleValue<'a> {
    open spec fn obeys_from_spec() -> bool {
        true
    }

    open spec fn from_spec(v: Vec<Variable<'a>>) -> Self {
        if v@.len() == 0 {
            TupleValue::Empty
        } else {
            TupleValue::Data(v)
        }
    }
}

impl<'a> From<Vec<Variable<'a>>> for ListValue<'a> {
    /// The list of the variables `v`; `Empty` when there are none.
    fn from(v: Vec<Variable<'a>>) -> (l: Self) {
        if v.is_empty() {
            ListValue::Empty
        } else {
            ListValue::VariableList(v)
        }
    }
}

impl<'a> vstd::std_specs::convert::FromSpecImpl<Vec<Variable<'a>>> for ListValue<'a> {
    open spec fn obeys_from_spec() -> bool {
        true
    }

    open spec fn from_spec(v: Vec<Variable<'a>>) -> Self {
        if v@.len() == 0 {
            ListValue::Empty
        } else {
            ListValue::VariableList(v)
        }
    }
}

impl<'a> From<Vec<Value<'a>>> for ListValue<'a> {
    /// The list of the values `v`.
    fn from(v: Vec<Value<'a>>) -> (l: Self) {
        ListValue::ValueList(v)
    }
}

impl<'a> vstd::std_specs::convert::FromSpecImpl<Vec<Value<'a>>> for ListValue<'a> {
    open spec fn obeys_from_spec() -> bool {
        true
    }

    open spec fn from_spec(v: Vec<Value<'a>>) -> Self {
        ListValue::ValueList(v)
    }
}

impl<'a> Default for ListValue<'a> {
    fn default() -> (l: Self)
        ensures
            l == ListValue::<'a>::Empty,
    {
        ListValue::Empty
    }
}

impl<'a> Default for TupleValue<'a> {
    fn default() -> (t: Self)
        ensures
            t == TupleValue::<'a>::Empty,
    {
        TupleValue::Empty
    }
}

impl<'a> View for Value<'a> {
    type V = Node;

    open spec fn view(&self) -> Node {
        node_of(*self)
    }
}

impl<'a> View for Variable<'a> {
    type V = Field;

    open spec fn view(&self) -> Field {
        Field { name: self.0@, value: node_of(self.1) }
    }
}

impl<'a> View for TupleValue<'a> {
    type V = Seq<Field>;

    open spec fn view(&self) -> Seq<Field> {
        match self {
            TupleValue::Empty => Seq::empty(),
            TupleValue::Data(vars) => fields_of(vars@),
        }
    }
}

impl<'a> View for ListValue<'a> {
    type V = Items;

    open spec fn view(&self) -> Items {
        match self {
            ListValue::Empty => Items::Empty,
            ListValue::ValueList(items) => Items::Values(nodes_of(items@)),
            ListValue::VariableList(vars) => Items::Variables(fields_of(vars@)),
        }
    }
}

impl<'a> View for OutputClass<'a> {
    type V = Class;

    open spec fn view(&self) -> Class {
        match self {
            OutputClass::Done => Class::Done,
            OutputClass::Running => Class::Running,
            OutputClass::Connected => Class::Connected,
            OutputClass::Error => Class::Error,
            OutputClass::Exit => Class::Exit,
            OutputClass::Stopped => Class::Stopped,
            OutputClass::Unknown(name) => Class::Unknown(name@),
        }
    }
}

impl<'a> View for OutputData<'a> {
    type V = Data;

    open spec fn view(&self) -> Data {
        Data {
            token: match self.0 {
                Some(t) => Some(t.0),
                None => None,
            },
            class: self.1@,
            results: fields_of(self.2@),
        }
    }
}

impl<'a> View for StreamOutput<'a> {
    type V = (Stream, Seq<char>);

    open spec fn view(&self) -> (Stream, Seq<char>) {
        match self {
            StreamOutput::Console(text) => (Stream::Console, text@),
            StreamOutput::Target(text) => (Stream::Target, text@),
            StreamOutput::Log(text) => (Stream::Log, text@),
        }
    }
}

impl<'a> View for AsyncOutput<'a> {
    type V = (AsyncKind, Data);

    open spec fn view(&self) -> (AsyncKind, Data) {
        match self {
            AsyncOutput::ExeAsync(data) => (AsyncKind::Exec, data@),
            AsyncOutput::StatusAsync(data) => (AsyncKind::Status, data@),
            AsyncOutput::NotifyAsync(data) => (AsyncKind::Notify, data@),
        }
    }
}

impl<'a> View for OOB<'a> {
    type V = Record;

    open spec fn view(&self) -> Record {
        match self {
            OOB::StreamRecord(s) => Record::Stream(s@.0, s@.1),
            OOB::AsyncRecord(a) => Record::Async(a@.0, a@.1),
        }
    }
}

impl<'a> View for Output<'a> {
    type V = Record;

    open spec fn view(&self) -> Record {
        match self {
            Output::ResultRecord(data) => Record::Result(data@),
            Output::OOBRecord(oob) => oob@,
        }
    }
}

} // verus!
