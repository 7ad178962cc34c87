//! Values: scalars, tuples and lists, and the variables that name them.
use super::error::{ErrorKind, Failure, ParseError, Production};
use super::grammar;
use super::output_types::{
    all_canonical, fields_of, is_canonical, lemma_node_of_list, lemma_node_of_tuple,
    lemma_node_of_value_list, lemma_node_of_variable_list, nodes_of, Field, Items, ListValue,
    Node, TupleValue, Value, Variable,
};
use super::progress::{
    lemma_value_in_bounds, lemma_values_in_bounds, lemma_variable_in_bounds,
    lemma_variables_in_bounds,
};
use super::Parser;
use vstd::prelude::*;

verus! {

/// Whether `r` is what the grammar's result `g` for a value at `pos` asks
/// for: the value with that model, written canonically, and the offset at
/// which it ends; or the same failure.
pub open spec fn is_parsed_value(
    r: Result<(Value<'_>, usize), ParseError>,
    g: Result<(Node, nat), Failure>,
    pos: usize,
) -> bool {
    match g {
        Ok((node, n)) => r matches Ok((v, end)) && v@ == node && is_canonical(v) && end == pos + n,
        Err(f) => r matches Err(e) && e@ == f,
    }
}

/// As [`is_parsed_value`], for a variable.
pub open spec fn is_parsed_variable(
    r: Result<(Variable<'_>, usize), ParseError>,
    g: Result<(Field, nat), Failure>,
    pos: usize,
) -> bool {
    match g {
        Ok((field, n)) => r matches Ok((v, end)) && v@ == field && is_canonical(v.1) && end == pos
            + n,
        Err(f) => r matches Err(e) && e@ == f,
    }
}

/// As [`is_parsed_value`], for a sequence of variables.
pub open spec fn is_parsed_variables(
    r: Result<(Vec<Variable<'_>>, usize), ParseError>,
    g: Result<(Seq<Field>, nat), Failure>,
    pos: usize,
) -> bool {
    match g {
        Ok((fields, n)) => r matches Ok((vars, end)) && fields_of(vars@) == fields
            && all_canonical(vars@) && end == pos + n,
        Err(f) => r matches Err(e) && e@ == f,
    }
}

/// As [`is_parsed_value`], for a sequence of values.
pub open spec fn is_parsed_values(
    r: Result<(Vec<Value<'_>>, usize), ParseError>,
    g: Result<(Seq<Node>, nat), Failure>,
    pos: usize,
) -> bool {
    match g {
        Ok((nodes, n)) => r matches Ok((items, end)) && nodes_of(items@) == nodes && (forall|
            i: int,
        |
            0 <= i < items@.len() ==> is_canonical(#[trigger] items@[i])) && end == pos + n,
        Err(f) => r matches Err(e) && e@ == f,
    }
}

/// As [`is_parsed_value`], for the elements of a list.
pub open spec fn is_parsed_items(
    r: Result<(ListValue<'_>, usize), ParseError>,
    g: Result<(Items, nat), Failure>,
    pos: usize,
) -> bool {
    match g {
        Ok((items, n)) => r matches Ok((l, end)) && l@ == items && is_canonical(Value::List(l))
            && end == pos + n,
        Err(f) => r matches Err(e) && e@ == f,
    }
}

/// The result `r` of parsing the rest of a sequence, seen from `k`
/// characters earlier, where those characters hold the elements `prefix`.
pub open spec fn joined<T>(prefix: Seq<T>, k: nat, r: Result<(Seq<T>, nat), Failure>) -> Result<
    (Seq<T>, nat),
    Failure,
> {
    match r {
        Ok((others, n)) => Ok((prefix + others, k + n)),
        Err(f) => Err(f),
    }
}

/// What follows a variable that ends at `p`: a comma and more variables,
/// or nothing, also where a comma stands there and no variable begins
/// behind it.
pub open spec fn more_variables(s: Seq<char>, p: int, d: nat) -> Result<
    (Seq<Field>, nat),
    Failure,
> {
    if grammar::has_char(s, p, ',') {
        match grammar::variables(s, p + 1, d) {
            Ok((others, m)) => Ok((others, 1 + m)),
            Err(f) => if grammar::no_variable_at(p + 1, f) {
                Ok((Seq::empty(), 0))
            } else {
                Err(f)
            },
        }
    } else {
        Ok((Seq::empty(), 0))
    }
}

/// What follows a value that ends at `p`: a comma and more values, or
/// nothing, also where a comma stands there and no value begins behind it.
pub open spec fn more_values(s: Seq<char>, p: int, d: nat) -> Result<(Seq<Node>, nat), Failure> {
    if grammar::has_char(s, p, ',') {
        match grammar::values(s, p + 1, d) {
            Ok((others, m)) => Ok((others, 1 + m)),
            Err(f) => if grammar::no_value_at(p + 1, f) {
                Ok((Seq::empty(), 0))
            } else {
                Err(f)
            },
        }
    } else {
        Ok((Seq::empty(), 0))
    }
}

/// A sequence of variables is its first variable and what follows it.
pub proof fn lemma_variables_unfold(s: Seq<char>, p: int, d: nat)
    requires
        0 <= p <= s.len(),
    ensures
        grammar::variables(s, p, d) == match grammar::variable(s, p, d) {
            Err(f) => Err(f),
            Ok((first, n)) => joined(seq![first], n, more_variables(s, p + n, d)),
        },
{
    match grammar::variable(s, p, d) {
        Ok((first, n)) => {
            assert(seq![first] + Seq::<Field>::empty() =~= seq![first]);
        },
        Err(_) => {},
    }
}

/// A sequence of values is its first value and what follows it.
pub proof fn lemma_values_unfold(s: Seq<char>, p: int, d: nat)
    requires
        0 <= p <= s.len(),
    ensures
        grammar::values(s, p, d) == match grammar::value(s, p, d) {
            Err(f) => Err(f),
            Ok((first, n)) => joined(seq![first], n, more_values(s, p + n, d)),
        },
{
    match grammar::value(s, p, d) {
        Ok((first, n)) => {
            assert(seq![first] + Seq::<Node>::empty() =~= seq![first]);
        },
        Err(_) => {},
    }
}

/// What follows a variable that has a comma and a variable behind it is
/// that variable and what follows it.
pub proof fn lemma_more_variables_step(s: Seq<char>, p: int, d: nat)
    requires
        0 <= p < s.len(),
        grammar::has_char(s, p, ','),
        grammar::variable(s, p + 1, d) is Ok,
    ensures
        more_variables(s, p, d) == joined(
            seq![grammar::variable(s, p + 1, d)->Ok_0.0],
            1 + grammar::variable(s, p + 1, d)->Ok_0.1,
            more_variables(s, p + 1 + grammar::variable(s, p + 1, d)->Ok_0.1, d),
        ),
{
    let n = grammar::variable(s, p + 1, d)->Ok_0.1;
    lemma_variables_unfold(s, p + 1, d);
    lemma_variable_in_bounds(s, p + 1, d);
    if grammar::has_char(s, p + 1 + n, ',') {
        lemma_variables_in_bounds(s, p + 1 + n + 1, d);
    }
}

/// What follows a value that has a comma and a value behind it is that
/// value and what follows it.
pub proof fn lemma_more_values_step(s: Seq<char>, p: int, d: nat)
    requires
        0 <= p < s.len(),
        grammar::has_char(s, p, ','),
        grammar::value(s, p + 1, d) is Ok,
    ensures
        more_values(s, p, d) == joined(
            seq![grammar::value(s, p + 1, d)->Ok_0.0],
            1 + grammar::value(s, p + 1, d)->Ok_0.1,
            more_values(s, p + 1 + grammar::value(s, p + 1, d)->Ok_0.1, d),
        ),
{
    let n = grammar::value(s, p + 1, d)->Ok_0.1;
    lemma_values_unfold(s, p + 1, d);
    lemma_value_in_bounds(s, p + 1, d);
    if grammar::has_char(s, p + 1 + n, ',') {
        lemma_values_in_bounds(s, p + 1 + n + 1, d);
    }
}

/// Elements read one after another join up: `prefix`, then `next`, then
/// whatever `r` says follows.
pub proof fn lemma_joined_step<T>(
    prefix: Seq<T>,
    k: nat,
    next: T,
    n: nat,
    r: Result<(Seq<T>, nat), Failure>,
)
    ensures
        joined(prefix, k, joined(seq![next], n, r)) == joined(prefix.push(next), k + n, r),
{
    match r {
        Ok((others, m)) => {
            assert(prefix + (seq![next] + others) =~= prefix.push(next) + others);
        },
        Err(_) => {},
    }
}

impl<'a> Parser<'a> {
    /// Parses a scalar at offset `pos`. The scalar borrows from the text
    /// where no backslash stands between the quotes, and is a copy where
    /// one does.
    pub fn constant_at(&self, pos: usize) -> (r: Result<(Value<'a>, usize), ParseError>)
        requires
            pos <= self@.len(),
        ensures
            is_parsed_value(r, grammar::constant(self@, pos as int), pos),
    {
        match self.string_at(pos) {
            Ok((text, end)) => Ok((Value::Const(text), end)),
            Err(e) => Err(e.within(Production::Constant, pos)),
        }
    }

    /// Parses a value at offset `pos`, entering at most `depth` levels of
    /// tuples and lists.
    pub fn value_at(&self, pos: usize, depth: usize) -> (r: Result<(Value<'a>, usize), ParseError>)
        requires
            pos <= self@.len(),
        ensures
            is_parsed_value(r, grammar::value(self@, pos as int, depth as nat), pos),
        decreases self@.len() - pos, 4nat,
    {
        let r = if self.has_char(pos, '"') {
            self.constant_at(pos)
        } else if self.has_char(pos, '{') {
            if depth == 0 {
                Err(ParseError::new(ErrorKind::NestingTooDeep, pos))
            } else {
                self.tuple_value_at(pos, depth - 1)
            }
        } else if self.has_char(pos, '[') {
            if depth == 0 {
                Err(ParseError::new(ErrorKind::NestingTooDeep, pos))
            } else {
                self.list_at(pos, depth - 1)
            }
        } else {
            Err(ParseError::new(ErrorKind::ExpectedValue, pos))
        };
        match r {
            Ok(found) => Ok(found),
            Err(e) => Err(e.within(Production::Value, pos)),
        }
    }

    /// Parses `name=value` at offset `pos`.
    pub fn variable_at(&self, pos: usize, depth: usize) -> (r: Result<
        (Variable<'a>, usize),
        ParseError,
    >)
        requires
            pos <= self@.len(),
        ensures
            is_parsed_variable(r, grammar::variable(self@, pos as int, depth as nat), pos),
        decreases self@.len() - pos, 1nat,
    {
        let len = self.len();
        let r = match self.identifier_at(pos) {
            Err(e) => Err(e),
            Ok((name, end)) => if self.has_char(end, '=') {
                match self.value_at(end + 1, depth) {
                    Ok((v, after)) => Ok((Variable(name, v), after)),
                    Err(e) => Err(e),
                }
            } else {
                Err(ParseError::new(ErrorKind::ExpectedEquals, end))
            },
        };
        match r {
            Ok(found) => Ok(found),
            Err(e) => Err(e.within(Production::Variable, pos)),
        }
    }

    /// Parses one or more variables at offset `pos`, separated by commas. A
    /// comma behind which no variable begins ends them and is left where
    /// it is.
    pub fn variables_at(&self, pos: usize, depth: usize) -> (r: Result<
        (Vec<Variable<'a>>, usize),
        ParseError,
    >)
        requires
            pos <= self@.len(),
        ensures
            is_parsed_variables(r, grammar::variables(self@, pos as int, depth as nat), pos),
            r matches Ok((vars, _)) ==> vars@.len() >= 1,
        decreases self@.len() - pos, 2nat,
    {
        let len = self.len();
        let mut vars: Vec<Variable<'a>> = Vec::new();
        proof {
            lemma_variables_unfold(self@, pos as int, depth as nat);
            lemma_variables_in_bounds(self@, pos as int, depth as nat);
        }
        let (first, mut end) = match self.variable_at(pos, depth) {
            Ok(found) => found,
            Err(e) => {
                return Err(e);
            },
        };
        vars.push(first);
        assert(fields_of(vars@) =~= seq![first@]);
        while self.has_char(end, ',')
            invariant
                len == self@.len(),
                pos <= end <= len,
                vars@.len() >= 1,
                all_canonical(vars@),
                grammar::variables(self@, pos as int, depth as nat) == joined(
                    fields_of(vars@),
                    (end - pos) as nat,
                    more_variables(self@, end as int, depth as nat),
                ),
            ensures
                !grammar::has_char(self@, end as int, ','),
            decreases len - end,
        {
            proof {
                lemma_variables_unfold(self@, end + 1, depth as nat);
                lemma_variable_in_bounds(self@, end + 1, depth as nat);
            }
            let ghost before = fields_of(vars@);
            match self.variable_at(end + 1, depth) {
                Err(e) => {
                    if e.position == end + 1 {
                        assert(before + Seq::<Field>::empty() =~= before);
                        return Ok((vars, end));
                    } else {
                        return Err(e);
                    }
                },
                Ok((next, after)) => {
                    proof {
                        lemma_more_variables_step(self@, end as int, depth as nat);
                        lemma_joined_step(
                            before,
                            (end - pos) as nat,
                            next@,
                            (after - end) as nat,
                            more_variables(self@, after as int, depth as nat),
                        );
                    }
                    vars.push(next);
                    assert(fields_of(vars@) =~= before.push(next@));
                    end = after;
                },
            }
        }
        assert(fields_of(vars@) + Seq::<Field>::empty() =~= fields_of(vars@));
        Ok((vars, end))
    }

    /// Parses one or more values at offset `pos`, separated by commas. A
    /// comma behind which no value begins ends them and is left where it
    /// is.
    pub fn values_at(&self, pos: usize, depth: usize) -> (r: Result<
        (Vec<Value<'a>>, usize),
        ParseError,
    >)
        requires
            pos <= self@.len(),
        ensures
            is_parsed_values(r, grammar::values(self@, pos as int, depth as nat), pos),
            r matches Ok((items, _)) ==> items@.len() >= 1,
        decreases self@.len() - pos, 5nat,
    {
        let len = self.len();
        let mut items: Vec<Value<'a>> = Vec::new();
        proof {
            lemma_values_unfold(self@, pos as int, depth as nat);
            lemma_values_in_bounds(self@, pos as int, depth as nat);
        }
        let (first, mut end) = match self.value_at(pos, depth) {
            Ok(found) => found,
            Err(e) => {
                return Err(e);
            },
        };
        items.push(first);
        assert(nodes_of(items@) =~= seq![first@]);
        while self.has_char(end, ',')
            invariant
                len == self@.len(),
                pos <= end <= len,
                items@.len() >= 1,
                forall|i: int| 0 <= i < items@.len() ==> is_canonical(#[trigger] items@[i]),
                grammar::values(self@, pos as int, depth as nat) == joined(
                    nodes_of(items@),
                    (end - pos) as nat,
                    more_values(self@, end as int, depth as nat),
                ),
            ensures
                !grammar::has_char(self@, end as int, ','),
            decreases len - end,
        {
            proof {
                lemma_values_unfold(self@, end + 1, depth as nat);
                lemma_value_in_bounds(self@, end + 1, depth as nat);
            }
            let ghost before = nodes_of(items@);
            match self.value_at(end + 1, depth) {
                Err(e) => {
                    if e.position == end + 1 && e.kind == ErrorKind::ExpectedValue {
                        assert(before + Seq::<Node>::empty() =~= before);
                        return Ok((items, end));
                    } else {
                        return Err(e);
                    }
                },
                Ok((next, after)) => {
                    proof {
                        lemma_more_values_step(self@, end as int, depth as nat);
                        lemma_joined_step(
                            before,
                            (end - pos) as nat,
                            next@,
                            (after - end) as nat,
                            more_values(self@, after as int, depth as nat),
                        );
                    }
                    items.push(next);
                    assert(nodes_of(items@) =~= before.push(next@));
                    end = after;
                },
            }
        }
        assert(nodes_of(items@) + Seq::<Node>::empty() =~= nodes_of(items@));
        Ok((items, end))
    }

    /// Parses a tuple at offset `pos`.
    pub fn tuple_value_at(&self, pos: usize, depth: usize) -> (r: Result<
        (Value<'a>, usize),
        ParseError,
    >)
        requires
            pos <= self@.len(),
        ensures
            is_parsed_value(r, grammar::tuple_value(self@, pos as int, depth as nat), pos),
        decreases self@.len() - pos, 3nat,
    {
        let len = self.len();
        let r = if !self.has_char(pos, '{') {
            Err(ParseError::new(ErrorKind::ExpectedValue, pos))
        } else if self.has_char(pos + 1, '}') {
            Ok((Value::Tuple(TupleValue::Empty), pos + 2))
        } else if pos + 1 >= len {
            Err(ParseError::new(ErrorKind::UnterminatedTuple, pos + 1))
        } else {
            match self.variables_at(pos + 1, depth) {
                Err(e) => if e.position == pos + 1 {
                    Err(ParseError::new(ErrorKind::UnterminatedTuple, pos + 1))
                } else {
                    Err(e)
                },
                Ok((vars, end)) => if self.has_char(end, '}') {
                    proof {
                        lemma_node_of_tuple(vars);
                    }
                    Ok((Value::Tuple(TupleValue::from(vars)), end + 1))
                } else if self.has_char(end, ',') {
                    Err(ParseError::new(ErrorKind::ExpectedVariable, end + 1))
                } else {
                    Err(ParseError::new(ErrorKind::UnterminatedTuple, end))
                },
            }
        };
        match r {
            Ok(found) => Ok(found),
            Err(e) => Err(e.within(Production::TupleValue, pos)),
        }
    }

    /// Parses the variables of a list at offset `pos`, just after its `[`.
    pub fn variable_list_at(&self, pos: usize, depth: usize) -> (r: Result<
        (ListValue<'a>, usize),
        ParseError,
    >)
        requires
            pos <= self@.len(),
        ensures
            is_parsed_items(r, grammar::variable_list(self@, pos as int, depth as nat), pos),
        decreases self@.len() - pos, 3nat,
    {
        match self.variables_at(pos, depth) {
            Ok((vars, end)) => {
                proof {
                    lemma_node_of_variable_list(vars);
                }
                Ok((ListValue::from(vars), end))
            },
            Err(e) => Err(e.within(Production::VariableList, pos)),
        }
    }

    /// Parses the values of a list at offset `pos`, just after its `[`.
    pub fn value_list_at(&self, pos: usize, depth: usize) -> (r: Result<
        (ListValue<'a>, usize),
        ParseError,
    >)
        requires
            pos <= self@.len(),
        ensures
            is_parsed_items(r, grammar::value_list(self@, pos as int, depth as nat), pos),
        decreases self@.len() - pos, 6nat,
    {
        match self.values_at(pos, depth) {
            Ok((items, end)) => {
                proof {
                    lemma_node_of_value_list(items);
                }
                Ok((ListValue::from(items), end))
            },
            Err(e) => Err(e.within(Production::ValueList, pos)),
        }
    }

    /// Parses the elements of a list at offset `pos`, just after its `[`:
    /// as variables if that succeeds, else as values.
    pub fn list_elements_at(&self, pos: usize, depth: usize) -> (r: Result<
        (ListValue<'a>, usize),
        ParseError,
    >)
        requires
            pos <= self@.len(),
        ensures
            is_parsed_items(r, grammar::list_elements(self@, pos as int, depth as nat), pos),
        decreases self@.len() - pos, 7nat,
    {
        match self.variable_list_at(pos, depth) {
            Ok(found) => Ok(found),
            Err(as_variables) => match self.value_list_at(pos, depth) {
                Ok(found) => Ok(found),
                Err(as_values) => {
                    if as_variables.position == pos && as_values.position == pos
                        && as_values.kind == ErrorKind::ExpectedValue {
                        Err(ParseError::new(ErrorKind::ExpectedListElement, pos))
                    } else if as_values.position >= as_variables.position {
                        Err(as_values)
                    } else {
                        Err(as_variables)
                    }
                },
            },
        }
    }

    /// Parses the inside of an empty list at offset `pos`, just after its
    /// `[`: skips whitespace and expects a `]`, which it leaves where it is.
    pub fn empty_at(&self, pos: usize) -> (r: Result<(ListValue<'a>, usize), ParseError>)
        requires
            pos <= self@.len(),
        ensures
            is_parsed_items(r, grammar::empty(self@, pos as int), pos),
            match r {
                Ok((_, end)) => end < self@.len(),
                Err(e) => e.position <= self@.len(),
            },
    {
        let end = self.scan(pos, grammar::CharClass::Space);
        if self.has_char(end, ']') {
            Ok((ListValue::default(), end))
        } else {
            Err(ParseError::new(ErrorKind::UnterminatedList, end))
        }
    }

    /// Parses a list at offset `pos`.
    pub fn list_at(&self, pos: usize, depth: usize) -> (r: Result<(Value<'a>, usize), ParseError>)
        requires
            pos <= self@.len(),
        ensures
            is_parsed_value(r, grammar::list(self@, pos as int, depth as nat), pos),
        decreases self@.len() - pos, 3nat,
    {
        let len = self.len();
        let r = if !self.has_char(pos, '[') {
            Err(ParseError::new(ErrorKind::ExpectedValue, pos))
        } else {
            match self.empty_at(pos + 1) {
                Ok((items, end)) => Ok((Value::List(items), end + 1)),
                Err(e) => if e.position >= len {
                    Err(e)
                } else {
                    match self.list_elements_at(pos + 1, depth) {
                        Err(e) => Err(e),
                        Ok((items, end)) => if self.has_char(end, ']') {
                            proof {
                                lemma_node_of_list(items);
                            }
                            Ok((Value::List(items), end + 1))
                        } else if self.has_char(end, ',') {
                            let kind = match items {
                                ListValue::ValueList(_) => ErrorKind::ExpectedValue,
                                _ => ErrorKind::ExpectedVariable,
                            };
                            Err(ParseError::new(kind, end + 1))
                        } else {
                            Err(ParseError::new(ErrorKind::UnterminatedList, end))
                        },
                    }
                },
            }
        };
        match r {
            Ok(found) => Ok(found),
            Err(e) => Err(e.within(Production::List, pos)),
        }
    }
}

} // verus!
