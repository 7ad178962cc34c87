//! How values are written: the text that the grammar reads back as a given
//! value.
use super::grammar::{needs_no_escape, quoted, starts_identifier, CharClass};
use super::output_types::{Field, Items, Node};
use vstd::prelude::*;

verus! {

/// Whether `name` is an identifier: a letter, `_` or `-`, and then letters,
/// digits, `_` and `-`.
pub open spec fn is_identifier(name: Seq<char>) -> bool {
    &&& name.len() > 0
    &&& starts_identifier(name[0])
    &&& forall|i: int| 1 <= i < name.len() ==> CharClass::IdentifierRest.contains(name[i])
}

/// Whether `node` can be written and read back within `d` levels of tuples
/// and lists: every name in it is an identifier, every list of values or
/// of variables has an element, nothing is nested deeper than `d`, and
/// every scalar borrows exactly if its text is written without escapes.
pub open spec fn is_writable(node: Node, d: nat) -> bool
    decreases node,
{
    match node {
        Node::Const { text, borrowed } => borrowed == needs_no_escape(text),
        Node::Tuple(fields) => d > 0 && forall|i: int|
            0 <= i < fields.len() ==> is_identifier((#[trigger] fields[i]).name) && is_writable(
                fields[i].value,
                (d - 1) as nat,
            ),
        Node::List(Items::Empty) => d > 0,
        Node::List(Items::Values(nodes)) => d > 0 && nodes.len() > 0 && forall|i: int|
            0 <= i < nodes.len() ==> is_writable(#[trigger] nodes[i], (d - 1) as nat),
        Node::List(Items::Variables(fields)) => d > 0 && fields.len() > 0 && forall|i: int|
            0 <= i < fields.len() ==> is_identifier((#[trigger] fields[i]).name) && is_writable(
                fields[i].value,
                (d - 1) as nat,
            ),
    }
}

/// `node` as text: a scalar between quotes, with its quotes and
/// backslashes escaped; a tuple between braces and a list between
/// brackets, their elements separated by commas.
pub open spec fn written(node: Node) -> Seq<char>
    decreases node, 0nat,
{
    match node {
        Node::Const { text, .. } => quoted(text),
        Node::Tuple(fields) => seq!['{'] + written_variables(fields, 0) + seq!['}'],
        Node::List(Items::Empty) => seq!['[', ']'],
        Node::List(Items::Values(nodes)) => seq!['['] + written_values(nodes, 0) + seq![']'],
        Node::List(Items::Variables(fields)) => seq!['['] + written_variables(fields, 0) + seq![
            ']',
        ],
    }
}

/// The variable `field` as text: `name=value`.
pub open spec fn written_variable(field: Field) -> Seq<char>
    decreases field, 0nat,
{
    field.name + seq!['='] + written(field.value)
}

/// The variables of `fields` from index `from` on as text, separated by
/// commas.
pub open spec fn written_variables(fields: Seq<Field>, from: nat) -> Seq<char>
    decreases fields, fields.len() - from,
{
    if from >= fields.len() {
        Seq::empty()
    } else if from + 1 == fields.len() {
        written_variable(fields[from as int])
    } else {
        written_variable(fields[from as int]) + seq![','] + written_variables(fields, from + 1)
    }
}

/// The values of `nodes` from index `from` on as text, separated by commas.
pub open spec fn written_values(nodes: Seq<Node>, from: nat) -> Seq<char>
    decreases nodes, nodes.len() - from,
{
    if from >= nodes.len() {
        Seq::empty()
    } else if from + 1 == nodes.len() {
        written(nodes[from as int])
    } else {
        written(nodes[from as int]) + seq![','] + written_values(nodes, from + 1)
    }
}

} // verus!
