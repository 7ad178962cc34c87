//! What holds of the grammar as a whole, stated over the specification
//! functions that the parsing functions are proved to compute.
use super::grammar::{
    escaped, has_char, is_space, list, list_elements, needs_no_escape, output, quoted,
    quoted_string, result_list, run_length, starts_identifier, tuple_value, value, variable,
    variable_list, CharClass,
};
use super::locality::lemma_variables_local;
use super::notation::{is_writable, written};
use super::output_types::{Items, Node};
use super::progress::{
    in_bounds, lemma_output_in_bounds, lemma_run_exact, lemma_value_in_bounds,
};
use super::round_trip::{lemma_string_body_of_escaped, lemma_written_value};
use super::truncation::{
    cut_short, is_closing, lemma_output_truncated, lemma_value_truncated, reaches,
};
use vstd::prelude::*;

verus! {

/// Escaping and parsing are a left-inverse pair: a text that is written as
/// a quoted string, with a backslash before each of its quotes and
/// backslashes, is read back as that text, whatever it holds and whatever
/// follows the closing quote. The scalar borrows from the input exactly if
/// the text holds no quote and no backslash.
pub proof fn quoted_text_round_trips(text: Seq<char>, rest: Seq<char>, d: nat)
    ensures
        quoted_string(quoted(text) + rest, 0) == Ok::<(Seq<char>, nat), super::error::Failure>(
            (text, quoted(text).len()),
        ),
        value(quoted(text) + rest, 0, d) == Ok::<(Node, nat), super::error::Failure>(
            (Node::Const { text, borrowed: needs_no_escape(text) }, quoted(text).len()),
        ),
{
    let s = quoted(text) + rest;
    let written = escaped(text) + seq!['"'];
    assert(s[0] == '"');
    assert(s.subrange(1, 1 + written.len() as int) =~= written);
    lemma_string_body_of_escaped(s, 1, text);
    let node = Node::Const { text, borrowed: needs_no_escape(text) };
    assert(s.subrange(0, quoted(text).len() as int) =~= quoted(text));
    lemma_written_value(s, 0, node, d);
}

/// Writing and parsing are a left-inverse pair for every value, not only
/// for scalars: a value whose names are identifiers, whose lists of values
/// and of variables are not empty, and which nests no deeper than the
/// parser follows, is read back from its written form as it is, with its
/// variables and elements in their order and its lists in their shape,
/// whatever follows the written form.
pub proof fn written_value_is_read_back(node: Node, rest: Seq<char>, d: nat)
    requires
        is_writable(node, d),
    ensures
        value(written(node) + rest, 0, d) == Ok::<(Node, nat), super::error::Failure>(
            (node, written(node).len()),
        ),
{
    let s = written(node) + rest;
    assert(s.subrange(0, written(node).len() as int) =~= written(node));
    lemma_written_value(s, 0, node, d);
}

/// A text without quotes and backslashes is written between the quotes as
/// it is.
pub proof fn plain_text_is_written_as_it_is(text: Seq<char>)
    requires
        needs_no_escape(text),
    ensures
        escaped(text) == text,
    decreases text.len(),
{
    if text.len() > 0 {
        plain_text_is_written_as_it_is(text.drop_first());
        assert(seq![text[0]] + text.drop_first() =~= text);
    } else {
        assert(text =~= Seq::<char>::empty());
    }
}

/// `{}` is the empty tuple and `[]` the empty list, whatever follows them;
/// both consume their two delimiters and nothing more.
pub proof fn empty_containers(rest: Seq<char>, d: nat)
    ensures
        tuple_value(seq!['{', '}'] + rest, 0, d) == Ok::<(Node, nat), super::error::Failure>(
            (Node::Tuple(Seq::empty()), 2),
        ),
        list(seq!['[', ']'] + rest, 0, d) == Ok::<(Node, nat), super::error::Failure>(
            (Node::List(Items::Empty), 2),
        ),
        d > 0 ==> value(seq!['{', '}'] + rest, 0, d) == Ok::<(Node, nat), super::error::Failure>(
            (Node::Tuple(Seq::empty()), 2),
        ),
        d > 0 ==> value(seq!['[', ']'] + rest, 0, d) == Ok::<(Node, nat), super::error::Failure>(
            (Node::List(Items::Empty), 2),
        ),
{
    let t = seq!['{', '}'] + rest;
    assert(t[0] == '{' && t[1] == '}');
    let l = seq!['[', ']'] + rest;
    assert(l[0] == '[' && l[1] == ']');
    assert(run_length(l, 1, CharClass::Space) == 0);
}

/// Whitespace between the brackets of an empty list is insignificant:
/// with any amount of it the list is the empty list, as without.
pub proof fn blank_in_empty_list(blank: Seq<char>, rest: Seq<char>, d: nat)
    requires
        forall|i: int| 0 <= i < blank.len() ==> is_space(blank[i]),
    ensures
        list(seq!['['] + blank + seq![']'] + rest, 0, d) == Ok::<
            (Node, nat),
            super::error::Failure,
        >((Node::List(Items::Empty), blank.len() + 2)),
        list(seq!['[', ']'] + rest, 0, d) == Ok::<(Node, nat), super::error::Failure>(
            (Node::List(Items::Empty), 2),
        ),
{
    let s = seq!['['] + blank + seq![']'] + rest;
    assert(s[0] == '[');
    assert(forall|i: int| 1 <= i < 1 + blank.len() ==> s[i] == blank[i - 1]);
    assert(s[1 + blank.len() as int] == ']');
    lemma_run_exact(s, 1, blank.len(), CharClass::Space);
    empty_containers(rest, d);
}

/// The first element decides what a list holds: a list of variables starts
/// with the first character of an identifier, a list of values with the
/// first character of a value, and every other list is empty.
pub proof fn first_element_decides_list_shape(s: Seq<char>, p: int, d: nat)
    requires
        0 <= p,
        list(s, p, d) is Ok,
    ensures
        match list(s, p, d)->Ok_0.0 {
            Node::List(Items::Variables(fields)) => fields.len() > 0 && starts_identifier(s[p + 1]),
            Node::List(Items::Values(nodes)) => nodes.len() > 0 && (s[p + 1] == '"' || s[p + 1]
                == '{' || s[p + 1] == '['),
            Node::List(Items::Empty) => has_char(
                s,
                p + 1 + run_length(s, p + 1, CharClass::Space),
                ']',
            ),
            _ => false,
        },
{
    if super::grammar::empty(s, p + 1) is Err {
        assert(list_elements(s, p + 1, d) is Ok);
        if variable_list(s, p + 1, d) is Ok {
        }
    }
}

/// A comma behind which no variable begins ends the results of a record
/// and is left for what follows: results that fill a text are found again,
/// of the same length, where the text goes on with such a comma.
pub proof fn comma_without_variable_ends_results(s: Seq<char>, rest: Seq<char>, d: nat)
    requires
        reaches(result_list(s, 0, d), 0, s.len() as int),
        rest.len() == 0 || !starts_identifier(rest[0]),
    ensures
        result_list(s + seq![','] + rest, 0, d) == result_list(s, 0, d),
{
    let t = s + seq![','] + rest;
    let q = s.len() as int;
    assert(t[q] == ',');
    assert(rest.len() > 0 ==> t[q + 1] == rest[0]);
    assert(variable(t, q + 1, d) matches Err(f) && f.position == q + 1);
    lemma_variables_local(s, t, 0, d);
}

/// Parsing consumes a prefix of the text or fails: a value and a record
/// consume at least one character and no more than there are, and a
/// failure is located within the text or at its end.
pub proof fn parsing_stays_within_the_text(s: Seq<char>, d: nat)
    ensures
        in_bounds(value(s, 0, d), 0, s.len()),
        in_bounds(output(s, d), 0, s.len()),
{
    lemma_value_in_bounds(s, 0, d);
    lemma_output_in_bounds(s, d);
}

/// A value that fills the whole text fails to parse once its last
/// character, the closing delimiter, is removed, and the failure is that
/// of a missing closing delimiter, located at the end of what is left.
pub proof fn truncated_value_is_unterminated(s: Seq<char>, d: nat)
    requires
        reaches(value(s, 0, d), 0, s.len() as int),
    ensures
        cut_short(value(s.drop_last(), 0, d), s.len() - 1),
{
    lemma_value_truncated(s, 0, d);
}

/// A record that fills the whole text and ends with a closing delimiter
/// fails to parse once that delimiter is removed, and the failure is that
/// of a missing closing delimiter, located at the end of what is left.
pub proof fn truncated_record_is_unterminated(s: Seq<char>, d: nat)
    requires
        reaches(output(s, d), 0, s.len() as int),
        is_closing(s.last()),
    ensures
        cut_short(output(s.drop_last(), d), s.len() - 1),
{
    lemma_output_truncated(s, d);
}

} // verus!
