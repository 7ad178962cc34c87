//! Writing a value and parsing what was written gives the value back.
use super::error::Failure;
use super::grammar::{
    escaped, escaped_char, has_char, has_prefix, identifier, is_plain, needs_no_escape,
    run_length, string_body, value, values, variable, variables, CharClass,
};
use super::locality::lemma_value_is_no_variable;
use super::notation::{
    is_identifier, is_writable, written, written_values, written_variable, written_variables,
};
use super::output_types::{Field, Items, Node};
use super::progress::lemma_run_exact;
use vstd::prelude::*;

verus! {

/// Where two texts stand one after the other, each of them stands.
pub proof fn lemma_prefix_parts(s: Seq<char>, p: int, a: Seq<char>, b: Seq<char>)
    requires
        0 <= p,
        has_prefix(s, p, a + b),
    ensures
        has_prefix(s, p, a),
        has_prefix(s, p + a.len(), b),
{
    let whole = s.subrange(p, p + (a + b).len());
    assert(s.subrange(p, p + a.len()) =~= a) by {
        assert(forall|i: int| 0 <= i < a.len() ==> s[p + i] == #[trigger] whole[i]);
    }
    assert(s.subrange(p + a.len(), p + a.len() + b.len()) =~= b) by {
        assert(forall|i: int| 0 <= i < b.len() ==> s[p + a.len() + i] == whole[a.len() + i] && (a
            + b)[a.len() + i] == #[trigger] b[i]);
    }
}

/// Where a text stands, each of its characters stands.
pub proof fn lemma_prefix_char(s: Seq<char>, p: int, word: Seq<char>, i: int)
    requires
        0 <= p,
        has_prefix(s, p, word),
        0 <= i < word.len(),
    ensures
        s[p + i] == word[i],
{
    assert(s[p + i] == s.subrange(p, p + word.len())[i]);
}

/// The body of a string in which `text` is written escaped, up to its
/// closing quote, is read as `text`.
pub proof fn lemma_string_body_of_escaped(s: Seq<char>, p: int, text: Seq<char>)
    requires
        0 <= p,
        has_prefix(s, p, escaped(text) + seq!['"']),
    ensures
        string_body(s, p) == Ok::<(Seq<char>, nat), Failure>(
            (text, escaped(text).len() + 1),
        ),
    decreases text.len(),
{
    let written = escaped(text) + seq!['"'];
    let found = s.subrange(p, p + written.len());
    assert(forall|i: int| 0 <= i < written.len() ==> s[p + i] == #[trigger] found[i]);
    if text.len() == 0 {
        assert(text =~= Seq::<char>::empty());
        assert(s[p] == found[0]);
    } else {
        let c = text[0];
        let others = text.drop_first();
        let k = escaped_char(c).len() as int;
        assert(s[p] == found[0]);
        assert(s[p + 1] == found[1]);
        let tail = escaped(others) + seq!['"'];
        assert(s.subrange(p + k, p + k + tail.len()) =~= tail) by {
            assert(forall|i: int|
                0 <= i < tail.len() ==> s[p + k + i] == found[k + i] && #[trigger] tail[i]
                    == written[k + i]);
        }
        lemma_string_body_of_escaped(s, p + k, others);
        assert(seq![c] + others =~= text);
    }
}

/// The escaped form of a text holds a backslash exactly if the text holds
/// a quote or a backslash.
pub proof fn lemma_escaped_is_plain(text: Seq<char>)
    ensures
        needs_no_escape(text) <==> forall|i: int|
            0 <= i < escaped(text).len() ==> escaped(text)[i] != '\\',
        !needs_no_escape(text) ==> exists|k: int|
            0 <= k < escaped(text).len() && escaped(text)[k] == '\\',
    decreases text.len(),
{
    if text.len() > 0 {
        let others = text.drop_first();
        lemma_escaped_is_plain(others);
        let head = escaped_char(text[0]);
        assert(escaped(text) == head + escaped(others));
        if text[0] == '"' || text[0] == '\\' {
            assert(escaped(text)[0] == '\\');
        } else {
            if needs_no_escape(others) {
                assert forall|i: int| 0 <= i < text.len() implies text[i] != '"' && text[i]
                    != '\\' by {
                    if i > 0 {
                        assert(text[i] == others[i - 1]);
                    }
                }
                assert forall|i: int| 0 <= i < escaped(text).len() implies escaped(text)[i]
                    != '\\' by {
                    if i > 0 {
                        assert(escaped(text)[i] == escaped(others)[i - 1]);
                    }
                }
            } else {
                let k = choose|k: int|
                    0 <= k < escaped(others).len() && escaped(others)[k] == '\\';
                assert(escaped(text)[k + 1] == '\\');
                let j = choose|j: int|
                    0 <= j < others.len() && !(others[j] != '"' && others[j] != '\\');
                assert(text[j + 1] == others[j]);
            }
        }
    }
}

/// A written value has at least two characters, and its first is `"`, `{`
/// or `[`.
pub proof fn lemma_written_starts(node: Node)
    ensures
        written(node).len() >= 2,
        written(node)[0] == '"' || written(node)[0] == '{' || written(node)[0] == '[',
{
}

/// An identifier that is followed by `=` is read as it is written.
pub proof fn lemma_written_identifier(s: Seq<char>, p: int, name: Seq<char>)
    requires
        0 <= p,
        is_identifier(name),
        has_prefix(s, p, name + seq!['=']),
    ensures
        identifier(s, p) == Ok::<(Seq<char>, nat), Failure>((name, name.len())),
{
    lemma_prefix_parts(s, p, name, seq!['=']);
    lemma_prefix_char(s, p + name.len(), seq!['='], 0);
    assert forall|i: int| p <= i < p + name.len() implies s[i] == name[i - p] by {
        lemma_prefix_char(s, p, name, i - p);
    }
    lemma_run_exact(s, p + 1, (name.len() - 1) as nat, CharClass::IdentifierRest);
}

/// A written value is read back as the value.
pub proof fn lemma_written_value(s: Seq<char>, p: int, node: Node, d: nat)
    requires
        0 <= p,
        is_writable(node, d),
        has_prefix(s, p, written(node)),
    ensures
        value(s, p, d) == Ok::<(Node, nat), Failure>((node, written(node).len())),
    decreases node, 0nat,
{
    lemma_written_starts(node);
    lemma_prefix_char(s, p, written(node), 0);
    lemma_prefix_char(s, p, written(node), 1);
    let inner = (d - 1) as nat;
    match node {
        Node::Const { text, borrowed } => {
            lemma_escaped_is_plain(text);
            assert forall|i: int| 0 <= i < escaped(text).len() implies s[p + 1 + i] == escaped(
                text,
            )[i] by {
                lemma_prefix_char(s, p, written(node), 1 + i);
            }
            assert(is_plain(s, p + 1, p + 1 + escaped(text).len()) == needs_no_escape(text)) by {
                if needs_no_escape(text) {
                    assert forall|i: int|
                        p + 1 <= i < p + 1 + escaped(text).len() implies s[i] != '\\' by {
                        assert(s[p + 1 + (i - p - 1)] == escaped(text)[i - p - 1]);
                    }
                } else {
                    let k = choose|k: int|
                        0 <= k < escaped(text).len() && escaped(text)[k] == '\\';
                    assert(s[p + 1 + k] == '\\');
                }
            }
            lemma_prefix_parts(s, p, seq!['"'] + escaped(text), seq!['"']);
            lemma_prefix_parts(s, p, seq!['"'], escaped(text));
            assert(seq!['"'] + escaped(text) + seq!['"'] =~= seq!['"'] + (escaped(text) + seq![
                '"',
            ]));
            lemma_prefix_parts(s, p, seq!['"'], escaped(text) + seq!['"']);
            lemma_string_body_of_escaped(s, p + 1, text);
        },
        Node::Tuple(fields) => {
            let body = written_variables(fields, 0);
            lemma_prefix_parts(s, p, seq!['{'] + body, seq!['}']);
            lemma_prefix_parts(s, p, seq!['{'], body);
            lemma_prefix_char(s, p + 1 + body.len(), seq!['}'], 0);
            if fields.len() == 0 {
                assert(fields =~= Seq::<Field>::empty());
            } else {
                lemma_written_variables(s, p + 1, fields, 0, inner);
                assert(fields.skip(0) =~= fields);
                lemma_variables_start(fields, 0);
                lemma_prefix_char(s, p + 1, body, 0);
            }
        },
        Node::List(Items::Empty) => {
            assert(run_length(s, p + 1, CharClass::Space) == 0);
        },
        Node::List(Items::Values(nodes)) => {
            let body = written_values(nodes, 0);
            lemma_prefix_parts(s, p, seq!['['] + body, seq![']']);
            lemma_prefix_parts(s, p, seq!['['], body);
            lemma_prefix_char(s, p + 1 + body.len(), seq![']'], 0);
            lemma_written_values(s, p + 1, nodes, 0, inner);
            assert(nodes.skip(0) =~= nodes);
            lemma_written_starts(nodes[0]);
            lemma_values_start(nodes, 0);
            lemma_prefix_char(s, p + 1, body, 0);
            assert(run_length(s, p + 1, CharClass::Space) == 0);
            lemma_value_is_no_variable(s, s, p + 1, inner);
        },
        Node::List(Items::Variables(fields)) => {
            let body = written_variables(fields, 0);
            lemma_prefix_parts(s, p, seq!['['] + body, seq![']']);
            lemma_prefix_parts(s, p, seq!['['], body);
            lemma_prefix_char(s, p + 1 + body.len(), seq![']'], 0);
            lemma_written_variables(s, p + 1, fields, 0, inner);
            assert(fields.skip(0) =~= fields);
            lemma_variables_start(fields, 0);
            lemma_prefix_char(s, p + 1, body, 0);
            assert(run_length(s, p + 1, CharClass::Space) == 0);
        },
    }
}

/// Written variables start with the first character of the first name.
pub proof fn lemma_variables_start(fields: Seq<Field>, from: nat)
    requires
        from < fields.len(),
        is_identifier(fields[from as int].name),
    ensures
        written_variables(fields, from).len() > 0,
        written_variables(fields, from)[0] == fields[from as int].name[0],
{
    let first = fields[from as int];
    let head = written_variable(first);
    assert(head == first.name + seq!['='] + written(first.value));
    assert(head.len() > 0 && head[0] == first.name[0]);
}

/// Written values start with the first character of the first value.
pub proof fn lemma_values_start(nodes: Seq<Node>, from: nat)
    requires
        from < nodes.len(),
    ensures
        written_values(nodes, from).len() > 0,
        written_values(nodes, from)[0] == written(nodes[from as int])[0],
{
    lemma_written_starts(nodes[from as int]);
}

/// A written variable is read back as the variable.
pub proof fn lemma_written_variable(s: Seq<char>, p: int, field: Field, d: nat)
    requires
        0 <= p,
        is_identifier(field.name),
        is_writable(field.value, d),
        has_prefix(s, p, written_variable(field)),
    ensures
        variable(s, p, d) == Ok::<(Field, nat), Failure>((field, written_variable(field).len())),
    decreases field, 1nat,
{
    let name = field.name;
    lemma_prefix_parts(s, p, name + seq!['='], written(field.value));
    lemma_written_identifier(s, p, name);
    lemma_prefix_parts(s, p, name, seq!['=']);
    lemma_prefix_char(s, p + name.len(), seq!['='], 0);
    lemma_written_value(s, p + name.len() + 1, field.value, d);
    assert(s.subrange(p, p + name.len()) == name);
}

/// Written variables that are not followed by a comma are read back as
/// the variables.
pub proof fn lemma_written_variables(s: Seq<char>, p: int, fields: Seq<Field>, from: nat, d: nat)
    requires
        0 <= p,
        from < fields.len(),
        forall|i: int|
            0 <= i < fields.len() ==> is_identifier((#[trigger] fields[i]).name) && is_writable(
                fields[i].value,
                d,
            ),
        has_prefix(s, p, written_variables(fields, from)),
        !has_char(s, p + written_variables(fields, from).len(), ','),
    ensures
        variables(s, p, d) == Ok::<(Seq<Field>, nat), Failure>(
            (fields.skip(from as int), written_variables(fields, from).len()),
        ),
    decreases fields, fields.len() - from,
{
    let first = fields[from as int];
    let head = written_variable(first);
    if from + 1 == fields.len() {
        lemma_written_variable(s, p, first, d);
        assert(fields.skip(from as int) =~= seq![first]);
    } else {
        let tail = written_variables(fields, from + 1);
        lemma_prefix_parts(s, p, head + seq![','], tail);
        lemma_prefix_parts(s, p, head, seq![',']);
        lemma_prefix_char(s, p + head.len(), seq![','], 0);
        lemma_written_variable(s, p, first, d);
        lemma_written_variables(s, p + head.len() + 1, fields, from + 1, d);
        assert(fields.skip(from as int) =~= seq![first] + fields.skip((from + 1) as int));
    }
}

/// Written values that are not followed by a comma are read back as the
/// values.
pub proof fn lemma_written_values(s: Seq<char>, p: int, nodes: Seq<Node>, from: nat, d: nat)
    requires
        0 <= p,
        from < nodes.len(),
        forall|i: int| 0 <= i < nodes.len() ==> is_writable(#[trigger] nodes[i], d),
        has_prefix(s, p, written_values(nodes, from)),
        !has_char(s, p + written_values(nodes, from).len(), ','),
    ensures
        values(s, p, d) == Ok::<(Seq<Node>, nat), Failure>(
            (nodes.skip(from as int), written_values(nodes, from).len()),
        ),
    decreases nodes, nodes.len() - from,
{
    let first = nodes[from as int];
    let head = written(first);
    if from + 1 == nodes.len() {
        lemma_written_value(s, p, first, d);
        assert(nodes.skip(from as int) =~= seq![first]);
    } else {
        let tail = written_values(nodes, from + 1);
        lemma_prefix_parts(s, p, head + seq![','], tail);
        lemma_prefix_parts(s, p, head, seq![',']);
        lemma_prefix_char(s, p + head.len(), seq![','], 0);
        lemma_written_value(s, p, first, d);
        lemma_written_values(s, p + head.len() + 1, nodes, from + 1, d);
        assert(nodes.skip(from as int) =~= seq![first] + nodes.skip((from + 1) as int));
    }
}

} // verus!
