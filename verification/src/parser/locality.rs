//! What a production recognises depends only on the characters it consumes:
//! a text that holds the same characters there is parsed the same way,
//! whatever stands before and behind.
use super::grammar::{
    constant, empty, has_char, identifier, is_plain, list, list_elements, quoted_string, run_length,
    string_body, tuple_value, value, values, values_end, variable, variable_list, variables,
    variables_end, CharClass,
};
use super::progress::{
    lemma_identifier_in_bounds, lemma_list_elements_in_bounds, lemma_run_in_bounds,
    lemma_string_body_in_bounds, lemma_value_in_bounds, lemma_values_in_bounds,
    lemma_variable_in_bounds, lemma_variables_in_bounds,
};
use vstd::prelude::*;

verus! {

/// Whether `s` and `t` both reach to offset `to` and hold the same
/// characters from offset `from` up to it.
pub open spec fn same_text(s: Seq<char>, t: Seq<char>, from: int, to: int) -> bool {
    &&& to <= s.len()
    &&& to <= t.len()
    &&& forall|i: int| from <= i < to ==> s[i] == t[i]
}

/// Whether the character at offset `p` of `t`, if there is one, is outside
/// `class`.
pub open spec fn run_ends(t: Seq<char>, p: int, class: CharClass) -> bool {
    p >= t.len() || !class.contains(t[p])
}

/// A run has the same length in a text that holds the same characters
/// and ends the run at the same offset.
pub proof fn lemma_run_local(s: Seq<char>, t: Seq<char>, p: int, class: CharClass)
    requires
        0 <= p <= s.len(),
        same_text(s, t, p, p + run_length(s, p, class)),
        run_ends(t, p + run_length(s, p, class), class),
    ensures
        run_length(t, p, class) == run_length(s, p, class),
    decreases s.len() - p,
{
    if p < s.len() && class.contains(s[p]) {
        lemma_run_local(s, t, p + 1, class);
    }
}

/// An identifier is found again in a text that holds the same characters
/// and does not continue it.
pub proof fn lemma_identifier_local(s: Seq<char>, t: Seq<char>, p: int)
    requires
        0 <= p <= s.len(),
        identifier(s, p) is Ok,
        same_text(s, t, p, p + identifier(s, p)->Ok_0.1),
        run_ends(t, p + identifier(s, p)->Ok_0.1, CharClass::IdentifierRest),
    ensures
        identifier(t, p) == identifier(s, p),
{
    lemma_run_local(s, t, p + 1, CharClass::IdentifierRest);
    let n = identifier(s, p)->Ok_0.1;
    assert(s.subrange(p, p + n) =~= t.subrange(p, p + n));
}

/// The body of a string is found again in a text that holds the same
/// characters.
pub proof fn lemma_string_body_local(s: Seq<char>, t: Seq<char>, p: int)
    requires
        0 <= p <= s.len(),
        string_body(s, p) is Ok,
        same_text(s, t, p, p + string_body(s, p)->Ok_0.1),
    ensures
        string_body(t, p) == string_body(s, p),
    decreases s.len() - p,
{
    if s[p] == '"' {
    } else if s[p] == '\\' {
        lemma_string_body_in_bounds(s, p + 2);
        lemma_string_body_local(s, t, p + 2);
    } else {
        lemma_string_body_in_bounds(s, p + 1);
        lemma_string_body_local(s, t, p + 1);
    }
}

/// A quoted string is found again in a text that holds the same characters.
pub proof fn lemma_quoted_string_local(s: Seq<char>, t: Seq<char>, p: int)
    requires
        0 <= p <= s.len(),
        quoted_string(s, p) is Ok,
        same_text(s, t, p, p + quoted_string(s, p)->Ok_0.1),
    ensures
        quoted_string(t, p) == quoted_string(s, p),
        constant(t, p) == constant(s, p),
{
    lemma_string_body_in_bounds(s, p + 1);
    lemma_string_body_local(s, t, p + 1);
    let n = quoted_string(s, p)->Ok_0.1;
    assert(is_plain(t, p + 1, p + n - 1) == is_plain(s, p + 1, p + n - 1));
}

/// A value is found again in a text that holds the same characters.
pub proof fn lemma_value_local(s: Seq<char>, t: Seq<char>, p: int, d: nat)
    requires
        0 <= p <= s.len(),
        value(s, p, d) is Ok,
        same_text(s, t, p, p + value(s, p, d)->Ok_0.1),
    ensures
        value(t, p, d) == value(s, p, d),
    decreases s.len() - p, 4nat,
{
    lemma_value_in_bounds(s, p, d);
    if has_char(s, p, '"') {
        lemma_quoted_string_local(s, t, p);
    } else if has_char(s, p, '{') {
        lemma_tuple_value_local(s, t, p, (d - 1) as nat);
    } else if has_char(s, p, '[') {
        lemma_list_local(s, t, p, (d - 1) as nat);
    }
}

/// A variable is found again in a text that holds the same characters.
pub proof fn lemma_variable_local(s: Seq<char>, t: Seq<char>, p: int, d: nat)
    requires
        0 <= p <= s.len(),
        variable(s, p, d) is Ok,
        same_text(s, t, p, p + variable(s, p, d)->Ok_0.1),
    ensures
        variable(t, p, d) == variable(s, p, d),
    decreases s.len() - p, 1nat,
{
    lemma_identifier_in_bounds(s, p);
    let n = identifier(s, p)->Ok_0.1;
    lemma_value_in_bounds(s, p + n + 1, d);
    lemma_identifier_local(s, t, p);
    lemma_value_local(s, t, p + n + 1, d);
}

/// A sequence of variables is found again in a text that holds the same
/// characters and ends the sequence at the same offset.
pub proof fn lemma_variables_local(s: Seq<char>, t: Seq<char>, p: int, d: nat)
    requires
        0 <= p <= s.len(),
        variables(s, p, d) is Ok,
        same_text(s, t, p, p + variables(s, p, d)->Ok_0.1),
        variables_end(t, p + variables(s, p, d)->Ok_0.1, d),
    ensures
        variables(t, p, d) == variables(s, p, d),
    decreases s.len() - p, 2nat,
{
    lemma_variable_in_bounds(s, p, d);
    let n = variable(s, p, d)->Ok_0.1;
    lemma_variable_local(s, t, p, d);
    if has_char(s, p + n, ',') && variables(s, p + n + 1, d) is Ok {
        lemma_variables_in_bounds(s, p + n + 1, d);
        lemma_variables_local(s, t, p + n + 1, d);
    }
}

/// A sequence of values is found again in a text that holds the same
/// characters and ends the sequence at the same offset.
pub proof fn lemma_values_local(s: Seq<char>, t: Seq<char>, p: int, d: nat)
    requires
        0 <= p <= s.len(),
        values(s, p, d) is Ok,
        same_text(s, t, p, p + values(s, p, d)->Ok_0.1),
        values_end(t, p + values(s, p, d)->Ok_0.1, d),
    ensures
        values(t, p, d) == values(s, p, d),
    decreases s.len() - p, 5nat,
{
    lemma_value_in_bounds(s, p, d);
    let n = value(s, p, d)->Ok_0.1;
    lemma_value_local(s, t, p, d);
    if has_char(s, p + n, ',') && values(s, p + n + 1, d) is Ok {
        lemma_values_in_bounds(s, p + n + 1, d);
        lemma_values_local(s, t, p + n + 1, d);
    }
}

/// A tuple is found again in a text that holds the same characters.
pub proof fn lemma_tuple_value_local(s: Seq<char>, t: Seq<char>, p: int, d: nat)
    requires
        0 <= p <= s.len(),
        tuple_value(s, p, d) is Ok,
        same_text(s, t, p, p + tuple_value(s, p, d)->Ok_0.1),
    ensures
        tuple_value(t, p, d) == tuple_value(s, p, d),
    decreases s.len() - p, 3nat,
{
    if !has_char(s, p + 1, '}') {
        lemma_variables_in_bounds(s, p + 1, d);
        lemma_variables_local(s, t, p + 1, d);
    }
}

/// Where a value stands, no variable does.
pub proof fn lemma_value_is_no_variable(s: Seq<char>, t: Seq<char>, p: int, d: nat)
    requires
        0 <= p < s.len(),
        p < t.len(),
        s[p] == t[p],
        value(s, p, d) is Ok,
    ensures
        variables(t, p, d) is Err,
        variable_list(t, p, d) is Err,
{
}

/// The elements of a list are found again in a text that holds the same
/// characters and has no comma behind them.
pub proof fn lemma_list_elements_local(s: Seq<char>, t: Seq<char>, p: int, d: nat)
    requires
        0 <= p <= s.len(),
        list_elements(s, p, d) is Ok,
        same_text(s, t, p, p + list_elements(s, p, d)->Ok_0.1),
        !has_char(t, p + list_elements(s, p, d)->Ok_0.1, ','),
    ensures
        list_elements(t, p, d) == list_elements(s, p, d),
    decreases s.len() - p, 7nat,
{
    lemma_list_elements_in_bounds(s, p, d);
    if variable_list(s, p, d) is Ok {
        lemma_variables_local(s, t, p, d);
    } else {
        lemma_values_in_bounds(s, p, d);
        lemma_value_in_bounds(s, p, d);
        lemma_value_is_no_variable(s, t, p, d);
        lemma_values_local(s, t, p, d);
    }
}

/// A list is found again in a text that holds the same characters.
pub proof fn lemma_list_local(s: Seq<char>, t: Seq<char>, p: int, d: nat)
    requires
        0 <= p <= s.len(),
        list(s, p, d) is Ok,
        same_text(s, t, p, p + list(s, p, d)->Ok_0.1),
    ensures
        list(t, p, d) == list(s, p, d),
    decreases s.len() - p, 3nat,
{
    lemma_run_in_bounds(s, p + 1, CharClass::Space);
    if empty(s, p + 1) is Ok {
        lemma_run_local(s, t, p + 1, CharClass::Space);
    } else {
        lemma_list_elements_in_bounds(s, p + 1, d);
        lemma_list_elements_local(s, t, p + 1, d);
        lemma_blank_is_no_element(s, p + 1, d);
        lemma_run_local(s, t, p + 1, CharClass::Space);
    }
}

/// No element of a list starts with whitespace or with `]`.
pub proof fn lemma_blank_is_no_element(s: Seq<char>, p: int, d: nat)
    requires
        0 <= p <= s.len(),
        list_elements(s, p, d) is Ok,
    ensures
        run_length(s, p, CharClass::Space) == 0,
        !has_char(s, p, ']'),
{
}

} // verus!
