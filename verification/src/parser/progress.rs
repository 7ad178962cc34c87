//! Every production consumes at least one character and stays within the
//! input, and every failure lies between the offset at which the production
//! was tried and the end of the input.
use super::error::Failure;
use super::grammar::{
    async_class, async_kind_of, async_output, async_record, async_record_kind, identifier, list,
    list_elements, oob_record, output, quoted_string, result_class, result_record, run_length,
    stream_record, string_body, token, tuple_value, value, value_list, values, variable,
    variable_list, variables, CharClass,
};
use super::output_types::AsyncKind;
use vstd::prelude::*;

verus! {

/// Whether `r`, the result of a production tried at offset `p` of an input
/// of `len` characters, consumed something, stayed within the input and, if
/// it failed, failed at or after `p`.
pub open spec fn in_bounds<T>(r: Result<(T, nat), Failure>, p: int, len: nat) -> bool {
    match r {
        Ok((_, n)) => 1 <= n && p + n <= len,
        Err(f) => p <= f.position <= len,
    }
}

/// A run of characters ends within the input.
pub proof fn lemma_run_in_bounds(s: Seq<char>, p: int, class: CharClass)
    requires
        0 <= p <= s.len(),
    ensures
        p + run_length(s, p, class) <= s.len(),
    decreases s.len() - p,
{
    if p < s.len() && class.contains(s[p]) {
        lemma_run_in_bounds(s, p + 1, class);
    }
}

/// Characters of the class that are followed by a character outside it, or
/// by the end of the text, are a run.
pub proof fn lemma_run_exact(s: Seq<char>, p: int, n: nat, class: CharClass)
    requires
        0 <= p,
        p + n <= s.len(),
        forall|i: int| p <= i < p + n ==> class.contains(s[i]),
        p + n == s.len() || !class.contains(s[p + n]),
    ensures
        run_length(s, p, class) == n,
    decreases n,
{
    if n > 0 {
        lemma_run_exact(s, p + 1, (n - 1) as nat, class);
    }
}

/// Every character of a run belongs to the class, and the character after
/// the run, if there is one, does not.
pub proof fn lemma_run_members(s: Seq<char>, p: int, class: CharClass)
    requires
        0 <= p <= s.len(),
    ensures
        forall|i: int| p <= i < p + run_length(s, p, class) ==> class.contains(#[trigger] s[i]),
        p + run_length(s, p, class) < s.len() ==> !class.contains(
            s[p + run_length(s, p, class)],
        ),
    decreases s.len() - p,
{
    if p < s.len() && class.contains(s[p]) {
        lemma_run_members(s, p + 1, class);
    }
}

/// Parsing an identifier consumes at least one character, stays within the
/// text, and fails at or after the offset at which it was tried.
pub proof fn lemma_identifier_in_bounds(s: Seq<char>, p: int)
    requires
        0 <= p <= s.len(),
    ensures
        in_bounds(identifier(s, p), p, s.len()),
{
    if p < s.len() {
        lemma_run_in_bounds(s, p + 1, CharClass::IdentifierRest);
    }
}

/// Parsing the body of a string consumes at least one character, stays within
/// the text, and fails at or after the offset at which it was tried.
pub proof fn lemma_string_body_in_bounds(s: Seq<char>, p: int)
    requires
        0 <= p <= s.len(),
    ensures
        in_bounds(string_body(s, p), p, s.len()),
    decreases s.len() - p,
{
    if p < s.len() && s[p] != '"' {
        if s[p] == '\\' {
            if p + 1 < s.len() {
                lemma_string_body_in_bounds(s, p + 2);
            }
        } else {
            lemma_string_body_in_bounds(s, p + 1);
        }
    }
}

/// Parsing a quoted string consumes at least one character, stays within the
/// text, and fails at or after the offset at which it was tried.
pub proof fn lemma_quoted_string_in_bounds(s: Seq<char>, p: int)
    requires
        0 <= p <= s.len(),
    ensures
        in_bounds(quoted_string(s, p), p, s.len()),
{
    if p < s.len() {
        lemma_string_body_in_bounds(s, p + 1);
    }
}

/// Parsing a value consumes at least one character, stays within the text, and
/// fails at or after the offset at which it was tried.
pub proof fn lemma_value_in_bounds(s: Seq<char>, p: int, d: nat)
    requires
        0 <= p <= s.len(),
    ensures
        in_bounds(value(s, p, d), p, s.len()),
    decreases s.len() - p, 4nat,
{
    lemma_quoted_string_in_bounds(s, p);
    if d > 0 {
        lemma_tuple_value_in_bounds(s, p, (d - 1) as nat);
        lemma_list_in_bounds(s, p, (d - 1) as nat);
    }
}

/// Parsing a variable consumes at least one character, stays within the text,
/// and fails at or after the offset at which it was tried.
pub proof fn lemma_variable_in_bounds(s: Seq<char>, p: int, d: nat)
    requires
        0 <= p <= s.len(),
    ensures
        in_bounds(variable(s, p, d), p, s.len()),
    decreases s.len() - p, 1nat,
{
    lemma_identifier_in_bounds(s, p);
    match identifier(s, p) {
        Ok((_, n)) => {
            if p + n < s.len() {
                lemma_value_in_bounds(s, p + n + 1, d);
            }
        },
        Err(_) => {},
    }
}

/// Parsing a sequence of variables consumes at least one character, stays
/// within the text, and fails at or after the offset at which it was tried.
pub proof fn lemma_variables_in_bounds(s: Seq<char>, p: int, d: nat)
    requires
        0 <= p <= s.len(),
    ensures
        in_bounds(variables(s, p, d), p, s.len()),
    decreases s.len() - p, 2nat,
{
    lemma_variable_in_bounds(s, p, d);
    match variable(s, p, d) {
        Ok((_, n)) => {
            if p + n < s.len() {
                lemma_variables_in_bounds(s, p + n + 1, d);
            }
        },
        Err(_) => {},
    }
}

/// Parsing a sequence of values consumes at least one character, stays within
/// the text, and fails at or after the offset at which it was tried.
pub proof fn lemma_values_in_bounds(s: Seq<char>, p: int, d: nat)
    requires
        0 <= p <= s.len(),
    ensures
        in_bounds(values(s, p, d), p, s.len()),
    decreases s.len() - p, 5nat,
{
    lemma_value_in_bounds(s, p, d);
    match value(s, p, d) {
        Ok((_, n)) => {
            if p + n < s.len() {
                lemma_values_in_bounds(s, p + n + 1, d);
            }
        },
        Err(_) => {},
    }
}

/// Parsing a tuple consumes at least one character, stays within the text, and
/// fails at or after the offset at which it was tried.
pub proof fn lemma_tuple_value_in_bounds(s: Seq<char>, p: int, d: nat)
    requires
        0 <= p <= s.len(),
    ensures
        in_bounds(tuple_value(s, p, d), p, s.len()),
    decreases s.len() - p, 3nat,
{
    if p < s.len() {
        lemma_variables_in_bounds(s, p + 1, d);
    }
}

/// Parsing the elements of a list consumes at least one character, stays
/// within the text, and fails at or after the offset at which it was tried.
pub proof fn lemma_list_elements_in_bounds(s: Seq<char>, p: int, d: nat)
    requires
        0 <= p <= s.len(),
    ensures
        in_bounds(list_elements(s, p, d), p, s.len()),
        in_bounds(variable_list(s, p, d), p, s.len()),
        in_bounds(value_list(s, p, d), p, s.len()),
    decreases s.len() - p, 7nat,
{
    lemma_variables_in_bounds(s, p, d);
    lemma_values_in_bounds(s, p, d);
}

/// Parsing a list consumes at least one character, stays within the text, and
/// fails at or after the offset at which it was tried.
pub proof fn lemma_list_in_bounds(s: Seq<char>, p: int, d: nat)
    requires
        0 <= p <= s.len(),
    ensures
        in_bounds(list(s, p, d), p, s.len()),
    decreases s.len() - p, 3nat,
{
    if p < s.len() {
        lemma_run_in_bounds(s, p + 1, CharClass::Space);
        lemma_list_elements_in_bounds(s, p + 1, d);
    }
}

/// Parsing the class of a result record or of an async record stays within
/// the text and fails at the offset at which it was tried.
pub proof fn lemma_class_in_bounds(s: Seq<char>, p: int)
    requires
        0 <= p <= s.len(),
    ensures
        result_class(s, p) matches Ok((_, n)) ==> p + n <= s.len(),
        result_class(s, p) matches Err(f) ==> f.position == p,
        in_bounds(async_class(s, p), p, s.len()),
{
    if p < s.len() {
        lemma_run_in_bounds(s, p + 1, CharClass::IdentifierRest);
    }
    reveal_strlit("stopped");
}

/// Parsing class and results of an async record consumes at least one
/// character, stays within the text, and fails at or after the offset at
/// which it was tried.
pub proof fn lemma_async_output_in_bounds(s: Seq<char>, p: int, d: nat)
    requires
        0 <= p <= s.len(),
    ensures
        in_bounds(async_output(s, p, d), p, s.len()),
{
    lemma_class_in_bounds(s, p);
    match async_class(s, p) {
        Ok((_, n)) => {
            if p + n < s.len() {
                lemma_variables_in_bounds(s, p + n + 1, d);
            }
        },
        Err(_) => {},
    }
}

/// Parsing a result record consumes at least one character, stays within
/// the text, and fails at or after the offset at which it was tried.
pub proof fn lemma_result_record_in_bounds(s: Seq<char>, p: int, d: nat)
    requires
        0 <= p <= s.len(),
    ensures
        in_bounds(result_record(s, p, d), p, s.len()),
{
    let n = token(s, p).1;
    lemma_run_in_bounds(s, p, CharClass::Digit);
    if p + n < s.len() {
        lemma_class_in_bounds(s, p + n + 1);
        match result_class(s, p + n + 1) {
            Ok((_, m)) => {
                let q = p + n + 1 + m;
                if q < s.len() {
                    lemma_variables_in_bounds(s, q + 1, d);
                }
            },
            Err(_) => {},
        }
    }
}

/// Parsing an async record of a given kind consumes at least one character,
/// stays within the text, and fails at or after the offset at which it was
/// tried.
pub proof fn lemma_async_record_kind_in_bounds(s: Seq<char>, p: int, kind: AsyncKind, d: nat)
    requires
        0 <= p <= s.len(),
    ensures
        in_bounds(async_record_kind(s, p, kind, d), p, s.len()),
{
    let n = token(s, p).1;
    lemma_run_in_bounds(s, p, CharClass::Digit);
    if p + n < s.len() {
        lemma_async_output_in_bounds(s, p + n + 1, d);
    }
}

/// Parsing a stream record consumes at least one character, stays within
/// the text, and fails at or after the offset at which it was tried.
pub proof fn lemma_stream_record_in_bounds(s: Seq<char>, p: int)
    requires
        0 <= p <= s.len(),
    ensures
        in_bounds(stream_record(s, p), p, s.len()),
{
    if p < s.len() {
        lemma_quoted_string_in_bounds(s, p + 1);
    }
}

/// Parsing an out-of-band record consumes at least one character, stays
/// within the text, and fails at or after the offset at which it was tried.
pub proof fn lemma_oob_record_in_bounds(s: Seq<char>, p: int, d: nat)
    requires
        0 <= p <= s.len(),
    ensures
        in_bounds(async_record(s, p, d), p, s.len()),
        in_bounds(oob_record(s, p, d), p, s.len()),
{
    let n = token(s, p).1;
    lemma_run_in_bounds(s, p, CharClass::Digit);
    if p + n < s.len() {
        if async_kind_of(s[p + n]) is Some {
            lemma_async_record_kind_in_bounds(s, p, async_kind_of(s[p + n])->Some_0, d);
        } else {
            lemma_stream_record_in_bounds(s, p + n);
        }
    }
}

/// Parsing a record consumes at least one character, stays within the
/// text, and fails within the text.
pub proof fn lemma_output_in_bounds(s: Seq<char>, d: nat)
    ensures
        in_bounds(output(s, d), 0, s.len()),
{
    lemma_run_in_bounds(s, 0, CharClass::Digit);
    lemma_result_record_in_bounds(s, 0, d);
    lemma_oob_record_in_bounds(s, 0, d);
}

} // verus!
