//! A value that reaches to the end of the text and loses its last
//! character, the closing delimiter, fails for want of that delimiter, at
//! the end of what is left.
use super::error::{ErrorKind, Failure};
use super::grammar::{
    async_class, async_kind_of, async_output, async_record, async_record_kind,
    class_name_length, constant, empty, has_char, has_prefix, identifier, list, oob_record,
    output, quoted_string, result_class, result_list, result_record, stream_record,
    string_body, token, tuple_value, value, values, variable, variables, CharClass,
};
use super::output_types::AsyncKind;
use super::locality::{
    lemma_blank_is_no_element, lemma_identifier_local, lemma_list_elements_local,
    lemma_run_local, lemma_value_local, lemma_variable_local, lemma_variables_local,
};
use super::progress::{
    lemma_async_output_in_bounds, lemma_identifier_in_bounds, lemma_list_elements_in_bounds,
    lemma_run_in_bounds, lemma_run_members, lemma_string_body_in_bounds, lemma_value_in_bounds,
    lemma_values_in_bounds, lemma_variable_in_bounds, lemma_variables_in_bounds,
};
use vstd::prelude::*;

verus! {

/// Whether `kind` reports a missing closing delimiter.
pub open spec fn is_unterminated(kind: ErrorKind) -> bool {
    kind == ErrorKind::UnterminatedString || kind == ErrorKind::UnterminatedTuple || kind
        == ErrorKind::UnterminatedList
}

/// Whether `r` succeeded and reached to offset `end`.
pub open spec fn reaches<T>(r: Result<(T, nat), Failure>, p: int, end: int) -> bool {
    r matches Ok((_, n)) && p + n == end
}

/// Whether `r` failed for want of a closing delimiter at offset `end`.
pub open spec fn cut_short<T>(r: Result<(T, nat), Failure>, end: int) -> bool {
    r matches Err(f) && is_unterminated(f.kind) && f.position == end
}

/// The body of a string that reaches to the end of the text fails for want of
/// a closing delimiter once the last character is removed.
pub proof fn lemma_string_body_truncated(s: Seq<char>, p: int)
    requires
        0 <= p <= s.len(),
        reaches(string_body(s, p), p, s.len() as int),
    ensures
        cut_short(string_body(s.drop_last(), p), s.len() - 1),
    decreases s.len() - p,
{
    if s[p] == '"' {
    } else if s[p] == '\\' {
        lemma_string_body_in_bounds(s, p + 2);
        lemma_string_body_truncated(s, p + 2);
    } else {
        lemma_string_body_in_bounds(s, p + 1);
        lemma_string_body_truncated(s, p + 1);
    }
}

/// A quoted string that reaches to the end of the text fails for want of a
/// closing delimiter once the last character is removed.
pub proof fn lemma_quoted_string_truncated(s: Seq<char>, p: int)
    requires
        0 <= p <= s.len(),
        reaches(quoted_string(s, p), p, s.len() as int),
    ensures
        cut_short(quoted_string(s.drop_last(), p), s.len() - 1),
        cut_short(constant(s.drop_last(), p), s.len() - 1),
{
    lemma_string_body_in_bounds(s, p + 1);
    lemma_string_body_truncated(s, p + 1);
}

/// A value that reaches to the end of the text fails for want of a closing
/// delimiter once the last character is removed.
pub proof fn lemma_value_truncated(s: Seq<char>, p: int, d: nat)
    requires
        0 <= p <= s.len(),
        reaches(value(s, p, d), p, s.len() as int),
    ensures
        cut_short(value(s.drop_last(), p, d), s.len() - 1),
    decreases s.len() - p, 4nat,
{
    lemma_value_in_bounds(s, p, d);
    if has_char(s, p, '"') {
        lemma_quoted_string_truncated(s, p);
    } else if has_char(s, p, '{') {
        lemma_tuple_value_truncated(s, p, (d - 1) as nat);
    } else if has_char(s, p, '[') {
        lemma_list_truncated(s, p, (d - 1) as nat);
    }
}

/// A variable that reaches to the end of the text fails for want of a closing
/// delimiter once the last character is removed.
pub proof fn lemma_variable_truncated(s: Seq<char>, p: int, d: nat)
    requires
        0 <= p <= s.len(),
        reaches(variable(s, p, d), p, s.len() as int),
    ensures
        cut_short(variable(s.drop_last(), p, d), s.len() - 1),
    decreases s.len() - p, 1nat,
{
    lemma_identifier_in_bounds(s, p);
    let n = identifier(s, p)->Ok_0.1;
    lemma_value_in_bounds(s, p + n + 1, d);
    lemma_identifier_local(s, s.drop_last(), p);
    lemma_value_truncated(s, p + n + 1, d);
}

/// A sequence of variables that reaches to the end of the text fails for want
/// of a closing delimiter once the last character is removed.
pub proof fn lemma_variables_truncated(s: Seq<char>, p: int, d: nat)
    requires
        0 <= p <= s.len(),
        reaches(variables(s, p, d), p, s.len() as int),
    ensures
        cut_short(variables(s.drop_last(), p, d), s.len() - 1),
    decreases s.len() - p, 2nat,
{
    lemma_variable_in_bounds(s, p, d);
    let n = variable(s, p, d)->Ok_0.1;
    if has_char(s, p + n, ',') {
        lemma_variables_in_bounds(s, p + n + 1, d);
        lemma_variable_in_bounds(s, p + n + 1, d);
        lemma_identifier_in_bounds(s, p + n + 1);
        lemma_variable_local(s, s.drop_last(), p, d);
        lemma_variables_truncated(s, p + n + 1, d);
    } else {
        lemma_variable_truncated(s, p, d);
    }
}

/// A sequence of values that reaches to the end of the text fails for want of
/// a closing delimiter once the last character is removed.
pub proof fn lemma_values_truncated(s: Seq<char>, p: int, d: nat)
    requires
        0 <= p <= s.len(),
        reaches(values(s, p, d), p, s.len() as int),
    ensures
        cut_short(values(s.drop_last(), p, d), s.len() - 1),
    decreases s.len() - p, 5nat,
{
    lemma_value_in_bounds(s, p, d);
    let n = value(s, p, d)->Ok_0.1;
    if has_char(s, p + n, ',') {
        lemma_values_in_bounds(s, p + n + 1, d);
        lemma_value_local(s, s.drop_last(), p, d);
        lemma_values_truncated(s, p + n + 1, d);
    } else {
        lemma_value_truncated(s, p, d);
    }
}

/// A tuple that reaches to the end of the text fails for want of a closing
/// delimiter once the last character is removed.
pub proof fn lemma_tuple_value_truncated(s: Seq<char>, p: int, d: nat)
    requires
        0 <= p <= s.len(),
        reaches(tuple_value(s, p, d), p, s.len() as int),
    ensures
        cut_short(tuple_value(s.drop_last(), p, d), s.len() - 1),
    decreases s.len() - p, 3nat,
{
    if !has_char(s, p + 1, '}') {
        lemma_variables_in_bounds(s, p + 1, d);
        lemma_variables_local(s, s.drop_last(), p + 1, d);
    }
}

/// A list that reaches to the end of the text fails for want of a closing
/// delimiter once the last character is removed.
pub proof fn lemma_list_truncated(s: Seq<char>, p: int, d: nat)
    requires
        0 <= p <= s.len(),
        reaches(list(s, p, d), p, s.len() as int),
    ensures
        cut_short(list(s.drop_last(), p, d), s.len() - 1),
    decreases s.len() - p, 3nat,
{
    let t = s.drop_last();
    lemma_run_in_bounds(s, p + 1, CharClass::Space);
    if empty(s, p + 1) is Ok {
        lemma_run_local(s, t, p + 1, CharClass::Space);
    } else {
        lemma_list_elements_in_bounds(s, p + 1, d);
        lemma_list_elements_local(s, t, p + 1, d);
        lemma_blank_is_no_element(s, p + 1, d);
        lemma_run_local(s, t, p + 1, CharClass::Space);
    }
}

/// Whether `c` closes a string, a tuple or a list.
pub open spec fn is_closing(c: char) -> bool {
    c == '"' || c == '}' || c == ']'
}

/// A word that stands in a text stands in every shorter text that still
/// holds it, and a word that does not stand in a text stands in no shorter
/// one.
pub proof fn lemma_prefix_truncated(s: Seq<char>, p: int, word: Seq<char>)
    requires
        0 <= p,
        s.len() > 0,
    ensures
        has_prefix(s.drop_last(), p, word) == (has_prefix(s, p, word) && p + word.len() < s.len()),
{
    let t = s.drop_last();
    if p + word.len() < s.len() {
        assert(t.subrange(p, p + word.len()) =~= s.subrange(p, p + word.len()));
    }
}

/// The token of a text is the token of the text without its last
/// character, where that character stands behind the token's digits.
pub proof fn lemma_token_truncated(s: Seq<char>, p: int)
    requires
        0 <= p <= s.len(),
        p + token(s, p).1 < s.len(),
    ensures
        token(s.drop_last(), p) == token(s, p),
{
    let t = s.drop_last();
    let n = token(s, p).1;
    lemma_run_members(s, p, CharClass::Digit);
    lemma_run_local(s, t, p, CharClass::Digit);
    assert(t.subrange(p, p + n) =~= s.subrange(p, p + n));
}

/// The class of a result record that ends before the last character of the
/// text is found again once that character is removed.
pub proof fn lemma_result_class_truncated(s: Seq<char>, p: int)
    requires
        0 <= p <= s.len(),
        result_class(s, p) matches Ok((_, n)) && p + n < s.len(),
    ensures
        result_class(s.drop_last(), p) == result_class(s, p),
{
    lemma_prefix_truncated(s, p, "done"@);
    lemma_prefix_truncated(s, p, "running"@);
    lemma_prefix_truncated(s, p, "connected"@);
    lemma_prefix_truncated(s, p, "error"@);
    lemma_prefix_truncated(s, p, "exit"@);
}

/// The class of an async record that ends before the last character of the
/// text is found again once that character is removed.
pub proof fn lemma_async_class_truncated(s: Seq<char>, p: int)
    requires
        0 <= p <= s.len(),
        async_class(s, p) matches Ok((_, n)) && p + n < s.len(),
    ensures
        async_class(s.drop_last(), p) == async_class(s, p),
{
    let t = s.drop_last();
    lemma_prefix_truncated(s, p, "stopped"@);
    if !has_prefix(s, p, "stopped"@) {
        let n = class_name_length(s, p);
        lemma_run_members(s, p + 1, CharClass::IdentifierRest);
        lemma_run_local(s, t, p + 1, CharClass::IdentifierRest);
        assert(t.subrange(p, p + n) =~= s.subrange(p, p + n));
    }
}

/// The results of a record that reaches to the end of the text fails for want
/// of a closing delimiter once the last character is removed.
pub proof fn lemma_result_list_truncated(s: Seq<char>, p: int, d: nat)
    requires
        0 <= p <= s.len(),
        reaches(result_list(s, p, d), p, s.len() as int),
    ensures
        cut_short(result_list(s.drop_last(), p, d), s.len() - 1),
        s.len() - 1 > p,
{
    lemma_variables_truncated(s, p, d);
    lemma_variable_in_bounds(s, p, d);
    lemma_identifier_in_bounds(s, p);
}

/// Class and results of an async record that reaches to the end of the text
/// fails for want of a closing delimiter once the last character is removed.
pub proof fn lemma_async_output_truncated(s: Seq<char>, p: int, d: nat)
    requires
        0 <= p <= s.len(),
        reaches(async_output(s, p, d), p, s.len() as int),
    ensures
        cut_short(async_output(s.drop_last(), p, d), s.len() - 1),
{
    let n = async_class(s, p)->Ok_0.1;
    lemma_async_class_truncated(s, p);
    lemma_result_list_truncated(s, p + n + 1, d);
}

/// An async record of a given kind that reaches to the end of the text fails
/// for want of a closing delimiter once the last character is removed.
pub proof fn lemma_async_record_kind_truncated(s: Seq<char>, p: int, kind: AsyncKind, d: nat)
    requires
        0 <= p <= s.len(),
        reaches(async_record_kind(s, p, kind, d), p, s.len() as int),
        is_closing(s.last()),
    ensures
        cut_short(async_record_kind(s.drop_last(), p, kind, d), s.len() - 1),
{
    let n = token(s, p).1;
    let m = async_output(s, p + n + 1, d)->Ok_0.1;
    lemma_run_in_bounds(s, p, CharClass::Digit);
    lemma_async_output_in_bounds(s, p + n + 1, d);
    lemma_token_truncated(s, p);
    lemma_async_output_truncated(s, p + n + 1, d);
}

/// An async record that reaches to the end of the text fails for want of a
/// closing delimiter once the last character is removed.
pub proof fn lemma_async_record_truncated(s: Seq<char>, p: int, d: nat)
    requires
        0 <= p <= s.len(),
        reaches(async_record(s, p, d), p, s.len() as int),
        is_closing(s.last()),
    ensures
        cut_short(async_record(s.drop_last(), p, d), s.len() - 1),
{
    let n = token(s, p).1;
    let kind = async_kind_of(s[p + n])->Some_0;
    lemma_run_in_bounds(s, p, CharClass::Digit);
    lemma_async_output_in_bounds(s, p + n + 1, d);
    lemma_token_truncated(s, p);
    lemma_async_record_kind_truncated(s, p, kind, d);
}

/// A stream record that reaches to the end of the text fails for want of a
/// closing delimiter once the last character is removed.
pub proof fn lemma_stream_record_truncated(s: Seq<char>, p: int)
    requires
        0 <= p <= s.len(),
        reaches(stream_record(s, p), p, s.len() as int),
        is_closing(s.last()),
    ensures
        cut_short(stream_record(s.drop_last(), p), s.len() - 1),
{
    lemma_string_body_in_bounds(s, p + 2);
    lemma_quoted_string_truncated(s, p + 1);
}

/// An out-of-band record that reaches to the end of the text fails for want
/// of a closing delimiter once the last character is removed.
pub proof fn lemma_oob_record_truncated(s: Seq<char>, p: int, d: nat)
    requires
        0 <= p <= s.len(),
        reaches(oob_record(s, p, d), p, s.len() as int),
        is_closing(s.last()),
    ensures
        cut_short(oob_record(s.drop_last(), p, d), s.len() - 1),
{
    let n = token(s, p).1;
    lemma_run_in_bounds(s, p, CharClass::Digit);
    if async_kind_of(s[p + n]) is Some {
        lemma_async_output_in_bounds(s, p + n + 1, d);
        lemma_token_truncated(s, p);
        lemma_async_record_truncated(s, p, d);
    } else {
        lemma_string_body_in_bounds(s, p + n + 2);
        lemma_token_truncated(s, p);
        lemma_stream_record_truncated(s, p + n);
    }
}

/// A result record that reaches to the end of the text fails for want of a
/// closing delimiter once the last character is removed.
pub proof fn lemma_result_record_truncated(s: Seq<char>, p: int, d: nat)
    requires
        0 <= p <= s.len(),
        reaches(result_record(s, p, d), p, s.len() as int),
        is_closing(s.last()),
    ensures
        cut_short(result_record(s.drop_last(), p, d), s.len() - 1),
{
    reveal_strlit("done");
    reveal_strlit("running");
    reveal_strlit("connected");
    reveal_strlit("error");
    reveal_strlit("exit");
    let n = token(s, p).1;
    let m = result_class(s, p + n + 1)->Ok_0.1;
    let q = p + n + 1 + m;
    lemma_run_in_bounds(s, p, CharClass::Digit);
    lemma_token_truncated(s, p);
    if has_char(s, q, ',') {
        lemma_variables_in_bounds(s, q + 1, d);
        lemma_result_class_truncated(s, p + n + 1);
        lemma_result_list_truncated(s, q + 1, d);
    } else {
        assert(has_prefix(s, p + n + 1, "done"@) ==> s[q - 1] == s.subrange(
            p + n + 1,
            p + n + 1 + "done"@.len(),
        )[3]);
        assert(has_prefix(s, p + n + 1, "running"@) ==> s[q - 1] == s.subrange(
            p + n + 1,
            p + n + 1 + "running"@.len(),
        )[6]);
        assert(has_prefix(s, p + n + 1, "connected"@) ==> s[q - 1] == s.subrange(
            p + n + 1,
            p + n + 1 + "connected"@.len(),
        )[8]);
        assert(has_prefix(s, p + n + 1, "error"@) ==> s[q - 1] == s.subrange(
            p + n + 1,
            p + n + 1 + "error"@.len(),
        )[4]);
        assert(has_prefix(s, p + n + 1, "exit"@) ==> s[q - 1] == s.subrange(
            p + n + 1,
            p + n + 1 + "exit"@.len(),
        )[3]);
    }
}

/// A record that reaches to the end of the text fails for want of a closing
/// delimiter once the last character is removed.
pub proof fn lemma_output_truncated(s: Seq<char>, d: nat)
    requires
        reaches(output(s, d), 0, s.len() as int),
        is_closing(s.last()),
    ensures
        cut_short(output(s.drop_last(), d), s.len() - 1),
{
    let n = token(s, 0).1 as int;
    lemma_run_in_bounds(s, 0, CharClass::Digit);
    if has_char(s, n, '^') {
        reveal_strlit("done");
        reveal_strlit("running");
        reveal_strlit("connected");
        reveal_strlit("error");
        reveal_strlit("exit");
        lemma_token_truncated(s, 0);
        lemma_result_record_truncated(s, 0, d);
    } else if async_kind_of(s[n]) is Some {
        lemma_async_output_in_bounds(s, n + 1, d);
        lemma_token_truncated(s, 0);
        lemma_oob_record_truncated(s, 0, d);
    } else {
        lemma_string_body_in_bounds(s, n + 2);
        lemma_token_truncated(s, 0);
        lemma_oob_record_truncated(s, 0, d);
    }
}

} // verus!
