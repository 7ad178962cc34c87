use std::borrow::Cow;

use rust_mi::parser::error::{ErrorKind, ParseError, Production};
use rust_mi::parser::output_types::{ListValue, TupleValue, Value, Variable};
use rust_mi::parser::strings::{escape, parse_string};
use rust_mi::parser::{
    constant, empty, identifier, list, tuple_value, value, value_list, variable, variable_list,
    variable_name, ws, MAX_NESTING_DEPTH,
};

fn text(s: &str) -> Value<'_> {
    Value::Const(Cow::from(s))
}

fn failed<T: std::fmt::Debug>(r: Result<T, ParseError>) -> ParseError {
    match r {
        Ok(found) => panic!("parsed {:?}", found),
        Err(e) => e,
    }
}

fn nested(open: &str, close: &str, levels: usize) -> String {
    let mut s = String::new();
    for _ in 0..levels {
        s.push_str(open);
    }
    for _ in 0..levels {
        s.push_str(close);
    }
    s
}

#[test]
fn empty_tuple_consumes_its_delimiters_only() {
    assert_eq!(value("{}").unwrap(), ("", Value::Tuple(TupleValue::Empty)));
    assert_eq!(value("{},x").unwrap(), (",x", Value::Tuple(TupleValue::Empty)));
    assert_eq!(tuple_value("{}}").unwrap(), ("}", Value::Tuple(TupleValue::Empty)));
}

#[test]
fn empty_list_consumes_its_delimiters_only() {
    assert_eq!(value("[]").unwrap(), ("", Value::List(ListValue::Empty)));
    assert_eq!(list("[]]").unwrap(), ("]", Value::List(ListValue::Empty)));
}

#[test]
fn tuple_keeps_the_order_of_its_variables() {
    let (rest, v) = value("{a=\"1\",b=\"2\"}").unwrap();
    assert_eq!(rest, "");
    assert_eq!(
        v,
        Value::Tuple(TupleValue::Data(vec![
            Variable("a", text("1")),
            Variable("b", text("2")),
        ]))
    );
    let (_, swapped) = value("{b=\"2\",a=\"1\"}").unwrap();
    assert_ne!(v, swapped);
}

#[test]
fn tuple_keeps_duplicate_names() {
    let (_, v) = value("{a=\"1\",a=\"2\"}").unwrap();
    assert_eq!(
        v,
        Value::Tuple(TupleValue::Data(vec![
            Variable("a", text("1")),
            Variable("a", text("2")),
        ]))
    );
}

#[test]
fn list_of_variables() {
    let (rest, v) = list("[a=\"1\",b=\"2\"]").unwrap();
    assert_eq!(rest, "");
    assert_eq!(
        v,
        Value::List(ListValue::VariableList(vec![
            Variable("a", text("1")),
            Variable("b", text("2")),
        ]))
    );
}

#[test]
fn list_of_values() {
    let (rest, v) = list("[{a=\"1\"},{b=\"2\"}]").unwrap();
    assert_eq!(rest, "");
    assert_eq!(
        v,
        Value::List(ListValue::ValueList(vec![
            Value::Tuple(TupleValue::Data(vec![Variable("a", text("1"))])),
            Value::Tuple(TupleValue::Data(vec![Variable("b", text("2"))])),
        ]))
    );
}

#[test]
fn list_of_mixed_shapes_is_refused() {
    let e = failed(list("[a=\"1\",{b=\"2\"}]"));
    assert_eq!(e.kind, ErrorKind::ExpectedVariable);
    assert_eq!(e.position, 7);
    let e = failed(list("[{a=\"1\"},b=\"2\"]"));
    assert_eq!(e.kind, ErrorKind::ExpectedValue);
    assert_eq!(e.position, 9);
}

#[test]
fn list_of_strings_and_nested_lists() {
    let (rest, v) = value("[\"a\",[],[\"b\"]]!").unwrap();
    assert_eq!(rest, "!");
    assert_eq!(
        v,
        Value::List(ListValue::ValueList(vec![
            text("a"),
            Value::List(ListValue::Empty),
            Value::List(ListValue::ValueList(vec![text("b")])),
        ]))
    );
}

#[test]
fn blank_between_the_brackets_of_an_empty_list() {
    assert_eq!(list("[ ]").unwrap(), ("", Value::List(ListValue::Empty)));
    assert_eq!(list("[ \t\r\n ]x").unwrap(), ("x", Value::List(ListValue::Empty)));
    assert_eq!(list("[ ]").unwrap().1, list("[]").unwrap().1);
}

#[test]
fn blank_elsewhere_is_significant() {
    let e = failed(list("[ \"a\"]"));
    assert_eq!(e.kind, ErrorKind::ExpectedListElement);
    assert_eq!(e.position, 1);
    let e = failed(tuple_value("{ }"));
    assert_eq!(e.kind, ErrorKind::UnterminatedTuple);
    assert_eq!(e.position, 1);
    let e = failed(variable("a =\"1\""));
    assert_eq!(e.kind, ErrorKind::ExpectedEquals);
    assert_eq!(e.position, 1);
    let e = failed(value(" \"a\""));
    assert_eq!(e.kind, ErrorKind::ExpectedValue);
    assert_eq!(e.position, 0);
}

#[test]
fn value_needs_an_opening_character() {
    for input in ["", "x", "a=\"1\"", "}", "]", "1"] {
        let e = failed(value(input));
        assert_eq!(e.kind, ErrorKind::ExpectedValue);
        assert_eq!(e.position, 0);
        assert_eq!(e.labels(), vec!["value"]);
    }
    let e = failed(tuple_value("[]"));
    assert_eq!(e.kind, ErrorKind::ExpectedValue);
    assert_eq!(e.labels(), vec!["tuple_value"]);
    let e = failed(list("{}"));
    assert_eq!(e.kind, ErrorKind::ExpectedValue);
    assert_eq!(e.labels(), vec!["list"]);
    let e = failed(constant("{}"));
    assert_eq!(e.kind, ErrorKind::ExpectedValue);
    assert_eq!(e.labels(), vec!["constant"]);
}

#[test]
fn scalar_without_escapes_borrows() {
    let (rest, v) = value("\"plain text\" and more").unwrap();
    assert_eq!(rest, " and more");
    assert_eq!(v, text("plain text"));
    assert!(matches!(v, Value::Const(Cow::Borrowed("plain text"))));
}

#[test]
fn scalar_with_escapes_is_copied() {
    let (rest, v) = value("\"a\\\"b\\\\c\"").unwrap();
    assert_eq!(rest, "");
    assert_eq!(v, text("a\"b\\c"));
    assert!(matches!(v, Value::Const(Cow::Owned(_))));
}

#[test]
fn escapes_for_line_feed_carriage_return_and_tab() {
    assert_eq!(
        parse_string("\"a\\nb\\rc\\td\"").unwrap(),
        ("", String::from("a\nb\rc\td"))
    );
}

#[test]
fn empty_string() {
    assert_eq!(parse_string("\"\"").unwrap(), ("", String::new()));
    assert_eq!(value("\"\"x").unwrap(), ("x", text("")));
}

#[test]
fn unknown_escape_is_refused_at_the_backslash() {
    let e = failed(parse_string("\"ab\\qcd\""));
    assert_eq!(e.kind, ErrorKind::InvalidEscape);
    assert_eq!(e.position, 3);
    let e = failed(value("\"\\0\""));
    assert_eq!(e.kind, ErrorKind::InvalidEscape);
    assert_eq!(e.position, 1);
    assert_eq!(e.labels(), vec!["value", "constant"]);
}

#[test]
fn string_without_closing_quote() {
    let e = failed(parse_string("\"abc"));
    assert_eq!(e.kind, ErrorKind::UnterminatedString);
    assert_eq!(e.position, 4);
    let e = failed(parse_string("\"abc\\"));
    assert_eq!(e.kind, ErrorKind::UnterminatedString);
    assert_eq!(e.position, 5);
    let e = failed(parse_string("\"abc\\\""));
    assert_eq!(e.kind, ErrorKind::UnterminatedString);
    assert_eq!(e.position, 6);
    let e = failed(parse_string("\""));
    assert_eq!(e.kind, ErrorKind::UnterminatedString);
    assert_eq!(e.position, 1);
}

#[test]
fn string_without_opening_quote() {
    let e = failed(parse_string("abc\""));
    assert_eq!(e.kind, ErrorKind::ExpectedValue);
    assert_eq!(e.position, 0);
    assert!(e.context.is_empty());
}

#[test]
fn escaped_text_is_read_back() {
    for s in [
        "",
        "plain",
        "with \"quotes\"",
        "back\\slash",
        "\\\"",
        "\\\\\"\"",
        "line\nfeed and\ttab",
        "{a=\"1\"}",
        "h\u{e9}llo \u{4e16}\u{754c}",
    ] {
        let written = format!("\"{}\"", escape(s));
        assert_eq!(parse_string(&written).unwrap(), ("", String::from(s)));
        let (rest, v) = value(&written).unwrap();
        assert_eq!(rest, "");
        assert_eq!(v, text(s));
    }
}

#[test]
fn escape_writes_a_backslash_before_quotes_and_backslashes() {
    assert_eq!(escape("a\"b"), "a\\\"b");
    assert_eq!(escape("a\\b"), "a\\\\b");
    assert_eq!(escape("abc"), "abc");
    assert_eq!(escape("a\nb"), "a\nb");
    assert_eq!(escape(""), "");
}

#[test]
fn offsets_count_characters() {
    let (rest, v) = value("\"h\u{e9}llo\"\u{4e16}").unwrap();
    assert_eq!(rest, "\u{4e16}");
    assert_eq!(v, text("h\u{e9}llo"));
    let e = failed(value("{a=\"\u{e9}\u{e9}\",\u{e9}}"));
    assert_eq!(e.kind, ErrorKind::ExpectedVariable);
    assert_eq!(e.position, 8);
    let e = failed(value("\"\u{4e16}\u{754c}"));
    assert_eq!(e.kind, ErrorKind::UnterminatedString);
    assert_eq!(e.position, 3);
}

#[test]
fn tuple_without_closing_brace() {
    let e = failed(tuple_value("{a=\"1\""));
    assert_eq!(e.kind, ErrorKind::UnterminatedTuple);
    assert_eq!(e.position, 6);
    let e = failed(tuple_value("{"));
    assert_eq!(e.kind, ErrorKind::UnterminatedTuple);
    assert_eq!(e.position, 1);
    let e = failed(tuple_value("{a=\"1\"b=\"2\"}"));
    assert_eq!(e.kind, ErrorKind::UnterminatedTuple);
    assert_eq!(e.position, 6);
    let e = failed(tuple_value("{\"x\"}"));
    assert_eq!(e.kind, ErrorKind::UnterminatedTuple);
    assert_eq!(e.position, 1);
    assert_eq!(e.labels(), vec!["tuple_value"]);
}

#[test]
fn comma_without_variable() {
    let e = failed(tuple_value("{a=\"1\",}"));
    assert_eq!(e.kind, ErrorKind::ExpectedVariable);
    assert_eq!(e.position, 7);
    let e = failed(tuple_value("{a=\"1\",\"2\"}"));
    assert_eq!(e.kind, ErrorKind::ExpectedVariable);
    assert_eq!(e.position, 7);
    let e = failed(tuple_value("{a=\"1\","));
    assert_eq!(e.kind, ErrorKind::ExpectedVariable);
    assert_eq!(e.position, 7);
    let e = failed(list("[a=\"1\",]"));
    assert_eq!(e.kind, ErrorKind::ExpectedVariable);
    assert_eq!(e.position, 7);
    assert_eq!(e.labels(), vec!["list"]);
    let e = failed(list("[\"a\",]"));
    assert_eq!(e.kind, ErrorKind::ExpectedValue);
    assert_eq!(e.position, 5);
    assert_eq!(e.labels(), vec!["list"]);
    let e = failed(list("[\"a\","));
    assert_eq!(e.kind, ErrorKind::ExpectedValue);
    assert_eq!(e.position, 5);
}

#[test]
fn sequence_on_its_own_ends_before_a_comma_without_element() {
    let (rest, items) = variable_list("a=\"1\",,b=\"2\"").unwrap();
    assert_eq!(rest, ",,b=\"2\"");
    assert_eq!(items, ListValue::VariableList(vec![Variable("a", text("1"))]));
    let (rest, items) = variable_list("a=\"1\",b=\"2\",").unwrap();
    assert_eq!(rest, ",");
    assert_eq!(
        items,
        ListValue::VariableList(vec![Variable("a", text("1")), Variable("b", text("2"))])
    );
    let (rest, items) = variable_list("a=\"1\",{b=\"2\"}").unwrap();
    assert_eq!(rest, ",{b=\"2\"}");
    assert_eq!(items, ListValue::VariableList(vec![Variable("a", text("1"))]));
    let (rest, items) = value_list("\"a\",\"b\",").unwrap();
    assert_eq!(rest, ",");
    assert_eq!(items, ListValue::ValueList(vec![text("a"), text("b")]));
    let (rest, items) = value_list("{},x=\"1\"").unwrap();
    assert_eq!(rest, ",x=\"1\"");
    assert_eq!(items, ListValue::ValueList(vec![Value::Tuple(TupleValue::Empty)]));
}

#[test]
fn sequence_on_its_own_fails_with_an_element_that_began() {
    let e = failed(variable_list("a=\"1\",b"));
    assert_eq!(e.kind, ErrorKind::ExpectedEquals);
    assert_eq!(e.position, 7);
    assert_eq!(e.labels(), vec!["variable_list", "variable"]);
    let e = failed(variable_list("a=\"1\",b=\"2"));
    assert_eq!(e.kind, ErrorKind::UnterminatedString);
    assert_eq!(e.position, 10);
    let e = failed(value_list("\"a\",\"b"));
    assert_eq!(e.kind, ErrorKind::UnterminatedString);
    assert_eq!(e.position, 6);
    let e = failed(value_list("\"a\",{b}"));
    assert_eq!(e.kind, ErrorKind::ExpectedEquals);
    assert_eq!(e.position, 6);
}

#[test]
fn variable_without_equals_or_value() {
    let e = failed(variable("name"));
    assert_eq!(e.kind, ErrorKind::ExpectedEquals);
    assert_eq!(e.position, 4);
    assert_eq!(e.labels(), vec!["variable"]);
    let e = failed(variable("name:\"x\""));
    assert_eq!(e.kind, ErrorKind::ExpectedEquals);
    assert_eq!(e.position, 4);
    let e = failed(variable("name="));
    assert_eq!(e.kind, ErrorKind::ExpectedValue);
    assert_eq!(e.position, 5);
    assert_eq!(e.labels(), vec!["variable", "value"]);
    let e = failed(variable("=\"x\""));
    assert_eq!(e.kind, ErrorKind::ExpectedIdentifier);
    assert_eq!(e.position, 0);
    assert_eq!(e.labels(), vec!["variable", "identifier"]);
}

#[test]
fn failure_inside_a_later_variable_is_reported_as_it_is() {
    let e = failed(tuple_value("{a=\"1\",b}"));
    assert_eq!(e.kind, ErrorKind::ExpectedEquals);
    assert_eq!(e.position, 8);
    let e = failed(tuple_value("{a=\"1\",b={c=}}"));
    assert_eq!(e.kind, ErrorKind::ExpectedValue);
    assert_eq!(e.position, 12);
    assert_eq!(
        e.labels(),
        vec!["tuple_value", "variable", "value", "tuple_value", "variable", "value"]
    );
}

#[test]
fn list_without_closing_bracket() {
    let e = failed(list("["));
    assert_eq!(e.kind, ErrorKind::UnterminatedList);
    assert_eq!(e.position, 1);
    let e = failed(list("[  "));
    assert_eq!(e.kind, ErrorKind::UnterminatedList);
    assert_eq!(e.position, 3);
    let e = failed(list("[\"a\""));
    assert_eq!(e.kind, ErrorKind::UnterminatedList);
    assert_eq!(e.position, 4);
    let e = failed(list("[a=\"1\"}"));
    assert_eq!(e.kind, ErrorKind::UnterminatedList);
    assert_eq!(e.position, 6);
    assert_eq!(e.labels(), vec!["list"]);
}

#[test]
fn list_whose_first_element_is_neither_variable_nor_value() {
    for input in ["[1]", "[,]", "[}]", "[=\"a\"]"] {
        let e = failed(list(input));
        assert_eq!(e.kind, ErrorKind::ExpectedListElement);
        assert_eq!(e.position, 1);
        assert_eq!(e.labels(), vec!["list"]);
    }
}

#[test]
fn list_reports_the_attempt_that_got_further() {
    let e = failed(list("[x]"));
    assert_eq!(e.kind, ErrorKind::ExpectedEquals);
    assert_eq!(e.position, 2);
    assert_eq!(e.labels(), vec!["list", "variable_list", "variable"]);
    let e = failed(list("[{a}]"));
    assert_eq!(e.kind, ErrorKind::ExpectedEquals);
    assert_eq!(e.position, 3);
    assert_eq!(
        e.labels(),
        vec!["list", "value_list", "value", "tuple_value", "variable"]
    );
}

#[test]
fn context_runs_from_the_outermost_production_inwards() {
    let e = failed(value("{a=[}"));
    assert_eq!(e.kind, ErrorKind::ExpectedListElement);
    assert_eq!(e.position, 4);
    assert_eq!(
        e.labels(),
        vec!["value", "tuple_value", "variable", "value", "list"]
    );
    let starts: Vec<usize> = e.context.iter().map(|f| f.start).collect();
    assert_eq!(starts, vec![0, 0, 1, 3, 3]);
    assert_eq!(e.context[2].production, Production::Variable);
    assert_eq!(Production::TupleValue.name(), "tuple_value");
}

#[test]
fn truncated_values_are_unterminated() {
    let cases = [
        ("\"abc\"", ErrorKind::UnterminatedString),
        ("\"a\\\"b\"", ErrorKind::UnterminatedString),
        ("{}", ErrorKind::UnterminatedTuple),
        ("[]", ErrorKind::UnterminatedList),
        ("[  ]", ErrorKind::UnterminatedList),
        ("{a=\"1\",b=\"2\"}", ErrorKind::UnterminatedTuple),
        ("{a={b=\"1\"}}", ErrorKind::UnterminatedTuple),
        ("{a=[\"1\"]}", ErrorKind::UnterminatedTuple),
        ("[a=\"1\",b=\"2\"]", ErrorKind::UnterminatedList),
        ("[{a=\"1\"},{b=\"2\"}]", ErrorKind::UnterminatedList),
        ("[[],[[]]]", ErrorKind::UnterminatedList),
        ("[\"a\",\"b\"]", ErrorKind::UnterminatedList),
    ];
    for (input, kind) in cases {
        assert_eq!(value(input).unwrap().0, "");
        let truncated = &input[..input.len() - 1];
        let e = failed(value(truncated));
        assert_eq!(e.kind, kind);
        assert_eq!(e.position, truncated.len());
    }
    let e = failed(variable("a={b=\"x\""));
    assert_eq!(e.kind, ErrorKind::UnterminatedTuple);
    assert_eq!(e.position, 8);
}

#[test]
fn nesting_up_to_the_limit() {
    assert_eq!(MAX_NESTING_DEPTH, 128);
    let deepest = nested("[", "]", MAX_NESTING_DEPTH);
    assert_eq!(value(&deepest).unwrap().0, "");
    let deepest = nested("{a=", "}", MAX_NESTING_DEPTH - 1).replace("=}", "={}}");
    assert_eq!(value(&deepest).unwrap().0, "");
}

#[test]
fn nesting_beyond_the_limit() {
    let too_deep = nested("[", "]", MAX_NESTING_DEPTH + 1);
    let e = failed(value(&too_deep));
    assert_eq!(e.kind, ErrorKind::NestingTooDeep);
    assert_eq!(e.position, MAX_NESTING_DEPTH);
    let far_too_deep = nested("[", "]", 100_000);
    let e = failed(value(&far_too_deep));
    assert_eq!(e.kind, ErrorKind::NestingTooDeep);
    assert_eq!(e.position, MAX_NESTING_DEPTH);
    let e = failed(list(&too_deep));
    assert_eq!(e.kind, ErrorKind::NestingTooDeep);
    assert_eq!(e.position, MAX_NESTING_DEPTH);
    assert_eq!(list(&nested("[", "]", MAX_NESTING_DEPTH)).unwrap().0, "");
    let in_a_tuple = format!("{{a={}", "[".repeat(MAX_NESTING_DEPTH + 2));
    let e = failed(tuple_value(&in_a_tuple));
    assert_eq!(e.kind, ErrorKind::NestingTooDeep);
    assert_eq!(e.position, 3 + MAX_NESTING_DEPTH - 1);
}

#[test]
fn identifier_is_the_longest_run() {
    assert_eq!(identifier("thread-id=\"0\"").unwrap(), ("=\"0\"", "thread-id"));
    assert_eq!(identifier("_private9 x").unwrap(), (" x", "_private9"));
    assert_eq!(identifier("-dash").unwrap(), ("", "-dash"));
    assert_eq!(identifier("a").unwrap(), ("", "a"));
    assert_eq!(identifier("a.b").unwrap(), (".b", "a"));
    assert_eq!(identifier("Z9_-z\u{e9}").unwrap(), ("\u{e9}", "Z9_-z"));
}

#[test]
fn identifier_needs_a_letter_underscore_or_hyphen_first() {
    for input in ["", "9lives", "=x", " a", "\u{e9}t\u{e9}", "\"a\""] {
        let e = failed(identifier(input));
        assert_eq!(e.kind, ErrorKind::ExpectedIdentifier);
        assert_eq!(e.position, 0);
        assert_eq!(e.labels(), vec!["identifier"]);
    }
}

#[test]
fn blank_before_a_closing_bracket() {
    assert_eq!(empty("]").unwrap(), ("]", ListValue::Empty));
    assert_eq!(empty(" \t]x").unwrap(), ("]x", ListValue::Empty));
    let e = failed(empty("  x]"));
    assert_eq!(e.kind, ErrorKind::UnterminatedList);
    assert_eq!(e.position, 2);
    let e = failed(empty(""));
    assert_eq!(e.kind, ErrorKind::UnterminatedList);
    assert_eq!(e.position, 0);
}

#[test]
fn leading_blank_is_skipped() {
    assert_eq!(ws("  \t\r\n x y "), "x y ");
    assert_eq!(ws("x"), "x");
    assert_eq!(ws("   "), "");
    assert_eq!(ws(""), "");
    assert_eq!(ws("\u{a0}x"), "\u{a0}x");
}

#[test]
fn containers_from_vectors() {
    assert_eq!(TupleValue::from(Vec::new()), TupleValue::Empty);
    assert_eq!(
        TupleValue::from(vec![Variable("a", text("1"))]),
        TupleValue::Data(vec![Variable("a", text("1"))])
    );
    assert_eq!(ListValue::from(Vec::<Variable>::new()), ListValue::Empty);
    assert_eq!(
        ListValue::from(vec![Variable("a", text("1"))]),
        ListValue::VariableList(vec![Variable("a", text("1"))])
    );
    assert_eq!(
        ListValue::from(Vec::<Value>::new()),
        ListValue::ValueList(Vec::new())
    );
    assert_eq!(
        ListValue::from(vec![text("1")]),
        ListValue::ValueList(vec![text("1")])
    );
    assert_eq!(ListValue::default(), ListValue::Empty);
    assert_eq!(TupleValue::default(), TupleValue::Empty);
    assert_eq!(Value::from("x"), text("x"));
}

#[test]
fn failure_names_the_variables_around_it() {
    let input = "{frame={args=[{name=\"argc\",value=}]}}";
    let e = failed(value(input));
    assert_eq!(e.kind, ErrorKind::ExpectedValue);
    assert_eq!(e.position, 33);
    let names: Vec<&str> = e
        .context
        .iter()
        .filter_map(|frame| variable_name(input, frame))
        .collect();
    assert_eq!(names, vec!["frame", "args", "value"]);
    assert_eq!(variable_name(input, &e.context[0]), None);
}

fn write_variables(vars: &[Variable<'_>], out: &mut String) {
    for (i, Variable(name, v)) in vars.iter().enumerate() {
        if i > 0 {
            out.push(',');
        }
        out.push_str(name);
        out.push('=');
        write_value(v, out);
    }
}

fn write_value(v: &Value<'_>, out: &mut String) {
    match v {
        Value::Const(s) => {
            out.push('"');
            out.push_str(&escape(s));
            out.push('"');
        }
        Value::Tuple(TupleValue::Empty) => out.push_str("{}"),
        Value::Tuple(TupleValue::Data(vars)) => {
            out.push('{');
            write_variables(vars, out);
            out.push('}');
        }
        Value::List(ListValue::Empty) => out.push_str("[]"),
        Value::List(ListValue::VariableList(vars)) => {
            out.push('[');
            write_variables(vars, out);
            out.push(']');
        }
        Value::List(ListValue::ValueList(items)) => {
            out.push('[');
            for (i, item) in items.iter().enumerate() {
                if i > 0 {
                    out.push(',');
                }
                write_value(item, out);
            }
            out.push(']');
        }
    }
}

#[test]
fn written_values_are_read_back() {
    let values = vec![
        text(""),
        text("a \"quoted\" \\ word"),
        Value::Tuple(TupleValue::Empty),
        Value::List(ListValue::Empty),
        Value::Tuple(TupleValue::Data(vec![
            Variable("thread-id", text("1")),
            Variable("_x", Value::List(ListValue::Empty)),
            Variable("-y", Value::Tuple(TupleValue::Empty)),
            Variable("thread-id", text("2")),
        ])),
        Value::List(ListValue::VariableList(vec![
            Variable("frame", Value::Tuple(TupleValue::Data(vec![Variable("level", text("0"))]))),
            Variable("frame", Value::Tuple(TupleValue::Data(vec![Variable("level", text("1"))]))),
        ])),
        Value::List(ListValue::ValueList(vec![
            text("{not a tuple}"),
            Value::List(ListValue::ValueList(vec![text("[")])),
            Value::Tuple(TupleValue::Data(vec![Variable(
                "a",
                Value::List(ListValue::VariableList(vec![Variable("b", text(","))])),
            )])),
        ])),
    ];
    for v in &values {
        let mut written = String::new();
        write_value(v, &mut written);
        let (rest, found) = value(&written).unwrap();
        assert_eq!(rest, "");
        assert_eq!(&found, v);
        written.push_str(",next");
        let (rest, found) = value(&written).unwrap();
        assert_eq!(rest, ",next");
        assert_eq!(&found, v);
    }
}

#[test]
fn every_scalar_borrows_unless_it_holds_an_escape() {
    let (_, v) = value("{a=\"plain\",b=[\"x\\ty\",\"z\"],c=[d=\"q\\\"\",e=\"\"]}").unwrap();
    let vars = match v {
        Value::Tuple(TupleValue::Data(vars)) => vars,
        other => panic!("parsed {:?}", other),
    };
    assert!(matches!(&vars[0].1, Value::Const(Cow::Borrowed("plain"))));
    match &vars[1].1 {
        Value::List(ListValue::ValueList(items)) => {
            assert!(matches!(&items[0], Value::Const(Cow::Owned(s)) if s == "x\ty"));
            assert!(matches!(&items[1], Value::Const(Cow::Borrowed("z"))));
        }
        other => panic!("parsed {:?}", other),
    }
    match &vars[2].1 {
        Value::List(ListValue::VariableList(inner)) => {
            assert!(matches!(&inner[0].1, Value::Const(Cow::Owned(s)) if s == "q\""));
            assert!(matches!(&inner[1].1, Value::Const(Cow::Borrowed(""))));
        }
        other => panic!("parsed {:?}", other),
    }
}
