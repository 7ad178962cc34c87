use std::borrow::Cow;

use rust_mi::parser::error::ParseError;
use rust_mi::parser::output_types::{ListValue, OutputClass, TupleValue, Value, Variable};
use rust_mi::parser::strings::parse_string;
use rust_mi::parser::{
    async_class, async_output, list, result_class, result_list, tuple_value, value_list, variable,
};

fn constant(text: &str) -> Value<'_> {
    Value::Const(Cow::from(text))
}

fn failure<T: std::fmt::Debug>(r: Result<T, ParseError>) -> ParseError {
    match r {
        Ok(found) => panic!("parsed {:?}", found),
        Err(e) => e,
    }
}

#[test]
fn test_async_output() {
    let data = "stopped,reason=\"breakpoint-hit\",disp=\"keep\",bkptno=\"1\",thread-id=\"0\",\
                frame={addr=\"0x08048564\",func=\"main\",args=[{name=\"argc\",value=\"1\"},\
                {name=\"argv\",value=\"0xbfc4d4d4\"}],file=\"myprog.c\",fullname=\"/home/\
                nickrob/myprog.c\",line=\"68\",arch=\"i386:x86_64\"}";
    let (rest, (class, results)) = async_output(data).unwrap();
    assert_eq!(rest, "");
    assert_eq!(class, OutputClass::Stopped);
    assert_eq!(results.len(), 5);
    assert_eq!(results[0], Variable("reason", constant("breakpoint-hit")));
    assert_eq!(results[1], Variable("disp", constant("keep")));
    assert_eq!(results[2], Variable("bkptno", constant("1")));
    assert_eq!(results[3], Variable("thread-id", constant("0")));
    assert_eq!(
        results[4],
        Variable(
            "frame",
            Value::Tuple(TupleValue::Data(vec![
                Variable("addr", constant("0x08048564")),
                Variable("func", constant("main")),
                Variable(
                    "args",
                    Value::List(ListValue::ValueList(vec![
                        Value::Tuple(TupleValue::Data(vec![
                            Variable("name", constant("argc")),
                            Variable("value", constant("1")),
                        ])),
                        Value::Tuple(TupleValue::Data(vec![
                            Variable("name", constant("argv")),
                            Variable("value", constant("0xbfc4d4d4")),
                        ])),
                    ]))
                ),
                Variable("file", constant("myprog.c")),
                Variable("fullname", constant("/home/nickrob/myprog.c")),
                Variable("line", constant("68")),
                Variable("arch", constant("i386:x86_64")),
            ]))
        )
    );
}

#[test]
fn test_result_list() {
    let data = "frame={addr=\"0x08048564\",func=\"main\",args=[{name=\"argc\",value=\"1\"},\
                {name=\"argv\",value=\"0xbfc4d4d4\"}],file=\"myprog.c\",fullname=\"/home/\
                nickrob/myprog.c\",line=\"68\",arch=\"i386:x86_64\"},data=\"1\",";
    let (rest, results) = result_list(data).unwrap();
    assert_eq!(rest, ",");
    assert_eq!(results.len(), 2);
    assert_eq!(results[0].0, "frame");
    assert_eq!(results[1], Variable("data", constant("1")));
}

#[test]
fn test_async_class() {
    let data = "stopped";
    let result = OutputClass::Stopped;
    assert_eq!(async_class(data).unwrap(), ("", result));
    let data = "whatever";
    let result = OutputClass::Unknown("whatever");
    assert_eq!(async_class(data).unwrap(), ("", result))
}

#[test]
fn test_result_class() {
    let data = "done";
    let result = OutputClass::Done;
    assert_eq!(result_class(data).unwrap(), ("", result))
}

#[test]
fn test_emtpy_list() {
    let data = "[]";
    let result = Value::List(ListValue::Empty);
    assert_eq!(list(data).unwrap(), ("", result))
}

#[test]
fn test_list_tuple() {
    let data = "[{name=\"argc\",value=\"1\"},{name=\"argv\",value=\"0xbfc4d4d4\"}]";
    let result = Value::List(ListValue::ValueList(vec![
        Value::Tuple(TupleValue::Data(vec![
            Variable("name", Value::Const(Cow::from("argc"))),
            Variable("value", Value::Const(Cow::from("1"))),
        ])),
        Value::Tuple(TupleValue::Data(vec![
            Variable("name", Value::Const(Cow::from("argv"))),
            Variable("value", Value::Const(Cow::from("0xbfc4d4d4"))),
        ])),
    ]));
    assert_eq!(list(data).unwrap(), ("", result))
}

#[test]
fn test_list_variables() {
    let data = "[type=\"breakpoint\"]";
    let result = Value::List(ListValue::VariableList(vec![Variable(
        "type",
        Value::Const(Cow::from("breakpoint")),
    )]));
    assert_eq!(list(data).unwrap(), ("", result))
}

#[test]
fn test_tuple() {
    let data = "{type=\"breakpoint\"}";
    let result = Value::Tuple(TupleValue::Data(vec![Variable(
        "type",
        Value::Const(Cow::from("breakpoint")),
    )]));
    assert_eq!(tuple_value(data).unwrap(), ("", result))
}

#[test]
fn test_empty_tuple() {
    assert_eq!(
        tuple_value("{}").unwrap(),
        ("", Value::Tuple(TupleValue::Empty))
    )
}

#[test]
fn test_value_list() {
    let data = "{name=\"argc\",value=\"1\"},{name=\"argv\",value=\"0xbfc4d4d4\"}";
    let result = ListValue::ValueList(vec![
        Value::Tuple(TupleValue::Data(vec![
            Variable("name", Value::Const(Cow::from("argc"))),
            Variable("value", Value::Const(Cow::from("1"))),
        ])),
        Value::Tuple(TupleValue::Data(vec![
            Variable("name", Value::Const(Cow::from("argv"))),
            Variable("value", Value::Const(Cow::from("0xbfc4d4d4"))),
        ])),
    ]);
    assert_eq!(value_list(data).unwrap(), ("", result))
}

#[test]
fn test_tuple_variable() {
    let data = "args=[{name=\"argc\",value=\"1\"},{name=\"argv\",value=\"0xbfc4d4d4\"}]";
    let result = Variable(
        "args",
        Value::List(ListValue::ValueList(vec![
            Value::Tuple(TupleValue::Data(vec![
                Variable("name", Value::Const(Cow::from("argc"))),
                Variable("value", Value::Const(Cow::from("1"))),
            ])),
            Value::Tuple(TupleValue::Data(vec![
                Variable("name", Value::Const(Cow::from("argv"))),
                Variable("value", Value::Const(Cow::from("0xbfc4d4d4"))),
            ])),
        ])),
    );
    assert_eq!(variable(data).unwrap(), ("", result))
}

#[test]
fn test_parse_string() {
    let data = "\"/home/nikita/pepe.c\"";
    assert_eq!(
        parse_string(data).unwrap(),
        ("", String::from("/home/nikita/pepe.c"))
    )
}
