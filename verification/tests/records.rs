use std::borrow::Cow;

use rust_mi::parser::error::{ErrorKind, ParseError};
use rust_mi::parser::output_types::{
    AsyncKind, AsyncOutput, ListValue, OutputClass, OutputData, Output, StreamOutput, Token,
    TupleValue, Value, Variable, OOB,
};
use rust_mi::parser::{
    async_class, async_output, async_record, async_record_kind, exec_async_record,
    notify_async_record, oob_record, parse_mi_output, result_class, result_list, result_record,
    status_async_record, stream_record, termination, token, Parser,
};

fn text(s: &str) -> Value<'_> {
    Value::Const(Cow::from(s))
}

fn failed<T: std::fmt::Debug>(r: Result<T, ParseError>) -> ParseError {
    match r {
        Ok(found) => panic!("parsed {:?}", found),
        Err(e) => e,
    }
}

#[test]
fn exec_async_record_with_token() {
    let (rest, record) = parse_mi_output("123*stopped,reason=\"x\"").unwrap();
    assert_eq!(rest, "");
    assert_eq!(
        record,
        Output::OOBRecord(OOB::AsyncRecord(AsyncOutput::ExeAsync(OutputData(
            Some(Token(123)),
            OutputClass::Stopped,
            vec![Variable("reason", text("x"))],
        ))))
    );
}

#[test]
fn result_record_without_results() {
    let (rest, record) = parse_mi_output("^done").unwrap();
    assert_eq!(rest, "");
    assert_eq!(
        record,
        Output::ResultRecord(OutputData(None, OutputClass::Done, Vec::new()))
    );
}

#[test]
fn result_record_with_token_results_and_line_end() {
    let input = "42^done,bkpt={number=\"1\",type=\"breakpoint\"},thread-groups=[\"i1\"]\r\n";
    let (rest, record) = parse_mi_output(input).unwrap();
    assert_eq!(rest, "");
    assert_eq!(
        record,
        Output::ResultRecord(OutputData(
            Some(Token(42)),
            OutputClass::Done,
            vec![
                Variable(
                    "bkpt",
                    Value::Tuple(TupleValue::Data(vec![
                        Variable("number", text("1")),
                        Variable("type", text("breakpoint")),
                    ]))
                ),
                Variable(
                    "thread-groups",
                    Value::List(ListValue::ValueList(vec![text("i1")]))
                ),
            ],
        ))
    );
    assert_eq!(result_record(input).unwrap().0, "");
}

#[test]
fn every_result_class() {
    let cases = [
        ("^done", OutputClass::Done),
        ("^running", OutputClass::Running),
        ("^connected", OutputClass::Connected),
        ("^error", OutputClass::Error),
        ("^exit", OutputClass::Exit),
    ];
    for (input, class) in cases {
        let (rest, data) = result_record(input).unwrap();
        assert_eq!(rest, "");
        assert_eq!(data, OutputData(None, class, Vec::new()));
    }
    assert_eq!(result_class("running").unwrap(), ("", OutputClass::Running));
    assert_eq!(result_class("connected,").unwrap(), (",", OutputClass::Connected));
    assert_eq!(result_class("errors").unwrap(), ("s", OutputClass::Error));
    assert_eq!(result_class("exit\n").unwrap(), ("\n", OutputClass::Exit));
}

#[test]
fn unknown_result_class() {
    for input in ["", "don", "Done", "stopped", " done"] {
        let e = failed(result_class(input));
        assert_eq!(e.kind, ErrorKind::ExpectedIdentifier);
        assert_eq!(e.position, 0);
        assert_eq!(e.labels(), vec!["result_class"]);
    }
    let e = failed(parse_mi_output("7^finished"));
    assert_eq!(e.kind, ErrorKind::ExpectedIdentifier);
    assert_eq!(e.position, 2);
    assert_eq!(e.labels(), vec!["output", "result_record", "result_class"]);
}

#[test]
fn error_record_with_message() {
    let (rest, data) = result_record("^error,msg=\"No symbol \\\"foo\\\" in current context.\"\n")
        .unwrap();
    assert_eq!(rest, "");
    assert_eq!(
        data,
        OutputData(
            None,
            OutputClass::Error,
            vec![Variable("msg", text("No symbol \"foo\" in current context."))]
        )
    );
}

#[test]
fn line_end_is_consumed_once() {
    assert_eq!(parse_mi_output("^done\n").unwrap().0, "");
    assert_eq!(parse_mi_output("^done\r\n").unwrap().0, "");
    assert_eq!(parse_mi_output("^done\n\n").unwrap().0, "\n");
    assert_eq!(parse_mi_output("^done\r").unwrap().0, "\r");
    assert_eq!(parse_mi_output("^done\r\n(gdb)").unwrap().0, "(gdb)");
    assert_eq!(parse_mi_output("^done next").unwrap().0, " next");
}

#[test]
fn comma_after_the_class_needs_results() {
    let e = failed(parse_mi_output("^done,"));
    assert_eq!(e.kind, ErrorKind::ExpectedVariable);
    assert_eq!(e.position, 6);
    let e = failed(parse_mi_output("^done,\"x\""));
    assert_eq!(e.kind, ErrorKind::ExpectedVariable);
    assert_eq!(e.position, 6);
    let e = failed(parse_mi_output("^done,a"));
    assert_eq!(e.kind, ErrorKind::ExpectedEquals);
    assert_eq!(e.position, 7);
    assert_eq!(
        e.labels(),
        vec!["output", "result_record", "result_list", "variable"]
    );
}

#[test]
fn async_classes() {
    assert_eq!(async_class("stopped,").unwrap(), (",", OutputClass::Stopped));
    assert_eq!(
        async_class("running,thread-id=\"all\"").unwrap(),
        (",thread-id=\"all\"", OutputClass::Unknown("running"))
    );
    assert_eq!(
        async_class("thread-group-added,id=\"i1\"").unwrap(),
        (",id=\"i1\"", OutputClass::Unknown("thread-group-added"))
    );
    assert_eq!(async_class("stop").unwrap(), ("", OutputClass::Unknown("stop")));
    assert_eq!(async_class("x2_y z").unwrap(), (" z", OutputClass::Unknown("x2_y")));
}

#[test]
fn async_class_needs_a_letter_first() {
    for input in ["", ",", "-x", "_x", "9", "\"stopped\""] {
        let e = failed(async_class(input));
        assert_eq!(e.kind, ErrorKind::ExpectedIdentifier);
        assert_eq!(e.position, 0);
        assert_eq!(e.labels(), vec!["async_class"]);
    }
}

#[test]
fn async_output_needs_results() {
    let e = failed(async_output("stopped"));
    assert_eq!(e.kind, ErrorKind::ExpectedVariable);
    assert_eq!(e.position, 7);
    assert_eq!(e.labels(), vec!["async_output"]);
    let e = failed(async_output("stopped,"));
    assert_eq!(e.kind, ErrorKind::ExpectedVariable);
    assert_eq!(e.position, 8);
    let (rest, (class, results)) = async_output("stopped,a=\"1\"\n").unwrap();
    assert_eq!(rest, "\n");
    assert_eq!(class, OutputClass::Stopped);
    assert_eq!(results, vec![Variable("a", text("1"))]);
}

#[test]
fn the_three_kinds_of_async_record() {
    let data = || {
        OutputData(
            Some(Token(5)),
            OutputClass::Unknown("x"),
            vec![Variable("a", text("1"))],
        )
    };
    assert_eq!(
        async_record("5*x,a=\"1\"").unwrap(),
        ("", AsyncOutput::ExeAsync(data()))
    );
    assert_eq!(
        async_record("5+x,a=\"1\"").unwrap(),
        ("", AsyncOutput::StatusAsync(data()))
    );
    assert_eq!(
        async_record("5=x,a=\"1\"\r\nrest").unwrap(),
        ("rest", AsyncOutput::NotifyAsync(data()))
    );
    assert_eq!(
        exec_async_record("5*x,a=\"1\"").unwrap(),
        ("", AsyncOutput::ExeAsync(data()))
    );
    assert_eq!(
        status_async_record("5+x,a=\"1\"").unwrap(),
        ("", AsyncOutput::StatusAsync(data()))
    );
    assert_eq!(
        notify_async_record("5=x,a=\"1\"").unwrap(),
        ("", AsyncOutput::NotifyAsync(data()))
    );
    assert_eq!(
        async_record_kind("5+x,a=\"1\"", AsyncKind::Status).unwrap(),
        ("", AsyncOutput::StatusAsync(data()))
    );
}

#[test]
fn async_record_of_another_kind() {
    let e = failed(exec_async_record("5+x,a=\"1\""));
    assert_eq!(e.kind, ErrorKind::UnrecognizedRecordMarker);
    assert_eq!(e.position, 1);
    assert_eq!(e.labels(), vec!["exec_async"]);
    let e = failed(status_async_record("*x,a=\"1\""));
    assert_eq!(e.kind, ErrorKind::UnrecognizedRecordMarker);
    assert_eq!(e.labels(), vec!["status_async"]);
    let e = failed(notify_async_record("^done"));
    assert_eq!(e.kind, ErrorKind::UnrecognizedRecordMarker);
    assert_eq!(e.labels(), vec!["notify_async"]);
    let e = failed(async_record("~\"x\""));
    assert_eq!(e.kind, ErrorKind::UnrecognizedRecordMarker);
    assert_eq!(e.position, 0);
}

#[test]
fn notify_record_as_a_debugger_writes_it() {
    let input = "=thread-group-added,id=\"i1\"\n";
    let (rest, record) = parse_mi_output(input).unwrap();
    assert_eq!(rest, "");
    assert_eq!(
        record,
        Output::OOBRecord(OOB::AsyncRecord(AsyncOutput::NotifyAsync(OutputData(
            None,
            OutputClass::Unknown("thread-group-added"),
            vec![Variable("id", text("i1"))],
        ))))
    );
}

#[test]
fn stopped_record_as_a_debugger_writes_it() {
    let input = "*stopped,reason=\"breakpoint-hit\",disp=\"keep\",bkptno=\"1\",thread-id=\"0\",\
                 frame={addr=\"0x08048564\",func=\"main\",args=[{name=\"argc\",value=\"1\"},\
                 {name=\"argv\",value=\"0xbfc4d4d4\"}],file=\"myprog.c\",fullname=\"/home/\
                 nickrob/myprog.c\",line=\"68\",arch=\"i386:x86_64\"}\r\n";
    let (rest, record) = parse_mi_output(input).unwrap();
    assert_eq!(rest, "");
    match record {
        Output::OOBRecord(OOB::AsyncRecord(AsyncOutput::ExeAsync(OutputData(
            token,
            class,
            results,
        )))) => {
            assert_eq!(token, None);
            assert_eq!(class, OutputClass::Stopped);
            assert_eq!(results.len(), 5);
            assert_eq!(results[3], Variable("thread-id", text("0")));
        }
        other => panic!("parsed {:?}", other),
    }
}

#[test]
fn stream_records_carry_the_text_as_written() {
    assert_eq!(
        stream_record("~\"hello\\n\"\n").unwrap(),
        ("", StreamOutput::Console("hello\\n"))
    );
    assert_eq!(
        stream_record("@\"out\"").unwrap(),
        ("", StreamOutput::Target("out"))
    );
    assert_eq!(
        stream_record("&\"a \\\"b\\\"\"\r\nnext").unwrap(),
        ("next", StreamOutput::Log("a \\\"b\\\""))
    );
    assert_eq!(stream_record("~\"\"").unwrap(), ("", StreamOutput::Console("")));
    assert_eq!(
        parse_mi_output("~\"GNU gdb\"\n").unwrap(),
        (
            "",
            Output::OOBRecord(OOB::StreamRecord(StreamOutput::Console("GNU gdb")))
        )
    );
    assert_eq!(
        oob_record("&\"warning\"").unwrap(),
        ("", OOB::StreamRecord(StreamOutput::Log("warning")))
    );
}

#[test]
fn token_before_a_stream_record_is_dropped() {
    assert_eq!(
        parse_mi_output("12~\"x\"").unwrap(),
        (
            "",
            Output::OOBRecord(OOB::StreamRecord(StreamOutput::Console("x")))
        )
    );
}

#[test]
fn stream_record_failures() {
    let e = failed(stream_record("~hello"));
    assert_eq!(e.kind, ErrorKind::ExpectedValue);
    assert_eq!(e.position, 1);
    assert_eq!(e.labels(), vec!["stream_record"]);
    let e = failed(stream_record("~\"hello"));
    assert_eq!(e.kind, ErrorKind::UnterminatedString);
    assert_eq!(e.position, 7);
    let e = failed(stream_record("~\"a\\xb\""));
    assert_eq!(e.kind, ErrorKind::InvalidEscape);
    assert_eq!(e.position, 3);
    let e = failed(stream_record("\"hello\""));
    assert_eq!(e.kind, ErrorKind::UnrecognizedRecordMarker);
    assert_eq!(e.position, 0);
}

#[test]
fn unknown_record_marker() {
    let cases = [("", 0), ("#x", 0), ("done", 0), ("123", 3), ("123 ^done", 3), ("(gdb)", 0)];
    for (input, position) in cases {
        let e = failed(parse_mi_output(input));
        assert_eq!(e.kind, ErrorKind::UnrecognizedRecordMarker);
        assert_eq!(e.position, position);
        assert_eq!(e.labels(), vec!["output"]);
    }
    let e = failed(result_record("*stopped,a=\"1\""));
    assert_eq!(e.kind, ErrorKind::UnrecognizedRecordMarker);
    assert_eq!(e.labels(), vec!["result_record"]);
    let e = failed(oob_record("^done"));
    assert_eq!(e.kind, ErrorKind::UnrecognizedRecordMarker);
    assert_eq!(e.labels(), vec!["oob_record"]);
}

#[test]
fn truncated_records_are_unterminated() {
    let cases = [
        ("1*stopped,reason=\"x\"", ErrorKind::UnterminatedString),
        ("^done,a={b=\"c\"}", ErrorKind::UnterminatedTuple),
        ("=x,a=[\"b\",\"c\"]", ErrorKind::UnterminatedList),
        ("+x,a=[]", ErrorKind::UnterminatedList),
        ("~\"text\"", ErrorKind::UnterminatedString),
        ("9&\"\"", ErrorKind::UnterminatedString),
    ];
    for (input, kind) in cases {
        assert_eq!(parse_mi_output(input).unwrap().0, "");
        let truncated = &input[..input.len() - 1];
        let e = failed(parse_mi_output(truncated));
        assert_eq!(e.kind, kind);
        assert_eq!(e.position, truncated.len());
    }
}

#[test]
fn tokens() {
    assert_eq!(token("123^done").unwrap(), ("^done", Some(Token(123))));
    assert_eq!(token("^done").unwrap(), ("^done", None));
    assert_eq!(token("").unwrap(), ("", None));
    assert_eq!(token("0").unwrap(), ("", Some(Token(0))));
    assert_eq!(token("007x").unwrap(), ("x", Some(Token(7))));
    assert_eq!(token("-1").unwrap(), ("-1", None));
    assert_eq!(token("+1").unwrap(), ("+1", None));
    assert_eq!(token("1.5").unwrap(), (".5", Some(Token(1))));
}

#[test]
fn token_at_the_limit_of_its_range() {
    assert_eq!(
        token("4294967295^done").unwrap(),
        ("^done", Some(Token(u32::MAX)))
    );
    assert_eq!(token("4294967296^done").unwrap(), ("^done", None));
    assert_eq!(token("00004294967295").unwrap(), ("", Some(Token(u32::MAX))));
    assert_eq!(
        token("99999999999999999999999999999999999999^done").unwrap(),
        ("^done", None)
    );
    let (rest, record) = parse_mi_output("4294967296^done").unwrap();
    assert_eq!(rest, "");
    assert_eq!(
        record,
        Output::ResultRecord(OutputData(None, OutputClass::Done, Vec::new()))
    );
}

#[test]
fn result_lists() {
    let (rest, results) = result_list("a=\"1\",b={},c=[]\n").unwrap();
    assert_eq!(rest, "\n");
    assert_eq!(
        results,
        vec![
            Variable("a", text("1")),
            Variable("b", Value::Tuple(TupleValue::Empty)),
            Variable("c", Value::List(ListValue::Empty)),
        ]
    );
    let e = failed(result_list(""));
    assert_eq!(e.kind, ErrorKind::ExpectedIdentifier);
    assert_eq!(e.position, 0);
    assert_eq!(e.labels(), vec!["result_list", "variable", "identifier"]);
}

#[test]
fn prompt() {
    assert_eq!(termination("(gdb)").unwrap(), ("", ()));
    assert_eq!(termination("(gdb) \n").unwrap(), (" \n", ()));
    for input in ["", "(gdb", "gdb", " (gdb)", "(GDB)"] {
        let e = failed(termination(input));
        assert_eq!(e.kind, ErrorKind::UnrecognizedRecordMarker);
        assert_eq!(e.position, 0);
        assert_eq!(e.labels(), vec!["termination"]);
    }
}

#[test]
fn parser_at_offsets() {
    let parser = Parser::from("ab\u{e9}=\"x\",123^done");
    assert_eq!(parser.len(), 16);
    assert_eq!(parser.peek(2), Some('\u{e9}'));
    assert_eq!(parser.peek(16), None);
    assert!(parser.has_char(3, '='));
    assert!(!parser.has_char(16, '='));
    assert_eq!(parser.slice(4, 7), "\"x\"");
    assert_eq!(parser.rest(8), "123^done");
    assert_eq!(parser.rest(16), "");
    assert_eq!(parser.token_at(8), (Some(Token(123)), 11));
    let (data, end) = parser.result_record_at(8, 4).unwrap();
    assert_eq!(data, OutputData(Some(Token(123)), OutputClass::Done, Vec::new()));
    assert_eq!(end, 16);
    let (found, end) = parser.string_at(4).unwrap();
    assert_eq!(found, "x");
    assert_eq!(end, 7);
    let e = failed(parser.variable_at(0, 4));
    assert_eq!(e.kind, ErrorKind::ExpectedEquals);
    assert_eq!(e.position, 2);
    assert_eq!(e.context[0].start, 0);
}

#[test]
fn depth_given_to_the_parser() {
    let parser = Parser::from("[[\"x\"]]");
    assert!(parser.value_at(0, 2).is_ok());
    let e = failed(parser.value_at(0, 1));
    assert_eq!(e.kind, ErrorKind::NestingTooDeep);
    assert_eq!(e.position, 1);
    let e = failed(parser.value_at(0, 0));
    assert_eq!(e.kind, ErrorKind::NestingTooDeep);
    assert_eq!(e.position, 0);
    assert!(parser.value_at(2, 0).is_ok());
}

#[test]
fn results_end_before_a_comma_without_variable() {
    let (rest, results) = result_list("a=\"1\",b=\"2\",").unwrap();
    assert_eq!(rest, ",");
    assert_eq!(
        results,
        vec![Variable("a", text("1")), Variable("b", text("2"))]
    );
    let (rest, results) = result_list("a=\"1\",\"2\"").unwrap();
    assert_eq!(rest, ",\"2\"");
    assert_eq!(results, vec![Variable("a", text("1"))]);
    let (rest, (class, results)) = async_output("stopped,a=\"1\",").unwrap();
    assert_eq!(rest, ",");
    assert_eq!(class, OutputClass::Stopped);
    assert_eq!(results, vec![Variable("a", text("1"))]);
    let (rest, record) = parse_mi_output("3^done,a=\"1\",\n").unwrap();
    assert_eq!(rest, ",\n");
    assert_eq!(
        record,
        Output::ResultRecord(OutputData(
            Some(Token(3)),
            OutputClass::Done,
            vec![Variable("a", text("1"))]
        ))
    );
}

#[test]
fn results_fail_with_a_variable_that_began() {
    let e = failed(result_list("a=\"1\",b="));
    assert_eq!(e.kind, ErrorKind::ExpectedValue);
    assert_eq!(e.position, 8);
    assert_eq!(e.labels(), vec!["result_list", "variable", "value"]);
    let e = failed(result_list("a=\"1\",b"));
    assert_eq!(e.kind, ErrorKind::ExpectedEquals);
    assert_eq!(e.position, 7);
    let e = failed(parse_mi_output("*stopped,a=\"1\",b=\"2"));
    assert_eq!(e.kind, ErrorKind::UnterminatedString);
    assert_eq!(e.position, 19);
}
