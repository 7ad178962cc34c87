use rust_mi::dap::types::{
    ChecksumAlgorithm, ContinueArguments, ContinueRequest, ExceptionDetails, StackFrameFormat,
    SteppingGranularity, Thread, ThreadsResponse, ThreadsResponseBody,
};

fn details(message: &str, inner: Option<Vec<ExceptionDetails>>) -> ExceptionDetails {
    ExceptionDetails {
        evaluate_name: None,
        full_type_name: Some(String::from("std::runtime_error")),
        inner_exception: inner,
        message: Some(String::from(message)),
        stack_trace: None,
        short_type_name: Some(String::from("runtime_error")),
    }
}

#[test]
fn request_with_arguments() {
    let request = ContinueRequest {
        arguments: ContinueArguments { single_thread: Some(true), thread_id: 7 },
        command: String::from("continue"),
        seq: 12,
        type_: String::from("request"),
    };
    let copy = request.clone();
    assert_eq!(copy, request);
    assert_eq!(copy.arguments.thread_id, 7);
    let mut other = request.clone();
    other.arguments.single_thread = None;
    assert_ne!(other, request);
}

#[test]
fn response_with_a_body_of_threads() {
    let response = ThreadsResponse {
        body: ThreadsResponseBody {
            threads: vec![
                Thread { id: 1, name: String::from("main") },
                Thread { id: 2, name: String::from("worker") },
            ],
        },
        command: String::from("threads"),
        message: None,
        request_seq: 3,
        seq: 4,
        success: true,
        type_: String::from("response"),
    };
    assert_eq!(response.body.threads.len(), 2);
    assert_eq!(response.body.threads[1].name, "worker");
    assert_eq!(response.clone(), response);
}

#[test]
fn format_without_any_choice() {
    let format = StackFrameFormat::default();
    assert_eq!(format.hex, None);
    assert_eq!(format.include_all, None);
    assert_eq!(format.parameters, None);
    assert_eq!(format, StackFrameFormat::default());
}

#[test]
fn enumerations_compare_by_variant() {
    assert_eq!(ChecksumAlgorithm::Sha256, ChecksumAlgorithm::Sha256);
    assert_ne!(ChecksumAlgorithm::Sha1, ChecksumAlgorithm::Md5);
    assert_eq!(SteppingGranularity::Line.clone(), SteppingGranularity::Line);
    assert_ne!(SteppingGranularity::Statement, SteppingGranularity::Instruction);
}

#[test]
fn copy_of_nested_exception_details() {
    let innermost = details("cause of the cause", None);
    let inner = details("cause", Some(vec![innermost, details("sibling", Some(Vec::new()))]));
    let outer = details("failure", Some(vec![inner]));
    let copy = outer.clone();
    assert_eq!(copy, outer);
    let inner_copy = &copy.inner_exception.as_ref().unwrap()[0];
    assert_eq!(inner_copy.message.as_deref(), Some("cause"));
    let innermost_copies = inner_copy.inner_exception.as_ref().unwrap();
    assert_eq!(innermost_copies.len(), 2);
    assert_eq!(innermost_copies[0].message.as_deref(), Some("cause of the cause"));
    assert_eq!(innermost_copies[0].inner_exception, None);
    assert_eq!(innermost_copies[1].inner_exception, Some(Vec::new()));
    assert_eq!(copy.short_type_name.as_deref(), Some("runtime_error"));
}

#[test]
fn exception_details_without_anything() {
    let nothing = ExceptionDetails::default();
    assert_eq!(nothing.message, None);
    assert_eq!(nothing.inner_exception, None);
    assert_eq!(nothing.clone(), nothing);
}
