//! The messages and data types of the debug adapter protocol: requests,
//! responses, events, and the objects they carry.
//!
//! These are plain data. Field names follow the protocol's property names,
//! in snake case; `type_` stands for the property `type`.
use std::collections::BTreeMap;
use vstd::prelude::*;

verus! {

/// Properties of a breakpoint location returned from the 'breakpointLocations' request.
#[derive(Clone, PartialEq, Debug)]
pub struct BreakpointLocation {
    /// Optional start column of breakpoint location.
    pub column: Option<i64>,
    /// Optional end column of breakpoint location if the location covers a range.
    pub end_column: Option<i64>,
    /// Optional end line of breakpoint location if the location covers a range.
    pub end_line: Option<i64>,
    /// Start line of breakpoint location.
    pub line: i64,
}

#[derive(Clone, PartialEq, Debug)]
pub struct BreakpointLocationsResponseBody {
    /// Sorted set of possible breakpoint locations.
    pub breakpoints: Vec<BreakpointLocation>,
}

#[derive(Clone, PartialEq, Debug)]
pub struct BreakpointLocationsResponse {
    /// Contains request result if success is true and optional error details if success is false.
    pub body: BreakpointLocationsResponseBody,
    /// The command requested.
    pub command: String,
    /// Contains the raw error in short form if 'success' is false.
    /// This raw error might be interpreted by the frontend and is not shown in the UI.
    /// Some predefined values exist.
    pub message: Option<String>,
    /// Sequence number of the corresponding request.
    pub request_seq: i64,
    /// Sequence number (also known as message ID). For protocol messages of type 'request' this ID
    /// can be used to cancel the request.
    pub seq: i64,
    /// Outcome of the request.
    /// If true, the request was successful and the 'body' attribute may contain the result of the
    /// request.
    /// If the value is false, the attribute 'message' contains the error in short form and the
    /// 'body' may contain additional information (see 'ErrorResponse.body.error').
    pub success: bool,
    /// Message type.
    pub type_: String,
}

/// Arguments for 'cancel' request.
#[derive(Clone, PartialEq, Debug, Default)]
pub struct CancelArguments {
    /// The ID (attribute 'progressId') of the progress to cancel. If missing no progress is
    /// cancelled.
    /// Both a 'requestId' and a 'progressId' can be specified in one request.
    pub progress_id: Option<String>,
    /// The ID (attribute 'seq') of the request to cancel. If missing no request is cancelled.
    /// Both a 'requestId' and a 'progressId' can be specified in one request.
    pub request_id: Option<i64>,
}

#[derive(Clone, PartialEq, Debug)]
pub struct CancelRequest {
    /// Object containing arguments for the command.
    pub arguments: Option<CancelArguments>,
    /// The command to execute.
    pub command: String,
    /// Sequence number (also known as message ID). For protocol messages of type 'request' this ID
    /// can be used to cancel the request.
    pub seq: i64,
    /// Message type.
    pub type_: String,
}

/// Information about the capabilities of a debug adapter.
#[derive(Clone, PartialEq, Debug, Default)]
pub struct Capabilities {
    /// The set of additional module information exposed by the debug adapter.
    pub additional_module_columns: Option<Vec<ColumnDescriptor>>,
    /// The set of characters that should trigger completion in a REPL. If not specified, the UI
    /// should assume the '.' character.
    pub completion_trigger_characters: Option<Vec<String>>,
    /// Available exception filter options for the 'setExceptionBreakpoints' request.
    pub exception_breakpoint_filters: Option<Vec<ExceptionBreakpointsFilter>>,
    /// The debug adapter supports the 'suspendDebuggee' attribute on the 'disconnect' request.
    pub support_suspend_debuggee: Option<bool>,
    /// The debug adapter supports the 'terminateDebuggee' attribute on the 'disconnect' request.
    pub support_terminate_debuggee: Option<bool>,
    /// Checksum algorithms supported by the debug adapter.
    pub supported_checksum_algorithms: Option<Vec<ChecksumAlgorithm>>,
    /// The debug adapter supports the 'breakpointLocations' request.
    pub supports_breakpoint_locations_request: Option<bool>,
    /// The debug adapter supports the 'cancel' request.
    pub supports_cancel_request: Option<bool>,
    /// The debug adapter supports the 'clipboard' context value in the 'evaluate' request.
    pub supports_clipboard_context: Option<bool>,
    /// The debug adapter supports the 'completions' request.
    pub supports_completions_request: Option<bool>,
    /// The debug adapter supports conditional breakpoints.
    pub supports_conditional_breakpoints: Option<bool>,
    /// The debug adapter supports the 'configurationDone' request.
    pub supports_configuration_done_request: Option<bool>,
    /// The debug adapter supports data breakpoints.
    pub supports_data_breakpoints: Option<bool>,
    /// The debug adapter supports the delayed loading of parts of the stack, which requires that
    /// both the 'startFrame' and 'levels' arguments and an optional 'totalFrames' result of the
    /// 'StackTrace' request are supported.
    pub supports_delayed_stack_trace_loading: Option<bool>,
    /// The debug adapter supports the 'disassemble' request.
    pub supports_disassemble_request: Option<bool>,
    /// The debug adapter supports a (side effect free) evaluate request for data hovers.
    pub supports_evaluate_for_hovers: Option<bool>,
    /// The debug adapter supports 'filterOptions' as an argument on the 'setExceptionBreakpoints'
    /// request.
    pub supports_exception_filter_options: Option<bool>,
    /// The debug adapter supports the 'exceptionInfo' request.
    pub supports_exception_info_request: Option<bool>,
    /// The debug adapter supports 'exceptionOptions' on the setExceptionBreakpoints request.
    pub supports_exception_options: Option<bool>,
    /// The debug adapter supports function breakpoints.
    pub supports_function_breakpoints: Option<bool>,
    /// The debug adapter supports the 'gotoTargets' request.
    pub supports_goto_targets_request: Option<bool>,
    /// The debug adapter supports breakpoints that break execution after a specified number of
    /// hits.
    pub supports_hit_conditional_breakpoints: Option<bool>,
    /// The debug adapter supports adding breakpoints based on instruction references.
    pub supports_instruction_breakpoints: Option<bool>,
    /// The debug adapter supports the 'loadedSources' request.
    pub supports_loaded_sources_request: Option<bool>,
    /// The debug adapter supports logpoints by interpreting the 'logMessage' attribute of the
    /// SourceBreakpoint.
    pub supports_log_points: Option<bool>,
    /// The debug adapter supports the 'modules' request.
    pub supports_modules_request: Option<bool>,
    /// The debug adapter supports the 'readMemory' request.
    pub supports_read_memory_request: Option<bool>,
    /// The debug adapter supports restarting a frame.
    pub supports_restart_frame: Option<bool>,
    /// The debug adapter supports the 'restart' request. In this case a client should not
    /// implement 'restart' by terminating and relaunching the adapter but by calling the
    /// RestartRequest.
    pub supports_restart_request: Option<bool>,
    /// The debug adapter supports the 'setExpression' request.
    pub supports_set_expression: Option<bool>,
    /// The debug adapter supports setting a variable to a value.
    pub supports_set_variable: Option<bool>,
    /// The debug adapter supports the 'singleThread' property on the execution requests
    /// ('continue', 'next', 'stepIn', 'stepOut', 'reverseContinue', 'stepBack').
    pub supports_single_thread_execution_requests: Option<bool>,
    /// The debug adapter supports stepping back via the 'stepBack' and 'reverseContinue' requests.
    pub supports_step_back: Option<bool>,
    /// The debug adapter supports the 'stepInTargets' request.
    pub supports_step_in_targets_request: Option<bool>,
    /// The debug adapter supports stepping granularities (argument 'granularity') for the stepping
    /// requests.
    pub supports_stepping_granularity: Option<bool>,
    /// The debug adapter supports the 'terminate' request.
    pub supports_terminate_request: Option<bool>,
    /// The debug adapter supports the 'terminateThreads' request.
    pub supports_terminate_threads_request: Option<bool>,
    /// The debug adapter supports a 'format' attribute on the stackTraceRequest, variablesRequest,
    /// and evaluateRequest.
    pub supports_value_formatting_options: Option<bool>,
    /// The debug adapter supports the 'writeMemory' request.
    pub supports_write_memory_request: Option<bool>,
}

#[derive(Clone, PartialEq, Debug)]
pub struct CapabilitiesEventBody {
    /// The set of updated capabilities.
    pub capabilities: Capabilities,
}

#[derive(Clone, PartialEq, Debug)]
pub struct CapabilitiesEvent {
    /// Event-specific information.
    pub body: CapabilitiesEventBody,
    /// Type of event.
    pub event: String,
    /// Sequence number (also known as message ID). For protocol messages of type 'request' this ID
    /// can be used to cancel the request.
    pub seq: i64,
    /// Message type.
    pub type_: String,
}

/// The checksum of an item calculated by the specified algorithm.
#[derive(Clone, PartialEq, Debug)]
pub struct Checksum {
    /// The algorithm used to calculate this checksum.
    pub algorithm: ChecksumAlgorithm,
    /// Value of the checksum.
    pub checksum: String,
}

/// Names of checksum algorithms that may be supported by a debug adapter.
#[derive(Clone, PartialEq, Debug)]
pub enum ChecksumAlgorithm {
    Md5,
    Sha1,
    Sha256,
    Timestamp,
}

/// A ColumnDescriptor specifies what module attribute to show in a column of the ModulesView, how
/// to format it,
/// and what the column's label should be.
/// It is only used if the underlying UI actually supports this level of customization.
#[derive(Clone, PartialEq, Debug)]
pub struct ColumnDescriptor {
    /// Name of the attribute rendered in this column.
    pub attribute_name: String,
    /// Format to use for the rendered values in this column. TBD how the format strings looks
    /// like.
    pub format: Option<String>,
    /// Header UI label of column.
    pub label: String,
    /// Datatype of values in this column.  Defaults to 'string' if not specified.
    pub type_: Option<String>,
    /// Width of this column in characters (hint only).
    pub width: Option<i64>,
}

/// CompletionItems are the suggestions returned from the CompletionsRequest.
#[derive(Clone, PartialEq, Debug)]
pub struct CompletionItem {
    /// A human-readable string with additional information about this item, like type or symbol
    /// information.
    pub detail: Option<String>,
    /// The label of this completion item. By default this is also the text that is inserted when
    /// selecting this completion.
    pub label: String,
    /// This value determines how many characters are overwritten by the completion text.
    /// If missing the value 0 is assumed which results in the completion text being inserted.
    pub length: Option<i64>,
    /// Determines the length of the new selection after the text has been inserted (or replaced).
    /// The selection can not extend beyond the bounds of the completion text.
    /// If omitted the length is assumed to be 0.
    pub selection_length: Option<i64>,
    /// Determines the start of the new selection after the text has been inserted (or replaced).
    /// The start position must in the range 0 and length of the completion text.
    /// If omitted the selection starts at the end of the completion text.
    pub selection_start: Option<i64>,
    /// A string that should be used when comparing this item with other items. When `falsy` the
    /// label is used.
    pub sort_text: Option<String>,
    /// This value determines the location (in the CompletionsRequest's 'text' attribute) where the
    /// completion text is added.
    /// If missing the text is added at the location specified by the CompletionsRequest's 'column'
    /// attribute.
    pub start: Option<i64>,
    /// If text is not falsy then it is inserted instead of the label.
    pub text: Option<String>,
    /// The item's type. Typically the client uses this information to render the item in the UI
    /// with an icon.
    pub type_: Option<CompletionItemType>,
}

/// Some predefined types for the CompletionItem. Please note that not all clients have specific
/// icons for all of them.
#[derive(Clone, PartialEq, Debug)]
pub enum CompletionItemType {
    Method,
    Function,
    Constructor,
    Field,
    Variable,
    Class,
    Interface,
    Module,
    Property,
    Unit,
    Value,
    Enum,
    Keyword,
    Snippet,
    Text,
    Color,
    File,
    Reference,
    Customcolor,
}

/// Arguments for 'completions' request.
#[derive(Clone, PartialEq, Debug)]
pub struct CompletionsArguments {
    /// The character position for which to determine the completion proposals.
    pub column: i64,
    /// Returns completions in the scope of this stack frame. If not specified, the completions are
    /// returned for the global scope.
    pub frame_id: Option<i64>,
    /// An optional line for which to determine the completion proposals. If missing the first line
    /// of the text is assumed.
    pub line: Option<i64>,
    /// One or more source lines. Typically this is the text a user has typed into the debug
    /// console before he asked for completion.
    pub text: String,
}

#[derive(Clone, PartialEq, Debug)]
pub struct CompletionsRequest {
    /// Object containing arguments for the command.
    pub arguments: CompletionsArguments,
    /// The command to execute.
    pub command: String,
    /// Sequence number (also known as message ID). For protocol messages of type 'request' this ID
    /// can be used to cancel the request.
    pub seq: i64,
    /// Message type.
    pub type_: String,
}

#[derive(Clone, PartialEq, Debug)]
pub struct CompletionsResponseBody {
    /// The possible completions for .
    pub targets: Vec<CompletionItem>,
}

#[derive(Clone, PartialEq, Debug)]
pub struct CompletionsResponse {
    /// Contains request result if success is true and optional error details if success is false.
    pub body: CompletionsResponseBody,
    /// The command requested.
    pub command: String,
    /// Contains the raw error in short form if 'success' is false.
    /// This raw error might be interpreted by the frontend and is not shown in the UI.
    /// Some predefined values exist.
    pub message: Option<String>,
    /// Sequence number of the corresponding request.
    pub request_seq: i64,
    /// Sequence number (also known as message ID). For protocol messages of type 'request' this ID
    /// can be used to cancel the request.
    pub seq: i64,
    /// Outcome of the request.
    /// If true, the request was successful and the 'body' attribute may contain the result of the
    /// request.
    /// If the value is false, the attribute 'message' contains the error in short form and the
    /// 'body' may contain additional information (see 'ErrorResponse.body.error').
    pub success: bool,
    /// Message type.
    pub type_: String,
}

/// Arguments for 'continue' request.
#[derive(Clone, PartialEq, Debug)]
pub struct ContinueArguments {
    /// If this optional flag is true, execution is resumed only for the thread with given
    /// 'threadId'.
    pub single_thread: Option<bool>,
    /// Specifies the active thread. If the debug adapter supports single thread execution (see
    /// 'supportsSingleThreadExecutionRequests') and the optional argument 'singleThread' is true,
    /// only the thread with this ID is resumed.
    pub thread_id: i64,
}

#[derive(Clone, PartialEq, Debug)]
pub struct ContinueRequest {
    /// Object containing arguments for the command.
    pub arguments: ContinueArguments,
    /// The command to execute.
    pub command: String,
    /// Sequence number (also known as message ID). For protocol messages of type 'request' this ID
    /// can be used to cancel the request.
    pub seq: i64,
    /// Message type.
    pub type_: String,
}

#[derive(Clone, PartialEq, Debug, Default)]
pub struct ContinueResponseBody {
    /// The value true (or a missing property) signals to the client that all threads have been
    /// resumed. The value false must be returned if not all threads were resumed.
    pub all_threads_continued: Option<bool>,
}

#[derive(Clone, PartialEq, Debug)]
pub struct ContinueResponse {
    /// Contains request result if success is true and optional error details if success is false.
    pub body: ContinueResponseBody,
    /// The command requested.
    pub command: String,
    /// Contains the raw error in short form if 'success' is false.
    /// This raw error might be interpreted by the frontend and is not shown in the UI.
    /// Some predefined values exist.
    pub message: Option<String>,
    /// Sequence number of the corresponding request.
    pub request_seq: i64,
    /// Sequence number (also known as message ID). For protocol messages of type 'request' this ID
    /// can be used to cancel the request.
    pub seq: i64,
    /// Outcome of the request.
    /// If true, the request was successful and the 'body' attribute may contain the result of the
    /// request.
    /// If the value is false, the attribute 'message' contains the error in short form and the
    /// 'body' may contain additional information (see 'ErrorResponse.body.error').
    pub success: bool,
    /// Message type.
    pub type_: String,
}

#[derive(Clone, PartialEq, Debug)]
pub struct ContinuedEventBody {
    /// If 'allThreadsContinued' is true, a debug adapter can announce that all threads have
    /// continued.
    pub all_threads_continued: Option<bool>,
    /// The thread which was continued.
    pub thread_id: i64,
}

#[derive(Clone, PartialEq, Debug)]
pub struct ContinuedEvent {
    /// Event-specific information.
    pub body: ContinuedEventBody,
    /// Type of event.
    pub event: String,
    /// Sequence number (also known as message ID). For protocol messages of type 'request' this ID
    /// can be used to cancel the request.
    pub seq: i64,
    /// Message type.
    pub type_: String,
}

/// Properties of a data breakpoint passed to the setDataBreakpoints request.
#[derive(Clone, PartialEq, Debug)]
pub struct DataBreakpoint {
    /// The access type of the data.
    pub access_type: Option<DataBreakpointAccessType>,
    /// An optional expression for conditional breakpoints.
    pub condition: Option<String>,
    /// An id representing the data. This id is returned from the dataBreakpointInfo request.
    pub data_id: String,
    /// An optional expression that controls how many hits of the breakpoint are ignored.
    /// The backend is expected to interpret the expression as needed.
    pub hit_condition: Option<String>,
}

/// This enumeration defines all possible access types for data breakpoints.
#[derive(Clone, PartialEq, Debug)]
pub enum DataBreakpointAccessType {
    Read,
    Write,
    ReadWrite,
}

/// Arguments for 'dataBreakpointInfo' request.
#[derive(Clone, PartialEq, Debug)]
pub struct DataBreakpointInfoArguments {
    /// The name of the Variable's child to obtain data breakpoint information for.
    /// If variablesReference isn't provided, this can be an expression.
    pub name: String,
    /// Reference to the Variable container if the data breakpoint is requested for a child of the
    /// container.
    pub variables_reference: Option<i64>,
}

#[derive(Clone, PartialEq, Debug)]
pub struct DataBreakpointInfoRequest {
    /// Object containing arguments for the command.
    pub arguments: DataBreakpointInfoArguments,
    /// The command to execute.
    pub command: String,
    /// Sequence number (also known as message ID). For protocol messages of type 'request' this ID
    /// can be used to cancel the request.
    pub seq: i64,
    /// Message type.
    pub type_: String,
}

#[derive(Clone, PartialEq, Debug)]
pub struct DataBreakpointInfoResponseBody {
    /// Optional attribute listing the available access types for a potential data breakpoint. A UI
    /// frontend could surface this information.
    pub access_types: Option<Vec<DataBreakpointAccessType>>,
    /// Optional attribute indicating that a potential data breakpoint could be persisted across
    /// sessions.
    pub can_persist: Option<bool>,
    /// An identifier for the data on which a data breakpoint can be registered with the
    /// setDataBreakpoints request or null if no data breakpoint is available.
    pub data_id: Option<String>,
    /// UI string that describes on what data the breakpoint is set on or why a data breakpoint is
    /// not available.
    pub description: String,
}

#[derive(Clone, PartialEq, Debug)]
pub struct DataBreakpointInfoResponse {
    /// Contains request result if success is true and optional error details if success is false.
    pub body: DataBreakpointInfoResponseBody,
    /// The command requested.
    pub command: String,
    /// Contains the raw error in short form if 'success' is false.
    /// This raw error might be interpreted by the frontend and is not shown in the UI.
    /// Some predefined values exist.
    pub message: Option<String>,
    /// Sequence number of the corresponding request.
    pub request_seq: i64,
    /// Sequence number (also known as message ID). For protocol messages of type 'request' this ID
    /// can be used to cancel the request.
    pub seq: i64,
    /// Outcome of the request.
    /// If true, the request was successful and the 'body' attribute may contain the result of the
    /// request.
    /// If the value is false, the attribute 'message' contains the error in short form and the
    /// 'body' may contain additional information (see 'ErrorResponse.body.error').
    pub success: bool,
    /// Message type.
    pub type_: String,
}

/// Arguments for 'disassemble' request.
#[derive(Clone, PartialEq, Debug)]
pub struct DisassembleArguments {
    /// Number of instructions to disassemble starting at the specified location and offset.
    /// An adapter must return exactly this number of instructions - any unavailable instructions
    /// should be replaced with an implementation-defined 'invalid instruction' value.
    pub instruction_count: i64,
    /// Optional offset (in instructions) to be applied after the byte offset (if any) before
    /// disassembling. Can be negative.
    pub instruction_offset: Option<i64>,
    /// Memory reference to the base location containing the instructions to disassemble.
    pub memory_reference: String,
    /// Optional offset (in bytes) to be applied to the reference location before disassembling.
    /// Can be negative.
    pub offset: Option<i64>,
    /// If true, the adapter should attempt to resolve memory addresses and other values to
    /// symbolic names.
    pub resolve_symbols: Option<bool>,
}

#[derive(Clone, PartialEq, Debug)]
pub struct DisassembleRequest {
    /// Object containing arguments for the command.
    pub arguments: DisassembleArguments,
    /// The command to execute.
    pub command: String,
    /// Sequence number (also known as message ID). For protocol messages of type 'request' this ID
    /// can be used to cancel the request.
    pub seq: i64,
    /// Message type.
    pub type_: String,
}

/// Arguments for 'disconnect' request.
#[derive(Clone, PartialEq, Debug, Default)]
pub struct DisconnectArguments {
    /// A value of true indicates that this 'disconnect' request is part of a restart sequence.
    pub restart: Option<bool>,
    /// Indicates whether the debuggee should stay suspended when the debugger is disconnected.
    /// If unspecified, the debuggee should resume execution.
    /// The attribute is only honored by a debug adapter if the capability 'supportSuspendDebuggee'
    /// is true.
    pub suspend_debuggee: Option<bool>,
    /// Indicates whether the debuggee should be terminated when the debugger is disconnected.
    /// If unspecified, the debug adapter is free to do whatever it thinks is best.
    /// The attribute is only honored by a debug adapter if the capability
    /// 'supportTerminateDebuggee' is true.
    pub terminate_debuggee: Option<bool>,
}

#[derive(Clone, PartialEq, Debug)]
pub struct DisconnectRequest {
    /// Object containing arguments for the command.
    pub arguments: Option<DisconnectArguments>,
    /// The command to execute.
    pub command: String,
    /// Sequence number (also known as message ID). For protocol messages of type 'request' this ID
    /// can be used to cancel the request.
    pub seq: i64,
    /// Message type.
    pub type_: String,
}

#[derive(Clone, PartialEq, Debug, Default)]
pub struct ErrorResponseBody {
    /// An optional, structured error message.
    pub error: Option<Message>,
}

#[derive(Clone, PartialEq, Debug)]
pub struct ErrorResponse {
    /// Contains request result if success is true and optional error details if success is false.
    pub body: ErrorResponseBody,
    /// The command requested.
    pub command: String,
    /// Contains the raw error in short form if 'success' is false.
    /// This raw error might be interpreted by the frontend and is not shown in the UI.
    /// Some predefined values exist.
    pub message: Option<String>,
    /// Sequence number of the corresponding request.
    pub request_seq: i64,
    /// Sequence number (also known as message ID). For protocol messages of type 'request' this ID
    /// can be used to cancel the request.
    pub seq: i64,
    /// Outcome of the request.
    /// If true, the request was successful and the 'body' attribute may contain the result of the
    /// request.
    /// If the value is false, the attribute 'message' contains the error in short form and the
    /// 'body' may contain additional information (see 'ErrorResponse.body.error').
    pub success: bool,
    /// Message type.
    pub type_: String,
}

/// Arguments for 'evaluate' request.
#[derive(Clone, PartialEq, Debug)]
pub struct EvaluateArguments {
    /// The context in which the evaluate request is run.
    pub context: Option<String>,
    /// The expression to evaluate.
    pub expression: String,
    /// Specifies details on how to format the Evaluate result.
    /// The attribute is only honored by a debug adapter if the capability
    /// 'supportsValueFormattingOptions' is true.
    pub format: Option<ValueFormat>,
    /// Evaluate the expression in the scope of this stack frame. If not specified, the expression
    /// is evaluated in the global scope.
    pub frame_id: Option<i64>,
}

#[derive(Clone, PartialEq, Debug)]
pub struct EvaluateRequest {
    /// Object containing arguments for the command.
    pub arguments: EvaluateArguments,
    /// The command to execute.
    pub command: String,
    /// Sequence number (also known as message ID). For protocol messages of type 'request' this ID
    /// can be used to cancel the request.
    pub seq: i64,
    /// Message type.
    pub type_: String,
}

#[derive(Clone, PartialEq, Debug)]
pub struct EvaluateResponseBody {
    /// The number of indexed child variables.
    /// The client can use this optional information to present the variables in a paged UI and
    /// fetch them in chunks.
    /// The value should be less than or equal to 2147483647 (2^31-1).
    pub indexed_variables: Option<i64>,
    /// Optional memory reference to a location appropriate for this result.
    /// For pointer type eval results, this is generally a reference to the memory address
    /// contained in the pointer.
    /// This attribute should be returned by a debug adapter if the client has passed the value
    /// true for the 'supportsMemoryReferences' capability of the 'initialize' request.
    pub memory_reference: Option<String>,
    /// The number of named child variables.
    /// The client can use this optional information to present the variables in a paged UI and
    /// fetch them in chunks.
    /// The value should be less than or equal to 2147483647 (2^31-1).
    pub named_variables: Option<i64>,
    /// Properties of a evaluate result that can be used to determine how to render the result in
    /// the UI.
    pub presentation_hint: Option<VariablePresentationHint>,
    /// The result of the evaluate request.
    pub result: String,
    /// The optional type of the evaluate result.
    /// This attribute should only be returned by a debug adapter if the client has passed the
    /// value true for the 'supportsVariableType' capability of the 'initialize' request.
    pub type_: Option<String>,
    /// If variablesReference is > 0, the evaluate result is structured and its children can be
    /// retrieved by passing variablesReference to the VariablesRequest.
    /// The value should be less than or equal to 2147483647 (2^31-1).
    pub variables_reference: i64,
}

#[derive(Clone, PartialEq, Debug)]
pub struct EvaluateResponse {
    /// Contains request result if success is true and optional error details if success is false.
    pub body: EvaluateResponseBody,
    /// The command requested.
    pub command: String,
    /// Contains the raw error in short form if 'success' is false.
    /// This raw error might be interpreted by the frontend and is not shown in the UI.
    /// Some predefined values exist.
    pub message: Option<String>,
    /// Sequence number of the corresponding request.
    pub request_seq: i64,
    /// Sequence number (also known as message ID). For protocol messages of type 'request' this ID
    /// can be used to cancel the request.
    pub seq: i64,
    /// Outcome of the request.
    /// If true, the request was successful and the 'body' attribute may contain the result of the
    /// request.
    /// If the value is false, the attribute 'message' contains the error in short form and the
    /// 'body' may contain additional information (see 'ErrorResponse.body.error').
    pub success: bool,
    /// Message type.
    pub type_: String,
}

/// This enumeration defines all possible conditions when a thrown exception should result in a
/// break.
/// never: never breaks,
/// always: always breaks,
/// unhandled: breaks when exception unhandled,
/// userUnhandled: breaks if the exception is not handled by user code.
#[derive(Clone, PartialEq, Debug)]
pub enum ExceptionBreakMode {
    Never,
    Always,
    Unhandled,
    UserUnhandled,
}

/// An ExceptionBreakpointsFilter is shown in the UI as an filter option for configuring how
/// exceptions are dealt with.
#[derive(Clone, PartialEq, Debug)]
pub struct ExceptionBreakpointsFilter {
    /// An optional help text providing information about the condition. This string is shown as
    /// the placeholder text for a text box and must be translated.
    pub condition_description: Option<String>,
    /// Initial value of the filter option. If not specified a value 'false' is assumed.
    pub default: Option<bool>,
    /// An optional help text providing additional information about the exception filter. This
    /// string is typically shown as a hover and must be translated.
    pub description: Option<String>,
    /// The internal ID of the filter option. This value is passed to the 'setExceptionBreakpoints'
    /// request.
    pub filter: String,
    /// The name of the filter option. This will be shown in the UI.
    pub label: String,
    /// Controls whether a condition can be specified for this filter option. If false or missing,
    /// a condition can not be set.
    pub supports_condition: Option<bool>,
}

/// Detailed information about an exception that has occurred.
#[derive(PartialEq, Debug, Default)]
pub struct ExceptionDetails {
    /// Optional expression that can be evaluated in the current scope to obtain the exception
    /// object.
    pub evaluate_name: Option<String>,
    /// Fully-qualified type name of the exception object.
    pub full_type_name: Option<String>,
    /// Details of the exception contained by this exception, if any.
    pub inner_exception: Option<Vec<ExceptionDetails>>,
    /// Message contained in the exception.
    pub message: Option<String>,
    /// Stack trace at the time the exception was thrown.
    pub stack_trace: Option<String>,
    /// Short type name of the exception object.
    pub short_type_name: Option<String>,
}

/// Whether `a` and `b` say the same of an exception and, one by one, of the
/// exceptions it contains.
pub open spec fn same_details(a: ExceptionDetails, b: ExceptionDetails) -> bool
    decreases a,
{
    &&& a.evaluate_name == b.evaluate_name
    &&& a.full_type_name == b.full_type_name
    &&& a.message == b.message
    &&& a.stack_trace == b.stack_trace
    &&& a.short_type_name == b.short_type_name
    &&& match (a.inner_exception, b.inner_exception) {
        (Some(x), Some(y)) => x.len() == y.len() && forall|i: int|
            0 <= i < x.len() ==> same_details(#[trigger] x[i], y[i]),
        (None, None) => true,
        _ => false,
    }
}

impl Clone for ExceptionDetails {
    /// A copy of the details, with copies of the exceptions they contain.
    fn clone(&self) -> (copy: Self)
        ensures
            same_details(*self, copy),
        decreases self,
    {
        let inner_exception = match &self.inner_exception {
            Some(inner) => {
                let mut copies: Vec<ExceptionDetails> = Vec::new();
                let mut i: usize = 0;
                while i < inner.len()
                    invariant
                        i <= inner.len(),
                        self.inner_exception matches Some(all) && all == *inner,
                        copies.len() == i,
                        forall|j: int| 0 <= j < i ==> same_details(#[trigger] inner[j], copies[j]),
                    decreases inner.len() - i,
                {
                    proof {
                        vstd::std_specs::vec::axiom_vec_index_decreases(*inner, i as int);
                    }
                    copies.push(inner[i].clone());
                    i += 1;
                }
                Some(copies)
            },
            None => None,
        };
        ExceptionDetails {
            evaluate_name: self.evaluate_name.clone(),
            full_type_name: self.full_type_name.clone(),
            inner_exception,
            message: self.message.clone(),
            stack_trace: self.stack_trace.clone(),
            short_type_name: self.short_type_name.clone(),
        }
    }
}

/// An ExceptionFilterOptions is used to specify an exception filter together with a condition for
/// the 'setExceptionBreakpoints' request.
#[derive(Clone, PartialEq, Debug)]
pub struct ExceptionFilterOptions {
    /// An optional expression for conditional exceptions.
    /// The exception will break into the debugger if the result of the condition is true.
    pub condition: Option<String>,
    /// ID of an exception filter returned by the 'exceptionBreakpointFilters' capability.
    pub filter_id: String,
}

/// Arguments for 'exceptionInfo' request.
#[derive(Clone, PartialEq, Debug)]
pub struct ExceptionInfoArguments {
    /// Thread for which exception information should be retrieved.
    pub thread_id: i64,
}

#[derive(Clone, PartialEq, Debug)]
pub struct ExceptionInfoRequest {
    /// Object containing arguments for the command.
    pub arguments: ExceptionInfoArguments,
    /// The command to execute.
    pub command: String,
    /// Sequence number (also known as message ID). For protocol messages of type 'request' this ID
    /// can be used to cancel the request.
    pub seq: i64,
    /// Message type.
    pub type_: String,
}

#[derive(Clone, PartialEq, Debug)]
pub struct ExceptionInfoResponseBody {
    /// Mode that caused the exception notification to be raised.
    pub break_mode: ExceptionBreakMode,
    /// Descriptive text for the exception provided by the debug adapter.
    pub description: Option<String>,
    /// Detailed information about the exception.
    pub details: Option<ExceptionDetails>,
    /// ID of the exception that was thrown.
    pub exception_id: String,
}

#[derive(Clone, PartialEq, Debug)]
pub struct ExceptionInfoResponse {
    /// Contains request result if success is true and optional error details if success is false.
    pub body: ExceptionInfoResponseBody,
    /// The command requested.
    pub command: String,
    /// Contains the raw error in short form if 'success' is false.
    /// This raw error might be interpreted by the frontend and is not shown in the UI.
    /// Some predefined values exist.
    pub message: Option<String>,
    /// Sequence number of the corresponding request.
    pub request_seq: i64,
    /// Sequence number (also known as message ID). For protocol messages of type 'request' this ID
    /// can be used to cancel the request.
    pub seq: i64,
    /// Outcome of the request.
    /// If true, the request was successful and the 'body' attribute may contain the result of the
    /// request.
    /// If the value is false, the attribute 'message' contains the error in short form and the
    /// 'body' may contain additional information (see 'ErrorResponse.body.error').
    pub success: bool,
    /// Message type.
    pub type_: String,
}

/// An ExceptionOptions assigns configuration options to a set of exceptions.
#[derive(Clone, PartialEq, Debug)]
pub struct ExceptionOptions {
    /// Condition when a thrown exception should result in a break.
    pub break_mode: ExceptionBreakMode,
    /// A path that selects a single or multiple exceptions in a tree. If 'path' is missing, the
    /// whole tree is selected.
    /// By convention the first segment of the path is a category that is used to group exceptions
    /// in the UI.
    pub path: Option<Vec<ExceptionPathSegment>>,
}

/// An ExceptionPathSegment represents a segment in a path that is used to match leafs or nodes in
/// a tree of exceptions.
/// If a segment consists of more than one name, it matches the names provided if 'negate' is false
/// or missing or
/// it matches anything except the names provided if 'negate' is true.
#[derive(Clone, PartialEq, Debug)]
pub struct ExceptionPathSegment {
    /// Depending on the value of 'negate' the names that should match or not match.
    pub names: Vec<String>,
    /// If false or missing this segment matches the names provided, otherwise it matches anything
    /// except the names provided.
    pub negate: Option<bool>,
}

#[derive(Clone, PartialEq, Debug)]
pub struct ExitedEventBody {
    /// The exit code returned from the debuggee.
    pub exit_code: i64,
}

#[derive(Clone, PartialEq, Debug)]
pub struct ExitedEvent {
    /// Event-specific information.
    pub body: ExitedEventBody,
    /// Type of event.
    pub event: String,
    /// Sequence number (also known as message ID). For protocol messages of type 'request' this ID
    /// can be used to cancel the request.
    pub seq: i64,
    /// Message type.
    pub type_: String,
}

/// Properties of a breakpoint passed to the setFunctionBreakpoints request.
#[derive(Clone, PartialEq, Debug)]
pub struct FunctionBreakpoint {
    /// An optional expression for conditional breakpoints.
    /// It is only honored by a debug adapter if the capability 'supportsConditionalBreakpoints' is
    /// true.
    pub condition: Option<String>,
    /// An optional expression that controls how many hits of the breakpoint are ignored.
    /// The backend is expected to interpret the expression as needed.
    /// The attribute is only honored by a debug adapter if the capability
    /// 'supportsHitConditionalBreakpoints' is true.
    pub hit_condition: Option<String>,
    /// The name of the function.
    pub name: String,
}

/// Arguments for 'goto' request.
#[derive(Clone, PartialEq, Debug)]
pub struct GotoArguments {
    /// The location where the debuggee will continue to run.
    pub target_id: i64,
    /// Set the goto target for this thread.
    pub thread_id: i64,
}

#[derive(Clone, PartialEq, Debug)]
pub struct GotoRequest {
    /// Object containing arguments for the command.
    pub arguments: GotoArguments,
    /// The command to execute.
    pub command: String,
    /// Sequence number (also known as message ID). For protocol messages of type 'request' this ID
    /// can be used to cancel the request.
    pub seq: i64,
    /// Message type.
    pub type_: String,
}

/// A GotoTarget describes a code location that can be used as a target in the 'goto' request.
/// The possible goto targets can be determined via the 'gotoTargets' request.
#[derive(Clone, PartialEq, Debug)]
pub struct GotoTarget {
    /// An optional column of the goto target.
    pub column: Option<i64>,
    /// An optional end column of the range covered by the goto target.
    pub end_column: Option<i64>,
    /// An optional end line of the range covered by the goto target.
    pub end_line: Option<i64>,
    /// Unique identifier for a goto target. This is used in the goto request.
    pub id: i64,
    /// Optional memory reference for the instruction pointer value represented by this target.
    pub instruction_pointer_reference: Option<String>,
    /// The name of the goto target (shown in the UI).
    pub label: String,
    /// The line of the goto target.
    pub line: i64,
}

#[derive(Clone, PartialEq, Debug)]
pub struct GotoTargetsResponseBody {
    /// The possible goto targets of the specified location.
    pub targets: Vec<GotoTarget>,
}

#[derive(Clone, PartialEq, Debug)]
pub struct GotoTargetsResponse {
    /// Contains request result if success is true and optional error details if success is false.
    pub body: GotoTargetsResponseBody,
    /// The command requested.
    pub command: String,
    /// Contains the raw error in short form if 'success' is false.
    /// This raw error might be interpreted by the frontend and is not shown in the UI.
    /// Some predefined values exist.
    pub message: Option<String>,
    /// Sequence number of the corresponding request.
    pub request_seq: i64,
    /// Sequence number (also known as message ID). For protocol messages of type 'request' this ID
    /// can be used to cancel the request.
    pub seq: i64,
    /// Outcome of the request.
    /// If true, the request was successful and the 'body' attribute may contain the result of the
    /// request.
    /// If the value is false, the attribute 'message' contains the error in short form and the
    /// 'body' may contain additional information (see 'ErrorResponse.body.error').
    pub success: bool,
    /// Message type.
    pub type_: String,
}

#[derive(Clone, PartialEq, Debug)]
pub struct InitializeRequest {
    /// Object containing arguments for the command.
    pub arguments: InitializeRequestArguments,
    /// The command to execute.
    pub command: String,
    /// Sequence number (also known as message ID). For protocol messages of type 'request' this ID
    /// can be used to cancel the request.
    pub seq: i64,
    /// Message type.
    pub type_: String,
}

/// Arguments for 'initialize' request.
#[derive(Clone, PartialEq, Debug)]
pub struct InitializeRequestArguments {
    /// The ID of the debug adapter.
    pub adapter_id: String,
    /// The ID of the (frontend) client using this adapter.
    pub client_id: Option<String>,
    /// The human readable name of the (frontend) client using this adapter.
    pub client_name: Option<String>,
    /// If true all column numbers are 1-based (default).
    pub columns_start_at_1: Option<bool>,
    /// If true all line numbers are 1-based (default).
    pub lines_start_at_1: Option<bool>,
    /// The ISO-639 locale of the (frontend) client using this adapter, e.g. en-US or de-CH.
    pub locale: Option<String>,
    /// Determines in what format paths are specified. The default is 'path', which is the native
    /// format.
    pub path_format: Option<String>,
    /// Client supports the invalidated event.
    pub supports_invalidated_event: Option<bool>,
    /// Client supports the memory event.
    pub supports_memory_event: Option<bool>,
    /// Client supports memory references.
    pub supports_memory_references: Option<bool>,
    /// Client supports progress reporting.
    pub supports_progress_reporting: Option<bool>,
    /// Client supports the runInTerminal request.
    pub supports_run_in_terminal_request: Option<bool>,
    /// Client supports the paging of variables.
    pub supports_variable_paging: Option<bool>,
    /// Client supports the optional type attribute for variables.
    pub supports_variable_type: Option<bool>,
}

#[derive(Clone, PartialEq, Debug)]
pub struct InitializeResponse {
    /// The capabilities of this debug adapter.
    pub body: Option<Capabilities>,
    /// The command requested.
    pub command: String,
    /// Contains the raw error in short form if 'success' is false.
    /// This raw error might be interpreted by the frontend and is not shown in the UI.
    /// Some predefined values exist.
    pub message: Option<String>,
    /// Sequence number of the corresponding request.
    pub request_seq: i64,
    /// Sequence number (also known as message ID). For protocol messages of type 'request' this ID
    /// can be used to cancel the request.
    pub seq: i64,
    /// Outcome of the request.
    /// If true, the request was successful and the 'body' attribute may contain the result of the
    /// request.
    /// If the value is false, the attribute 'message' contains the error in short form and the
    /// 'body' may contain additional information (see 'ErrorResponse.body.error').
    pub success: bool,
    /// Message type.
    pub type_: String,
}

/// Properties of a breakpoint passed to the setInstructionBreakpoints request
#[derive(Clone, PartialEq, Debug)]
pub struct InstructionBreakpoint {
    /// An optional expression for conditional breakpoints.
    /// It is only honored by a debug adapter if the capability 'supportsConditionalBreakpoints' is
    /// true.
    pub condition: Option<String>,
    /// An optional expression that controls how many hits of the breakpoint are ignored.
    /// The backend is expected to interpret the expression as needed.
    /// The attribute is only honored by a debug adapter if the capability
    /// 'supportsHitConditionalBreakpoints' is true.
    pub hit_condition: Option<String>,
    /// The instruction reference of the breakpoint.
    /// This should be a memory or instruction pointer reference from an EvaluateResponse,
    /// Variable, StackFrame, GotoTarget, or Breakpoint.
    pub instruction_reference: String,
    /// An optional offset from the instruction reference.
    /// This can be negative.
    pub offset: Option<i64>,
}

/// Logical areas that can be invalidated by the 'invalidated' event.
pub type InvalidatedAreas = String;

#[derive(Clone, PartialEq, Debug, Default)]
pub struct InvalidatedEventBody {
    /// Optional set of logical areas that got invalidated. This property has a hint
    /// characteristic: a client can only be expected to make a 'best effort' in honouring the
    /// areas but there are no guarantees. If this property is missing, empty, or if values are not
    /// understand the client should assume a single value 'all'.
    pub areas: Option<Vec<InvalidatedAreas>>,
    /// If specified, the client only needs to refetch data related to this stack frame (and the
    /// 'threadId' is ignored).
    pub stack_frame_id: Option<i64>,
    /// If specified, the client only needs to refetch data related to this thread.
    pub thread_id: Option<i64>,
}

#[derive(Clone, PartialEq, Debug)]
pub struct InvalidatedEvent {
    /// Event-specific information.
    pub body: InvalidatedEventBody,
    /// Type of event.
    pub event: String,
    /// Sequence number (also known as message ID). For protocol messages of type 'request' this ID
    /// can be used to cancel the request.
    pub seq: i64,
    /// Message type.
    pub type_: String,
}

#[derive(Clone, PartialEq, Debug)]
pub struct MemoryEventBody {
    /// Number of bytes updated.
    pub count: i64,
    /// Memory reference of a memory range that has been updated.
    pub memory_reference: String,
    /// Starting offset in bytes where memory has been updated. Can be negative.
    pub offset: i64,
}

#[derive(Clone, PartialEq, Debug)]
pub struct MemoryEvent {
    /// Event-specific information.
    pub body: MemoryEventBody,
    /// Type of event.
    pub event: String,
    /// Sequence number (also known as message ID). For protocol messages of type 'request' this ID
    /// can be used to cancel the request.
    pub seq: i64,
    /// Message type.
    pub type_: String,
}

/// A structured message object. Used to return errors from requests.
#[derive(Clone, PartialEq, Debug)]
pub struct Message {
    /// A format string for the message. Embedded variables have the form '{name}'.
    /// If variable name starts with an underscore character, the variable does not contain user
    /// data (PII) and can be safely used for telemetry purposes.
    pub format: String,
    /// Unique identifier for the message.
    pub id: i64,
    /// If true send to telemetry.
    pub send_telemetry: Option<bool>,
    /// If true show user.
    pub show_user: Option<bool>,
    /// An optional url where additional information about this message can be found.
    pub url: Option<String>,
    /// An optional label that is presented to the user as the UI for opening the url.
    pub url_label: Option<String>,
    /// An object used as a dictionary for looking up the variables in the format string.
    pub variables: Option<BTreeMap<String, String>>,
}

/// Arguments for 'modules' request.
#[derive(Clone, PartialEq, Debug, Default)]
pub struct ModulesArguments {
    /// The number of modules to return. If moduleCount is not specified or 0, all modules are
    /// returned.
    pub module_count: Option<i64>,
    /// The index of the first module to return; if omitted modules start at 0.
    pub start_module: Option<i64>,
}

#[derive(Clone, PartialEq, Debug)]
pub struct ModulesRequest {
    /// Object containing arguments for the command.
    pub arguments: ModulesArguments,
    /// The command to execute.
    pub command: String,
    /// Sequence number (also known as message ID). For protocol messages of type 'request' this ID
    /// can be used to cancel the request.
    pub seq: i64,
    /// Message type.
    pub type_: String,
}

/// The ModulesViewDescriptor is the container for all declarative configuration options of a
/// ModuleView.
/// For now it only specifies the columns to be shown in the modules view.
#[derive(Clone, PartialEq, Debug)]
pub struct ModulesViewDescriptor {
    pub columns: Vec<ColumnDescriptor>,
}

/// Arguments for 'next' request.
#[derive(Clone, PartialEq, Debug)]
pub struct NextArguments {
    /// Optional granularity to step. If no granularity is specified, a granularity of 'statement'
    /// is assumed.
    pub granularity: Option<SteppingGranularity>,
    /// If this optional flag is true, all other suspended threads are not resumed.
    pub single_thread: Option<bool>,
    /// Specifies the thread for which to resume execution for one step (of the given granularity).
    pub thread_id: i64,
}

#[derive(Clone, PartialEq, Debug)]
pub struct NextRequest {
    /// Object containing arguments for the command.
    pub arguments: NextArguments,
    /// The command to execute.
    pub command: String,
    /// Sequence number (also known as message ID). For protocol messages of type 'request' this ID
    /// can be used to cancel the request.
    pub seq: i64,
    /// Message type.
    pub type_: String,
}

/// Arguments for 'pause' request.
#[derive(Clone, PartialEq, Debug)]
pub struct PauseArguments {
    /// Pause execution for this thread.
    pub thread_id: i64,
}

#[derive(Clone, PartialEq, Debug)]
pub struct PauseRequest {
    /// Object containing arguments for the command.
    pub arguments: PauseArguments,
    /// The command to execute.
    pub command: String,
    /// Sequence number (also known as message ID). For protocol messages of type 'request' this ID
    /// can be used to cancel the request.
    pub seq: i64,
    /// Message type.
    pub type_: String,
}

#[derive(Clone, PartialEq, Debug)]
pub struct ProcessEventBody {
    /// If true, the process is running on the same computer as the debug adapter.
    pub is_local_process: Option<bool>,
    /// The logical name of the process. This is usually the full path to process's executable
    /// file. Example: /home/example/myproj/program.js.
    pub name: String,
    /// The size of a pointer or address for this process, in bits. This value may be used by
    /// clients when formatting addresses for display.
    pub pointer_size: Option<i64>,
    /// Describes how the debug engine started debugging this process.
    pub start_method: Option<String>,
    /// The system process id of the debugged process. This property will be missing for non-system
    /// processes.
    pub system_process_id: Option<i64>,
}

#[derive(Clone, PartialEq, Debug)]
pub struct ProcessEvent {
    /// Event-specific information.
    pub body: ProcessEventBody,
    /// Type of event.
    pub event: String,
    /// Sequence number (also known as message ID). For protocol messages of type 'request' this ID
    /// can be used to cancel the request.
    pub seq: i64,
    /// Message type.
    pub type_: String,
}

#[derive(Clone, PartialEq, Debug)]
pub struct ProgressEndEventBody {
    /// Optional, more detailed progress message. If omitted, the previous message (if any) is
    /// used.
    pub message: Option<String>,
    /// The ID that was introduced in the initial 'ProgressStartEvent'.
    pub progress_id: String,
}

#[derive(Clone, PartialEq, Debug)]
pub struct ProgressEndEvent {
    /// Event-specific information.
    pub body: ProgressEndEventBody,
    /// Type of event.
    pub event: String,
    /// Sequence number (also known as message ID). For protocol messages of type 'request' this ID
    /// can be used to cancel the request.
    pub seq: i64,
    /// Message type.
    pub type_: String,
}

/// Base class of requests, responses, and events.
#[derive(Clone, PartialEq, Debug)]
pub struct ProtocolMessage {
    /// Sequence number (also known as message ID). For protocol messages of type 'request' this ID
    /// can be used to cancel the request.
    pub seq: i64,
    /// Message type.
    pub type_: String,
}

/// Arguments for 'readMemory' request.
#[derive(Clone, PartialEq, Debug)]
pub struct ReadMemoryArguments {
    /// Number of bytes to read at the specified location and offset.
    pub count: i64,
    /// Memory reference to the base location from which data should be read.
    pub memory_reference: String,
    /// Optional offset (in bytes) to be applied to the reference location before reading data. Can
    /// be negative.
    pub offset: Option<i64>,
}

#[derive(Clone, PartialEq, Debug)]
pub struct ReadMemoryRequest {
    /// Object containing arguments for the command.
    pub arguments: ReadMemoryArguments,
    /// The command to execute.
    pub command: String,
    /// Sequence number (also known as message ID). For protocol messages of type 'request' this ID
    /// can be used to cancel the request.
    pub seq: i64,
    /// Message type.
    pub type_: String,
}

#[derive(Clone, PartialEq, Debug)]
pub struct ReadMemoryResponseBody {
    /// The address of the first byte of data returned.
    /// Treated as a hex value if prefixed with '0x', or as a decimal value otherwise.
    pub address: String,
    /// The bytes read from memory, encoded using base64.
    pub data: Option<String>,
    /// The number of unreadable bytes encountered after the last successfully read byte.
    /// This can be used to determine the number of bytes that must be skipped before a subsequent
    /// 'readMemory' request will succeed.
    pub unreadable_bytes: Option<i64>,
}

#[derive(Clone, PartialEq, Debug)]
pub struct ReadMemoryResponse {
    /// Contains request result if success is true and optional error details if success is false.
    pub body: Option<ReadMemoryResponseBody>,
    /// The command requested.
    pub command: String,
    /// Contains the raw error in short form if 'success' is false.
    /// This raw error might be interpreted by the frontend and is not shown in the UI.
    /// Some predefined values exist.
    pub message: Option<String>,
    /// Sequence number of the corresponding request.
    pub request_seq: i64,
    /// Sequence number (also known as message ID). For protocol messages of type 'request' this ID
    /// can be used to cancel the request.
    pub seq: i64,
    /// Outcome of the request.
    /// If true, the request was successful and the 'body' attribute may contain the result of the
    /// request.
    /// If the value is false, the attribute 'message' contains the error in short form and the
    /// 'body' may contain additional information (see 'ErrorResponse.body.error').
    pub success: bool,
    /// Message type.
    pub type_: String,
}

/// Arguments for 'restartFrame' request.
#[derive(Clone, PartialEq, Debug)]
pub struct RestartFrameArguments {
    /// Restart this stackframe.
    pub frame_id: i64,
}

#[derive(Clone, PartialEq, Debug)]
pub struct RestartFrameRequest {
    /// Object containing arguments for the command.
    pub arguments: RestartFrameArguments,
    /// The command to execute.
    pub command: String,
    /// Sequence number (also known as message ID). For protocol messages of type 'request' this ID
    /// can be used to cancel the request.
    pub seq: i64,
    /// Message type.
    pub type_: String,
}

/// Arguments for 'reverseContinue' request.
#[derive(Clone, PartialEq, Debug)]
pub struct ReverseContinueArguments {
    /// If this optional flag is true, backward execution is resumed only for the thread with given
    /// 'threadId'.
    pub single_thread: Option<bool>,
    /// Specifies the active thread. If the debug adapter supports single thread execution (see
    /// 'supportsSingleThreadExecutionRequests') and the optional argument 'singleThread' is true,
    /// only the thread with this ID is resumed.
    pub thread_id: i64,
}

#[derive(Clone, PartialEq, Debug)]
pub struct ReverseContinueRequest {
    /// Object containing arguments for the command.
    pub arguments: ReverseContinueArguments,
    /// The command to execute.
    pub command: String,
    /// Sequence number (also known as message ID). For protocol messages of type 'request' this ID
    /// can be used to cancel the request.
    pub seq: i64,
    /// Message type.
    pub type_: String,
}

#[derive(Clone, PartialEq, Debug)]
pub struct RunInTerminalRequest {
    /// Object containing arguments for the command.
    pub arguments: RunInTerminalRequestArguments,
    /// The command to execute.
    pub command: String,
    /// Sequence number (also known as message ID). For protocol messages of type 'request' this ID
    /// can be used to cancel the request.
    pub seq: i64,
    /// Message type.
    pub type_: String,
}

/// Arguments for 'runInTerminal' request.
#[derive(Clone, PartialEq, Debug)]
pub struct RunInTerminalRequestArguments {
    /// List of arguments. The first argument is the command to run.
    pub args: Vec<String>,
    /// Working directory for the command. For non-empty, valid paths this typically results in
    /// execution of a change directory command.
    pub cwd: String,
    /// Environment key-value pairs that are added to or removed from the default environment.
    pub env: Option<BTreeMap<String, Option<String>>>,
    /// What kind of terminal to launch.
    pub kind: Option<String>,
    /// Optional title of the terminal.
    pub title: Option<String>,
}

#[derive(Clone, PartialEq, Debug, Default)]
pub struct RunInTerminalResponseBody {
    /// The process ID. The value should be less than or equal to 2147483647 (2^31-1).
    pub process_id: Option<i64>,
    /// The process ID of the terminal shell. The value should be less than or equal to 2147483647
    /// (2^31-1).
    pub shell_process_id: Option<i64>,
}

#[derive(Clone, PartialEq, Debug)]
pub struct RunInTerminalResponse {
    /// Contains request result if success is true and optional error details if success is false.
    pub body: RunInTerminalResponseBody,
    /// The command requested.
    pub command: String,
    /// Contains the raw error in short form if 'success' is false.
    /// This raw error might be interpreted by the frontend and is not shown in the UI.
    /// Some predefined values exist.
    pub message: Option<String>,
    /// Sequence number of the corresponding request.
    pub request_seq: i64,
    /// Sequence number (also known as message ID). For protocol messages of type 'request' this ID
    /// can be used to cancel the request.
    pub seq: i64,
    /// Outcome of the request.
    /// If true, the request was successful and the 'body' attribute may contain the result of the
    /// request.
    /// If the value is false, the attribute 'message' contains the error in short form and the
    /// 'body' may contain additional information (see 'ErrorResponse.body.error').
    pub success: bool,
    /// Message type.
    pub type_: String,
}

/// Arguments for 'scopes' request.
#[derive(Clone, PartialEq, Debug)]
pub struct ScopesArguments {
    /// Retrieve the scopes for this stackframe.
    pub frame_id: i64,
}

#[derive(Clone, PartialEq, Debug)]
pub struct ScopesRequest {
    /// Object containing arguments for the command.
    pub arguments: ScopesArguments,
    /// The command to execute.
    pub command: String,
    /// Sequence number (also known as message ID). For protocol messages of type 'request' this ID
    /// can be used to cancel the request.
    pub seq: i64,
    /// Message type.
    pub type_: String,
}

/// Arguments for 'setDataBreakpoints' request.
#[derive(Clone, PartialEq, Debug)]
pub struct SetDataBreakpointsArguments {
    /// The contents of this array replaces all existing data breakpoints. An empty array clears
    /// all data breakpoints.
    pub breakpoints: Vec<DataBreakpoint>,
}

#[derive(Clone, PartialEq, Debug)]
pub struct SetDataBreakpointsRequest {
    /// Object containing arguments for the command.
    pub arguments: SetDataBreakpointsArguments,
    /// The command to execute.
    pub command: String,
    /// Sequence number (also known as message ID). For protocol messages of type 'request' this ID
    /// can be used to cancel the request.
    pub seq: i64,
    /// Message type.
    pub type_: String,
}

/// Arguments for 'setExceptionBreakpoints' request.
#[derive(Clone, PartialEq, Debug)]
pub struct SetExceptionBreakpointsArguments {
    /// Configuration options for selected exceptions.
    /// The attribute is only honored by a debug adapter if the capability
    /// 'supportsExceptionOptions' is true.
    pub exception_options: Option<Vec<ExceptionOptions>>,
    /// Set of exception filters and their options. The set of all possible exception filters is
    /// defined by the 'exceptionBreakpointFilters' capability. This attribute is only honored by a
    /// debug adapter if the capability 'supportsExceptionFilterOptions' is true. The 'filter' and
    /// 'filterOptions' sets are additive.
    pub filter_options: Option<Vec<ExceptionFilterOptions>>,
    /// Set of exception filters specified by their ID. The set of all possible exception filters
    /// is defined by the 'exceptionBreakpointFilters' capability. The 'filter' and 'filterOptions'
    /// sets are additive.
    pub filters: Vec<String>,
}

#[derive(Clone, PartialEq, Debug)]
pub struct SetExceptionBreakpointsRequest {
    /// Object containing arguments for the command.
    pub arguments: SetExceptionBreakpointsArguments,
    /// The command to execute.
    pub command: String,
    /// Sequence number (also known as message ID). For protocol messages of type 'request' this ID
    /// can be used to cancel the request.
    pub seq: i64,
    /// Message type.
    pub type_: String,
}

/// Arguments for 'setExpression' request.
#[derive(Clone, PartialEq, Debug)]
pub struct SetExpressionArguments {
    /// The l-value expression to assign to.
    pub expression: String,
    /// Specifies how the resulting value should be formatted.
    pub format: Option<ValueFormat>,
    /// Evaluate the expressions in the scope of this stack frame. If not specified, the
    /// expressions are evaluated in the global scope.
    pub frame_id: Option<i64>,
    /// The value expression to assign to the l-value expression.
    pub value: String,
}

#[derive(Clone, PartialEq, Debug)]
pub struct SetExpressionRequest {
    /// Object containing arguments for the command.
    pub arguments: SetExpressionArguments,
    /// The command to execute.
    pub command: String,
    /// Sequence number (also known as message ID). For protocol messages of type 'request' this ID
    /// can be used to cancel the request.
    pub seq: i64,
    /// Message type.
    pub type_: String,
}

#[derive(Clone, PartialEq, Debug)]
pub struct SetExpressionResponseBody {
    /// The number of indexed child variables.
    /// The client can use this optional information to present the variables in a paged UI and
    /// fetch them in chunks.
    /// The value should be less than or equal to 2147483647 (2^31-1).
    pub indexed_variables: Option<i64>,
    /// The number of named child variables.
    /// The client can use this optional information to present the variables in a paged UI and
    /// fetch them in chunks.
    /// The value should be less than or equal to 2147483647 (2^31-1).
    pub named_variables: Option<i64>,
    /// Properties of a value that can be used to determine how to render the result in the UI.
    pub presentation_hint: Option<VariablePresentationHint>,
    /// The optional type of the value.
    /// This attribute should only be returned by a debug adapter if the client has passed the
    /// value true for the 'supportsVariableType' capability of the 'initialize' request.
    pub type_: Option<String>,
    /// The new value of the expression.
    pub value: String,
    /// If variablesReference is > 0, the value is structured and its children can be retrieved by
    /// passing variablesReference to the VariablesRequest.
    /// The value should be less than or equal to 2147483647 (2^31-1).
    pub variables_reference: Option<i64>,
}

#[derive(Clone, PartialEq, Debug)]
pub struct SetExpressionResponse {
    /// Contains request result if success is true and optional error details if success is false.
    pub body: SetExpressionResponseBody,
    /// The command requested.
    pub command: String,
    /// Contains the raw error in short form if 'success' is false.
    /// This raw error might be interpreted by the frontend and is not shown in the UI.
    /// Some predefined values exist.
    pub message: Option<String>,
    /// Sequence number of the corresponding request.
    pub request_seq: i64,
    /// Sequence number (also known as message ID). For protocol messages of type 'request' this ID
    /// can be used to cancel the request.
    pub seq: i64,
    /// Outcome of the request.
    /// If true, the request was successful and the 'body' attribute may contain the result of the
    /// request.
    /// If the value is false, the attribute 'message' contains the error in short form and the
    /// 'body' may contain additional information (see 'ErrorResponse.body.error').
    pub success: bool,
    /// Message type.
    pub type_: String,
}

/// Arguments for 'setFunctionBreakpoints' request.
#[derive(Clone, PartialEq, Debug)]
pub struct SetFunctionBreakpointsArguments {
    /// The function names of the breakpoints.
    pub breakpoints: Vec<FunctionBreakpoint>,
}

#[derive(Clone, PartialEq, Debug)]
pub struct SetFunctionBreakpointsRequest {
    /// Object containing arguments for the command.
    pub arguments: SetFunctionBreakpointsArguments,
    /// The command to execute.
    pub command: String,
    /// Sequence number (also known as message ID). For protocol messages of type 'request' this ID
    /// can be used to cancel the request.
    pub seq: i64,
    /// Message type.
    pub type_: String,
}

/// Arguments for 'setInstructionBreakpoints' request
#[derive(Clone, PartialEq, Debug)]
pub struct SetInstructionBreakpointsArguments {
    /// The instruction references of the breakpoints
    pub breakpoints: Vec<InstructionBreakpoint>,
}

#[derive(Clone, PartialEq, Debug)]
pub struct SetInstructionBreakpointsRequest {
    /// Object containing arguments for the command.
    pub arguments: SetInstructionBreakpointsArguments,
    /// The command to execute.
    pub command: String,
    /// Sequence number (also known as message ID). For protocol messages of type 'request' this ID
    /// can be used to cancel the request.
    pub seq: i64,
    /// Message type.
    pub type_: String,
}

/// Arguments for 'setVariable' request.
#[derive(Clone, PartialEq, Debug)]
pub struct SetVariableArguments {
    /// Specifies details on how to format the response value.
    pub format: Option<ValueFormat>,
    /// The name of the variable in the container.
    pub name: String,
    /// The value of the variable.
    pub value: String,
    /// The reference of the variable container.
    pub variables_reference: i64,
}

#[derive(Clone, PartialEq, Debug)]
pub struct SetVariableRequest {
    /// Object containing arguments for the command.
    pub arguments: SetVariableArguments,
    /// The command to execute.
    pub command: String,
    /// Sequence number (also known as message ID). For protocol messages of type 'request' this ID
    /// can be used to cancel the request.
    pub seq: i64,
    /// Message type.
    pub type_: String,
}

#[derive(Clone, PartialEq, Debug)]
pub struct SetVariableResponseBody {
    /// The number of indexed child variables.
    /// The client can use this optional information to present the variables in a paged UI and
    /// fetch them in chunks.
    /// The value should be less than or equal to 2147483647 (2^31-1).
    pub indexed_variables: Option<i64>,
    /// The number of named child variables.
    /// The client can use this optional information to present the variables in a paged UI and
    /// fetch them in chunks.
    /// The value should be less than or equal to 2147483647 (2^31-1).
    pub named_variables: Option<i64>,
    /// The type of the new value. Typically shown in the UI when hovering over the value.
    pub type_: Option<String>,
    /// The new value of the variable.
    pub value: String,
    /// If variablesReference is > 0, the new value is structured and its children can be retrieved
    /// by passing variablesReference to the VariablesRequest.
    /// The value should be less than or equal to 2147483647 (2^31-1).
    pub variables_reference: Option<i64>,
}

#[derive(Clone, PartialEq, Debug)]
pub struct SetVariableResponse {
    /// Contains request result if success is true and optional error details if success is false.
    pub body: SetVariableResponseBody,
    /// The command requested.
    pub command: String,
    /// Contains the raw error in short form if 'success' is false.
    /// This raw error might be interpreted by the frontend and is not shown in the UI.
    /// Some predefined values exist.
    pub message: Option<String>,
    /// Sequence number of the corresponding request.
    pub request_seq: i64,
    /// Sequence number (also known as message ID). For protocol messages of type 'request' this ID
    /// can be used to cancel the request.
    pub seq: i64,
    /// Outcome of the request.
    /// If true, the request was successful and the 'body' attribute may contain the result of the
    /// request.
    /// If the value is false, the attribute 'message' contains the error in short form and the
    /// 'body' may contain additional information (see 'ErrorResponse.body.error').
    pub success: bool,
    /// Message type.
    pub type_: String,
}

/// Properties of a breakpoint or logpoint passed to the setBreakpoints request.
#[derive(Clone, PartialEq, Debug)]
pub struct SourceBreakpoint {
    /// An optional source column of the breakpoint.
    pub column: Option<i64>,
    /// An optional expression for conditional breakpoints.
    /// It is only honored by a debug adapter if the capability 'supportsConditionalBreakpoints' is
    /// true.
    pub condition: Option<String>,
    /// An optional expression that controls how many hits of the breakpoint are ignored.
    /// The backend is expected to interpret the expression as needed.
    /// The attribute is only honored by a debug adapter if the capability
    /// 'supportsHitConditionalBreakpoints' is true.
    pub hit_condition: Option<String>,
    /// The source line of the breakpoint or logpoint.
    pub line: i64,
    /// If this attribute exists and is non-empty, the backend must not 'break' (stop)
    /// but log the message instead. Expressions within {} are interpolated.
    /// The attribute is only honored by a debug adapter if the capability 'supportsLogPoints' is
    /// true.
    pub log_message: Option<String>,
}

#[derive(Clone, PartialEq, Debug)]
pub struct SourceResponseBody {
    /// Content of the source reference.
    pub content: String,
    /// Optional content type (mime type) of the source.
    pub mime_type: Option<String>,
}

#[derive(Clone, PartialEq, Debug)]
pub struct SourceResponse {
    /// Contains request result if success is true and optional error details if success is false.
    pub body: SourceResponseBody,
    /// The command requested.
    pub command: String,
    /// Contains the raw error in short form if 'success' is false.
    /// This raw error might be interpreted by the frontend and is not shown in the UI.
    /// Some predefined values exist.
    pub message: Option<String>,
    /// Sequence number of the corresponding request.
    pub request_seq: i64,
    /// Sequence number (also known as message ID). For protocol messages of type 'request' this ID
    /// can be used to cancel the request.
    pub seq: i64,
    /// Outcome of the request.
    /// If true, the request was successful and the 'body' attribute may contain the result of the
    /// request.
    /// If the value is false, the attribute 'message' contains the error in short form and the
    /// 'body' may contain additional information (see 'ErrorResponse.body.error').
    pub success: bool,
    /// Message type.
    pub type_: String,
}

#[derive(Clone, PartialEq, Debug, Default)]
pub struct StackFrameFormat {
    /// Display the value in hex.
    pub hex: Option<bool>,
    /// Includes all stack frames, including those the debug adapter might otherwise hide.
    pub include_all: Option<bool>,
    /// Displays the line number of the stack frame.
    pub line: Option<bool>,
    /// Displays the module of the stack frame.
    pub module: Option<bool>,
    /// Displays the names of parameters for the stack frame.
    pub parameter_names: Option<bool>,
    /// Displays the types of parameters for the stack frame.
    pub parameter_types: Option<bool>,
    /// Displays the values of parameters for the stack frame.
    pub parameter_values: Option<bool>,
    /// Displays parameters for the stack frame.
    pub parameters: Option<bool>,
}

/// Arguments for 'stackTrace' request.
#[derive(Clone, PartialEq, Debug)]
pub struct StackTraceArguments {
    /// Specifies details on how to format the stack frames.
    /// The attribute is only honored by a debug adapter if the capability
    /// 'supportsValueFormattingOptions' is true.
    pub format: Option<StackFrameFormat>,
    /// The maximum number of frames to return. If levels is not specified or 0, all frames are
    /// returned.
    pub levels: Option<i64>,
    /// The index of the first frame to return; if omitted frames start at 0.
    pub start_frame: Option<i64>,
    /// Retrieve the stacktrace for this thread.
    pub thread_id: i64,
}

#[derive(Clone, PartialEq, Debug)]
pub struct StackTraceRequest {
    /// Object containing arguments for the command.
    pub arguments: StackTraceArguments,
    /// The command to execute.
    pub command: String,
    /// Sequence number (also known as message ID). For protocol messages of type 'request' this ID
    /// can be used to cancel the request.
    pub seq: i64,
    /// Message type.
    pub type_: String,
}

/// Arguments for 'stepBack' request.
#[derive(Clone, PartialEq, Debug)]
pub struct StepBackArguments {
    /// Optional granularity to step. If no granularity is specified, a granularity of 'statement'
    /// is assumed.
    pub granularity: Option<SteppingGranularity>,
    /// If this optional flag is true, all other suspended threads are not resumed.
    pub single_thread: Option<bool>,
    /// Specifies the thread for which to resume execution for one step backwards (of the given
    /// granularity).
    pub thread_id: i64,
}

#[derive(Clone, PartialEq, Debug)]
pub struct StepBackRequest {
    /// Object containing arguments for the command.
    pub arguments: StepBackArguments,
    /// The command to execute.
    pub command: String,
    /// Sequence number (also known as message ID). For protocol messages of type 'request' this ID
    /// can be used to cancel the request.
    pub seq: i64,
    /// Message type.
    pub type_: String,
}

/// Arguments for 'stepIn' request.
#[derive(Clone, PartialEq, Debug)]
pub struct StepInArguments {
    /// Optional granularity to step. If no granularity is specified, a granularity of 'statement'
    /// is assumed.
    pub granularity: Option<SteppingGranularity>,
    /// If this optional flag is true, all other suspended threads are not resumed.
    pub single_thread: Option<bool>,
    /// Optional id of the target to step into.
    pub target_id: Option<i64>,
    /// Specifies the thread for which to resume execution for one step-into (of the given
    /// granularity).
    pub thread_id: i64,
}

#[derive(Clone, PartialEq, Debug)]
pub struct StepInRequest {
    /// Object containing arguments for the command.
    pub arguments: StepInArguments,
    /// The command to execute.
    pub command: String,
    /// Sequence number (also known as message ID). For protocol messages of type 'request' this ID
    /// can be used to cancel the request.
    pub seq: i64,
    /// Message type.
    pub type_: String,
}

/// A StepInTarget can be used in the 'stepIn' request and determines into which single target the
/// stepIn request should step.
#[derive(Clone, PartialEq, Debug)]
pub struct StepInTarget {
    /// Unique identifier for a stepIn target.
    pub id: i64,
    /// The name of the stepIn target (shown in the UI).
    pub label: String,
}

/// Arguments for 'stepInTargets' request.
#[derive(Clone, PartialEq, Debug)]
pub struct StepInTargetsArguments {
    /// The stack frame for which to retrieve the possible stepIn targets.
    pub frame_id: i64,
}

#[derive(Clone, PartialEq, Debug)]
pub struct StepInTargetsRequest {
    /// Object containing arguments for the command.
    pub arguments: StepInTargetsArguments,
    /// The command to execute.
    pub command: String,
    /// Sequence number (also known as message ID). For protocol messages of type 'request' this ID
    /// can be used to cancel the request.
    pub seq: i64,
    /// Message type.
    pub type_: String,
}

#[derive(Clone, PartialEq, Debug)]
pub struct StepInTargetsResponseBody {
    /// The possible stepIn targets of the specified source location.
    pub targets: Vec<StepInTarget>,
}

#[derive(Clone, PartialEq, Debug)]
pub struct StepInTargetsResponse {
    /// Contains request result if success is true and optional error details if success is false.
    pub body: StepInTargetsResponseBody,
    /// The command requested.
    pub command: String,
    /// Contains the raw error in short form if 'success' is false.
    /// This raw error might be interpreted by the frontend and is not shown in the UI.
    /// Some predefined values exist.
    pub message: Option<String>,
    /// Sequence number of the corresponding request.
    pub request_seq: i64,
    /// Sequence number (also known as message ID). For protocol messages of type 'request' this ID
    /// can be used to cancel the request.
    pub seq: i64,
    /// Outcome of the request.
    /// If true, the request was successful and the 'body' attribute may contain the result of the
    /// request.
    /// If the value is false, the attribute 'message' contains the error in short form and the
    /// 'body' may contain additional information (see 'ErrorResponse.body.error').
    pub success: bool,
    /// Message type.
    pub type_: String,
}

/// Arguments for 'stepOut' request.
#[derive(Clone, PartialEq, Debug)]
pub struct StepOutArguments {
    /// Optional granularity to step. If no granularity is specified, a granularity of 'statement'
    /// is assumed.
    pub granularity: Option<SteppingGranularity>,
    /// If this optional flag is true, all other suspended threads are not resumed.
    pub single_thread: Option<bool>,
    /// Specifies the thread for which to resume execution for one step-out (of the given
    /// granularity).
    pub thread_id: i64,
}

#[derive(Clone, PartialEq, Debug)]
pub struct StepOutRequest {
    /// Object containing arguments for the command.
    pub arguments: StepOutArguments,
    /// The command to execute.
    pub command: String,
    /// Sequence number (also known as message ID). For protocol messages of type 'request' this ID
    /// can be used to cancel the request.
    pub seq: i64,
    /// Message type.
    pub type_: String,
}

/// The granularity of one 'step' in the stepping requests 'next', 'stepIn', 'stepOut', and
/// 'stepBack'.
#[derive(Clone, PartialEq, Debug)]
pub enum SteppingGranularity {
    Statement,
    Line,
    Instruction,
}

#[derive(Clone, PartialEq, Debug)]
pub struct StoppedEventBody {
    /// If 'allThreadsStopped' is true, a debug adapter can announce that all threads have stopped.
    /// - The client should use this information to enable that all threads can be expanded to
    /// access their stacktraces.
    /// - If the attribute is missing or false, only the thread with the given threadId can be
    /// expanded.
    pub all_threads_stopped: Option<bool>,
    /// The full reason for the event, e.g. 'Paused on exception'. This string is shown in the UI
    /// as is and must be translated.
    pub description: Option<String>,
    /// Ids of the breakpoints that triggered the event. In most cases there will be only a single
    /// breakpoint but here are some examples for multiple breakpoints:
    /// - Different types of breakpoints map to the same location.
    /// - Multiple source breakpoints get collapsed to the same instruction by the
    /// compiler/runtime.
    /// - Multiple function breakpoints with different function names map to the same location.
    pub hit_breakpoint_ids: Option<Vec<i64>>,
    /// A value of true hints to the frontend that this event should not change the focus.
    pub preserve_focus_hint: Option<bool>,
    /// The reason for the event.
    /// For backward compatibility this string is shown in the UI if the 'description' attribute is
    /// missing (but it must not be translated).
    pub reason: String,
    /// Additional information. E.g. if reason is 'exception', text contains the exception name.
    /// This string is shown in the UI.
    pub text: Option<String>,
    /// The thread which was stopped.
    pub thread_id: Option<i64>,
}

#[derive(Clone, PartialEq, Debug)]
pub struct StoppedEvent {
    /// Event-specific information.
    pub body: StoppedEventBody,
    /// Type of event.
    pub event: String,
    /// Sequence number (also known as message ID). For protocol messages of type 'request' this ID
    /// can be used to cancel the request.
    pub seq: i64,
    /// Message type.
    pub type_: String,
}

/// Arguments for 'terminate' request.
#[derive(Clone, PartialEq, Debug, Default)]
pub struct TerminateArguments {
    /// A value of true indicates that this 'terminate' request is part of a restart sequence.
    pub restart: Option<bool>,
}

#[derive(Clone, PartialEq, Debug)]
pub struct TerminateRequest {
    /// Object containing arguments for the command.
    pub arguments: Option<TerminateArguments>,
    /// The command to execute.
    pub command: String,
    /// Sequence number (also known as message ID). For protocol messages of type 'request' this ID
    /// can be used to cancel the request.
    pub seq: i64,
    /// Message type.
    pub type_: String,
}

/// Arguments for 'terminateThreads' request.
#[derive(Clone, PartialEq, Debug, Default)]
pub struct TerminateThreadsArguments {
    /// Ids of threads to be terminated.
    pub thread_ids: Option<Vec<i64>>,
}

#[derive(Clone, PartialEq, Debug)]
pub struct TerminateThreadsRequest {
    /// Object containing arguments for the command.
    pub arguments: TerminateThreadsArguments,
    /// The command to execute.
    pub command: String,
    /// Sequence number (also known as message ID). For protocol messages of type 'request' this ID
    /// can be used to cancel the request.
    pub seq: i64,
    /// Message type.
    pub type_: String,
}

/// A Thread
#[derive(Clone, PartialEq, Debug)]
pub struct Thread {
    /// Unique identifier for the thread.
    pub id: i64,
    /// A name of the thread.
    pub name: String,
}

#[derive(Clone, PartialEq, Debug)]
pub struct ThreadEventBody {
    /// The reason for the event.
    pub reason: String,
    /// The identifier of the thread.
    pub thread_id: i64,
}

#[derive(Clone, PartialEq, Debug)]
pub struct ThreadEvent {
    /// Event-specific information.
    pub body: ThreadEventBody,
    /// Type of event.
    pub event: String,
    /// Sequence number (also known as message ID). For protocol messages of type 'request' this ID
    /// can be used to cancel the request.
    pub seq: i64,
    /// Message type.
    pub type_: String,
}

#[derive(Clone, PartialEq, Debug)]
pub struct ThreadsResponseBody {
    /// All threads.
    pub threads: Vec<Thread>,
}

#[derive(Clone, PartialEq, Debug)]
pub struct ThreadsResponse {
    /// Contains request result if success is true and optional error details if success is false.
    pub body: ThreadsResponseBody,
    /// The command requested.
    pub command: String,
    /// Contains the raw error in short form if 'success' is false.
    /// This raw error might be interpreted by the frontend and is not shown in the UI.
    /// Some predefined values exist.
    pub message: Option<String>,
    /// Sequence number of the corresponding request.
    pub request_seq: i64,
    /// Sequence number (also known as message ID). For protocol messages of type 'request' this ID
    /// can be used to cancel the request.
    pub seq: i64,
    /// Outcome of the request.
    /// If true, the request was successful and the 'body' attribute may contain the result of the
    /// request.
    /// If the value is false, the attribute 'message' contains the error in short form and the
    /// 'body' may contain additional information (see 'ErrorResponse.body.error').
    pub success: bool,
    /// Message type.
    pub type_: String,
}

/// Provides formatting information for a value.
#[derive(Clone, PartialEq, Debug, Default)]
pub struct ValueFormat {
    /// Display the value in hex.
    pub hex: Option<bool>,
}

/// A Variable is a name/value pair.
/// Optionally a variable can have a 'type' that is shown if space permits or when hovering over
/// the variable's name.
/// An optional 'kind' is used to render additional properties of the variable, e.g. different
/// icons can be used to indicate that a variable is public or private.
/// If the value is structured (has children), a handle is provided to retrieve the children with
/// the VariablesRequest.
/// If the number of named or indexed children is large, the numbers should be returned via the
/// optional 'namedVariables' and 'indexedVariables' attributes.
/// The client can use this optional information to present the children in a paged UI and fetch
/// them in chunks.
#[derive(Clone, PartialEq, Debug)]
pub struct Variable {
    /// Optional evaluatable name of this variable which can be passed to the 'EvaluateRequest' to
    /// fetch the variable's value.
    pub evaluate_name: Option<String>,
    /// The number of indexed child variables.
    /// The client can use this optional information to present the children in a paged UI and
    /// fetch them in chunks.
    pub indexed_variables: Option<i64>,
    /// Optional memory reference for the variable if the variable represents executable code, such
    /// as a function pointer.
    /// This attribute is only required if the client has passed the value true for the
    /// 'supportsMemoryReferences' capability of the 'initialize' request.
    pub memory_reference: Option<String>,
    /// The variable's name.
    pub name: String,
    /// The number of named child variables.
    /// The client can use this optional information to present the children in a paged UI and
    /// fetch them in chunks.
    pub named_variables: Option<i64>,
    /// Properties of a variable that can be used to determine how to render the variable in the
    /// UI.
    pub presentation_hint: Option<VariablePresentationHint>,
    /// The type of the variable's value. Typically shown in the UI when hovering over the value.
    /// This attribute should only be returned by a debug adapter if the client has passed the
    /// value true for the 'supportsVariableType' capability of the 'initialize' request.
    pub type_: Option<String>,
    /// The variable's value.
    /// This can be a multi-line text, e.g. for a function the body of a function.
    /// For structured variables (which do not have a simple value), it is recommended to provide a
    /// one line representation of the structured object. This helps to identify the structured
    /// object in the collapsed state when its children are not yet visible.
    /// An empty string can be used if no value should be shown in the UI.
    pub value: String,
    /// If variablesReference is > 0, the variable is structured and its children can be retrieved
    /// by passing variablesReference to the VariablesRequest.
    pub variables_reference: i64,
}

/// Optional properties of a variable that can be used to determine how to render the variable in
/// the UI.
#[derive(Clone, PartialEq, Debug, Default)]
pub struct VariablePresentationHint {
    /// Set of attributes represented as an array of strings. Before introducing additional values,
    /// try to use the listed values.
    pub attributes: Option<Vec<String>>,
    /// The kind of variable. Before introducing additional values, try to use the listed values.
    pub kind: Option<String>,
    /// If true, clients can present the variable with a UI that supports a specific gesture to
    /// trigger its evaluation.
    /// This mechanism can be used for properties that require executing code when retrieving their
    /// value and where the code execution can be expensive and/or produce side-effects. A typical
    /// example are properties based on a getter function.
    /// Please note that in addition to the 'lazy' flag, the variable's 'variablesReference' must
    /// refer to a variable that will provide the value through another 'variable' request.
    pub lazy: Option<bool>,
    /// Visibility of variable. Before introducing additional values, try to use the listed values.
    pub visibility: Option<String>,
}

/// Arguments for 'variables' request.
#[derive(Clone, PartialEq, Debug)]
pub struct VariablesArguments {
    /// The number of variables to return. If count is missing or 0, all variables are returned.
    pub count: Option<i64>,
    /// Optional filter to limit the child variables to either named or indexed. If omitted, both
    /// types are fetched.
    pub filter: Option<String>,
    /// Specifies details on how to format the Variable values.
    /// The attribute is only honored by a debug adapter if the capability
    /// 'supportsValueFormattingOptions' is true.
    pub format: Option<ValueFormat>,
    /// The index of the first variable to return; if omitted children start at 0.
    pub start: Option<i64>,
    /// The Variable reference.
    pub variables_reference: i64,
}

#[derive(Clone, PartialEq, Debug)]
pub struct VariablesRequest {
    /// Object containing arguments for the command.
    pub arguments: VariablesArguments,
    /// The command to execute.
    pub command: String,
    /// Sequence number (also known as message ID). For protocol messages of type 'request' this ID
    /// can be used to cancel the request.
    pub seq: i64,
    /// Message type.
    pub type_: String,
}

#[derive(Clone, PartialEq, Debug)]
pub struct VariablesResponseBody {
    /// All (or a range) of variables for the given variable reference.
    pub variables: Vec<Variable>,
}

#[derive(Clone, PartialEq, Debug)]
pub struct VariablesResponse {
    /// Contains request result if success is true and optional error details if success is false.
    pub body: VariablesResponseBody,
    /// The command requested.
    pub command: String,
    /// Contains the raw error in short form if 'success' is false.
    /// This raw error might be interpreted by the frontend and is not shown in the UI.
    /// Some predefined values exist.
    pub message: Option<String>,
    /// Sequence number of the corresponding request.
    pub request_seq: i64,
    /// Sequence number (also known as message ID). For protocol messages of type 'request' this ID
    /// can be used to cancel the request.
    pub seq: i64,
    /// Outcome of the request.
    /// If true, the request was successful and the 'body' attribute may contain the result of the
    /// request.
    /// If the value is false, the attribute 'message' contains the error in short form and the
    /// 'body' may contain additional information (see 'ErrorResponse.body.error').
    pub success: bool,
    /// Message type.
    pub type_: String,
}

/// Arguments for 'writeMemory' request.
#[derive(Clone, PartialEq, Debug)]
pub struct WriteMemoryArguments {
    /// Optional property to control partial writes. If true, the debug adapter should attempt to
    /// write memory even if the entire memory region is not writable. In such a case the debug
    /// adapter should stop after hitting the first byte of memory that cannot be written and
    /// return the number of bytes written in the response via the 'offset' and 'bytesWritten'
    /// properties.
    /// If false or missing, a debug adapter should attempt to verify the region is writable before
    /// writing, and fail the response if it is not.
    pub allow_partial: Option<bool>,
    /// Bytes to write, encoded using base64.
    pub data: String,
    /// Memory reference to the base location to which data should be written.
    pub memory_reference: String,
    /// Optional offset (in bytes) to be applied to the reference location before writing data. Can
    /// be negative.
    pub offset: Option<i64>,
}

#[derive(Clone, PartialEq, Debug)]
pub struct WriteMemoryRequest {
    /// Object containing arguments for the command.
    pub arguments: WriteMemoryArguments,
    /// The command to execute.
    pub command: String,
    /// Sequence number (also known as message ID). For protocol messages of type 'request' this ID
    /// can be used to cancel the request.
    pub seq: i64,
    /// Message type.
    pub type_: String,
}

#[derive(Clone, PartialEq, Debug, Default)]
pub struct WriteMemoryResponseBody {
    /// Optional property that should be returned when 'allowPartial' is true to indicate the
    /// number of bytes starting from address that were successfully written.
    pub bytes_written: Option<i64>,
    /// Optional property that should be returned when 'allowPartial' is true to indicate the
    /// offset of the first byte of data successfully written. Can be negative.
    pub offset: Option<i64>,
}

#[derive(Clone, PartialEq, Debug)]
pub struct WriteMemoryResponse {
    /// Contains request result if success is true and optional error details if success is false.
    pub body: Option<WriteMemoryResponseBody>,
    /// The command requested.
    pub command: String,
    /// Contains the raw error in short form if 'success' is false.
    /// This raw error might be interpreted by the frontend and is not shown in the UI.
    /// Some predefined values exist.
    pub message: Option<String>,
    /// Sequence number of the corresponding request.
    pub request_seq: i64,
    /// Sequence number (also known as message ID). For protocol messages of type 'request' this ID
    /// can be used to cancel the request.
    pub seq: i64,
    /// Outcome of the request.
    /// If true, the request was successful and the 'body' attribute may contain the result of the
    /// request.
    /// If the value is false, the attribute 'message' contains the error in short form and the
    /// 'body' may contain additional information (see 'ErrorResponse.body.error').
    pub success: bool,
    /// Message type.
    pub type_: String,
}
} // verus!
