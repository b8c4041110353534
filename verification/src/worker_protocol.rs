//! The protocol between the service and the worker of a session: messages,
//! their envelopes, and the lines they travel in.

use crate::debug::{DebugCommandResult, DebugMemoryResult, DebugTarget};
use crate::json::Json;
use crate::model::{OperationRef, SessionRef, Timestamp};
use crate::path::{HostPath, JoinedPath};
use crate::text;
use vstd::prelude::*;
use vstd::string::*;
use vstd::utf8::*;

verus! {

pub const WORKER_PROTOCOL_VERSION: u32 = 2;

/// A message, with the version of the protocol and the request it belongs to.
#[derive(Debug, PartialEq, Eq)]
pub struct WorkerEnvelope<T> {
    pub version: u32,
    pub request_id: String,
    pub message: T,
}

impl<T> WorkerEnvelope<T> {
    pub fn new(request_id: &str, message: T) -> (envelope: Self)
        ensures
            envelope.version == WORKER_PROTOCOL_VERSION,
            envelope.request_id@ == request_id@,
            envelope.message == message,
    {
        WorkerEnvelope {
            version: WORKER_PROTOCOL_VERSION,
            request_id: request_id.to_owned(),
            message,
        }
    }
}

/// What a worker is asked.
#[derive(Debug, PartialEq, Eq)]
pub enum WorkerRequest {
    StartDebugSession { session_id: SessionRef, target: DebugTarget, artifact_dir: HostPath },
    EvalDebugCommand {
        session_id: SessionRef,
        operation_id: OperationRef,
        command: String,
        artifact_dir: HostPath,
    },
    AddSymbols {
        session_id: SessionRef,
        operation_id: OperationRef,
        symbol_path: String,
        reload: bool,
        artifact_dir: HostPath,
    },
    ReadMemory {
        session_id: SessionRef,
        operation_id: OperationRef,
        address: u64,
        length: u64,
        artifact_dir: HostPath,
    },
    OpenReverseSession {
        session_id: SessionRef,
        ida_install_dir: HostPath,
        database_path: HostPath,
        artifact_dir: HostPath,
    },
    LookupReverseFunction {
        session_id: SessionRef,
        operation_id: OperationRef,
        runtime_address: u64,
        runtime_module_base: u64,
        ida_image_base: u64,
        artifact_dir: HostPath,
    },
    ReverseCoreFunction {
        session_id: SessionRef,
        operation_id: OperationRef,
        function: String,
        arguments: Json,
        artifact_dir: HostPath,
    },
    CloseReverseSession { session_id: SessionRef },
    CloseSession { session_id: SessionRef },
    KillSession { session_id: SessionRef },
    CancelOperation { session_id: SessionRef, operation_id: OperationRef },
}

/// The session that a request is for.
pub open spec fn request_session(request: WorkerRequest) -> SessionRef {
    match request {
        WorkerRequest::StartDebugSession { session_id, .. } => session_id,
        WorkerRequest::EvalDebugCommand { session_id, .. } => session_id,
        WorkerRequest::AddSymbols { session_id, .. } => session_id,
        WorkerRequest::ReadMemory { session_id, .. } => session_id,
        WorkerRequest::OpenReverseSession { session_id, .. } => session_id,
        WorkerRequest::LookupReverseFunction { session_id, .. } => session_id,
        WorkerRequest::ReverseCoreFunction { session_id, .. } => session_id,
        WorkerRequest::CloseReverseSession { session_id } => session_id,
        WorkerRequest::CloseSession { session_id } => session_id,
        WorkerRequest::KillSession { session_id } => session_id,
        WorkerRequest::CancelOperation { session_id, .. } => session_id,
    }
}

impl WorkerRequest {
    pub fn session_id(&self) -> (session: &SessionRef)
        ensures
            *session == request_session(*self),
    {
        match self {
            WorkerRequest::StartDebugSession { session_id, .. } => session_id,
            WorkerRequest::EvalDebugCommand { session_id, .. } => session_id,
            WorkerRequest::AddSymbols { session_id, .. } => session_id,
            WorkerRequest::ReadMemory { session_id, .. } => session_id,
            WorkerRequest::OpenReverseSession { session_id, .. } => session_id,
            WorkerRequest::LookupReverseFunction { session_id, .. } => session_id,
            WorkerRequest::ReverseCoreFunction { session_id, .. } => session_id,
            WorkerRequest::CloseReverseSession { session_id } => session_id,
            WorkerRequest::CloseSession { session_id } => session_id,
            WorkerRequest::KillSession { session_id } => session_id,
            WorkerRequest::CancelOperation { session_id, .. } => session_id,
        }
    }
}

/// A file that a worker wrote.
#[derive(Debug, PartialEq, Eq)]
pub struct WorkerArtifactWrite {
    pub relative_path: JoinedPath,
    pub kind: String,
    pub byte_len: u64,
    pub description: Option<String>,
}

/// What a core function gave.
#[derive(Debug, PartialEq, Eq)]
pub struct ReverseCoreFunctionResult {
    pub function: String,
    pub result: Json,
    pub warnings: Vec<String>,
}

/// A function that was looked up.
#[derive(Debug, PartialEq, Eq)]
pub struct ReverseFunctionLookupResult {
    pub runtime_address: u64,
    pub runtime_module_base: u64,
    pub rva: u64,
    pub ida_image_base: u64,
    pub ida_ea: u64,
    pub function_start: u64,
    pub function_end: u64,
    pub function_name: String,
    pub found: bool,
}

/// What a worker answers.
#[derive(Debug, PartialEq, Eq)]
pub enum WorkerResponse {
    Done { summary: String, writes: Vec<WorkerArtifactWrite> },
    DebugCommand { result: DebugCommandResult, writes: Vec<WorkerArtifactWrite> },
    DebugMemory { result: DebugMemoryResult, writes: Vec<WorkerArtifactWrite> },
    ReverseSessionOpened { writes: Vec<WorkerArtifactWrite> },
    ReverseFunctionLookup {
        result: ReverseFunctionLookupResult,
        writes: Vec<WorkerArtifactWrite>,
    },
    ReverseCoreFunction {
        result: ReverseCoreFunctionResult,
        writes: Vec<WorkerArtifactWrite>,
    },
    Failed { code: String, message: String, writes: Vec<WorkerArtifactWrite> },
}

/// The files that an answer names.
pub open spec fn response_writes(response: WorkerResponse) -> Vec<WorkerArtifactWrite> {
    match response {
        WorkerResponse::Done { writes, .. } => writes,
        WorkerResponse::DebugCommand { writes, .. } => writes,
        WorkerResponse::DebugMemory { writes, .. } => writes,
        WorkerResponse::ReverseSessionOpened { writes } => writes,
        WorkerResponse::ReverseFunctionLookup { writes, .. } => writes,
        WorkerResponse::ReverseCoreFunction { writes, .. } => writes,
        WorkerResponse::Failed { writes, .. } => writes,
    }
}

/// The answer says that something was done, and names no file.
pub open spec fn is_ok(response: WorkerResponse, summary: Seq<char>) -> bool {
    &&& response matches WorkerResponse::Done { summary: told, writes }
    &&& told@ == summary
    &&& writes@.len() == 0
}

/// The answer is a failure, and names no file.
pub open spec fn is_failed(response: WorkerResponse, code: Seq<char>, message: Seq<char>) -> bool {
    &&& response matches WorkerResponse::Failed { code: named, message: told, writes }
    &&& named@ == code
    &&& told@ == message
    &&& writes@.len() == 0
}

impl WorkerResponse {
    pub fn ok(summary: &str) -> (response: Self)
        ensures
            is_ok(response, summary@),
    {
        WorkerResponse::Done { summary: summary.to_owned(), writes: Vec::new() }
    }

    pub fn ok_with_writes(summary: &str, writes: Vec<WorkerArtifactWrite>) -> (response: Self)
        ensures
            response matches WorkerResponse::Done { summary: told, writes: named } && told@
                == summary@ && named == writes,
    {
        WorkerResponse::Done { summary: summary.to_owned(), writes }
    }

    pub fn failed(code: &str, message: &str) -> (response: Self)
        ensures
            is_failed(response, code@, message@),
    {
        WorkerResponse::Failed {
            code: code.to_owned(),
            message: message.to_owned(),
            writes: Vec::new(),
        }
    }

    /// The files that the answer names.
    pub fn writes(&self) -> (writes: &Vec<WorkerArtifactWrite>)
        ensures
            *writes == response_writes(*self),
    {
        match self {
            WorkerResponse::Done { writes, .. } => writes,
            WorkerResponse::DebugCommand { writes, .. } => writes,
            WorkerResponse::DebugMemory { writes, .. } => writes,
            WorkerResponse::ReverseSessionOpened { writes } => writes,
            WorkerResponse::ReverseFunctionLookup { writes, .. } => writes,
            WorkerResponse::ReverseCoreFunction { writes, .. } => writes,
            WorkerResponse::Failed { writes, .. } => writes,
        }
    }
}

/// What a worker tells of a session.
#[derive(Debug, PartialEq, Eq)]
pub enum WorkerEvent {
    StateChanged { session_id: SessionRef, state: String, timestamp: Timestamp },
    Output {
        session_id: SessionRef,
        operation_id: OperationRef,
        text: String,
        timestamp: Timestamp,
    },
}

/// Why a message is not understood.
#[derive(Debug, PartialEq, Eq)]
pub enum WorkerProtocolError {
    UnsupportedVersion { actual: u32, expected: u32 },
    /// The document could not be read or written, by the reader's message.
    Json(String),
}

/// The text of an error.
pub open spec fn protocol_error_text(error: WorkerProtocolError) -> Seq<char> {
    match error {
        WorkerProtocolError::UnsupportedVersion { actual, expected } => "unsupported worker protocol version "@
            + text::decimal(actual as nat) + "; expected "@ + text::decimal(expected as nat),
        WorkerProtocolError::Json(reason) => reason@,
    }
}

impl WorkerProtocolError {
    /// The error as text.
    pub fn message(&self) -> (message: String)
        ensures
            message@ == protocol_error_text(*self),
    {
        match self {
            WorkerProtocolError::UnsupportedVersion {
                actual,
                expected,
            } => "unsupported worker protocol version ".to_owned().concat(
                text::decimal_text(*actual as u64).as_str(),
            ).concat("; expected ").concat(text::decimal_text(*expected as u64).as_str()),
            WorkerProtocolError::Json(reason) => reason.clone(),
        }
    }
}

/// The line that a message travels in. `written` is the message as a document.
pub fn encode_jsonl(written: Result<String, String>) -> (line: Result<String, WorkerProtocolError>)
    ensures
        match written {
            Ok(document) => line matches Ok(framed) && framed@ == document@ + seq!['\n'],
            Err(reason) => line == Err::<String, WorkerProtocolError>(
                WorkerProtocolError::Json(reason),
            ),
        },
{
    match written {
        Err(reason) => Err(WorkerProtocolError::Json(reason)),
        Ok(document) => {
            proof {
                reveal_strlit("\n");
                assert("\n"@ =~= seq!['\n']);
            }
            Ok(document.concat("\n"))
        },
    }
}

/// What reading a message gives: it is of this version, or it is refused.
pub open spec fn decoded<T>(read: Result<WorkerEnvelope<T>, String>) -> Result<
    WorkerEnvelope<T>,
    WorkerProtocolError,
> {
    match read {
        Err(reason) => Err(WorkerProtocolError::Json(reason)),
        Ok(found) => if found.version == WORKER_PROTOCOL_VERSION {
            Ok(found)
        } else {
            Err(
                WorkerProtocolError::UnsupportedVersion {
                    actual: found.version,
                    expected: WORKER_PROTOCOL_VERSION,
                },
            )
        },
    }
}

/// Accepts a message of this version of the protocol. `read` is what the line
/// holds, as a document.
pub fn decode_jsonl<T>(read: Result<WorkerEnvelope<T>, String>) -> (envelope: Result<
    WorkerEnvelope<T>,
    WorkerProtocolError,
>)
    ensures
        envelope == decoded(read),
{
    match read {
        Err(reason) => Err(WorkerProtocolError::Json(reason)),
        Ok(envelope) => {
            if envelope.version != WORKER_PROTOCOL_VERSION {
                return Err(
                    WorkerProtocolError::UnsupportedVersion {
                        actual: envelope.version,
                        expected: WORKER_PROTOCOL_VERSION,
                    },
                );
            }
            Ok(envelope)
        },
    }
}

/// The longest line that is read, without its end.
pub const MAX_LINE_BYTES: usize = 1_048_576;

/// Why no line was read.
#[derive(Debug, PartialEq, Eq)]
pub enum LineError {
    Closed,
    TooLarge,
    /// The bytes are not UTF-8, by the reader's message.
    NotUtf8(String),
}

/// The text of an error.
pub open spec fn line_error_text(error: LineError) -> Seq<char> {
    match error {
        LineError::Closed => "pipe closed before request"@,
        LineError::TooLarge => "request line is too large"@,
        LineError::NotUtf8(reason) => reason@,
    }
}

impl LineError {
    /// The error as text.
    pub fn message(&self) -> (message: String)
        ensures
            message@ == line_error_text(*self),
    {
        match self {
            LineError::Closed => "pipe closed before request".to_owned(),
            LineError::TooLarge => "request line is too large".to_owned(),
            LineError::NotUtf8(reason) => reason.clone(),
        }
    }
}

/// A line that is being read, byte by byte.
#[derive(Debug)]
pub struct LineReader {
    pub bytes: Vec<u8>,
}

/// How reading a line goes on.
#[derive(Debug)]
pub enum LineStep {
    More(LineReader),
    Line(String),
    Failed(LineError),
}

/// How reading goes on after the bytes so far and the next one.
pub enum LineView {
    More(Seq<u8>),
    Line(Seq<u8>),
    Closed,
    TooLarge,
}

/// How reading goes on after `bytes` and what is read next.
pub open spec fn line_step(bytes: Seq<u8>, read: Option<u8>) -> LineView {
    match read {
        None => LineView::Closed,
        Some(byte) => if byte == 10 {
            LineView::Line(bytes.push(byte))
        } else if bytes.len() + 1 > MAX_LINE_BYTES {
            LineView::TooLarge
        } else {
            LineView::More(bytes.push(byte))
        },
    }
}

impl LineReader {
    /// A line of which nothing was read.
    pub fn new() -> (reader: Self)
        ensures
            reader.bytes@ == Seq::<u8>::empty(),
    {
        LineReader { bytes: Vec::new() }
    }

    /// Takes the next byte; `None` where the other side is gone.
    pub fn read_jsonl_line(self, read: Option<u8>) -> (step: LineStep)
        ensures
            match line_step(self.bytes@, read) {
                LineView::More(bytes) => step matches LineStep::More(reader) && reader.bytes@
                    == bytes,
                LineView::Line(bytes) => match step {
                    LineStep::Line(line) => valid_utf8(bytes) && line@ == decode_utf8(bytes),
                    LineStep::Failed(LineError::NotUtf8(reason)) => !valid_utf8(bytes) && reason@
                        == text::utf8_reason(bytes),
                    _ => false,
                },
                LineView::Closed => step == LineStep::Failed(LineError::Closed),
                LineView::TooLarge => step == LineStep::Failed(LineError::TooLarge),
            },
    {
        let byte: u8 = match read {
            None => return LineStep::Failed(LineError::Closed),
            Some(byte) => byte,
        };
        let mut bytes: Vec<u8> = self.bytes;
        bytes.push(byte);
        if byte == 10 {
            return match text::utf8_text(bytes) {
                Ok(line) => LineStep::Line(line),
                Err(reason) => LineStep::Failed(LineError::NotUtf8(reason)),
            };
        }
        if bytes.len() > MAX_LINE_BYTES {
            return LineStep::Failed(LineError::TooLarge);
        }
        LineStep::More(LineReader { bytes })
    }
}

/// What reading a line from `input` gives, after `bytes` of it were read: the
/// end of reading, and the input that is left.
pub open spec fn read_line(bytes: Seq<u8>, input: Seq<u8>) -> (LineView, Seq<u8>)
    decreases input.len(),
{
    if input.len() == 0 {
        (line_step(bytes, None), input)
    } else {
        match line_step(bytes, Some(input[0])) {
            LineView::More(more) => read_line(more, input.drop_first()),
            step => (step, input.drop_first()),
        }
    }
}

/// Reading stops behind the end of the line.
proof fn lemma_reads_to_the_end(bytes: Seq<u8>, line: Seq<u8>, rest: Seq<u8>)
    requires
        !line.contains(10u8),
        bytes.len() + line.len() <= MAX_LINE_BYTES,
    ensures
        read_line(bytes, line.push(10u8) + rest) == (LineView::Line(bytes + line.push(10u8)), rest),
    decreases line.len(),
{
    let input = line.push(10u8) + rest;
    if line.len() == 0 {
        assert(input[0] == 10u8);
        assert(input.drop_first() =~= rest);
        assert(bytes + line.push(10u8) =~= bytes.push(10u8));
    } else {
        assert(input[0] == line[0]);
        assert(line.contains(line[0]));
        let behind = line.drop_first();
        assert(!behind.contains(10u8)) by {
            if behind.contains(10u8) {
                let i = choose|i: int| 0 <= i < behind.len() && behind[i] == 10u8;
                assert(line[i + 1] == 10u8);
            }
        }
        lemma_reads_to_the_end(bytes.push(line[0]), behind, rest);
        assert(input.drop_first() =~= behind.push(10u8) + rest);
        assert(bytes.push(line[0]) + behind.push(10u8) =~= bytes + line.push(10u8));
    }
}

/// What is written as a line is read back as that line, whatever follows it: a
/// document without a line break, of at most the length that is read, comes
/// back with its end, and reading goes on behind it.
pub proof fn law_lines_are_read_back(document: Seq<char>, rest: Seq<u8>)
    requires
        !document.contains('\n'),
        encode_utf8(document).len() <= MAX_LINE_BYTES,
    ensures
        ({
            let line = document + seq!['\n'];
            let (end, left) = read_line(seq![], encode_utf8(line) + rest);
            &&& left == rest
            &&& end matches LineView::Line(bytes)
            &&& valid_utf8(bytes)
            &&& decode_utf8(bytes) == line
        }),
{
    let line = document + seq!['\n'];
    text::lemma_ascii_bytes(document, '\n');
    text::lemma_encoded_sum(document, seq!['\n']);
    text::lemma_line_feed();
    let bytes = encode_utf8(document);
    assert(encode_utf8(line) =~= bytes.push(10u8));
    lemma_reads_to_the_end(seq![], bytes, rest);
    assert(seq![] + bytes.push(10u8) =~= encode_utf8(line));
    encode_utf8_valid_utf8(line);
    encode_utf8_decode_utf8(line);
}

/// A message comes back from its line: the line ends with its only line break,
/// it is read back whole whatever follows it, and what it holds is the message
/// where it was made by this version, and is refused by its version where it
/// was made by another. `reads` is the reader of documents, which gives back
/// what was written.
pub proof fn law_messages_are_read_back<T>(
    envelope: WorkerEnvelope<T>,
    document: Seq<char>,
    rest: Seq<u8>,
    reads: spec_fn(Seq<char>) -> Result<WorkerEnvelope<T>, String>,
)
    requires
        !document.contains('\n'),
        encode_utf8(document).len() <= MAX_LINE_BYTES,
        reads(document + seq!['\n']) == Ok::<WorkerEnvelope<T>, String>(envelope),
    ensures
        ({
            let line = document + seq!['\n'];
            let (end, left) = read_line(seq![], encode_utf8(line) + rest);
            &&& line.last() == '\n'
            &&& !line.drop_last().contains('\n')
            &&& left == rest
            &&& end matches LineView::Line(bytes)
            &&& valid_utf8(bytes)
            &&& decoded(reads(decode_utf8(bytes))) == (if envelope.version
                == WORKER_PROTOCOL_VERSION {
                Ok::<WorkerEnvelope<T>, WorkerProtocolError>(envelope)
            } else {
                Err(
                    WorkerProtocolError::UnsupportedVersion {
                        actual: envelope.version,
                        expected: WORKER_PROTOCOL_VERSION,
                    },
                )
            })
        }),
{
    law_lines_are_read_back(document, rest);
    assert((document + seq!['\n']).drop_last() =~= document);
}

/// A message is accepted, unchanged, where it was made by this version, and
/// refused where it was made by another.
pub proof fn law_versions_must_agree<T>(envelope: WorkerEnvelope<T>)
    ensures
        decoded(Ok::<WorkerEnvelope<T>, String>(envelope)) is Ok <==> envelope.version
            == WORKER_PROTOCOL_VERSION,
        envelope.version == WORKER_PROTOCOL_VERSION ==> decoded(
            Ok::<WorkerEnvelope<T>, String>(envelope),
        ) == Ok::<WorkerEnvelope<T>, WorkerProtocolError>(envelope),
{
}

} // verus!
