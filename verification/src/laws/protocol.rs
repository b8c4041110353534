//! Laws on the protocol between the service and a worker.

use crate::worker_protocol::{
    decode_jsonl, encode_jsonl, LineError, LineReader, LineStep, WorkerArtifactWrite,
    WorkerEnvelope, WorkerProtocolError, WorkerResponse,
};
use vstd::prelude::*;
use vstd::string::*;
use vstd::utf8::*;

verus! {

/// A message carries the version of the protocol, the request it belongs to,
/// and what was said, and comes out as it went in.
pub proof fn law_messages_carry_their_version<T>(
    request_id: &str,
    message: T,
    envelope: WorkerEnvelope<T>,
    outcome: Result<WorkerEnvelope<T>, WorkerProtocolError>,
)
    requires
        call_ensures(WorkerEnvelope::<T>::new, (request_id, message), envelope),
        call_ensures(decode_jsonl::<T>, (Ok(envelope),), outcome),
    ensures
        envelope.version == 2,
        envelope.request_id@ == request_id@,
        envelope.message == message,
        outcome == Ok::<WorkerEnvelope<T>, WorkerProtocolError>(envelope),
{
}

/// A message of another version is refused by both versions, and what is no
/// message by what the reader said.
pub proof fn law_other_versions_are_refused<T>(
    read: Result<WorkerEnvelope<T>, String>,
    outcome: Result<WorkerEnvelope<T>, WorkerProtocolError>,
)
    requires
        call_ensures(decode_jsonl::<T>, (read,), outcome),
    ensures
        outcome is Ok <==> read is Ok && read->Ok_0.version == 2,
        outcome matches Ok(envelope) ==> read == Ok::<WorkerEnvelope<T>, String>(envelope),
        read matches Err(reason) ==> outcome == Err::<WorkerEnvelope<T>, WorkerProtocolError>(
            WorkerProtocolError::Json(reason),
        ),
        read matches Ok(envelope) ==> (envelope.version != 2 ==> outcome == Err::<
            WorkerEnvelope<T>,
            WorkerProtocolError,
        >(WorkerProtocolError::UnsupportedVersion { actual: envelope.version, expected: 2 })),
{
}

/// A line is the document and a line feed behind it.
pub proof fn law_lines_end_with_a_line_feed(
    written: Result<String, String>,
    line: Result<String, WorkerProtocolError>,
)
    requires
        call_ensures(encode_jsonl, (written,), line),
    ensures
        line is Ok <==> written is Ok,
        line matches Ok(framed) ==> framed@.len() > 0 && framed@.last() == '\n'
            && framed@.drop_last() == written->Ok_0@,
        written matches Err(reason) ==> line == Err::<String, WorkerProtocolError>(
            WorkerProtocolError::Json(reason),
        ),
{
    if let Ok(framed) = line {
        assert(framed@.drop_last() =~= written->Ok_0@);
    }
}

/// A line is read byte by byte up to its line feed, which belongs to it; it is
/// refused where the other side is gone, where it is over a mebibyte long, and
/// where it is not UTF-8.
pub proof fn law_lines_are_read_to_their_end(
    reader: LineReader,
    read: Option<u8>,
    step: LineStep,
)
    requires
        call_ensures(LineReader::read_jsonl_line, (reader, read), step),
    ensures
        read is None ==> step == LineStep::Failed(LineError::Closed),
        read matches Some(byte) ==> {
            let bytes = reader.bytes@.push(byte);
            &&& byte == 10 && valid_utf8(bytes) ==> (step matches LineStep::Line(line)
                && encode_utf8(line@) == bytes)
            &&& byte == 10 && !valid_utf8(bytes) ==> (step matches LineStep::Failed(
                LineError::NotUtf8(_),
            ))
            &&& byte != 10 && reader.bytes@.len() >= 1048576 ==> step == LineStep::Failed(
                LineError::TooLarge,
            )
            &&& byte != 10 && reader.bytes@.len() < 1048576 ==> (step matches LineStep::More(next)
                && next.bytes@ == bytes)
        },
{
    if let Some(byte) = read {
        let bytes = reader.bytes@.push(byte);
        if valid_utf8(bytes) {
            decode_utf8_encode_utf8(bytes);
        }
    }
}

/// A line that nothing was read of is empty.
pub proof fn law_new_lines_are_empty(reader: LineReader)
    requires
        call_ensures(LineReader::new, (), reader),
    ensures
        reader.bytes@.len() == 0,
{
}

/// An answer says what it was made to say and names the files that it was
/// given.
pub proof fn law_answers_say_what_they_are_told(
    summary: &str,
    code: &str,
    message: &str,
    writes: Vec<WorkerArtifactWrite>,
    done: WorkerResponse,
    told: WorkerResponse,
    failed: WorkerResponse,
)
    requires
        call_ensures(WorkerResponse::ok, (summary,), done),
        call_ensures(WorkerResponse::ok_with_writes, (summary, writes), told),
        call_ensures(WorkerResponse::failed, (code, message), failed),
    ensures
        done matches WorkerResponse::Done { summary: given, writes: named } && given@ == summary@
            && named@.len() == 0,
        told matches WorkerResponse::Done { summary: given, writes: named } && given@ == summary@
            && named == writes,
        failed matches WorkerResponse::Failed { code: kind, message: why, writes: named } && kind@
            == code@ && why@ == message@ && named@.len() == 0,
{
}

/// The files of an answer are those that it names, whatever it answers.
pub proof fn law_files_of_an_answer(response: WorkerResponse, writes: &Vec<WorkerArtifactWrite>)
    requires
        call_ensures(WorkerResponse::writes, (&response,), writes),
    ensures
        response matches WorkerResponse::Done { writes: named, .. } ==> *writes == named,
        response matches WorkerResponse::DebugCommand { writes: named, .. } ==> *writes == named,
        response matches WorkerResponse::DebugMemory { writes: named, .. } ==> *writes == named,
        response matches WorkerResponse::ReverseSessionOpened { writes: named } ==> *writes
            == named,
        response matches WorkerResponse::ReverseFunctionLookup { writes: named, .. } ==> *writes
            == named,
        response matches WorkerResponse::ReverseCoreFunction { writes: named, .. } ==> *writes
            == named,
        response matches WorkerResponse::Failed { writes: named, .. } ==> *writes == named,
{
}

} // verus!
