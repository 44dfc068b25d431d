//! The output of a build, read line by line.
//!
//! Each line is one record. Most records are events of the build; a line
//! that the reader does not know how to decode comes out as text, and is
//! looked at here: it may be a record of a kind that the reader has not
//! heard of, which is passed over, or no record at all, which ends the
//! reading.

use cargo_metadata::camino::Utf8PathBuf;
use cargo_metadata::{Message, MessageIter};
use vstd::prelude::*;

use crate::event::{BuildEvent, BuildEventView, StreamError, StreamErrorView};
use crate::metadata::{after_event, initial, outcome, Metadata, MetadataView};
use crate::names::same_text;
use crate::nesting::{deepest_nesting, measure_nesting, NESTING_LIMIT};

verus! {

/// What one line of the output holds.
#[derive(Debug)]
pub enum Record {
    /// An event of the build.
    Event(BuildEvent),
    /// A line that was not decoded, with its text.
    Text(String),
}

/// A [`Record`] as a plain value.
pub enum RecordView {
    Event(BuildEventView),
    Text(Seq<char>),
}

impl View for Record {
    type V = RecordView;

    open spec fn view(&self) -> RecordView {
        match self {
            Record::Event(event) => RecordView::Event(event@),
            Record::Text(line) => RecordView::Text(line@),
        }
    }
}

/// Whether records are known under this name of a kind.
pub open spec fn known_reason(reason: Seq<char>) -> bool {
    ||| reason == "compiler-artifact"@
    ||| reason == "compiler-message"@
    ||| reason == "build-script-executed"@
    ||| reason == "build-finished"@
}

/// What a line that was not decoded stands for, given the kind that it
/// names, if it names one: a record of a kind that is not known is an event
/// like any other that is of no interest; a line that names no kind is no
/// record, and one that names a known kind is not what a record of that
/// kind has to be.
pub open spec fn stray_event(reason: Option<Seq<char>>) -> Result<BuildEventView, StreamErrorView> {
    match reason {
        Some(name) => if known_reason(name) {
            Err(StreamErrorView::Protocol)
        } else {
            Ok(BuildEventView::Other)
        },
        None => Err(StreamErrorView::Protocol),
    }
}

/// The event that a record stands for.
pub open spec fn event_in(record: RecordView) -> Result<BuildEventView, StreamErrorView> {
    match record {
        RecordView::Event(event) => Ok(event),
        RecordView::Text(line) => stray_event(text_field(line, "reason"@)),
    }
}

/// What a stream of records gives, from a state on. A line that could not
/// be read stands in the stream as `None`. The stream is read to its end;
/// the first line that is no record, or that declares a library under a
/// kind that does not exist, ends the reading with its error.
pub open spec fn read_records(state: MetadataView, records: Seq<Option<RecordView>>) -> Result<
    MetadataView,
    StreamErrorView,
>
    decreases records.len(),
{
    if records.len() == 0 {
        Ok(state)
    } else {
        match records[0] {
            None => Err(StreamErrorView::Protocol),
            Some(record) => match event_in(record) {
                Ok(event) => match after_event(state, event) {
                    Ok(next) => read_records(next, records.drop_first()),
                    Err(error) => Err(error),
                },
                Err(error) => Err(error),
            },
        }
    }
}

/// What the output of a build gives. Output with a line that is nested more
/// deeply than [`NESTING_LIMIT`] holds no records.
pub open spec fn read_output(bytes: Seq<u8>) -> Result<MetadataView, StreamErrorView> {
    if deepest_nesting(bytes) <= NESTING_LIMIT {
        read_records(initial(), decoded(bytes))
    } else {
        Err(StreamErrorView::Protocol)
    }
}

/// The outcome of looking at a record as a plain value.
pub open spec fn looked_at(event: Result<BuildEvent, StreamError>) -> Result<
    BuildEventView,
    StreamErrorView,
> {
    match event {
        Ok(event) => Ok(event@),
        Err(error) => Err(error@),
    }
}

/// Whether records are known under this name of a kind.
pub fn is_known_reason(reason: &str) -> (known: bool)
    ensures
        known == known_reason(reason@),
{
    same_text(reason, "compiler-artifact") || same_text(reason, "compiler-message") || same_text(
        reason,
        "build-script-executed",
    ) || same_text(reason, "build-finished")
}

/// Says what a line that was not decoded stands for, given the kind that it
/// names, if it names one.
pub fn stray_line(reason: Option<String>) -> (event: Result<BuildEvent, StreamError>)
    ensures
        looked_at(event) == stray_event(
            match reason {
                Some(name) => Some(name@),
                None => None,
            },
        ),
{
    match reason {
        Some(name) => if is_known_reason(name.as_str()) {
            Err(StreamError::Protocol)
        } else {
            Ok(BuildEvent::Other)
        },
        None => Err(StreamError::Protocol),
    }
}

/// The text of the field `key` of a line of JSON: the line is one JSON
/// object, and the object has that field with a string as its value.
pub uninterp spec fn text_field(line: Seq<char>, key: Seq<char>) -> Option<Seq<char>>;

/// Calls `serde_json::from_str` to read a line as a JSON value, `get` to
/// look up a field in it, and `as_str` for the field's text. Gives the text
/// if the line is one JSON value, the value is an object, and the object
/// has the field with a string as its value; else nothing.
#[verifier::external_body]
fn read_text_field(line: &str, key: &str) -> (found: Option<String>)
    ensures
        found matches Some(text) ==> text_field(line@, key@) == Some(text@),
        found is None ==> text_field(line@, key@) is None,
{
    match serde_json::from_str::<serde_json::Value>(line) {
        Ok(value) => value.get(key)?.as_str().map(String::from),
        Err(_) => None,
    }
}

/// Says which event a record stands for.
pub fn event_of(record: Record) -> (event: Result<BuildEvent, StreamError>)
    ensures
        looked_at(event) == event_in(record@),
{
    match record {
        Record::Event(event) => Ok(event),
        Record::Text(line) => stray_line(read_text_field(line.as_str(), "reason")),
    }
}

/// The stream of messages of `cargo_metadata`, which reads them line by
/// line from its input.
#[verifier::external_type_specification]
#[verifier::external_body]
#[verifier::reject_recursive_types(R)]
pub struct ExMessageIter<R>(MessageIter<R>);

/// The error with which a stream fails to read a line. Nothing is read
/// from it.
#[verifier::external_type_specification]
#[verifier::external_body]
pub struct ExReadError(std::io::Error);

/// The records that `cargo_metadata` reads from the output of a build, one
/// for each line, in their order. A line that it could not read is `None`.
pub uninterp spec fn decoded(bytes: Seq<u8>) -> Seq<Option<RecordView>>;

/// The records that a stream has yet to give.
pub uninterp spec fn pending(stream: MessageIter<&[u8]>) -> Seq<Option<RecordView>>;

/// The deepest nesting in the lines of the output that a stream was opened
/// on.
pub uninterp spec fn opened_depth(stream: MessageIter<&[u8]>) -> nat;

/// Calls `cargo_metadata::Message::parse_stream` on the output of a build.
/// The stream then has the records of that output to give.
#[verifier::external_body]
fn open_stream(bytes: &[u8]) -> (stream: MessageIter<&[u8]>)
    ensures
        pending(stream) == decoded(bytes@),
        opened_depth(stream) == deepest_nesting(bytes@),
{
    Message::parse_stream(bytes)
}

/// Calls `next` on a stream of `cargo_metadata::Message`, which reads one
/// more line. At the end of the input it gives `None`. Else the stream has
/// one record less to give, and the record that it gave comes back: for a
/// line that could not be read the error, else what the line holds. A
/// message `BuildScriptExecuted` is an event of that name with the
/// message's `linked_libs`, a message `CompilerArtifact` the event
/// `CompilerArtifactProduced` with the message's `executable`, a message
/// `TextLine` the text that it holds, and any other message the event
/// `Other`.
///
/// The stream decodes a line without a limit on its nesting, and descends
/// once for each array or object that is open. It is therefore called only
/// on output whose lines are nested no more deeply than [`NESTING_LIMIT`],
/// which is as deep as the decoder goes where it keeps a limit.
#[verifier::external_body]
fn next_record(stream: &mut MessageIter<&[u8]>) -> (record: Option<Result<Record, std::io::Error>>)
    requires
        opened_depth(*old(stream)) <= NESTING_LIMIT,
    ensures
        opened_depth(*final(stream)) == opened_depth(*old(stream)),
        record is None ==> pending(*old(stream)).len() == 0 && pending(*final(stream)) == pending(
            *old(stream),
        ),
        record is Some ==> pending(*old(stream)).len() > 0 && pending(*final(stream)) == pending(
            *old(stream),
        ).drop_first(),
        record matches Some(Ok(held)) ==> pending(*old(stream))[0] == Some(held@),
        record matches Some(Err(_)) ==> pending(*old(stream))[0] is None,
{
    match stream.next()? {
        Ok(Message::BuildScriptExecuted(script)) => Some(Ok(Record::Event(BuildEvent::BuildScriptExecuted {
            linked_libs: script.linked_libs.into_iter().map(Utf8PathBuf::into_string).collect(),
        }))),
        Ok(Message::CompilerArtifact(artifact)) => Some(Ok(Record::Event(BuildEvent::CompilerArtifactProduced {
            executable: artifact.executable.map(Utf8PathBuf::into_string),
        }))),
        Ok(Message::TextLine(line)) => Some(Ok(Record::Text(line))),
        Ok(_) => Some(Ok(Record::Event(BuildEvent::Other))),
        Err(error) => Some(Err(error)),
    }
}

impl Metadata {
    /// Reads the output of a build, which holds one record on each line, to
    /// its end. Output with a line that is nested more deeply than
    /// [`NESTING_LIMIT`] is refused as a whole.
    pub fn from_reader(bytes: &[u8]) -> (read: Result<Metadata, StreamError>)
        ensures
            outcome(read) == read_output(bytes@),
    {
        if measure_nesting(bytes) > NESTING_LIMIT {
            return Err(StreamError::Protocol);
        }
        let mut metadata = Metadata::new();
        let mut stream = open_stream(bytes);
        loop
            invariant
                opened_depth(stream) <= NESTING_LIMIT,
                read_output(bytes@) == read_records(metadata@, pending(stream)),
            decreases pending(stream).len(),
        {
            match next_record(&mut stream) {
                None => {
                    return Ok(metadata);
                },
                Some(Err(_)) => {
                    return Err(StreamError::Protocol);
                },
                Some(Ok(record)) => match event_of(record) {
                    Ok(event) => match metadata.record(&event) {
                        Ok(()) => {},
                        Err(error) => {
                            return Err(error);
                        },
                    },
                    Err(error) => {
                        return Err(error);
                    },
                },
            }
        }
    }
}

} // verus!
