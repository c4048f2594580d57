//! The persisted form of one captured event, and its JSON wire format.

use vstd::prelude::*;
use crate::errors::ErrorKind;
use crate::json::{
    json_document, json_members, json_object_text, lemma_object_of_holds, lookup, member,
    member_view, members_view, object_of, object_text, parse_document, JsonField, JsonFieldView,
};
use crate::text::{opt_view, owned, owned_opt};

verus! {

/// One captured event, with the span it was raised in written out as plain strings.
#[derive(Debug)]
pub struct LogRecord {
    /// When the event was raised: an RFC 3339 text.
    pub timestamp: String,
    /// The severity of the event.
    pub level: String,
    /// The rendered message.
    pub message: String,
    /// The identifier of the innermost span.
    pub span_id: Option<String>,
    /// The identifier of the root of the span chain.
    pub trace_id: String,
    /// The name of the innermost span.
    pub span_name: Option<String>,
    /// The job identifier found on the innermost span.
    pub job_id: Option<String>,
    /// The service name found on the innermost span.
    pub service_name: Option<String>,
}

/// The mathematical view of a [`LogRecord`].
pub struct LogRecordView {
    pub timestamp: Seq<char>,
    pub level: Seq<char>,
    pub message: Seq<char>,
    pub span_id: Option<Seq<char>>,
    pub trace_id: Seq<char>,
    pub span_name: Option<Seq<char>>,
    pub job_id: Option<Seq<char>>,
    pub service_name: Option<Seq<char>>,
}

impl View for LogRecord {
    type V = LogRecordView;

    open spec fn view(&self) -> LogRecordView {
        LogRecordView {
            timestamp: self.timestamp@,
            level: self.level@,
            message: self.message@,
            span_id: opt_view(self.span_id),
            trace_id: self.trace_id@,
            span_name: opt_view(self.span_name),
            job_id: opt_view(self.job_id),
            service_name: opt_view(self.service_name),
        }
    }
}

/// The view of a record that may not be there.
pub open spec fn opt_record_view(record: Option<LogRecord>) -> Option<LogRecordView> {
    match record {
        Some(r) => Some(r@),
        None => None,
    }
}

/// The members of the JSON object that stands for a record, in the order in which they
/// are written. A field that is not set is written as `null`.
pub open spec fn wire_members(r: LogRecordView) -> Seq<(Seq<char>, Option<Seq<char>>)> {
    seq![
        ("timestamp"@, Some(r.timestamp)),
        ("level"@, Some(r.level)),
        ("message"@, Some(r.message)),
        ("span_id"@, r.span_id),
        ("trace_id"@, Some(r.trace_id)),
        ("span_name"@, r.span_name),
        ("job_id"@, r.job_id),
        ("service_name"@, r.service_name),
    ]
}

/// What a member gives for a field that must be there: its text if it is a string.
pub open spec fn required(field: Option<JsonFieldView>) -> Option<Seq<char>> {
    match field {
        Some(JsonFieldView::Text(text)) => Some(text),
        _ => None,
    }
}

/// What a member gives for a field that may be unset: nothing set if it is absent or
/// `null`, its text if it is a string; any other value is refused.
pub open spec fn optional(field: Option<JsonFieldView>) -> Option<Option<Seq<char>>> {
    match field {
        None => Some(None),
        Some(JsonFieldView::Null) => Some(None),
        Some(JsonFieldView::Text(text)) => Some(Some(text)),
        Some(JsonFieldView::Other) => None,
    }
}

/// The record that eight members make, if each of them is acceptable for its field.
pub open spec fn record_of_fields(
    timestamp: Option<JsonFieldView>,
    level: Option<JsonFieldView>,
    message: Option<JsonFieldView>,
    span_id: Option<JsonFieldView>,
    trace_id: Option<JsonFieldView>,
    span_name: Option<JsonFieldView>,
    job_id: Option<JsonFieldView>,
    service_name: Option<JsonFieldView>,
) -> Option<LogRecordView> {
    if required(timestamp) is Some && required(level) is Some && required(message) is Some
        && optional(span_id) is Some && required(trace_id) is Some && optional(span_name) is Some
        && optional(job_id) is Some && optional(service_name) is Some {
        Some(
            LogRecordView {
                timestamp: required(timestamp).unwrap(),
                level: required(level).unwrap(),
                message: required(message).unwrap(),
                span_id: optional(span_id).unwrap(),
                trace_id: required(trace_id).unwrap(),
                span_name: optional(span_name).unwrap(),
                job_id: optional(job_id).unwrap(),
                service_name: optional(service_name).unwrap(),
            },
        )
    } else {
        None
    }
}

/// The record that the members of a JSON document make. Members under other keys are
/// not looked at.
pub open spec fn record_of_members(members: Map<Seq<char>, JsonFieldView>) -> Option<
    LogRecordView,
> {
    record_of_fields(
        lookup(members, "timestamp"@),
        lookup(members, "level"@),
        lookup(members, "message"@),
        lookup(members, "span_id"@),
        lookup(members, "trace_id"@),
        lookup(members, "span_name"@),
        lookup(members, "job_id"@),
        lookup(members, "service_name"@),
    )
}

/// The record that a wire text decodes to, if it decodes.
pub open spec fn decoded(text: Seq<char>) -> Option<LogRecordView> {
    match json_document(text) {
        Some(members) => record_of_members(members),
        None => None,
    }
}

/// `text` is the wire form of `r`: the text written for the object of its members,
/// which reads back as that object.
pub open spec fn is_wire_form(r: LogRecordView, text: Seq<char>) -> bool {
    &&& json_object_text(wire_members(r)) == Some(text)
    &&& json_document(text) == Some(object_of(wire_members(r)))
}

/// The eight keys of the wire format are pairwise different.
proof fn lemma_keys_differ()
    ensures
        "timestamp"@.len() == 9 && "timestamp"@[0] == 't',
        "level"@.len() == 5,
        "message"@.len() == 7 && "message"@[0] == 'm',
        "span_id"@.len() == 7 && "span_id"@[0] == 's',
        "trace_id"@.len() == 8,
        "span_name"@.len() == 9 && "span_name"@[0] == 's',
        "job_id"@.len() == 6,
        "service_name"@.len() == 12,
{
    reveal_strlit("timestamp");
    reveal_strlit("level");
    reveal_strlit("message");
    reveal_strlit("span_id");
    reveal_strlit("trace_id");
    reveal_strlit("span_name");
    reveal_strlit("job_id");
    reveal_strlit("service_name");
}

/// The object written for a record holds, under each of the eight keys, the field it
/// was written from.
pub proof fn lemma_wire_object(r: LogRecordView)
    ensures
        record_of_members(object_of(wire_members(r))) == Some(r),
{
    lemma_keys_differ();
    let m = wire_members(r);
    assert(m.len() == 8);
    lemma_object_of_holds(m, 0);
    lemma_object_of_holds(m, 1);
    lemma_object_of_holds(m, 2);
    lemma_object_of_holds(m, 3);
    lemma_object_of_holds(m, 4);
    lemma_object_of_holds(m, 5);
    lemma_object_of_holds(m, 6);
    lemma_object_of_holds(m, 7);
}

/// Round trip: the wire form of a record decodes to a record equal to it in every field.
pub proof fn lemma_wire_round_trip(r: LogRecordView, text: Seq<char>)
    requires
        is_wire_form(r, text),
    ensures
        decoded(text) == Some(r),
{
    lemma_wire_object(r);
}

/// What a decoding attempt returns for what the wire text holds.
pub open spec fn decode_result(found: Option<LogRecordView>, res: Result<LogRecord, ErrorKind>) -> bool {
    match res {
        Ok(record) => found == Some(record@),
        Err(e) => e == ErrorKind::SerializationError && found is None,
    }
}

fn take_required(field: Option<JsonField>) -> (res: Option<String>)
    ensures
        opt_view(res) == required(member_view(field)),
{
    match field {
        Some(JsonField::Text(text)) => Some(text),
        _ => None,
    }
}

fn take_optional(field: Option<JsonField>) -> (res: Option<Option<String>>)
    ensures
        match res {
            Some(value) => optional(member_view(field)) == Some(opt_view(value)),
            None => optional(member_view(field)) is None,
        },
{
    match field {
        None => Some(None),
        Some(JsonField::Null) => Some(None),
        Some(JsonField::Text(text)) => Some(Some(text)),
        Some(JsonField::Other) => None,
    }
}

impl LogRecord {
    /// A copy of this record, equal to it in every field.
    pub fn duplicate(&self) -> (copy: LogRecord)
        ensures
            copy@ == self@,
    {
        LogRecord {
            timestamp: self.timestamp.clone(),
            level: self.level.clone(),
            message: self.message.clone(),
            span_id: owned_opt(&self.span_id),
            trace_id: self.trace_id.clone(),
            span_name: owned_opt(&self.span_name),
            job_id: owned_opt(&self.job_id),
            service_name: owned_opt(&self.service_name),
        }
    }

    /// The members of the JSON object that stands for this record, in writing order.
    pub fn wire_fields(&self) -> (members: Vec<(String, Option<String>)>)
        ensures
            members_view(members@) == wire_members(self@),
            members@.len() == 8,
            forall|i: int|
                0 <= i < 8 ==> ((#[trigger] members@[i]).0@, opt_view(members@[i].1))
                    == wire_members(self@)[i],
    {
        let mut members: Vec<(String, Option<String>)> = Vec::new();
        members.push((owned("timestamp"), Some(self.timestamp.clone())));
        members.push((owned("level"), Some(self.level.clone())));
        members.push((owned("message"), Some(self.message.clone())));
        members.push((owned("span_id"), owned_opt(&self.span_id)));
        members.push((owned("trace_id"), Some(self.trace_id.clone())));
        members.push((owned("span_name"), owned_opt(&self.span_name)));
        members.push((owned("job_id"), owned_opt(&self.job_id)));
        members.push((owned("service_name"), owned_opt(&self.service_name)));
        assert(members_view(members@) =~= wire_members(self@));
        members
    }

    /// What encoding returns for what the encoder returned: the text, or
    /// `SerializationError` where the encoder refused.
    pub fn wire_result(encoded: Result<String, serde_json::Error>) -> (res: Result<
        String,
        ErrorKind,
    >)
        ensures
            match res {
                Ok(text) => encoded == Ok::<String, serde_json::Error>(text),
                Err(e) => e == ErrorKind::SerializationError && encoded is Err,
            },
    {
        match encoded {
            Ok(text) => Ok(text),
            Err(_) => Err(ErrorKind::SerializationError),
        }
    }

    /// Encodes this record to its wire format: one JSON object with the eight fields.
    /// The text decodes to a record equal to this one. Where the encoder refuses, the
    /// error is `SerializationError`.
    pub fn to_wire(&self) -> (res: Result<String, ErrorKind>)
        ensures
            res is Ok <==> json_object_text(wire_members(self@)) is Some,
            res matches Ok(text) ==> is_wire_form(self@, text@) && decoded(text@) == Some(self@),
            res matches Err(e) ==> e == ErrorKind::SerializationError,
    {
        let members = self.wire_fields();
        let res = LogRecord::wire_result(object_text(&members));
        proof {
            if res is Ok {
                lemma_wire_round_trip(self@, res->Ok_0@);
            }
        }
        res
    }

    /// Builds a record from the eight members of a JSON object, each as it was found
    /// (or not found) under its key. `timestamp`, `level`, `message` and `trace_id` must
    /// be strings; the other four may be strings, `null` or absent. Anything else is a
    /// `SerializationError`.
    pub fn from_fields(
        timestamp: Option<JsonField>,
        level: Option<JsonField>,
        message: Option<JsonField>,
        span_id: Option<JsonField>,
        trace_id: Option<JsonField>,
        span_name: Option<JsonField>,
        job_id: Option<JsonField>,
        service_name: Option<JsonField>,
    ) -> (res: Result<LogRecord, ErrorKind>)
        ensures
            decode_result(
                record_of_fields(
                    member_view(timestamp),
                    member_view(level),
                    member_view(message),
                    member_view(span_id),
                    member_view(trace_id),
                    member_view(span_name),
                    member_view(job_id),
                    member_view(service_name),
                ),
                res,
            ),
    {
        let timestamp = take_required(timestamp);
        let level = take_required(level);
        let message = take_required(message);
        let span_id = take_optional(span_id);
        let trace_id = take_required(trace_id);
        let span_name = take_optional(span_name);
        let job_id = take_optional(job_id);
        let service_name = take_optional(service_name);
        match (timestamp, level, message, span_id, trace_id, span_name, job_id, service_name) {
            (
                Some(timestamp),
                Some(level),
                Some(message),
                Some(span_id),
                Some(trace_id),
                Some(span_name),
                Some(job_id),
                Some(service_name),
            ) => Ok(
                LogRecord {
                    timestamp,
                    level,
                    message,
                    span_id,
                    trace_id,
                    span_name,
                    job_id,
                    service_name,
                },
            ),
            _ => Err(ErrorKind::SerializationError),
        }
    }

    /// Builds a record from a parsed JSON document, reading the eight keys of the wire
    /// format and nothing else.
    pub fn from_document(doc: &serde_json::Value) -> (res: Result<LogRecord, ErrorKind>)
        ensures
            decode_result(record_of_members(json_members(*doc)), res),
    {
        LogRecord::from_fields(
            member(doc, "timestamp"),
            member(doc, "level"),
            member(doc, "message"),
            member(doc, "span_id"),
            member(doc, "trace_id"),
            member(doc, "span_name"),
            member(doc, "job_id"),
            member(doc, "service_name"),
        )
    }

    /// Builds a record from what the parser returned for a wire text: from the document,
    /// as `from_document` does, or `SerializationError` where the text was not JSON.
    pub fn from_parsed(parsed: Result<serde_json::Value, serde_json::Error>) -> (res: Result<
        LogRecord,
        ErrorKind,
    >)
        ensures
            decode_result(
                match parsed {
                    Ok(doc) => record_of_members(json_members(doc)),
                    Err(_) => None,
                },
                res,
            ),
    {
        match parsed {
            Ok(doc) => LogRecord::from_document(&doc),
            Err(_) => Err(ErrorKind::SerializationError),
        }
    }

    /// Decodes a record from its wire format. A text that is not JSON, or whose fields
    /// are not as `from_fields` wants them, is a `SerializationError`.
    pub fn from_wire(text: &str) -> (res: Result<LogRecord, ErrorKind>)
        ensures
            decode_result(decoded(text@), res),
    {
        LogRecord::from_parsed(parse_document(text))
    }
}

} // verus!
