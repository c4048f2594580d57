//! Persisting captured events into the store's ordered collections, and reading them
//! back: which events are captured, what is written for them, and how what was read is
//! decoded, filtered and shown.

use vstd::prelude::*;
use vstd::string::StringExecFns;
use crate::errors::ErrorKind;
use crate::json::json_object_text;
use crate::record::{decoded, is_wire_form, LogRecord, LogRecordView};
use crate::text::{
    decimal, opt_is, opt_view, owned, owned_opt, same_text, texts_view, u64_to_decimal,
};
use crate::timestamp::{epoch_millis, rfc3339_millis};

verus! {

/// The name of the ordered collection that holds the records of one application:
/// the prefix `traces:` and then the application's name, as it is.
pub open spec fn traces_key(app_name: Seq<char>) -> Seq<char> {
    "traces:"@ + app_name
}

/// Builds the name of the collection of `app_name`.
pub fn collection_key(app_name: &str) -> (key: String)
    ensures
        key@ == traces_key(app_name@),
{
    let mut key = owned("traces:");
    key.append(app_name);
    key
}

/// One entry to add to an ordered collection.
#[derive(Debug)]
pub struct StoreWrite {
    /// The collection.
    pub key: String,
    /// The entry: a record in its wire format.
    pub member: String,
    /// The ordering score: the record's timestamp in milliseconds since the Unix epoch.
    pub score: i64,
}

/// A read of a whole ordered collection, lowest score first.
#[derive(Debug)]
pub struct RangeQuery {
    /// The collection.
    pub key: String,
    /// The lowest score asked for: `-inf`.
    pub min: String,
    /// The highest score asked for: `+inf`.
    pub max: String,
}

/// Says what to write to the store for the records of one application.
pub struct RedisLogger {
    app_name: String,
}

impl RedisLogger {
    /// The application whose collection this logger writes to.
    pub closed spec fn app(&self) -> Seq<char> {
        self.app_name@
    }

    /// A logger for the application `app_name`.
    pub fn new(app_name: String) -> (logger: RedisLogger)
        ensures
            logger.app() == app_name@,
    {
        RedisLogger { app_name }
    }

    /// The name of the application.
    pub fn app_name(&self) -> (name: &str)
        ensures
            name@ == self.app(),
    {
        self.app_name.as_str()
    }

    /// What is written for a record whose wire text and score have been computed, or
    /// have failed: the entry under this application's collection if both are there,
    /// and a `SerializationError` otherwise.
    pub fn store_write(
        &self,
        member: Result<String, ErrorKind>,
        score: Result<i64, ErrorKind>,
    ) -> (res: Result<StoreWrite, ErrorKind>)
        ensures
            match res {
                Ok(write) => {
                    &&& write.key@ == traces_key(self.app())
                    &&& member == Ok::<String, ErrorKind>(write.member)
                    &&& score == Ok::<i64, ErrorKind>(write.score)
                },
                Err(e) => e == ErrorKind::SerializationError && (member is Err || score is Err),
            },
    {
        match (member, score) {
            (Ok(member), Ok(score)) => Ok(
                StoreWrite { key: collection_key(self.app_name.as_str()), member, score },
            ),
            _ => Err(ErrorKind::SerializationError),
        }
    }

    /// What to write to the store for `record`: its wire text, added to the collection
    /// `traces:{app}` with the record's timestamp, in milliseconds since the Unix epoch,
    /// as its score. A record whose timestamp is no RFC 3339 text, or that the encoder
    /// refuses, is a `SerializationError`.
    pub fn log(&self, record: &LogRecord) -> (res: Result<StoreWrite, ErrorKind>)
        ensures
            res is Ok <==> rfc3339_millis(record.timestamp@) is Some && json_object_text(
                crate::record::wire_members(record@),
            ) is Some,
            res matches Ok(write) ==> {
                &&& write.key@ == traces_key(self.app())
                &&& is_wire_form(record@, write.member@)
                &&& decoded(write.member@) == Some(record@)
                &&& rfc3339_millis(record.timestamp@) == Some(write.score)
            },
            res matches Err(e) ==> e == ErrorKind::SerializationError,
    {
        let score = epoch_millis(record.timestamp.as_str());
        let member = record.to_wire();
        self.store_write(member, score)
    }
}

/// The views of a list of records.
pub open spec fn records_view(records: Seq<LogRecord>) -> Seq<LogRecordView> {
    Seq::new(records.len(), |i: int| records[i]@)
}

/// The records that a list of stored entries decodes to, in the same order: all of
/// them, or nothing where one entry does not decode.
pub open spec fn all_decoded(entries: Seq<Seq<char>>) -> Option<Seq<LogRecordView>> {
    if forall|i: int| 0 <= i < entries.len() ==> (#[trigger] decoded(entries[i])) is Some {
        Some(Seq::new(entries.len(), |i: int| decoded(entries[i]).unwrap()))
    } else {
        None
    }
}

/// What a fetch returns for the entries of a collection: the records that the entries
/// decode to, one for each entry and in the same order, or `SerializationError` where
/// some entry does not decode.
pub open spec fn fetched(entries: Seq<String>, res: Result<Vec<LogRecord>, ErrorKind>) -> bool {
    match res {
        Ok(records) => {
            &&& records@.len() == entries.len()
            &&& forall|i: int|
                0 <= i < entries.len() ==> decoded(#[trigger] entries[i]@) == Some(records@[i]@)
            &&& all_decoded(texts_view(entries)) == Some(records_view(records@))
        },
        Err(e) => {
            &&& e == ErrorKind::SerializationError
            &&& exists|i: int| 0 <= i < entries.len() && decoded(#[trigger] entries[i]@) is None
            &&& all_decoded(texts_view(entries)) is None
        },
    }
}

/// The field of a record that a query can select by.
#[derive(Debug, Clone, Copy, PartialEq, Eq, Structural)]
pub enum RecordField {
    SpanName,
    ServiceName,
    JobId,
}

/// What a record holds in a field.
pub open spec fn field_value(r: LogRecordView, field: RecordField) -> Option<Seq<char>> {
    match field {
        RecordField::SpanName => r.span_name,
        RecordField::ServiceName => r.service_name,
        RecordField::JobId => r.job_id,
    }
}

/// The records that hold exactly `wanted` in `field`, in the order in which they stand.
pub open spec fn selected(records: Seq<LogRecordView>, field: RecordField, wanted: Seq<char>) -> Seq<
    LogRecordView,
> {
    records.filter(|r: LogRecordView| field_value(r, field) == Some(wanted))
}

/// The single line that shows a record:
/// `timestamp - [level] - trace_id - span_name: message`, with nothing for a span name
/// that is not set.
pub open spec fn rendered(r: LogRecordView) -> Seq<char> {
    r.timestamp + " - ["@ + r.level + "] - "@ + r.trace_id + " - "@ + (match r.span_name {
        Some(name) => name,
        None => Seq::<char>::empty(),
    }) + ": "@ + r.message
}

/// The lines that show a list of records, in order.
pub open spec fn rendered_all(records: Seq<LogRecordView>) -> Seq<Seq<char>> {
    Seq::new(records.len(), |i: int| rendered(records[i]))
}

/// What a query by field returns for the entries of a collection: the records, among
/// those that the entries decode to, that hold exactly `wanted` in `field`, in
/// collection order; or `SerializationError` where some entry does not decode.
pub open spec fn queried(
    entries: Seq<String>,
    field: RecordField,
    wanted: Seq<char>,
    res: Result<Vec<LogRecord>, ErrorKind>,
) -> bool {
    match res {
        Ok(records) => {
            &&& all_decoded(texts_view(entries)) is Some
            &&& records_view(records@) == selected(
                all_decoded(texts_view(entries)).unwrap(),
                field,
                wanted,
            )
            &&& records@.len() <= entries.len()
            &&& forall|i: int|
                0 <= i < records@.len() ==> field_value(#[trigger] records@[i]@, field) == Some(
                    wanted,
                )
        },
        Err(e) => {
            &&& e == ErrorKind::SerializationError
            &&& exists|i: int| 0 <= i < entries.len() && decoded(#[trigger] entries[i]@) is None
            &&& all_decoded(texts_view(entries)) is None
        },
    }
}

/// What a view returns for the records that a query found: one line for each record,
/// in the same order; or `SerializationError` where the query found none because some
/// entry does not decode.
pub open spec fn shown(found: Option<Seq<LogRecordView>>, res: Result<Vec<String>, ErrorKind>) -> bool {
    match res {
        Ok(lines) => {
            &&& found is Some
            &&& lines@.len() == found.unwrap().len()
            &&& texts_view(lines@) == rendered_all(found.unwrap())
            &&& forall|i: int|
                0 <= i < lines@.len() ==> (#[trigger] lines@[i])@ == rendered(found.unwrap()[i])
        },
        Err(e) => e == ErrorKind::SerializationError && found is None,
    }
}

/// What the entries of a collection decode to and then select.
pub open spec fn found_by(entries: Seq<String>, field: RecordField, wanted: Seq<char>) -> Option<
    Seq<LogRecordView>,
> {
    match all_decoded(texts_view(entries)) {
        Some(all) => Some(selected(all, field, wanted)),
        None => None,
    }
}

/// Shows a record as one line.
pub fn render(record: &LogRecord) -> (line: String)
    ensures
        line@ == rendered(record@),
{
    let mut line = record.timestamp.clone();
    line.append(" - [");
    line.append(record.level.as_str());
    line.append("] - ");
    line.append(record.trace_id.as_str());
    line.append(" - ");
    match &record.span_name {
        Some(name) => {
            line.append(name.as_str());
        },
        None => {
            assert(line@ + Seq::<char>::empty() =~= line@);
        },
    }
    line.append(": ");
    line.append(record.message.as_str());
    line
}

/// Shows each record of a list as one line, in order.
pub fn render_all(records: &Vec<LogRecord>) -> (lines: Vec<String>)
    ensures
        lines@.len() == records@.len(),
        forall|i: int| 0 <= i < records@.len() ==> lines@[i]@ == rendered(#[trigger] records@[i]@),
        texts_view(lines@) == rendered_all(records_view(records@)),
{
    let mut lines: Vec<String> = Vec::new();
    let n = records.len();
    for i in 0..n
        invariant
            n == records.len(),
            lines.len() == i,
            forall|j: int| 0 <= j < i ==> lines[j]@ == rendered(#[trigger] records[j]@),
    {
        lines.push(render(&records[i]));
    }
    assert(texts_view(lines@) =~= rendered_all(records_view(records@)));
    lines
}

/// Keeps the records that hold exactly `wanted` in `field`, in the order in which they stand.
pub fn select(records: &Vec<LogRecord>, field: RecordField, wanted: &str) -> (kept: Vec<LogRecord>)
    ensures
        records_view(kept@) == selected(records_view(records@), field, wanted@),
        kept@.len() <= records@.len(),
        forall|i: int|
            0 <= i < kept@.len() ==> field_value(#[trigger] kept@[i]@, field) == Some(wanted@),
{
    let mut kept: Vec<LogRecord> = Vec::new();
    let n = records.len();
    let ghost pred = |r: LogRecordView| field_value(r, field) == Some(wanted@);
    let ghost all = records_view(records@);
    proof {
        reveal(Seq::filter);
        assert(all.take(0) =~= Seq::<LogRecordView>::empty());
        assert(records_view(kept@) =~= all.take(0).filter(pred));
    }
    for i in 0..n
        invariant
            n == records.len(),
            all == records_view(records@),
            pred == (|r: LogRecordView| field_value(r, field) == Some(wanted@)),
            records_view(kept@) == all.take(i as int).filter(pred),
            kept@.len() <= i,
            forall|j: int|
                0 <= j < kept@.len() ==> field_value(#[trigger] kept@[j]@, field) == Some(wanted@),
    {
        let record = &records[i];
        let matches = match field {
            RecordField::SpanName => opt_is(&record.span_name, wanted),
            RecordField::ServiceName => opt_is(&record.service_name, wanted),
            RecordField::JobId => opt_is(&record.job_id, wanted),
        };
        let ghost before = records_view(kept@);
        proof {
            assert(all.take(i as int + 1) =~= all.take(i as int).push(all[i as int]));
            all.take(i as int).lemma_filter_push(all[i as int], pred);
            assert(matches == pred(all[i as int]));
        }
        if matches {
            kept.push(record.duplicate());
            assert(records_view(kept@) =~= before.push(all[i as int]));
        }
    }
    assert(all.take(n as int) =~= all);
    kept
}

/// Reads the records of one application back from what the store returned.
pub struct LogViewer {
    app_name: String,
}

impl LogViewer {
    /// The application whose records this viewer reads.
    pub closed spec fn app(&self) -> Seq<char> {
        self.app_name@
    }

    /// A viewer for the application `app_name`.
    pub fn new(app_name: &str) -> (viewer: LogViewer)
        ensures
            viewer.app() == app_name@,
    {
        LogViewer { app_name: owned(app_name) }
    }

    /// What to ask the store for: the whole collection `traces:{app}`, from `-inf` to
    /// `+inf`, which the store returns in ascending order of score.
    pub fn range_query(&self) -> (query: RangeQuery)
        ensures
            query.key@ == traces_key(self.app()),
            query.min@ == "-inf"@,
            query.max@ == "+inf"@,
    {
        RangeQuery {
            key: collection_key(self.app_name.as_str()),
            min: owned("-inf"),
            max: owned("+inf"),
        }
    }

    /// Decodes every entry of a collection, in collection order. One entry that does
    /// not decode fails the whole call with `SerializationError`: there is no partial
    /// result.
    pub fn fetch_all(&self, entries: &Vec<String>) -> (res: Result<Vec<LogRecord>, ErrorKind>)
        ensures
            fetched(entries@, res),
    {
        let mut records: Vec<LogRecord> = Vec::new();
        let n = entries.len();
        let ghost texts = texts_view(entries@);
        for i in 0..n
            invariant
                n == entries.len(),
                texts == texts_view(entries@),
                records.len() == i,
                forall|j: int| 0 <= j < i ==> decoded(texts[j]) == Some(#[trigger] records[j]@),
        {
            match LogRecord::from_wire(entries[i].as_str()) {
                Ok(record) => {
                    records.push(record);
                },
                Err(_) => {
                    assert(decoded(texts[i as int]) is None);
                    assert(decoded(entries[i as int]@) is None);
                    return Err(ErrorKind::SerializationError);
                },
            }
        }
        proof {
            assert forall|j: int| 0 <= j < texts.len() implies (#[trigger] decoded(texts[j]))
                is Some by {
                assert(decoded(texts[j]) == Some(records[j]@));
            }
            assert(all_decoded(texts).unwrap() =~= records_view(records@));
        }
        Ok(records)
    }

    /// All records of the application: `fetch_all`.
    pub fn by_app(&self, entries: &Vec<String>) -> (res: Result<Vec<LogRecord>, ErrorKind>)
        ensures
            fetched(entries@, res),
    {
        self.fetch_all(entries)
    }

    /// The records whose `field` is exactly `wanted`, in collection order; the whole
    /// call fails if one entry does not decode.
    pub fn by_field(&self, entries: &Vec<String>, field: RecordField, wanted: &str) -> (res: Result<
        Vec<LogRecord>,
        ErrorKind,
    >)
        ensures
            queried(entries@, field, wanted@, res),
    {
        match self.fetch_all(entries) {
            Ok(all) => Ok(select(&all, field, wanted)),
            Err(e) => Err(e),
        }
    }

    /// The records raised in a span named `span_name`.
    pub fn by_span_name(&self, entries: &Vec<String>, span_name: &str) -> (res: Result<
        Vec<LogRecord>,
        ErrorKind,
    >)
        ensures
            queried(entries@, RecordField::SpanName, span_name@, res),
    {
        self.by_field(entries, RecordField::SpanName, span_name)
    }

    /// The records whose service name is `service_name`.
    pub fn by_service_name(&self, entries: &Vec<String>, service_name: &str) -> (res: Result<
        Vec<LogRecord>,
        ErrorKind,
    >)
        ensures
            queried(entries@, RecordField::ServiceName, service_name@, res),
    {
        self.by_field(entries, RecordField::ServiceName, service_name)
    }

    /// The records whose job identifier is `job_id`.
    pub fn by_job_id(&self, entries: &Vec<String>, job_id: &str) -> (res: Result<
        Vec<LogRecord>,
        ErrorKind,
    >)
        ensures
            queried(entries@, RecordField::JobId, job_id@, res),
    {
        self.by_field(entries, RecordField::JobId, job_id)
    }

    /// The lines that show all records of the application, in collection order.
    pub fn view_logs_by_app_name(&self, entries: &Vec<String>) -> (res: Result<
        Vec<String>,
        ErrorKind,
    >)
        ensures
            shown(all_decoded(texts_view(entries@)), res),
            res matches Ok(lines) ==> lines@.len() == entries@.len() && forall|i: int|
                0 <= i < entries@.len() ==> (#[trigger] decoded(entries@[i]@)) is Some
                    && lines@[i]@ == rendered(decoded(entries@[i]@).unwrap()),
    {
        match self.fetch_all(entries) {
            Ok(all) => Ok(render_all(&all)),
            Err(e) => Err(e),
        }
    }

    /// The lines that show the records raised in a span named `span_name`, in
    /// collection order.
    pub fn view_logs_by_span_name(&self, entries: &Vec<String>, span_name: &str) -> (res: Result<
        Vec<String>,
        ErrorKind,
    >)
        ensures
            shown(found_by(entries@, RecordField::SpanName, span_name@), res),
    {
        match self.by_span_name(entries, span_name) {
            Ok(kept) => Ok(render_all(&kept)),
            Err(e) => Err(e),
        }
    }
}

/// The severity of an event.
#[derive(Debug, Clone, Copy, PartialEq, Eq, Structural)]
pub enum Level {
    Trace,
    Debug,
    Info,
    Warn,
    Error,
}

impl Level {
    /// The name under which a level is recorded, in capitals.
    pub open spec fn name(self) -> Seq<char> {
        match self {
            Level::Trace => "TRACE"@,
            Level::Debug => "DEBUG"@,
            Level::Info => "INFO"@,
            Level::Warn => "WARN"@,
            Level::Error => "ERROR"@,
        }
    }

    /// The name under which this level is recorded.
    pub fn as_str(&self) -> (text: &'static str)
        ensures
            text@ == self.name(),
    {
        match self {
            Level::Trace => "TRACE",
            Level::Debug => "DEBUG",
            Level::Info => "INFO",
            Level::Warn => "WARN",
            Level::Error => "ERROR",
        }
    }
}

/// Collects the rendered message of an event from its fields.
pub struct FieldVisitor {
    message: String,
}

impl View for FieldVisitor {
    type V = Seq<char>;

    /// The message collected so far.
    closed spec fn view(&self) -> Seq<char> {
        self.message@
    }
}

/// The message after a field was shown to the visitor: the rendering of a field named
/// `message` is added at its end, and any other field leaves it as it was.
pub open spec fn after_field(message: Seq<char>, field_name: Seq<char>, rendered: Seq<char>) -> Seq<
    char,
> {
    if field_name == "message"@ {
        message + rendered
    } else {
        message
    }
}

impl FieldVisitor {
    /// A visitor that has collected nothing.
    pub fn new() -> (visitor: FieldVisitor)
        ensures
            visitor@ == Seq::<char>::empty(),
    {
        FieldVisitor { message: String::new() }
    }

    /// Shows the visitor one field of an event, by its name and its rendering.
    pub fn record_debug(&mut self, field_name: &str, rendered: &str)
        ensures
            final(self)@ == after_field(old(self)@, field_name@, rendered@),
    {
        if same_text(field_name, "message") {
            self.message.append(rendered);
        }
    }

    /// The message collected so far.
    pub fn message(&self) -> (text: &str)
        ensures
            text@ == self@,
    {
        self.message.as_str()
    }
}

/// The name of the span field that carries the opt-in marker.
pub const PERSIST_FIELD: &'static str = "persist";

/// The name of the span field that carries the job identifier.
pub const JOB_ID_FIELD: &'static str = "job_id";

/// The name of the span field that carries the service name.
pub const SERVICE_NAME_FIELD: &'static str = "service_name";

/// What the sink reads of the fields that a span was created with. Each of the three is
/// found by the name of its field and by nothing else.
#[derive(Debug)]
pub struct SpanFields {
    persist: bool,
    job_id: Option<String>,
    service_name: Option<String>,
}

/// The mathematical view of [`SpanFields`].
pub struct SpanFieldsView {
    pub persist: bool,
    pub job_id: Option<Seq<char>>,
    pub service_name: Option<Seq<char>>,
}

impl View for SpanFields {
    type V = SpanFieldsView;

    closed spec fn view(&self) -> SpanFieldsView {
        SpanFieldsView {
            persist: self.persist,
            job_id: opt_view(self.job_id),
            service_name: opt_view(self.service_name),
        }
    }
}

/// The fields after a boolean field was shown: a field named `persist` sets the opt-in
/// marker to its value, and any other boolean field changes nothing.
pub open spec fn after_bool_field(fields: SpanFieldsView, field_name: Seq<char>, value: bool) -> SpanFieldsView {
    if field_name == PERSIST_FIELD@ {
        SpanFieldsView { persist: value, ..fields }
    } else {
        fields
    }
}

/// The fields after a field with a text was shown: a field named `job_id` sets the job
/// identifier, a field named `service_name` sets the service name, and any other field
/// changes nothing. The opt-in marker is never set from a text.
pub open spec fn after_text_field(
    fields: SpanFieldsView,
    field_name: Seq<char>,
    text: Seq<char>,
) -> SpanFieldsView {
    if field_name == JOB_ID_FIELD@ {
        SpanFieldsView { job_id: Some(text), ..fields }
    } else if field_name == SERVICE_NAME_FIELD@ {
        SpanFieldsView { service_name: Some(text), ..fields }
    } else {
        fields
    }
}

impl SpanFields {
    /// The fields of a span of which nothing has been seen: no marker, no job
    /// identifier, no service name.
    pub fn new() -> (fields: SpanFields)
        ensures
            fields@ == (SpanFieldsView { persist: false, job_id: None, service_name: None }),
    {
        SpanFields { persist: false, job_id: None, service_name: None }
    }

    /// A copy of these fields.
    pub fn duplicate(&self) -> (copy: SpanFields)
        ensures
            copy@ == self@,
    {
        SpanFields {
            persist: self.persist,
            job_id: owned_opt(&self.job_id),
            service_name: owned_opt(&self.service_name),
        }
    }

    /// Shows one boolean field of a span, by its name and its value.
    pub fn record_bool(&mut self, field_name: &str, value: bool)
        ensures
            final(self)@ == after_bool_field(old(self)@, field_name@, value),
    {
        if same_text(field_name, PERSIST_FIELD) {
            self.persist = value;
        }
    }

    /// Shows one string field of a span, by its name and its value.
    pub fn record_str(&mut self, field_name: &str, value: &str)
        ensures
            final(self)@ == after_text_field(old(self)@, field_name@, value@),
    {
        if same_text(field_name, JOB_ID_FIELD) {
            self.job_id = Some(owned(value));
        } else if same_text(field_name, SERVICE_NAME_FIELD) {
            self.service_name = Some(owned(value));
        }
    }

    /// Shows one field of a span that is neither a boolean nor a string, by its name
    /// and its rendering.
    pub fn record_debug(&mut self, field_name: &str, rendered: &str)
        ensures
            final(self)@ == after_text_field(old(self)@, field_name@, rendered@),
    {
        self.record_str(field_name, rendered);
    }
}

/// One span, with the spans around it: the context that is active when an event is
/// raised is the innermost span, and each span knows its parent.
#[derive(Debug)]
pub struct SpanContext {
    /// The span's unique identifier.
    pub id: u64,
    /// The span's name.
    pub name: String,
    /// The opt-in marker: whether the caller that created the span asked for its
    /// events to be persisted. A span without a marker has `false`.
    pub persist: bool,
    /// The job identifier attached to the span.
    pub job_id: Option<String>,
    /// The service name attached to the span.
    pub service_name: Option<String>,
    /// The span in which this one was created; a root has none.
    pub parent: Option<Box<SpanContext>>,
}

/// What one span carries, as mathematics.
pub struct SpanView {
    pub id: u64,
    pub name: Seq<char>,
    pub persist: bool,
    pub job_id: Option<Seq<char>>,
    pub service_name: Option<Seq<char>>,
}

impl SpanContext {
    /// What this span itself carries.
    pub open spec fn own(&self) -> SpanView {
        SpanView {
            id: self.id,
            name: self.name@,
            persist: self.persist,
            job_id: opt_view(self.job_id),
            service_name: opt_view(self.service_name),
        }
    }

    /// The chain of spans from the root down to this one: the root first, this span
    /// last, each span the parent of the next.
    pub open spec fn chain(&self) -> Seq<SpanView>
        decreases self,
    {
        match self.parent {
            Some(parent) => parent.chain().push(self.own()),
            None => seq![self.own()],
        }
    }

    /// A chain is never empty, and it ends with the span it was taken from.
    pub proof fn lemma_chain_ends_here(&self)
        ensures
            self.chain().len() > 0,
            self.chain().last() == self.own(),
        decreases self,
    {
        match self.parent {
            Some(parent) => {
                parent.lemma_chain_ends_here();
            },
            None => {},
        }
    }

    /// A span without a parent.
    pub fn root(id: u64, name: &str, persist: bool) -> (span: SpanContext)
        ensures
            span.chain() == seq![
                SpanView { id, name: name@, persist, job_id: None, service_name: None },
            ],
    {
        SpanContext {
            id,
            name: owned(name),
            persist,
            job_id: None,
            service_name: None,
            parent: None,
        }
    }

    /// A span created inside `parent`.
    pub fn child_of(parent: SpanContext, id: u64, name: &str, persist: bool) -> (span: SpanContext)
        ensures
            span.chain() == parent.chain().push(
                SpanView { id, name: name@, persist, job_id: None, service_name: None },
            ),
    {
        SpanContext {
            id,
            name: owned(name),
            persist,
            job_id: None,
            service_name: None,
            parent: Some(Box::new(parent)),
        }
    }

    /// The span `id` named `name`, with the fields that were seen when it was created,
    /// inside `parent` or, where there is none, as a root.
    pub fn with_fields(id: u64, name: &str, fields: SpanFields, parent: Option<SpanContext>) -> (span:
        SpanContext)
        ensures
            span.own() == (SpanView {
                id,
                name: name@,
                persist: fields@.persist,
                job_id: fields@.job_id,
                service_name: fields@.service_name,
            }),
            span.chain() == match parent {
                Some(outer) => outer.chain().push(span.own()),
                None => seq![span.own()],
            },
    {
        SpanContext {
            id,
            name: owned(name),
            persist: fields.persist,
            job_id: fields.job_id,
            service_name: fields.service_name,
            parent: match parent {
                Some(outer) => Some(Box::new(outer)),
                None => None,
            },
        }
    }

    /// Walks from this span up to the root of its chain and returns the root's
    /// identifier: the trace identifier of every event raised in this span.
    pub fn trace_root_id(&self) -> (id: u64)
        ensures
            id == self.chain().first().id,
    {
        let mut current = self;
        proof {
            current.lemma_chain_ends_here();
        }
        loop
            invariant
                current.chain().len() > 0,
                current.chain().first() == self.chain().first(),
            decreases current,
        {
            match &current.parent {
                Some(parent) => {
                    proof {
                        parent.lemma_chain_ends_here();
                    }
                    current = &**parent;
                },
                None => {
                    return current.id;
                },
            }
        }
    }
}

/// The chain that is active for an event: the chain of the innermost span, or the
/// empty chain where the event is raised outside every span.
pub open spec fn active_chain(current: Option<&SpanContext>) -> Seq<SpanView> {
    match current {
        Some(span) => span.chain(),
        None => Seq::empty(),
    }
}

/// Whether an event raised under `chain` (root first, innermost span last, each span
/// the parent of the next) is persisted: there is a chain, and its innermost span
/// carries the opt-in marker. The marker of an outer span does not reach the spans
/// nested in it.
pub open spec fn persisted(chain: Seq<SpanView>) -> bool {
    chain.len() > 0 && chain.last().persist
}

/// The record of an event raised under `chain`, if the event is persisted. The trace
/// identifier is the identifier of the root of the chain; the span identifier and name,
/// the job identifier and the service name are those of the innermost span.
pub open spec fn captured(
    timestamp: Seq<char>,
    level: Level,
    message: Seq<char>,
    chain: Seq<SpanView>,
) -> Option<LogRecordView> {
    if persisted(chain) {
        Some(
            LogRecordView {
                timestamp,
                level: level.name(),
                message,
                span_id: Some(decimal(chain.last().id as nat)),
                trace_id: decimal(chain.first().id as nat),
                span_name: Some(chain.last().name),
                job_id: chain.last().job_id,
                service_name: chain.last().service_name,
            },
        )
    } else {
        None
    }
}

/// An event raised with no opt-in marker anywhere in its active span chain is never
/// persisted.
pub proof fn lemma_unmarked_chain_is_discarded(
    timestamp: Seq<char>,
    level: Level,
    message: Seq<char>,
    chain: Seq<SpanView>,
)
    requires
        forall|i: int| 0 <= i < chain.len() ==> !chain[i].persist,
    ensures
        captured(timestamp, level, message, chain) is None,
{
}

/// An event raised with no active span is never persisted.
pub proof fn lemma_no_span_is_discarded(timestamp: Seq<char>, level: Level, message: Seq<char>)
    ensures
        captured(timestamp, level, message, Seq::<SpanView>::empty()) is None,
{
}

/// The marker is not inherited: an event raised in a span without the marker is
/// discarded, whatever markers the spans around it carry.
pub proof fn lemma_marker_is_not_inherited(
    timestamp: Seq<char>,
    level: Level,
    message: Seq<char>,
    outer: Seq<SpanView>,
    innermost: SpanView,
)
    requires
        !innermost.persist,
    ensures
        captured(timestamp, level, message, outer.push(innermost)) is None,
{
}

/// An event raised in a child span that carries the opt-in marker, under a root span
/// with or without one, gives exactly one record: its trace identifier is the root's
/// identifier and its span name is the child's name.
pub proof fn lemma_marked_child_is_captured(
    timestamp: Seq<char>,
    level: Level,
    message: Seq<char>,
    root: SpanView,
    child: SpanView,
)
    requires
        child.persist,
    ensures
        captured(timestamp, level, message, seq![root, child]) matches Some(record)
            && record.trace_id == decimal(root.id as nat) && record.span_id == Some(
            decimal(child.id as nat),
        ) && record.span_name == Some(child.name),
{
}

/// The filter of the global subscriber: what the configuration names, or `debug` where
/// it names nothing.
pub fn filter_directive(configured: Option<String>) -> (directive: String)
    ensures
        directive@ == match configured {
            Some(named) => named@,
            None => "debug"@,
        },
{
    match configured {
        Some(named) => named,
        None => owned("debug"),
    }
}

/// Decides which events are persisted and builds their records.
pub struct RedisLogLayer {
    logger: RedisLogger,
}

impl RedisLogLayer {
    /// The application whose events this layer captures.
    pub closed spec fn app(&self) -> Seq<char> {
        self.logger.app()
    }

    /// A layer that hands its records to `logger`.
    pub fn new(logger: RedisLogger) -> (layer: RedisLogLayer)
        ensures
            layer.app() == logger.app(),
    {
        RedisLogLayer { logger }
    }

    /// The logger that says what to write for the records of this layer.
    pub fn logger(&self) -> (logger: &RedisLogger)
        ensures
            logger.app() == self.app(),
    {
        &self.logger
    }

    /// Handles one event: `timestamp` is the wall-clock time at which it was raised,
    /// `visitor` has seen its fields, and `current` is the innermost active span, if the
    /// event was raised in one. Returns the record to persist, or nothing where the
    /// event is discarded.
    pub fn on_event(
        &self,
        timestamp: &str,
        level: Level,
        visitor: &FieldVisitor,
        current: Option<&SpanContext>,
    ) -> (record: Option<LogRecord>)
        ensures
            crate::record::opt_record_view(record) == captured(
                timestamp@,
                level,
                visitor@,
                active_chain(current),
            ),
    {
        let innermost = match current {
            Some(span) => span,
            None => {
                return None;
            },
        };
        proof {
            innermost.lemma_chain_ends_here();
        }
        if !innermost.persist {
            return None;
        }
        Some(
            LogRecord {
                timestamp: owned(timestamp),
                level: owned(level.as_str()),
                message: owned(visitor.message()),
                span_id: Some(u64_to_decimal(innermost.id)),
                trace_id: u64_to_decimal(innermost.trace_root_id()),
                span_name: Some(innermost.name.clone()),
                job_id: owned_opt(&innermost.job_id),
                service_name: owned_opt(&innermost.service_name),
            },
        )
    }
}

} // verus!
