//! Per-request dispatch: which path an inbound operation takes, and how the
//! path's result becomes a response status and payload.
use vstd::prelude::*;
use crate::cursor::{cursor_step, CursorState, CursorStep, FetchEvent, RowCursor};
use crate::record::Record;

verus! {

/// The request methods the gateway tells apart.
#[derive(PartialEq, Eq, Structural, Clone, Copy)]
pub enum HttpMethod {
    Get,
    Post,
    Other,
}

/// The operation an inbound request asks for.
#[derive(PartialEq, Eq, Structural, Clone, Copy, Debug)]
pub enum Operation {
    /// One record, written by an ad hoc insert.
    SingleWrite,
    /// A sequence of records, written as one logged batch.
    BatchWrite,
    /// One record, written through the cached prepared insert.
    PreparedWrite,
    /// Every row of the table, read through a cursor.
    StreamedRead,
    /// No operation is served at this method and path.
    Unknown,
}

/// The store operation that failed, which names the failure in the message.
#[derive(PartialEq, Eq, Structural, Clone, Copy, Debug)]
pub enum StoreStage {
    /// A single insert, ad hoc or prepared.
    Write,
    /// A batch of inserts.
    Batch,
    /// Starting the query of a streamed read.
    Query,
    /// Fitting the query's columns to the row shape `(id, name, value)`.
    RowShape,
    /// Fetching or decoding a row in the middle of the stream.
    Stream,
}

/// What a request succeeded with.
pub enum Payload {
    /// The write was acknowledged: `{success: true}`.
    Ack,
    /// The rows a streamed read produced, in the order they came.
    Rows(Vec<Record>),
}

/// The outcome of one request, as the caller sees it.
pub enum Outcome {
    Success(Payload),
    /// The caller's data was invalid; no store call was made.
    ClientError(String),
    /// The store failed; the message names the operation that failed.
    ServerError(String),
    /// No operation is served at this method and path.
    NotFound,
}

pub open spec fn route_of(method: HttpMethod, path: Seq<char>) -> Operation {
    if method == HttpMethod::Post && path == "/insert"@ {
        Operation::SingleWrite
    } else if method == HttpMethod::Post && path == "/insert_batch"@ {
        Operation::BatchWrite
    } else if method == HttpMethod::Post && path == "/insert_prepared"@ {
        Operation::PreparedWrite
    } else if method == HttpMethod::Get && path == "/query_iter"@ {
        Operation::StreamedRead
    } else {
        Operation::Unknown
    }
}

pub open spec fn status_of(o: Outcome) -> u16 {
    match o {
        Outcome::Success(_) => 200,
        Outcome::ClientError(_) => 400,
        Outcome::ServerError(_) => 500,
        Outcome::NotFound => 404,
    }
}

pub open spec fn stage_prefix(stage: StoreStage) -> Seq<char> {
    match stage {
        StoreStage::Write => "db error: "@,
        StoreStage::Batch => "batch error: "@,
        StoreStage::Query => "query_iter error: "@,
        StoreStage::RowShape => "failed to get rows_stream: "@,
        StoreStage::Stream => "stream error: "@,
    }
}

pub open spec fn is_write(op: Operation) -> bool {
    op == Operation::SingleWrite || op == Operation::BatchWrite || op == Operation::PreparedWrite
}

/// The stage a failed write is reported under.
pub open spec fn write_stage(op: Operation) -> StoreStage {
    if op == Operation::BatchWrite {
        StoreStage::Batch
    } else {
        StoreStage::Write
    }
}

fn same_text(a: &str, b: &str) -> (r: bool)
    ensures
        r == (a@ == b@),
{
    a.to_owned() == b.to_owned()
}

/// The operation served at `method` and `path`.
pub fn route(method: HttpMethod, path: &str) -> (op: Operation)
    ensures
        op == route_of(method, path@),
{
    if method == HttpMethod::Post && same_text(path, "/insert") {
        Operation::SingleWrite
    } else if method == HttpMethod::Post && same_text(path, "/insert_batch") {
        Operation::BatchWrite
    } else if method == HttpMethod::Post && same_text(path, "/insert_prepared") {
        Operation::PreparedWrite
    } else if method == HttpMethod::Get && same_text(path, "/query_iter") {
        Operation::StreamedRead
    } else {
        Operation::Unknown
    }
}

impl Outcome {
    /// The HTTP status the outcome is answered with.
    pub fn status(&self) -> (c: u16)
        ensures
            c == status_of(*self),
    {
        match self {
            Outcome::Success(_) => 200,
            Outcome::ClientError(_) => 400,
            Outcome::ServerError(_) => 500,
            Outcome::NotFound => 404,
        }
    }
}

fn stage_prefix_text(stage: StoreStage) -> (s: &'static str)
    ensures
        s@ == stage_prefix(stage),
{
    match stage {
        StoreStage::Write => "db error: ",
        StoreStage::Batch => "batch error: ",
        StoreStage::Query => "query_iter error: ",
        StoreStage::RowShape => "failed to get rows_stream: ",
        StoreStage::Stream => "stream error: ",
    }
}

/// The outcome of a request whose body did not decode: a client error whose
/// message says so and carries the decoder's own words.
pub fn rejected_input(detail: &str) -> (o: Outcome)
    ensures
        o matches Outcome::ClientError(m) && m@ == "invalid json: "@ + detail@,
{
    let mut m = "invalid json: ".to_owned();
    m.append(detail);
    Outcome::ClientError(m)
}

/// The outcome of a store failure at `stage`: a server error whose message
/// names the stage and carries the store's own words.
pub fn store_failure(stage: StoreStage, detail: &str) -> (o: Outcome)
    ensures
        o matches Outcome::ServerError(m) && m@ == stage_prefix(stage) + detail@,
{
    let mut m = stage_prefix_text(stage).to_owned();
    m.append(detail);
    Outcome::ServerError(m)
}

/// The outcome of a write once the store has answered: an acknowledgment
/// when it succeeded, a server error when it failed. A batch is reported as
/// a whole, never as partly applied.
pub fn write_outcome(op: Operation, result: Result<(), String>) -> (o: Outcome)
    requires
        is_write(op),
    ensures
        result is Ok ==> o matches Outcome::Success(Payload::Ack),
        result matches Err(e) ==> o matches Outcome::ServerError(m) && m@ == stage_prefix(write_stage(op)) + e@,
{
    match result {
        Ok(()) => Outcome::Success(Payload::Ack),
        Err(e) => {
            let stage = if op == Operation::BatchWrite {
                StoreStage::Batch
            } else {
                StoreStage::Write
            };
            store_failure(stage, e.as_str())
        },
    }
}

/// A streamed read in progress: the cursor, and the rows it has handed out
/// so far, which make up the response.
pub struct ReadSession {
    cursor: RowCursor,
    rows: Vec<Record>,
}

impl ReadSession {
    pub closed spec fn state(&self) -> CursorState {
        self.cursor.state()
    }

    pub closed spec fn rows(&self) -> Seq<Record> {
        self.rows@
    }

    pub fn new() -> (s: ReadSession)
        ensures
            s.state() == CursorState::Streaming,
            s.rows() == Seq::<Record>::empty(),
    {
        ReadSession { cursor: RowCursor::new(), rows: Vec::new() }
    }

    /// Takes one fetch result. Returns the request's outcome once the stream
    /// has ended: all rows when it ended normally, a server error when it
    /// failed.
    pub fn feed(&mut self, ev: FetchEvent) -> (r: Option<Outcome>)
        ensures
            final(self).state() == cursor_step(old(self).state(), ev).0,
            match cursor_step(old(self).state(), ev).1 {
                CursorStep::Emit(rec) => r is None && final(self).rows() == old(self).rows().push(rec),
                CursorStep::Finished => r matches Some(Outcome::Success(Payload::Rows(v)))
                    && v@ == old(self).rows() && final(self).rows().len() == 0,
                CursorStep::Aborted(m) => r matches Some(Outcome::ServerError(t))
                    && t@ == stage_prefix(StoreStage::Stream) + m@ && final(self).rows().len() == 0,
                CursorStep::Closed => r is None && final(self).rows() == old(self).rows(),
            },
    {
        match self.cursor.advance(ev) {
            CursorStep::Emit(rec) => {
                self.rows.push(rec);
                None
            },
            CursorStep::Finished => {
                let mut out: Vec<Record> = Vec::new();
                std::mem::swap(&mut out, &mut self.rows);
                Some(Outcome::Success(Payload::Rows(out)))
            },
            CursorStep::Aborted(m) => {
                self.rows = Vec::new();
                Some(store_failure(StoreStage::Stream, m.as_str()))
            },
            CursorStep::Closed => None,
        }
    }
}

} // verus!
