//! The streaming read cursor: a single-consumer sequence of rows fed one
//! fetch result at a time, with end of stream and failure as distinct
//! terminal states.
use vstd::prelude::*;
use crate::record::Record;

verus! {

/// Where a cursor stands.
#[derive(PartialEq, Eq, Structural, Clone, Copy, Debug)]
pub enum CursorState {
    /// Rows may still come.
    Streaming,
    /// The store reported the end of the result set.
    Exhausted,
    /// A fetch or a row failed; the cursor produces nothing more.
    Failed,
}

/// One result of asking the store for the next row.
pub enum FetchEvent {
    /// A row of the declared shape.
    Row(Record),
    /// The result set has no more rows.
    End,
    /// The page fetch failed, or a row did not decode to the declared shape.
    Failure(String),
}

/// What the consumer is handed for one fetch result.
pub enum CursorStep {
    /// The next row.
    Emit(Record),
    /// The stream ended normally.
    Finished,
    /// The stream ended with this error; rows emitted before stay valid.
    Aborted(String),
    /// The cursor had already terminated; the event is not used.
    Closed,
}

/// A cursor over the rows of one query. It holds no rows itself: each row
/// passes through to the consumer as it arrives, so its memory does not grow
/// with the size of the result set. It cannot be restarted.
pub struct RowCursor {
    state: CursorState,
}

/// One transition of the cursor.
pub open spec fn cursor_step(s: CursorState, ev: FetchEvent) -> (CursorState, CursorStep) {
    match s {
        CursorState::Streaming => match ev {
            FetchEvent::Row(r) => (CursorState::Streaming, CursorStep::Emit(r)),
            FetchEvent::End => (CursorState::Exhausted, CursorStep::Finished),
            FetchEvent::Failure(m) => (CursorState::Failed, CursorStep::Aborted(m)),
        },
        _ => (s, CursorStep::Closed),
    }
}

/// The rows a cursor in state `s` emits over the events `evs`, and the state
/// it ends in.
pub open spec fn run_cursor(s: CursorState, evs: Seq<FetchEvent>) -> (CursorState, Seq<Record>)
    decreases evs.len(),
{
    if evs.len() == 0 {
        (s, Seq::empty())
    } else {
        let (next, step) = cursor_step(s, evs[0]);
        let (last, rest) = run_cursor(next, evs.drop_first());
        match step {
            CursorStep::Emit(r) => (last, seq![r] + rest),
            _ => (last, rest),
        }
    }
}

pub open spec fn row_events(rows: Seq<Record>) -> Seq<FetchEvent> {
    rows.map_values(|r: Record| FetchEvent::Row(r))
}

impl RowCursor {
    pub closed spec fn state(&self) -> CursorState {
        self.state
    }

    pub fn new() -> (c: RowCursor)
        ensures
            c.state() == CursorState::Streaming,
    {
        RowCursor { state: CursorState::Streaming }
    }

    pub fn current(&self) -> (s: CursorState)
        ensures
            s == self.state(),
    {
        self.state
    }

    /// Takes one fetch result and says what the consumer gets from it.
    pub fn advance(&mut self, ev: FetchEvent) -> (step: CursorStep)
        ensures
            (final(self).state(), step) == cursor_step(old(self).state(), ev),
    {
        match self.state {
            CursorState::Streaming => match ev {
                FetchEvent::Row(r) => CursorStep::Emit(r),
                FetchEvent::End => {
                    self.state = CursorState::Exhausted;
                    CursorStep::Finished
                },
                FetchEvent::Failure(m) => {
                    self.state = CursorState::Failed;
                    CursorStep::Aborted(m)
                },
            },
            _ => CursorStep::Closed,
        }
    }
}

/// A terminated cursor emits nothing more, whatever it is fed.
pub proof fn law_terminated_cursor_is_silent(s: CursorState, evs: Seq<FetchEvent>)
    requires
        s != CursorState::Streaming,
    ensures
        run_cursor(s, evs) == (s, Seq::<Record>::empty()),
    decreases evs.len(),
{
    if evs.len() > 0 {
        law_terminated_cursor_is_silent(s, evs.drop_first());
    }
}

/// Fed the rows of a result set and then its end, a fresh cursor emits
/// exactly those rows, each once and in order, and ends exhausted; whatever
/// comes after the end is not emitted.
pub proof fn law_stream_yields_every_row_once(
    rows: Seq<Record>,
    after: Seq<FetchEvent>,
)
    ensures
        run_cursor(CursorState::Streaming, row_events(rows) + seq![FetchEvent::End] + after)
            == (CursorState::Exhausted, rows),
    decreases rows.len(),
{
    let evs = row_events(rows) + seq![FetchEvent::End] + after;
    if rows.len() == 0 {
        assert(evs[0] == FetchEvent::End);
        assert(evs.drop_first() =~= after);
        law_terminated_cursor_is_silent(CursorState::Exhausted, after);
    } else {
        law_stream_yields_every_row_once(rows.drop_first(), after);
        assert(evs[0] == FetchEvent::Row(rows[0]));
        assert(evs.drop_first() =~= row_events(rows.drop_first()) + seq![FetchEvent::End] + after);
        assert(seq![rows[0]] + rows.drop_first() =~= rows);
    }
}

/// A failure in the middle of the stream ends the cursor failed; the rows
/// emitted before it are kept, and nothing after it is emitted.
pub proof fn law_failure_keeps_earlier_rows(
    rows: Seq<Record>,
    msg: String,
    after: Seq<FetchEvent>,
)
    ensures
        run_cursor(CursorState::Streaming, row_events(rows) + seq![FetchEvent::Failure(msg)] + after)
            == (CursorState::Failed, rows),
    decreases rows.len(),
{
    let evs = row_events(rows) + seq![FetchEvent::Failure(msg)] + after;
    if rows.len() == 0 {
        assert(evs[0] == FetchEvent::Failure(msg));
        assert(evs.drop_first() =~= after);
        law_terminated_cursor_is_silent(CursorState::Failed, after);
    } else {
        law_failure_keeps_earlier_rows(rows.drop_first(), msg, after);
        assert(evs[0] == FetchEvent::Row(rows[0]));
        assert(evs.drop_first() =~= row_events(rows.drop_first()) + seq![FetchEvent::Failure(msg)] + after);
        assert(seq![rows[0]] + rows.drop_first() =~= rows);
    }
}

} // verus!
