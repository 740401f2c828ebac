use vstd::prelude::*;
use crate::report::BUFFER_SIZE;

verus! {

/// Why sending reports to a keyboard failed.
#[derive(Debug, Clone, Copy, PartialEq, Eq, Structural)]
pub enum SendError {
    /// The device could not be opened.
    OpenFailed,
    /// The report at `index` does not have the report size; nothing from it on was sent.
    BufferSize { index: usize, len: usize },
    /// Writing the report at `index` failed; nothing after it was sent.
    WriteFailed(usize),
}

/// What the transport does next.
#[derive(Debug, Clone, Copy, PartialEq, Eq, Structural)]
pub enum SendAction {
    /// Write the report at this index.
    Transmit(usize),
    /// Every report was written.
    Finish,
    /// Stop with this error.
    Abort(SendError),
}

/// The next action once the first `written` of reports with sizes `lens`
/// have been written.
pub open spec fn next_action_spec(lens: Seq<nat>, written: int) -> SendAction {
    if written >= lens.len() {
        SendAction::Finish
    } else if lens[written] != BUFFER_SIZE {
        SendAction::Abort(SendError::BufferSize { index: written as usize, len: lens[written] as usize })
    } else {
        SendAction::Transmit(written as usize)
    }
}

/// What follows the write of report `index`.
pub open spec fn after_write_spec(index: int, ok: bool) -> Result<usize, SendError> {
    if ok {
        Ok((index + 1) as usize)
    } else {
        Err(SendError::WriteFailed(index as usize))
    }
}

pub open spec fn sizes(buffers: Seq<Vec<u8>>) -> Seq<nat> {
    buffers.map_values(|b: Vec<u8>| b@.len())
}

/// The reports a send writes, by index, and how it ends, when `next_action`
/// and `after_write` are followed from report `from` on, with write outcomes `ok`.
pub open spec fn send_trace(lens: Seq<nat>, ok: Seq<bool>, from: int) -> (Seq<int>, Option<SendError>)
    decreases lens.len() - from,
{
    if from < 0 {
        (Seq::empty(), None)
    } else {
        match next_action_spec(lens, from) {
            SendAction::Finish => (Seq::empty(), None),
            SendAction::Abort(e) => (Seq::empty(), Some(e)),
            SendAction::Transmit(_) => match after_write_spec(from, from < ok.len() && ok[from]) {
                Err(e) => (seq![from], Some(e)),
                Ok(_) => {
                    let rest = send_trace(lens, ok, from + 1);
                    (seq![from] + rest.0, rest.1)
                },
            },
        }
    }
}

/// The next action once the first `written` reports have been written: check
/// the size of the next report before it is written.
pub fn next_action(buffers: &Vec<Vec<u8>>, written: usize) -> (r: SendAction)
    requires
        written <= buffers.len(),
    ensures
        r == next_action_spec(sizes(buffers@), written as int),
{
    if written == buffers.len() {
        SendAction::Finish
    } else if buffers[written].len() != BUFFER_SIZE {
        SendAction::Abort(SendError::BufferSize { index: written, len: buffers[written].len() })
    } else {
        SendAction::Transmit(written)
    }
}

/// What follows the write of report `index`: the count of reports written so
/// far, or the error that stops the send. A failed write is not retried.
pub fn after_write(index: usize, ok: bool) -> (r: Result<usize, SendError>)
    requires
        index < usize::MAX,
    ensures
        r == after_write_spec(index as int, ok),
{
    if ok {
        Ok(index + 1)
    } else {
        Err(SendError::WriteFailed(index))
    }
}

/// A send whose write of report `k` fails, after the reports before it were
/// written, writes exactly reports `0..=k` and reports `k` as the failure:
/// no report after `k` is written.
pub proof fn lemma_send_stops_at_failure(lens: Seq<nat>, ok: Seq<bool>, k: int)
    requires
        0 <= k < lens.len(),
        k < ok.len(),
        lens.len() <= usize::MAX,
        forall|i: int| 0 <= i <= k ==> #[trigger] lens[i] == BUFFER_SIZE,
        forall|i: int| 0 <= i < k ==> #[trigger] ok[i],
        !ok[k],
    ensures
        send_trace(lens, ok, 0).0 == Seq::new((k + 1) as nat, |i: int| i),
        send_trace(lens, ok, 0).1 == Some(SendError::WriteFailed(k as usize)),
{
    lemma_trace_from(lens, ok, k, 0);
    assert(Seq::new((k + 1 - 0) as nat, |i: int| i + 0) =~= Seq::new((k + 1) as nat, |i: int| i));
}

proof fn lemma_trace_from(lens: Seq<nat>, ok: Seq<bool>, k: int, from: int)
    requires
        0 <= from <= k < lens.len(),
        k < ok.len(),
        forall|i: int| 0 <= i <= k ==> #[trigger] lens[i] == BUFFER_SIZE,
        forall|i: int| 0 <= i < k ==> #[trigger] ok[i],
        !ok[k],
    ensures
        send_trace(lens, ok, from).0 == Seq::new((k + 1 - from) as nat, |i: int| i + from),
        send_trace(lens, ok, from).1 == Some(SendError::WriteFailed(k as usize)),
    decreases k - from,
{
    if from < k {
        lemma_trace_from(lens, ok, k, from + 1);
        let rest = send_trace(lens, ok, from + 1);
        assert(seq![from] + rest.0 =~= Seq::new((k + 1 - from) as nat, |i: int| i + from));
    } else {
        assert(seq![from] =~= Seq::new((k + 1 - from) as nat, |i: int| i + from));
    }
}

} // verus!
