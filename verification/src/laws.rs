//! Laws that relate several calls of the adapter.
//!
//! Each recording appends one serialized message to the channel's message
//! log ([`record_effect`]); these lemmas lift that single step to whole
//! sequences of dispatches.

use vstd::prelude::*;
use crate::devtools::record_effect;
use crate::value::Value;

verus! {

/// The message log after a batch of messages is recorded one at a time,
/// in dispatch order, starting from `msgs`.
pub open spec fn record_all(msgs: Seq<Value>, batch: Seq<Value>) -> Seq<Value>
    decreases batch.len(),
{
    if batch.len() == 0 {
        msgs
    } else {
        record_all(record_effect(msgs, batch[0]), batch.drop_first())
    }
}

/// Recording a batch of serialized messages in dispatch order appends
/// exactly that batch to the log: recording is order-preserving and
/// append-only, and nothing already recorded is lost or reordered.
pub proof fn lemma_record_order(msgs: Seq<Value>, batch: Seq<Value>)
    ensures
        record_all(msgs, batch) == msgs + batch,
    decreases batch.len(),
{
    if batch.len() == 0 {
        assert(msgs + batch =~= msgs);
    } else {
        lemma_record_order(record_effect(msgs, batch[0]), batch.drop_first());
        assert(msgs.push(batch[0]) + batch.drop_first() =~= msgs + batch);
    }
}

/// Starting from an empty log — the state a fresh initialization leaves —
/// recording a batch in dispatch order yields exactly that batch.
pub proof fn lemma_record_from_empty(batch: Seq<Value>)
    ensures
        record_all(Seq::<Value>::empty(), batch) == batch,
{
    lemma_record_order(Seq::<Value>::empty(), batch);
    assert(Seq::<Value>::empty() + batch =~= batch);
}

} // verus!
