//! The audit trail: one record for every accepted charge.

use vstd::prelude::*;

use crate::model::ModelTier;
use crate::money::{micros_of, NanoUsd};

verus! {

/// One accepted charge.
#[derive(Debug)]
pub struct SpendRecord {
    pub agent_id: String,
    pub task_id: Option<String>,
    pub session_id: Option<String>,
    pub model_tier: ModelTier,
    pub input_tokens: u32,
    pub output_tokens: u32,
    pub cost_usd: NanoUsd,
    pub timestamp_ms: u64,
}

/// A record with its strings as sequences of characters.
pub struct SpendRecordView {
    pub agent_id: Seq<char>,
    pub task_id: Option<Seq<char>>,
    pub session_id: Option<Seq<char>>,
    pub model_tier: ModelTier,
    pub input_tokens: int,
    pub output_tokens: int,
    pub cost_usd: int,
    pub timestamp_ms: int,
}

/// The characters of a string, if there is one.
pub open spec fn text_of(text: Option<String>) -> Option<Seq<char>> {
    match text {
        Some(text) => Some(text@),
        None => None,
    }
}

impl View for SpendRecord {
    type V = SpendRecordView;

    open spec fn view(&self) -> SpendRecordView {
        SpendRecordView {
            agent_id: self.agent_id@,
            task_id: text_of(self.task_id),
            session_id: text_of(self.session_id),
            model_tier: self.model_tier,
            input_tokens: self.input_tokens as int,
            output_tokens: self.output_tokens as int,
            cost_usd: self.cost_usd as int,
            timestamp_ms: self.timestamp_ms as int,
        }
    }
}

/// Law: the contracts speak of a record field for field, and of a log record for
/// record, in its order.
pub proof fn law_log_is_viewed_as_it_is(log: Seq<SpendRecord>, i: int)
    requires
        0 <= i < log.len(),
    ensures
        log_view(log).len() == log.len(),
        log_view(log)[i].agent_id == log[i].agent_id@,
        log_view(log)[i].task_id == (match log[i].task_id {
            Some(task_id) => Some(task_id@),
            None => None,
        }),
        log_view(log)[i].session_id == (match log[i].session_id {
            Some(session_id) => Some(session_id@),
            None => None,
        }),
        log_view(log)[i].model_tier == log[i].model_tier,
        log_view(log)[i].input_tokens == log[i].input_tokens,
        log_view(log)[i].output_tokens == log[i].output_tokens,
        log_view(log)[i].cost_usd == log[i].cost_usd,
        log_view(log)[i].timestamp_ms == log[i].timestamp_ms,
        log[i]@ == log_view(log)[i],
{
}

/// Law: the total of a log is none for an empty one, and every record adds its
/// cost in micro-dollars, wherever it stands.
pub proof fn law_every_record_counts(
    before: Seq<SpendRecordView>,
    record: SpendRecordView,
    behind: Seq<SpendRecordView>,
)
    ensures
        log_total(Seq::empty()) == 0,
        log_total(before.push(record) + behind) == log_total(before + behind) + micros_of(
            record.cost_usd,
        ),
    decreases behind.len(),
{
    if behind.len() == 0 {
        assert(before.push(record) + behind =~= before.push(record));
        assert(before.push(record).drop_last() =~= before);
        assert(before + behind =~= before);
    } else {
        law_every_record_counts(before, record, behind.drop_last());
        assert((before.push(record) + behind).drop_last() =~= before.push(record)
            + behind.drop_last());
        assert((before + behind).drop_last() =~= before + behind.drop_last());
    }
}

fn clone_text(text: &Option<String>) -> (copy: Option<String>)
    ensures
        copy == *text,
{
    match text {
        Some(text) => Some(text.clone()),
        None => None,
    }
}

impl Clone for SpendRecord {
    fn clone(&self) -> (copy: SpendRecord)
        ensures
            copy == *self,
    {
        SpendRecord {
            agent_id: self.agent_id.clone(),
            task_id: clone_text(&self.task_id),
            session_id: clone_text(&self.session_id),
            model_tier: self.model_tier,
            input_tokens: self.input_tokens,
            output_tokens: self.output_tokens,
            cost_usd: self.cost_usd,
            timestamp_ms: self.timestamp_ms,
        }
    }
}

/// A log as a sequence of viewed records.
pub open spec fn log_view(log: Seq<SpendRecord>) -> Seq<SpendRecordView> {
    log.map_values(|record: SpendRecord| record@)
}

/// Copies a log, record for record.
pub fn clone_log(log: &Vec<SpendRecord>) -> (copy: Vec<SpendRecord>)
    ensures
        copy@ == log@,
{
    let mut copy: Vec<SpendRecord> = Vec::new();
    let mut i: usize = 0;
    while i < log.len()
        invariant
            i <= log.len(),
            copy@ == log@.take(i as int),
        decreases log.len() - i,
    {
        copy.push(log[i].clone());
        i += 1;
    }
    assert(log@.take(i as int) =~= log@);
    copy
}

/// What a log was charged altogether, in micro-dollars.
pub open spec fn log_total(log: Seq<SpendRecordView>) -> nat
    decreases log.len(),
{
    if log.len() == 0 {
        0
    } else {
        log_total(log.drop_last()) + micros_of(log.last().cost_usd)
    }
}

} // verus!
