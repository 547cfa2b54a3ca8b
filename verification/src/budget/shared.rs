//! Envelopes that several owners share.
//!
//! A table keeps the envelopes, and a handle leads to one of them. A clone of a
//! handle leads to the same envelope, so what is done through one is seen through
//! the other.

use vstd::prelude::*;

use crate::budget::envelope::{BudgetEnvelope, EnvelopeView, ScopeKind};
use crate::budget::record::{SpendRecord, SpendRecordView};
use crate::error::{BudgetError, BudgetErrorView};
use crate::money::{micros_of, nanos_of, NanoUsd};

verus! {

/// Leads to an envelope of a table.
#[derive(Debug)]
pub struct EnvelopeHandle {
    slot: usize,
}

impl View for EnvelopeHandle {
    type V = int;

    closed spec fn view(&self) -> int {
        self.slot as int
    }
}

impl Clone for EnvelopeHandle {
    /// A second handle to the same envelope.
    fn clone(&self) -> (copy: EnvelopeHandle)
        ensures
            copy@ == self@,
    {
        EnvelopeHandle { slot: self.slot }
    }
}

/// Keeps envelopes for the handles that lead to them.
pub struct EnvelopeTable {
    envelopes: Vec<BudgetEnvelope>,
}

/// The envelopes of a table, by the handles that lead to them.
pub struct TableView {
    pub envelopes: Seq<EnvelopeView>,
}

impl TableView {
    /// Whether a handle leads to an envelope of the table.
    pub open spec fn has(self, handle: int) -> bool {
        0 <= handle < self.envelopes.len()
    }

    /// The table with one more envelope.
    pub open spec fn opening(self, envelope: EnvelopeView) -> TableView {
        TableView { envelopes: self.envelopes.push(envelope) }
    }

    /// The table after a charge through a handle.
    pub open spec fn charging(self, handle: int, record: SpendRecordView) -> TableView {
        TableView {
            envelopes: self.envelopes.update(handle, self.envelopes[handle].charged(record)),
        }
    }

    /// The table after a kill through a handle.
    pub open spec fn stopping(self, handle: int) -> TableView {
        TableView { envelopes: self.envelopes.update(handle, self.envelopes[handle].stopped()) }
    }
}

impl View for EnvelopeTable {
    type V = TableView;

    closed spec fn view(&self) -> TableView {
        TableView { envelopes: self.envelopes@.map_values(|envelope: BudgetEnvelope| envelope@) }
    }
}

impl EnvelopeTable {
    /// Creates a table without envelopes.
    pub fn new() -> (table: EnvelopeTable)
        ensures
            table@.envelopes == Seq::<EnvelopeView>::empty(),
    {
        let table = EnvelopeTable { envelopes: Vec::new() };
        assert(table@.envelopes =~= Seq::<EnvelopeView>::empty());
        table
    }

    /// Adds an envelope with a hard cap of `limit_usd`, and gives the first handle
    /// to it.
    pub fn open(&mut self, scope_id: &str, scope_kind: ScopeKind, limit_usd: NanoUsd) -> (result:
        Result<EnvelopeHandle, BudgetError>)
        ensures
            match result {
                Ok(handle) => {
                    &&& 0 < limit_usd
                    &&& handle@ == old(self)@.envelopes.len()
                    &&& final(self)@ == old(self)@.opening(
                        EnvelopeView::fresh(scope_id@, scope_kind, micros_of(limit_usd as int)),
                    )
                },
                Err(error) => {
                    &&& limit_usd <= 0
                    &&& final(self)@ == old(self)@
                    &&& error@ == BudgetErrorView::InvalidConfig("limit must be positive"@)
                },
            },
    {
        let envelope = BudgetEnvelope::new(scope_id, scope_kind, limit_usd)?;
        let slot: usize = self.envelopes.len();
        self.envelopes.push(envelope);
        assert(self@.envelopes =~= old(self)@.opening(envelope@).envelopes);
        Ok(EnvelopeHandle { slot })
    }

    /// Charges the envelope that a handle leads to.
    pub fn charge(&mut self, handle: &EnvelopeHandle, record: SpendRecord) -> (result: Result<
        NanoUsd,
        BudgetError,
    >)
        requires
            old(self)@.has(handle@),
        ensures
            final(self)@ == old(self)@.charging(handle@, record@),
            match result {
                Ok(total) => {
                    &&& old(self)@.envelopes[handle@].accepts(record.cost_usd as int)
                    &&& total == nanos_of(final(self)@.envelopes[handle@].budget.spent)
                },
                Err(error) => {
                    &&& !old(self)@.envelopes[handle@].accepts(record.cost_usd as int)
                    &&& error@ == old(self)@.envelopes[handle@].refusal()
                },
            },
    {
        let result = self.envelopes[handle.slot].charge(record);
        assert(self@.envelopes =~= old(self)@.charging(handle@, record@).envelopes);
        result
    }

    /// Turns on the kill switch of the envelope that a handle leads to.
    pub fn kill(&mut self, handle: &EnvelopeHandle, reason: &str)
        requires
            old(self)@.has(handle@),
        ensures
            final(self)@ == old(self)@.stopping(handle@),
    {
        self.envelopes[handle.slot].kill(reason);
        assert(self@.envelopes =~= old(self)@.stopping(handle@).envelopes);
    }

    /// The envelope that a handle leads to.
    pub fn envelope(&self, handle: &EnvelopeHandle) -> (envelope: &BudgetEnvelope)
        requires
            self@.has(handle@),
        ensures
            envelope@ == self@.envelopes[handle@],
    {
        &self.envelopes[handle.slot]
    }
}

/// Something done to a table.
pub enum TableOp {
    Open(EnvelopeView),
    Charge(int, SpendRecordView),
    Kill(int),
}

impl TableView {
    /// The table after one operation; one through a handle that leads nowhere
    /// changes nothing.
    pub open spec fn step(self, op: TableOp) -> TableView {
        match op {
            TableOp::Open(envelope) => self.opening(envelope),
            TableOp::Charge(handle, record) => if self.has(handle) {
                self.charging(handle, record)
            } else {
                self
            },
            TableOp::Kill(handle) => if self.has(handle) {
                self.stopping(handle)
            } else {
                self
            },
        }
    }

    /// The table after a series of operations.
    pub open spec fn run(self, ops: Seq<TableOp>) -> TableView
        decreases ops.len(),
    {
        if ops.len() == 0 {
            self
        } else {
            self.run(ops.drop_last()).step(ops.last())
        }
    }
}

/// Law: a handle leads to an envelope exactly if it counts one of those in the
/// table. Opening an envelope adds it behind the others and touches none of them; a
/// charge and a kill do to the envelope of their handle what they do to an
/// envelope alone, and neither adds nor removes one.
pub proof fn law_handle_leads_to_its_envelope(
    table: TableView,
    handle: int,
    other: int,
    any: int,
    envelope: EnvelopeView,
    record: SpendRecordView,
)
    requires
        0 <= handle < table.envelopes.len(),
        0 <= other < table.envelopes.len(),
        other != handle,
    ensures
        table.has(any) <==> 0 <= any < table.envelopes.len(),
        table.opening(envelope).envelopes.len() == table.envelopes.len() + 1,
        table.opening(envelope).envelopes.last() == envelope,
        table.opening(envelope).envelopes[handle] == table.envelopes[handle],
        table.charging(handle, record).envelopes.len() == table.envelopes.len(),
        table.charging(handle, record).envelopes[handle] == table.envelopes[handle].charged(record),
        table.charging(handle, record).envelopes[other] == table.envelopes[other],
        table.stopping(handle).envelopes.len() == table.envelopes.len(),
        table.stopping(handle).envelopes[handle].killed,
        table.stopping(handle).envelopes[handle].budget == table.envelopes[handle].budget,
        table.stopping(handle).envelopes[handle].log == table.envelopes[handle].log,
        table.stopping(handle).envelopes[other] == table.envelopes[other],
{
}

proof fn lemma_killed_stays(table: TableView, handle: int, ops: Seq<TableOp>)
    requires
        table.has(handle),
        table.envelopes[handle].killed,
    ensures
        table.run(ops).has(handle),
        table.run(ops).envelopes[handle] == table.envelopes[handle],
    decreases ops.len(),
{
    if ops.len() > 0 {
        lemma_killed_stays(table, handle, ops.drop_last());
    }
}

/// Law: a handle and its clone share one kill switch. After a kill through the
/// clone, whatever is done to the table, the envelope is killed through either
/// of them and refuses every charge through either with the kill switch error.
/// The kill leaves spend, limit and log as they were, and so does everything
/// after it; a second kill changes nothing.
pub proof fn law_clones_share_the_kill_switch(
    table: TableView,
    handle: int,
    clone: int,
    ops: Seq<TableOp>,
    cost_usd: int,
)
    requires
        table.has(handle),
        clone == handle,
    ensures
        table.stopping(clone).run(ops).envelopes[handle].killed,
        table.stopping(clone).run(ops).envelopes[clone].killed,
        !table.stopping(clone).run(ops).envelopes[handle].accepts(cost_usd),
        !table.stopping(clone).run(ops).envelopes[clone].accepts(cost_usd),
        table.stopping(clone).run(ops).envelopes[handle].refusal() is KillSwitchActivated,
        table.stopping(clone).run(ops).envelopes[clone].refusal() is KillSwitchActivated,
        table.stopping(clone).run(ops).envelopes[handle].budget == table.envelopes[handle].budget,
        table.stopping(clone).run(ops).envelopes[handle].log == table.envelopes[handle].log,
        table.stopping(clone).stopping(handle) == table.stopping(clone),
{
    lemma_killed_stays(table.stopping(clone), handle, ops);
    assert(table.stopping(clone).stopping(handle).envelopes =~= table.stopping(clone).envelopes);
}

/// Law: what is done through a handle is seen through its clone, and leaves every
/// other envelope alone.
pub proof fn law_clones_share_one_envelope(
    table: TableView,
    handle: int,
    clone: int,
    other: int,
    record: SpendRecordView,
)
    requires
        table.has(handle),
        table.has(other),
        clone == handle,
        other != handle,
    ensures
        table.charging(handle, record).envelopes[clone] == table.envelopes[clone].charged(record),
        table.stopping(handle).envelopes[clone] == table.envelopes[clone].stopped(),
        table.charging(handle, record).envelopes[other] == table.envelopes[other],
        table.stopping(handle).envelopes[other] == table.envelopes[other],
{
}

} // verus!
