//! What the session behind the line protocol remembers beside its state: the
//! capture that runs, the numbers given out, and the battle record.
use vstd::prelude::*;

use crate::battle::{saturated, saturating_sum, BattleReadError};
use crate::model::CaptureQualitySource;
use crate::rpc::CaptureProfile;
use crate::text::{decimal, decimal_is_injective, decimal_text, same_text, shown};

verus! {

/// One run of a capture.
#[derive(Clone, Copy, Debug, PartialEq, Eq, Structural)]
pub struct OperationId {
    pub number: u64,
}

/// How an operation is named.
pub open spec fn operation_name(id: OperationId) -> Seq<char> {
    "capture-"@ + decimal(id.number as nat)
}

impl OperationId {
    pub fn text(self) -> (result: String)
        ensures
            result@ == operation_name(self),
    {
        let mut name: String = "capture-".to_owned();
        name.append(decimal_text(self.number).as_str());
        name
    }
}

/// The battle that the session records.
#[derive(Clone, Copy, Debug, PartialEq, Eq, Structural)]
pub struct BattleRecordRuntime {
    pub number: u64,
    pub capture_operation: Option<OperationId>,
    pub generation: u64,
    pub finalized: bool,
    pub finalized_at_unix_ms: Option<u64>,
    /// How many hits were dropped from the front.
    pub axis_base_sequence: u64,
    pub source: CaptureQualitySource,
}

/// How a record is named.
pub open spec fn record_name(number: u64) -> Seq<char> {
    "battle-"@ + decimal(number as nat)
}

impl BattleRecordRuntime {
    pub fn id(self) -> (result: String)
        ensures
            result@ == record_name(self.number),
    {
        let mut name: String = "battle-".to_owned();
        name.append(decimal_text(self.number).as_str());
        name
    }

    /// The record after the battle changed once more.
    pub open spec fn changed(self, operation: Option<OperationId>, dropped_hits: u64) -> Self {
        BattleRecordRuntime {
            capture_operation: if self.capture_operation is None || self.finalized {
                operation
            } else {
                self.capture_operation
            },
            axis_base_sequence: saturated(self.axis_base_sequence + dropped_hits),
            generation: saturated(self.generation + 1),
            finalized: false,
            finalized_at_unix_ms: None,
            ..self
        }
    }

    /// The record after its capture ended.
    pub open spec fn closed(self, now: u64) -> Self {
        if self.finalized {
            self
        } else {
            BattleRecordRuntime {
                finalized: true,
                finalized_at_unix_ms: Some(now),
                generation: saturated(self.generation + 1),
                ..self
            }
        }
    }
}

/// A record of which nothing is known yet.
pub open spec fn fresh_record(
    number: u64,
    operation: Option<OperationId>,
) -> BattleRecordRuntime {
    BattleRecordRuntime {
        number,
        capture_operation: operation,
        generation: 0,
        finalized: false,
        finalized_at_unix_ms: None,
        axis_base_sequence: 0,
        source: CaptureQualitySource::Live,
    }
}

/// What the session remembers beside its state.
#[derive(Clone, Copy, Debug, PartialEq, Eq, Structural)]
pub struct RuntimeControl {
    pub handshaken: bool,
    /// The profile of the capture that runs.
    pub capture: Option<CaptureProfile>,
    pub active_operation: Option<OperationId>,
    pub latest_operation: Option<OperationId>,
    pub sequence: u64,
    pub inventory_generation: u64,
    pub operation_sequence: u64,
    pub battle_record_sequence: u64,
    pub equipment_request_sequence: u64,
    pub running_notified: bool,
    pub battle_summary_dirty: bool,
    pub record: Option<BattleRecordRuntime>,
}

impl RuntimeControl {
    /// A capture that runs has an operation.
    pub open spec fn coherent(self) -> bool {
        self.capture is Some ==> self.active_operation is Some
    }

    /// The operation that a change belongs to.
    pub open spec fn operation(self) -> Option<OperationId> {
        if self.active_operation is Some {
            self.active_operation
        } else {
            self.latest_operation
        }
    }

    /// The record in progress, or the one that a change begins.
    pub open spec fn record_in_progress(self) -> BattleRecordRuntime {
        match self.record {
            Some(record) => record,
            None => fresh_record(saturated(self.battle_record_sequence + 1), self.operation()),
        }
    }

    /// The battle changed. A session without content has no record.
    pub open spec fn marked(self, has_content: bool, dropped_hits: u64) -> Self {
        if !has_content {
            self
        } else {
            RuntimeControl {
                battle_record_sequence: if self.record is None {
                    saturated(self.battle_record_sequence + 1)
                } else {
                    self.battle_record_sequence
                },
                record: Some(self.record_in_progress().changed(self.operation(), dropped_hits)),
                ..self
            }
        }
    }

    /// Whether the end of an operation ends the record.
    pub open spec fn is_finalized_by(self, operation: Option<OperationId>) -> bool {
        self.record matches Some(record) && (operation is None || record.capture_operation is None
            || operation == record.capture_operation)
    }

    /// The operation ended.
    pub open spec fn finalized(self, operation: Option<OperationId>, now: u64) -> Self {
        if self.is_finalized_by(operation) {
            RuntimeControl { record: Some(self.record->0.closed(now)), ..self }
        } else {
            self
        }
    }

    /// One more numbered message was sent.
    pub open spec fn numbered(self) -> Self {
        RuntimeControl { sequence: (self.sequence + 1) as u64, ..self }
    }

    pub fn mark_battle_changed(&mut self, has_content: bool, dropped_hits: u64)
        ensures
            *final(self) == old(self).marked(has_content, dropped_hits),
    {
        if !has_content {
            return;
        }
        let operation = match self.active_operation {
            Some(operation) => Some(operation),
            None => self.latest_operation,
        };
        let mut record = match self.record {
            Some(record) => record,
            None => {
                self.battle_record_sequence = saturating_sum(self.battle_record_sequence, 1);
                BattleRecordRuntime {
                    number: self.battle_record_sequence,
                    capture_operation: operation,
                    generation: 0,
                    finalized: false,
                    finalized_at_unix_ms: None,
                    axis_base_sequence: 0,
                    source: CaptureQualitySource::Live,
                }
            },
        };
        if record.capture_operation.is_none() || record.finalized {
            record.capture_operation = operation;
        }
        record.axis_base_sequence = saturating_sum(record.axis_base_sequence, dropped_hits);
        record.generation = saturating_sum(record.generation, 1);
        record.finalized = false;
        record.finalized_at_unix_ms = None;
        self.record = Some(record);
    }

    pub fn finalize_current_battle_record(&mut self, operation: Option<OperationId>, now: u64)
        ensures
            *final(self) == old(self).finalized(operation, now),
    {
        if let Some(record) = self.record {
            let other = match (operation, record.capture_operation) {
                (Some(ended), Some(recorded)) => ended != recorded,
                _ => false,
            };
            if !other && !record.finalized {
                let mut closed = record;
                closed.finalized = true;
                closed.finalized_at_unix_ms = Some(now);
                closed.generation = saturating_sum(record.generation, 1);
                self.record = Some(closed);
            }
        }
    }

    /// The record that a read is about: the one asked for by name, or the one
    /// there is.
    pub open spec fn record_for(self, requested: Option<Seq<char>>) -> Result<
        Option<BattleRecordRuntime>,
        BattleReadError,
    > {
        match (self.record, requested) {
            (None, None) => Ok(None),
            (None, Some(_)) => Err(BattleReadError::RecordNotFound),
            (Some(record), None) => Ok(Some(record)),
            (Some(record), Some(name)) => if name == record_name(record.number) {
                Ok(Some(record))
            } else {
                Err(BattleReadError::RecordNotFound)
            },
        }
    }

    pub fn battle_record_context(&self, requested: Option<&str>) -> (result: Result<
        Option<BattleRecordRuntime>,
        BattleReadError,
    >)
        ensures
            result == self.record_for(shown(requested)),
    {
        match (self.record, requested) {
            (None, None) => Ok(None),
            (None, Some(_)) => Err(BattleReadError::RecordNotFound),
            (Some(record), None) => Ok(Some(record)),
            (Some(record), Some(name)) => if same_text(name, record.id().as_str()) {
                Ok(Some(record))
            } else {
                Err(BattleReadError::RecordNotFound)
            },
        }
    }
}

/// Different records have different names.
pub proof fn records_are_told_apart(left: u64, right: u64)
    ensures
        record_name(left) == record_name(right) ==> left == right,
{
    if record_name(left) == record_name(right) {
        let prefix = "battle-"@;
        assert(record_name(left).skip(prefix.len() as int) =~= decimal(left as nat));
        assert(record_name(right).skip(prefix.len() as int) =~= decimal(right as nat));
        decimal_is_injective(left as nat, right as nat);
    }
}

/// Different operations have different names.
pub proof fn operations_are_told_apart(left: OperationId, right: OperationId)
    ensures
        operation_name(left) == operation_name(right) ==> left == right,
{
    if operation_name(left) == operation_name(right) {
        let prefix = "capture-"@;
        assert(operation_name(left).skip(prefix.len() as int) =~= decimal(left.number as nat));
        assert(operation_name(right).skip(prefix.len() as int) =~= decimal(right.number as nat));
        decimal_is_injective(left.number as nat, right.number as nat);
    }
}

/// Every change of a battle that has content, and its first end, moves the
/// record's generation, until that can move no further; a second end does not.
pub proof fn generations_follow_changes(
    control: RuntimeControl,
    dropped_hits: u64,
    operation: Option<OperationId>,
    now: u64,
    later: u64,
)
    ensures
        ({
            let marked = control.marked(true, dropped_hits);
            let closed = marked.finalized(operation, now);
            &&& marked.record is Some
            &&& control.record is Some ==> marked.record->0.number == control.record->0.number
            &&& control.record is Some && control.record->0.generation < u64::MAX
                ==> marked.record->0.generation == control.record->0.generation + 1
            &&& !marked.record->0.finalized
            &&& marked.is_finalized_by(operation) ==> closed.record->0.finalized
            &&& marked.is_finalized_by(operation) && marked.record->0.generation < u64::MAX
                ==> closed.record->0.generation == marked.record->0.generation + 1
            &&& closed.finalized(operation, later) == closed
        }),
{
}

/// A record that a session begins after forgetting its last one has a new
/// name, until the numbers run out.
pub proof fn forgotten_records_do_not_come_back(
    control: RuntimeControl,
    has_content: bool,
    dropped_hits: u64,
)
    requires
        control.record is Some,
        control.record->0.number <= control.battle_record_sequence,
        control.battle_record_sequence < u64::MAX,
    ensures
        ({
            let forgotten = RuntimeControl { record: None, ..control };
            let name = record_name(control.record->0.number);
            forgotten.record_for(Some(name)) == Err::<Option<BattleRecordRuntime>, _>(
                BattleReadError::RecordNotFound,
            ) && forgotten.marked(has_content, dropped_hits).record_for(Some(name)) == Err::<
                Option<BattleRecordRuntime>,
                _,
            >(BattleReadError::RecordNotFound)
        }),
{
    let next = (control.battle_record_sequence + 1) as u64;
    records_are_told_apart(control.record->0.number, next);
}

} // verus!
