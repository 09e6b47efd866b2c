//! What a client of the line protocol can rely on.
use vstd::prelude::*;

use crate::battle::BattleReadError;
use crate::error::CoreErrorCode;
use crate::requests::{detect_reply, ReaderEvent, ReaderStep, Step};
use crate::rpc::{
    battle_read_error, capture_options, core_error, mods_plugin_request, timeline_scope,
    BattleTimelineScopeParam, CaptureControllerOptions, CaptureDeviceSelector, CaptureProfile,
    CaptureStartParams, DomainError, EquipmentOperationParam, HelloParams, ItemUidParam,
    ModsPluginOperation, ModsPluginRequest, ModsPluginResponse, ModsPluginSubmitError, Request,
    RpcError,
};
use crate::model::HtItemNetId;
use crate::runtime::{BattleRecordRuntime, OperationId, RuntimeControl};
use crate::session::{
    Effect, EquipmentOutcome, Message, Reply, Runtime, StatusResult,
};
use crate::timeline::TimelineScope;

verus! {

/// The game's number names the item that the client named.
pub open spec fn names(number: HtItemNetId, uid: ItemUidParam) -> bool {
    number.solt == uid.slot && number.serial == uid.serial
}

/// The game's number names no one.
pub open spec fn names_nobody(number: HtItemNetId) -> bool {
    number.solt == 0 && number.serial == 0
}

/// Whether the mod loader is told what a client asks for: the same kind of
/// change, for the same character, of the same items, to the same places, with
/// the same flag.
pub open spec fn told_as_asked(
    asked: EquipmentOperationParam,
    character: HtItemNetId,
    told: ModsPluginOperation,
) -> bool {
    &&& told is EquipModule <==> asked is EquipModule
    &&& told is EquipCore <==> asked is EquipCore
    &&& told is UnequipModule <==> asked is UnequipModule
    &&& told is UnequipCore <==> asked is UnequipCore
    &&& told is UnequipAll <==> asked is UnequipAll
    &&& told is EquipOneKey <==> asked is EquipOneKey
    &&& told is MoveModuleToCharacter <==> asked is MoveModuleToCharacter
    &&& told is MoveCoreToCharacter <==> asked is MoveCoreToCharacter
    &&& told is SetItemDiscarded <==> asked is SetItemDiscarded
    &&& told is SetItemLocked <==> asked is SetItemLocked
    &&& asked is EquipModule ==> {
        &&& names(character, asked->EquipModule_character)
        &&& names(told->EquipModule_equipment, asked->EquipModule_equipment)
        &&& told->EquipModule_row == asked->EquipModule_row
        &&& told->EquipModule_column == asked->EquipModule_column
    }
    &&& asked is EquipCore ==> {
        &&& names(character, asked->EquipCore_character)
        &&& names(told->EquipCore_equipment, asked->EquipCore_equipment)
    }
    &&& asked is UnequipModule ==> {
        &&& names(character, asked->UnequipModule_character)
        &&& names(told->UnequipModule_equipment, asked->UnequipModule_equipment)
    }
    &&& asked is UnequipCore ==> {
        &&& names(character, asked->UnequipCore_character)
        &&& names(told->UnequipCore_equipment, asked->UnequipCore_equipment)
    }
    &&& asked is UnequipAll ==> names(character, asked->UnequipAll_character)
    &&& asked is EquipOneKey ==> {
        let wanted = asked->EquipOneKey_placements@;
        let placed = told->EquipOneKey_placements@;
        &&& names(character, asked->EquipOneKey_character)
        &&& names(told->EquipOneKey_core, asked->EquipOneKey_core)
        &&& placed.len() == wanted.len()
        &&& forall|k: int|
            0 <= k < placed.len() ==> {
                &&& names((#[trigger] placed[k]).equipment, wanted[k].equipment)
                &&& placed[k].row == wanted[k].row
                &&& placed[k].column == wanted[k].column
            }
    }
    &&& asked is MoveModuleToCharacter ==> {
        &&& names(character, asked->MoveModuleToCharacter_character)
        &&& names(
            told->MoveModuleToCharacter_equipment,
            asked->MoveModuleToCharacter_equipment,
        )
        &&& told->MoveModuleToCharacter_row == asked->MoveModuleToCharacter_row
        &&& told->MoveModuleToCharacter_column == asked->MoveModuleToCharacter_column
    }
    &&& asked is MoveCoreToCharacter ==> {
        &&& names(character, asked->MoveCoreToCharacter_character)
        &&& names(told->MoveCoreToCharacter_equipment, asked->MoveCoreToCharacter_equipment)
    }
    &&& asked is SetItemDiscarded ==> {
        &&& names_nobody(character)
        &&& names(told->SetItemDiscarded_equipment, asked->SetItemDiscarded_equipment)
        &&& told->SetItemDiscarded_discarded == asked->SetItemDiscarded_discarded
    }
    &&& asked is SetItemLocked ==> {
        &&& names_nobody(character)
        &&& names(told->SetItemLocked_equipment, asked->SetItemLocked_equipment)
        &&& told->SetItemLocked_locked == asked->SetItemLocked_locked
    }
}

/// The mod loader is told what the client asks for, under the number that was
/// given out for it: equipping stays equipping, taking off stays taking off.
pub proof fn the_mod_loader_is_told_what_was_asked(
    request_id: u64,
    asked: EquipmentOperationParam,
    request: ModsPluginRequest,
)
    requires
        call_ensures(mods_plugin_request, (request_id, asked), request),
    ensures
        request.request_id == request_id,
        told_as_asked(asked, request.character, request.operation),
{
    if asked is EquipOneKey {
        let wanted = asked->EquipOneKey_placements@;
        let placed = request.operation->EquipOneKey_placements@;
        assert forall|k: int| 0 <= k < placed.len() implies {
            &&& names((#[trigger] placed[k]).equipment, wanted[k].equipment)
            &&& placed[k].row == wanted[k].row
            &&& placed[k].column == wanted[k].column
        } by {}
    }
}

/// A client that has shaken hands has its change of equipment handed to the mod
/// loader as it asked for it, under a new number; nothing else changes.
pub proof fn equipment_requests_are_handed_on<C: Clone>(
    session: &mut Runtime<C>,
    id: String,
    asked: EquipmentOperationParam,
    raw_capture_path: Option<String>,
    step: Step<C>,
)
    requires
        old(session).control.handshaken,
        old(session).control.equipment_request_sequence < u64::MAX,
        call_ensures(
            Runtime::<C>::handle_request,
            (session, id, Request::Equipment(asked), raw_capture_path),
            step,
        ),
    ensures
        step is Submit,
        step->Submit_id == id,
        step->Submit_request.request_id == old(session).control.equipment_request_sequence + 1,
        told_as_asked(
            asked,
            step->Submit_request.character,
            step->Submit_request.operation,
        ),
        final(session).state == old(session).state,
        final(session).pending_equipment_requests == old(session).pending_equipment_requests,
        final(session).control.equipment_request_sequence == old(
            session,
        ).control.equipment_request_sequence + 1,
        final(session).control.capture == old(session).control.capture,
        final(session).control.record == old(session).control.record,
        final(session).control.sequence == old(session).control.sequence,
{
    if asked is EquipOneKey {
        let wanted = asked->EquipOneKey_placements@;
        let placed = step->Submit_request.operation->EquipOneKey_placements@;
        assert forall|k: int| 0 <= k < placed.len() implies {
            &&& names((#[trigger] placed[k]).equipment, wanted[k].equipment)
            &&& placed[k].row == wanted[k].row
            &&& placed[k].column == wanted[k].column
        } by {}
    }
}

/// A failure of capture control reaches the client as the failure that it is.
pub proof fn capture_failures_keep_their_kind(code: CoreErrorCode, error: RpcError)
    requires
        call_ensures(core_error, (code,), error),
    ensures
        error is Domain,
        error->Domain_0 is NpcapNotFound <==> code is NpcapNotFound,
        error->Domain_0 is GameProcessNotFound <==> code is GameProcessNotFound,
        error->Domain_0 is CaptureDeviceNotFound <==> code is CaptureDeviceNotFound,
        error->Domain_0 is SystemProbeFailed <==> code is SystemProbeFailed,
        error->Domain_0 is CaptureAlreadyRunning <==> code is CaptureAlreadyRunning,
        error->Domain_0 is CaptureNotRunning <==> code is CaptureNotRunning,
{
}

/// A battle read that failed is answered with the failure that it is, and with
/// the cursor that could still be used.
pub proof fn read_failures_keep_their_kind(failure: BattleReadError, error: RpcError)
    requires
        call_ensures(battle_read_error, (failure,), error),
    ensures
        error is Domain,
        error->Domain_0 is BattleRecordNotFound <==> failure is RecordNotFound,
        error->Domain_0 is BattleTimelineTooLarge <==> failure is TimelineTooLarge,
        error->Domain_0 is BattleAxisCursorExpired <==> failure is AxisCursorExpired,
        error->Domain_0 is BattleAxisCursorInvalid <==> failure is AxisCursorInvalid,
        failure is AxisCursorExpired ==> error->Domain_0->first_available
            == failure->first_available,
        failure is AxisCursorInvalid ==> error->Domain_0->last_available
            == failure->last_available,
{
}

/// What capture control found is answered as it is; a probe that failed is
/// answered with its own failure.
pub proof fn probes_are_answered_as_found<D>(
    environment: Result<D, CoreErrorCode>,
    result: Result<D, RpcError>,
)
    requires
        call_ensures(detect_reply::<D>, (environment,), result),
    ensures
        result is Ok <==> environment is Ok,
        environment is Ok ==> result->Ok_0 == environment->Ok_0,
        environment is Err ==> result->Err_0 is Domain,
        environment is Err && environment->Err_0 is NpcapNotFound ==> result->Err_0->Domain_0 is
            NpcapNotFound,
        environment is Err && environment->Err_0 is GameProcessNotFound
            ==> result->Err_0->Domain_0 is GameProcessNotFound,
        environment is Err && environment->Err_0 is CaptureDeviceNotFound
            ==> result->Err_0->Domain_0 is CaptureDeviceNotFound,
        environment is Err && environment->Err_0 is SystemProbeFailed
            ==> result->Err_0->Domain_0 is SystemProbeFailed,
{
}

/// A capture is started as the client asked: on the device it named, with the
/// profile and the switches it set. A raw capture is left out only where the
/// client refuses it, and its path is shown only to a client that asks for one.
pub proof fn captures_start_as_asked(
    params: CaptureStartParams,
    options: CaptureControllerOptions,
)
    requires
        call_ensures(capture_options, (params,), options),
    ensures
        options.profile is Combat <==> params.profile is Combat,
        options.profile is Inventory <==> params.profile is Inventory,
        options.device is Auto <==> params.device is Auto,
        params.device is Name ==> options.device == CaptureDeviceSelector::Name(
            params.device->name,
        ),
        options.include_incoming == params.include_incoming,
        options.server_damage_calibration == params.server_damage_calibration,
        options.raw_capture is Disabled <==> (params.raw_capture is Some
            && params.raw_capture->0 is Disabled),
        options.expose_raw_capture_path <==> (params.raw_capture is Some
            && params.raw_capture->0 is Enabled),
        options.expose_raw_capture_path ==> options.raw_capture is Enabled,
{
}

/// The upper line is the first half, the lower one the second, and all of it
/// the whole session.
pub proof fn scopes_are_read_as_asked(asked: BattleTimelineScopeParam, scope: TimelineScope)
    requires
        call_ensures(timeline_scope, (asked,), scope),
    ensures
        scope is Whole <==> asked is All,
        scope is First <==> asked is Upper,
        scope is Second <==> asked is Lower,
{
}

/// A client shakes hands by offering a range of versions that holds version
/// one. It is told so, or told that the versions do not match; a client that
/// has shaken hands stays so.
pub proof fn handshakes_need_the_version<C: Clone>(
    session: &mut Runtime<C>,
    id: String,
    offer: HelloParams,
    raw_capture_path: Option<String>,
    step: Step<C>,
)
    requires
        call_ensures(
            Runtime::<C>::handle_request,
            (session, id, Request::Hello(offer), raw_capture_path),
            step,
        ),
    ensures
        final(session).control.handshaken <==> old(session).control.handshaken || (
        offer.protocol_min <= 1 && offer.protocol_max >= 1),
        step is Done && step->Done_0@.len() == 1 && step->Done_0@[0] is Send,
        ({
            let message = step->Done_0@[0]->message;
            if offer.protocol_min <= 1 && offer.protocol_max >= 1 {
                message is Success && message->Success_id == id && message->result is Hello
            } else {
                message is Failure && message->Failure_id == Some(id) && message->error
                    == RpcError::Domain(DomainError::ProtocolVersionMismatch)
            }
        }),
        final(session).state == old(session).state,
        final(session).latest_inventory == old(session).latest_inventory,
{
}

/// The status tells whether a capture runs and with which profile, which
/// inventory there is, and whether there is a battle to read.
pub proof fn the_status_tells_what_runs<C: Clone>(
    session: &Runtime<C>,
    raw_capture_path: Option<String>,
    status: StatusResult,
)
    requires
        call_ensures(Runtime::<C>::status, (session, raw_capture_path), status),
    ensures
        status.handshaken <==> session.control.handshaken,
        status.capture_running <==> session.control.capture is Some,
        status.capture_running <==> status.profile is Some,
        session.control.capture is Some ==> status.profile->0 == session.control.capture->0,
        status.inventory_generation is Some <==> session.latest_inventory is Some,
        session.latest_inventory is Some ==> status.inventory_generation->0
            == session.latest_inventory->0.generation,
        session.state.battle.team.hits@.len() > 0 ==> status.battle_available,
        session.state.battle.team.stats@.len() > 0 ==> status.battle_available,
        session.state.battle.abyss.active ==> status.battle_available,
        session.state.battle.team.hits@.len() == 0 && session.state.battle.team.stats@.len() == 0
            && !session.state.battle.abyss.active ==> !status.battle_available,
        status.raw_capture_path == raw_capture_path,
{
}

/// Starting a capture gives out a new operation; stopping it names the same
/// operation and profile, after which nothing runs. A start that failed leaves
/// everything as it was.
pub proof fn captures_stop_as_they_started<C: Clone>(
    starting: &mut Runtime<C>,
    profile: CaptureProfile,
    outcome: Result<(), CoreErrorCode>,
    started: Result<OperationId, CoreErrorCode>,
    stopping: &mut Runtime<C>,
    stopped: Result<(OperationId, CaptureProfile), CoreErrorCode>,
)
    requires
        old(starting).control.operation_sequence < u64::MAX,
        call_ensures(Runtime::<C>::start_capture, (starting, profile, outcome), started),
        *old(stopping) == *final(starting),
        call_ensures(
            Runtime::<C>::stop_capture,
            (stopping, Ok::<(), CoreErrorCode>(())),
            stopped,
        ),
    ensures
        started is Ok <==> outcome is Ok,
        outcome is Err ==> *final(starting) == *old(starting) && started->Err_0 == outcome->Err_0,
        outcome is Ok ==> {
            &&& started->Ok_0.number == old(starting).control.operation_sequence + 1
            &&& final(starting).control.capture == Some(profile)
            &&& final(starting).control.latest_operation == Some(started->Ok_0)
            &&& stopped is Ok
            &&& stopped->Ok_0.0 == started->Ok_0
            &&& stopped->Ok_0.1 == profile
        },
        final(stopping).control.capture is None,
        final(stopping).state == old(starting).state,
        final(stopping).control.operation_sequence == final(starting).control.operation_sequence,
{
}

/// Without a capture there is nothing to stop, and a stop that fails reports
/// its own failure.
pub proof fn idle_sessions_have_nothing_to_stop<C: Clone>(
    session: &mut Runtime<C>,
    outcome: Result<(), CoreErrorCode>,
    stopped: Result<(OperationId, CaptureProfile), CoreErrorCode>,
)
    requires
        call_ensures(Runtime::<C>::stop_capture, (session, outcome), stopped),
    ensures
        old(session).control.capture is None ==> {
            &&& *final(session) == *old(session)
            &&& stopped is Err && stopped->Err_0 is CaptureNotRunning
        },
        old(session).control.capture is Some && outcome is Err ==> stopped is Err
            && stopped->Err_0 == outcome->Err_0,
        old(session).control.capture is Some && outcome is Ok ==> stopped is Ok,
        final(session).control.capture is None,
{
}

/// What the mod loader answers goes to the client's request that waits under
/// its number, once: status zero is a dispatch, one a dry run, any other a
/// refusal with that status, and silence means that it is gone.
pub proof fn mod_loader_answers_find_their_request<C: Clone>(
    session: &mut Runtime<C>,
    response: ModsPluginResponse,
    effects: Vec<Effect<C>>,
)
    requires
        call_ensures(Runtime::<C>::process_equipment_response, (session, response), effects),
    ensures
        ({
            let waiting = old(session).pending_equipment_requests@;
            let left = final(session).pending_equipment_requests@;
            if waiting.dom().contains(response.request_id) {
                let id = waiting[response.request_id];
                &&& !left.dom().contains(response.request_id)
                &&& forall|other: u64|
                    other != response.request_id ==> (#[trigger] left.dom().contains(other)
                        <==> waiting.dom().contains(other))
                &&& effects@.len() == 1 && effects@[0] is Send
                &&& {
                    let message = effects@[0]->message;
                    match response.status {
                        None => message is Failure && message->Failure_id == Some(id)
                            && message->error == RpcError::Domain(
                            DomainError::ModsPluginUnavailable,
                        ),
                        Some(status) => if status == 0 {
                            &&& message is Success && message->Success_id == id
                            &&& message->result == Reply::<C>::Equipment(
                                EquipmentOutcome::RpcDispatched,
                            )
                        } else if status == 1 {
                            &&& message is Success && message->Success_id == id
                            &&& message->result == Reply::<C>::Equipment(
                                EquipmentOutcome::DryRunOk,
                            )
                        } else {
                            &&& message is Failure && message->Failure_id == Some(id)
                            &&& message->error is Domain
                            &&& message->error->Domain_0 is EquipmentRequestRejected
                            &&& message->error->Domain_0->status == status
                        },
                    }
                }
            } else {
                left == waiting && effects@.len() == 0
            }
        }),
        final(session).state == old(session).state,
        final(session).control == old(session).control,
{
}

/// A change that the mod loader took is answered later, to the client that
/// asked for it; one that it did not take is answered at once.
pub proof fn taken_changes_are_answered_to_the_client<C: Clone>(
    submitting: &mut Runtime<C>,
    id: String,
    request_id: u64,
    outcome: Result<(), ModsPluginSubmitError>,
    at_once: Vec<Effect<C>>,
    answering: &mut Runtime<C>,
    status: Option<u32>,
    later: Vec<Effect<C>>,
)
    requires
        !old(submitting).pending_equipment_requests@.dom().contains(request_id),
        call_ensures(
            Runtime::<C>::finish_equipment_submit,
            (submitting, id, request_id, outcome),
            at_once,
        ),
        *old(answering) == *final(submitting),
        call_ensures(
            Runtime::<C>::process_equipment_response,
            (answering, ModsPluginResponse { request_id, status }),
            later,
        ),
    ensures
        at_once@.len() + later@.len() == 1,
        outcome is Ok ==> later@.len() == 1 && later@[0] is Send && ({
            let message = later@[0]->message;
            match message {
                Message::Success { id: answered, .. } => answered == id && status is Some
                    && status->0 <= 1,
                Message::Failure { id: answered, .. } => answered == Some(id) && (status is None
                    || status->0 > 1),
                Message::Notification(_) => false,
            }
        }),
        outcome is Err ==> at_once@.len() == 1 && at_once@[0] is Send && ({
            let message = at_once@[0]->message;
            &&& message is Failure && message->Failure_id == Some(id)
            &&& outcome->Err_0 is Busy ==> message->error == RpcError::Domain(
                DomainError::ModsPluginBusy,
            )
            &&& outcome->Err_0 is Disconnected ==> message->error == RpcError::Domain(
                DomainError::ModsPluginUnavailable,
            )
        }),
        !final(answering).pending_equipment_requests@.dom().contains(request_id),
{
}

/// A line that is no request is reported as the failure that it is, under its
/// id where it has one, and changes nothing; the end of the stream ends the
/// session.
pub proof fn lines_that_are_no_requests_change_nothing<C: Clone>(
    session: &mut Runtime<C>,
    event: ReaderEvent,
    raw_capture_path: Option<String>,
    step: ReaderStep<C>,
)
    requires
        event !is Request,
        call_ensures(Runtime::<C>::handle_reader_event, (session, event, raw_capture_path), step),
    ensures
        *final(session) == *old(session),
        event is Eof <==> step is End,
        event is Error ==> {
            &&& step is Report
            &&& step->fatal <==> event->fatal
            &&& step->effects@.len() == 1 && step->effects@[0] is Send
            &&& step->effects@[0]->message is Failure
            &&& step->effects@[0]->message->Failure_id == event->Error_id
            &&& step->effects@[0]->message->error == event->error
        },
{
}

/// A battle that changes has a record: the one in progress, one generation on
/// and open again, or a new one with the next number. A session without
/// content has none to begin.
pub proof fn changes_move_the_record(
    control: &mut RuntimeControl,
    has_content: bool,
    dropped_hits: u64,
)
    requires
        call_ensures(
            RuntimeControl::mark_battle_changed,
            (control, has_content, dropped_hits),
            (),
        ),
    ensures
        !has_content ==> *final(control) == *old(control),
        has_content ==> {
            &&& final(control).record is Some
            &&& !final(control).record->0.finalized
            &&& final(control).record->0.finalized_at_unix_ms is None
        },
        has_content && old(control).record is Some ==> {
            let before = old(control).record->0;
            let after = final(control).record->0;
            &&& after.number == before.number
            &&& after.source == before.source
            &&& before.generation < u64::MAX ==> after.generation == before.generation + 1
            &&& before.axis_base_sequence + dropped_hits <= u64::MAX ==> after.axis_base_sequence
                == before.axis_base_sequence + dropped_hits
            &&& !before.finalized && before.capture_operation is Some ==> after.capture_operation
                == before.capture_operation
            &&& before.finalized && old(control).active_operation is Some
                ==> after.capture_operation == old(control).active_operation
            &&& final(control).battle_record_sequence == old(control).battle_record_sequence
        },
        has_content && old(control).record is None ==> {
            let after = final(control).record->0;
            &&& after.generation == 1
            &&& after.axis_base_sequence == dropped_hits
            &&& after.source is Live
            &&& old(control).battle_record_sequence < u64::MAX ==> after.number == old(
                control,
            ).battle_record_sequence + 1
            &&& final(control).battle_record_sequence == after.number
            &&& old(control).active_operation is Some ==> after.capture_operation == old(
                control,
            ).active_operation
            &&& old(control).active_operation is None ==> after.capture_operation == old(
                control,
            ).latest_operation
        },
        final(control).capture == old(control).capture,
        final(control).sequence == old(control).sequence,
{
}

/// The end of a capture closes its own record at that time, once, and leaves
/// the record of another capture alone.
pub proof fn captures_close_their_own_record(
    control: &mut RuntimeControl,
    operation: Option<OperationId>,
    now: u64,
)
    requires
        call_ensures(
            RuntimeControl::finalize_current_battle_record,
            (control, operation, now),
            (),
        ),
    ensures
        old(control).record is None <==> final(control).record is None,
        old(control).record is Some ==> {
            let before = old(control).record->0;
            let after = final(control).record->0;
            let another = operation is Some && before.capture_operation is Some
                && operation->0.number != before.capture_operation->0.number;
            &&& another || before.finalized ==> after == before
            &&& !another && !before.finalized ==> {
                &&& after.finalized
                &&& after.finalized_at_unix_ms == Some(now)
                &&& before.generation < u64::MAX ==> after.generation == before.generation + 1
            }
            &&& after.number == before.number
            &&& after.axis_base_sequence == before.axis_base_sequence
            &&& after.capture_operation == before.capture_operation
        },
        final(control).battle_record_sequence == old(control).battle_record_sequence,
        final(control).capture == old(control).capture,
{
}

/// A read without a name is about the record that there is; a read with a name
/// is about that record, or finds none.
pub proof fn reads_find_the_record_they_name(
    control: &RuntimeControl,
    requested: Option<&str>,
    result: Result<Option<BattleRecordRuntime>, BattleReadError>,
    name: String,
)
    requires
        call_ensures(RuntimeControl::battle_record_context, (control, requested), result),
        control.record is Some ==> call_ensures(
            BattleRecordRuntime::id,
            (control.record->0,),
            name,
        ),
    ensures
        requested is None ==> result is Ok && result->Ok_0 == control.record,
        requested is Some && control.record is None ==> result is Err && result->Err_0 is
            RecordNotFound,
        requested is Some && control.record is Some ==> if requested->0@ == name@ {
            result is Ok && result->Ok_0 == control.record
        } else {
            result is Err && result->Err_0 is RecordNotFound
        },
{
}

/// Forgetting the battle leaves no hits, no rows and no record, keeps the
/// inventory and the numbers given out, and takes back the summary that waits.
pub proof fn forgetting_a_battle_keeps_the_rest<C: Clone>(
    session: &mut Runtime<C>,
    effects: Vec<Effect<C>>,
)
    requires
        call_ensures(Runtime::<C>::reset_battle, (session,), effects),
    ensures
        final(session).state.battle.team.hits@.len() == 0,
        final(session).state.battle.team.stats@.len() == 0,
        final(session).state.battle.team.total_damage.bits == 0,
        !final(session).state.battle.abyss.active,
        final(session).state.battle.started_at is None,
        final(session).state.battle.ended_at is None,
        final(session).state.inventory == old(session).state.inventory,
        final(session).latest_inventory == old(session).latest_inventory,
        final(session).control.record is None,
        !final(session).control.battle_summary_dirty,
        final(session).control.capture == old(session).control.capture,
        final(session).control.active_operation == old(session).control.active_operation,
        final(session).control.sequence == old(session).control.sequence,
        final(session).control.battle_record_sequence == old(
            session,
        ).control.battle_record_sequence,
        final(session).pending_equipment_requests == old(session).pending_equipment_requests,
        effects@.len() == 1 && effects@[0] is ClearSummary,
{
}

} // verus!
