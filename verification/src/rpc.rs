//! Requests, replies and failures of the line protocol.
use vstd::prelude::*;

use crate::battle::BattleReadError;
use crate::error::CoreErrorCode;
use crate::model::HtItemNetId;
use crate::text::{decimal, decimal_text};
use crate::single::Single;
use crate::timeline::TimelineScope;

verus! {

pub const PROTOCOL_VERSION: u32 = 1;

/// A failure that belongs to the application and not to the protocol.
#[derive(Clone, Copy, Debug, PartialEq, Eq, Structural)]
pub enum DomainError {
    ProtocolVersionMismatch,
    HandshakeRequired,
    InventoryNotReady,
    EquipmentRequestRejected { status: u32 },
    ModsPluginBusy,
    ModsPluginUnavailable,
    NpcapNotFound,
    GameProcessNotFound,
    CaptureDeviceNotFound,
    SystemProbeFailed,
    CaptureAlreadyRunning,
    CaptureNotRunning,
    BattleRecordNotFound,
    BattleAxisCursorExpired { first_available: u64 },
    BattleAxisCursorInvalid { last_available: u64 },
    BattleTimelineTooLarge,
}

/// The stable code of a failure.
pub open spec fn domain_code(error: DomainError) -> Seq<char> {
    match error {
        DomainError::ProtocolVersionMismatch => "PROTOCOL_VERSION_MISMATCH"@,
        DomainError::HandshakeRequired => "HANDSHAKE_REQUIRED"@,
        DomainError::InventoryNotReady => "INVENTORY_NOT_READY"@,
        DomainError::EquipmentRequestRejected { .. } => "EQUIPMENT_REQUEST_REJECTED"@,
        DomainError::ModsPluginBusy => "MODS_PLUGIN_BUSY"@,
        DomainError::ModsPluginUnavailable => "MODS_PLUGIN_UNAVAILABLE"@,
        DomainError::NpcapNotFound => "NPCAP_NOT_FOUND"@,
        DomainError::GameProcessNotFound => "GAME_PROCESS_NOT_FOUND"@,
        DomainError::CaptureDeviceNotFound => "CAPTURE_DEVICE_NOT_FOUND"@,
        DomainError::SystemProbeFailed => "SYSTEM_PROBE_FAILED"@,
        DomainError::CaptureAlreadyRunning => "CAPTURE_ALREADY_RUNNING"@,
        DomainError::CaptureNotRunning => "CAPTURE_NOT_RUNNING"@,
        DomainError::BattleRecordNotFound => "BATTLE_RECORD_NOT_FOUND"@,
        DomainError::BattleAxisCursorExpired { .. } => "BATTLE_AXIS_CURSOR_EXPIRED"@,
        DomainError::BattleAxisCursorInvalid { .. } => "BATTLE_AXIS_CURSOR_INVALID"@,
        DomainError::BattleTimelineTooLarge => "BATTLE_TIMELINE_TOO_LARGE"@,
    }
}

/// What a failure tells the client.
pub open spec fn domain_text(error: DomainError) -> Seq<char> {
    match error {
        DomainError::ProtocolVersionMismatch => "Supported protocol version is "@ + decimal(
            PROTOCOL_VERSION as nat,
        ),
        DomainError::HandshakeRequired => "core.hello must succeed before this method"@,
        DomainError::InventoryNotReady => "No complete inventory snapshot is available"@,
        DomainError::EquipmentRequestRejected { status } =>
            "Mod loader rejected the request with status "@ + decimal(status as nat),
        DomainError::ModsPluginBusy =>
            "Mod loader already has the maximum number of pending requests"@,
        DomainError::ModsPluginUnavailable => "Mod loader is unavailable"@,
        DomainError::NpcapNotFound => "Npcap is unavailable or device enumeration failed"@,
        DomainError::GameProcessNotFound => "The game process was not detected"@,
        DomainError::CaptureDeviceNotFound => "The requested capture device was not found"@,
        DomainError::SystemProbeFailed => "The system environment probe failed"@,
        DomainError::CaptureAlreadyRunning => "A capture is already running"@,
        DomainError::CaptureNotRunning => "No capture is running"@,
        DomainError::BattleRecordNotFound =>
            "The requested battle record is not available in this Core process"@,
        DomainError::BattleAxisCursorExpired { first_available } =>
            "The requested cursor was trimmed; first available cursor is "@ + decimal(
            first_available as nat,
        ),
        DomainError::BattleAxisCursorInvalid { last_available } =>
            "The requested cursor exceeds the last available hit "@ + decimal(
            last_available as nat,
        ),
        DomainError::BattleTimelineTooLarge =>
            "The requested timeline exceeds the bounded response budget; increase bucket_seconds"@,
    }
}

fn numbered(text: &str, number: u64) -> (result: String)
    ensures
        result@ == text@ + decimal(number as nat),
{
    let mut whole: String = text.to_owned();
    whole.append(decimal_text(number).as_str());
    whole
}

impl DomainError {
    pub fn code(self) -> (result: &'static str)
        ensures
            result@ == domain_code(self),
    {
        match self {
            DomainError::ProtocolVersionMismatch => "PROTOCOL_VERSION_MISMATCH",
            DomainError::HandshakeRequired => "HANDSHAKE_REQUIRED",
            DomainError::InventoryNotReady => "INVENTORY_NOT_READY",
            DomainError::EquipmentRequestRejected { .. } => "EQUIPMENT_REQUEST_REJECTED",
            DomainError::ModsPluginBusy => "MODS_PLUGIN_BUSY",
            DomainError::ModsPluginUnavailable => "MODS_PLUGIN_UNAVAILABLE",
            DomainError::NpcapNotFound => "NPCAP_NOT_FOUND",
            DomainError::GameProcessNotFound => "GAME_PROCESS_NOT_FOUND",
            DomainError::CaptureDeviceNotFound => "CAPTURE_DEVICE_NOT_FOUND",
            DomainError::SystemProbeFailed => "SYSTEM_PROBE_FAILED",
            DomainError::CaptureAlreadyRunning => "CAPTURE_ALREADY_RUNNING",
            DomainError::CaptureNotRunning => "CAPTURE_NOT_RUNNING",
            DomainError::BattleRecordNotFound => "BATTLE_RECORD_NOT_FOUND",
            DomainError::BattleAxisCursorExpired { .. } => "BATTLE_AXIS_CURSOR_EXPIRED",
            DomainError::BattleAxisCursorInvalid { .. } => "BATTLE_AXIS_CURSOR_INVALID",
            DomainError::BattleTimelineTooLarge => "BATTLE_TIMELINE_TOO_LARGE",
        }
    }

    pub fn message(self) -> (result: String)
        ensures
            result@ == domain_text(self),
    {
        match self {
            DomainError::ProtocolVersionMismatch => numbered(
                "Supported protocol version is ",
                PROTOCOL_VERSION as u64,
            ),
            DomainError::HandshakeRequired => "core.hello must succeed before this method".to_owned(),
            DomainError::InventoryNotReady =>
                "No complete inventory snapshot is available".to_owned(),
            DomainError::EquipmentRequestRejected { status } => numbered(
                "Mod loader rejected the request with status ",
                status as u64,
            ),
            DomainError::ModsPluginBusy =>
                "Mod loader already has the maximum number of pending requests".to_owned(),
            DomainError::ModsPluginUnavailable => "Mod loader is unavailable".to_owned(),
            DomainError::NpcapNotFound =>
                "Npcap is unavailable or device enumeration failed".to_owned(),
            DomainError::GameProcessNotFound => "The game process was not detected".to_owned(),
            DomainError::CaptureDeviceNotFound =>
                "The requested capture device was not found".to_owned(),
            DomainError::SystemProbeFailed => "The system environment probe failed".to_owned(),
            DomainError::CaptureAlreadyRunning => "A capture is already running".to_owned(),
            DomainError::CaptureNotRunning => "No capture is running".to_owned(),
            DomainError::BattleRecordNotFound =>
                "The requested battle record is not available in this Core process".to_owned(),
            DomainError::BattleAxisCursorExpired { first_available } => numbered(
                "The requested cursor was trimmed; first available cursor is ",
                first_available,
            ),
            DomainError::BattleAxisCursorInvalid { last_available } => numbered(
                "The requested cursor exceeds the last available hit ",
                last_available,
            ),
            DomainError::BattleTimelineTooLarge =>
                "The requested timeline exceeds the bounded response budget; increase bucket_seconds".to_owned(),
        }
    }
}

/// Why a request failed.
#[derive(Clone, Copy, Debug, PartialEq, Eq, Structural)]
pub enum RpcError {
    ParseError,
    InvalidRequest,
    MethodNotFound,
    Domain(DomainError),
}

impl RpcError {
    /// The number that the protocol reserves for a failure of its own.
    pub fn protocol_number(self) -> (result: Option<i32>)
        ensures
            result == (match self {
                RpcError::ParseError => Some(-32700i32),
                RpcError::InvalidRequest => Some(-32600i32),
                RpcError::MethodNotFound => Some(-32601i32),
                RpcError::Domain(_) => None,
            }),
    {
        match self {
            RpcError::ParseError => Some(-32700),
            RpcError::InvalidRequest => Some(-32600),
            RpcError::MethodNotFound => Some(-32601),
            RpcError::Domain(_) => None,
        }
    }
}

/// What a failure of capture control is answered with.
pub open spec fn answered(code: CoreErrorCode) -> DomainError {
    match code {
        CoreErrorCode::NpcapNotFound => DomainError::NpcapNotFound,
        CoreErrorCode::GameProcessNotFound => DomainError::GameProcessNotFound,
        CoreErrorCode::CaptureDeviceNotFound => DomainError::CaptureDeviceNotFound,
        CoreErrorCode::SystemProbeFailed => DomainError::SystemProbeFailed,
        CoreErrorCode::CaptureAlreadyRunning => DomainError::CaptureAlreadyRunning,
        CoreErrorCode::CaptureNotRunning => DomainError::CaptureNotRunning,
    }
}

pub fn core_error(code: CoreErrorCode) -> (result: RpcError)
    ensures
        result == RpcError::Domain(answered(code)),
{
    RpcError::Domain(
        match code {
            CoreErrorCode::NpcapNotFound => DomainError::NpcapNotFound,
            CoreErrorCode::GameProcessNotFound => DomainError::GameProcessNotFound,
            CoreErrorCode::CaptureDeviceNotFound => DomainError::CaptureDeviceNotFound,
            CoreErrorCode::SystemProbeFailed => DomainError::SystemProbeFailed,
            CoreErrorCode::CaptureAlreadyRunning => DomainError::CaptureAlreadyRunning,
            CoreErrorCode::CaptureNotRunning => DomainError::CaptureNotRunning,
        },
    )
}

/// What a failed battle read is answered with.
pub open spec fn read_failure(error: BattleReadError) -> DomainError {
    match error {
        BattleReadError::RecordNotFound => DomainError::BattleRecordNotFound,
        BattleReadError::AxisCursorExpired { first_available } =>
            DomainError::BattleAxisCursorExpired { first_available },
        BattleReadError::AxisCursorInvalid { last_available } =>
            DomainError::BattleAxisCursorInvalid { last_available },
        BattleReadError::TimelineTooLarge => DomainError::BattleTimelineTooLarge,
    }
}

pub fn battle_read_error(error: BattleReadError) -> (result: RpcError)
    ensures
        result == RpcError::Domain(read_failure(error)),
{
    RpcError::Domain(
        match error {
            BattleReadError::RecordNotFound => DomainError::BattleRecordNotFound,
            BattleReadError::AxisCursorExpired { first_available } =>
                DomainError::BattleAxisCursorExpired { first_available },
            BattleReadError::AxisCursorInvalid { last_available } =>
                DomainError::BattleAxisCursorInvalid { last_available },
            BattleReadError::TimelineTooLarge => DomainError::BattleTimelineTooLarge,
        },
    )
}

/// How a client names an item or a character.
#[derive(Clone, Copy, Debug, PartialEq, Eq, Structural)]
pub struct ItemUidParam {
    pub slot: i32,
    pub serial: i32,
}

#[derive(Clone, Copy, Debug, PartialEq, Eq, Structural)]
pub struct PlacementParam {
    pub equipment: ItemUidParam,
    pub row: u8,
    pub column: u8,
}

/// A change of equipment that a client asks for.
#[derive(Clone, Debug)]
pub enum EquipmentOperationParam {
    EquipModule { character: ItemUidParam, equipment: ItemUidParam, row: u8, column: u8 },
    EquipCore { character: ItemUidParam, equipment: ItemUidParam },
    UnequipModule { character: ItemUidParam, equipment: ItemUidParam },
    UnequipCore { character: ItemUidParam, equipment: ItemUidParam },
    UnequipAll { character: ItemUidParam },
    EquipOneKey { character: ItemUidParam, placements: Vec<PlacementParam>, core: ItemUidParam },
    MoveModuleToCharacter { character: ItemUidParam, equipment: ItemUidParam, row: u8, column: u8 },
    MoveCoreToCharacter { character: ItemUidParam, equipment: ItemUidParam },
    SetItemDiscarded { equipment: ItemUidParam, discarded: bool },
    SetItemLocked { equipment: ItemUidParam, locked: bool },
}

#[derive(Clone, Copy, Debug, PartialEq, Eq, Structural)]
pub struct ModsPluginPlacement {
    pub equipment: HtItemNetId,
    pub row: u8,
    pub column: u8,
}

/// A change of equipment as the mod loader takes it.
#[derive(Clone, Debug)]
pub enum ModsPluginOperation {
    EquipModule { equipment: HtItemNetId, row: u8, column: u8 },
    EquipCore { equipment: HtItemNetId },
    UnequipModule { equipment: HtItemNetId },
    UnequipCore { equipment: HtItemNetId },
    UnequipAll,
    EquipOneKey { placements: Vec<ModsPluginPlacement>, core: HtItemNetId },
    MoveModuleToCharacter { equipment: HtItemNetId, row: u8, column: u8 },
    MoveCoreToCharacter { equipment: HtItemNetId },
    SetItemDiscarded { equipment: HtItemNetId, discarded: bool },
    SetItemLocked { equipment: HtItemNetId, locked: bool },
}

#[derive(Clone, Debug)]
pub struct ModsPluginRequest {
    pub request_id: u64,
    pub character: HtItemNetId,
    pub operation: ModsPluginOperation,
}

/// What the mod loader answered: a status, or that it could not be reached.
#[derive(Clone, Copy, Debug, PartialEq, Eq, Structural)]
pub struct ModsPluginResponse {
    pub request_id: u64,
    pub status: Option<u32>,
}

#[derive(Clone, Copy, Debug, PartialEq, Eq, Structural)]
pub enum ModsPluginSubmitError {
    Busy,
    Disconnected,
}

/// The game's number of an item that a client names.
pub open spec fn net_id(uid: ItemUidParam) -> HtItemNetId {
    HtItemNetId { solt: uid.slot, serial: uid.serial }
}

pub fn item_net_id(uid: ItemUidParam) -> (result: HtItemNetId)
    ensures
        result == net_id(uid),
{
    HtItemNetId { solt: uid.slot, serial: uid.serial }
}

/// The character that an operation is about; none for a change of the item.
pub open spec fn operated_character(operation: EquipmentOperationParam) -> HtItemNetId {
    match operation {
        EquipmentOperationParam::EquipModule { character, .. }
        | EquipmentOperationParam::EquipCore { character, .. }
        | EquipmentOperationParam::UnequipModule { character, .. }
        | EquipmentOperationParam::UnequipCore { character, .. }
        | EquipmentOperationParam::UnequipAll { character }
        | EquipmentOperationParam::EquipOneKey { character, .. }
        | EquipmentOperationParam::MoveModuleToCharacter { character, .. }
        | EquipmentOperationParam::MoveCoreToCharacter { character, .. } => net_id(character),
        EquipmentOperationParam::SetItemDiscarded { .. }
        | EquipmentOperationParam::SetItemLocked { .. } => HtItemNetId { solt: 0, serial: 0 },
    }
}

pub open spec fn placed(placement: PlacementParam) -> ModsPluginPlacement {
    ModsPluginPlacement {
        equipment: net_id(placement.equipment),
        row: placement.row,
        column: placement.column,
    }
}

/// Whether `operation` is what the mod loader is told to do for `asked`.
pub open spec fn carries_out(asked: EquipmentOperationParam, operation: ModsPluginOperation) -> bool {
    match asked {
        EquipmentOperationParam::EquipModule { equipment, row, column, .. } => operation == (
        ModsPluginOperation::EquipModule { equipment: net_id(equipment), row, column }),
        EquipmentOperationParam::EquipCore { equipment, .. } => operation == (
        ModsPluginOperation::EquipCore { equipment: net_id(equipment) }),
        EquipmentOperationParam::UnequipModule { equipment, .. } => operation == (
        ModsPluginOperation::UnequipModule { equipment: net_id(equipment) }),
        EquipmentOperationParam::UnequipCore { equipment, .. } => operation == (
        ModsPluginOperation::UnequipCore { equipment: net_id(equipment) }),
        EquipmentOperationParam::UnequipAll { .. } => operation == ModsPluginOperation::UnequipAll,
        EquipmentOperationParam::EquipOneKey { placements, core, .. } => {
            &&& operation is EquipOneKey
            &&& operation->core == net_id(core)
            &&& operation->placements@ == placements@.map_values(
                |placement: PlacementParam| placed(placement),
            )
        },
        EquipmentOperationParam::MoveModuleToCharacter { equipment, row, column, .. } => operation
            == (ModsPluginOperation::MoveModuleToCharacter {
            equipment: net_id(equipment),
            row,
            column,
        }),
        EquipmentOperationParam::MoveCoreToCharacter { equipment, .. } => operation == (
        ModsPluginOperation::MoveCoreToCharacter { equipment: net_id(equipment) }),
        EquipmentOperationParam::SetItemDiscarded { equipment, discarded } => operation == (
        ModsPluginOperation::SetItemDiscarded { equipment: net_id(equipment), discarded }),
        EquipmentOperationParam::SetItemLocked { equipment, locked } => operation == (
        ModsPluginOperation::SetItemLocked { equipment: net_id(equipment), locked }),
    }
}

fn placement_list(placements: &Vec<PlacementParam>) -> (result: Vec<ModsPluginPlacement>)
    ensures
        result@ == placements@.map_values(|placement: PlacementParam| placed(placement)),
{
    let mut result: Vec<ModsPluginPlacement> = Vec::new();
    let mut i: usize = 0;
    while i < placements.len()
        invariant
            i <= placements.len(),
            result@.len() == i,
            forall|k: int| 0 <= k < i ==> #[trigger] result@[k] == placed(placements@[k]),
        decreases placements.len() - i,
    {
        result.push(
            ModsPluginPlacement {
                equipment: item_net_id(placements[i].equipment),
                row: placements[i].row,
                column: placements[i].column,
            },
        );
        i = i + 1;
    }
    assert(result@ =~= placements@.map_values(|placement: PlacementParam| placed(placement)));
    result
}

/// The mod loader request for a change of equipment.
pub fn mods_plugin_request(request_id: u64, operation: EquipmentOperationParam) -> (request:
    ModsPluginRequest)
    ensures
        request.request_id == request_id,
        request.character == operated_character(operation),
        carries_out(operation, request.operation),
{
    let (character, operation) = match operation {
        EquipmentOperationParam::EquipModule { character, equipment, row, column } => (
            item_net_id(character),
            ModsPluginOperation::EquipModule { equipment: item_net_id(equipment), row, column },
        ),
        EquipmentOperationParam::EquipCore { character, equipment } => (
            item_net_id(character),
            ModsPluginOperation::EquipCore { equipment: item_net_id(equipment) },
        ),
        EquipmentOperationParam::UnequipModule { character, equipment } => (
            item_net_id(character),
            ModsPluginOperation::UnequipModule { equipment: item_net_id(equipment) },
        ),
        EquipmentOperationParam::UnequipCore { character, equipment } => (
            item_net_id(character),
            ModsPluginOperation::UnequipCore { equipment: item_net_id(equipment) },
        ),
        EquipmentOperationParam::UnequipAll { character } => (
            item_net_id(character),
            ModsPluginOperation::UnequipAll,
        ),
        EquipmentOperationParam::EquipOneKey { character, placements, core } => (
            item_net_id(character),
            ModsPluginOperation::EquipOneKey {
                placements: placement_list(&placements),
                core: item_net_id(core),
            },
        ),
        EquipmentOperationParam::MoveModuleToCharacter { character, equipment, row, column } => (
            item_net_id(character),
            ModsPluginOperation::MoveModuleToCharacter {
                equipment: item_net_id(equipment),
                row,
                column,
            },
        ),
        EquipmentOperationParam::MoveCoreToCharacter { character, equipment } => (
            item_net_id(character),
            ModsPluginOperation::MoveCoreToCharacter { equipment: item_net_id(equipment) },
        ),
        EquipmentOperationParam::SetItemDiscarded { equipment, discarded } => (
            HtItemNetId::zero(),
            ModsPluginOperation::SetItemDiscarded { equipment: item_net_id(equipment), discarded },
        ),
        EquipmentOperationParam::SetItemLocked { equipment, locked } => (
            HtItemNetId::zero(),
            ModsPluginOperation::SetItemLocked { equipment: item_net_id(equipment), locked },
        ),
    };
    ModsPluginRequest { request_id, character, operation }
}

/// Two operations with the same content.
pub open spec fn same_operation(
    left: EquipmentOperationParam,
    right: EquipmentOperationParam,
) -> bool {
    match (left, right) {
        (
            EquipmentOperationParam::EquipOneKey {
                character: left_character,
                placements: left_placements,
                core: left_core,
            },
            EquipmentOperationParam::EquipOneKey {
                character: right_character,
                placements: right_placements,
                core: right_core,
            },
        ) => left_character == right_character && left_placements@ == right_placements@
            && left_core == right_core,
        _ => left == right,
    }
}

/// Two operations that reach the mod loader alike are the same operation.
pub proof fn requests_tell_operations_apart(
    left: EquipmentOperationParam,
    right: EquipmentOperationParam,
    operation: ModsPluginOperation,
)
    requires
        carries_out(left, operation),
        carries_out(right, operation),
        operated_character(left) == operated_character(right),
    ensures
        same_operation(left, right),
{
    if left is EquipOneKey {
        let ours = left->placements@;
        let theirs = right->placements@;
        let told = operation->placements@;
        assert(told.len() == ours.len() && told.len() == theirs.len());
        assert forall|k: int| 0 <= k < ours.len() implies ours[k] == theirs[k] by {
            assert(told[k] == placed(ours[k]));
            assert(told[k] == placed(theirs[k]));
        }
        assert(ours =~= theirs);
    }
}

#[derive(Clone, Copy, Debug, PartialEq, Eq, Structural)]
pub enum CaptureProfileParam {
    Inventory,
    Combat,
}

#[derive(Clone, Debug)]
pub enum CaptureDeviceParam {
    Auto,
    Name { name: String },
}

#[derive(Clone, Copy, Debug, PartialEq, Eq, Structural)]
pub enum RawCaptureParam {
    Enabled,
    Disabled,
}

#[derive(Clone, Debug)]
pub struct CaptureStartParams {
    pub profile: CaptureProfileParam,
    pub device: CaptureDeviceParam,
    pub include_incoming: bool,
    pub server_damage_calibration: bool,
    pub raw_capture: Option<RawCaptureParam>,
}

#[derive(Clone, Copy, Debug, PartialEq, Eq, Structural)]
pub enum CaptureProfile {
    Inventory,
    Combat,
}

#[derive(Clone, Debug)]
pub enum CaptureDeviceSelector {
    Auto,
    Name(String),
}

#[derive(Clone, Copy, Debug, PartialEq, Eq, Structural)]
pub enum RawCaptureMode {
    Enabled,
    Disabled,
}

/// What capture control is started with. Packets are only ever summarised.
#[derive(Clone, Debug)]
pub struct CaptureControllerOptions {
    pub profile: CaptureProfile,
    pub device: CaptureDeviceSelector,
    pub filter: &'static str,
    pub include_incoming: bool,
    pub server_damage_calibration: bool,
    pub raw_capture: RawCaptureMode,
    /// The raw capture's path is shown only to a client that asked for one.
    pub expose_raw_capture_path: bool,
}

/// The profile that a client asks for.
pub open spec fn asked_profile(profile: CaptureProfileParam) -> CaptureProfile {
    match profile {
        CaptureProfileParam::Inventory => CaptureProfile::Inventory,
        CaptureProfileParam::Combat => CaptureProfile::Combat,
    }
}

/// The options that a start request stands for. A raw capture is written
/// unless the client refuses it.
pub fn capture_options(params: CaptureStartParams) -> (options: CaptureControllerOptions)
    ensures
        options.profile == asked_profile(params.profile),
        options.device == (match params.device {
            CaptureDeviceParam::Auto => CaptureDeviceSelector::Auto,
            CaptureDeviceParam::Name { name } => CaptureDeviceSelector::Name(name),
        }),
        options.filter@ == "udp"@,
        options.include_incoming == params.include_incoming,
        options.server_damage_calibration == params.server_damage_calibration,
        options.raw_capture == (if params.raw_capture == Some(RawCaptureParam::Disabled) {
            RawCaptureMode::Disabled
        } else {
            RawCaptureMode::Enabled
        }),
        options.expose_raw_capture_path == (params.raw_capture == Some(RawCaptureParam::Enabled)),
{
    let profile = match params.profile {
        CaptureProfileParam::Inventory => CaptureProfile::Inventory,
        CaptureProfileParam::Combat => CaptureProfile::Combat,
    };
    let device = match params.device {
        CaptureDeviceParam::Auto => CaptureDeviceSelector::Auto,
        CaptureDeviceParam::Name { name } => CaptureDeviceSelector::Name(name),
    };
    let (raw_capture, expose_raw_capture_path) = match params.raw_capture {
        None => (RawCaptureMode::Enabled, false),
        Some(RawCaptureParam::Enabled) => (RawCaptureMode::Enabled, true),
        Some(RawCaptureParam::Disabled) => (RawCaptureMode::Disabled, false),
    };
    CaptureControllerOptions {
        profile,
        device,
        filter: "udp",
        include_incoming: params.include_incoming,
        server_damage_calibration: params.server_damage_calibration,
        raw_capture,
        expose_raw_capture_path,
    }
}

#[derive(Clone, Copy, Debug, PartialEq, Eq, Structural)]
pub enum BattleTimelineScopeParam {
    All,
    Upper,
    Lower,
}

/// The scope that a client asks for.
pub open spec fn asked_scope(scope: BattleTimelineScopeParam) -> TimelineScope {
    match scope {
        BattleTimelineScopeParam::All => TimelineScope::Whole,
        BattleTimelineScopeParam::Upper => TimelineScope::First,
        BattleTimelineScopeParam::Lower => TimelineScope::Second,
    }
}

pub fn timeline_scope(scope: BattleTimelineScopeParam) -> (result: TimelineScope)
    ensures
        result == asked_scope(scope),
{
    match scope {
        BattleTimelineScopeParam::All => TimelineScope::Whole,
        BattleTimelineScopeParam::Upper => TimelineScope::First,
        BattleTimelineScopeParam::Lower => TimelineScope::Second,
    }
}

#[derive(Clone, Copy, Debug, PartialEq, Eq, Structural)]
pub struct HelloParams {
    pub protocol_min: u32,
    pub protocol_max: u32,
}

#[derive(Clone, Debug)]
pub struct BattleRecordParams {
    pub battle_record_id: Option<String>,
    pub subtract_time_stop: bool,
}

#[derive(Clone, Debug)]
pub struct BattleAxisParams {
    pub battle_record_id: Option<String>,
    pub cursor: Option<u64>,
    pub limit: usize,
}

#[derive(Clone, Debug)]
pub struct BattleTimelineParams {
    pub battle_record_id: Option<String>,
    pub scope: BattleTimelineScopeParam,
    pub bucket_seconds: Single,
    pub subtract_time_stop: bool,
}

/// A battle query, which is answered once the queued events are processed.
#[derive(Clone, Debug)]
pub enum BattleQuery {
    Summary { subtract_time_stop: bool },
    Record(BattleRecordParams),
    Axis(BattleAxisParams),
    Timeline(BattleTimelineParams),
    Reset,
}

#[derive(Clone, Debug)]
pub enum Request {
    Hello(HelloParams),
    Shutdown,
    Status,
    CaptureDetect,
    CaptureStart(CaptureStartParams),
    CaptureStop,
    InventoryGetLatest,
    Equipment(EquipmentOperationParam),
    Battle(BattleQuery),
    Unknown,
}

} // verus!
