//! The relational sink: the rows it is handed to write.
//!
//! The table is keyed by time and device. Its integer columns are signed:
//! the device identifier goes into 32 bits, the small enumerations into 16.
//! Every upsert writes every column, so that a row holds what its last
//! snapshot knew and nothing that an earlier one left behind.

use vstd::prelude::*;
use crate::models::{CurrentDataResponse, ListDevicesResponse, Scalar};
use crate::sink::{
    flag_enabled, flag_if_known, flag_on, flag_well_formed, number_if_known, rich_only, stored,
    text_if_known, upsert_plan, Column, Table, Upsert, Value,
};
use crate::snapshot::{normalize_current_data, normalize_device_list, normalized, CurrentData, Upload};
use crate::time::UtcInstant;

verus! {

/// A row of the table, with every column.
#[derive(Debug, Clone, PartialEq, Eq)]
pub struct DeviceRow {
    pub time: UtcInstant,
    pub device_id: i32,
    pub device_type: i16,
    pub power: bool,
    pub offline: bool,
    pub room_temperature: Scalar,
    pub set_temperature: Scalar,
    pub last_communication: String,
    pub actual_fan_speed: i16,
    pub fan_speed: i16,
    pub automatic_fan_speed: Option<bool>,
    pub vane_vertical_direction: i16,
    pub vane_vertical_swing: Option<bool>,
    pub vane_horizontal_direction: i16,
    pub vane_horizontal_swing: Option<bool>,
    pub operation_mode: i16,
    pub in_standby_mode: bool,
    pub heating_energy_consumed_rate1: Option<Scalar>,
    pub heating_energy_consumed_rate2: Option<Scalar>,
    pub cooling_energy_consumed_rate1: Option<Scalar>,
    pub cooling_energy_consumed_rate2: Option<Scalar>,
    pub auto_energy_consumed_rate1: Option<Scalar>,
    pub auto_energy_consumed_rate2: Option<Scalar>,
    pub dry_energy_consumed_rate1: Option<Scalar>,
    pub dry_energy_consumed_rate2: Option<Scalar>,
    pub fan_energy_consumed_rate1: Option<Scalar>,
    pub fan_energy_consumed_rate2: Option<Scalar>,
    pub other_energy_consumed_rate1: Option<Scalar>,
    pub other_energy_consumed_rate2: Option<Scalar>,
    pub current_energy_consumed: Option<Scalar>,
    pub current_energy_mode: Option<i16>,
    pub energy_correction_model: Option<Scalar>,
    pub energy_correction_active: Option<bool>,
    pub wifi_signal_strength: Option<Scalar>,
    pub wifi_adapter_status: Option<String>,
    pub has_error: Option<bool>,
}

/// An unsigned 32-bit identifier as the signed 32-bit column holds it: the
/// same bits, so the upper half of the range comes out negative.
pub open spec fn signed_id(id: u32) -> i32 {
    if id < 0x8000_0000 {
        id as i32
    } else {
        (id - 0x1_0000_0000) as i32
    }
}

/// A small enumeration as the signed 16-bit column holds it: the same number.
pub open spec fn small(value: u8) -> i16 {
    value as i16
}

/// An optional small enumeration as its column holds it.
pub open spec fn small_if_known(value: Option<u8>) -> Option<i16> {
    match value {
        Some(value) => Some(small(value)),
        None => None,
    }
}

/// The row of a snapshot with every column.
pub open spec fn device_row(snapshot: CurrentData) -> DeviceRow {
    DeviceRow {
        time: snapshot.time,
        device_id: signed_id(snapshot.device_id),
        device_type: small(snapshot.device_type),
        power: snapshot.power,
        offline: snapshot.offline,
        room_temperature: snapshot.room_temperature,
        set_temperature: snapshot.set_temperature,
        last_communication: snapshot.last_communication,
        actual_fan_speed: small(snapshot.actual_fan_speed),
        fan_speed: small(snapshot.fan_speed),
        automatic_fan_speed: snapshot.automatic_fan_speed,
        vane_vertical_direction: small(snapshot.vane_vertical_direction),
        vane_vertical_swing: snapshot.vane_vertical_swing,
        vane_horizontal_direction: small(snapshot.vane_horizontal_direction),
        vane_horizontal_swing: snapshot.vane_horizontal_swing,
        operation_mode: small(snapshot.operation_mode),
        in_standby_mode: snapshot.in_standby_mode,
        heating_energy_consumed_rate1: snapshot.heating_energy_consumed_rate1,
        heating_energy_consumed_rate2: snapshot.heating_energy_consumed_rate2,
        cooling_energy_consumed_rate1: snapshot.cooling_energy_consumed_rate1,
        cooling_energy_consumed_rate2: snapshot.cooling_energy_consumed_rate2,
        auto_energy_consumed_rate1: snapshot.auto_energy_consumed_rate1,
        auto_energy_consumed_rate2: snapshot.auto_energy_consumed_rate2,
        dry_energy_consumed_rate1: snapshot.dry_energy_consumed_rate1,
        dry_energy_consumed_rate2: snapshot.dry_energy_consumed_rate2,
        fan_energy_consumed_rate1: snapshot.fan_energy_consumed_rate1,
        fan_energy_consumed_rate2: snapshot.fan_energy_consumed_rate2,
        other_energy_consumed_rate1: snapshot.other_energy_consumed_rate1,
        other_energy_consumed_rate2: snapshot.other_energy_consumed_rate2,
        current_energy_consumed: snapshot.current_energy_consumed,
        current_energy_mode: small_if_known(snapshot.current_energy_mode),
        energy_correction_model: snapshot.energy_correction_model,
        energy_correction_active: snapshot.energy_correction_active,
        wifi_signal_strength: snapshot.wifi_signal_strength,
        wifi_adapter_status: snapshot.wifi_adapter_status,
        has_error: snapshot.has_error,
    }
}

/// The row, if there is a snapshot.
pub open spec fn device_row_of(snapshot: Option<CurrentData>) -> Option<DeviceRow> {
    match snapshot {
        Some(snapshot) => Some(device_row(snapshot)),
        None => None,
    }
}

/// The name of the setting that switches this sink on.
pub fn enabled_setting() -> (r: &'static str)
    ensures
        r@ == "TIMESCALEDB_ENABLED"@,
{
    "TIMESCALEDB_ENABLED"
}

/// Whether the sink is switched on, given the value of its setting.
pub fn is_enabled(value: &Option<String>) -> (r: bool)
    requires
        flag_well_formed(*value),
    ensures
        r == flag_on(*value),
{
    flag_enabled(value)
}

/// Narrows a device identifier to the signed column.
pub fn to_signed_id(id: u32) -> (r: i32)
    ensures
        r == signed_id(id),
{
    if id < 0x8000_0000 {
        id as i32
    } else {
        let low: u32 = id - 0x8000_0000;
        (low as i32) + i32::MIN
    }
}

fn to_small_if_known(value: Option<u8>) -> (r: Option<i16>)
    ensures
        r == small_if_known(value),
{
    match value {
        Some(value) => Some(value as i16),
        None => None,
    }
}

/// Lays a snapshot out as a row with every column.
pub fn to_device_row(snapshot: CurrentData) -> (r: DeviceRow)
    ensures
        r == device_row(snapshot),
{
    DeviceRow {
        time: snapshot.time,
        device_id: to_signed_id(snapshot.device_id),
        device_type: snapshot.device_type as i16,
        power: snapshot.power,
        offline: snapshot.offline,
        room_temperature: snapshot.room_temperature,
        set_temperature: snapshot.set_temperature,
        last_communication: snapshot.last_communication,
        actual_fan_speed: snapshot.actual_fan_speed as i16,
        fan_speed: snapshot.fan_speed as i16,
        automatic_fan_speed: snapshot.automatic_fan_speed,
        vane_vertical_direction: snapshot.vane_vertical_direction as i16,
        vane_vertical_swing: snapshot.vane_vertical_swing,
        vane_horizontal_direction: snapshot.vane_horizontal_direction as i16,
        vane_horizontal_swing: snapshot.vane_horizontal_swing,
        operation_mode: snapshot.operation_mode as i16,
        in_standby_mode: snapshot.in_standby_mode,
        heating_energy_consumed_rate1: snapshot.heating_energy_consumed_rate1,
        heating_energy_consumed_rate2: snapshot.heating_energy_consumed_rate2,
        cooling_energy_consumed_rate1: snapshot.cooling_energy_consumed_rate1,
        cooling_energy_consumed_rate2: snapshot.cooling_energy_consumed_rate2,
        auto_energy_consumed_rate1: snapshot.auto_energy_consumed_rate1,
        auto_energy_consumed_rate2: snapshot.auto_energy_consumed_rate2,
        dry_energy_consumed_rate1: snapshot.dry_energy_consumed_rate1,
        dry_energy_consumed_rate2: snapshot.dry_energy_consumed_rate2,
        fan_energy_consumed_rate1: snapshot.fan_energy_consumed_rate1,
        fan_energy_consumed_rate2: snapshot.fan_energy_consumed_rate2,
        other_energy_consumed_rate1: snapshot.other_energy_consumed_rate1,
        other_energy_consumed_rate2: snapshot.other_energy_consumed_rate2,
        current_energy_consumed: snapshot.current_energy_consumed,
        current_energy_mode: to_small_if_known(snapshot.current_energy_mode),
        energy_correction_model: snapshot.energy_correction_model,
        energy_correction_active: snapshot.energy_correction_active,
        wifi_signal_strength: snapshot.wifi_signal_strength,
        wifi_adapter_status: snapshot.wifi_adapter_status,
        has_error: snapshot.has_error,
    }
}

/// Plans the upsert of a device list: the row to write is that of the
/// monitored device's snapshot, with the device's clock read in `zone`.
pub fn upsert_device_list_entry_into_timescaledb(
    enabled: bool,
    data: &Vec<ListDevicesResponse>,
    zone: &str,
) -> (r: Upsert<DeviceRow>)
    ensures
        r == upsert_plan(enabled, device_row_of(normalized(Upload::DeviceList(*data), zone@))),
        !enabled ==> r is Skipped,
{
    if !enabled {
        return Upsert::Skipped;
    }
    match normalize_device_list(data, zone) {
        Some(snapshot) => Upsert::Write(to_device_row(snapshot)),
        None => Upsert::NothingToPersist,
    }
}

/// Plans the upsert of a lean reading: the row to write is that of its
/// snapshot, with the reading's clock read as UTC. The row has every
/// column, and those that only the rich shape carries are unknown.
pub fn upsert_current_data_into_timescaledb(enabled: bool, data: &CurrentDataResponse) -> (r:
    Upsert<DeviceRow>)
    ensures
        forall|zone: Seq<char>|
            r == upsert_plan(
                enabled,
                device_row_of(#[trigger] normalized(Upload::CurrentData(*data), zone)),
            ),
        !enabled ==> r is Skipped,
        r matches Upsert::Write(row) ==> row.lean(),
{
    if !enabled {
        return Upsert::Skipped;
    }
    match normalize_current_data(data) {
        Some(snapshot) => Upsert::Write(to_device_row(snapshot)),
        None => Upsert::NothingToPersist,
    }
}

impl DeviceRow {
    /// Whether every column that only the rich shape carries is unknown.
    pub open spec fn lean(&self) -> bool {
        &&& self.automatic_fan_speed is None
        &&& self.vane_vertical_swing is None
        &&& self.vane_horizontal_swing is None
        &&& self.heating_energy_consumed_rate1 is None
        &&& self.heating_energy_consumed_rate2 is None
        &&& self.cooling_energy_consumed_rate1 is None
        &&& self.cooling_energy_consumed_rate2 is None
        &&& self.auto_energy_consumed_rate1 is None
        &&& self.auto_energy_consumed_rate2 is None
        &&& self.dry_energy_consumed_rate1 is None
        &&& self.dry_energy_consumed_rate2 is None
        &&& self.fan_energy_consumed_rate1 is None
        &&& self.fan_energy_consumed_rate2 is None
        &&& self.other_energy_consumed_rate1 is None
        &&& self.other_energy_consumed_rate2 is None
        &&& self.current_energy_consumed is None
        &&& self.current_energy_mode is None
        &&& self.energy_correction_model is None
        &&& self.energy_correction_active is None
        &&& self.wifi_signal_strength is None
        &&& self.wifi_adapter_status is None
        &&& self.has_error is None
    }
}

/// The store as this sink sees it: rows by time and device.
pub type Rows = Table<(UtcInstant, i32), Column, Value>;

/// The key of a row: its time and its device.
pub open spec fn row_key(row: DeviceRow) -> (UtcInstant, i32) {
    (row.time, row.device_id)
}

/// A small enumeration that may be unknown, as a column holds it.
pub open spec fn count_if_known(value: Option<i16>) -> Value {
    match value {
        Some(value) => Value::Count(value as i64),
        None => Value::Unknown,
    }
}

/// What a row holds in a column.
pub open spec fn row_value(row: DeviceRow, column: Column) -> Value {
    match column {
        Column::DeviceType => Value::Count(row.device_type as i64),
        Column::Power => Value::Flag(row.power),
        Column::Offline => Value::Flag(row.offline),
        Column::RoomTemperature => Value::Number(row.room_temperature),
        Column::SetTemperature => Value::Number(row.set_temperature),
        Column::LastCommunication => Value::Text(row.last_communication),
        Column::ActualFanSpeed => Value::Count(row.actual_fan_speed as i64),
        Column::FanSpeed => Value::Count(row.fan_speed as i64),
        Column::AutomaticFanSpeed => flag_if_known(row.automatic_fan_speed),
        Column::VaneVerticalDirection => Value::Count(row.vane_vertical_direction as i64),
        Column::VaneVerticalSwing => flag_if_known(row.vane_vertical_swing),
        Column::VaneHorizontalDirection => Value::Count(row.vane_horizontal_direction as i64),
        Column::VaneHorizontalSwing => flag_if_known(row.vane_horizontal_swing),
        Column::OperationMode => Value::Count(row.operation_mode as i64),
        Column::InStandbyMode => Value::Flag(row.in_standby_mode),
        Column::HeatingEnergyConsumedRate1 => number_if_known(row.heating_energy_consumed_rate1),
        Column::HeatingEnergyConsumedRate2 => number_if_known(row.heating_energy_consumed_rate2),
        Column::CoolingEnergyConsumedRate1 => number_if_known(row.cooling_energy_consumed_rate1),
        Column::CoolingEnergyConsumedRate2 => number_if_known(row.cooling_energy_consumed_rate2),
        Column::AutoEnergyConsumedRate1 => number_if_known(row.auto_energy_consumed_rate1),
        Column::AutoEnergyConsumedRate2 => number_if_known(row.auto_energy_consumed_rate2),
        Column::DryEnergyConsumedRate1 => number_if_known(row.dry_energy_consumed_rate1),
        Column::DryEnergyConsumedRate2 => number_if_known(row.dry_energy_consumed_rate2),
        Column::FanEnergyConsumedRate1 => number_if_known(row.fan_energy_consumed_rate1),
        Column::FanEnergyConsumedRate2 => number_if_known(row.fan_energy_consumed_rate2),
        Column::OtherEnergyConsumedRate1 => number_if_known(row.other_energy_consumed_rate1),
        Column::OtherEnergyConsumedRate2 => number_if_known(row.other_energy_consumed_rate2),
        Column::CurrentEnergyConsumed => number_if_known(row.current_energy_consumed),
        Column::CurrentEnergyMode => count_if_known(row.current_energy_mode),
        Column::EnergyCorrectionModel => number_if_known(row.energy_correction_model),
        Column::EnergyCorrectionActive => flag_if_known(row.energy_correction_active),
        Column::WifiSignalStrength => number_if_known(row.wifi_signal_strength),
        Column::WifiAdapterStatus => text_if_known(row.wifi_adapter_status),
        Column::HasError => flag_if_known(row.has_error),
    }
}

/// The columns that a row writes: all of them, the unknown ones as unknown.
pub open spec fn row_columns(row: DeviceRow) -> Map<Column, Value> {
    Map::new(|column: Column| true, |column: Column| row_value(row, column))
}

/// The store after a planned upsert has been carried out: a write stores
/// the row's columns under its key, any other plan leaves the store alone.
pub open spec fn after_upsert(rows: Rows, plan: Upsert<DeviceRow>) -> Rows {
    match plan {
        Upsert::Write(row) => stored(rows, row_key(row), row_columns(row)),
        _ => rows,
    }
}

/// The plan that either planner makes for an upload.
pub open spec fn planned(enabled: bool, upload: Upload, zone: Seq<char>) -> Upsert<DeviceRow> {
    upsert_plan(enabled, device_row_of(normalized(upload, zone)))
}

/// Carrying out the plan for one upload twice leaves the store as
/// carrying it out once does; a switched-off sink and an upload without a
/// snapshot leave the store as it was; and a write adds no row but the one
/// under the snapshot's time and device, and touches no other row.
pub proof fn lemma_upsert_is_idempotent(rows: Rows, enabled: bool, upload: Upload, zone: Seq<char>)
    ensures
        ({
            let snapshot = normalized(upload, zone);
            let plan = planned(enabled, upload, zone);
            let once = after_upsert(rows, plan);
            &&& after_upsert(once, plan) == once
            &&& !enabled || snapshot is None ==> once == rows
            &&& enabled && snapshot is Some ==> {
                let key = (snapshot.unwrap().time, signed_id(snapshot.unwrap().device_id));
                &&& once.dom() == rows.dom().insert(key)
                &&& forall|other: (UtcInstant, i32)|
                    other != key && rows.dom().contains(other) ==> #[trigger] once[other]
                        == rows[other]
            }
        }),
{
    let plan = planned(enabled, upload, zone);
    if let Upsert::Write(row) = plan {
        crate::sink::lemma_upsert_twice_is_upsert_once(rows, row_key(row), row_columns(row));
    }
}

/// The last write wins, in every column: after an upsert the row under
/// the key holds exactly what the snapshot says, whatever it held before.
pub proof fn lemma_row_reflects_the_last_snapshot(
    rows: Rows,
    enabled: bool,
    upload: Upload,
    zone: Seq<char>,
)
    ensures
        planned(enabled, upload, zone) matches Upsert::Write(row) ==> after_upsert(
            rows,
            Upsert::Write(row),
        )[row_key(row)] == row_columns(row),
{
    if let Upsert::Write(row) = planned(enabled, upload, zone) {
        let key = row_key(row);
        if rows.dom().contains(key) {
            assert(rows[key].union_prefer_right(row_columns(row)) =~= row_columns(row));
        }
    }
}

/// A lean reading leaves nothing stale: after its upsert every column
/// that only the rich shape carries is unknown, also where a rich reading
/// had filled the row before.
pub proof fn lemma_lean_upsert_clears_what_it_does_not_know(
    rows: Rows,
    enabled: bool,
    data: CurrentDataResponse,
    zone: Seq<char>,
    column: Column,
)
    requires
        rich_only(column),
    ensures
        planned(enabled, Upload::CurrentData(data), zone) matches Upsert::Write(row) ==> {
            let after = after_upsert(rows, Upsert::Write(row))[row_key(row)];
            after.dom().contains(column) && after[column] == Value::Unknown
        },
{
    lemma_row_reflects_the_last_snapshot(rows, enabled, Upload::CurrentData(data), zone);
}

} // verus!
