//! The tag-and-field time-series sink: what it is handed to write.
//!
//! The point it writes is the snapshot itself, under the measurement
//! `melCloudDeviceData`, tagged with the device. The store keeps one point
//! for each time and device. Its line protocol cannot say "unknown", so a
//! point writes the fields it knows and no others.

use vstd::prelude::*;
use crate::models::{CurrentDataResponse, ListDevicesResponse};
use crate::sink::{
    flag_enabled, flag_if_known, flag_on, flag_well_formed, number_if_known, stored,
    text_if_known, upsert_plan, Column, Table, Upsert, Value,
};
use crate::snapshot::{normalize_current_data, normalize_device_list, normalized, CurrentData, Upload};
use crate::time::UtcInstant;

verus! {

/// The name of the setting that switches this sink on.
pub fn enabled_setting() -> (r: &'static str)
    ensures
        r@ == "INFLUXDB_ENABLED"@,
{
    "INFLUXDB_ENABLED"
}

/// The measurement under which the points are written.
pub fn measurement() -> (r: &'static str)
    ensures
        r@ == "melCloudDeviceData"@,
{
    "melCloudDeviceData"
}

/// Whether the sink is switched on, given the value of its setting.
pub fn is_enabled(value: &Option<String>) -> (r: bool)
    requires
        flag_well_formed(*value),
    ensures
        r == flag_on(*value),
{
    flag_enabled(value)
}

/// Plans the upsert of a device list: the point to write is the snapshot
/// of the monitored device, with the device's clock read in `zone`.
pub fn upsert_device_list_entry_into_influxdb(
    enabled: bool,
    data: &Vec<ListDevicesResponse>,
    zone: &str,
) -> (r: Upsert<CurrentData>)
    ensures
        r == upsert_plan(enabled, normalized(Upload::DeviceList(*data), zone@)),
        !enabled ==> r is Skipped,
{
    if !enabled {
        return Upsert::Skipped;
    }
    match normalize_device_list(data, zone) {
        Some(point) => Upsert::Write(point),
        None => Upsert::NothingToPersist,
    }
}

/// Plans the upsert of a lean reading: the point to write is its snapshot,
/// with the reading's clock read as UTC.
pub fn upsert_current_data_into_influxdb(enabled: bool, data: &CurrentDataResponse) -> (r: Upsert<
    CurrentData,
>)
    ensures
        forall|zone: Seq<char>|
            r == upsert_plan(enabled, #[trigger] normalized(Upload::CurrentData(*data), zone)),
        !enabled ==> r is Skipped,
        r matches Upsert::Write(point) ==> point.lean(),
{
    if !enabled {
        return Upsert::Skipped;
    }
    match normalize_current_data(data) {
        Some(point) => Upsert::Write(point),
        None => Upsert::NothingToPersist,
    }
}

/// The store as this sink sees it: points by time and device.
pub type Points = Table<(UtcInstant, u32), Column, Value>;

/// The key under which a point is stored: its time and its device tag.
pub open spec fn point_key(point: CurrentData) -> (UtcInstant, u32) {
    (point.time, point.device_id)
}

/// A small enumeration that may be unknown, as a field holds it.
pub open spec fn count_if_known(value: Option<u8>) -> Value {
    match value {
        Some(value) => Value::Count(value as i64),
        None => Value::Unknown,
    }
}

/// What a point has to say of a field.
pub open spec fn point_value(point: CurrentData, column: Column) -> Value {
    match column {
        Column::DeviceType => Value::Count(point.device_type as i64),
        Column::Power => Value::Flag(point.power),
        Column::Offline => Value::Flag(point.offline),
        Column::RoomTemperature => Value::Number(point.room_temperature),
        Column::SetTemperature => Value::Number(point.set_temperature),
        Column::LastCommunication => Value::Text(point.last_communication),
        Column::ActualFanSpeed => Value::Count(point.actual_fan_speed as i64),
        Column::FanSpeed => Value::Count(point.fan_speed as i64),
        Column::AutomaticFanSpeed => flag_if_known(point.automatic_fan_speed),
        Column::VaneVerticalDirection => Value::Count(point.vane_vertical_direction as i64),
        Column::VaneVerticalSwing => flag_if_known(point.vane_vertical_swing),
        Column::VaneHorizontalDirection => Value::Count(point.vane_horizontal_direction as i64),
        Column::VaneHorizontalSwing => flag_if_known(point.vane_horizontal_swing),
        Column::OperationMode => Value::Count(point.operation_mode as i64),
        Column::InStandbyMode => Value::Flag(point.in_standby_mode),
        Column::HeatingEnergyConsumedRate1 => number_if_known(point.heating_energy_consumed_rate1),
        Column::HeatingEnergyConsumedRate2 => number_if_known(point.heating_energy_consumed_rate2),
        Column::CoolingEnergyConsumedRate1 => number_if_known(point.cooling_energy_consumed_rate1),
        Column::CoolingEnergyConsumedRate2 => number_if_known(point.cooling_energy_consumed_rate2),
        Column::AutoEnergyConsumedRate1 => number_if_known(point.auto_energy_consumed_rate1),
        Column::AutoEnergyConsumedRate2 => number_if_known(point.auto_energy_consumed_rate2),
        Column::DryEnergyConsumedRate1 => number_if_known(point.dry_energy_consumed_rate1),
        Column::DryEnergyConsumedRate2 => number_if_known(point.dry_energy_consumed_rate2),
        Column::FanEnergyConsumedRate1 => number_if_known(point.fan_energy_consumed_rate1),
        Column::FanEnergyConsumedRate2 => number_if_known(point.fan_energy_consumed_rate2),
        Column::OtherEnergyConsumedRate1 => number_if_known(point.other_energy_consumed_rate1),
        Column::OtherEnergyConsumedRate2 => number_if_known(point.other_energy_consumed_rate2),
        Column::CurrentEnergyConsumed => number_if_known(point.current_energy_consumed),
        Column::CurrentEnergyMode => count_if_known(point.current_energy_mode),
        Column::EnergyCorrectionModel => number_if_known(point.energy_correction_model),
        Column::EnergyCorrectionActive => flag_if_known(point.energy_correction_active),
        Column::WifiSignalStrength => number_if_known(point.wifi_signal_strength),
        Column::WifiAdapterStatus => text_if_known(point.wifi_adapter_status),
        Column::HasError => flag_if_known(point.has_error),
    }
}

/// The fields that a point writes: those of which it knows the value.
pub open spec fn point_fields(point: CurrentData) -> Map<Column, Value> {
    Map::new(
        |column: Column| !(point_value(point, column) is Unknown),
        |column: Column| point_value(point, column),
    )
}

/// The store after a planned upsert has been carried out: a write stores
/// the point's fields under its key, any other plan leaves the store alone.
pub open spec fn after_upsert(points: Points, plan: Upsert<CurrentData>) -> Points {
    match plan {
        Upsert::Write(point) => stored(points, point_key(point), point_fields(point)),
        _ => points,
    }
}

/// Carrying out the plan for one upload twice leaves the store as
/// carrying it out once does; a switched-off sink and an upload without a
/// snapshot leave the store as it was; and a write adds no point but the
/// one under the snapshot's time and device.
pub proof fn lemma_upsert_is_idempotent(points: Points, enabled: bool, upload: Upload, zone: Seq<char>)
    ensures
        ({
            let snapshot = normalized(upload, zone);
            let plan = upsert_plan(enabled, snapshot);
            let once = after_upsert(points, plan);
            &&& after_upsert(once, plan) == once
            &&& !enabled || snapshot is None ==> once == points
            &&& enabled && snapshot is Some ==> once.dom() == points.dom().insert(
                (snapshot.unwrap().time, snapshot.unwrap().device_id),
            )
        }),
{
    let plan = upsert_plan(enabled, normalized(upload, zone));
    if let Upsert::Write(point) = plan {
        crate::sink::lemma_upsert_twice_is_upsert_once(points, point_key(point), point_fields(point));
    }
}

/// The last write wins: after an upsert every field that the snapshot
/// knows has the snapshot's value. A field that it does not know is not
/// written, and stays as the store had it.
pub proof fn lemma_point_fields_win(
    points: Points,
    enabled: bool,
    upload: Upload,
    zone: Seq<char>,
    column: Column,
)
    ensures
        upsert_plan(enabled, normalized(upload, zone)) matches Upsert::Write(point) ==> {
            let key = point_key(point);
            let row = after_upsert(points, Upsert::Write(point))[key];
            if point_value(point, column) is Unknown {
                points.dom().contains(key) ==> (row.dom().contains(column)
                    <==> points[key].dom().contains(column)) && (row.dom().contains(column)
                    ==> row[column] == points[key][column])
            } else {
                row.dom().contains(column) && row[column] == point_value(point, column)
            }
        },
{
}

} // verus!
