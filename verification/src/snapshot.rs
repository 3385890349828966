//! The canonical snapshot of a device, and how the two upstream shapes
//! collapse into it.

use vstd::prelude::*;
use crate::models::{
    has_monitored_device, monitored_device, utc_stamp_instant, zoned_stamp_instant,
    CurrentDataResponse, Device, ListDevicesResponse, Scalar,
};
use crate::time::UtcInstant;

verus! {

/// One normalized reading of a device at an instant. A field that the
/// source shape does not carry is `None`, never a made-up value.
#[derive(Debug, Clone, PartialEq, Eq)]
pub struct CurrentData {
    pub time: UtcInstant,
    pub device_id: u32,
    pub device_type: u8,
    pub power: bool,
    pub offline: bool,
    pub room_temperature: Scalar,
    pub set_temperature: Scalar,
    pub last_communication: String,
    pub actual_fan_speed: u8,
    pub fan_speed: u8,
    pub automatic_fan_speed: Option<bool>,
    pub vane_vertical_direction: u8,
    pub vane_vertical_swing: Option<bool>,
    pub vane_horizontal_direction: u8,
    pub vane_horizontal_swing: Option<bool>,
    pub operation_mode: u8,
    pub in_standby_mode: bool,
    pub heating_energy_consumed_rate1: Option<Scalar>,
    pub heating_energy_consumed_rate2: Option<Scalar>,
    pub cooling_energy_consumed_rate1: Option<Scalar>,
    pub cooling_energy_consumed_rate2: Option<Scalar>,
    pub auto_energy_consumed_rate1: Option<Scalar>,
    pub auto_energy_consumed_rate2: Option<Scalar>,
    pub dry_energy_consumed_rate1: Option<Scalar>,
    pub dry_energy_consumed_rate2: Option<Scalar>,
    pub fan_energy_consumed_rate1: Option<Scalar>,
    pub fan_energy_consumed_rate2: Option<Scalar>,
    pub other_energy_consumed_rate1: Option<Scalar>,
    pub other_energy_consumed_rate2: Option<Scalar>,
    pub current_energy_consumed: Option<Scalar>,
    pub current_energy_mode: Option<u8>,
    pub energy_correction_model: Option<Scalar>,
    pub energy_correction_active: Option<bool>,
    pub wifi_signal_strength: Option<Scalar>,
    pub wifi_adapter_status: Option<String>,
    pub has_error: Option<bool>,
}

impl CurrentData {
    /// Whether every field that only the rich shape carries is unknown.
    pub open spec fn lean(&self) -> bool {
        &&& self.automatic_fan_speed is None
        &&& self.vane_vertical_swing is None
        &&& self.vane_horizontal_swing is None
        &&& self.heating_energy_consumed_rate1 is None
        &&& self.heating_energy_consumed_rate2 is None
        &&& self.cooling_energy_consumed_rate1 is None
        &&& self.cooling_energy_consumed_rate2 is None
        &&& self.auto_energy_consumed_rate1 is None
        &&& self.auto_energy_consumed_rate2 is None
        &&& self.dry_energy_consumed_rate1 is None
        &&& self.dry_energy_consumed_rate2 is None
        &&& self.fan_energy_consumed_rate1 is None
        &&& self.fan_energy_consumed_rate2 is None
        &&& self.other_energy_consumed_rate1 is None
        &&& self.other_energy_consumed_rate2 is None
        &&& self.current_energy_consumed is None
        &&& self.current_energy_mode is None
        &&& self.energy_correction_model is None
        &&& self.energy_correction_active is None
        &&& self.wifi_signal_strength is None
        &&& self.wifi_adapter_status is None
        &&& self.has_error is None
    }
}

/// The snapshot of a rich reading taken at `time`: every field maps directly.
pub open spec fn rich_snapshot(device: Device, time: UtcInstant) -> CurrentData {
    CurrentData {
        time,
        device_id: device.device_iD,
        device_type: device.device_type,
        power: device.power,
        offline: device.offline,
        room_temperature: device.room_temperature,
        set_temperature: device.set_temperature,
        last_communication: device.last_time_stamp,
        actual_fan_speed: device.actual_fan_speed,
        fan_speed: device.fan_speed,
        automatic_fan_speed: device.automatic_fan_speed,
        vane_vertical_direction: device.vane_vertical_direction,
        vane_vertical_swing: device.vane_vertical_swing,
        vane_horizontal_direction: device.vane_horizontal_direction,
        vane_horizontal_swing: device.vane_horizontal_swing,
        operation_mode: device.operation_mode,
        in_standby_mode: device.in_standby_mode,
        heating_energy_consumed_rate1: device.heating_energy_consumed_rate1,
        heating_energy_consumed_rate2: device.heating_energy_consumed_rate2,
        cooling_energy_consumed_rate1: device.cooling_energy_consumed_rate1,
        cooling_energy_consumed_rate2: device.cooling_energy_consumed_rate2,
        auto_energy_consumed_rate1: device.auto_energy_consumed_rate1,
        auto_energy_consumed_rate2: device.auto_energy_consumed_rate2,
        dry_energy_consumed_rate1: device.dry_energy_consumed_rate1,
        dry_energy_consumed_rate2: device.dry_energy_consumed_rate2,
        fan_energy_consumed_rate1: device.fan_energy_consumed_rate1,
        fan_energy_consumed_rate2: device.fan_energy_consumed_rate2,
        other_energy_consumed_rate1: device.other_energy_consumed_rate1,
        other_energy_consumed_rate2: device.other_energy_consumed_rate2,
        current_energy_consumed: device.current_energy_consumed,
        current_energy_mode: device.current_energy_mode,
        energy_correction_model: device.energy_correction_model,
        energy_correction_active: device.energy_correction_active,
        wifi_signal_strength: device.wifi_signal_strength,
        wifi_adapter_status: device.wifi_adapter_status,
        has_error: device.has_error,
    }
}

/// The snapshot of a lean reading taken at `time`: the one fan speed that
/// the shape has stands for both the actual and the set speed, the vane
/// directions map one to one, and what the shape lacks is unknown.
pub open spec fn lean_snapshot(data: CurrentDataResponse, time: UtcInstant) -> CurrentData {
    CurrentData {
        time,
        device_id: data.device_iD,
        device_type: data.device_type,
        power: data.power,
        offline: data.offline,
        room_temperature: data.room_temperature,
        set_temperature: data.set_temperature,
        last_communication: data.last_communication,
        actual_fan_speed: data.set_fan_speed,
        fan_speed: data.set_fan_speed,
        automatic_fan_speed: None,
        vane_vertical_direction: data.vane_vertical,
        vane_vertical_swing: None,
        vane_horizontal_direction: data.vane_horizontal,
        vane_horizontal_swing: None,
        operation_mode: data.operation_mode,
        in_standby_mode: data.in_standby_mode,
        heating_energy_consumed_rate1: None,
        heating_energy_consumed_rate2: None,
        cooling_energy_consumed_rate1: None,
        cooling_energy_consumed_rate2: None,
        auto_energy_consumed_rate1: None,
        auto_energy_consumed_rate2: None,
        dry_energy_consumed_rate1: None,
        dry_energy_consumed_rate2: None,
        fan_energy_consumed_rate1: None,
        fan_energy_consumed_rate2: None,
        other_energy_consumed_rate1: None,
        other_energy_consumed_rate2: None,
        current_energy_consumed: None,
        current_energy_mode: None,
        energy_correction_model: None,
        energy_correction_active: None,
        wifi_signal_strength: None,
        wifi_adapter_status: None,
        has_error: None,
    }
}

/// What one poll brought back: the device list, or the lean reading of the
/// one device.
#[derive(Debug, Clone, PartialEq, Eq)]
pub enum Upload {
    DeviceList(Vec<ListDevicesResponse>),
    CurrentData(CurrentDataResponse),
}

/// The snapshot that an upload normalizes to, with the device list's clock
/// read in `zone` and the lean reading's clock read as UTC; `None` where the
/// list names no device or the timestamp yields no instant.
pub open spec fn normalized(upload: Upload, zone: Seq<char>) -> Option<CurrentData> {
    match upload {
        Upload::DeviceList(data) => {
            if has_monitored_device(data@) {
                let device = monitored_device(data@);
                match zoned_stamp_instant(device.last_time_stamp@, zone) {
                    Some(time) => Some(rich_snapshot(device, time)),
                    None => None,
                }
            } else {
                None
            }
        },
        Upload::CurrentData(data) => match utc_stamp_instant(data.last_communication@) {
            Some(time) => Some(lean_snapshot(data, time)),
            None => None,
        },
    }
}

/// Copies a text that may be absent.
fn copy_text(text: &Option<String>) -> (r: Option<String>)
    ensures
        r == *text,
{
    match text {
        Some(s) => Some(s.clone()),
        None => None,
    }
}

/// Builds the snapshot of a rich reading taken at `time`.
pub fn snapshot_of_device(device: &Device, time: UtcInstant) -> (r: CurrentData)
    ensures
        r == rich_snapshot(*device, time),
{
    CurrentData {
        time,
        device_id: device.device_iD,
        device_type: device.device_type,
        power: device.power,
        offline: device.offline,
        room_temperature: device.room_temperature,
        set_temperature: device.set_temperature,
        last_communication: device.last_time_stamp.clone(),
        actual_fan_speed: device.actual_fan_speed,
        fan_speed: device.fan_speed,
        automatic_fan_speed: device.automatic_fan_speed,
        vane_vertical_direction: device.vane_vertical_direction,
        vane_vertical_swing: device.vane_vertical_swing,
        vane_horizontal_direction: device.vane_horizontal_direction,
        vane_horizontal_swing: device.vane_horizontal_swing,
        operation_mode: device.operation_mode,
        in_standby_mode: device.in_standby_mode,
        heating_energy_consumed_rate1: device.heating_energy_consumed_rate1,
        heating_energy_consumed_rate2: device.heating_energy_consumed_rate2,
        cooling_energy_consumed_rate1: device.cooling_energy_consumed_rate1,
        cooling_energy_consumed_rate2: device.cooling_energy_consumed_rate2,
        auto_energy_consumed_rate1: device.auto_energy_consumed_rate1,
        auto_energy_consumed_rate2: device.auto_energy_consumed_rate2,
        dry_energy_consumed_rate1: device.dry_energy_consumed_rate1,
        dry_energy_consumed_rate2: device.dry_energy_consumed_rate2,
        fan_energy_consumed_rate1: device.fan_energy_consumed_rate1,
        fan_energy_consumed_rate2: device.fan_energy_consumed_rate2,
        other_energy_consumed_rate1: device.other_energy_consumed_rate1,
        other_energy_consumed_rate2: device.other_energy_consumed_rate2,
        current_energy_consumed: device.current_energy_consumed,
        current_energy_mode: device.current_energy_mode,
        energy_correction_model: device.energy_correction_model,
        energy_correction_active: device.energy_correction_active,
        wifi_signal_strength: device.wifi_signal_strength,
        wifi_adapter_status: copy_text(&device.wifi_adapter_status),
        has_error: device.has_error,
    }
}

/// Builds the snapshot of a lean reading taken at `time`.
pub fn snapshot_of_current_data(data: &CurrentDataResponse, time: UtcInstant) -> (r: CurrentData)
    ensures
        r == lean_snapshot(*data, time),
        r.lean(),
{
    CurrentData {
        time,
        device_id: data.device_iD,
        device_type: data.device_type,
        power: data.power,
        offline: data.offline,
        room_temperature: data.room_temperature,
        set_temperature: data.set_temperature,
        last_communication: data.last_communication.clone(),
        actual_fan_speed: data.set_fan_speed,
        fan_speed: data.set_fan_speed,
        automatic_fan_speed: None,
        vane_vertical_direction: data.vane_vertical,
        vane_vertical_swing: None,
        vane_horizontal_direction: data.vane_horizontal,
        vane_horizontal_swing: None,
        operation_mode: data.operation_mode,
        in_standby_mode: data.in_standby_mode,
        heating_energy_consumed_rate1: None,
        heating_energy_consumed_rate2: None,
        cooling_energy_consumed_rate1: None,
        cooling_energy_consumed_rate2: None,
        auto_energy_consumed_rate1: None,
        auto_energy_consumed_rate2: None,
        dry_energy_consumed_rate1: None,
        dry_energy_consumed_rate2: None,
        fan_energy_consumed_rate1: None,
        fan_energy_consumed_rate2: None,
        other_energy_consumed_rate1: None,
        other_energy_consumed_rate2: None,
        current_energy_consumed: None,
        current_energy_mode: None,
        energy_correction_model: None,
        energy_correction_active: None,
        wifi_signal_strength: None,
        wifi_adapter_status: None,
        has_error: None,
    }
}

/// Normalizes a device list: the snapshot of its monitored device, with the
/// device's clock read in `zone`.
pub fn normalize_device_list(data: &Vec<ListDevicesResponse>, zone: &str) -> (r: Option<CurrentData>)
    ensures
        r == normalized(Upload::DeviceList(*data), zone@),
{
    if data.len() == 0 || data[0].structure.devices.len() == 0 {
        return None;
    }
    let device = &data[0].structure.devices[0].device;
    match device.last_time_stamp_to_utc_datetime(zone) {
        Some(time) => Some(snapshot_of_device(device, time)),
        None => None,
    }
}

/// Normalizes a lean reading, with its clock read as UTC.
pub fn normalize_current_data(data: &CurrentDataResponse) -> (r: Option<CurrentData>)
    ensures
        r matches Some(snapshot) ==> snapshot.lean(),
        forall|zone: Seq<char>| r == #[trigger] normalized(Upload::CurrentData(*data), zone),
{
    match data.last_communication_to_utc_datetime() {
        Some(time) => Some(snapshot_of_current_data(data, time)),
        None => None,
    }
}

/// Normalizes whichever shape the poll brought back.
pub fn normalize(upload: &Upload, zone: &str) -> (r: Option<CurrentData>)
    ensures
        r == normalized(*upload, zone@),
        upload is CurrentData && r is Some ==> r.unwrap().lean(),
{
    match upload {
        Upload::DeviceList(data) => normalize_device_list(data, zone),
        Upload::CurrentData(data) => normalize_current_data(data),
    }
}

/// The two shapes are read on different clocks: the zone bears on the
/// device list alone, and a lean reading normalizes alike in every zone.
pub proof fn lemma_lean_reading_ignores_the_zone(
    data: CurrentDataResponse,
    zone: Seq<char>,
    other: Seq<char>,
)
    ensures
        normalized(Upload::CurrentData(data), zone) == normalized(Upload::CurrentData(data), other),
{
}

/// Whatever normalizes from the lean shape leaves unknown every field that
/// only the rich shape carries, and shows the one fan speed of the shape
/// as both the actual and the set speed.
pub proof fn lemma_lean_shape_stays_lean(data: CurrentDataResponse, zone: Seq<char>)
    ensures
        normalized(Upload::CurrentData(data), zone) matches Some(snapshot) ==> {
            &&& snapshot.lean()
            &&& snapshot.actual_fan_speed == data.set_fan_speed
            &&& snapshot.fan_speed == data.set_fan_speed
            &&& Some(snapshot.time) == utc_stamp_instant(data.last_communication@)
        },
{
}

/// A snapshot never carries a made-up time: whatever normalizes has the
/// instant that its own timestamp stands for on the clock of its shape.
pub proof fn lemma_snapshot_time_is_the_parsed_time(upload: Upload, zone: Seq<char>)
    ensures
        normalized(upload, zone) matches Some(snapshot) ==> match upload {
            Upload::DeviceList(data) => has_monitored_device(data@) && Some(snapshot.time)
                == zoned_stamp_instant(monitored_device(data@).last_time_stamp@, zone),
            Upload::CurrentData(data) => Some(snapshot.time) == utc_stamp_instant(
                data.last_communication@,
            ),
        },
{
}

} // verus!
