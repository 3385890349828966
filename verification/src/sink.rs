//! What the storage sinks have in common: the enablement flag, the plan of
//! one upsert, and the write contract that a store is expected to honour.

use vstd::prelude::*;
use vstd::map::*;
use vstd::assert_maps_equal;
use crate::models::Scalar;

verus! {

/// What one sink does with one upload. Only `Write` touches the store;
/// the other two outcomes write nothing and both count as success.
#[derive(Debug, PartialEq, Eq)]
pub enum Upsert<R> {
    /// The sink is switched off: nothing is written.
    Skipped,
    /// The upload yields no snapshot, so there is nothing to persist:
    /// nothing is written, and that is no failure.
    NothingToPersist,
    /// The row to write.
    Write(R),
}

/// The plan of an upsert: a sink that is switched off skips whatever it is
/// given; one that is switched on writes the row if there is one, and has
/// nothing to persist if there is none.
pub open spec fn upsert_plan<R>(enabled: bool, row: Option<R>) -> Upsert<R> {
    if !enabled {
        Upsert::Skipped
    } else {
        match row {
            Some(row) => Upsert::Write(row),
            None => Upsert::NothingToPersist,
        }
    }
}

impl<R> Upsert<R> {
    /// Whether the plan leaves the store alone, which counts as success.
    pub fn succeeds_without_write(&self) -> (r: bool)
        ensures
            r == !(*self is Write),
    {
        match self {
            Upsert::Write(_) => false,
            _ => true,
        }
    }
}

/// What an enablement flag says: `true` and `false` are the two values it
/// can take, anything else is no flag.
pub open spec fn flag_value(text: Seq<char>) -> Option<bool> {
    if text == "true"@ {
        Some(true)
    } else if text == "false"@ {
        Some(false)
    } else {
        None
    }
}

/// Whether a setting is a flag, if it is set at all.
pub open spec fn flag_well_formed(value: Option<String>) -> bool {
    value matches Some(text) ==> flag_value(text@) is Some
}

/// Whether a setting switches its sink on: it does if it is set to `true`.
pub open spec fn flag_on(value: Option<String>) -> bool {
    value matches Some(text) && flag_value(text@) == Some(true)
}

/// Reads an enablement flag.
pub fn parse_flag(text: &String) -> (r: Option<bool>)
    ensures
        r == flag_value(text@),
{
    let yes = "true".to_owned();
    let no = "false".to_owned();
    if *text == yes {
        Some(true)
    } else if *text == no {
        Some(false)
    } else {
        None
    }
}

/// Whether a setting switches its sink on. A sink whose setting is absent is off.
pub fn flag_enabled(value: &Option<String>) -> (r: bool)
    requires
        flag_well_formed(*value),
    ensures
        r == flag_on(*value),
{
    match value {
        Some(text) => match parse_flag(text) {
            Some(on) => on,
            None => false,
        },
        None => false,
    }
}

/// A column of the stored reading, other than the two that make its key.
#[derive(Debug, Clone, Copy, PartialEq, Eq, Structural)]
pub enum Column {
    DeviceType,
    Power,
    Offline,
    RoomTemperature,
    SetTemperature,
    LastCommunication,
    ActualFanSpeed,
    FanSpeed,
    AutomaticFanSpeed,
    VaneVerticalDirection,
    VaneVerticalSwing,
    VaneHorizontalDirection,
    VaneHorizontalSwing,
    OperationMode,
    InStandbyMode,
    HeatingEnergyConsumedRate1,
    HeatingEnergyConsumedRate2,
    CoolingEnergyConsumedRate1,
    CoolingEnergyConsumedRate2,
    AutoEnergyConsumedRate1,
    AutoEnergyConsumedRate2,
    DryEnergyConsumedRate1,
    DryEnergyConsumedRate2,
    FanEnergyConsumedRate1,
    FanEnergyConsumedRate2,
    OtherEnergyConsumedRate1,
    OtherEnergyConsumedRate2,
    CurrentEnergyConsumed,
    CurrentEnergyMode,
    EnergyCorrectionModel,
    EnergyCorrectionActive,
    WifiSignalStrength,
    WifiAdapterStatus,
    HasError,
}

/// What a column holds.
#[derive(Debug, Clone, PartialEq, Eq)]
pub enum Value {
    /// Nothing is known.
    Unknown,
    Flag(bool),
    Count(i64),
    Number(Scalar),
    Text(String),
}

/// Whether only the rich shape carries the column.
pub open spec fn rich_only(column: Column) -> bool {
    match column {
        Column::DeviceType
        | Column::Power
        | Column::Offline
        | Column::RoomTemperature
        | Column::SetTemperature
        | Column::LastCommunication
        | Column::ActualFanSpeed
        | Column::FanSpeed
        | Column::VaneVerticalDirection
        | Column::VaneHorizontalDirection
        | Column::OperationMode
        | Column::InStandbyMode => false,
        _ => true,
    }
}

/// A flag that may be unknown, as a column holds it.
pub open spec fn flag_if_known(value: Option<bool>) -> Value {
    match value {
        Some(value) => Value::Flag(value),
        None => Value::Unknown,
    }
}

/// A number that may be unknown, as a column holds it.
pub open spec fn number_if_known(value: Option<Scalar>) -> Value {
    match value {
        Some(value) => Value::Number(value),
        None => Value::Unknown,
    }
}

/// A text that may be unknown, as a column holds it.
pub open spec fn text_if_known(value: Option<String>) -> Value {
    match value {
        Some(value) => Value::Text(value),
        None => Value::Unknown,
    }
}

/// A store as its sinks see it: under each key the columns that have been
/// written, each with its last value.
pub type Table<K, C, V> = Map<K, Map<C, V>>;

/// The write contract of a store: an upsert of `columns` under `key` adds
/// the row if the key is new, and otherwise overwrites those columns of the
/// row and leaves its other columns alone.
pub open spec fn stored<K, C, V>(table: Table<K, C, V>, key: K, columns: Map<C, V>) -> Table<
    K,
    C,
    V,
> {
    if table.dom().contains(key) {
        table.insert(key, table[key].union_prefer_right(columns))
    } else {
        table.insert(key, columns)
    }
}

/// Under the write contract, upserting the same columns under the same key
/// twice leaves the store as upserting them once does: one row under that
/// key, the other rows untouched.
pub proof fn lemma_upsert_twice_is_upsert_once<K, C, V>(
    table: Table<K, C, V>,
    key: K,
    columns: Map<C, V>,
)
    ensures
        stored(stored(table, key, columns), key, columns) == stored(table, key, columns),
        stored(table, key, columns).dom() == table.dom().insert(key),
{
    let once = stored(table, key, columns);
    let twice = stored(once, key, columns);
    assert(once[key].union_prefer_right(columns) =~= once[key]);
    assert_maps_equal!(twice, once);
    assert(once.dom() =~= table.dom().insert(key));
}

/// Under the write contract, the last write wins: after two upserts under
/// one key, every column of the second has the second's value, and a
/// column that only the first wrote still has the first's.
pub proof fn lemma_last_write_wins<K, C, V>(
    table: Table<K, C, V>,
    key: K,
    first: Map<C, V>,
    second: Map<C, V>,
    column: C,
)
    ensures
        ({
            let row = stored(stored(table, key, first), key, second)[key];
            &&& second.dom().contains(column) ==> row.dom().contains(column) && row[column]
                == second[column]
            &&& first.dom().contains(column) && !second.dom().contains(column)
                ==> row.dom().contains(column) && row[column] == first[column]
        }),
{
}

} // verus!
