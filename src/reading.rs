//! Inbound readings and the rows stored for them.
//!
//! Temperature, humidity and pressure are 32-bit floats on the wire and in
//! the store. They are copied, never computed on, so they are held here as
//! their IEEE-754 bit patterns.

use vstd::prelude::*;
use crate::id::RowId;

verus! {

/// One decoded telemetry sample, as sent by a sensor.
#[derive(Debug)]
pub struct Reading {
    pub name: String,
    pub auth_code: String,
    /// Bit pattern of the `f32` temperature.
    pub temp: u32,
    /// Bit pattern of the `f32` relative humidity.
    pub humidity: u32,
    /// Bit pattern of the `f32` pressure.
    pub pressure: u32,
}

/// One row of the readings table: a reading with its insert time and
/// identifier.
#[derive(Debug)]
pub struct StoredRow {
    pub name: String,
    pub time: i32,
    pub auth_code: String,
    pub humidity: u32,
    pub id: RowId,
    pub pressure: u32,
    pub temp: u32,
}

impl StoredRow {
    /// The row that stores `reading` at `time` under `id`: the reading's
    /// fields are copied unchanged.
    pub open spec fn of(reading: Reading, time: i32, id: RowId) -> StoredRow {
        StoredRow {
            name: reading.name,
            time,
            auth_code: reading.auth_code,
            humidity: reading.humidity,
            id,
            pressure: reading.pressure,
            temp: reading.temp,
        }
    }

    /// Builds the row that stores `reading` at `time` under `id`.
    pub fn new(reading: Reading, time: i32, id: RowId) -> (r: StoredRow)
        ensures
            r == StoredRow::of(reading, time, id),
    {
        StoredRow {
            name: reading.name,
            time,
            auth_code: reading.auth_code,
            humidity: reading.humidity,
            id,
            pressure: reading.pressure,
            temp: reading.temp,
        }
    }
}

} // verus!
