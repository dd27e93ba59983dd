//! Readings that the sensor and button producers hand to the application.
use vstd::prelude::*;

verus! {

/// A button press.
pub type ButtonEvent = bool;

/// One sample of the combined accelerometer and magnetometer.
#[derive(Debug)]
pub struct LSMData {
    pub mag_x: i32,
    pub mag_y: i32,
    pub mag_z: i32,
    pub accel_x: i32,
    pub accel_y: i32,
    pub accel_z: i32,
    /// Microseconds since boot.
    pub timestamp: i64,
}

/// One sample of the inertial measurement unit.
#[derive(Debug)]
pub struct BMI160Data {
    pub gyro_x: i16,
    pub gyro_y: i16,
    pub gyro_z: i16,
    pub accel_x: i16,
    pub accel_y: i16,
    pub accel_z: i16,
    /// The sensor's own sample clock.
    pub sample_time: u32,
}

} // verus!
