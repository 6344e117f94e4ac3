//! Plain configuration data for mapping a physical input device onto the
//! robot's axes and buttons.  Polling the device and scaling its readings
//! happen in the surrounding application; these records only carry the
//! mapping choices.

use vstd::prelude::*;

verus! {

/// Axis mapping configuration.
#[derive(Debug, Clone)]
pub struct AxisMapping {
    /// X-axis (strafe).
    pub x_axis: u8,
    /// Y-axis (forward/backward).
    pub y_axis: u8,
    /// Rotation axis.
    pub rotation_axis: u8,
    /// Invert the X axis.
    pub invert_x: bool,
    /// Invert the Y axis.
    pub invert_y: bool,
    /// Invert the rotation axis.
    pub invert_rotation: bool,
}

/// Button mapping configuration.
#[derive(Debug, Clone)]
pub struct ButtonMapping {
    /// Emergency stop button.
    pub emergency_stop: Option<u8>,
    /// LED control button.
    pub led_toggle: Option<u8>,
    /// Speed modifier button.
    pub speed_boost: Option<u8>,
}

} // verus!
