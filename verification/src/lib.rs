//! Keypad, QR-code and BLE-unlock decision logic of the camera lock
//! controller, verified with Verus.

pub mod code;
pub mod frame;
pub mod keypad;
pub mod scan;
pub mod unlock;

