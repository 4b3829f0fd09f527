//! Remote control for a two-motor robot driven over Bluetooth Low Energy.
//!
//! The crate holds the decisions of the client: the motor-state model and its
//! steering transitions, the plan of characteristic writes that pushes a state
//! to the robot, the step function of the keyboard control loop, and the
//! device-acquisition handshake. The transport and the terminal stay with the
//! caller, which performs the actions these functions return.

pub mod motor;
pub mod control;
pub mod acquire;
