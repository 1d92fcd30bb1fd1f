//! The control core of a small multirotor flight controller: sensor fusion,
//! rate stabilization, motor mixing, the telemetry transmit state machine,
//! the command-line parser, and the byte queue that couples the receive
//! interrupt to the idle task. The hardware edges around it — the sensor
//! bus, the serial port, the transfer engine, the cycle counter — hand in
//! plain values and carry the results out.
//!
//! Physical quantities are carried as signed 64-bit integers in fixed-point
//! form with six decimal places (one unit is `fixed::SCALE`). Every constant
//! of the design (mixing matrices, gravity, time steps) is exact in that
//! form, and every formula is a stated function of its integer inputs.

pub mod ahrs;
pub mod arbiter;
pub mod bootloader;
pub mod chrono;
pub mod cmd;
pub mod communication;
pub mod controllers;
pub mod fixed;
pub mod fmt;
pub mod kalman;
pub mod mixer;
pub mod spsc;
pub mod tasks;
pub mod telemetry;
pub mod trig;
pub mod types;
pub mod utils;
