//! Control core of a remotely operated four-wheel vehicle.
//!
//! The crate covers the command ingestion path of such a vehicle: a
//! self-delimiting wire codec for movement commands, a bounded FIFO command
//! queue, the receive-side listener discipline, the fixed-cadence control
//! loop that substitutes a safety stop when the operator goes quiet, and the
//! holonomic drive kinematics that turn a movement command into per-wheel
//! throttles.
//!
//! Axis values are fixed-point integers in thousandths of full scale, so
//! every rule of the core is stated and machine-checked exactly.  The
//! unverified binary around this crate owns the sockets, signals and motor
//! hardware, and converts at that boundary.

pub mod codec;
pub mod command;
pub mod control;
pub mod kinematics;
pub mod listener;
pub mod queue;
