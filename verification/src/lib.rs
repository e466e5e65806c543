//! A minimal BLE peripheral shim: one GATT service with one readable and
//! writable characteristic, advertised under a fixed local name.
//!
//! The host Bluetooth daemon owns the actual protocol stack; this library
//! holds the decisions the process makes around it: the configuration, the
//! attribute tree and advertisement descriptors, the read and write
//! handlers of the characteristic, the start-up sequence, and the state
//! machine of the run loop that multiplexes adapter notifications with an
//! operator console until a quit command.

pub mod config;
pub mod gatt;
pub mod run_loop;
pub mod startup;
