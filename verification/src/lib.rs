//! A hardware-backed symmetric encryption box.
//!
//! A [`TpmBox`] stands for one volatile AES key inside a Trusted Platform
//! Module and one fixed initial value. This crate holds the rules of the box:
//! which commands go to the device, in which order, with which parameters,
//! and what follows from each reply. It never talks to a device itself. A
//! driver sends each [`device::Command`] and hands the [`device::Reply`] back.
//!
//! A box is constructed step by step. [`TpmBox::new`] gives the first state
//! of the construction. For each state the driver carries out
//! [`provision::Provisioning::command`] and passes the reply to
//! [`provision::Provisioning::advance`], until the box is ready or the
//! construction has failed. The one reply that must not lead to an error is
//! the failure to create the key: the driver asks
//! [`provision::Provisioning::fatal`] and stops for good where it holds.
//!
//! With the box, [`TpmBox::encrypt`] and [`TpmBox::decrypt`] give the command
//! for a piece of data, and [`TpmBox::output`] turns the reply into the bytes
//! or the error of the operation.

pub mod device;
pub mod engine;
pub mod error;
pub mod provision;
pub mod template;

pub use engine::TpmBox;
pub use error::Error;
