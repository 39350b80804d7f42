//! Virtual input-device emission and multi-device capture.
//!
//! The crate models a kernel-level input stack: registration plans for
//! virtual keyboard and mouse devices, the binary input-event record they
//! share, per-device worker state machines with relative-motion coalescing,
//! a bounded action queue with backpressure, and the decision core of a
//! multi-device capture loop with hot removal and cooperative shutdown.
//! The operating-system calls the decisions drive — opening and writing
//! device nodes, waiting, reading, closing — live with the threads that
//! perform them, outside this library.

pub mod capture;
pub mod channel;
pub mod coalesce;
pub mod facade;
pub mod filter;
pub mod frames;
pub mod keys;
pub mod reader;
pub mod records;
pub mod registrar;
pub mod text;
pub mod workers;

pub use keys::Key;
pub use reader::InputReader;
pub use records::InputEvent;
pub use registrar::DeviceType;
