//! Verified core of a Device Automation Bus (DAB) adapter for RDK devices.
//!
//! The library holds the decisions of the adapter: how RDK (Thunder) answers
//! are read as DAB values, how DAB requests are turned into RDK
//! calls, the key map and configuration tables, and the small state machines
//! that drive multi-step device interactions. Network and file access live in
//! the application around it.
pub mod dab;
pub mod text;
pub mod codec;
pub mod table;
pub mod configuration;
pub mod interface;
pub mod system;
pub mod applications;
pub mod voice;
pub mod input;
pub mod calls;
pub mod operations;
pub mod device_info;
pub mod screenshot;
