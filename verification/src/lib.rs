//! Discovery and control of Bambu Lab printers on the local network.
//!
//! Printers announce themselves by broadcast. This library reads the
//! announcements (`announcement`), keeps the registry of the printers it
//! has seen (`registry`, `discovery`, `bambu`, `bambu_x1_carbon`), names
//! their models (`model`), and decides what is sent to a printer and to its
//! slicer (`network_printer`, `slicer`). It does no input or output of its
//! own: sockets, transports and processes belong to the caller, who hands
//! in what happened and is told what to do.

pub mod address;
pub mod announcement;
pub mod bambu;
pub mod bambu_x1_carbon;
pub mod config;
pub mod discovery;
pub mod ipv4;
pub mod ipv6;
pub mod model;
pub mod network_printer;
pub mod paths;
pub mod registry;
pub mod slicer;
pub mod text;

pub use crate::bambu::{Bambu, BambuPrinter};
pub use crate::bambu_x1_carbon::{BambuX1Carbon, BambuX1CarbonPrinter};
pub use crate::model::BambuModel;
pub use crate::slicer::OrcaSlicer;
