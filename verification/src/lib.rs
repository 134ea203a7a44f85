//! Artie: the logic of a disc archiving service.
//!
//! The crate holds the data models of the service, the conversions of those models to their
//! database values (videos included, read back from their rows), the parsing of MakeMKV's robot
//! output and the disc information it gathers, the HandBrake argument builder and output framing, the file system layout of the
//! media folders, the state machines of the optical drive actors (remote, local and worker) and
//! of the copy operation, and the decisions of the MakeMKV stand-in used in development. Every
//! function here is verified by Verus; the I/O around it (processes, database, files) lives in
//! the companion application.

pub mod models;
pub mod conv;
pub mod text;
pub mod makemkv;
pub mod copy;
pub mod fs;
pub mod drive;
pub mod devices;
pub mod handbrake;
pub mod compress;
pub mod service;
pub mod registry;
pub mod video;
pub mod local;
pub mod playback;
pub mod disc;
