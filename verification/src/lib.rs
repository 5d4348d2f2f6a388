//! Verified core of the scenario client: audio and video handoffs, host
//! controls, launcher parsing, settings bookkeeping and cartridge catalog rules.

pub mod audio;
pub mod benchmark;
pub mod host;
pub mod input;
pub mod ipc;
pub mod launch;
pub mod native_video;
pub mod ordering;
pub mod output_config;
pub mod paths;
pub mod performance;
pub mod presenter;
pub mod probe;
pub mod profiling;
pub mod raster;
pub mod roms;
pub mod runtime;
pub mod settings;
pub mod sound;
pub mod text;
pub mod video;
