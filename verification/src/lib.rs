//! Playlist-to-file acquisition pipeline: the decisions of a playlist
//! downloader, stated and proved.
//!
//! The crate holds the pure part of the pipeline: resolving a playlist
//! reference, naming directories and files, walking catalog pages, choosing an
//! audio encoding, building the tag set of a finished file, and sequencing the
//! stages of a run. Network, process and file access belong to the caller,
//! which performs the actions these functions ask for and reports back.

pub mod audio;
pub mod catalog;
pub mod error;
pub mod paths;
pub mod pipeline;
pub mod reference;
pub mod settings;
pub mod tags;
pub mod text;
pub mod transcode;
