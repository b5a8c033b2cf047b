//! An in-memory overlay for an asset archive.
//!
//! A host opens its assets by path and reads them through the handle that
//! the archive gives out. The overlay sits between the two. At every open
//! it tries an ordered list of rules on the path; the first that applies
//! hides the asset, or puts a virtual buffer in its place, whose reads and
//! seeks are from then on served from memory under that same handle. The
//! archive itself is never changed.
//!
//! The parts, from the ground up:
//!
//! - `bytes` and `path`: byte strings, and paths read as names;
//! - `buffer`, `registry` and `facade`: the virtual buffer, the table of
//!   the handles that have one, and the I/O calls answered from it;
//! - `features`, `catalog`, `predicates`, `replacements`, `location` and
//!   `rules`: the switches, the payloads, and the rules that pick one;
//! - `dispatch`: what becomes of one open;
//! - `trial` and `transcode`: finding the format version of a material
//!   file, and of the host, by trying the known ones in order.
//!
//! The overlay does no I/O of its own and keeps no state but the registry
//! and the version cell that its caller owns: whoever calls it makes the
//! native calls, asks the resource packs, parses and writes materials, and
//! holds the lock where threads share a registry.

pub mod bytes;
pub mod path;
pub mod buffer;
pub mod registry;
pub mod facade;
pub mod features;
pub mod catalog;
pub mod predicates;
pub mod replacements;
pub mod location;
pub mod rules;
pub mod dispatch;
pub mod trial;
pub mod transcode;
