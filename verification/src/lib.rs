//! Import of sticker packs from Telegram into Matrix: the conversion rules for
//! sticker files, the store that remembers which files were already uploaded,
//! the per-sticker import pipeline, the aggregation of a pack's results and the
//! pack documents that sticker pickers read.
//!
//! Everything here works on plain values. Network and disk access belong to the
//! caller, which performs the actions that the pipeline asks for and hands the
//! outcomes back.

pub mod text;
pub mod error;
pub mod database;
pub mod image;
pub mod matrix;
pub mod stickerpicker;
pub mod sub_commands;
pub mod tg;
