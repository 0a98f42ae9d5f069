//! The shapes in which a sticker pack is written for Matrix clients.

pub mod maunium;
pub mod ponies;
