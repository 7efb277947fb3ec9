//! The picture processor: register block, object attribute memory, tiles and palette.

pub mod oam;
pub mod palette;
pub mod registers;
pub mod tile;
