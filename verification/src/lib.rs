//! An authority-guarded record store: a single record whose authority is fixed
//! at creation, and whose two yield fields only that authority may overwrite.

pub mod codec;
pub mod identity;
pub mod state;
