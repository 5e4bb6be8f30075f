//! What holds of the library as a whole: laws that relate several of its
//! functions, each stated over the same models as the functions' contracts
//! and proved.

pub mod duties;
pub mod hub;
pub mod rooms;
pub mod wire;
