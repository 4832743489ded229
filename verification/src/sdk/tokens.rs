//! Standard token interfaces.
pub mod acu1155;
pub mod acu20;
pub mod acu721;
