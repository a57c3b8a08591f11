//! Identifiers of the DUML command vocabulary.

pub mod cmd_set_gimbal;
pub mod cmd_set_rm;
pub mod cmd_set_types;
