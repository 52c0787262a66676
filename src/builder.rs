//! Builders whose fields can be read back, for parts of embeds.

pub mod embed;
