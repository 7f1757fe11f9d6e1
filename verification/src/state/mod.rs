pub mod config;
pub mod foreign_emitter;
pub mod received;
pub mod wormhole_emitter;
