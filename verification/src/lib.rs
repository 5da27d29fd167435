//! Diagnostic host core for ECUs on a CAN bus: pass-through message framing,
//! the UDS client with its negative-response policies, the seed/key engine,
//! the bench emulator of supporting ECUs and the per-ECU read flows.

pub mod commands;
pub mod ecu_emulator;
pub mod j2534;
pub mod text;
pub mod uds;
