//! Verified core of a Meshtastic mesh-network simulator: node identities,
//! simulation geometry, the plans the engine hands to the container runtime,
//! and the per-packet routing decisions of its radio relays.

pub mod graph;
pub mod simulation;
pub mod text;
