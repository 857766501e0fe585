//! Provisioning of wireless credentials onto a headless device: a hotspot,
//! a small captive-portal API, and a state machine that joins the chosen
//! network or falls back to the hotspot.
pub mod device;
pub mod scan;
pub mod portal;
pub mod provision;
