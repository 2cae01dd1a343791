//! Verified core of a small MPRIS now-playing display with a rotary
//! encoder: configuration defaults, text truncation for the OLED lines,
//! player selection, the rotary encoder's click and rotation decoding,
//! and the decisions of the main control loop.

pub mod config;
pub mod display;
pub mod rotary;
pub mod mpris_client;
pub mod session;
