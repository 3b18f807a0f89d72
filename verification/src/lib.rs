//! A desktop event-to-notification engine.
//!
//! The library watches for state transitions of a small set of host
//! subsystems (wireless network, AC power supply, USB hotplug) and turns
//! them into display-ready notifications through user-configurable text
//! templates. Platform transports (device monitors, the system bus, the
//! notification display facility) stay outside the library: callers hand
//! in the plain values those transports produce and receive back plain
//! notification records.

pub mod config;
pub mod events;
pub mod hub;
pub mod modules;
pub mod notification;
pub mod notifier;
pub mod text;
