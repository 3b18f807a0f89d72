//! Typed events and the plain-value payloads the platform hands in.
//!
//! Each monitored subsystem reports its raw observations as plain
//! values (state codes, attribute strings); the sources turn them into
//! at most one [`SystemEvent`] per poll. Events are immutable value
//! objects, created and consumed within a single poll iteration.

use vstd::prelude::*;

verus! {

/// What a device monitor reported for one device event. Kinds the
/// sources do not interpret are folded into `Other`.
#[derive(Clone, Copy, PartialEq, Eq, Structural, Debug)]
pub enum DeviceEventKind {
    Add,
    Remove,
    Change,
    Other,
}

/// The direction of a device hotplug transition.
#[derive(Clone, Copy, PartialEq, Eq, Structural, Debug)]
pub enum DeviceAction {
    Added,
    Removed,
}

/// One raw USB device event: the event kind and the device's vendor
/// and model strings, where the platform knows them.
pub struct DeviceEventInfo {
    pub event_type: DeviceEventKind,
    pub vendor: Option<String>,
    pub model: Option<String>,
}

/// One raw power-supply device event: the event kind and the device's
/// `type` and `online` attributes, where present.
pub struct PowerSupplyEventInfo {
    pub event_type: DeviceEventKind,
    pub type_attribute: Option<String>,
    pub online_attribute: Option<String>,
}

/// One raw observation, tagged by the subsystem it came from.
pub enum PlatformEvent {
    /// A network-management state-change signal: the new state code,
    /// with the network name and signal strength the platform reports.
    Network { state_code: u32, ssid: String, signal_strength: u8 },
    PowerSupply(PowerSupplyEventInfo),
    Device(DeviceEventInfo),
}

/// One typed state transition produced by a source. Exactly one
/// variant per poll result; immutable once produced.
pub enum SystemEvent {
    NetworkConnected { ssid: String, signal_strength: u8 },
    PowerSupply { is_connected: bool },
    Device { action: DeviceAction, name: String },
}

/// The content of an optional text value.
pub open spec fn option_text(o: Option<String>) -> Option<Seq<char>> {
    match o {
        Some(s) => Some(s@),
        None => None,
    }
}

/// The mathematical content of a [`PlatformEvent`].
pub enum PlatformEventView {
    Network { state_code: u32, ssid: Seq<char>, signal_strength: u8 },
    PowerSupply {
        event_type: DeviceEventKind,
        type_attribute: Option<Seq<char>>,
        online_attribute: Option<Seq<char>>,
    },
    Device {
        event_type: DeviceEventKind,
        vendor: Option<Seq<char>>,
        model: Option<Seq<char>>,
    },
}

impl View for PlatformEvent {
    type V = PlatformEventView;

    open spec fn view(&self) -> PlatformEventView {
        match self {
            PlatformEvent::Network { state_code, ssid, signal_strength } => {
                PlatformEventView::Network {
                    state_code: *state_code,
                    ssid: ssid@,
                    signal_strength: *signal_strength,
                }
            },
            PlatformEvent::PowerSupply(info) => PlatformEventView::PowerSupply {
                event_type: info.event_type,
                type_attribute: option_text(info.type_attribute),
                online_attribute: option_text(info.online_attribute),
            },
            PlatformEvent::Device(info) => PlatformEventView::Device {
                event_type: info.event_type,
                vendor: option_text(info.vendor),
                model: option_text(info.model),
            },
        }
    }
}

/// The mathematical content of a [`SystemEvent`].
pub enum SystemEventView {
    NetworkConnected { ssid: Seq<char>, signal_strength: u8 },
    PowerSupply { is_connected: bool },
    Device { action: DeviceAction, name: Seq<char> },
}

impl View for SystemEvent {
    type V = SystemEventView;

    open spec fn view(&self) -> SystemEventView {
        match self {
            SystemEvent::NetworkConnected { ssid, signal_strength } => {
                SystemEventView::NetworkConnected {
                    ssid: ssid@,
                    signal_strength: *signal_strength,
                }
            },
            SystemEvent::PowerSupply { is_connected } => SystemEventView::PowerSupply {
                is_connected: *is_connected,
            },
            SystemEvent::Device { action, name } => SystemEventView::Device {
                action: *action,
                name: name@,
            },
        }
    }
}

/// The content of an optional typed event.
pub open spec fn option_event_view(r: Option<SystemEvent>) -> Option<SystemEventView> {
    match r {
        Some(e) => Some(e@),
        None => None,
    }
}

} // verus!
