//! The hierarchical, fully-optional configuration tree.
//!
//! Every leaf is optional: a section the user leaves out contributes
//! nothing. The tree is loaded once at startup and stays immutable for
//! the process lifetime. [`Config::default`] supplies the built-in
//! defaults applied where the configuration source is silent.

use vstd::prelude::*;

verus! {

/// Per-transition notification settings: the enabled gate, an optional
/// icon, and optional summary and body templates.
#[derive(Clone)]
pub struct EventConfig {
    pub enabled: bool,
    pub icon: Option<String>,
    pub summary: Option<TextConfig>,
    pub body: Option<TextConfig>,
    /// Whether a new notification should replace the previous one from
    /// the same source. Declared, not yet enforced by dispatch.
    pub replace: Option<bool>,
}

/// A text template holding `$variable` placeholders.
#[derive(Clone)]
pub struct TextConfig {
    pub format: Option<String>,
}

/// A user-defined event section: a display name and its settings.
#[derive(Clone)]
pub struct CustomConfig {
    pub name: Option<String>,
    pub module: Option<EventConfig>,
}

/// Settings for the power-supply source.
#[derive(Clone)]
pub struct PowerConfig {
    pub charging: Option<EventConfig>,
    pub battery_level: Option<EventConfig>,
}

/// Settings for the USB device source.
#[derive(Clone)]
pub struct DeviceConfig {
    pub connected: Option<EventConfig>,
    pub disconnected: Option<EventConfig>,
}

/// Settings for the network source.
#[derive(Clone)]
pub struct NetworkConfig {
    pub wifi: Option<WifiConfig>,
    pub ethernet: Option<EthernetConfig>,
}

/// Wireless settings within the network section.
#[derive(Clone)]
pub struct WifiConfig {
    pub connected: Option<EventConfig>,
    pub disconnected: Option<EventConfig>,
    pub show_signal_strength: Option<bool>,
    pub show_ssid: Option<bool>,
}

/// Wired settings within the network section.
#[derive(Clone)]
pub struct EthernetConfig {
    pub connected: Option<EventConfig>,
    pub disconnected: Option<EventConfig>,
}

/// The whole configuration tree.
pub struct Config {
    pub network: NetworkConfig,
    pub power: PowerConfig,
    pub device: DeviceConfig,
    pub custom: Vec<CustomConfig>,
}

/// The built-in wifi-connected settings: enabled, summary "Network",
/// body "Connected to $ssid", replacing.
pub open spec fn is_default_wifi_connected(e: EventConfig) -> bool {
    &&& e.enabled == true
    &&& e.icon is None
    &&& e.summary matches Some(s) && s.format matches Some(f) && f@ == "Network"@
    &&& e.body matches Some(b) && b.format matches Some(f) && f@ == "Connected to $ssid"@
    &&& e.replace == Some(true)
}

/// The built-in power-charging settings: disabled, summary "$charging",
/// no body, replacing.
pub open spec fn is_default_power_charging(e: EventConfig) -> bool {
    &&& e.enabled == false
    &&& e.icon is None
    &&& e.summary matches Some(s) && s.format matches Some(f) && f@ == "$charging"@
    &&& e.body is None
    &&& e.replace == Some(true)
}

/// The built-in device-connected settings: enabled, summary "Device",
/// body "Connected: $name", replacing.
pub open spec fn is_default_device_connected(e: EventConfig) -> bool {
    &&& e.enabled == true
    &&& e.icon is None
    &&& e.summary matches Some(s) && s.format matches Some(f) && f@ == "Device"@
    &&& e.body matches Some(b) && b.format matches Some(f) && f@ == "Connected: $name"@
    &&& e.replace == Some(true)
}

/// The shape of the whole built-in default tree.
pub open spec fn is_default_config(c: Config) -> bool {
    &&& c.network.wifi matches Some(w) && {
        &&& w.connected matches Some(e) && is_default_wifi_connected(e)
        &&& w.disconnected is None
        &&& w.show_signal_strength == Some(false)
        &&& w.show_ssid == Some(true)
    }
    &&& c.network.ethernet is None
    &&& c.power.charging matches Some(e) && is_default_power_charging(e)
    &&& c.power.battery_level is None
    &&& c.device.connected matches Some(e) && is_default_device_connected(e)
    &&& c.device.disconnected is None
    &&& c.custom@.len() == 0
}

impl Default for Config {
    /// The defaults applied where the configuration source is silent.
    fn default() -> (c: Config)
        ensures
            is_default_config(c),
    {
        Config {
            network: NetworkConfig {
                wifi: Some(WifiConfig {
                    connected: Some(EventConfig {
                        enabled: true,
                        icon: None,
                        summary: Some(TextConfig { format: Some(String::from_str("Network")) }),
                        body: Some(
                            TextConfig { format: Some(String::from_str("Connected to $ssid")) },
                        ),
                        replace: Some(true),
                    }),
                    disconnected: None,
                    show_signal_strength: Some(false),
                    show_ssid: Some(true),
                }),
                ethernet: None,
            },
            power: PowerConfig {
                charging: Some(EventConfig {
                    enabled: false,
                    icon: None,
                    summary: Some(TextConfig { format: Some(String::from_str("$charging")) }),
                    body: None,
                    replace: Some(true),
                }),
                battery_level: None,
            },
            device: DeviceConfig {
                connected: Some(EventConfig {
                    enabled: true,
                    icon: None,
                    summary: Some(TextConfig { format: Some(String::from_str("Device")) }),
                    body: Some(TextConfig { format: Some(String::from_str("Connected: $name")) }),
                    replace: Some(true),
                }),
                disconnected: None,
            },
            custom: Vec::new(),
        }
    }
}

} // verus!
