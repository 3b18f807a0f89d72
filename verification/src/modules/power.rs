//! The power-supply source: AC mains connect and disconnect edges.
//!
//! The device monitor reports every power-supply event; only a
//! `Change` event on a device whose `type` attribute is `"Mains"` is
//! interpreted, its `online` attribute deciding connectedness. Events
//! on other devices, other event kinds, and events whose attributes
//! the platform withholds are discarded without producing an event.

use vstd::prelude::*;

use crate::config::PowerConfig;
use crate::events::DeviceEventKind;
use crate::events::PowerSupplyEventInfo;
use crate::events::SystemEvent;
use crate::events::SystemEventView;
use crate::events::option_event_view;
use crate::events::option_text;
use crate::notification::ComposeNotification;
use crate::notification::Notification;
use crate::notification::NotificationData;
use crate::notification::NotificationDataView;
use crate::notification::NotificationView;
use crate::notification::option_view;
use crate::notification::spec_compose;
use crate::text::str_eq;

verus! {

/// What one raw power-supply event decides: `Some(is_connected)` for a
/// `Change` event of a `"Mains"` device whose `online` attribute is
/// present (`"1"` meaning connected), nothing otherwise.
pub open spec fn spec_power_decision(
    event_type: DeviceEventKind,
    type_attribute: Option<Seq<char>>,
    online_attribute: Option<Seq<char>>,
) -> Option<bool> {
    if event_type is Change {
        match type_attribute {
            Some(t) => if t == "Mains"@ {
                match online_attribute {
                    Some(o) => Some(o == "1"@),
                    None => None,
                }
            } else {
                None
            },
            None => None,
        }
    } else {
        None
    }
}

/// What polling the power source yields for one raw event: the
/// charging settings composed with "Charging" or "Discharging".
pub open spec fn spec_power_poll(
    cfg: PowerConfig,
    event_type: DeviceEventKind,
    type_attribute: Option<Seq<char>>,
    online_attribute: Option<Seq<char>>,
) -> Option<NotificationView> {
    match spec_power_decision(event_type, type_attribute, online_attribute) {
        Some(is_connected) => match cfg.charging {
            Some(c) => spec_compose(
                c,
                NotificationDataView::Power {
                    percentage: 0,
                    charging: if is_connected {
                        "Charging"@
                    } else {
                        "Discharging"@
                    },
                },
            ),
            None => None,
        },
        None => None,
    }
}

/// The power-supply source: the settings it composes with. The device
/// monitor stays with the caller, which hands each raw event to
/// [`PowerModule::poll`].
pub struct PowerModule {
    pub config: PowerConfig,
}

impl PowerModule {
    /// Constructs the source over its settings.
    pub fn create(config: PowerConfig) -> (m: PowerModule)
        ensures
            m.config == config,
    {
        PowerModule { config }
    }

    /// The source's display name.
    pub fn name(&self) -> (r: &'static str)
        ensures
            r@ == "PowerModule"@,
    {
        "PowerModule"
    }

    /// The typed event for one raw power-supply event, as
    /// `spec_power_decision` states.
    pub fn poll_event(info: &PowerSupplyEventInfo) -> (r: Option<SystemEvent>)
        ensures
            option_event_view(r) == (match spec_power_decision(
                info.event_type,
                option_text(info.type_attribute),
                option_text(info.online_attribute),
            ) {
                Some(is_connected) => Some(SystemEventView::PowerSupply { is_connected }),
                None => None::<SystemEventView>,
            }),
    {
        match Self::interpret(info) {
            Some(is_connected) => Some(SystemEvent::PowerSupply { is_connected }),
            None => None,
        }
    }

    /// Decides connectedness for one raw event, as
    /// `spec_power_decision` states.
    fn interpret(info: &PowerSupplyEventInfo) -> (r: Option<bool>)
        ensures
            r == spec_power_decision(
                info.event_type,
                option_text(info.type_attribute),
                option_text(info.online_attribute),
            ),
    {
        if let DeviceEventKind::Change = info.event_type {
            match &info.type_attribute {
                Some(t) => if str_eq(t.as_str(), "Mains") {
                    match &info.online_attribute {
                        Some(o) => Some(str_eq(o.as_str(), "1")),
                        None => None,
                    }
                } else {
                    None
                },
                None => None,
            }
        } else {
            None
        }
    }

    /// One non-blocking poll over a raw event: composes the charging
    /// notification exactly when the event is a Mains transition.
    pub fn poll(&self, info: &PowerSupplyEventInfo) -> (r: Option<Notification>)
        ensures
            option_view(r) == spec_power_poll(
                self.config,
                info.event_type,
                option_text(info.type_attribute),
                option_text(info.online_attribute),
            ),
    {
        match Self::interpret(info) {
            Some(is_connected) => match &self.config.charging {
                Some(c) => {
                    let charging = if is_connected {
                        String::from_str("Charging")
                    } else {
                        String::from_str("Discharging")
                    };
                    c.compose_notification(NotificationData::Power { percentage: 0, charging })
                },
                None => None,
            },
            None => None,
        }
    }
}

/// The fixed-format power-supply notification record.
pub struct PowerSupplyNotification {
    pub is_connected: bool,
}

impl PowerSupplyNotification {
    /// The fixed rendering: summary "Power", body naming the edge.
    pub fn build(&self) -> (r: Notification)
        ensures
            r@.app_name == "power_supply_module"@,
            r@.icon is None,
            r@.summary == Some("Power"@),
            r@.body == Some(
                if self.is_connected {
                    "Charging"@
                } else {
                    "Discharging"@
                },
            ),
    {
        let status = if self.is_connected {
            String::from_str("Charging")
        } else {
            String::from_str("Discharging")
        };
        Notification {
            app_name: String::from_str("power_supply_module"),
            icon: None,
            summary: Some(String::from_str("Power")),
            body: Some(status),
        }
    }
}

} // verus!
