//! Fixed-format notifications for typed events.
//!
//! Beside the template-driven composer, each typed event has a fixed
//! rendering used where no per-event configuration applies: a
//! constant summary per source kind and a body naming the transition.

use vstd::prelude::*;

use crate::events::DeviceAction;
use crate::events::SystemEvent;
use crate::events::SystemEventView;
use crate::notification::Notification;
use crate::notification::NotificationView;

verus! {

/// The fixed rendering of one typed event.
pub open spec fn spec_event_notification(e: SystemEventView) -> NotificationView {
    match e {
        SystemEventView::NetworkConnected { ssid, .. } => NotificationView {
            app_name: "network_module"@,
            icon: None,
            summary: Some("Network"@),
            body: Some("Connected to "@ + ssid),
        },
        SystemEventView::PowerSupply { is_connected } => NotificationView {
            app_name: "power_supply_module"@,
            icon: None,
            summary: Some("Power"@),
            body: Some(
                if is_connected {
                    "Charging"@
                } else {
                    "Discharging"@
                },
            ),
        },
        SystemEventView::Device { action, name } => NotificationView {
            app_name: "device_module"@,
            icon: None,
            summary: Some("Device"@),
            body: Some(
                (if action is Added {
                    "Device connected: "@
                } else {
                    "Device disconnected: "@
                }) + name,
            ),
        },
    }
}

/// Renders the fixed notification for one typed event, as
/// `spec_event_notification` states.
pub fn notification_for_event(event: &SystemEvent) -> (r: Notification)
    ensures
        r@ == spec_event_notification(event@),
{
    match event {
        SystemEvent::NetworkConnected { ssid, .. } => {
            let mut body = String::from_str("Connected to ");
            body.append(ssid.as_str());
            Notification {
                app_name: String::from_str("network_module"),
                icon: None,
                summary: Some(String::from_str("Network")),
                body: Some(body),
            }
        },
        SystemEvent::PowerSupply { is_connected } => {
            let status = if *is_connected {
                String::from_str("Charging")
            } else {
                String::from_str("Discharging")
            };
            Notification {
                app_name: String::from_str("power_supply_module"),
                icon: None,
                summary: Some(String::from_str("Power")),
                body: Some(status),
            }
        },
        SystemEvent::Device { action, name } => {
            let mut body = match action {
                DeviceAction::Added => String::from_str("Device connected: "),
                DeviceAction::Removed => String::from_str("Device disconnected: "),
            };
            body.append(name.as_str());
            Notification {
                app_name: String::from_str("device_module"),
                icon: None,
                summary: Some(String::from_str("Device")),
                body: Some(body),
            }
        },
    }
}

} // verus!
