//! The USB device source: hotplug add and remove edges.
//!
//! `Add` and `Remove` event kinds map to `Added`/`Removed`; any other
//! kind yields no event. A device's display name is derived from its
//! vendor and model strings, joined when both are present, either one
//! alone otherwise, and `"Unknown Device"` when the platform reports
//! neither.

use vstd::prelude::*;

use crate::config::DeviceConfig;
use crate::events::DeviceAction;
use crate::events::DeviceEventInfo;
use crate::events::DeviceEventKind;
use crate::events::SystemEvent;
use crate::events::SystemEventView;
use crate::events::option_event_view;
use crate::events::option_text;
use crate::notification::ComposeNotification;
use crate::notification::Notification;
use crate::notification::NotificationData;
use crate::notification::NotificationDataView;
use crate::notification::NotificationView;
use crate::notification::option_view;
use crate::notification::spec_compose;

verus! {

/// The hotplug direction of an event kind, where it has one.
pub open spec fn spec_device_action(event_type: DeviceEventKind) -> Option<DeviceAction> {
    match event_type {
        DeviceEventKind::Add => Some(DeviceAction::Added),
        DeviceEventKind::Remove => Some(DeviceAction::Removed),
        DeviceEventKind::Change => None,
        DeviceEventKind::Other => None,
    }
}

/// The derived display name: vendor and model joined by one space,
/// whichever alone is present, or `"Unknown Device"`.
pub open spec fn spec_device_name(vendor: Option<Seq<char>>, model: Option<Seq<char>>) -> Seq<
    char,
> {
    match vendor {
        Some(v) => match model {
            Some(m) => v + " "@ + m,
            None => v,
        },
        None => match model {
            Some(m) => m,
            None => "Unknown Device"@,
        },
    }
}

/// Derives the display name for a device, as `spec_device_name`
/// states.
pub fn get_device_name(vendor: Option<String>, model: Option<String>) -> (r: String)
    ensures
        r@ == spec_device_name(option_text(vendor), option_text(model)),
{
    match vendor {
        Some(v) => match model {
            Some(m) => {
                let mut r = v;
                r.append(" ");
                r.append(m.as_str());
                r
            },
            None => v,
        },
        None => match model {
            Some(m) => m,
            None => String::from_str("Unknown Device"),
        },
    }
}

/// What polling the device source yields for one raw event: an add
/// composed with the connected settings, a remove with the
/// disconnected ones, anything else nothing.
pub open spec fn spec_device_poll(
    cfg: DeviceConfig,
    event_type: DeviceEventKind,
    vendor: Option<Seq<char>>,
    model: Option<Seq<char>>,
) -> Option<NotificationView> {
    match spec_device_action(event_type) {
        Some(DeviceAction::Added) => match cfg.connected {
            Some(c) => spec_compose(
                c,
                NotificationDataView::Device { name: spec_device_name(vendor, model) },
            ),
            None => None,
        },
        Some(DeviceAction::Removed) => match cfg.disconnected {
            Some(c) => spec_compose(
                c,
                NotificationDataView::Device { name: spec_device_name(vendor, model) },
            ),
            None => None,
        },
        None => None,
    }
}

/// The device source: the settings it composes with. The device
/// monitor stays with the caller, which hands each raw event to
/// [`DeviceModule::poll`].
pub struct DeviceModule {
    pub config: DeviceConfig,
}

impl DeviceModule {
    /// Constructs the source over its settings.
    pub fn create(config: DeviceConfig) -> (m: DeviceModule)
        ensures
            m.config == config,
    {
        DeviceModule { config }
    }

    /// The source's display name.
    pub fn name(&self) -> (r: &'static str)
        ensures
            r@ == "DeviceModule"@,
    {
        "DeviceModule"
    }

    /// The typed event for one raw device event: an event if and only
    /// if the kind is a hotplug edge, named as the device derives.
    pub fn poll_event(info: DeviceEventInfo) -> (r: Option<SystemEvent>)
        ensures
            option_event_view(r) == (match spec_device_action(info.event_type) {
                Some(action) => Some(
                    SystemEventView::Device {
                        action,
                        name: spec_device_name(option_text(info.vendor), option_text(info.model)),
                    },
                ),
                None => None::<SystemEventView>,
            }),
    {
        let action = match info.event_type {
            DeviceEventKind::Add => Some(DeviceAction::Added),
            DeviceEventKind::Remove => Some(DeviceAction::Removed),
            _ => None,
        };
        match action {
            Some(action) => {
                let name = get_device_name(info.vendor, info.model);
                Some(SystemEvent::Device { action, name })
            },
            None => None,
        }
    }

    /// One non-blocking poll over a raw event: composes with the
    /// settings of the hotplug edge the event reports, if any.
    pub fn poll(&self, info: DeviceEventInfo) -> (r: Option<Notification>)
        ensures
            option_view(r) == spec_device_poll(
                self.config,
                info.event_type,
                option_text(info.vendor),
                option_text(info.model),
            ),
    {
        let action = match info.event_type {
            DeviceEventKind::Add => Some(DeviceAction::Added),
            DeviceEventKind::Remove => Some(DeviceAction::Removed),
            _ => None,
        };
        match action {
            Some(action) => {
                let name = get_device_name(info.vendor, info.model);
                let section = match action {
                    DeviceAction::Added => &self.config.connected,
                    DeviceAction::Removed => &self.config.disconnected,
                };
                match section {
                    Some(c) => c.compose_notification(NotificationData::Device { name }),
                    None => None,
                }
            },
            None => None,
        }
    }
}

/// The fixed-format device hotplug notification record.
pub struct DeviceNotification {
    pub action: DeviceEventKind,
    pub name: String,
}

impl DeviceNotification {
    /// The fixed rendering: summary "Device", body naming the edge and
    /// the device; nothing for a kind that is no hotplug edge.
    pub fn build(&self) -> (r: Option<Notification>)
        ensures
            match spec_device_action(self.action) {
                Some(DeviceAction::Added) => option_view(r) == Some(
                    NotificationView {
                        app_name: "device_module"@,
                        icon: None::<Seq<char>>,
                        summary: Some("Device"@),
                        body: Some("Device connected: "@ + self.name@),
                    },
                ),
                Some(DeviceAction::Removed) => option_view(r) == Some(
                    NotificationView {
                        app_name: "device_module"@,
                        icon: None::<Seq<char>>,
                        summary: Some("Device"@),
                        body: Some("Device disconnected: "@ + self.name@),
                    },
                ),
                None => r is None,
            },
    {
        let action = match self.action {
            DeviceEventKind::Add => "connected",
            DeviceEventKind::Remove => "disconnected",
            _ => {
                return None;
            },
        };
        let mut body = String::from_str("Device ");
        body.append(action);
        body.append(": ");
        body.append(self.name.as_str());
        proof {
            reveal_strlit("Device ");
            reveal_strlit("connected");
            reveal_strlit("disconnected");
            reveal_strlit(": ");
            reveal_strlit("Device connected: ");
            reveal_strlit("Device disconnected: ");
            if self.action is Add {
                assert("Device "@ + "connected"@ + ": "@ =~= "Device connected: "@);
            } else {
                assert("Device "@ + "disconnected"@ + ": "@ =~= "Device disconnected: "@);
            }
        }
        Some(
            Notification {
                app_name: String::from_str("device_module"),
                icon: None,
                summary: Some(String::from_str("Device")),
                body: Some(body),
            },
        )
    }
}

} // verus!
