//! The event sources and their uniform polling interface.
//!
//! The source set is fixed and known at compile time, so the uniform
//! interface is a closed tagged type dispatched by exhaustive
//! matching: one variant per monitored subsystem, each carrying its
//! own settings.

pub mod device;
pub mod network;
pub mod power;

use vstd::prelude::*;

use crate::events::PlatformEvent;
use crate::events::PlatformEventView;
use crate::modules::device::DeviceModule;
use crate::modules::device::spec_device_poll;
use crate::modules::network::NetworkModule;
use crate::modules::network::is_valid_state_code;
use crate::modules::network::spec_network_poll;
use crate::modules::power::PowerModule;
use crate::modules::power::spec_power_poll;
use crate::notification::Notification;
use crate::notification::NotificationView;
use crate::notification::option_view;

verus! {

/// Why a source could not be constructed.
#[derive(Clone, Copy, PartialEq, Eq, Structural, Debug)]
pub enum ModuleError {
    /// No managed device is marked wireless.
    NoWirelessDevice,
}

impl ModuleError {
    /// A display text for the failure.
    pub fn message(&self) -> (r: &'static str)
        ensures
            r@ == "No wireless device found"@,
    {
        "No wireless device found"
    }
}

/// One active event source.
pub enum Module {
    Network(NetworkModule),
    Power(PowerModule),
    Device(DeviceModule),
}

/// What polling a source yields for one raw observation: the source's
/// own decision for an observation of its subsystem, nothing for an
/// observation of another.
pub open spec fn spec_module_poll(m: Module, raw: PlatformEventView) -> Option<NotificationView> {
    match m {
        Module::Network(nm) => match raw {
            PlatformEventView::Network { state_code, ssid, signal_strength } => spec_network_poll(
                nm.config,
                state_code,
                ssid,
                signal_strength,
            ),
            _ => None,
        },
        Module::Power(pm) => match raw {
            PlatformEventView::PowerSupply { event_type, type_attribute, online_attribute } => {
                spec_power_poll(pm.config, event_type, type_attribute, online_attribute)
            },
            _ => None,
        },
        Module::Device(dm) => match raw {
            PlatformEventView::Device { event_type, vendor, model } => spec_device_poll(
                dm.config,
                event_type,
                vendor,
                model,
            ),
            _ => None,
        },
    }
}

impl Module {
    /// The source's display name.
    pub fn name(&self) -> (r: &'static str)
        ensures
            self matches Module::Network(_) ==> r@ == "NetworkModule"@,
            self matches Module::Power(_) ==> r@ == "PowerModule"@,
            self matches Module::Device(_) ==> r@ == "DeviceModule"@,
    {
        match self {
            Module::Network(m) => m.name(),
            Module::Power(m) => m.name(),
            Module::Device(m) => m.name(),
        }
    }

    /// One non-blocking poll over a raw observation, as
    /// `spec_module_poll` states.
    pub fn poll(&self, raw: &PlatformEvent) -> (r: Option<Notification>)
        requires
            raw@ matches PlatformEventView::Network { state_code, .. } ==> is_valid_state_code(
                state_code,
            ),
        ensures
            option_view(r) == spec_module_poll(*self, raw@),
    {
        match self {
            Module::Network(m) => match raw {
                PlatformEvent::Network { state_code, ssid, signal_strength } => m.poll(
                    *state_code,
                    ssid.clone(),
                    *signal_strength,
                ),
                _ => None,
            },
            Module::Power(m) => match raw {
                PlatformEvent::PowerSupply(info) => m.poll(info),
                _ => None,
            },
            Module::Device(m) => match raw {
                PlatformEvent::Device(info) => {
                    let vendor = match &info.vendor {
                        Some(v) => Some(v.clone()),
                        None => None,
                    };
                    let model = match &info.model {
                        Some(v) => Some(v.clone()),
                        None => None,
                    };
                    let copy = crate::events::DeviceEventInfo {
                        event_type: info.event_type,
                        vendor,
                        model,
                    };
                    m.poll(copy)
                },
                _ => None,
            },
        }
    }
}

} // verus!
