//! The dispatcher owning the set of active sources.
//!
//! The hub is created empty over an immutable configuration, then
//! configured by registering each source whose platform construction
//! succeeded: a failed construction is omitted and the rest keep
//! working, in a fixed, deterministic order. The caller drives the
//! poll cadence and hands each raw observation to
//! [`Hub::handle_event`]; displaying what comes back stays with the
//! caller.

use vstd::prelude::*;

use crate::config::Config;
use crate::events::PlatformEvent;
use crate::events::PlatformEventView;
use crate::modules::Module;
use crate::modules::device::DeviceModule;
use crate::modules::network::NetworkModule;
use crate::modules::network::is_valid_state_code;
use crate::modules::power::PowerModule;
use crate::modules::spec_module_poll;
use crate::notification::Notification;
use crate::notification::option_view;

verus! {

/// The ordered source set built from the construction outcomes:
/// network, power, device, each present exactly when its construction
/// succeeded.
pub open spec fn spec_registered(
    network: Option<NetworkModule>,
    power: Option<PowerModule>,
    device: Option<DeviceModule>,
) -> Seq<Module> {
    (match network {
        Some(m) => seq![Module::Network(m)],
        None => Seq::<Module>::empty(),
    }) + (match power {
        Some(m) => seq![Module::Power(m)],
        None => Seq::<Module>::empty(),
    }) + (match device {
        Some(m) => seq![Module::Device(m)],
        None => Seq::<Module>::empty(),
    })
}

/// The dispatcher: the immutable configuration and the sources that
/// came up, polled in registration order.
pub struct Hub {
    pub config: Config,
    pub modules: Vec<Module>,
}

impl Hub {
    /// The created state: an empty source set over `config`.
    pub fn init(config: Config) -> (h: Hub)
        ensures
            h.config == config,
            h.modules@ == Seq::<Module>::empty(),
    {
        Hub { config, modules: Vec::new() }
    }

    /// Appends one source to the polling order.
    pub fn register_module(&mut self, module: Module)
        ensures
            final(self).config == old(self).config,
            final(self).modules@ == old(self).modules@.push(module),
    {
        self.modules.push(module);
    }

    /// The configured state: registers each source whose construction
    /// succeeded, in the fixed order network, power, device. A `None`
    /// outcome — a failed construction — is omitted, and the others
    /// keep running.
    pub fn setup(
        &mut self,
        network: Option<NetworkModule>,
        power: Option<PowerModule>,
        device: Option<DeviceModule>,
    )
        requires
            old(self).modules@.len() == 0,
        ensures
            final(self).config == old(self).config,
            final(self).modules@ == spec_registered(network, power, device),
    {
        let ghost network0 = network;
        let ghost power0 = power;
        let ghost device0 = device;
        if let Some(m) = network {
            self.register_module(Module::Network(m));
        }
        if let Some(m) = power {
            self.register_module(Module::Power(m));
        }
        if let Some(m) = device {
            self.register_module(Module::Device(m));
        }
        proof {
            assert(self.modules@ =~= spec_registered(network0, power0, device0));
        }
    }

    /// How many sources are live.
    pub fn module_count(&self) -> (n: usize)
        ensures
            n == self.modules@.len(),
    {
        self.modules.len()
    }

    /// The display name of the source at `index`.
    pub fn module_name(&self, index: usize) -> (r: &'static str)
        requires
            index < self.modules@.len(),
        ensures
            self.modules@[index as int] matches Module::Network(_) ==> r@ == "NetworkModule"@,
            self.modules@[index as int] matches Module::Power(_) ==> r@ == "PowerModule"@,
            self.modules@[index as int] matches Module::Device(_) ==> r@ == "DeviceModule"@,
    {
        self.modules[index].name()
    }

    /// One dispatch step: routes a raw observation to the source at
    /// `index` and composes its notification, if any. A source only
    /// answers observations of its own subsystem; no error of a
    /// source crosses this boundary as anything but "no event".
    pub fn handle_event(&self, index: usize, raw: &PlatformEvent) -> (r: Option<Notification>)
        requires
            index < self.modules@.len(),
            raw@ matches PlatformEventView::Network { state_code, .. } ==> is_valid_state_code(
                state_code,
            ),
        ensures
            option_view(r) == spec_module_poll(self.modules@[index as int], raw@),
    {
        self.modules[index].poll(raw)
    }
}

} // verus!
