//! The network source: notification-worthy wireless state changes.
//!
//! The platform reports state changes of the primary wireless device
//! as numeric codes. Only a transition landing on `Activated` — the
//! "became usable" edge — produces an event; every other transition is
//! observed and deliberately filtered out.

use vstd::prelude::*;

use crate::config::NetworkConfig;
use crate::events::SystemEvent;
use crate::events::SystemEventView;
use crate::events::option_event_view;
use crate::modules::ModuleError;
use crate::notification::ComposeNotification;
use crate::notification::Notification;
use crate::notification::NotificationData;
use crate::notification::NotificationDataView;
use crate::notification::NotificationView;
use crate::notification::option_view;
use crate::notification::spec_compose;

verus! {

/// The device-type code marking a managed device as wireless.
pub const WIRELESS_DEVICE_TYPE: u32 = 2;

/// The fixed enumeration of network-management device states.
#[derive(Clone, Copy, PartialEq, Eq, Structural, Debug)]
pub enum NetworkState {
    Unknown,
    Unmanaged,
    Unavailable,
    Disconnected,
    Prepare,
    Config,
    NeedAuth,
    IPConfig,
    IPCheck,
    Secondaries,
    Activated,
    Deactivating,
    Failed,
}

/// The state codes the platform contract allows. Anything else is a
/// misbehaving platform and is treated as unreachable by callers.
pub open spec fn is_valid_state_code(code: u32) -> bool {
    code == 0 || code == 10 || code == 20 || code == 30 || code == 40 || code == 50 || code == 60
        || code == 70 || code == 80 || code == 90 || code == 100 || code == 110 || code == 120
}

/// The state a valid code maps to.
pub open spec fn spec_state_from_code(code: u32) -> NetworkState {
    if code == 0 {
        NetworkState::Unknown
    } else if code == 10 {
        NetworkState::Unmanaged
    } else if code == 20 {
        NetworkState::Unavailable
    } else if code == 30 {
        NetworkState::Disconnected
    } else if code == 40 {
        NetworkState::Prepare
    } else if code == 50 {
        NetworkState::Config
    } else if code == 60 {
        NetworkState::NeedAuth
    } else if code == 70 {
        NetworkState::IPConfig
    } else if code == 80 {
        NetworkState::IPCheck
    } else if code == 90 {
        NetworkState::Secondaries
    } else if code == 100 {
        NetworkState::Activated
    } else if code == 110 {
        NetworkState::Deactivating
    } else {
        NetworkState::Failed
    }
}

/// Maps a state-change code through the fixed enumeration. Codes the
/// platform contract does not allow are ruled out by the caller: a
/// deliberate "should never happen" boundary, not routine handling.
pub fn state_from_code(code: u32) -> (s: NetworkState)
    requires
        is_valid_state_code(code),
    ensures
        s == spec_state_from_code(code),
{
    if code == 0 {
        NetworkState::Unknown
    } else if code == 10 {
        NetworkState::Unmanaged
    } else if code == 20 {
        NetworkState::Unavailable
    } else if code == 30 {
        NetworkState::Disconnected
    } else if code == 40 {
        NetworkState::Prepare
    } else if code == 50 {
        NetworkState::Config
    } else if code == 60 {
        NetworkState::NeedAuth
    } else if code == 70 {
        NetworkState::IPConfig
    } else if code == 80 {
        NetworkState::IPCheck
    } else if code == 90 {
        NetworkState::Secondaries
    } else if code == 100 {
        NetworkState::Activated
    } else if code == 110 {
        NetworkState::Deactivating
    } else {
        NetworkState::Failed
    }
}

/// The index of the first managed device whose type marks it
/// wireless, scanning the devices in platform order.
pub fn find_wireless_device(device_types: &Vec<u32>) -> (r: Option<usize>)
    ensures
        match r {
            Some(i) => i < device_types@.len() && device_types@[i as int] == WIRELESS_DEVICE_TYPE
                && (forall|j: int| 0 <= j < i ==> device_types@[j] != WIRELESS_DEVICE_TYPE),
            None => forall|j: int|
                0 <= j < device_types@.len() ==> device_types@[j] != WIRELESS_DEVICE_TYPE,
        },
{
    let n = device_types.len();
    let mut i: usize = 0;
    while i < n
        invariant
            n == device_types@.len(),
            i <= n,
            forall|j: int| 0 <= j < i ==> device_types@[j] != WIRELESS_DEVICE_TYPE,
        decreases n - i,
    {
        if device_types[i] == WIRELESS_DEVICE_TYPE {
            return Some(i);
        }
        i = i + 1;
    }
    None
}

/// The network source: the wireless settings it composes with. The
/// platform subscription itself stays with the caller, which hands
/// each received state-change signal to [`NetworkModule::poll`].
pub struct NetworkModule {
    pub config: NetworkConfig,
}

/// What polling the network source yields for one received signal:
/// nothing unless the transition lands on `Activated` and a
/// wifi-connected section is configured.
pub open spec fn spec_network_poll(
    cfg: NetworkConfig,
    state_code: u32,
    ssid: Seq<char>,
    signal_strength: u8,
) -> Option<NotificationView> {
    if spec_state_from_code(state_code) is Activated {
        match cfg.wifi {
            Some(w) => match w.connected {
                Some(c) => spec_compose(
                    c,
                    NotificationDataView::Network { ssid, signal_strength },
                ),
                None => None,
            },
            None => None,
        }
    } else {
        None
    }
}

impl NetworkModule {
    /// Constructs the source over the scanned device types: it fails
    /// with `NoWirelessDevice` if and only if no managed device is
    /// marked wireless.
    pub fn create(config: NetworkConfig, device_types: &Vec<u32>) -> (r: Result<
        NetworkModule,
        ModuleError,
    >)
        ensures
            (r is Ok) <==> (exists|j: int|
                0 <= j < device_types@.len() && device_types@[j] == WIRELESS_DEVICE_TYPE),
            r matches Ok(m) ==> m.config == config,
            r matches Err(e) ==> e == ModuleError::NoWirelessDevice,
    {
        match find_wireless_device(device_types) {
            Some(i) => {
                proof {
                    assert(device_types@[i as int] == WIRELESS_DEVICE_TYPE);
                }
                Ok(NetworkModule { config })
            },
            None => Err(ModuleError::NoWirelessDevice),
        }
    }

    /// The source's display name.
    pub fn name(&self) -> (r: &'static str)
        ensures
            r@ == "NetworkModule"@,
    {
        "NetworkModule"
    }

    /// The typed event for one received state-change signal: an event
    /// if and only if the transition lands on `Activated`.
    pub fn poll_state(state_code: u32, ssid: String, signal_strength: u8) -> (r: Option<
        SystemEvent,
    >)
        requires
            is_valid_state_code(state_code),
        ensures
            option_event_view(r) == (if spec_state_from_code(state_code) is Activated {
                Some(SystemEventView::NetworkConnected { ssid: ssid@, signal_strength })
            } else {
                None::<SystemEventView>
            }),
    {
        let state = state_from_code(state_code);
        if let NetworkState::Activated = state {
            Some(SystemEvent::NetworkConnected { ssid, signal_strength })
        } else {
            None
        }
    }

    /// One non-blocking poll over a received signal: composes the
    /// wifi-connected notification exactly when the transition lands
    /// on `Activated`.
    pub fn poll(&self, state_code: u32, ssid: String, signal_strength: u8) -> (r: Option<
        Notification,
    >)
        requires
            is_valid_state_code(state_code),
        ensures
            option_view(r) == spec_network_poll(self.config, state_code, ssid@, signal_strength),
    {
        let state = state_from_code(state_code);
        if let NetworkState::Activated = state {
            match &self.config.wifi {
                Some(w) => match &w.connected {
                    Some(c) => c.compose_notification(
                        NotificationData::Network { ssid, signal_strength },
                    ),
                    None => None,
                },
                None => None,
            }
        } else {
            None
        }
    }
}

/// The fixed-format wireless-connected notification record.
pub struct NetworkNotification {
    pub ssid: String,
    pub signal_strength: u8,
}

impl NetworkNotification {
    /// The fixed rendering: summary "Network", body naming the network.
    pub fn build(&self) -> (r: Notification)
        ensures
            r@.app_name == "network_module"@,
            r@.icon is None,
            r@.summary == Some("Network"@),
            r@.body == Some("Connected to "@ + self.ssid@),
    {
        let mut body = String::from_str("Connected to ");
        body.append(self.ssid.as_str());
        Notification {
            app_name: String::from_str("network_module"),
            icon: None,
            summary: Some(String::from_str("Network")),
            body: Some(body),
        }
    }
}

} // verus!
