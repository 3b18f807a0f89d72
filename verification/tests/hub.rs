use noti::config::{Config, DeviceConfig, EventConfig, NetworkConfig, PowerConfig, TextConfig, WifiConfig};
use noti::events::{DeviceEventInfo, DeviceEventKind, PlatformEvent, PowerSupplyEventInfo};
use noti::hub::Hub;
use noti::modules::device::DeviceModule;
use noti::modules::network::NetworkModule;
use noti::modules::power::PowerModule;

fn event_section(summary: &str, body: &str) -> Option<EventConfig> {
    Some(EventConfig {
        enabled: true,
        icon: None,
        summary: Some(TextConfig { format: Some(String::from(summary)) }),
        body: Some(TextConfig { format: Some(String::from(body)) }),
        replace: Some(true),
    })
}

fn test_config() -> Config {
    Config {
        network: NetworkConfig {
            wifi: Some(WifiConfig {
                connected: event_section("Network", "Connected to $ssid"),
                disconnected: None,
                show_signal_strength: Some(false),
                show_ssid: Some(true),
            }),
            ethernet: None,
        },
        power: PowerConfig {
            charging: event_section("Power", "$charging"),
            battery_level: None,
        },
        device: DeviceConfig {
            connected: event_section("Device", "Connected: $name"),
            disconnected: None,
        },
        custom: Vec::new(),
    }
}

fn device_add() -> PlatformEvent {
    PlatformEvent::Device(DeviceEventInfo {
        event_type: DeviceEventKind::Add,
        vendor: Some(String::from("Acme")),
        model: Some(String::from("Widget")),
    })
}

fn mains_online() -> PlatformEvent {
    PlatformEvent::PowerSupply(PowerSupplyEventInfo {
        event_type: DeviceEventKind::Change,
        type_attribute: Some(String::from("Mains")),
        online_attribute: Some(String::from("1")),
    })
}

#[test]
fn hub_starts_empty_and_registers_in_order() {
    let config = test_config();
    let mut hub = Hub::init(config);
    assert_eq!(hub.module_count(), 0);

    let network = NetworkModule::create(hub.config.network.clone(), &vec![2]).ok();
    let power = Some(PowerModule::create(hub.config.power.clone()));
    let device = Some(DeviceModule::create(hub.config.device.clone()));
    hub.setup(network, power, device);

    assert_eq!(hub.module_count(), 3);
    assert_eq!(hub.module_name(0), "NetworkModule");
    assert_eq!(hub.module_name(1), "PowerModule");
    assert_eq!(hub.module_name(2), "DeviceModule");
}

#[test]
fn one_failed_source_leaves_the_others_working() {
    let config = test_config();
    let mut hub = Hub::init(config);

    // No managed device is wireless: network construction fails and
    // is omitted; power and device still come up.
    let network = NetworkModule::create(hub.config.network.clone(), &vec![1, 3]).ok();
    assert!(network.is_none());
    let power = Some(PowerModule::create(hub.config.power.clone()));
    let device = Some(DeviceModule::create(hub.config.device.clone()));
    hub.setup(network, power, device);

    assert_eq!(hub.module_count(), 2);
    assert_eq!(hub.module_name(0), "PowerModule");
    assert_eq!(hub.module_name(1), "DeviceModule");

    let n = hub.handle_event(0, &mains_online()).unwrap();
    assert_eq!(n.summary.as_deref(), Some("Power"));
    assert_eq!(n.body.as_deref(), Some("Charging"));

    let n = hub.handle_event(1, &device_add()).unwrap();
    assert_eq!(n.summary.as_deref(), Some("Device"));
    assert_eq!(n.body.as_deref(), Some("Connected: Acme Widget"));
}

#[test]
fn sources_ignore_foreign_observations() {
    let config = test_config();
    let mut hub = Hub::init(config);
    let power = Some(PowerModule::create(hub.config.power.clone()));
    hub.setup(None, power, None);
    assert_eq!(hub.module_count(), 1);
    // A device observation handed to the power source yields nothing.
    assert!(hub.handle_event(0, &device_add()).is_none());
}

#[test]
fn dispatch_routes_network_events() {
    let config = test_config();
    let mut hub = Hub::init(config);
    let network = NetworkModule::create(hub.config.network.clone(), &vec![1, 2]).ok();
    hub.setup(network, None, None);

    let activated = PlatformEvent::Network {
        state_code: 100,
        ssid: String::from("home"),
        signal_strength: 70,
    };
    let n = hub.handle_event(0, &activated).unwrap();
    assert_eq!(n.app_name, "network_module");
    assert_eq!(n.body.as_deref(), Some("Connected to home"));

    let deactivating = PlatformEvent::Network {
        state_code: 110,
        ssid: String::from("home"),
        signal_strength: 70,
    };
    assert!(hub.handle_event(0, &deactivating).is_none());
}

#[test]
fn disabled_event_config_composes_nothing_through_dispatch() {
    let mut config = test_config();
    if let Some(section) = config.device.connected.as_mut() {
        section.enabled = false;
    }
    let mut hub = Hub::init(config);
    let device = Some(DeviceModule::create(hub.config.device.clone()));
    hub.setup(None, None, device);
    assert!(hub.handle_event(0, &device_add()).is_none());
}
