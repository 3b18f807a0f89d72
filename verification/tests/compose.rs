use noti::config::{EventConfig, TextConfig};
use noti::notification::{ComposeNotification, NotificationData};

fn text(format: &str) -> Option<TextConfig> {
    Some(TextConfig { format: Some(String::from(format)) })
}

fn device_data(name: &str) -> NotificationData {
    NotificationData::Device { name: String::from(name) }
}

#[test]
fn disabled_config_composes_nothing() {
    let cfg = EventConfig {
        enabled: false,
        icon: Some(String::from("icon.png")),
        summary: text("Summary $name"),
        body: text("Body $name"),
        replace: Some(true),
    };
    assert!(cfg.compose_notification(device_data("Acme Widget")).is_none());
    let network = NotificationData::Network { ssid: String::from("home"), signal_strength: 9 };
    assert!(cfg.compose_notification(network).is_none());
    let power = NotificationData::Power { percentage: 50, charging: String::from("Charging") };
    assert!(cfg.compose_notification(power).is_none());
    let custom =
        NotificationData::Custom { name: String::from("mine"), value: String::from("v") };
    assert!(cfg.compose_notification(custom).is_none());
}

#[test]
fn compose_twice_yields_identical_output() {
    let cfg = EventConfig {
        enabled: true,
        icon: Some(String::from("battery.svg")),
        summary: text("Power $percentage%"),
        body: text("now $charging"),
        replace: None,
    };
    let data = || NotificationData::Power { percentage: 42, charging: String::from("Charging") };
    let first = cfg.compose_notification(data()).unwrap();
    let second = cfg.compose_notification(data()).unwrap();
    assert_eq!(first.app_name, second.app_name);
    assert_eq!(first.icon, second.icon);
    assert_eq!(first.summary, second.summary);
    assert_eq!(first.body, second.body);
    assert_eq!(first.summary.as_deref(), Some("Power 42%"));
    assert_eq!(first.body.as_deref(), Some("now Charging"));
}

#[test]
fn device_connected_scenario() {
    let cfg = EventConfig {
        enabled: true,
        icon: None,
        summary: text("Device"),
        body: text("Connected: $name"),
        replace: Some(true),
    };
    let n = cfg.compose_notification(device_data("Acme Widget")).unwrap();
    assert_eq!(n.app_name, "device_module");
    assert_eq!(n.icon, None);
    assert_eq!(n.summary.as_deref(), Some("Device"));
    assert_eq!(n.body.as_deref(), Some("Connected: Acme Widget"));
}

#[test]
fn icon_attached_verbatim() {
    let cfg = EventConfig {
        enabled: true,
        icon: Some(String::from("../no/validation/of paths")),
        summary: None,
        body: None,
        replace: None,
    };
    let n = cfg.compose_notification(device_data("x")).unwrap();
    assert_eq!(n.icon.as_deref(), Some("../no/validation/of paths"));
    assert_eq!(n.summary, None);
    assert_eq!(n.body, None);
}

#[test]
fn missing_format_contributes_nothing() {
    let cfg = EventConfig {
        enabled: true,
        icon: None,
        summary: Some(TextConfig { format: None }),
        body: None,
        replace: None,
    };
    let n = cfg.compose_notification(device_data("x")).unwrap();
    assert_eq!(n.summary, None);
    assert_eq!(n.body, None);
}

#[test]
fn app_name_per_variant() {
    let network = NotificationData::Network { ssid: String::from("s"), signal_strength: 0 };
    let power = NotificationData::Power { percentage: 1, charging: String::from("c") };
    let device = device_data("d");
    let custom =
        NotificationData::Custom { name: String::from("my_module"), value: String::from("v") };
    assert_eq!(noti::notification::get_app_name(&network), "network_module");
    assert_eq!(noti::notification::get_app_name(&power), "power_module");
    assert_eq!(noti::notification::get_app_name(&device), "device_module");
    assert_eq!(noti::notification::get_app_name(&custom), "my_module");
}

#[test]
fn default_config_matches_documented_defaults() {
    let cfg = noti::config::Config::default();
    let wifi = cfg.network.wifi.unwrap();
    let connected = wifi.connected.unwrap();
    assert!(connected.enabled);
    assert_eq!(connected.summary.unwrap().format.as_deref(), Some("Network"));
    assert_eq!(connected.body.unwrap().format.as_deref(), Some("Connected to $ssid"));
    assert_eq!(connected.replace, Some(true));
    assert!(wifi.disconnected.is_none());
    assert_eq!(wifi.show_signal_strength, Some(false));
    assert_eq!(wifi.show_ssid, Some(true));
    assert!(cfg.network.ethernet.is_none());
    let charging = cfg.power.charging.unwrap();
    assert!(!charging.enabled);
    assert_eq!(charging.summary.unwrap().format.as_deref(), Some("$charging"));
    assert!(charging.body.is_none());
    assert!(cfg.power.battery_level.is_none());
    let device = cfg.device.connected.unwrap();
    assert!(device.enabled);
    assert_eq!(device.summary.unwrap().format.as_deref(), Some("Device"));
    assert_eq!(device.body.unwrap().format.as_deref(), Some("Connected: $name"));
    assert!(cfg.device.disconnected.is_none());
    assert!(cfg.custom.is_empty());
}
