//! Composing display-ready notifications from typed event payloads.
//!
//! [`ComposeNotification::compose_notification`] is a pure function
//! from per-event configuration and payload to an optional rendered
//! notification: nothing is composed when the configuration is
//! disabled, and template rendering substitutes only the keys the
//! payload variant recognizes, leaving all other text verbatim.

use vstd::prelude::*;

use crate::config::EventConfig;
use crate::text::lemma_replace_identity;
use crate::text::lemma_replace_skip_clean_prefix;
use crate::text::lemma_replace_whole;
use crate::text::replace_all;
use crate::text::spec_replace;
use crate::text::spec_u8_string;
use crate::text::u8_to_string;

verus! {

/// A rendered, display-ready notification record. It has no identity
/// beyond the moment it is handed to the display collaborator.
pub struct Notification {
    pub app_name: String,
    pub icon: Option<String>,
    pub summary: Option<String>,
    pub body: Option<String>,
}

/// The mathematical content of a [`Notification`].
pub struct NotificationView {
    pub app_name: Seq<char>,
    pub icon: Option<Seq<char>>,
    pub summary: Option<Seq<char>>,
    pub body: Option<Seq<char>>,
}

impl View for Notification {
    type V = NotificationView;

    open spec fn view(&self) -> NotificationView {
        NotificationView {
            app_name: self.app_name@,
            icon: match self.icon {
                Some(i) => Some(i@),
                None => None,
            },
            summary: match self.summary {
                Some(s) => Some(s@),
                None => None,
            },
            body: match self.body {
                Some(b) => Some(b@),
                None => None,
            },
        }
    }
}

/// The content of an optional notification.
pub open spec fn option_view(r: Option<Notification>) -> Option<NotificationView> {
    match r {
        Some(n) => Some(n@),
        None => None,
    }
}

/// One typed event payload, as the composer consumes it.
pub enum NotificationData {
    Network { ssid: String, signal_strength: u8 },
    Power { percentage: u8, charging: String },
    Device { name: String },
    Custom { name: String, value: String },
}

/// The mathematical content of a [`NotificationData`] payload.
pub enum NotificationDataView {
    Network { ssid: Seq<char>, signal_strength: u8 },
    Power { percentage: u8, charging: Seq<char> },
    Device { name: Seq<char> },
    Custom { name: Seq<char>, value: Seq<char> },
}

impl View for NotificationData {
    type V = NotificationDataView;

    open spec fn view(&self) -> NotificationDataView {
        match self {
            NotificationData::Network { ssid, signal_strength } => NotificationDataView::Network {
                ssid: ssid@,
                signal_strength: *signal_strength,
            },
            NotificationData::Power { percentage, charging } => NotificationDataView::Power {
                percentage: *percentage,
                charging: charging@,
            },
            NotificationData::Device { name } => NotificationDataView::Device { name: name@ },
            NotificationData::Custom { name, value } => NotificationDataView::Custom {
                name: name@,
                value: value@,
            },
        }
    }
}

/// The application name attached to a notification: a fixed string per
/// source kind, or the user-supplied name for a custom event.
pub open spec fn spec_app_name(data: NotificationDataView) -> Seq<char> {
    match data {
        NotificationDataView::Network { .. } => "network_module"@,
        NotificationDataView::Power { .. } => "power_module"@,
        NotificationDataView::Device { .. } => "device_module"@,
        NotificationDataView::Custom { name, .. } => name,
    }
}

/// Template rendering: only the keys of the payload's variant are
/// substituted, each by a literal string replace; every other token
/// passes through unchanged.
pub open spec fn spec_render(t: Seq<char>, data: NotificationDataView) -> Seq<char> {
    match data {
        NotificationDataView::Network { ssid, signal_strength } => spec_replace(
            spec_replace(t, "$ssid"@, ssid),
            "$signal_strength"@,
            spec_u8_string(signal_strength),
        ),
        NotificationDataView::Power { percentage, charging } => spec_replace(
            spec_replace(t, "$percentage"@, spec_u8_string(percentage)),
            "$charging"@,
            charging,
        ),
        NotificationDataView::Device { name } => spec_replace(t, "$name"@, name),
        NotificationDataView::Custom { name: _, value } => spec_replace(t, "$value"@, value),
    }
}

/// The notification composed for `data` under `cfg`: nothing when
/// disabled; otherwise the per-variant application name, the icon
/// verbatim, and each configured template rendered against the
/// payload. A field with no configured format contributes nothing.
pub open spec fn spec_compose(cfg: EventConfig, data: NotificationDataView) -> Option<
    NotificationView,
> {
    if !cfg.enabled {
        None
    } else {
        Some(
            NotificationView {
                app_name: spec_app_name(data),
                icon: match cfg.icon {
                    Some(i) => Some(i@),
                    None => None,
                },
                summary: match cfg.summary {
                    Some(t) => match t.format {
                        Some(f) => Some(spec_render(f@, data)),
                        None => None,
                    },
                    None => None,
                },
                body: match cfg.body {
                    Some(t) => match t.format {
                        Some(f) => Some(spec_render(f@, data)),
                        None => None,
                    },
                    None => None,
                },
            },
        )
    }
}

/// Renders `template` against `event_data`, substituting every
/// occurrence of each key the variant recognizes and keeping all
/// other text, a literal `$` included, verbatim.
pub fn replace_template_variables(template: &str, event_data: &NotificationData) -> (r: String)
    ensures
        r@ == spec_render(template@, event_data@),
{
    match event_data {
        NotificationData::Network { ssid, signal_strength } => {
            proof {
                reveal_strlit("$ssid");
                reveal_strlit("$signal_strength");
            }
            let step = replace_all(template, "$ssid", ssid.as_str());
            let rendered = u8_to_string(*signal_strength);
            replace_all(step.as_str(), "$signal_strength", rendered.as_str())
        },
        NotificationData::Power { percentage, charging } => {
            proof {
                reveal_strlit("$percentage");
                reveal_strlit("$charging");
            }
            let rendered = u8_to_string(*percentage);
            let step = replace_all(template, "$percentage", rendered.as_str());
            replace_all(step.as_str(), "$charging", charging.as_str())
        },
        NotificationData::Device { name } => {
            proof {
                reveal_strlit("$name");
            }
            replace_all(template, "$name", name.as_str())
        },
        NotificationData::Custom { name: _, value } => {
            proof {
                reveal_strlit("$value");
            }
            replace_all(template, "$value", value.as_str())
        },
    }
}

/// The application name for `event_data`, as `spec_app_name` states.
pub fn get_app_name<'a>(event_data: &'a NotificationData) -> (r: &'a str)
    ensures
        r@ == spec_app_name(event_data@),
{
    match event_data {
        NotificationData::Network { .. } => "network_module",
        NotificationData::Power { .. } => "power_module",
        NotificationData::Device { .. } => "device_module",
        NotificationData::Custom { name, .. } => name.as_str(),
    }
}

/// The capability of per-event configuration to compose notifications.
pub trait ComposeNotification {
    /// The notification this configuration composes for `data`.
    spec fn compose_spec(&self, data: NotificationDataView) -> Option<NotificationView>;

    /// Composes the notification for `data`. A pure function of the
    /// configuration and the payload: the result's content is exactly
    /// `compose_spec`, so identical inputs yield identical output.
    fn compose_notification(&self, data: NotificationData) -> (r: Option<Notification>)
        ensures
            option_view(r) == self.compose_spec(data@),
    ;
}

impl ComposeNotification for EventConfig {
    open spec fn compose_spec(&self, data: NotificationDataView) -> Option<NotificationView> {
        spec_compose(*self, data)
    }

    fn compose_notification(&self, data: NotificationData) -> (r: Option<Notification>) {
        if !self.enabled {
            return None;
        }
        let app_name = String::from_str(get_app_name(&data));
        let icon = match &self.icon {
            Some(i) => Some(i.clone()),
            None => None,
        };
        let summary = match &self.summary {
            Some(text) => match &text.format {
                Some(f) => Some(replace_template_variables(f.as_str(), &data)),
                None => None,
            },
            None => None,
        };
        let body = match &self.body {
            Some(text) => match &text.format {
                Some(f) => Some(replace_template_variables(f.as_str(), &data)),
                None => None,
            },
            None => None,
        };
        Some(Notification { app_name, icon, summary, body })
    }
}

/// A disabled configuration composes nothing, whatever the payload
/// and the templates hold.
pub proof fn lemma_disabled_composes_nothing(cfg: EventConfig, data: NotificationDataView)
    requires
        !cfg.enabled,
    ensures
        spec_compose(cfg, data) is None,
{
}

/// The identity law: a template with no `$` token renders unchanged,
/// for every payload variant.
pub proof fn lemma_render_identity(t: Seq<char>, data: NotificationDataView)
    requires
        forall|i: int| 0 <= i < t.len() ==> t[i] != '$',
    ensures
        spec_render(t, data) == t,
{
    match data {
        NotificationDataView::Network { ssid, signal_strength } => {
            reveal_strlit("$ssid");
            reveal_strlit("$signal_strength");
            lemma_replace_identity(t, "$ssid"@, ssid);
            lemma_replace_identity(t, "$signal_strength"@, spec_u8_string(signal_strength));
        },
        NotificationDataView::Power { percentage, charging } => {
            reveal_strlit("$percentage");
            reveal_strlit("$charging");
            lemma_replace_identity(t, "$percentage"@, spec_u8_string(percentage));
            lemma_replace_identity(t, "$charging"@, charging);
        },
        NotificationDataView::Device { name } => {
            reveal_strlit("$name");
            lemma_replace_identity(t, "$name"@, name);
        },
        NotificationDataView::Custom { name: _, value } => {
            reveal_strlit("$value");
            lemma_replace_identity(t, "$value"@, value);
        },
    }
}

/// A decimal rendering never holds a `$`, so substituting a number
/// introduces no further key occurrence.
proof fn lemma_u8_string_no_dollar(n: u8)
    ensures
        forall|i: int| 0 <= i < spec_u8_string(n).len() ==> spec_u8_string(n)[i] != '$',
{
}

/// A template that is exactly `$name` renders, for a device payload,
/// to the device name alone: the occurrence is substituted.
pub proof fn lemma_render_name_key(name: Seq<char>)
    ensures
        spec_render("$name"@, NotificationDataView::Device { name }) == name,
{
    reveal_strlit("$name");
    lemma_replace_whole("$name"@, name);
}

/// A device template of literal text holding no `$`, followed by the
/// `$name` key, renders to the text followed by the name: the key
/// occurrence after the literal prefix is still substituted.
pub proof fn lemma_render_prefixed_name_key(prefix: Seq<char>, name: Seq<char>)
    requires
        forall|i: int| 0 <= i < prefix.len() ==> prefix[i] != '$',
    ensures
        spec_render(prefix + "$name"@, NotificationDataView::Device { name }) == prefix + name,
{
    reveal_strlit("$name");
    lemma_replace_skip_clean_prefix(prefix, "$name"@, "$name"@, name);
    lemma_replace_whole("$name"@, name);
}

/// A template that is exactly `$value` renders, for a custom payload,
/// to the value alone.
pub proof fn lemma_render_value_key(name: Seq<char>, value: Seq<char>)
    ensures
        spec_render("$value"@, NotificationDataView::Custom { name, value }) == value,
{
    reveal_strlit("$value");
    lemma_replace_whole("$value"@, value);
}

/// A template that is exactly `$ssid` renders, for a network payload
/// whose network name holds no `$`, to that name alone.
pub proof fn lemma_render_ssid_key(ssid: Seq<char>, signal_strength: u8)
    requires
        forall|i: int| 0 <= i < ssid.len() ==> ssid[i] != '$',
    ensures
        spec_render("$ssid"@, NotificationDataView::Network { ssid, signal_strength }) == ssid,
{
    reveal_strlit("$ssid");
    reveal_strlit("$signal_strength");
    lemma_replace_whole("$ssid"@, ssid);
    lemma_replace_identity(ssid, "$signal_strength"@, spec_u8_string(signal_strength));
}

/// A template that is exactly `$percentage` renders, for a power
/// payload, to the decimal percentage alone.
pub proof fn lemma_render_percentage_key(percentage: u8, charging: Seq<char>)
    ensures
        spec_render("$percentage"@, NotificationDataView::Power { percentage, charging })
            == spec_u8_string(percentage),
{
    reveal_strlit("$percentage");
    reveal_strlit("$charging");
    lemma_replace_whole("$percentage"@, spec_u8_string(percentage));
    lemma_u8_string_no_dollar(percentage);
    lemma_replace_identity(spec_u8_string(percentage), "$charging"@, charging);
}

/// A template that is exactly `$charging` renders, for a power
/// payload, to the charging text alone: the 9-character template is
/// shorter than `$percentage`, so only the second substitution fires.
pub proof fn lemma_render_charging_key(percentage: u8, charging: Seq<char>)
    ensures
        spec_render("$charging"@, NotificationDataView::Power { percentage, charging })
            == charging,
{
    reveal_strlit("$percentage");
    reveal_strlit("$charging");
    lemma_replace_whole("$charging"@, charging);
}

} // verus!
