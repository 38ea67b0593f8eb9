//! Versioned settings documents: reading a stored JSON object with schema migration and
//! independent per-field fallback.
use crate::hotkey::{default_hotkey, parse_hotkey, parse_hotkey_spec, Hotkey};
use crate::monitor::{monitor_id_check, MonitorId};
use crate::ports::PortError;
use crate::settings::{default_settings, AppSettings, SettingsModel, SETTINGS_SCHEMA_VERSION};
use crate::text::str_eq;
use vstd::prelude::*;

verus! {

/// A JSON object member value as the settings reader sees it.
#[derive(Clone, Debug, PartialEq, Eq)]
pub enum JsonScalar {
    /// `true` or `false`.
    Bool(bool),
    /// A string.
    Text(String),
    /// A number, with its value when it is a non-negative integer that fits in 64 bits.
    Number(Option<u64>),
    /// `null`, an array or an object.
    Other,
}

/// A member value as plain values.
pub enum JsonValue {
    Bool(bool),
    Text(Seq<char>),
    Number(Option<u64>),
    Other,
}

impl View for JsonScalar {
    type V = JsonValue;

    open spec fn view(&self) -> JsonValue {
        match self {
            JsonScalar::Bool(b) => JsonValue::Bool(*b),
            JsonScalar::Text(t) => JsonValue::Text(t@),
            JsonScalar::Number(n) => JsonValue::Number(*n),
            JsonScalar::Other => JsonValue::Other,
        }
    }
}

/// Object members as plain values, in the order the parsed map yields them (sorted by key).
pub open spec fn members_view(fields: Seq<(String, JsonScalar)>) -> Seq<(Seq<char>, JsonValue)> {
    fields.map_values(|f: (String, JsonScalar)| (f.0@, f.1@))
}

/// What parsing the bytes as one JSON document gives: the parser's message when they are
/// not JSON, `None` when the document is not an object, else the object's members.
pub uninterp spec fn json_members(bytes: Seq<u8>) -> Result<Option<Seq<(Seq<char>, JsonValue)>>, Seq<char>>;

/// The view of what the JSON reader hands back.
pub open spec fn read_view(r: Result<Option<Vec<(String, JsonScalar)>>, String>) -> Result<
    Option<Seq<(Seq<char>, JsonValue)>>,
    Seq<char>,
> {
    match r {
        Ok(Some(fields)) => Ok(Some(members_view(fields@))),
        Ok(None) => Ok(None),
        Err(message) => Err(message@),
    }
}

/// Parses the bytes with `serde_json::from_slice` into a `serde_json::Value` and hands
/// back an object's members, each value reduced to what the settings reader looks at.
/// Trusted: the result is `json_members` of the bytes.
#[verifier::external_body]
fn read_json_members(bytes: &[u8]) -> (r: Result<Option<Vec<(String, JsonScalar)>>, String>)
    ensures
        read_view(r) == json_members(bytes@),
{
    match serde_json::from_slice::<serde_json::Value>(bytes) {
        Err(error) => Err(error.to_string()),
        Ok(serde_json::Value::Object(map)) => Ok(Some(map.into_iter().map(|(name, value)| (name, match value {
            serde_json::Value::Bool(b) => JsonScalar::Bool(b),
            serde_json::Value::String(t) => JsonScalar::Text(t),
            serde_json::Value::Number(n) => JsonScalar::Number(n.as_u64()),
            _ => JsonScalar::Other,
        })).collect())),
        Ok(_) => Ok(None),
    }
}

/// The value of the first member with this name, from position `i` on.
pub open spec fn member_from(fields: Seq<(Seq<char>, JsonValue)>, name: Seq<char>, i: int) -> Option<JsonValue>
    decreases fields.len() - i,
{
    if i < 0 || i >= fields.len() {
        None
    } else if fields[i].0 == name {
        Some(fields[i].1)
    } else {
        member_from(fields, name, i + 1)
    }
}

/// The value of the first member with this name.
pub open spec fn member(fields: Seq<(Seq<char>, JsonValue)>, name: Seq<char>) -> Option<JsonValue> {
    member_from(fields, name, 0)
}

/// A member's value when it is a boolean.
pub open spec fn bool_member(fields: Seq<(Seq<char>, JsonValue)>, name: Seq<char>) -> Option<bool> {
    match member(fields, name) {
        Some(JsonValue::Bool(b)) => Some(b),
        _ => None,
    }
}

/// A member's value when it is a string.
pub open spec fn text_member(fields: Seq<(Seq<char>, JsonValue)>, name: Seq<char>) -> Option<Seq<char>> {
    match member(fields, name) {
        Some(JsonValue::Text(t)) => Some(t),
        _ => None,
    }
}

/// The stored schema version: `schemaVersion` when it is an integer that fits in 32 bits,
/// else zero (a document from before versioning).
pub open spec fn stored_version(fields: Seq<(Seq<char>, JsonValue)>) -> u32 {
    match member(fields, "schemaVersion"@) {
        Some(JsonValue::Number(Some(n))) => if n <= u32::MAX {
            n as u32
        } else {
            0
        },
        _ => 0,
    }
}

/// A boolean preference: under its legacy name in a version-zero document, else under
/// its current name, then under its current name, then the default.
pub open spec fn flag(
    fields: Seq<(Seq<char>, JsonValue)>,
    legacy: bool,
    legacy_name: Seq<char>,
    name: Seq<char>,
    default: bool,
) -> bool {
    match bool_member(fields, if legacy { legacy_name } else { name }) {
        Some(b) => b,
        None => match bool_member(fields, name) {
            Some(b) => b,
            None => default,
        },
    }
}

/// The settings a stored object gives, each field falling back to its default on its own.
pub open spec fn settings_from_members(fields: Seq<(Seq<char>, JsonValue)>) -> SettingsModel {
    let legacy = stored_version(fields) == 0;
    let d = default_settings();
    SettingsModel {
        schema_version: SETTINGS_SCHEMA_VERSION,
        hotkey: match text_member(fields, "hotkey"@) {
            Some(t) => match parse_hotkey_spec(t) {
                Ok(h) => h,
                Err(_) => default_hotkey(),
            },
            None => default_hotkey(),
        },
        launch_at_startup: match bool_member(fields, "launchAtStartup"@) {
            Some(b) => b,
            None => d.launch_at_startup,
        },
        auto_open_safe_urls: flag(fields, legacy, "autoOpen"@, "autoOpenSafeUrls"@, d.auto_open_safe_urls),
        copy_non_url_payloads: flag(
            fields,
            legacy,
            "copyText"@,
            "copyNonUrlPayloads"@,
            d.copy_non_url_payloads,
        ),
        notifications_enabled: flag(
            fields,
            legacy,
            "notifications"@,
            "notificationsEnabled"@,
            d.notifications_enabled,
        ),
        scan_monitor_id: match text_member(fields, "scanMonitorId"@) {
            Some(t) => if monitor_id_check(t) is Ok {
                Some(t)
            } else {
                None
            },
            None => None,
        },
        onboarding_completed: match bool_member(fields, "onboardingCompleted"@) {
            Some(b) => b,
            None => d.onboarding_completed,
        },
    }
}

/// Reading a stored settings object keeps each stored value of the right type and falls
/// back, field by field, to the default for a missing or mistyped one: launch at sign-in
/// and the first-run flag default to off, the three behaviour switches to on (a document
/// from before versioning is read under their old names first), a hotkey that does not
/// parse becomes the default one, and an invalid display identifier is dropped.
pub proof fn lemma_stored_fields_kept_or_defaulted(fields: Seq<(Seq<char>, JsonValue)>)
    ensures
        ({
            let r = settings_from_members(fields);
            let legacy = stored_version(fields) == 0;
            &&& r.schema_version == SETTINGS_SCHEMA_VERSION
            &&& r.launch_at_startup == match member(fields, "launchAtStartup"@) {
                Some(JsonValue::Bool(b)) => b,
                _ => false,
            }
            &&& r.onboarding_completed == match member(fields, "onboardingCompleted"@) {
                Some(JsonValue::Bool(b)) => b,
                _ => false,
            }
            &&& !legacy ==> r.auto_open_safe_urls == match member(fields, "autoOpenSafeUrls"@) {
                Some(JsonValue::Bool(b)) => b,
                _ => true,
            }
            &&& !legacy ==> r.copy_non_url_payloads == match member(fields, "copyNonUrlPayloads"@) {
                Some(JsonValue::Bool(b)) => b,
                _ => true,
            }
            &&& !legacy ==> r.notifications_enabled == match member(fields, "notificationsEnabled"@) {
                Some(JsonValue::Bool(b)) => b,
                _ => true,
            }
            &&& legacy ==> r.auto_open_safe_urls == match member(fields, "autoOpen"@) {
                Some(JsonValue::Bool(b)) => b,
                _ => match member(fields, "autoOpenSafeUrls"@) {
                    Some(JsonValue::Bool(b)) => b,
                    _ => true,
                },
            }
            &&& r.hotkey == match member(fields, "hotkey"@) {
                Some(JsonValue::Text(t)) => match parse_hotkey_spec(t) {
                    Ok(h) => h,
                    Err(_) => default_hotkey(),
                },
                _ => default_hotkey(),
            }
            &&& r.scan_monitor_id == match member(fields, "scanMonitorId"@) {
                Some(JsonValue::Text(t)) => if monitor_id_check(t) is Ok {
                    Some(t)
                } else {
                    None
                },
                _ => None,
            }
        }),
{
}

/// Finds the first member with this name./// Finds the first member with this name.
fn find_member<'a>(fields: &'a [(String, JsonScalar)], name: &str) -> (r: Option<&'a JsonScalar>)
    ensures
        match r {
            Some(v) => member(members_view(fields@), name@) == Some(v@),
            None => member(members_view(fields@), name@) is None,
        },
{
    let ghost fv = members_view(fields@);
    let mut i: usize = 0;
    while i < fields.len()
        invariant
            i <= fields.len(),
            fv == members_view(fields@),
            member(fv, name@) == member_from(fv, name@, i as int),
        decreases fields.len() - i,
    {
        let (key, value) = &fields[i];
        if str_eq(key.as_str(), name) {
            return Some(value);
        }
        i = i + 1;
    }
    None
}

/// A member's value when it is a boolean.
fn bool_field(fields: &[(String, JsonScalar)], name: &str) -> (r: Option<bool>)
    ensures
        r == bool_member(members_view(fields@), name@),
{
    match find_member(fields, name) {
        Some(JsonScalar::Bool(b)) => Some(*b),
        _ => None,
    }
}

/// A member's value when it is a string.
fn text_field<'a>(fields: &'a [(String, JsonScalar)], name: &str) -> (r: Option<&'a String>)
    ensures
        match r {
            Some(t) => text_member(members_view(fields@), name@) == Some(t@),
            None => text_member(members_view(fields@), name@) is None,
        },
{
    match find_member(fields, name) {
        Some(JsonScalar::Text(t)) => Some(t),
        _ => None,
    }
}

/// A boolean preference under its legacy or current name, else its default.
fn flag_field(fields: &[(String, JsonScalar)], legacy: bool, legacy_name: &str, name: &str, default: bool) -> (r: bool)
    ensures
        r == flag(members_view(fields@), legacy, legacy_name@, name@, default),
{
    let first = if legacy {
        legacy_name
    } else {
        name
    };
    match bool_field(fields, first) {
        Some(b) => b,
        None => match bool_field(fields, name) {
            Some(b) => b,
            None => default,
        },
    }
}

/// Reads settings from a stored object's members, with migration of version-zero names
/// and independent per-field fallback. The flag is whether the document predates the
/// current schema and should be rewritten.
pub fn settings_from_fields(fields: &[(String, JsonScalar)]) -> (r: (AppSettings, bool))
    ensures
        r.0@ == settings_from_members(members_view(fields@)),
        r.1 == (stored_version(members_view(fields@)) < SETTINGS_SCHEMA_VERSION),
{
    let ghost fv = members_view(fields@);
    let defaults = AppSettings::default();
    let version: u32 = match find_member(fields, "schemaVersion") {
        Some(JsonScalar::Number(Some(n))) => if *n <= 0xffff_ffffu64 {
            *n as u32
        } else {
            0
        },
        _ => 0,
    };
    assert(version == stored_version(fv));
    let legacy = version == 0;
    let hotkey: Hotkey = match text_field(fields, "hotkey") {
        Some(t) => match parse_hotkey(t.as_str()) {
            Ok(h) => h,
            Err(_) => defaults.hotkey,
        },
        None => defaults.hotkey,
    };
    let launch_at_startup = match bool_field(fields, "launchAtStartup") {
        Some(b) => b,
        None => defaults.launch_at_startup,
    };
    let auto_open_safe_urls = flag_field(fields, legacy, "autoOpen", "autoOpenSafeUrls", defaults.auto_open_safe_urls);
    let copy_non_url_payloads = flag_field(
        fields,
        legacy,
        "copyText",
        "copyNonUrlPayloads",
        defaults.copy_non_url_payloads,
    );
    let notifications_enabled = flag_field(
        fields,
        legacy,
        "notifications",
        "notificationsEnabled",
        defaults.notifications_enabled,
    );
    let scan_monitor_id = match text_field(fields, "scanMonitorId") {
        Some(t) => match MonitorId::new(t.as_str()) {
            Ok(id) => Some(id),
            Err(_) => None,
        },
        None => None,
    };
    let onboarding_completed = match bool_field(fields, "onboardingCompleted") {
        Some(b) => b,
        None => defaults.onboarding_completed,
    };
    let settings = AppSettings {
        schema_version: SETTINGS_SCHEMA_VERSION,
        hotkey,
        launch_at_startup,
        auto_open_safe_urls,
        copy_non_url_payloads,
        notifications_enabled,
        scan_monitor_id,
        onboarding_completed,
    };
    (settings, version < SETTINGS_SCHEMA_VERSION)
}

/// Reads a stored settings document. Bytes that are not JSON are refused with the
/// parser's message; a document that is not an object gives the defaults. The flag is
/// whether the document should be rewritten in the current schema.
pub fn decode_settings(bytes: &[u8]) -> (r: Result<(AppSettings, bool), PortError>)
    ensures
        json_members(bytes@) matches Err(message) ==> (r matches Err(e) && e.spec_operation()
            == "settings_read"@ && e.spec_detail() == message),
        json_members(bytes@) == Ok::<Option<Seq<(Seq<char>, JsonValue)>>, Seq<char>>(None) ==> (r
            matches Ok((s, rewrite)) && s@ == default_settings() && !rewrite),
        json_members(bytes@) matches Ok(Some(fields)) ==> (r matches Ok((s, rewrite)) && s@
            == settings_from_members(fields) && rewrite == (stored_version(fields)
            < SETTINGS_SCHEMA_VERSION)),
{
    match read_json_members(bytes) {
        Err(message) => Err(PortError::new("settings_read", message.as_str())),
        Ok(None) => Ok((AppSettings::default(), false)),
        Ok(Some(fields)) => Ok(settings_from_fields(fields.as_slice())),
    }
}

} // verus!
