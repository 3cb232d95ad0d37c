//! The persisted settings record: its JSON document, the decoding of a
//! document read back, and the decisions of loading and saving.
use vstd::prelude::*;
use crate::json::{Json, JsonField, field, find_field, get_field};

verus! {

/// Connection details of the Home Assistant instance; opaque to the shell.
#[derive(Clone, Debug, PartialEq, Eq)]
pub struct HomeAssistantSettings {
    pub access_token: String,
    pub host: String,
    pub port: u16,
    pub ssl: bool,
}

/// The persisted settings record.
#[derive(Clone, Debug, PartialEq, Eq)]
pub struct Settings {
    pub autostart: bool,
    pub home_assistant: HomeAssistantSettings,
}

/// Why a settings operation failed.
#[derive(Clone, Debug, PartialEq, Eq)]
pub enum SettingsError {
    /// The settings file could not be read, or does not hold a settings record.
    ConfigCorrupt { message: String },
    /// The settings file could not be written.
    ConfigWriteFailed { message: String },
}

impl SettingsError {
    /// The human-readable description of the failure.
    pub fn message(&self) -> (r: String)
        ensures
            self matches SettingsError::ConfigCorrupt { message } ==> r == message,
            self matches SettingsError::ConfigWriteFailed { message } ==> r == message,
    {
        match self {
            SettingsError::ConfigCorrupt { message } => message.clone(),
            SettingsError::ConfigWriteFailed { message } => message.clone(),
        }
    }
}

/// The documented defaults.
pub open spec fn is_default_settings(s: Settings) -> bool {
    &&& !s.autostart
    &&& s.home_assistant.access_token@ == ""@
    &&& s.home_assistant.host@ == "homeassistant.local"@
    &&& s.home_assistant.port == 8123
    &&& !s.home_assistant.ssl
}

impl Default for Settings {
    fn default() -> (r: Settings)
        ensures
            is_default_settings(r),
    {
        Settings {
            autostart: false,
            home_assistant: HomeAssistantSettings {
                access_token: String::from_str(""),
                host: String::from_str("homeassistant.local"),
                port: 8123,
                ssl: false,
            },
        }
    }
}

/// `j` is the document that stores `h`.
pub open spec fn home_assistant_document(j: Json, h: HomeAssistantSettings) -> bool {
    match j {
        Json::Object(f) => {
            &&& f@.len() == 4
            &&& f@[0].key@ == "access_token"@
            &&& f@[0].value == Json::Str(h.access_token)
            &&& f@[1].key@ == "host"@
            &&& f@[1].value == Json::Str(h.host)
            &&& f@[2].key@ == "port"@
            &&& f@[2].value == Json::UInt(h.port as u64)
            &&& f@[3].key@ == "ssl"@
            &&& f@[3].value == Json::Bool(h.ssl)
        },
        _ => false,
    }
}

/// `j` is the document that stores `s`.
pub open spec fn settings_document(j: Json, s: Settings) -> bool {
    match j {
        Json::Object(f) => {
            &&& f@.len() == 2
            &&& f@[0].key@ == "autostart"@
            &&& f@[0].value == Json::Bool(s.autostart)
            &&& f@[1].key@ == "home_assistant"@
            &&& home_assistant_document(f@[1].value, s.home_assistant)
        },
        _ => false,
    }
}

/// The message for a member that is absent or of the wrong kind.
pub open spec fn field_error(key: Seq<char>) -> Seq<char> {
    "missing or invalid field `"@ + key + "`"@
}

/// The message for a document that is not an object.
pub open spec fn not_object_error() -> Seq<char> {
    "the settings document is not a JSON object"@
}

pub open spec fn bool_of(v: Option<Json>) -> Option<bool> {
    match v {
        Some(Json::Bool(b)) => Some(b),
        _ => None,
    }
}

pub open spec fn text_of(v: Option<Json>) -> Option<String> {
    match v {
        Some(Json::Str(s)) => Some(s),
        _ => None,
    }
}

pub open spec fn port_of(v: Option<Json>) -> Option<u16> {
    match v {
        Some(Json::UInt(n)) => if n <= u16::MAX {
            Some(n as u16)
        } else {
            None
        },
        _ => None,
    }
}

/// Reads the `home_assistant` member. Unknown members are ignored.
pub open spec fn decode_home_assistant(j: Json) -> Result<HomeAssistantSettings, Seq<char>> {
    match j {
        Json::Object(fields) => {
            let f = fields@;
            match text_of(find_field(f, "access_token"@)) {
                None => Err(field_error("access_token"@)),
                Some(access_token) => match text_of(find_field(f, "host"@)) {
                    None => Err(field_error("host"@)),
                    Some(host) => match port_of(find_field(f, "port"@)) {
                        None => Err(field_error("port"@)),
                        Some(port) => match bool_of(find_field(f, "ssl"@)) {
                            None => Err(field_error("ssl"@)),
                            Some(ssl) => Ok(HomeAssistantSettings { access_token, host, port, ssl }),
                        },
                    },
                },
            }
        },
        _ => Err(field_error("home_assistant"@)),
    }
}

/// Reads a settings document. Unknown members are ignored.
pub open spec fn decode_settings(j: Json) -> Result<Settings, Seq<char>> {
    match j {
        Json::Object(fields) => match bool_of(find_field(fields@, "autostart"@)) {
            None => Err(field_error("autostart"@)),
            Some(autostart) => match find_field(fields@, "home_assistant"@) {
                None => Err(field_error("home_assistant"@)),
                Some(h) => match decode_home_assistant(h) {
                    Ok(home_assistant) => Ok(Settings { autostart, home_assistant }),
                    Err(m) => Err(m),
                },
            },
        },
        _ => Err(not_object_error()),
    }
}

fn invalid_field(key: &str) -> (r: String)
    ensures
        r@ == field_error(key@),
{
    let mut m = String::from_str("missing or invalid field `");
    m.append(key);
    m.append("`");
    m
}

fn bool_field(fields: &Vec<JsonField>, key: &str) -> (r: Result<bool, String>)
    ensures
        bool_of(find_field(fields@, key@)) matches Some(b) ==> r == Ok::<bool, String>(b),
        bool_of(find_field(fields@, key@)) is None ==> (r matches Err(m) && m@ == field_error(
            key@,
        )),
{
    let k = String::from_str(key);
    match get_field(fields, &k) {
        Some(v) => match v {
            Json::Bool(b) => Ok(*b),
            _ => Err(invalid_field(key)),
        },
        None => Err(invalid_field(key)),
    }
}

fn text_field(fields: &Vec<JsonField>, key: &str) -> (r: Result<String, String>)
    ensures
        text_of(find_field(fields@, key@)) matches Some(s) ==> r == Ok::<String, String>(s),
        text_of(find_field(fields@, key@)) is None ==> (r matches Err(m) && m@ == field_error(
            key@,
        )),
{
    let k = String::from_str(key);
    match get_field(fields, &k) {
        Some(v) => match v {
            Json::Str(s) => Ok(s.clone()),
            _ => Err(invalid_field(key)),
        },
        None => Err(invalid_field(key)),
    }
}

fn port_field(fields: &Vec<JsonField>, key: &str) -> (r: Result<u16, String>)
    ensures
        port_of(find_field(fields@, key@)) matches Some(p) ==> r == Ok::<u16, String>(p),
        port_of(find_field(fields@, key@)) is None ==> (r matches Err(m) && m@ == field_error(
            key@,
        )),
{
    let k = String::from_str(key);
    match get_field(fields, &k) {
        Some(v) => match v {
            Json::UInt(n) => if *n <= 65535 {
                Ok(*n as u16)
            } else {
                Err(invalid_field(key))
            },
            _ => Err(invalid_field(key)),
        },
        None => Err(invalid_field(key)),
    }
}

fn read_home_assistant(j: &Json) -> (r: Result<HomeAssistantSettings, String>)
    ensures
        decode_home_assistant(*j) matches Ok(h) ==> r == Ok::<HomeAssistantSettings, String>(h),
        decode_home_assistant(*j) matches Err(m) ==> (r matches Err(e) && e@ == m),
{
    match j {
        Json::Object(f) => {
            let access_token = match text_field(f, "access_token") {
                Ok(t) => t,
                Err(e) => return Err(e),
            };
            let host = match text_field(f, "host") {
                Ok(t) => t,
                Err(e) => return Err(e),
            };
            let port = match port_field(f, "port") {
                Ok(p) => p,
                Err(e) => return Err(e),
            };
            let ssl = match bool_field(f, "ssl") {
                Ok(b) => b,
                Err(e) => return Err(e),
            };
            Ok(HomeAssistantSettings { access_token, host, port, ssl })
        },
        _ => Err(invalid_field("home_assistant")),
    }
}

impl Settings {
    /// The document that stores these settings.
    pub fn to_json(&self) -> (r: Json)
        ensures
            settings_document(r, *self),
    {
        let h = &self.home_assistant;
        let mut inner: Vec<JsonField> = Vec::new();
        inner.push(field("access_token", Json::Str(h.access_token.clone())));
        inner.push(field("host", Json::Str(h.host.clone())));
        inner.push(field("port", Json::UInt(h.port as u64)));
        inner.push(field("ssl", Json::Bool(h.ssl)));
        let mut outer: Vec<JsonField> = Vec::new();
        outer.push(field("autostart", Json::Bool(self.autostart)));
        outer.push(field("home_assistant", Json::Object(inner)));
        Json::Object(outer)
    }

    /// Reads settings back from a document; one that does not hold a
    /// settings record is reported as corrupt.
    pub fn from_json(j: &Json) -> (r: Result<Settings, SettingsError>)
        ensures
            decode_settings(*j) matches Ok(s) ==> r == Ok::<Settings, SettingsError>(s),
            decode_settings(*j) matches Err(m) ==> (r matches Err(
                SettingsError::ConfigCorrupt { message },
            ) && message@ == m),
    {
        match j {
            Json::Object(f) => {
                let autostart = match bool_field(f, "autostart") {
                    Ok(b) => b,
                    Err(message) => return Err(SettingsError::ConfigCorrupt { message }),
                };
                let key = String::from_str("home_assistant");
                match get_field(f, &key) {
                    Some(h) => match read_home_assistant(h) {
                        Ok(home_assistant) => Ok(Settings { autostart, home_assistant }),
                        Err(message) => Err(SettingsError::ConfigCorrupt { message }),
                    },
                    None => Err(
                        SettingsError::ConfigCorrupt { message: invalid_field("home_assistant") },
                    ),
                }
            },
            _ => Err(
                SettingsError::ConfigCorrupt {
                    message: String::from_str("the settings document is not a JSON object"),
                },
            ),
        }
    }
}

} // verus!
