//! Loading and saving the settings file. The host performs the file-system
//! work; these functions decide what it does and what the caller gets back.
use vstd::prelude::*;
use crate::json::{Json, find_field};
use crate::settings::{
    HomeAssistantSettings, Settings, SettingsError, decode_home_assistant, decode_settings, is_default_settings, settings_document,
};

verus! {

/// The name of the settings file inside the per-user configuration directory.
pub fn settings_file_name() -> (r: String)
    ensures
        r@ == "settings.json"@,
{
    String::from_str("settings.json")
}

/// What a load must do before it reads the file.
#[derive(Clone, Copy, Debug, PartialEq, Eq, Structural)]
pub struct LoadPlan {
    /// Create the file's directory and all its ancestors.
    pub create_dir: bool,
    /// Write the default settings document to the file.
    pub write_defaults: bool,
}

pub open spec fn load_plan(dir_exists: bool, file_exists: bool) -> LoadPlan {
    LoadPlan { create_dir: !dir_exists, write_defaults: !file_exists }
}

/// Decides the preparation of a load from what exists on disk: a missing
/// directory is created, a missing file is written with the defaults, and an
/// existing file is never written.
pub fn plan_load(dir_exists: bool, file_exists: bool) -> (r: LoadPlan)
    ensures
        r == load_plan(dir_exists, file_exists),
{
    LoadPlan { create_dir: !dir_exists, write_defaults: !file_exists }
}

/// The document that a load writes when the file is missing.
pub fn default_document() -> (r: Json)
    ensures
        exists|s: Settings| is_default_settings(s) && settings_document(r, s),
{
    let s = Settings::default();
    let r = s.to_json();
    assert(is_default_settings(s) && settings_document(r, s));
    r
}

/// The result of a load, from the outcome of reading and parsing the file:
/// a read or parse failure, and a document that holds no settings record,
/// are both reported as corrupt.
pub fn finish_load(parsed: Result<Json, String>) -> (r: Result<Settings, SettingsError>)
    ensures
        parsed matches Err(m) ==> r == Err::<Settings, SettingsError>(
            SettingsError::ConfigCorrupt { message: m },
        ),
        parsed is Ok && decode_settings(parsed->Ok_0) is Ok ==> r == Ok::<Settings, SettingsError>(
            decode_settings(parsed->Ok_0)->Ok_0,
        ),
        parsed is Ok && decode_settings(parsed->Ok_0) is Err ==> (r matches Err(
            SettingsError::ConfigCorrupt { message },
        ) && message@ == decode_settings(parsed->Ok_0)->Err_0),
{
    match parsed {
        Ok(j) => Settings::from_json(&j),
        Err(message) => Err(SettingsError::ConfigCorrupt { message }),
    }
}

/// The result of a save, from the outcome of writing the file.
pub fn finish_save(written: Result<(), String>) -> (r: Result<(), SettingsError>)
    ensures
        written is Ok ==> r is Ok,
        written matches Err(m) ==> r == Err::<(), SettingsError>(
            SettingsError::ConfigWriteFailed { message: m },
        ),
{
    match written {
        Ok(()) => Ok(()),
        Err(message) => Err(SettingsError::ConfigWriteFailed { message }),
    }
}

/// Saving then loading gives back the settings that were saved: the
/// document written for `s` decodes to `s`.
pub proof fn lemma_save_load_round_trip(s: Settings, j: Json)
    requires
        settings_document(j, s),
    ensures
        decode_settings(j) == Ok::<Settings, Seq<char>>(s),
{
    reveal_with_fuel(find_field, 5);
    reveal_strlit("autostart");
    reveal_strlit("home_assistant");
    reveal_strlit("access_token");
    reveal_strlit("host");
    reveal_strlit("port");
    reveal_strlit("ssl");
    let f = j->Object_0@;
    let h = f[1].value;
    let g = h->Object_0@;
    assert(find_field(f, "autostart"@) == Some(f[0].value));
    assert(find_field(f, "home_assistant"@) == Some(h));
    assert(find_field(g, "ssl"@) == Some(g[3].value));
    assert(find_field(g, "port"@) == Some(g[2].value));
    assert("host"@[0] != "port"@[0]);
    assert("host"@.len() != "ssl"@.len());
    assert(find_field(g.drop_last().drop_last(), "host"@) == Some(g[1].value));
    assert(find_field(g, "host"@) == Some(g[1].value));
    assert(find_field(g.drop_last().drop_last().drop_last(), "access_token"@) == Some(
        g[0].value,
    ));
    assert(find_field(g.drop_last().drop_last(), "access_token"@) == Some(g[0].value));
    assert(find_field(g.drop_last(), "access_token"@) == Some(g[0].value));
    assert(find_field(g, "access_token"@) == Some(g[0].value));
    assert(decode_home_assistant(h) == Ok::<HomeAssistantSettings, Seq<char>>(s.home_assistant));
    assert(decode_settings(j) == Ok::<Settings, Seq<char>>(s));
}

/// Loading where the file is missing writes the default document, and the
/// load then returns the defaults.
pub proof fn lemma_default_synthesis(dir_exists: bool, s: Settings, j: Json)
    requires
        is_default_settings(s),
        settings_document(j, s),
    ensures
        load_plan(dir_exists, false).write_defaults,
        decode_settings(j) == Ok::<Settings, Seq<char>>(s),
{
    lemma_save_load_round_trip(s, j);
}

/// Loading where the file exists never writes it, whatever it holds, so a
/// corrupt file is reported (see `finish_load`) and left as it was.
pub proof fn lemma_existing_file_kept(dir_exists: bool)
    ensures
        !load_plan(dir_exists, true).write_defaults,
{
}

} // verus!
