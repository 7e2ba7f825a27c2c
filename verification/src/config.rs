//! Process configuration, assembled from raw environment values. Reading the
//! environment is the caller's business; the defaulting and validation rules
//! live here.

use vstd::prelude::*;

use crate::errors::AppError;
use crate::strings::{spec_lower, str_eq_lower};

verus! {

#[derive(Debug, Clone)]
pub struct Config {
    pub bind_address: String,
    pub firebase_project_id: String,
    pub plex_media_path: String,
    pub is_dev: bool,
    pub data_dir: String,
}

/// The value of an optional setting, or its default.
pub open spec fn spec_or_default(v: Option<String>, default: Seq<char>) -> Seq<char> {
    match v {
        Some(s) => s@,
        None => default,
    }
}

/// The development switch is on exactly when the variable reads `true`,
/// case-insensitively.
pub open spec fn spec_is_dev(v: Option<String>) -> bool {
    match v {
        Some(s) => spec_lower(s@) == "true"@,
        None => false,
    }
}

/// The default media path: a directory relative to the working tree on a
/// development machine, a fixed mount elsewhere.
pub open spec fn spec_default_media(on_macos: bool) -> Seq<char> {
    if on_macos {
        "./media"@
    } else {
        "/downloads"@
    }
}

pub open spec fn spec_default_data(on_macos: bool) -> Seq<char> {
    if on_macos {
        "./data"@
    } else {
        "/data"@
    }
}

/// Where the persisted user settings live for a given data directory.
pub open spec fn spec_settings_file_path(data_dir: Seq<char>) -> Seq<char> {
    data_dir + "/settings.json"@
}

pub fn settings_file_path(data_dir: &str) -> (r: String)
    ensures
        r@ == spec_settings_file_path(data_dir@),
{
    let mut s = String::from_str(data_dir);
    s.append("/settings.json");
    s
}

/// The folder form field, normalized: surrounding ASCII whitespace dropped,
/// and nothing at all when only whitespace remains.
pub open spec fn spec_normalize_folder(text: Seq<char>) -> Option<Seq<char>> {
    let st = crate::strings::spec_skip_ws(text, 0);
    if st >= text.len() {
        None
    } else {
        let en = crate::strings::spec_rskip_ws(text);
        Some(text.subrange(st, en))
    }
}

/// Normalize the folder form field.
pub fn normalize_folder(text: &str) -> (r: Option<String>)
    ensures
        match r {
            Some(f) => spec_normalize_folder(text@) == Some(f@),
            None => spec_normalize_folder(text@) is None,
        },
{
    let n = text.unicode_len();
    let st = crate::strings::skip_ws(text, 0);
    if st == n {
        return None;
    }
    let en = crate::strings::rskip_ws(text);
    proof {
        crate::strings::lemma_skip_ws_props(text@, 0);
        crate::strings::lemma_rskip_ws_props(text@);
    }
    Some(String::from_str(text.substring_char(st, en)))
}

impl Config {
    /// Assemble the configuration from the raw environment values. The
    /// project id is required; everything else has a default. Fails exactly
    /// when the project id is absent.
    pub fn from_parts(
        bind_address: Option<String>,
        firebase_project_id: Option<String>,
        plex_media_path: Option<String>,
        is_dev_var: Option<String>,
        data_dir: Option<String>,
        on_macos: bool,
    ) -> (r: Result<Config, AppError>)
        ensures
            match r {
                Ok(c) => firebase_project_id matches Some(p) && c.firebase_project_id@ == p@
                    && c.bind_address@ == spec_or_default(bind_address, "0.0.0.0:3029"@)
                    && c.plex_media_path@ == spec_or_default(
                    plex_media_path,
                    spec_default_media(on_macos),
                ) && c.is_dev == spec_is_dev(is_dev_var) && c.data_dir@ == spec_or_default(
                    data_dir,
                    spec_default_data(on_macos),
                ),
                Err(e) => firebase_project_id is None && (e matches AppError::ConfigError(m)
                    && m@ == "FIREBASE_PROJECT_ID environment variable is required"@),
            },
    {
        let firebase_project_id = match firebase_project_id {
            Some(p) => p,
            None => {
                return Err(
                    AppError::ConfigError(
                        String::from_str("FIREBASE_PROJECT_ID environment variable is required"),
                    ),
                );
            },
        };
        let bind_address = match bind_address {
            Some(b) => b,
            None => String::from_str("0.0.0.0:3029"),
        };
        let plex_media_path = match plex_media_path {
            Some(p) => p,
            None => if on_macos {
                String::from_str("./media")
            } else {
                String::from_str("/downloads")
            },
        };
        let is_dev = match &is_dev_var {
            Some(v) => str_eq_lower(v.as_str(), "true"),
            None => false,
        };
        let data_dir = match data_dir {
            Some(d) => d,
            None => if on_macos {
                String::from_str("./data")
            } else {
                String::from_str("/data")
            },
        };
        Ok(Config { bind_address, firebase_project_id, plex_media_path, is_dev, data_dir })
    }
}

} // verus!
