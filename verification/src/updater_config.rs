//! Settings of the timetable (Fahrplan) updater.

use vstd::prelude::*;

verus! {

/// Settings of the timetable updater.
#[derive(Clone, Debug)]
pub struct Config {
    pub bucket_name: String,
    pub service_account_key_path: String,
    pub username: String,
    pub password: String,
    pub base_url: Option<String>,
    pub update_timeout_ms: Option<u32>,
    pub update_retries: Option<u32>,
}

impl Config {
    /// The name the updater's settings are found under.
    pub fn crate_name() -> (res: &'static str)
        ensures
            res@ == "tspl-fahrplan-updater"@,
    {
        "tspl-fahrplan-updater"
    }
}

} // verus!
