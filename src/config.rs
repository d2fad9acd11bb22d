//! Runtime settings and their defaults.
use vstd::prelude::*;

verus! {

#[derive(Clone, Debug)]
pub struct Config {
    pub max_workers: usize,
    pub max_daily_per_sender: i64,
    pub proxy_check_interval_secs: u64,
    /// `smooth` or `stealth`.
    pub traffic_strategy: String,
}

impl Default for Config {
    fn default() -> (r: Config)
        ensures
            r.max_workers == 5,
            r.max_daily_per_sender == 500,
            r.proxy_check_interval_secs == 30,
            r.traffic_strategy@ == "smooth"@,
    {
        Config {
            max_workers: 5,
            max_daily_per_sender: 500,
            proxy_check_interval_secs: 30,
            traffic_strategy: String::from_str("smooth"),
        }
    }
}

} // verus!
