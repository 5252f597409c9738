//! The settings of the controller and the endpoints of the light.

use vstd::prelude::*;
use vstd::string::*;

verus! {

/// How a preset dimming step scales the level. No rule reads it yet.
#[derive(Clone, Copy, Debug, PartialEq, Eq, Structural)]
pub enum DimMode {
    Log10,
    Log2,
    Linear,
}

/// The settings, loaded once per run.
#[derive(Debug, PartialEq, Eq)]
pub struct Config {
    pub default_dim_mode: DimMode,
    pub default_dim_steps: u8,
    /// The base of the light's HTTP interface, without a trailing slash.
    pub api_url: String,
    pub led_max_dim_value: u16,
}

/// The directory, below the user's config directory, that holds the config
/// file.
pub const CONFIG_DIR_NAME: &'static str = "blights";

/// The name of the config file.
pub const CONFIG_FILE_NAME: &'static str = "config.toml";

/// The text of the config file that is written where none exists yet. It
/// spells out the settings of `Config::default()`.
pub const DEFAULT_CONFIG: &'static str = "\n        default_dim_mode = \"Log10\"\
    \n        default_dim_steps = 1\
    \n        api_url = \"http://192.168.1.81/api/v1\"\
    \n        led_max_dim_value = 1023\
    \n    ";

/// The address of an endpoint: the base followed by the endpoint's path.
pub open spec fn endpoint(api_url: Seq<char>, path: Seq<char>) -> Seq<char> {
    api_url + path
}

impl Config {
    /// The address from which the status record is fetched.
    pub open spec fn status_endpoint(self) -> Seq<char> {
        endpoint(self.api_url@, "/status"@)
    }

    /// The address to which a brightness is posted.
    pub open spec fn brightness_endpoint(self) -> Seq<char> {
        endpoint(self.api_url@, "/light/brightness"@)
    }

    /// The address from which the status record is fetched.
    pub fn status_url(&self) -> (url: String)
        ensures
            url@ == self.status_endpoint(),
    {
        self.api_url.clone().concat("/status")
    }

    /// The address to which a brightness is posted.
    pub fn brightness_url(&self) -> (url: String)
        ensures
            url@ == self.brightness_endpoint(),
    {
        self.api_url.clone().concat("/light/brightness")
    }
}

impl Clone for Config {
    fn clone(&self) -> (config: Config)
        ensures
            config == *self,
    {
        Config {
            default_dim_mode: self.default_dim_mode,
            default_dim_steps: self.default_dim_steps,
            api_url: self.api_url.clone(),
            led_max_dim_value: self.led_max_dim_value,
        }
    }
}

impl Default for Config {
    /// The settings of a first run.
    fn default() -> (config: Config)
        ensures
            config.default_dim_mode == DimMode::Log10,
            config.default_dim_steps == 1,
            config.api_url@ == "http://192.168.1.81/api/v1"@,
            config.led_max_dim_value == 1023,
    {
        Config {
            default_dim_mode: DimMode::Log10,
            default_dim_steps: 1,
            api_url: String::from_str("http://192.168.1.81/api/v1"),
            led_max_dim_value: 1023,
        }
    }
}

/// With the settings of a first run the two endpoints are the fixed
/// addresses of the light.
pub proof fn lemma_default_endpoints(config: Config)
    requires
        config.api_url@ == "http://192.168.1.81/api/v1"@,
    ensures
        config.status_endpoint() == "http://192.168.1.81/api/v1/status"@,
        config.brightness_endpoint() == "http://192.168.1.81/api/v1/light/brightness"@,
{
    reveal_strlit("http://192.168.1.81/api/v1");
    reveal_strlit("/status");
    reveal_strlit("/light/brightness");
    reveal_strlit("http://192.168.1.81/api/v1/status");
    reveal_strlit("http://192.168.1.81/api/v1/light/brightness");
    assert(config.status_endpoint() =~= "http://192.168.1.81/api/v1/status"@);
    assert(config.brightness_endpoint() =~= "http://192.168.1.81/api/v1/light/brightness"@);
}

} // verus!
