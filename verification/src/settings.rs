use vstd::prelude::*;
use crate::text::str_equal;

verus! {

/// Logging settings.
#[derive(Debug, Clone)]
pub struct Log {
    pub level: String,
}

/// Token signing settings.
#[derive(Debug, Clone)]
pub struct Jwt {
    pub secret: String,
}

/// Gateway settings.
#[derive(Debug, Clone, Copy)]
pub struct Gateway {
    pub port: i32,
}

/// Auth service settings.
#[derive(Debug, Clone)]
pub struct Auth {
    pub db_url: String,
}

/// The settings of the services built on the shared library.
#[derive(Debug, Clone)]
pub struct Settings {
    pub jwt: Jwt,
    pub gateway: Gateway,
    pub auth: Auth,
    pub log: Log,
    pub env: ENV,
}

/// The environment the services run in.
#[derive(Debug, Clone, Copy, PartialEq, Eq)]
pub enum ENV {
    Development,
    Production,
}

/// The display name of an environment.
pub open spec fn env_name(env: ENV) -> Seq<char> {
    match env {
        ENV::Development => "Development"@,
        ENV::Production => "Production"@,
    }
}

/// The environment a text names: production only for exactly "Production",
/// development for every other text.
pub open spec fn env_from_name(s: Seq<char>) -> ENV {
    if s == "Production"@ {
        ENV::Production
    } else {
        ENV::Development
    }
}

impl ENV {
    /// The display name of the environment.
    pub fn to_string(&self) -> (res: String)
        ensures
            res@ == env_name(*self),
    {
        match self {
            ENV::Development => String::from_str("Development"),
            ENV::Production => String::from_str("Production"),
        }
    }
}

impl<'a> From<&'a str> for ENV {
    fn from(env: &'a str) -> (res: ENV) {
        if str_equal(env, "Production") {
            ENV::Production
        } else {
            ENV::Development
        }
    }
}

impl<'a> vstd::std_specs::convert::FromSpecImpl<&'a str> for ENV {
    open spec fn obeys_from_spec() -> bool {
        true
    }

    open spec fn from_spec(env: &'a str) -> ENV {
        env_from_name(env@)
    }
}

/// Reading back the display name of an environment gives that environment.
pub proof fn lemma_env_name_round_trip(env: ENV)
    ensures
        env_from_name(env_name(env)) == env,
{
    reveal_strlit("Development");
    reveal_strlit("Production");
    assert("Development"@ != "Production"@) by {
        assert("Development"@.len() != "Production"@.len());
    }
}

/// One configuration file to read, by path without extension.
#[derive(Debug, Clone)]
pub struct ConfigFile {
    pub name: String,
    pub required: bool,
}

/// Where the settings come from, in increasing priority: the files, then
/// the environment variables with the prefix, then the `env` key forced to
/// the run mode.
#[derive(Debug, Clone)]
pub struct ConfigPlan {
    pub files: Vec<ConfigFile>,
    pub env_prefix: String,
    pub env_override: String,
}

/// The run mode: the `RUN_MODE` variable when it is set, else "Development".
pub open spec fn run_mode_of(run_mode: Option<Seq<char>>) -> Seq<char> {
    match run_mode {
        Some(m) => m,
        None => "Development"@,
    }
}

impl Settings {
    /// The sources the settings are loaded from for the given `RUN_MODE`:
    /// `config/Default` (required), `config/<run mode>` and `config/Local`
    /// (optional), then variables prefixed `order`, then `env` set to the run
    /// mode.
    pub fn config_plan(run_mode: Option<String>) -> (plan: ConfigPlan)
        ensures
            plan.files@.len() == 3,
            plan.files@[0].name@ == "config/Default"@ && plan.files@[0].required,
            plan.files@[1].name@ == "config/"@ + run_mode_of(
                match run_mode { Some(m) => Some(m@), None => None },
            ) && !plan.files@[1].required,
            plan.files@[2].name@ == "config/Local"@ && !plan.files@[2].required,
            plan.env_prefix@ == "order"@,
            plan.env_override@ == run_mode_of(
                match run_mode { Some(m) => Some(m@), None => None },
            ),
    {
        let mode = match run_mode {
            Some(m) => m,
            None => String::from_str("Development"),
        };
        let mut files: Vec<ConfigFile> = Vec::new();
        files.push(ConfigFile { name: String::from_str("config/Default"), required: true });
        files.push(ConfigFile { name: String::from_str("config/").concat(mode.as_str()), required: false });
        files.push(ConfigFile { name: String::from_str("config/Local"), required: false });
        ConfigPlan { files, env_prefix: String::from_str("order"), env_override: mode }
    }
}

} // verus!
