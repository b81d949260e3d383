//! The immutable settings of one load: which executable, how strict, which
//! named environment and which output style.

use vstd::prelude::*;

verus! {

/// Textual style in which the executable is asked to print the secrets.
#[derive(Debug, Clone, Copy, PartialEq, Eq, Structural)]
pub enum Format {
    /// `export KEY="VALUE"` statements (the default).
    Bash,
    /// `KEY=VALUE` statements.
    Dotenv,
    /// A JSON object.
    Json,
}

impl Format {
    /// The command-line flag that selects this style.
    pub open spec fn flag(self) -> Seq<char> {
        match self {
            Format::Bash => "--bash"@,
            Format::Dotenv => "--dotenv"@,
            Format::Json => "--json"@,
        }
    }

    /// Returns the command-line flag that selects this style.
    pub fn as_arg(&self) -> (arg: &'static str)
        ensures
            arg@ == self.flag(),
    {
        match self {
            Format::Bash => "--bash",
            Format::Dotenv => "--dotenv",
            Format::Json => "--json",
        }
    }
}

/// Settings of one load. Every field can be set on its own; no combination is
/// ruled out.
#[derive(Debug)]
pub struct Config {
    bin_path: String,
    throw_if_not_found: bool,
    environment: Option<String>,
    format: Format,
}

/// What a `Config` holds, as plain values.
pub struct ConfigView {
    /// Path or bare command name of the executable.
    pub bin_path: Seq<char>,
    /// Whether a missing executable is an error and not a silent no-op.
    pub throw_if_not_found: bool,
    /// The named environment to switch to before the export, if any.
    pub environment: Option<Seq<char>>,
    /// The style in which the export is asked for.
    pub format: Format,
}

/// The name under which the executable is looked for by default.
pub open spec fn default_bin_path() -> Seq<char> {
    "vaultarq"@
}

/// The settings that `Config::new` gives.
pub open spec fn default_config() -> ConfigView {
    ConfigView {
        bin_path: default_bin_path(),
        throw_if_not_found: false,
        environment: None,
        format: Format::Bash,
    }
}

impl View for Config {
    type V = ConfigView;

    closed spec fn view(&self) -> ConfigView {
        ConfigView {
            bin_path: self.bin_path@,
            throw_if_not_found: self.throw_if_not_found,
            environment: match self.environment {
                Some(name) => Some(name@),
                None => None,
            },
            format: self.format,
        }
    }
}

impl Default for Config {
    fn default() -> (config: Self)
        ensures
            config@ == default_config(),
    {
        Config {
            bin_path: "vaultarq".to_owned(),
            throw_if_not_found: false,
            environment: None,
            format: Format::Bash,
        }
    }
}

impl Clone for Config {
    fn clone(&self) -> (copy: Self)
        ensures
            copy@ == self@,
    {
        Config {
            bin_path: self.bin_path.clone(),
            throw_if_not_found: self.throw_if_not_found,
            environment: match &self.environment {
                Some(name) => Some(name.clone()),
                None => None,
            },
            format: self.format,
        }
    }
}

impl Config {
    /// The default settings: the executable `vaultarq`, a missing executable
    /// passed over in silence, no named environment, the bash style.
    pub fn new() -> (config: Self)
        ensures
            config@ == default_config(),
    {
        Config::default()
    }

    /// The same settings with `path` as the executable.
    pub fn with_bin_path(self, path: &str) -> (config: Self)
        ensures
            config@ == (ConfigView { bin_path: path@, ..self@ }),
    {
        Config {
            bin_path: path.to_owned(),
            throw_if_not_found: self.throw_if_not_found,
            environment: self.environment,
            format: self.format,
        }
    }

    /// The same settings with a missing executable made an error, or not.
    pub fn with_throw_if_not_found(self, throw: bool) -> (config: Self)
        ensures
            config@ == (ConfigView { throw_if_not_found: throw, ..self@ }),
    {
        Config {
            bin_path: self.bin_path,
            throw_if_not_found: throw,
            environment: self.environment,
            format: self.format,
        }
    }

    /// The same settings with `env` as the named environment.
    pub fn with_environment(self, env: &str) -> (config: Self)
        ensures
            config@ == (ConfigView { environment: Some(env@), ..self@ }),
    {
        Config {
            bin_path: self.bin_path,
            throw_if_not_found: self.throw_if_not_found,
            environment: Some(env.to_owned()),
            format: self.format,
        }
    }

    /// The same settings with `format` as the output style.
    pub fn with_format(self, format: Format) -> (config: Self)
        ensures
            config@ == (ConfigView { format: format, ..self@ }),
    {
        Config {
            bin_path: self.bin_path,
            throw_if_not_found: self.throw_if_not_found,
            environment: self.environment,
            format,
        }
    }

    /// Path or bare command name of the executable.
    pub fn bin_path(&self) -> (path: &str)
        ensures
            path@ == self@.bin_path,
    {
        self.bin_path.as_str()
    }

    /// Whether a missing executable is an error.
    pub fn throw_if_not_found(&self) -> (throw: bool)
        ensures
            throw == self@.throw_if_not_found,
    {
        self.throw_if_not_found
    }

    /// The named environment to switch to, if any.
    pub fn environment(&self) -> (env: Option<&str>)
        ensures
            env.deep_view() == self@.environment,
    {
        match &self.environment {
            Some(name) => Some(name.as_str()),
            None => None,
        }
    }

    /// The style in which the export is asked for.
    pub fn format(&self) -> (format: Format)
        ensures
            format == self@.format,
    {
        self.format
    }
}

} // verus!
