//! Sans-I/O core of a client for the Vaultarq secrets manager.
//!
//! A client finds the `vaultarq` executable, launches it, and puts the secrets
//! that it prints into the environment of the process. This library holds the
//! decisions of such a client and leaves the doing to the caller: it says
//! which lookup and which launches are due, and turns the text of an export
//! into name/value pairs. Nothing here touches the file system, starts a
//! process or changes the environment.
//!
//! A load runs as follows.
//!
//! 1. `locate` names the lookup for the configured executable; the caller
//!    performs it.
//! 2. `init_with_config` takes the answer and gives the first `Step`.
//! 3. For `Step::Launch` the caller makes the launch, builds a `Launched`
//!    from what came of it and hands it to `Session::advance`, which gives
//!    the next step.
//! 4. `Step::Done` ends the load, with the pairs to set or with the error.
//!
//! The probe alone runs through `locate`, `is_available_with_path` and
//! `Launched::started`.

pub mod chars;
pub mod config;
pub mod error;
pub mod line;
pub mod output;
pub mod probe;
pub mod session;
pub mod text;
pub mod trusted;

pub use config::{Config, Format};
pub use error::Error;
pub use probe::{is_available, is_available_with_path, locate, Command, Launched, Lookup};
pub use session::{init, init_with_config, Session, Stage, Step};
