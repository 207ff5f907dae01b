use vstd::prelude::*;

use crate::config::{Config, ConfigModel};
use crate::error::SyncError;
use crate::remote::RemoteUrl;

verus! {

/// One-shot fetch of the remote into a directory.
#[derive(Debug)]
pub struct PullOpts {
    /// Overrides the persisted remote.
    pub remote: Option<RemoteUrl>,
    /// Destination directory.
    pub dst: String,
}

/// One-shot activation of a source directory.
#[derive(Debug)]
pub struct ActivateOpts {
    /// Source directory.
    pub src: String,
    /// Overrides the persisted configuration.
    pub configuration: Option<String>,
}

/// One-shot pack and upload of a source directory. The remote is required,
/// with no persisted default, so that nothing is overwritten by accident.
#[derive(Debug)]
pub struct PushOpts {
    pub remote: RemoteUrl,
    /// Source directory.
    pub src: String,
}

/// A change to one persisted setting.
#[derive(Debug)]
pub enum SetOpts {
    Remote { url: RemoteUrl },
    Configuration { configuration: String },
}

/// The commands of the agent.
#[derive(Debug)]
pub enum Command {
    /// Changes one persisted setting.
    SetValue(SetOpts),
    Config,
    Pull(PullOpts),
    Push(PushOpts),
    Activate(ActivateOpts),
    Daemon,
}

impl PullOpts {
    /// The remote to pull from: the override if given, else the persisted
    /// one; `MissingRemote` when there is neither.
    pub fn resolve_remote(&self, config: &Config) -> (r: Result<RemoteUrl, SyncError>)
        ensures
            self.remote is Some ==> r == Ok::<RemoteUrl, SyncError>(self.remote->Some_0),
            self.remote is None && config.remote is Some ==> r == Ok::<RemoteUrl, SyncError>(
                config.remote->Some_0,
            ),
            self.remote is None && config.remote is None ==> r == Err::<RemoteUrl, SyncError>(
                SyncError::MissingRemote,
            ),
    {
        match &self.remote {
            Some(u) => Ok(u.duplicate()),
            None => {
                let u = config.remote()?;
                Ok(u.duplicate())
            },
        }
    }
}

impl ActivateOpts {
    /// The configuration to activate: the override if given, else the
    /// persisted one; `MissingConfiguration` when there is neither.
    pub fn resolve_configuration(&self, config: &Config) -> (r: Result<String, SyncError>)
        ensures
            self.configuration is Some ==> r is Ok && r->Ok_0@ == self.configuration->Some_0@,
            self.configuration is None && config.configuration is Some ==> r is Ok && r->Ok_0@
                == config.configuration->Some_0@,
            self.configuration is None && config.configuration is None ==> r == Err::<
                String,
                SyncError,
            >(SyncError::MissingConfiguration),
    {
        match &self.configuration {
            Some(c) => Ok(c.clone()),
            None => {
                let c = config.configuration()?;
                Ok(String::from_str(c))
            },
        }
    }
}

impl SetOpts {
    /// The state with the one setting changed and everything else kept.
    pub fn apply(&self, config: Config) -> (r: Config)
        ensures
            self matches SetOpts::Remote { url } ==> r.remote == Some(*url) && r@ == (
            ConfigModel { remote: Some(url.source@), ..config@ }),
            self matches SetOpts::Configuration { configuration } ==> r.remote == config.remote
                && r@ == (ConfigModel { configuration: Some(configuration@), ..config@ }),
            config.wf() && (self matches SetOpts::Remote { url } ==> url.wf()) ==> r.wf(),
    {
        match self {
            SetOpts::Remote { url } => config.with_remote(url),
            SetOpts::Configuration { configuration } => config.with_configuration(
                configuration.as_str(),
            ),
        }
    }
}

} // verus!
