//! Where installed files land: the installation strategy and how it is
//! resolved from the directories that the platform offers.

use crate::paths::{join, joined};
use vstd::prelude::*;

verus! {

/// The decision of which locations receive the installed files.
#[derive(Clone, Debug, PartialEq, Eq)]
pub enum InstallationStrategy {
    /// Executables and support files land in two separate directories.
    SplitPaths { data_dir: String, executable_dir: String },
    /// Everything lands under one root, in `bin`, `lib` and `include`.
    SinglePath { root: String },
    /// No destination was found.
    NoStrategy,
}

/// Mathematical model of an [`InstallationStrategy`].
pub enum StrategyModel {
    SplitPaths { data_dir: Seq<char>, executable_dir: Seq<char> },
    SinglePath { root: Seq<char> },
    NoStrategy,
}

impl View for InstallationStrategy {
    type V = StrategyModel;

    open spec fn view(&self) -> StrategyModel {
        match self {
            InstallationStrategy::SplitPaths { data_dir, executable_dir } => {
                StrategyModel::SplitPaths { data_dir: data_dir@, executable_dir: executable_dir@ }
            },
            InstallationStrategy::SinglePath { root } => StrategyModel::SinglePath { root: root@ },
            InstallationStrategy::NoStrategy => StrategyModel::NoStrategy,
        }
    }
}

/// The directories that the platform and the environment offer. Each is
/// `None` where it is not available.
#[derive(Clone, Debug, PartialEq, Eq)]
pub struct Directories {
    /// The directory that the environment names for the installation.
    pub install_dir: Option<String>,
    /// Whether the directory that the environment names exists.
    pub install_dir_exists: bool,
    /// The user's home directory.
    pub home_dir: Option<String>,
    /// The per-user data directory.
    pub data_dir: Option<String>,
    /// The per-user directory for executables.
    pub executable_dir: Option<String>,
}

/// Mathematical model of [`Directories`].
pub struct DirectoriesModel {
    pub install_dir: Option<Seq<char>>,
    pub install_dir_exists: bool,
    pub home_dir: Option<Seq<char>>,
    pub data_dir: Option<Seq<char>>,
    pub executable_dir: Option<Seq<char>>,
}

impl View for Directories {
    type V = DirectoriesModel;

    open spec fn view(&self) -> DirectoriesModel {
        DirectoriesModel {
            install_dir: self.install_dir.deep_view(),
            install_dir_exists: self.install_dir_exists,
            home_dir: self.home_dir.deep_view(),
            data_dir: self.data_dir.deep_view(),
            executable_dir: self.executable_dir.deep_view(),
        }
    }
}

/// The installation directory below a home directory.
pub open spec fn home_install_root(home: Seq<char>) -> Seq<char> {
    joined(home, ".wasmer"@)
}

/// The root that replaces an existing installation: the directory that the
/// environment names where it names one and that one exists, else the one
/// below the home directory.
pub open spec fn override_root(found: DirectoriesModel) -> Option<Seq<char>> {
    if found.install_dir is Some && found.install_dir_exists {
        found.install_dir
    } else {
        match found.home_dir {
            Some(home) => Some(home_install_root(home)),
            None => None,
        }
    }
}

/// The strategy without regard to an existing installation: the two platform
/// directories where both are there, else the root below the home directory,
/// else none.
pub open spec fn default_strategy(found: DirectoriesModel) -> StrategyModel {
    match (found.data_dir, found.executable_dir) {
        (Some(data_dir), Some(executable_dir)) => StrategyModel::SplitPaths {
            data_dir,
            executable_dir,
        },
        _ => match found.home_dir {
            Some(home) => StrategyModel::SinglePath { root: home_install_root(home) },
            None => StrategyModel::NoStrategy,
        },
    }
}

/// The strategy that the resolver decides on, in the order of precedence:
/// the override root where one is asked for and found, then the default.
pub open spec fn resolved(override_existing: bool, found: DirectoriesModel) -> StrategyModel {
    if override_existing && override_root(found) is Some {
        StrategyModel::SinglePath { root: override_root(found)->0 }
    } else {
        default_strategy(found)
    }
}

/// Decides where the installed files land. Always gives a strategy, possibly
/// `NoStrategy`.
pub fn resolve(override_existing: bool, found: &Directories) -> (strategy: InstallationStrategy)
    ensures
        strategy@ == resolved(override_existing, found@),
{
    if override_existing {
        match (&found.install_dir, &found.home_dir) {
            (Some(dir), _) if found.install_dir_exists => {
                return InstallationStrategy::SinglePath { root: dir.clone() };
            },
            (_, Some(home)) => {
                return InstallationStrategy::SinglePath { root: join(home.as_str(), ".wasmer") };
            },
            _ => {},
        }
    }
    match (&found.data_dir, &found.executable_dir) {
        (Some(data_dir), Some(executable_dir)) => InstallationStrategy::SplitPaths {
            data_dir: data_dir.clone(),
            executable_dir: executable_dir.clone(),
        },
        _ => match &found.home_dir {
            Some(home) => InstallationStrategy::SinglePath { root: join(home.as_str(), ".wasmer") },
            None => InstallationStrategy::NoStrategy,
        },
    }
}

/// Calls `dirs::home_dir`. Nothing is claimed of the result: it depends on
/// the environment. A path that is not valid Unicode counts as unavailable.
#[verifier::external_body]
fn home_dir() -> Option<String> {
    match dirs::home_dir() {
        Some(path) => path.into_os_string().into_string().ok(),
        None => None,
    }
}

/// Calls `dirs::data_dir`. Nothing is claimed of the result: it depends on
/// the environment. A path that is not valid Unicode counts as unavailable.
#[verifier::external_body]
fn data_dir() -> Option<String> {
    match dirs::data_dir() {
        Some(path) => path.into_os_string().into_string().ok(),
        None => None,
    }
}

/// Calls `dirs::executable_dir`. Nothing is claimed of the result: it depends
/// on the environment. A path that is not valid Unicode counts as unavailable.
#[verifier::external_body]
fn executable_dir() -> Option<String> {
    match dirs::executable_dir() {
        Some(path) => path.into_os_string().into_string().ok(),
        None => None,
    }
}

/// The directories of the current user, beside what is known of the
/// directory that the environment names.
pub fn probe_directories(install_dir: Option<String>, install_dir_exists: bool) -> (found:
    Directories)
    ensures
        found@.install_dir == install_dir.deep_view(),
        found@.install_dir_exists == install_dir_exists,
{
    Directories {
        install_dir,
        install_dir_exists,
        home_dir: home_dir(),
        data_dir: data_dir(),
        executable_dir: executable_dir(),
    }
}

/// Resolves the installation strategy for the current user. `install_dir` is
/// the directory that the environment names for the installation, and
/// `install_dir_exists` says whether it exists. Whatever directories the
/// platform reports, the result is what the resolver decides on them.
pub fn wasmer_path(
    override_existing: bool,
    install_dir: Option<String>,
    install_dir_exists: bool,
) -> (strategy: InstallationStrategy)
    ensures
        exists|found: DirectoriesModel|
            {
                &&& found.install_dir == install_dir.deep_view()
                &&& found.install_dir_exists == install_dir_exists
                &&& strategy@ == #[trigger] resolved(override_existing, found)
            },
{
    let found = probe_directories(install_dir, install_dir_exists);
    let strategy = resolve(override_existing, &found);
    strategy
}

/// Without an override, where the platform offers both a data directory and
/// a directory for executables, the strategy is `SplitPaths` with exactly
/// those two, whatever else is available.
pub proof fn lemma_split_paths_preferred(
    found: DirectoriesModel,
    data_dir: Seq<char>,
    executable_dir: Seq<char>,
)
    requires
        found.data_dir == Some(data_dir),
        found.executable_dir == Some(executable_dir),
    ensures
        resolved(false, found) == (StrategyModel::SplitPaths { data_dir, executable_dir }),
        !(resolved(false, found) is SinglePath),
{
}

/// Without an override, where the platform lacks a data directory or a
/// directory for executables but a home directory is known, the strategy is
/// `SinglePath` with the root `.wasmer` below the home directory.
pub proof fn lemma_home_fallback(found: DirectoriesModel, home: Seq<char>)
    requires
        found.data_dir is None || found.executable_dir is None,
        found.home_dir == Some(home),
    ensures
        resolved(false, found) == (StrategyModel::SinglePath { root: joined(home, ".wasmer"@) }),
{
}

/// Where neither the platform directories nor a home directory are known,
/// and no override root is found, there is no strategy.
pub proof fn lemma_no_strategy(override_existing: bool, found: DirectoriesModel)
    requires
        found.data_dir is None || found.executable_dir is None,
        found.home_dir is None,
        !override_existing || found.install_dir is None || !found.install_dir_exists,
    ensures
        resolved(override_existing, found) is NoStrategy,
{
}

/// With an override, the directory that the environment names is the root
/// where it exists, whatever else is available.
pub proof fn lemma_override_takes_named_directory(found: DirectoriesModel, dir: Seq<char>)
    requires
        found.install_dir == Some(dir),
        found.install_dir_exists,
    ensures
        resolved(true, found) == (StrategyModel::SinglePath { root: dir }),
{
}

/// With an override, where the environment names no directory or names one
/// that does not exist, the root is `.wasmer` below the home directory.
pub proof fn lemma_override_falls_back_to_home(found: DirectoriesModel, home: Seq<char>)
    requires
        found.install_dir is None || !found.install_dir_exists,
        found.home_dir == Some(home),
    ensures
        resolved(true, found) == (StrategyModel::SinglePath { root: joined(home, ".wasmer"@) }),
{
}

/// Where an override finds no root, the resolver decides as it does without
/// an override.
pub proof fn lemma_override_without_root(found: DirectoriesModel)
    requires
        found.install_dir is None || !found.install_dir_exists,
        found.home_dir is None,
    ensures
        resolved(true, found) == resolved(false, found),
{
}

} // verus!
