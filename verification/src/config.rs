//! The client's configuration: the repositories it follows and its settings,
//! and what to do when one of the two files cannot be loaded.
//!
//! Reading and writing the files is the caller's part. This module keeps the
//! two parts of a configuration together and holds the one decision that
//! loading makes.

use vstd::prelude::*;

verus! {

/// `toml::de::Error`, the error with which `toml` rejects a text. Nothing is
/// known of its content here: a value of it is carried through unread.
#[verifier::external_type_specification]
#[verifier::external_body]
pub struct ExTomlDeError(toml::de::Error);

/// `toml::ser::Error`, the error with which `toml` refuses to write a value.
/// Nothing is known of its content here: a value of it is carried through
/// unread.
#[verifier::external_type_specification]
#[verifier::external_body]
pub struct ExTomlSerError(toml::ser::Error);

/// `std::io::Error`, the error of an input or output operation. Nothing is
/// known of its content here: a value of it is carried through unread.
#[verifier::external_type_specification]
#[verifier::external_body]
pub struct ExIoError(std::io::Error);

/// `std::path::PathBuf`, an owned file system path. Nothing is known of its
/// content here: a value of it is carried through unread.
#[verifier::external_type_specification]
#[verifier::external_body]
pub struct ExPathBuf(std::path::PathBuf);

/// Why a configuration file could not be loaded or saved. Each variant names
/// the file.
#[derive(Debug)]
pub enum FileError {
    /// The file is read only and could not be written to.
    ReadOnly(std::path::PathBuf),
    /// The file could not be read.
    Read(std::io::Error, std::path::PathBuf),
    /// The file could not be written.
    Write(std::io::Error, std::path::PathBuf),
    /// The content of the file is not what the format asks for.
    FromToml(toml::de::Error, std::path::PathBuf),
    /// The value could not be put into the format.
    ToToml(toml::ser::Error, std::path::PathBuf),
    /// The path has no parent directory.
    PathParent(std::path::PathBuf),
    /// The parent directory could not be created.
    CreateParentDir(std::io::Error, std::path::PathBuf),
}

/// Why no configuration could be loaded.
#[derive(Debug)]
pub enum ConfigError {
    /// This platform has no default place for a configuration.
    NoDefaultConfigPath,
    /// The file of repositories could not be loaded.
    ReposFile(FileError),
    /// The file of settings could not be loaded.
    SettingsFile(FileError),
}

/// The two files that hold a configuration.
#[derive(Debug, Clone, Copy, PartialEq, Eq, Structural)]
pub enum ConfigFile {
    Settings,
    Repos,
}

impl ConfigFile {
    /// The name of the file inside the configuration directory.
    pub open spec fn name(self) -> Seq<char> {
        match self {
            ConfigFile::Settings => "settings.toml"@,
            ConfigFile::Repos => "repos.toml"@,
        }
    }

    /// The name of the file inside the configuration directory.
    pub fn file_name(&self) -> (name: &'static str)
        ensures
            name@ == self.name(),
    {
        match self {
            ConfigFile::Settings => "settings.toml",
            ConfigFile::Repos => "repos.toml",
        }
    }

    /// What a failure on this file means for loading the configuration.
    pub fn failure(&self, e: FileError) -> (failure: ConfigError)
        ensures
            failure == match *self {
                ConfigFile::Settings => ConfigError::SettingsFile(e),
                ConfigFile::Repos => ConfigError::ReposFile(e),
            },
    {
        match self {
            ConfigFile::Settings => ConfigError::SettingsFile(e),
            ConfigFile::Repos => ConfigError::ReposFile(e),
        }
    }
}

/// What the client may do with its configuration files.
#[derive(Debug, Clone, Copy, PartialEq, Eq, Structural)]
pub enum Permission {
    ReadOnly,
    ReadWrite,
}

/// What to do after an attempt to load a configuration file.
#[derive(Debug)]
pub enum Recovery<T> {
    /// The file was loaded: use what it held.
    Loaded(T),
    /// The file could not be read and may be written: create it.
    Create,
    /// Give up with this failure.
    Failed(FileError),
}

/// What follows from an attempt to load a file: what was loaded is used; a
/// file that could not be read is created, unless the configuration is read
/// only; every other failure stands.
pub open spec fn recovery<T>(loaded: Result<T, FileError>, permission: Permission) -> Recovery<T> {
    match loaded {
        Ok(value) => Recovery::Loaded(value),
        Err(e) => if e is Read && permission != Permission::ReadOnly {
            Recovery::Create
        } else {
            Recovery::Failed(e)
        },
    }
}

/// Decides what to do after an attempt to load a configuration file; see
/// [`recovery`].
pub fn recover<T>(loaded: Result<T, FileError>, permission: Permission) -> (next: Recovery<T>)
    ensures
        next == recovery(loaded, permission),
{
    match loaded {
        Ok(value) => Recovery::Loaded(value),
        Err(FileError::Read(cause, path)) => {
            if permission != Permission::ReadOnly {
                Recovery::Create
            } else {
                Recovery::Failed(FileError::Read(cause, path))
            }
        },
        Err(e) => Recovery::Failed(e),
    }
}

/// The default place of the configuration, as far as the platform has one:
/// the path that was found, or the failure that says that there is none.
pub fn default_location(found: Option<std::path::PathBuf>) -> (r: Result<
    std::path::PathBuf,
    ConfigError,
>)
    ensures
        r == match found {
            Some(path) => Ok::<std::path::PathBuf, ConfigError>(path),
            None => Err::<std::path::PathBuf, ConfigError>(ConfigError::NoDefaultConfigPath),
        },
{
    match found {
        Some(path) => Ok(path),
        None => Err(ConfigError::NoDefaultConfigPath),
    }
}

/// A configuration: the repositories that the client follows, and its
/// settings.
#[derive(Debug, Clone)]
pub struct Config<R, S> {
    repos: R,
    settings: S,
}

impl<R, S> Config<R, S> {
    /// The repositories of the configuration.
    pub closed spec fn repos_value(&self) -> R {
        self.repos
    }

    /// The settings of the configuration.
    pub closed spec fn settings_value(&self) -> S {
        self.settings
    }

    /// The configuration made of `settings` and `repos`.
    pub fn new(settings: S, repos: R) -> (config: Config<R, S>)
        ensures
            config.repos_value() == repos,
            config.settings_value() == settings,
    {
        Config { repos, settings }
    }

    pub fn repos(&self) -> (repos: &R)
        ensures
            *repos == self.repos_value(),
    {
        &self.repos
    }

    /// The repositories, to change them. The settings stay as they are.
    pub fn repos_mut(&mut self) -> (repos: &mut R)
        ensures
            *repos == old(self).repos_value(),
            final(self).repos_value() == *final(repos),
            final(self).settings_value() == old(self).settings_value(),
    {
        &mut self.repos
    }

    pub fn settings(&self) -> (settings: &S)
        ensures
            *settings == self.settings_value(),
    {
        &self.settings
    }

    /// The settings, to change them. The repositories stay as they are.
    pub fn settings_mut(&mut self) -> (settings: &mut S)
        ensures
            *settings == old(self).settings_value(),
            final(self).settings_value() == *final(settings),
            final(self).repos_value() == old(self).repos_value(),
    {
        &mut self.settings
    }
}

} // verus!
