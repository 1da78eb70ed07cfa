//! Configuration: the file format, the merged settings, and how they are
//! validated.

use vstd::prelude::*;

use crate::cli::Cli;
use crate::text::concat2;
use crate::trellis::constants::{
    DEFAULT_AUR_CACHE, DEFAULT_BUILDER_TAG, DEFAULT_HOOKS_DIR, DEFAULT_PACMAN_CACHE,
    DEFAULT_ROOTFS_BASE, DEFAULT_ROOTFS_TAG, DEFAULT_SRC_DIR, NO_BUILDER_STAGES, NO_ROOTFS_STAGES,
};

pub mod merger;
pub mod validator;

pub use merger::{BoolMerger, ConfigMerger};
pub use validator::{ConfigValidator, PathFacts};

use merger::{
    bool_merged, opt_vec_view, opt_view, option_merged, string_merged, vec_merged,
};

verus! {

/// The contents of a configuration file.
#[derive(Debug, Clone)]
pub struct Config {
    pub build: Option<BuildConfig>,
    pub environment: Option<EnvironmentConfig>,
}

/// The `[build]` table of a configuration file.
#[derive(Debug, Clone)]
pub struct BuildConfig {
    pub builder_stages: Option<Vec<String>>,
    pub rootfs_stages: Option<Vec<String>>,
    pub rootfs_base: Option<String>,
    pub builder_tag: Option<String>,
    pub rootfs_tag: Option<String>,
    pub podman_build_cache: Option<bool>,
    pub auto_clean: Option<bool>,
    pub extra_contexts: Option<Vec<String>>,
    pub extra_mounts: Option<Vec<String>>,
}

/// The `[environment]` table of a configuration file.
#[derive(Debug, Clone)]
pub struct EnvironmentConfig {
    pub pacman_cache: Option<String>,
    pub aur_cache: Option<String>,
    pub src_dir: Option<String>,
    pub hooks_dir: Option<String>,
}

impl Config {
    /// Whether this is the configuration used when no file exists.
    pub open spec fn is_default(self) -> bool {
        &&& self.build matches Some(b)
        &&& b.builder_stages is None
        &&& b.rootfs_stages is None
        &&& opt_view(b.rootfs_base) == Some(DEFAULT_ROOTFS_BASE@)
        &&& opt_view(b.builder_tag) == Some(DEFAULT_BUILDER_TAG@)
        &&& opt_view(b.rootfs_tag) == Some(DEFAULT_ROOTFS_TAG@)
        &&& b.podman_build_cache == Some(false)
        &&& b.auto_clean == Some(false)
        &&& b.extra_contexts is None
        &&& b.extra_mounts is None
        &&& self.environment matches Some(e)
        &&& opt_view(e.pacman_cache) == Some(DEFAULT_PACMAN_CACHE@)
        &&& opt_view(e.aur_cache) == Some(DEFAULT_AUR_CACHE@)
        &&& e.src_dir is None
        &&& opt_view(e.hooks_dir) == Some(DEFAULT_HOOKS_DIR@)
    }
}

impl Default for Config {
    fn default() -> (c: Self)
        ensures
            c.is_default(),
    {
        Config {
            build: Some(
                BuildConfig {
                    builder_stages: None,
                    rootfs_stages: None,
                    rootfs_base: Some(String::from_str(DEFAULT_ROOTFS_BASE)),
                    builder_tag: Some(String::from_str(DEFAULT_BUILDER_TAG)),
                    rootfs_tag: Some(String::from_str(DEFAULT_ROOTFS_TAG)),
                    podman_build_cache: Some(false),
                    auto_clean: Some(false),
                    extra_contexts: None,
                    extra_mounts: None,
                },
            ),
            environment: Some(
                EnvironmentConfig {
                    pacman_cache: Some(String::from_str(DEFAULT_PACMAN_CACHE)),
                    aur_cache: Some(String::from_str(DEFAULT_AUR_CACHE)),
                    src_dir: None,
                    hooks_dir: Some(String::from_str(DEFAULT_HOOKS_DIR)),
                },
            ),
        }
    }
}

/// Why a configuration was refused.
#[derive(Debug, Clone, PartialEq, Eq)]
pub enum ConfigError {
    /// The file gives an empty list of builder stages.
    EmptyFileBuilderStages,
    /// The file gives an empty list of rootfs stages.
    EmptyFileRootfsStages,
    /// No builder stages are defined for a builder build.
    NoBuilderStages,
    /// No rootfs stages are defined for a rootfs build.
    NoRootfsStages,
    /// No stages are defined for a build of another kind.
    NoStages,
    /// The source directory does not exist.
    SrcDirMissing(String),
    /// The source path is not a directory.
    SrcDirNotDirectory(String),
    /// The parent of the pacman cache directory does not exist.
    PacmanCacheParentMissing(String),
    /// The parent of the AUR cache directory does not exist.
    AurCacheParentMissing(String),
    /// The builder tag is empty.
    EmptyBuilderTag,
    /// The rootfs tag is empty.
    EmptyRootfsTag,
    /// The builder and rootfs tags are equal.
    SameTags(String),
}

impl ConfigError {
    /// The text of the error message.
    pub open spec fn spec_message(self) -> Seq<char> {
        match self {
            ConfigError::EmptyFileBuilderStages => "Builder stages cannot be empty"@,
            ConfigError::EmptyFileRootfsStages => "Rootfs stages cannot be empty"@,
            ConfigError::NoBuilderStages => NO_BUILDER_STAGES@,
            ConfigError::NoRootfsStages => NO_ROOTFS_STAGES@,
            ConfigError::NoStages => "No stages defined"@,
            ConfigError::SrcDirMissing(p) => "Source directory does not exist: "@ + p@,
            ConfigError::SrcDirNotDirectory(p) => "Source path is not a directory: "@ + p@,
            ConfigError::PacmanCacheParentMissing(p) => "Pacman cache parent directory does not exist: "@
                + p@,
            ConfigError::AurCacheParentMissing(p) => "AUR cache parent directory does not exist: "@
                + p@,
            ConfigError::EmptyBuilderTag => "Builder tag cannot be empty"@,
            ConfigError::EmptyRootfsTag => "Rootfs tag cannot be empty"@,
            ConfigError::SameTags(t) => "Builder and rootfs tags must be different: "@ + t@,
        }
    }

    /// The error message, as the program reports it.
    pub fn message(&self) -> (r: String)
        ensures
            r@ == self.spec_message(),
    {
        match self {
            ConfigError::EmptyFileBuilderStages => String::from_str(
                "Builder stages cannot be empty",
            ),
            ConfigError::EmptyFileRootfsStages => String::from_str("Rootfs stages cannot be empty"),
            ConfigError::NoBuilderStages => String::from_str(NO_BUILDER_STAGES),
            ConfigError::NoRootfsStages => String::from_str(NO_ROOTFS_STAGES),
            ConfigError::NoStages => String::from_str("No stages defined"),
            ConfigError::SrcDirMissing(p) => concat2(
                "Source directory does not exist: ",
                p.as_str(),
            ),
            ConfigError::SrcDirNotDirectory(p) => concat2(
                "Source path is not a directory: ",
                p.as_str(),
            ),
            ConfigError::PacmanCacheParentMissing(p) => concat2(
                "Pacman cache parent directory does not exist: ",
                p.as_str(),
            ),
            ConfigError::AurCacheParentMissing(p) => concat2(
                "AUR cache parent directory does not exist: ",
                p.as_str(),
            ),
            ConfigError::EmptyBuilderTag => String::from_str("Builder tag cannot be empty"),
            ConfigError::EmptyRootfsTag => String::from_str("Rootfs tag cannot be empty"),
            ConfigError::SameTags(t) => concat2(
                "Builder and rootfs tags must be different: ",
                t.as_str(),
            ),
        }
    }
}

/// The settings trellis runs with, merged from the command line, the
/// configuration file and the defaults.
#[derive(Debug, Clone)]
pub struct TrellisConfig {
    pub builder_stages: Vec<String>,
    pub builder_tag: String,
    pub podman_build_cache: bool,
    pub auto_clean: bool,
    pub pacman_cache: Option<String>,
    pub aur_cache: Option<String>,
    pub src_dir: String,
    pub rootfs_stages: Vec<String>,
    pub rootfs_base: String,
    pub extra_contexts: Vec<String>,
    pub extra_mounts: Vec<String>,
    pub rootfs_tag: String,
    pub hooks_dir: Option<String>,
    pub quiet: bool,
}

/// The error, if any, that a configuration file's own contents raise:
/// an explicitly empty list of builder stages, then of rootfs stages.
pub open spec fn file_config_error(file: Config) -> Option<ConfigError> {
    match file.build {
        Some(b) => if b.builder_stages matches Some(v) && v@.len() == 0 {
            Some(ConfigError::EmptyFileBuilderStages)
        } else if b.rootfs_stages matches Some(v) && v@.len() == 0 {
            Some(ConfigError::EmptyFileRootfsStages)
        } else {
            None
        },
        None => None,
    }
}

/// The hooks directory named by the environment table, or the default one.
pub open spec fn hooks_dir_candidate_of(env: Option<EnvironmentConfig>) -> Seq<char> {
    match env {
        Some(e) => match e.hooks_dir {
            Some(h) => h@,
            None => DEFAULT_HOOKS_DIR@,
        },
        None => DEFAULT_HOOKS_DIR@,
    }
}

impl TrellisConfig {
    /// Whether `self` is what merging `cli` over `file` gives, when the
    /// candidate hooks directory exists exactly if `hooks_dir_exists`.
    /// The command line wins over the file, and the file over the defaults.
    pub open spec fn is_merge_of(self, cli: Cli, file: Config, hooks_dir_exists: bool) -> bool {
        let b = file.build;
        let e = file.environment;
        &&& self.builder_stages@ == vec_merged(
            cli.builder_stages@,
            opt_vec_view(
                match b {
                    Some(b) => b.builder_stages,
                    None => None,
                },
            ),
        )
        &&& self.rootfs_stages@ == vec_merged(
            cli.rootfs_stages@,
            opt_vec_view(
                match b {
                    Some(b) => b.rootfs_stages,
                    None => None,
                },
            ),
        )
        &&& self.extra_contexts@ == vec_merged(
            cli.extra_contexts@,
            opt_vec_view(
                match b {
                    Some(b) => b.extra_contexts,
                    None => None,
                },
            ),
        )
        &&& self.extra_mounts@ == vec_merged(
            cli.extra_mounts@,
            opt_vec_view(
                match b {
                    Some(b) => b.extra_mounts,
                    None => None,
                },
            ),
        )
        &&& self.rootfs_base@ == string_merged(
            cli.rootfs_base@,
            opt_view(
                match b {
                    Some(b) => b.rootfs_base,
                    None => None,
                },
            ),
            DEFAULT_ROOTFS_BASE@,
        )
        &&& self.builder_tag@ == string_merged(
            cli.builder_tag@,
            opt_view(
                match b {
                    Some(b) => b.builder_tag,
                    None => None,
                },
            ),
            DEFAULT_BUILDER_TAG@,
        )
        &&& self.rootfs_tag@ == string_merged(
            cli.rootfs_tag@,
            opt_view(
                match b {
                    Some(b) => b.rootfs_tag,
                    None => None,
                },
            ),
            DEFAULT_ROOTFS_TAG@,
        )
        &&& self.podman_build_cache == bool_merged(
            cli.podman_build_cache,
            match b {
                Some(b) => b.podman_build_cache,
                None => None,
            },
            false,
        )
        &&& self.auto_clean == (cli.auto_clean || match b {
            Some(b) => b.auto_clean == Some(true),
            None => false,
        })
        &&& opt_view(self.pacman_cache) == option_merged(
            opt_view(cli.pacman_cache),
            opt_view(
                match e {
                    Some(e) => e.pacman_cache,
                    None => None,
                },
            ),
        )
        &&& opt_view(self.aur_cache) == option_merged(
            opt_view(cli.aur_cache),
            opt_view(
                match e {
                    Some(e) => e.aur_cache,
                    None => None,
                },
            ),
        )
        &&& self.src_dir@ == match option_merged(
            opt_view(cli.src_dir),
            opt_view(
                match e {
                    Some(e) => e.src_dir,
                    None => None,
                },
            ),
        ) {
            Some(d) => d,
            None => DEFAULT_SRC_DIR@,
        }
        &&& opt_view(self.hooks_dir) == resolved_hooks_dir(e, hooks_dir_exists)
        &&& self.quiet == cli.quiet
    }

    /// Merges the command line `cli` with the configuration `file_config`
    /// (the file's contents, or `Config::default()` when there is no file).
    ///
    /// `hooks_dir_exists` tells whether the directory that
    /// `hooks_dir_candidate` names for this file exists.
    ///
    /// Command-line values take precedence over file values, which take
    /// precedence over the defaults. A file with an empty stage list is
    /// refused.
    pub fn new(cli: Cli, file_config: Config, hooks_dir_exists: bool) -> (r: Result<TrellisConfig, ConfigError>)
        ensures
            match file_config_error(file_config) {
                Some(err) => r == Err::<TrellisConfig, ConfigError>(err),
                None => r matches Ok(c) && c.is_merge_of(cli, file_config, hooks_dir_exists),
            },
    {
        match Self::validate_config(&file_config) {
            Err(e) => {
                return Err(e);
            },
            Ok(()) => {},
        }
        let hooks_dir = Self::resolve_hooks_dir(file_config.environment.as_ref(), hooks_dir_exists);
        let Config { build, environment } = file_config;
        let (
            f_builder_stages,
            f_rootfs_stages,
            f_rootfs_base,
            f_builder_tag,
            f_rootfs_tag,
            f_podman_build_cache,
            f_auto_clean,
            f_extra_contexts,
            f_extra_mounts,
        ) = match build {
            Some(b) => (
                b.builder_stages,
                b.rootfs_stages,
                b.rootfs_base,
                b.builder_tag,
                b.rootfs_tag,
                b.podman_build_cache,
                b.auto_clean,
                b.extra_contexts,
                b.extra_mounts,
            ),
            None => (None, None, None, None, None, None, None, None, None),
        };
        let (f_pacman_cache, f_aur_cache, f_src_dir) = match environment {
            Some(e) => (e.pacman_cache, e.aur_cache, e.src_dir),
            None => (None, None, None),
        };
        let file_auto_clean = match f_auto_clean {
            Some(v) => v,
            None => false,
        };
        let src_dir = match Option::<String>::merge(cli.src_dir, Some(f_src_dir), None) {
            Some(d) => d,
            None => String::from_str(DEFAULT_SRC_DIR),
        };
        Ok(
            TrellisConfig {
                builder_stages: Vec::<String>::merge(
                    cli.builder_stages,
                    f_builder_stages,
                    Vec::new(),
                ),
                rootfs_stages: Vec::<String>::merge(cli.rootfs_stages, f_rootfs_stages, Vec::new()),
                rootfs_base: String::merge(
                    cli.rootfs_base,
                    f_rootfs_base,
                    String::from_str(DEFAULT_ROOTFS_BASE),
                ),
                extra_contexts: Vec::<String>::merge(
                    cli.extra_contexts,
                    f_extra_contexts,
                    Vec::new(),
                ),
                extra_mounts: Vec::<String>::merge(cli.extra_mounts, f_extra_mounts, Vec::new()),
                builder_tag: String::merge(
                    cli.builder_tag,
                    f_builder_tag,
                    String::from_str(DEFAULT_BUILDER_TAG),
                ),
                rootfs_tag: String::merge(
                    cli.rootfs_tag,
                    f_rootfs_tag,
                    String::from_str(DEFAULT_ROOTFS_TAG),
                ),
                podman_build_cache: BoolMerger::merge(
                    cli.podman_build_cache,
                    f_podman_build_cache,
                    false,
                ),
                auto_clean: cli.auto_clean || file_auto_clean,
                pacman_cache: Option::<String>::merge(cli.pacman_cache, Some(f_pacman_cache), None),
                aur_cache: Option::<String>::merge(cli.aur_cache, Some(f_aur_cache), None),
                src_dir,
                hooks_dir,
                quiet: cli.quiet,
            },
        )
    }

    /// Checks a configuration file's own contents: an explicitly empty list
    /// of builder stages or of rootfs stages is refused.
    pub fn validate_config(config: &Config) -> (r: Result<(), ConfigError>)
        ensures
            match file_config_error(*config) {
                Some(err) => r == Err::<(), ConfigError>(err),
                None => r is Ok,
            },
    {
        if let Some(build) = &config.build {
            if let Some(stages) = &build.builder_stages {
                if stages.len() == 0 {
                    return Err(ConfigError::EmptyFileBuilderStages);
                }
            }
            if let Some(stages) = &build.rootfs_stages {
                if stages.len() == 0 {
                    return Err(ConfigError::EmptyFileRootfsStages);
                }
            }
        }
        Ok(())
    }

    /// The hooks directory that the environment table names, or the default
    /// one; the program checks whether it exists.
    pub fn hooks_dir_candidate(env_config: Option<&EnvironmentConfig>) -> (r: String)
        ensures
            r@ == hooks_dir_candidate_of(env_of(env_config)),
    {
        match env_config {
            Some(e) => match &e.hooks_dir {
                Some(h) => h.clone(),
                None => String::from_str(DEFAULT_HOOKS_DIR),
            },
            None => String::from_str(DEFAULT_HOOKS_DIR),
        }
    }

    /// The hooks directory to use: the candidate when it exists, else none.
    pub fn resolve_hooks_dir(env_config: Option<&EnvironmentConfig>, exists: bool) -> (r: Option<String>)
        ensures
            opt_view(r) == resolved_hooks_dir(env_of(env_config), exists),
    {
        if exists {
            Some(Self::hooks_dir_candidate(env_config))
        } else {
            None
        }
    }
}

/// The environment table behind an optional reference.
pub open spec fn env_of(env_config: Option<&EnvironmentConfig>) -> Option<EnvironmentConfig> {
    match env_config {
        Some(e) => Some(*e),
        None => None,
    }
}

/// The hooks directory in use: the candidate when it exists, else none.
pub open spec fn resolved_hooks_dir(env: Option<EnvironmentConfig>, exists: bool) -> Option<Seq<char>> {
    if exists {
        Some(hooks_dir_candidate_of(env))
    } else {
        None
    }
}

/// The command line wins over the configuration file, and the file over
/// the defaults, setting by setting, for the list settings: a non-empty
/// command-line list is taken as it is; with none, the file's list is
/// taken; with neither, the list is empty.
pub proof fn law_lists_command_line_over_file(c: TrellisConfig, cli: Cli, file: Config, hooks_dir_exists: bool)
    requires
        c.is_merge_of(cli, file, hooks_dir_exists),
    ensures
        cli.builder_stages@.len() > 0 ==> c.builder_stages@ == cli.builder_stages@,
        cli.rootfs_stages@.len() > 0 ==> c.rootfs_stages@ == cli.rootfs_stages@,
        cli.extra_contexts@.len() > 0 ==> c.extra_contexts@ == cli.extra_contexts@,
        cli.extra_mounts@.len() > 0 ==> c.extra_mounts@ == cli.extra_mounts@,
        cli.builder_stages@.len() == 0 && file.build is Some && file.build->0.builder_stages is Some
            ==> c.builder_stages@ == file.build->0.builder_stages->0@,
        cli.rootfs_stages@.len() == 0 && file.build is Some && file.build->0.rootfs_stages is Some
            ==> c.rootfs_stages@ == file.build->0.rootfs_stages->0@,
        cli.extra_contexts@.len() == 0 && file.build is Some && file.build->0.extra_contexts is Some
            ==> c.extra_contexts@ == file.build->0.extra_contexts->0@,
        cli.extra_mounts@.len() == 0 && file.build is Some && file.build->0.extra_mounts is Some
            ==> c.extra_mounts@ == file.build->0.extra_mounts->0@,
        cli.extra_mounts@.len() == 0 && (file.build is None || file.build->0.extra_mounts is None)
            ==> c.extra_mounts@.len() == 0,
        cli.extra_contexts@.len() == 0 && (file.build is None || file.build->0.extra_contexts is None)
            ==> c.extra_contexts@.len() == 0,
{
}

/// The command line wins over the configuration file, and the file over
/// the defaults, for the tags and the base image (a command-line value
/// equal to the default counts as not given), the build cache, the
/// cleanup, the caches and the source directory; `quiet` comes from the
/// command line alone.
pub proof fn law_settings_command_line_over_file(c: TrellisConfig, cli: Cli, file: Config, hooks_dir_exists: bool)
    requires
        c.is_merge_of(cli, file, hooks_dir_exists),
    ensures
        cli.builder_tag@ != DEFAULT_BUILDER_TAG@ ==> c.builder_tag@ == cli.builder_tag@,
        cli.rootfs_tag@ != DEFAULT_ROOTFS_TAG@ ==> c.rootfs_tag@ == cli.rootfs_tag@,
        cli.rootfs_base@ != DEFAULT_ROOTFS_BASE@ ==> c.rootfs_base@ == cli.rootfs_base@,
        cli.builder_tag@ == DEFAULT_BUILDER_TAG@ && file.build is Some && file.build->0.builder_tag is Some
            ==> c.builder_tag@ == file.build->0.builder_tag->0@,
        cli.rootfs_tag@ == DEFAULT_ROOTFS_TAG@ && file.build is Some && file.build->0.rootfs_tag is Some
            ==> c.rootfs_tag@ == file.build->0.rootfs_tag->0@,
        cli.rootfs_base@ == DEFAULT_ROOTFS_BASE@ && file.build is Some && file.build->0.rootfs_base is Some
            ==> c.rootfs_base@ == file.build->0.rootfs_base->0@,
        cli.builder_tag@ == DEFAULT_BUILDER_TAG@ && (file.build is None || file.build->0.builder_tag is None)
            ==> c.builder_tag@ == DEFAULT_BUILDER_TAG@,
        cli.rootfs_tag@ == DEFAULT_ROOTFS_TAG@ && (file.build is None || file.build->0.rootfs_tag is None)
            ==> c.rootfs_tag@ == DEFAULT_ROOTFS_TAG@,
        cli.podman_build_cache is Some ==> c.podman_build_cache == cli.podman_build_cache->0,
        cli.podman_build_cache is None && file.build is Some && file.build->0.podman_build_cache is Some
            ==> c.podman_build_cache == file.build->0.podman_build_cache->0,
        cli.podman_build_cache is None && (file.build is None || file.build->0.podman_build_cache is None)
            ==> !c.podman_build_cache,
        c.auto_clean <==> (cli.auto_clean || (file.build is Some && file.build->0.auto_clean == Some(true))),
        cli.src_dir is Some ==> c.src_dir@ == cli.src_dir->0@,
        cli.src_dir is None && file.environment is Some && file.environment->0.src_dir is Some
            ==> c.src_dir@ == file.environment->0.src_dir->0@,
        cli.src_dir is None && (file.environment is None || file.environment->0.src_dir is None)
            ==> c.src_dir@ == DEFAULT_SRC_DIR@,
        cli.pacman_cache is Some ==> c.pacman_cache is Some && c.pacman_cache->0@ == cli.pacman_cache->0@,
        cli.aur_cache is Some ==> c.aur_cache is Some && c.aur_cache->0@ == cli.aur_cache->0@,
        cli.pacman_cache is None && file.environment is Some && file.environment->0.pacman_cache is Some
            ==> c.pacman_cache is Some && c.pacman_cache->0@ == file.environment->0.pacman_cache->0@,
        cli.aur_cache is None && file.environment is Some && file.environment->0.aur_cache is Some
            ==> c.aur_cache is Some && c.aur_cache->0@ == file.environment->0.aur_cache->0@,
        cli.pacman_cache is None && (file.environment is None || file.environment->0.pacman_cache is None)
            ==> c.pacman_cache is None,
        cli.aur_cache is None && (file.environment is None || file.environment->0.aur_cache is None)
            ==> c.aur_cache is None,
        c.quiet == cli.quiet,
{
}

} // verus!
