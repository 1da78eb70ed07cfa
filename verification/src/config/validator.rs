//! Validation of merged configurations.

use vstd::prelude::*;

use super::merger::opt_view;
use super::{ConfigError, TrellisConfig};
use crate::text::str_equal;

verus! {

/// Where the trailing separators and `.` components of `p[0..end]` end,
/// keeping a leading root `/` or a leading `.`: the end of `p[0..end]` as
/// a path's components see it.
pub open spec fn trim_back(p: Seq<char>, end: int) -> int
    decreases end,
{
    if end > 1 && p[end - 1] == '/' {
        trim_back(p, end - 1)
    } else if end >= 2 && p[end - 1] == '.' && p[end - 2] == '/' {
        trim_back(p, end - 1)
    } else {
        end
    }
}

/// The index just after the last `/` of `p[0..end]`; 0 when it has none.
pub open spec fn last_sep_end(p: Seq<char>, end: int) -> int
    decreases end,
{
    if end <= 0 {
        0
    } else if p[end - 1] == '/' {
        end
    } else {
        last_sep_end(p, end - 1)
    }
}

/// The parent directory of the Unix path `p`, as `Path::parent` gives it:
/// none for the empty path and for the root; otherwise `p` without its last
/// component, without the separators and `.` components that end it, and
/// without the separators and `.` components before that (so the parent
/// of a single relative component is the empty path).
pub open spec fn parent_path(p: Seq<char>) -> Option<Seq<char>> {
    let e = trim_back(p, p.len() as int);
    if e == 0 || (e == 1 && p[0] == '/') {
        None
    } else {
        Some(p.subrange(0, trim_back(p, last_sep_end(p, e))))
    }
}

/// The parent directory of a cache directory, when one is set and its path
/// has a parent.
pub open spec fn cache_parent(cache: Option<String>) -> Option<Seq<char>> {
    match cache {
        Some(c) => parent_path(c@),
        None => None,
    }
}

/// `trim_back(p, end)`, computed.
fn trim_back_at(p: &str, end: usize) -> (r: usize)
    requires
        end <= p@.len(),
    ensures
        r == trim_back(p@, end as int),
        r <= end,
{
    let mut e = end;
    loop
        invariant
            e <= end <= p@.len(),
            trim_back(p@, e as int) == trim_back(p@, end as int),
        decreases e,
    {
        if e > 1 && p.get_char(e - 1) == '/' {
            e = e - 1;
        } else if e >= 2 && p.get_char(e - 1) == '.' && p.get_char(e - 2) == '/' {
            e = e - 1;
        } else {
            return e;
        }
    }
}

/// `last_sep_end(p, end)`, computed.
fn last_sep_end_at(p: &str, end: usize) -> (r: usize)
    requires
        end <= p@.len(),
    ensures
        r == last_sep_end(p@, end as int),
        r <= end,
{
    let mut e = end;
    loop
        invariant
            e <= end <= p@.len(),
            last_sep_end(p@, e as int) == last_sep_end(p@, end as int),
        decreases e,
    {
        if e == 0 || p.get_char(e - 1) == '/' {
            return e;
        }
        e = e - 1;
    }
}

/// The parent directory of the path `path`; see `parent_path`.
pub fn parent_dir(path: &str) -> (r: Option<String>)
    ensures
        opt_view(r) == parent_path(path@),
{
    let n = path.unicode_len();
    let e = trim_back_at(path, n);
    if e == 0 || (e == 1 && path.get_char(0) == '/') {
        None
    } else {
        let s = last_sep_end_at(path, e);
        let end = trim_back_at(path, s);
        Some(String::from_str(path.substring_char(0, end)))
    }
}

/// What the filesystem says about the paths of a configuration; the program
/// looks them up before validation.
#[derive(Debug, Clone, Copy)]
pub struct PathFacts {
    /// Whether the source directory exists.
    pub src_dir_exists: bool,
    /// Whether the source path is a directory.
    pub src_dir_is_dir: bool,
    /// Whether the parent of the pacman cache directory exists; read only
    /// when that cache is set and its path has a parent (`cache_parent`).
    pub pacman_cache_parent_exists: bool,
    /// Whether the parent of the AUR cache directory exists; read only when
    /// that cache is set and its path has a parent (`cache_parent`).
    pub aur_cache_parent_exists: bool,
}

/// Whether the pacman cache of `config` has a parent that does not exist.
pub open spec fn pacman_parent_missing(config: TrellisConfig, facts: PathFacts) -> bool {
    cache_parent(config.pacman_cache) is Some && !facts.pacman_cache_parent_exists
}

/// Whether the AUR cache of `config` has a parent that does not exist.
pub open spec fn aur_parent_missing(config: TrellisConfig, facts: PathFacts) -> bool {
    cache_parent(config.aur_cache) is Some && !facts.aur_cache_parent_exists
}

/// Whether the paths of `config` pass: the source directory exists and is
/// a directory, and the parent of each cache directory that is set, where
/// its path has one, exists.
pub open spec fn paths_valid(config: TrellisConfig, facts: PathFacts) -> bool {
    &&& facts.src_dir_exists
    &&& facts.src_dir_is_dir
    &&& !pacman_parent_missing(config, facts)
    &&& !aur_parent_missing(config, facts)
}

/// Whether `e` is the first path problem of `config`, in the order: missing
/// source directory, source path not a directory, missing pacman cache
/// parent, missing AUR cache parent; a missing parent is named by its path.
pub open spec fn is_first_path_error(config: TrellisConfig, facts: PathFacts, e: ConfigError) -> bool {
    if !facts.src_dir_exists {
        e == ConfigError::SrcDirMissing(config.src_dir)
    } else if !facts.src_dir_is_dir {
        e == ConfigError::SrcDirNotDirectory(config.src_dir)
    } else if pacman_parent_missing(config, facts) {
        e matches ConfigError::PacmanCacheParentMissing(p) && Some(p@) == cache_parent(config.pacman_cache)
    } else if aur_parent_missing(config, facts) {
        e matches ConfigError::AurCacheParentMissing(p) && Some(p@) == cache_parent(config.aur_cache)
    } else {
        false
    }
}

/// The first problem between settings of `config`: an empty builder tag, an
/// empty rootfs tag, or equal builder and rootfs tags.
pub open spec fn cross_dependency_error(config: TrellisConfig) -> Option<ConfigError> {
    if config.builder_tag@.len() == 0 {
        Some(ConfigError::EmptyBuilderTag)
    } else if config.rootfs_tag@.len() == 0 {
        Some(ConfigError::EmptyRootfsTag)
    } else if config.builder_tag@ == config.rootfs_tag@ {
        Some(ConfigError::SameTags(config.builder_tag))
    } else {
        None
    }
}

/// The error for an empty stage list of the given kind.
pub open spec fn empty_stages_error(stage_type: Seq<char>) -> ConfigError {
    if stage_type == "builder"@ {
        ConfigError::NoBuilderStages
    } else if stage_type == "rootfs"@ {
        ConfigError::NoRootfsStages
    } else {
        ConfigError::NoStages
    }
}

/// Centralized configuration validation.
pub struct ConfigValidator;

impl ConfigValidator {
    /// Validates a merged configuration: its paths first, then the relations
    /// between its settings. Stage lists are not checked here; empty stage
    /// lists are refused only by the operations that need stages.
    pub fn validate_complete(config: &TrellisConfig, facts: &PathFacts) -> (r: Result<(), ConfigError>)
        ensures
            !paths_valid(*config, *facts) ==> (r matches Err(e) && is_first_path_error(*config, *facts, e)),
            paths_valid(*config, *facts) ==> match cross_dependency_error(*config) {
                Some(e) => r == Err::<(), ConfigError>(e),
                None => r is Ok,
            },
    {
        match Self::validate_paths(config, facts) {
            Err(e) => Err(e),
            Ok(()) => Self::validate_cross_dependencies(config),
        }
    }

    /// The parents of the pacman and AUR cache directories of `config`, the
    /// paths whose existence `PathFacts` records.
    pub fn cache_parents(config: &TrellisConfig) -> (r: (Option<String>, Option<String>))
        ensures
            opt_view(r.0) == cache_parent(config.pacman_cache),
            opt_view(r.1) == cache_parent(config.aur_cache),
    {
        let pacman = match &config.pacman_cache {
            Some(c) => parent_dir(c.as_str()),
            None => None,
        };
        let aur = match &config.aur_cache {
            Some(c) => parent_dir(c.as_str()),
            None => None,
        };
        (pacman, aur)
    }

    /// Refuses an empty stage list; the error names the kind of stages
    /// ("builder" or "rootfs", anything else gives a generic message).
    pub fn validate_stages(stages: &[String], stage_type: &str) -> (r: Result<(), ConfigError>)
        ensures
            stages@.len() == 0 ==> r == Err::<(), ConfigError>(empty_stages_error(stage_type@)),
            stages@.len() > 0 ==> r is Ok,
    {
        if stages.len() == 0 {
            let err = if str_equal(stage_type, "builder") {
                ConfigError::NoBuilderStages
            } else if str_equal(stage_type, "rootfs") {
                ConfigError::NoRootfsStages
            } else {
                ConfigError::NoStages
            };
            return Err(err);
        }
        Ok(())
    }

    /// Validates the paths of a configuration against what the filesystem
    /// says of them.
    pub fn validate_paths(config: &TrellisConfig, facts: &PathFacts) -> (r: Result<(), ConfigError>)
        ensures
            r is Ok <==> paths_valid(*config, *facts),
            r matches Err(e) ==> is_first_path_error(*config, *facts, e),
    {
        if !facts.src_dir_exists {
            return Err(ConfigError::SrcDirMissing(config.src_dir.clone()));
        }
        if !facts.src_dir_is_dir {
            return Err(ConfigError::SrcDirNotDirectory(config.src_dir.clone()));
        }
        let (pacman, aur) = Self::cache_parents(config);
        if let Some(parent) = pacman {
            if !facts.pacman_cache_parent_exists {
                return Err(ConfigError::PacmanCacheParentMissing(parent));
            }
        }
        if let Some(parent) = aur {
            if !facts.aur_cache_parent_exists {
                return Err(ConfigError::AurCacheParentMissing(parent));
            }
        }
        Ok(())
    }

    /// Validates the relations between settings: both tags non-empty and
    /// different from each other.
    pub fn validate_cross_dependencies(config: &TrellisConfig) -> (r: Result<(), ConfigError>)
        ensures
            match cross_dependency_error(*config) {
                Some(e) => r == Err::<(), ConfigError>(e),
                None => r is Ok,
            },
    {
        if config.builder_tag.unicode_len() == 0 {
            return Err(ConfigError::EmptyBuilderTag);
        }
        if config.rootfs_tag.unicode_len() == 0 {
            return Err(ConfigError::EmptyRootfsTag);
        }
        if config.builder_tag == config.rootfs_tag {
            return Err(ConfigError::SameTags(config.builder_tag.clone()));
        }
        Ok(())
    }
}


/// Validation does not look at the stage lists: two configurations that
/// differ only in their stages are accepted or refused alike. Empty stage
/// lists are refused only by the operations that need stages.
pub proof fn law_validation_ignores_stages(a: TrellisConfig, b: TrellisConfig, facts: PathFacts, e: ConfigError)
    requires
        a.src_dir == b.src_dir,
        a.pacman_cache == b.pacman_cache,
        a.aur_cache == b.aur_cache,
        a.builder_tag == b.builder_tag,
        a.rootfs_tag == b.rootfs_tag,
    ensures
        paths_valid(a, facts) == paths_valid(b, facts),
        is_first_path_error(a, facts, e) == is_first_path_error(b, facts, e),
        cross_dependency_error(a) == cross_dependency_error(b),
{
}

} // verus!
