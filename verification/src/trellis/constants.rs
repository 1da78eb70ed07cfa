//! Constants and default values used throughout trellis.

use vstd::prelude::*;

verus! {

/// Default location for the trellis configuration file.
pub const DEFAULT_CONFIG_PATH: &'static str = "/etc/trellis/trellis.toml";

/// Default location for the trellis hooks directory.
pub const DEFAULT_HOOKS_DIR: &'static str = "/etc/trellis/hooks.d";

/// Default source directory for containerfiles.
pub const DEFAULT_SRC_DIR: &'static str = "/var/lib/trellis/src";

/// Default pacman cache directory.
pub const DEFAULT_PACMAN_CACHE: &'static str = "/var/cache/pacman/pkg";

/// Default AUR cache directory.
pub const DEFAULT_AUR_CACHE: &'static str = "/var/cache/trellis/aur";

/// Default builder container tag.
pub const DEFAULT_BUILDER_TAG: &'static str = "trellis-builder";

/// Default rootfs container tag.
pub const DEFAULT_ROOTFS_TAG: &'static str = "trellis-rootfs";

/// Default base image of the first rootfs stage.
pub const DEFAULT_ROOTFS_BASE: &'static str = "scratch";

/// Container registry prefix for local images.
pub const LOCALHOST_PREFIX: &'static str = "localhost/";

/// Tag prefix of intermediate builder images.
pub const BUILDER_PREFIX: &'static str = "trellis-builder";

/// Tag prefix of intermediate rootfs stage images.
pub const STAGE_PREFIX: &'static str = "trellis-stage";

/// Containerfile filename prefix.
pub const CONTAINERFILE_PREFIX: &'static str = "Containerfile.";

/// Maximum directory depth searched for containerfiles.
pub const MAX_SEARCH_DEPTH: usize = 20;

/// Number of discovery results the containerfile cache keeps.
pub const DISCOVERY_CACHE_CAPACITY: usize = 100;

/// Error message when no rootfs stages are defined.
pub const NO_ROOTFS_STAGES: &'static str = "No rootfs stages defined";

/// Error message when no builder stages are defined.
pub const NO_BUILDER_STAGES: &'static str = "No builder stages defined";

/// Error message when some stages have no containerfile.
pub const MISSING_CONTAINERFILES: &'static str = "Missing required containerfiles";

/// Error message when a containerfile cannot be found.
pub const CONTAINERFILE_NOT_FOUND: &'static str = "Containerfile not found";

/// Environment variable that overrides the configuration file path.
pub const CONFIG_PATH_VAR: &'static str = "TRELLIS_CONFIG";

/// Environment variable that skips the root check.
pub const SKIP_ROOT_CHECK_VAR: &'static str = "TRLS_SKIP_ROOT_CHECK";

/// Environment variable that controls buildah layer caching.
pub const BUILDAH_LAYERS_VAR: &'static str = "BUILDAH_LAYERS";

} // verus!
