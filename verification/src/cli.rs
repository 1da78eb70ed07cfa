//! The command line, as plain values.
//!
//! The program parses its arguments into these types; defaults that the
//! command line gives are the same as the configuration defaults.

use vstd::prelude::*;

verus! {

/// The parsed command line.
#[derive(Debug, Clone)]
pub struct Cli {
    /// The subcommand to run.
    pub command: Commands,
    /// Name of the tag to use for the pacstrap container.
    pub builder_tag: String,
    /// Enable/disable the podman build cache.
    pub podman_build_cache: Option<bool>,
    /// Remove intermediate images after a build.
    pub auto_clean: bool,
    /// Path to a persistent pacman package cache.
    pub pacman_cache: Option<String>,
    /// Path to use as a persistent AUR package build cache.
    pub aur_cache: Option<String>,
    /// Path to the directory with Containerfiles and setup files.
    pub src_dir: Option<String>,
    /// Container build contexts.
    pub extra_contexts: Vec<String>,
    /// Directories or files to be bind mounted.
    pub extra_mounts: Vec<String>,
    /// The image stages to build.
    pub rootfs_stages: Vec<String>,
    /// Base image of the first rootfs stage.
    pub rootfs_base: String,
    /// Name of the tag to use for the rootfs container.
    pub rootfs_tag: String,
    /// The builder image stages to build.
    pub builder_stages: Vec<String>,
    /// Capture command output instead of streaming it.
    pub quiet: bool,
}

/// The subcommands.
#[derive(Debug, Clone)]
pub enum Commands {
    /// (Re-)build the pacstrap container that the other commands use.
    BuildBuilder,
    /// Build all requested stages from files in the source directory.
    Build,
    /// Remove unused container images.
    Clean,
    /// Run a command in the latest rootfs container.
    Run { args: Vec<String> },
    /// Build the rootfs and run `bootc upgrade`.
    Update,
    /// Update the packages of the existing rootfs image in place.
    QuickUpdate,
    /// Generate a bootable disk image from a built container.
    Image {
        /// Build the rootfs image before generating the disk image.
        build: bool,
        /// Image tag to use (default: the rootfs tag).
        image: Option<String>,
        /// Output path of the disk image.
        output: String,
        /// Filesystem type of the root partition.
        filesystem: String,
        /// Size of the image in GB.
        size: u64,
    },
}

} // verus!
