//! Podman build command lines and the plan of a multi-stage build.

use vstd::prelude::*;

use crate::config::TrellisConfig;
use crate::config::merger::opt_view;
use crate::trellis::constants::LOCALHOST_PREFIX;
use crate::text::{concat2, str_equal, views};
use crate::trellis::discovery::{stage_parts, ContainerfileDiscovery};


verus! {

/// Type of container build operation.
#[derive(Debug, Clone, Copy, PartialEq, Eq, Structural)]
pub enum BuildType {
    Builder,
    Rootfs,
}

/// Builder for podman build arguments; each method appends its arguments.
#[derive(Debug, Clone)]
pub struct PodmanCommandBuilder {
    args: Vec<String>,
}

impl View for PodmanCommandBuilder {
    type V = Seq<Seq<char>>;

    closed spec fn view(&self) -> Seq<Seq<char>> {
        views(self.args@)
    }
}

/// The arguments every build command starts with: host networking, the
/// `sys_admin` and `mknod` capabilities, and squashed layers.
pub open spec fn standard_build_args() -> Seq<Seq<char>> {
    seq!["--net"@, "host"@, "--cap-add"@, "sys_admin"@, "--cap-add"@, "mknod"@, "--squash"@]
}

impl PodmanCommandBuilder {
    fn push_arg(self, arg: String) -> (r: Self)
        ensures
            r@ == self@.push(arg@),
    {
        let mut s = self;
        s.args.push(arg);
        proof {
            assert(views(s.args@) =~= views(self.args@).push(arg@));
        }
        s
    }

    fn push_pair(self, a: String, b: String) -> (r: Self)
        ensures
            r@ == self@ + seq![a@, b@],
    {
        let r = self.push_arg(a).push_arg(b);
        assert(r@ =~= self@ + seq![a@, b@]);
        r
    }

    /// An empty argument list.
    pub fn new() -> (r: Self)
        ensures
            r@ == Seq::<Seq<char>>::empty(),
    {
        let r = PodmanCommandBuilder { args: Vec::new() };
        assert(r@ =~= Seq::<Seq<char>>::empty());
        r
    }

    /// A build command with the standard networking and capabilities.
    pub fn new_build_command() -> (r: Self)
        ensures
            r@ == standard_build_args(),
    {
        let r = Self::new().build_subcommand().network_host().add_capability("sys_admin").add_capability(
            "mknod",
        ).squash();
        assert(r@ =~= standard_build_args());
        r
    }

    /// The `build` subcommand; the executor adds it, so nothing is appended.
    pub fn build_subcommand(self) -> (r: Self)
        ensures
            r@ == self@,
    {
        self
    }

    /// Appends `--no-cache` when `no_cache` holds.
    pub fn no_cache(self, no_cache: bool) -> (r: Self)
        ensures
            r@ == if no_cache { self@.push("--no-cache"@) } else { self@ },
    {
        if no_cache {
            self.push_arg(String::from_str("--no-cache"))
        } else {
            self
        }
    }

    /// Appends `--net host`.
    pub fn network_host(self) -> (r: Self)
        ensures
            r@ == self@ + seq!["--net"@, "host"@],
    {
        self.push_pair(String::from_str("--net"), String::from_str("host"))
    }

    /// Appends `--cap-add <cap>`.
    pub fn add_capability(self, cap: &str) -> (r: Self)
        ensures
            r@ == self@ + seq!["--cap-add"@, cap@],
    {
        self.push_pair(String::from_str("--cap-add"), String::from_str(cap))
    }

    /// Appends `--squash`.
    pub fn squash(self) -> (r: Self)
        ensures
            r@ == self@.push("--squash"@),
    {
        self.push_arg(String::from_str("--squash"))
    }

    /// Appends `-f <path>`.
    pub fn containerfile(self, path: &str) -> (r: Self)
        ensures
            r@ == self@ + seq!["-f"@, path@],
    {
        self.push_pair(String::from_str("-f"), String::from_str(path))
    }

    /// Appends `--build-arg <key>=<value>`.
    pub fn build_arg(self, key: &str, value: &str) -> (r: Self)
        ensures
            r@ == self@ + seq!["--build-arg"@, key@ + "="@ + value@],
    {
        let kv = concat2(concat2(key, "=").as_str(), value);
        self.push_pair(String::from_str("--build-arg"), kv)
    }

    /// Appends `--target <target>`.
    pub fn target(self, target: &str) -> (r: Self)
        ensures
            r@ == self@ + seq!["--target"@, target@],
    {
        self.push_pair(String::from_str("--target"), String::from_str(target))
    }

    /// Appends `-t <tag>`.
    pub fn tag(self, tag: &str) -> (r: Self)
        ensures
            r@ == self@ + seq!["-t"@, tag@],
    {
        self.push_pair(String::from_str("-t"), String::from_str(tag))
    }

    /// Appends `-v <mount>`.
    pub fn volume(self, mount: &str) -> (r: Self)
        ensures
            r@ == self@ + seq!["-v"@, mount@],
    {
        self.push_pair(String::from_str("-v"), String::from_str(mount))
    }

    /// Appends `--build-context <context>`.
    pub fn build_context(self, context: &str) -> (r: Self)
        ensures
            r@ == self@ + seq!["--build-context"@, context@],
    {
        self.push_pair(String::from_str("--build-context"), String::from_str(context))
    }

    /// The collected arguments.
    pub fn build_args(self) -> (r: Vec<String>)
        ensures
            views(r@) == self@,
    {
        self.args
    }
}

impl Default for PodmanCommandBuilder {
    fn default() -> (r: Self)
        ensures
            r@ == Seq::<Seq<char>>::empty(),
    {
        Self::new()
    }
}


/// What the program found when it prepared a cache directory for mounting
/// (creating it, then reading its metadata).
#[derive(Debug, Clone)]
pub enum CacheDirStatus {
    /// The directory exists and is writable.
    Usable,
    /// Creating the directory failed; `shown_dir` is the path as the program
    /// shows it in messages and `detail` the system's error text.
    CreateFailed { shown_dir: String, detail: String, permission_denied: bool },
    /// The directory is read-only.
    ReadOnly { shown_dir: String },
    /// The directory's metadata could not be read.
    Inaccessible { shown_dir: String, detail: String },
}

/// Why a build could not be planned.
#[derive(Debug, Clone)]
pub enum BuildError {
    /// A cache directory could not be created.
    CacheCreateFailed { cache_name: String, shown_dir: String, detail: String },
    /// A cache directory could not be created for lack of permission.
    CachePermissionDenied { cache_name: String },
    /// A cache directory is read-only.
    CacheReadOnly { cache_name: String, shown_dir: String },
    /// A cache directory could not be inspected.
    CacheInaccessible { cache_name: String, shown_dir: String, detail: String },
}

impl BuildError {
    /// The text of the error message.
    pub open spec fn spec_message(self) -> Seq<char> {
        match self {
            BuildError::CacheCreateFailed { cache_name, shown_dir, detail } => "Failed to create "@
                + cache_name@ + " cache directory: "@ + shown_dir@ + " - "@ + detail@,
            BuildError::CachePermissionDenied { cache_name } => "Permission denied creating "@
                + cache_name@
                + " cache directory. Try running with elevated privileges or choose a different cache location."@,
            BuildError::CacheReadOnly { cache_name, shown_dir } => cache_name@
                + " cache directory is read-only: "@ + shown_dir@,
            BuildError::CacheInaccessible { cache_name, shown_dir, detail } => "Cannot access "@
                + cache_name@ + " cache directory: "@ + shown_dir@ + " - "@ + detail@,
        }
    }

    /// The error message, as the program reports it.
    pub fn message(&self) -> (r: String)
        ensures
            r@ == self.spec_message(),
    {
        match self {
            BuildError::CacheCreateFailed { cache_name, shown_dir, detail } => {
                let a = concat2("Failed to create ", cache_name.as_str());
                let b = concat2(a.as_str(), " cache directory: ");
                let c = concat2(b.as_str(), shown_dir.as_str());
                let d = concat2(c.as_str(), " - ");
                concat2(d.as_str(), detail.as_str())
            },
            BuildError::CachePermissionDenied { cache_name } => {
                let a = concat2("Permission denied creating ", cache_name.as_str());
                concat2(
                    a.as_str(),
                    " cache directory. Try running with elevated privileges or choose a different cache location.",
                )
            },
            BuildError::CacheReadOnly { cache_name, shown_dir } => {
                let a = concat2(cache_name.as_str(), " cache directory is read-only: ");
                concat2(a.as_str(), shown_dir.as_str())
            },
            BuildError::CacheInaccessible { cache_name, shown_dir, detail } => {
                let a = concat2("Cannot access ", cache_name.as_str());
                let b = concat2(a.as_str(), " cache directory: ");
                let c = concat2(b.as_str(), shown_dir.as_str());
                let d = concat2(c.as_str(), " - ");
                concat2(d.as_str(), detail.as_str())
            },
        }
    }
}

/// The error, if any, that mounting a cache directory in `status` raises.
pub open spec fn cache_error(cache_name: Seq<char>, status: CacheDirStatus) -> Option<Seq<char>> {
    match status {
        CacheDirStatus::Usable => None,
        CacheDirStatus::CreateFailed { shown_dir, detail, permission_denied } => if permission_denied {
            Some(
                "Permission denied creating "@ + cache_name
                    + " cache directory. Try running with elevated privileges or choose a different cache location."@,
            )
        } else {
            Some("Failed to create "@ + cache_name + " cache directory: "@ + shown_dir@ + " - "@ + detail@)
        },
        CacheDirStatus::ReadOnly { shown_dir } => Some(
            cache_name + " cache directory is read-only: "@ + shown_dir@,
        ),
        CacheDirStatus::Inaccessible { shown_dir, detail } => Some(
            "Cannot access "@ + cache_name + " cache directory: "@ + shown_dir@ + " - "@ + detail@,
        ),
    }
}


/// The arguments that mount cache directory `dir` (when set) at
/// `container_path`.
pub open spec fn cache_mount_args(dir: Option<Seq<char>>, container_path: Seq<char>) -> Seq<Seq<char>> {
    match dir {
        Some(d) => seq!["-v"@, d + ":"@ + container_path],
        None => Seq::<Seq<char>>::empty(),
    }
}

/// `flag item` for each item, in order.
pub open spec fn flag_pairs(flag: Seq<char>, items: Seq<Seq<char>>) -> Seq<Seq<char>>
    decreases items.len(),
{
    if items.len() == 0 {
        Seq::<Seq<char>>::empty()
    } else {
        flag_pairs(flag, items.drop_last()) + seq![flag, items.last()]
    }
}

/// `-v path:path` for each path, in order.
pub open spec fn bind_mount_args(paths: Seq<Seq<char>>) -> Seq<Seq<char>>
    decreases paths.len(),
{
    if paths.len() == 0 {
        Seq::<Seq<char>>::empty()
    } else {
        bind_mount_args(paths.drop_last()) + seq!["-v"@, paths.last() + ":"@ + paths.last()]
    }
}

/// The hooks directory mount and build argument, when a hooks directory is set.
pub open spec fn hooks_args(hooks_dir: Option<Seq<char>>) -> Seq<Seq<char>> {
    match hooks_dir {
        Some(h) => seq!["-v"@, h + ":"@ + h, "--build-arg"@, "HOOKS_DIR"@ + "="@ + h],
        None => Seq::<Seq<char>>::empty(),
    }
}

/// The arguments that a rootfs build adds: build contexts, the pacman and
/// AUR cache mounts, the hooks directory, and the extra mounts.
pub open spec fn rootfs_config_args(config: TrellisConfig) -> Seq<Seq<char>> {
    flag_pairs("--build-context"@, views(config.extra_contexts@)) + cache_mount_args(
        opt_view(config.pacman_cache),
        "/var/cache/pacman/pkg"@,
    ) + cache_mount_args(opt_view(config.aur_cache), "/var/cache/trellis/aur"@) + hooks_args(
        opt_view(config.hooks_dir),
    ) + bind_mount_args(views(config.extra_mounts@))
}

/// The error, if any, that preparing the caches of `config` raises: the
/// pacman cache first, then the AUR cache.
pub open spec fn rootfs_config_error(
    config: TrellisConfig,
    pacman: CacheDirStatus,
    aur: CacheDirStatus,
) -> Option<Seq<char>> {
    if config.pacman_cache is Some && cache_error("pacman"@, pacman) is Some {
        cache_error("pacman"@, pacman)
    } else if config.aur_cache is Some {
        cache_error("AUR"@, aur)
    } else {
        None
    }
}

/// The base image of a stage: the previous stage's image, or for the first
/// stage the configured rootfs base (rootfs builds) or `scratch` (builder
/// builds).
pub open spec fn base_image_of(config: TrellisConfig, build_type: BuildType, last_stage: Seq<char>) -> Seq<char> {
    if last_stage.len() == 0 {
        match build_type {
            BuildType::Rootfs => config.rootfs_base@,
            BuildType::Builder => "scratch"@,
        }
    } else {
        LOCALHOST_PREFIX@ + last_stage
    }
}

/// The tag of stage `i` of `stages`: the final tag for the last stage, else
/// `trellis-<tmp>-<group>-<stage>` or, when group and stage coincide,
/// `trellis-<tmp>-<stage>`.
pub open spec fn stage_tag_of(
    tmp_name: Seq<char>,
    final_tag: Seq<char>,
    stages: Seq<Seq<char>>,
    i: int,
) -> Seq<char> {
    if i == stages.len() - 1 {
        final_tag
    } else {
        let (group, stage) = stage_parts(stages[i]);
        if stage != group {
            "trellis-"@ + tmp_name + "-"@ + group + "-"@ + stage
        } else {
            "trellis-"@ + tmp_name + "-"@ + stage
        }
    }
}

/// The build arguments of one stage.
pub open spec fn stage_args_of(
    config: TrellisConfig,
    build_type: BuildType,
    containerfile: Seq<char>,
    base_image: Seq<char>,
    stage: Seq<char>,
    tag: Seq<char>,
) -> Seq<Seq<char>> {
    standard_build_args() + seq![
        "-f"@,
        containerfile,
        "--build-arg"@,
        "BASE_IMAGE"@ + "="@ + base_image,
        "--target"@,
        stage,
        "-t"@,
        tag,
    ] + (if !config.podman_build_cache {
        seq!["--no-cache"@]
    } else {
        Seq::<Seq<char>>::empty()
    }) + (if build_type == BuildType::Rootfs {
        rootfs_config_args(config)
    } else {
        Seq::<Seq<char>>::empty()
    })
}

/// One planned stage of a multi-stage build.
#[derive(Debug, Clone)]
pub struct StagePlan {
    /// The tag the stage's image gets.
    pub tag: String,
    /// The file name group whose containerfile builds the stage.
    pub group: String,
    /// The `podman build` arguments.
    pub args: Vec<String>,
}

/// The error, if any, that planning a stage raises: only rootfs builds
/// mount caches.
pub open spec fn planned_error(
    config: TrellisConfig,
    build_type: BuildType,
    pacman: CacheDirStatus,
    aur: CacheDirStatus,
) -> Option<Seq<char>> {
    if build_type == BuildType::Rootfs {
        rootfs_config_error(config, pacman, aur)
    } else {
        None
    }
}

impl StagePlan {
    /// Whether this is the plan of stage `i` of `stages`: its tag, the group
    /// whose containerfile builds it, and its build arguments.
    pub open spec fn is_plan_of(
        self,
        config: TrellisConfig,
        tmp_name: Seq<char>,
        final_tag: Seq<char>,
        stages: Seq<Seq<char>>,
        i: int,
        build_type: BuildType,
        last_stage: Seq<char>,
        containerfile: Seq<char>,
    ) -> bool {
        &&& self.tag@ == stage_tag_of(tmp_name, final_tag, stages, i)
        &&& self.group@ == stage_parts(stages[i]).0
        &&& views(self.args@) == stage_args_of(
            config,
            build_type,
            containerfile,
            base_image_of(config, build_type, last_stage),
            stage_parts(stages[i]).1,
            self.tag@,
        )
    }
}

/// The stage-independent part of container building: base images, stage
/// tags and the arguments of each stage.
pub struct ContainerBuilder<'a> {
    config: &'a TrellisConfig,
}

impl<'a> ContainerBuilder<'a> {
    /// The configuration this builder plans with.
    pub closed spec fn spec_config(&self) -> TrellisConfig {
        *self.config
    }

    /// A builder for `config`.
    pub fn new(config: &'a TrellisConfig) -> (r: Self)
        ensures
            r.spec_config() == *config,
    {
        ContainerBuilder { config }
    }

    /// The configuration this builder plans with.
    pub fn config(&self) -> (r: &'a TrellisConfig)
        ensures
            *r == self.spec_config(),
    {
        self.config
    }

    /// The base image of a stage; see `base_image_of`.
    pub fn determine_base_image(&self, _stage_index: usize, build_type: BuildType, last_stage: &str) -> (r: String)
        ensures
            r@ == base_image_of(self.spec_config(), build_type, last_stage@),
    {
        if last_stage.unicode_len() == 0 {
            match build_type {
                BuildType::Rootfs => self.config.rootfs_base.clone(),
                BuildType::Builder => String::from_str("scratch"),
            }
        } else {
            concat2(LOCALHOST_PREFIX, last_stage)
        }
    }

    /// The tag of stage `i`; see `stage_tag_of`.
    pub fn stage_tag(tmp_name: &str, final_tag: &str, build_stages: &[String], i: usize) -> (r: String)
        requires
            i < build_stages@.len(),
        ensures
            r@ == stage_tag_of(tmp_name@, final_tag@, views(build_stages@), i as int),
    {
        if i == build_stages.len() - 1 {
            String::from_str(final_tag)
        } else {
            let (group, stage) = ContainerfileDiscovery::parse_stage_name(build_stages[i].as_str());
            let prefix = concat2(concat2("trellis-", tmp_name).as_str(), "-");
            if !str_equal(stage.as_str(), group.as_str()) {
                let a = concat2(prefix.as_str(), group.as_str());
                let b = concat2(a.as_str(), "-");
                concat2(b.as_str(), stage.as_str())
            } else {
                concat2(prefix.as_str(), stage.as_str())
            }
        }
    }

    /// Appends the mount of cache directory `cache_path` at
    /// `container_path`, when a cache is set, given what the program found
    /// when it prepared the directory.
    pub fn add_cache_mount(
        &self,
        builder: PodmanCommandBuilder,
        cache_path: &Option<String>,
        cache_name: &str,
        container_path: &str,
        status: &CacheDirStatus,
    ) -> (r: Result<PodmanCommandBuilder, BuildError>)
        ensures
            match cache_path {
                None => r matches Ok(b) && b@ == builder@,
                Some(d) => match cache_error(cache_name@, *status) {
                    Some(m) => r matches Err(e) && e.spec_message() == m,
                    None => r matches Ok(b) && b@ == builder@ + cache_mount_args(
                        Some(d@),
                        container_path@,
                    ),
                },
            },
    {
        match cache_path {
            None => Ok(builder),
            Some(dir) => match status {
                CacheDirStatus::Usable => {
                    let mount = concat2(concat2(dir.as_str(), ":").as_str(), container_path);
                    Ok(builder.volume(mount.as_str()))
                },
                CacheDirStatus::CreateFailed { shown_dir, detail, permission_denied } => {
                    if *permission_denied {
                        Err(BuildError::CachePermissionDenied { cache_name: String::from_str(cache_name) })
                    } else {
                        Err(
                            BuildError::CacheCreateFailed {
                                cache_name: String::from_str(cache_name),
                                shown_dir: shown_dir.clone(),
                                detail: detail.clone(),
                            },
                        )
                    }
                },
                CacheDirStatus::ReadOnly { shown_dir } => Err(
                    BuildError::CacheReadOnly {
                        cache_name: String::from_str(cache_name),
                        shown_dir: shown_dir.clone(),
                    },
                ),
                CacheDirStatus::Inaccessible { shown_dir, detail } => Err(
                    BuildError::CacheInaccessible {
                        cache_name: String::from_str(cache_name),
                        shown_dir: shown_dir.clone(),
                        detail: detail.clone(),
                    },
                ),
            },
        }
    }

    /// Appends the rootfs-specific arguments: build contexts, cache mounts,
    /// the hooks directory and the extra mounts.
    pub fn add_rootfs_config(
        &self,
        builder: PodmanCommandBuilder,
        pacman: &CacheDirStatus,
        aur: &CacheDirStatus,
    ) -> (r: Result<PodmanCommandBuilder, BuildError>)
        ensures
            match rootfs_config_error(self.spec_config(), *pacman, *aur) {
                Some(m) => r matches Err(e) && e.spec_message() == m,
                None => r matches Ok(b) && b@ == builder@ + rootfs_config_args(self.spec_config()),
            },
    {
        let config = self.config;
        let ghost start = builder@;
        let mut b = builder;
        let contexts = &config.extra_contexts;
        let mut i: usize = 0;
        while i < contexts.len()
            invariant
                i <= contexts@.len(),
                b@ == start + flag_pairs("--build-context"@, views(contexts@).take(i as int)),
            decreases contexts@.len() - i,
        {
            let ghost before = b@;
            b = b.build_context(contexts[i].as_str());
            proof {
                let t = views(contexts@).take(i + 1);
                assert(t.drop_last() =~= views(contexts@).take(i as int));
                assert(t.last() == contexts@[i as int]@);
                assert(b@ =~= start + flag_pairs("--build-context"@, t));
            }
            i += 1;
        }
        assert(views(contexts@).take(contexts@.len() as int) =~= views(contexts@));
        let ghost after_contexts = b@;
        b = match self.add_cache_mount(b, &config.pacman_cache, "pacman", "/var/cache/pacman/pkg", pacman) {
            Ok(b) => b,
            Err(e) => {
                return Err(e);
            },
        };
        b = match self.add_cache_mount(b, &config.aur_cache, "AUR", "/var/cache/trellis/aur", aur) {
            Ok(b) => b,
            Err(e) => {
                return Err(e);
            },
        };
        let ghost after_caches = b@;
        if let Some(hooks_dir) = &config.hooks_dir {
            let mount = concat2(concat2(hooks_dir.as_str(), ":").as_str(), hooks_dir.as_str());
            b = b.volume(mount.as_str()).build_arg("HOOKS_DIR", hooks_dir.as_str());
        }
        assert(b@ =~= after_caches + hooks_args(opt_view(config.hooks_dir)));
        let ghost after_hooks = b@;
        let mounts = &config.extra_mounts;
        let mut j: usize = 0;
        while j < mounts.len()
            invariant
                j <= mounts@.len(),
                b@ == after_hooks + bind_mount_args(views(mounts@).take(j as int)),
            decreases mounts@.len() - j,
        {
            let m = mounts[j].as_str();
            let mount = concat2(concat2(m, ":").as_str(), m);
            b = b.volume(mount.as_str());
            proof {
                let t = views(mounts@).take(j + 1);
                assert(t.drop_last() =~= views(mounts@).take(j as int));
                assert(t.last() == mounts@[j as int]@);
                assert(b@ =~= after_hooks + bind_mount_args(t));
            }
            j += 1;
        }
        assert(views(mounts@).take(mounts@.len() as int) =~= views(mounts@));
        assert(b@ =~= builder@ + rootfs_config_args(self.spec_config()));
        Ok(b)
    }

    /// Plans stage `i` of a multi-stage build: its tag and its `podman build`
    /// arguments, given the containerfile found for its group, the tag of the
    /// previous stage (empty for the first), and, for rootfs builds, what the
    /// program found when it prepared the cache directories.
    pub fn plan_stage(
        &self,
        tmp_name: &str,
        final_tag: &str,
        build_stages: &[String],
        i: usize,
        build_type: BuildType,
        last_stage: &str,
        containerfile: &str,
        pacman: &CacheDirStatus,
        aur: &CacheDirStatus,
    ) -> (r: Result<StagePlan, BuildError>)
        requires
            i < build_stages@.len(),
        ensures
            match planned_error(self.spec_config(), build_type, *pacman, *aur) {
                Some(m) => r matches Err(e) && e.spec_message() == m,
                None => r matches Ok(p) && p.is_plan_of(
                    self.spec_config(),
                    tmp_name@,
                    final_tag@,
                    views(build_stages@),
                    i as int,
                    build_type,
                    last_stage@,
                    containerfile@,
                ),
            },
    {
        let (group, stage) = ContainerfileDiscovery::parse_stage_name(build_stages[i].as_str());
        let tag = Self::stage_tag(tmp_name, final_tag, build_stages, i);
        let base_image = self.determine_base_image(i, build_type, last_stage);
        let mut builder = PodmanCommandBuilder::new_build_command().containerfile(containerfile).build_arg(
            "BASE_IMAGE",
            base_image.as_str(),
        ).target(stage.as_str()).tag(tag.as_str()).no_cache(!self.config.podman_build_cache);
        let ghost before_rootfs = builder@;
        if build_type == BuildType::Rootfs {
            builder = match self.add_rootfs_config(builder, pacman, aur) {
                Ok(b) => b,
                Err(e) => {
                    return Err(e);
                },
            };
        }
        let args = builder.build_args();
        assert(views(args@) =~= stage_args_of(
            self.spec_config(),
            build_type,
            containerfile@,
            base_image@,
            stage@,
            tag@,
        ));
        Ok(StagePlan { tag, group, args })
    }
}


/// The last stage of a build is tagged with the final tag, and every other
/// stage with a tag that starts `trellis-<tmp_name>-`.
pub proof fn law_stage_tags(tmp_name: Seq<char>, final_tag: Seq<char>, stages: Seq<Seq<char>>, i: int)
    requires
        0 <= i < stages.len(),
    ensures
        i == stages.len() - 1 ==> stage_tag_of(tmp_name, final_tag, stages, i) == final_tag,
        i < stages.len() - 1 ==> crate::text::seq_starts_with(
            stage_tag_of(tmp_name, final_tag, stages, i),
            "trellis-"@ + tmp_name + "-"@,
        ),
{
    if i < stages.len() - 1 {
        let p = "trellis-"@ + tmp_name + "-"@;
        let t = stage_tag_of(tmp_name, final_tag, stages, i);
        assert(t.subrange(0, p.len() as int) =~= p);
    }
}


/// Each stage after the first is built on the image of the stage before it:
/// planning stage `i` with the previous stage's tag gives the base image
/// `localhost/<previous tag>`.
pub proof fn law_base_image_is_previous_stage(
    config: TrellisConfig,
    build_type: BuildType,
    tmp_name: Seq<char>,
    final_tag: Seq<char>,
    stages: Seq<Seq<char>>,
    i: int,
)
    requires
        0 < i < stages.len(),
    ensures
        base_image_of(config, build_type, stage_tag_of(tmp_name, final_tag, stages, i - 1))
            == LOCALHOST_PREFIX@ + stage_tag_of(tmp_name, final_tag, stages, i - 1),
{
    reveal_strlit("trellis-");
    let t = stage_tag_of(tmp_name, final_tag, stages, i - 1);
    let (group, stage) = stage_parts(stages[i - 1]);
    if stage != group {
        assert(t == "trellis-"@ + tmp_name + "-"@ + group + "-"@ + stage);
    } else {
        assert(t == "trellis-"@ + tmp_name + "-"@ + stage);
    }
    assert(t[0] == 't');
}

} // verus!
