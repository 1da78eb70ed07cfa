//! Bootable disk image generation: image references, the size of the disk
//! image, and the command lines of the generation steps.

use vstd::prelude::*;

use crate::config::{Config, TrellisConfig};
use crate::config::merger::opt_view;
use crate::text::{
    clone_strings, concat2, contains_char, decimal, decimal_string, push_strs, str_equal, trim, trim_str, views,
};
use crate::trellis::common::{Outcome, OutcomeView};
use crate::trellis::constants::LOCALHOST_PREFIX;

verus! {

/// The full reference of an image named `tag`: with a registry (a `/`) and
/// a version (a `:`) it is kept; a missing version becomes `:latest`; a
/// missing registry becomes `localhost/`.
pub open spec fn full_image_ref(tag: Seq<char>) -> Seq<char> {
    if tag.contains('/') {
        if tag.contains(':') {
            tag
        } else {
            tag + ":latest"@
        }
    } else if tag.contains(':') {
        LOCALHOST_PREFIX@ + tag
    } else {
        LOCALHOST_PREFIX@ + tag + ":latest"@
    }
}

/// The image reference that `resolve_image_tag` gives: the given image in
/// full, or the configured rootfs image at `localhost` with `:latest`.
pub open spec fn resolved_image_ref(rootfs_tag: Seq<char>, cli_image: Option<Seq<char>>) -> Seq<char> {
    match cli_image {
        None => LOCALHOST_PREFIX@ + rootfs_tag + ":latest"@,
        Some(tag) => full_image_ref(tag),
    }
}

/// The view of an optional string slice.
pub open spec fn opt_str_view(o: Option<&str>) -> Option<Seq<char>> {
    match o {
        Some(s) => Some(s@),
        None => None,
    }
}

/// Resolves an image tag to its full form with registry and version:
///
/// - with registry and version (`registry.io/image:tag`): as it is;
/// - with registry only (`registry.io/image`): `:latest` is appended;
/// - with version only (`image:v1`): `localhost/` is prepended;
/// - a bare name (`image`): `localhost/` and `:latest` are added;
/// - no image: the configured rootfs tag at `localhost` with `:latest`.
pub fn resolve_image_tag(config: &TrellisConfig, cli_image: Option<&str>) -> (r: String)
    ensures
        r@ == resolved_image_ref(config.rootfs_tag@, opt_str_view(cli_image)),
{
    match cli_image {
        None => {
            let a = concat2(LOCALHOST_PREFIX, config.rootfs_tag.as_str());
            concat2(a.as_str(), ":latest")
        },
        Some(tag) => {
            let has_registry = contains_char(tag, '/');
            let has_version = contains_char(tag, ':');
            if has_registry {
                if has_version {
                    String::from_str(tag)
                } else {
                    concat2(tag, ":latest")
                }
            } else if has_version {
                concat2(LOCALHOST_PREFIX, tag)
            } else {
                let a = concat2(LOCALHOST_PREFIX, tag);
                concat2(a.as_str(), ":latest")
            }
        },
    }
}


proof fn lemma_concat_contains(a: Seq<char>, b: Seq<char>, c: char)
    ensures
        (a.contains(c) || b.contains(c)) ==> (a + b).contains(c),
{
    if a.contains(c) {
        let i = choose|i: int| 0 <= i < a.len() && a[i] == c;
        assert((a + b)[i] == c);
    } else if b.contains(c) {
        let i = choose|i: int| 0 <= i < b.len() && b[i] == c;
        assert((a + b)[a.len() + i] == c);
    }
}

proof fn lemma_literals()
    ensures
        LOCALHOST_PREFIX@.contains('/'),
        ":latest"@.contains(':'),
{
    reveal_strlit("localhost/");
    reveal_strlit(":latest");
    assert(LOCALHOST_PREFIX@[9] == '/');
    assert(":latest"@[0] == ':');
}

/// A resolved image reference names both a registry (it holds a `/`) and
/// a version (it holds a `:`).
pub proof fn law_resolved_image_ref_is_qualified(rootfs_tag: Seq<char>, cli_image: Option<Seq<char>>)
    ensures
        resolved_image_ref(rootfs_tag, cli_image).contains('/'),
        resolved_image_ref(rootfs_tag, cli_image).contains(':'),
{
    lemma_literals();
    let l = LOCALHOST_PREFIX@;
    let v = ":latest"@;
    match cli_image {
        None => {
            lemma_concat_contains(l, rootfs_tag, '/');
            lemma_concat_contains(l + rootfs_tag, v, '/');
            lemma_concat_contains(l + rootfs_tag, v, ':');
        },
        Some(tag) => {
            lemma_concat_contains(tag, v, '/');
            lemma_concat_contains(tag, v, ':');
            lemma_concat_contains(l, tag, '/');
            lemma_concat_contains(l, tag, ':');
            lemma_concat_contains(l + tag, v, '/');
            lemma_concat_contains(l + tag, v, ':');
        },
    }
}

/// Resolving an image reference that `resolve_image_tag` produced gives it
/// back unchanged.
pub proof fn law_resolve_image_tag_idempotent(rootfs_tag: Seq<char>, cli_image: Option<Seq<char>>)
    ensures
        resolved_image_ref(rootfs_tag, Some(resolved_image_ref(rootfs_tag, cli_image)))
            == resolved_image_ref(rootfs_tag, cli_image),
{
    law_resolved_image_ref_is_qualified(rootfs_tag, cli_image);
}


/// Where the containerfiles are copied inside a generated disk image, and
/// the source directory its configuration names.
pub const IMAGE_STAGES_DIR: &'static str = "/var/lib/trellis/stages";

/// The arguments of `podman images` that list the image `image_tag`.
pub open spec fn image_listing_args(image_tag: Seq<char>) -> Seq<Seq<char>> {
    seq!["--filter"@, "reference="@ + image_tag, "--format"@, "{{.Repository}}:{{.Tag}}"@]
}

/// The arguments of `podman images` that list the image `image_tag`.
pub fn image_listing_args_for(image_tag: &str) -> (r: Vec<String>)
    ensures
        views(r@) == image_listing_args(image_tag@),
{
    let mut r: Vec<String> = Vec::new();
    r.push(String::from_str("--filter"));
    r.push(concat2("reference=", image_tag));
    r.push(String::from_str("--format"));
    r.push(String::from_str("{{.Repository}}:{{.Tag}}"));
    assert(views(r@) =~= image_listing_args(image_tag@));
    r
}

/// Whether a `podman images` listing names an image: it is not blank.
pub fn image_listed(stdout: &str) -> (r: bool)
    ensures
        r == (trim(stdout@).len() > 0),
{
    let t = trim_str(stdout);
    t.unicode_len() > 0
}

/// The arguments of `fallocate` that create a `size_gb` GB image file.
pub open spec fn fallocate_args(output_path: Seq<char>, size_gb: nat) -> Seq<Seq<char>> {
    seq!["-l"@, decimal(size_gb) + "G"@, output_path]
}

/// The arguments of `fallocate` that create a `size_gb` GB image file.
pub fn fallocate_args_for(output_path: &str, size_gb: u64) -> (r: Vec<String>)
    ensures
        views(r@) == fallocate_args(output_path@, size_gb as nat),
{
    let mut r: Vec<String> = Vec::new();
    r.push(String::from_str("-l"));
    let size = decimal_string(size_gb);
    r.push(concat2(size.as_str(), "G"));
    r.push(String::from_str(output_path));
    assert(views(r@) =~= fallocate_args(output_path@, size_gb as nat));
    r
}

/// The `podman run` arguments that check that `image_tag` has `mkfs.fat`.
pub open spec fn mkfs_check_args(image_tag: Seq<char>) -> Seq<Seq<char>> {
    seq!["run"@, "--rm"@, image_tag, "sh"@, "-c"@, "which mkfs.fat || which mkfs.vfat"@]
}

/// The `podman run` arguments that check that `image_tag` has `mkfs.fat`.
pub fn mkfs_check_args_for(image_tag: &str) -> (r: Vec<String>)
    ensures
        views(r@) == mkfs_check_args(image_tag@),
{
    let mut r: Vec<String> = Vec::new();
    r.push(String::from_str("run"));
    r.push(String::from_str("--rm"));
    r.push(String::from_str(image_tag));
    r.push(String::from_str("sh"));
    r.push(String::from_str("-c"));
    r.push(String::from_str("which mkfs.fat || which mkfs.vfat"));
    assert(views(r@) =~= mkfs_check_args(image_tag@));
    r
}

/// A step of generating a bootable disk image.
#[derive(Debug, Clone, Copy, PartialEq, Eq, Structural)]
pub enum GenerationStep {
    /// Check that the container image exists.
    CheckImage,
    /// Work out the disk size from the container image's size.
    SizeDisk,
    /// Create the disk image file.
    CreateImageFile,
    /// Install the container image to the disk image with `bootc`.
    InstallSystem,
    /// Write the trellis configuration into the installed disk image.
    InjectConfiguration,
}

/// The steps of generating a disk image, in order; the disk is sized after
/// the container image only when no size is given. Each step runs only
/// when the one before succeeded.
pub open spec fn generation_plan(size_given: bool) -> Seq<GenerationStep> {
    if size_given {
        seq![
            GenerationStep::CheckImage,
            GenerationStep::CreateImageFile,
            GenerationStep::InstallSystem,
            GenerationStep::InjectConfiguration,
        ]
    } else {
        seq![
            GenerationStep::CheckImage,
            GenerationStep::SizeDisk,
            GenerationStep::CreateImageFile,
            GenerationStep::InstallSystem,
            GenerationStep::InjectConfiguration,
        ]
    }
}

/// The steps of generating a disk image; see `generation_plan`.
pub fn generation_steps(size_given: bool) -> (r: Vec<GenerationStep>)
    ensures
        r@ == generation_plan(size_given),
{
    let mut r: Vec<GenerationStep> = Vec::new();
    r.push(GenerationStep::CheckImage);
    if !size_given {
        r.push(GenerationStep::SizeDisk);
    }
    r.push(GenerationStep::CreateImageFile);
    r.push(GenerationStep::InstallSystem);
    r.push(GenerationStep::InjectConfiguration);
    assert(r@ =~= generation_plan(size_given));
    r
}

/// The error for an image that has no `mkfs.fat`.
pub open spec fn missing_mkfs_message(image_tag: Seq<char>) -> Seq<char> {
    "Required filesystem tool mkfs.fat (or mkfs.vfat) not found in image '"@ + image_tag
        + "'. Please install dosfstools or provide an image with mkfs.fat available."@
}

/// The error of the `mkfs.fat` check in `image_tag` whose command had the
/// outcome `check`: none when it succeeded and printed a path; the missing
/// tool when it failed or printed nothing; the reason when it could not run.
pub open spec fn mkfs_check_error(image_tag: Seq<char>, check: OutcomeView) -> Option<Seq<char>> {
    match check {
        OutcomeView::Succeeded(out) => if trim(out).len() > 0 {
            None
        } else {
            Some(missing_mkfs_message(image_tag))
        },
        OutcomeView::Failed(_) => Some(missing_mkfs_message(image_tag)),
        OutcomeView::Unavailable(e) => Some(e),
    }
}

/// Whether the `mkfs.fat` check in `image_tag` passed, given its outcome
/// `check`; see `mkfs_check_error`.
pub fn mkfs_check_result(image_tag: &str, check: Outcome) -> (r: Result<(), String>)
    ensures
        match mkfs_check_error(image_tag@, check@) {
            None => r is Ok,
            Some(m) => r matches Err(e) && e@ == m,
        },
{
    let found = match &check {
        Outcome::Succeeded(out) => image_listed(out.as_str()),
        _ => false,
    };
    match check {
        Outcome::Unavailable(e) => Err(e),
        _ => if found {
            Ok(())
        } else {
            let a = concat2("Required filesystem tool mkfs.fat (or mkfs.vfat) not found in image '", image_tag);
            Err(concat2(
                a.as_str(),
                "'. Please install dosfstools or provide an image with mkfs.fat available.",
            ))
        },
    }
}

/// The error of a `bootc install` run with the outcome `outcome`: none when
/// it succeeded; when it failed, its error output if it was captured
/// (`quiet`), else its exit code; the reason when it could not run.
pub open spec fn install_error(quiet: bool, outcome: OutcomeView) -> Option<Seq<char>> {
    match outcome {
        OutcomeView::Succeeded(_) => None,
        OutcomeView::Failed(detail) => Some(
            if quiet {
                "Bootc install failed: "@ + detail
            } else {
                "Bootc install failed with exit code: "@ + detail
            },
        ),
        OutcomeView::Unavailable(e) => Some(e),
    }
}

/// Whether a `bootc install` run with the outcome `outcome` succeeded; see
/// `install_error`.
pub fn install_result(quiet: bool, outcome: Outcome) -> (r: Result<(), String>)
    ensures
        match install_error(quiet, outcome@) {
            None => r is Ok,
            Some(m) => r matches Err(e) && e@ == m,
        },
{
    match outcome {
        Outcome::Succeeded(_) => Ok(()),
        Outcome::Failed(detail) => if quiet {
            Err(concat2("Bootc install failed: ", detail.as_str()))
        } else {
            Err(concat2("Bootc install failed with exit code: ", detail.as_str()))
        },
        Outcome::Unavailable(e) => Err(e),
    }
}

/// The note about the image file `output_path`: kept when it `exists`,
/// else created with `size_gb` GB.
pub open spec fn image_file_note(output_path: Seq<char>, size_gb: nat, exists: bool) -> Seq<char> {
    if exists {
        "Image file already exists: "@ + output_path
    } else {
        "Creating "@ + decimal(size_gb) + "GB image file: "@ + output_path
    }
}

/// What to do about the image file `output_path`: the note to show, and
/// the `fallocate` arguments that create it with `size_gb` GB, none when it
/// `exists` already (it is kept as it is).
pub fn plan_image_file(output_path: &str, size_gb: u64, exists: bool) -> (r: (String, Option<Vec<String>>))
    ensures
        r.0@ == image_file_note(output_path@, size_gb as nat, exists),
        exists ==> r.1 is None,
        !exists ==> (r.1 matches Some(args) && views(args@) == fallocate_args(output_path@, size_gb as nat)),
{
    if exists {
        (concat2("Image file already exists: ", output_path), None)
    } else {
        let size = decimal_string(size_gb);
        let a = concat2("Creating ", size.as_str());
        let b = concat2(a.as_str(), "GB image file: ");
        (concat2(b.as_str(), output_path), Some(fallocate_args_for(output_path, size_gb)))
    }
}

/// The `podman run` arguments that install `image_tag` to the disk image
/// `filename` in `output_dir` with `bootc install to-disk`.
pub open spec fn bootc_install_args(
    image_tag: Seq<char>,
    output_dir: Seq<char>,
    filename: Seq<char>,
    filesystem: Seq<char>,
    selinux_present: bool,
) -> Seq<Seq<char>> {
    seq!["--rm"@, "--privileged"@, "--pid=host"@] + (if selinux_present {
        seq!["-v"@, "/sys/fs/selinux:/sys/fs/selinux"@]
    } else {
        Seq::<Seq<char>>::empty()
    }) + seq![
        "-v"@,
        "/etc/containers:/etc/containers:Z"@,
        "-v"@,
        "/var/lib/containers:/var/lib/containers:Z"@,
        "-v"@,
        "/dev:/dev"@,
        "-v"@,
        output_dir + ":/data"@,
        "--security-opt"@,
        "label=type:unconfined_t"@,
        image_tag,
        "bootc"@,
        "install"@,
        "to-disk"@,
        "--composefs-backend"@,
        "--via-loopback"@,
        "/data/"@ + filename,
        "--filesystem"@,
        filesystem,
        "--wipe"@,
        "--bootloader"@,
        "systemd"@,
    ]
}

/// The `podman run` arguments of `bootc install to-disk`; see
/// `bootc_install_args`. `selinux_present` tells whether the host has
/// `/sys/fs/selinux`.
pub fn bootc_install_args_for(
    image_tag: &str,
    output_dir: &str,
    filename: &str,
    filesystem: &str,
    selinux_present: bool,
) -> (r: Vec<String>)
    ensures
        views(r@) == bootc_install_args(image_tag@, output_dir@, filename@, filesystem@, selinux_present),
{
    let mut r: Vec<String> = Vec::new();
    push_strs(&mut r, &["--rm", "--privileged", "--pid=host"]);
    if selinux_present {
        push_strs(&mut r, &["-v", "/sys/fs/selinux:/sys/fs/selinux"]);
    }
    let data = concat2(output_dir, ":/data");
    let target = concat2("/data/", filename);
    push_strs(
        &mut r,
        &[
            "-v",
            "/etc/containers:/etc/containers:Z",
            "-v",
            "/var/lib/containers:/var/lib/containers:Z",
            "-v",
            "/dev:/dev",
            "-v",
            data.as_str(),
            "--security-opt",
            "label=type:unconfined_t",
            image_tag,
            "bootc",
            "install",
            "to-disk",
            "--composefs-backend",
            "--via-loopback",
            target.as_str(),
            "--filesystem",
            filesystem,
            "--wipe",
            "--bootloader",
            "systemd",
        ],
    );
    assert(views(r@) =~= bootc_install_args(image_tag@, output_dir@, filename@, filesystem@, selinux_present));
    r
}


/// Whether `c` is the configuration written into a disk image built with
/// `config`: the defaults, with the stages and tags of `config`, and the
/// copied containerfiles as source directory.
pub open spec fn is_image_config_of(c: Config, config: TrellisConfig) -> bool {
    &&& c.build matches Some(b)
    &&& b.builder_stages matches Some(v) && v@ == config.builder_stages@
    &&& b.rootfs_stages matches Some(v) && v@ == config.rootfs_stages@
    &&& opt_view(b.builder_tag) == Some(config.builder_tag@)
    &&& opt_view(b.rootfs_tag) == Some(config.rootfs_tag@)
    &&& opt_view(b.rootfs_base) == Some(crate::trellis::constants::DEFAULT_ROOTFS_BASE@)
    &&& b.podman_build_cache == Some(false)
    &&& b.auto_clean == Some(false)
    &&& b.extra_contexts is None
    &&& b.extra_mounts is None
    &&& c.environment matches Some(e)
    &&& opt_view(e.pacman_cache) == Some(crate::trellis::constants::DEFAULT_PACMAN_CACHE@)
    &&& opt_view(e.aur_cache) == Some(crate::trellis::constants::DEFAULT_AUR_CACHE@)
    &&& opt_view(e.src_dir) == Some(IMAGE_STAGES_DIR@)
    &&& opt_view(e.hooks_dir) == Some(crate::trellis::constants::DEFAULT_HOOKS_DIR@)
}

/// The configuration written into a disk image built with `config`.
pub fn image_config(config: &TrellisConfig) -> (c: Config)
    ensures
        is_image_config_of(c, *config),
{
    let mut image_config = Config::default();
    if let Some(build) = &mut image_config.build {
        build.builder_stages = Some(clone_strings(&config.builder_stages));
        build.rootfs_stages = Some(clone_strings(&config.rootfs_stages));
        build.builder_tag = Some(config.builder_tag.clone());
        build.rootfs_tag = Some(config.rootfs_tag.clone());
    }
    if let Some(environment) = &mut image_config.environment {
        environment.src_dir = Some(String::from_str(IMAGE_STAGES_DIR));
    }
    image_config
}

/// The `losetup` arguments that attach a disk image with its partitions.
pub fn loop_setup_args(disk_image_path: &str) -> (r: Vec<String>)
    ensures
        views(r@) == seq!["--find"@, "--show"@, "--partscan"@, disk_image_path@],
{
    let mut r: Vec<String> = Vec::new();
    push_strs(&mut r, &["--find", "--show", "--partscan", disk_image_path]);
    assert(views(r@) =~= seq!["--find"@, "--show"@, "--partscan"@, disk_image_path@]);
    r
}

/// The root partition of an attached bootc disk image: the third partition
/// (after the EFI and boot partitions).
pub fn root_partition(loop_device: &str) -> (r: String)
    ensures
        r@ == loop_device@ + "p3"@,
{
    concat2(loop_device, "p3")
}

/// The `cp` arguments that copy the contents of `src_dir` into `target`.
pub fn copy_contents_args(src_dir: &str, target: &str) -> (r: Vec<String>)
    ensures
        views(r@) == seq!["-r"@, src_dir@ + "/."@, target@],
{
    let mut r: Vec<String> = Vec::new();
    let contents = concat2(src_dir, "/.");
    push_strs(&mut r, &["-r", contents.as_str(), target]);
    assert(views(r@) =~= seq!["-r"@, src_dir@ + "/."@, target@]);
    r
}


/// One gibibyte, the unit of disk image sizes.
pub const GIB: u64 = 1073741824;

/// The size in GB of a disk image for a container image of `image_bytes`
/// bytes: the image and one more GB, rounded up to whole GB, and at least
/// 2 GB.
pub open spec fn disk_size_for(image_bytes: nat) -> nat {
    let rounded: int = (image_bytes + 2 * GIB - 1) / (GIB as int);
    if rounded < 2 {
        2
    } else {
        rounded as nat
    }
}

/// The size in GB of a disk image for a container image of `image_bytes`
/// bytes; see `disk_size_for`.
pub fn disk_size_gb(image_bytes: u64) -> (r: u64)
    ensures
        r == disk_size_for(image_bytes as nat),
{
    let total: u128 = image_bytes as u128 + 2 * (GIB as u128) - 1;
    let rounded: u128 = total / (GIB as u128);
    assert(rounded <= total);
    let r: u64 = rounded as u64;
    if r < 2 {
        2
    } else {
        r
    }
}

/// The disk image holds the container image and one GB more, in whole GB,
/// and at least 2 GB; it is the smallest such size.
pub proof fn law_disk_size_fits_image(image_bytes: nat)
    ensures
        disk_size_for(image_bytes) >= 2,
        disk_size_for(image_bytes) * GIB >= image_bytes + GIB,
        disk_size_for(image_bytes) > 2 ==> (disk_size_for(image_bytes) - 1) * GIB < image_bytes + GIB,
{
    let g: int = GIB as int;
    let t: int = image_bytes + 2 * g - 1;
    let q: int = t / g;
    assert(g == 1073741824);
    assert(q * g <= t < q * g + g) by (nonlinear_arith)
        requires
            g == 1073741824,
            q == t / g,
            t >= 0,
    ;
}

/// Whether `c` is JSON whitespace.
pub open spec fn is_json_space(c: char) -> bool {
    c == ' ' || c == '\t' || c == '\n' || c == '\r'
}

/// Whether `c` is an ASCII digit.
pub open spec fn is_digit(c: char) -> bool {
    '0' <= c && c <= '9'
}

/// The position of the first `"Size"` key of `s` at or after `from`.
pub open spec fn size_key_from(s: Seq<char>, from: int) -> Option<int>
    decreases s.len() - from,
{
    if from < 0 || from + 6 > s.len() {
        None
    } else if s.subrange(from, from + 6) == "\"Size\""@ {
        Some(from)
    } else {
        size_key_from(s, from + 1)
    }
}

/// The first position of `s` at or after `from` that is not JSON whitespace.
pub open spec fn skip_json_space(s: Seq<char>, from: int) -> int
    decreases s.len() - from,
{
    if 0 <= from < s.len() && is_json_space(s[from]) {
        skip_json_space(s, from + 1)
    } else {
        from
    }
}

/// The end of the run of digits of `s` that starts at `from`.
pub open spec fn digits_end(s: Seq<char>, from: int) -> int
    decreases s.len() - from,
{
    if 0 <= from < s.len() && is_digit(s[from]) {
        digits_end(s, from + 1)
    } else {
        from
    }
}

/// The value of the decimal digits `d`.
pub open spec fn digits_value(d: Seq<char>) -> nat
    decreases d.len(),
{
    if d.len() == 0 {
        0
    } else {
        digits_value(d.drop_last()) * 10 + ((d.last() as int) - 48) as nat
    }
}

/// The image size in the output of `podman inspect`: the number after the
/// first `"Size"` key and its colon, when it is there and fits in 64 bits.
pub open spec fn inspect_size(s: Seq<char>) -> Option<nat> {
    match size_key_from(s, 0) {
        None => None,
        Some(i) => {
            let j = skip_json_space(s, i + 6);
            if 0 <= j < s.len() && s[j] == ':' {
                let k = skip_json_space(s, j + 1);
                let e = digits_end(s, k);
                if k < e && digits_value(s.subrange(k, e)) <= u64::MAX {
                    Some(digits_value(s.subrange(k, e)))
                } else {
                    None
                }
            } else {
                None
            }
        },
    }
}

proof fn lemma_skip_json_space_bounds(s: Seq<char>, from: int)
    requires
        0 <= from <= s.len(),
    ensures
        from <= skip_json_space(s, from) <= s.len(),
        forall|t: int| from <= t < skip_json_space(s, from) ==> is_json_space(#[trigger] s[t]),
        skip_json_space(s, from) < s.len() ==> !is_json_space(s[skip_json_space(s, from)]),
    decreases s.len() - from,
{
    if from < s.len() && is_json_space(s[from]) {
        lemma_skip_json_space_bounds(s, from + 1);
    }
}

proof fn lemma_digits_end_bounds(s: Seq<char>, from: int)
    requires
        0 <= from <= s.len(),
    ensures
        from <= digits_end(s, from) <= s.len(),
        forall|t: int| from <= t < digits_end(s, from) ==> is_digit(#[trigger] s[t]),
        digits_end(s, from) < s.len() ==> !is_digit(s[digits_end(s, from)]),
    decreases s.len() - from,
{
    if from < s.len() && is_digit(s[from]) {
        lemma_digits_end_bounds(s, from + 1);
    }
}

proof fn lemma_digits_value_grows(s: Seq<char>, k: int, m: int, e: int)
    requires
        0 <= k <= m <= e <= s.len(),
        forall|t: int| k <= t < e ==> is_digit(#[trigger] s[t]),
    ensures
        digits_value(s.subrange(k, m)) <= digits_value(s.subrange(k, e)),
    decreases e - m,
{
    if m < e {
        lemma_digits_value_grows(s, k, m, e - 1);
        let d = s.subrange(k, e);
        assert(d.drop_last() =~= s.subrange(k, e - 1));
        assert(is_digit(s[e - 1]));
    }
}

/// Whether `c` is JSON whitespace.
fn json_space(c: char) -> (r: bool)
    ensures
        r == is_json_space(c),
{
    c == ' ' || c == '\t' || c == '\n' || c == '\r'
}

/// The first position of `s` at or after `from` that is not JSON whitespace.
fn skip_space(s: &str, from: usize) -> (r: usize)
    requires
        from <= s@.len(),
    ensures
        r == skip_json_space(s@, from as int),
{
    proof {
        lemma_skip_json_space_bounds(s@, from as int);
    }
    let n = s.unicode_len();
    let mut i = from;
    while i < n && json_space(s.get_char(i))
        invariant
            n == s@.len(),
            from <= i <= n,
            skip_json_space(s@, i as int) == skip_json_space(s@, from as int),
        decreases n - i,
    {
        i += 1;
    }
    i
}

/// Whether `c` is an ASCII digit.
fn digit(c: char) -> (r: bool)
    ensures
        r == is_digit(c),
{
    '0' <= c && c <= '9'
}

/// Whether `"Size"` stands at position `i` of `s`.
fn size_key_at(s: &str, i: usize) -> (r: bool)
    requires
        i + 6 <= s@.len(),
    ensures
        r == (s@.subrange(i as int, i + 6) == "\"Size\""@),
{
    let n = s.unicode_len();
    assert(i + 6 <= n);
    let piece = s.substring_char(i, i + 6);
    str_equal(piece, "\"Size\"")
}

/// The position of the first `"Size"` key of `s`.
fn find_size_key(s: &str) -> (r: Option<usize>)
    ensures
        match r {
            Some(i) => size_key_from(s@, 0) == Some(i as int) && i + 6 <= s@.len(),
            None => size_key_from(s@, 0) is None,
        },
{
    let n = s.unicode_len();
    let mut i: usize = 0;
    while i < n && n - i >= 6
        invariant
            i <= n,
            n == s@.len(),
            size_key_from(s@, i as int) == size_key_from(s@, 0),
        decreases n - i,
    {
        if size_key_at(s, i) {
            return Some(i);
        }
        i += 1;
    }
    None
}

/// The value of the digits of `s` from position `k`, when there is at
/// least one and the value fits in 64 bits.
fn parse_digits(s: &str, k: usize) -> (r: Option<u64>)
    requires
        k <= s@.len(),
    ensures
        match r {
            Some(v) => k < digits_end(s@, k as int) && digits_value(s@.subrange(k as int, digits_end(s@, k as int))) == v,
            None => !(k < digits_end(s@, k as int) && digits_value(
                s@.subrange(k as int, digits_end(s@, k as int)),
            ) <= u64::MAX),
        },
{
    proof {
        lemma_digits_end_bounds(s@, k as int);
    }
    let ghost e = digits_end(s@, k as int);
    let n = s.unicode_len();
    let mut i = k;
    let mut acc: u64 = 0;
    assert(s@.subrange(k as int, k as int) =~= Seq::<char>::empty());
    while i < n && digit(s.get_char(i))
        invariant
            k <= i <= n,
            n == s@.len(),
            e == digits_end(s@, k as int),
            k <= e <= n,
            forall|t: int| k <= t < e ==> is_digit(#[trigger] s@[t]),
            e < n ==> !is_digit(s@[e]),
            i <= e,
            acc == digits_value(s@.subrange(k as int, i as int)),
        decreases n - i,
    {
        let c = s.get_char(i);
        let d: u64 = (c as u32 - 48) as u64;
        proof {
            let sub = s@.subrange(k as int, i + 1);
            assert(sub.drop_last() =~= s@.subrange(k as int, i as int));
            assert(sub.last() == c);
            assert(i < e) by {
                if i >= e {
                    assert(i == e);
                }
            }
        }
        if acc > (u64::MAX - d) / 10 {
            proof {
                assert(digits_value(s@.subrange(k as int, i + 1)) > u64::MAX) by (nonlinear_arith)
                    requires
                        digits_value(s@.subrange(k as int, i + 1)) == acc * 10 + d,
                        acc > (u64::MAX - d) / 10,
                        d <= 9,
                ;
                lemma_digits_value_grows(s@, k as int, i + 1, e);
            }
            return None;
        }
        acc = acc * 10 + d;
        i += 1;
    }
    proof {
        if i < e {
            assert(is_digit(s@[i as int]));
        }
    }
    assert(i == e);
    if i == k {
        None
    } else {
        Some(acc)
    }
}

/// The image size in bytes in the output of `podman inspect`; see
/// `inspect_size`.
pub fn get_image_size_bytes(inspect_output: &str) -> (r: Option<u64>)
    ensures
        match r {
            Some(v) => inspect_size(inspect_output@) == Some(v as nat),
            None => inspect_size(inspect_output@) is None,
        },
{
    let s = inspect_output;
    match find_size_key(s) {
        None => None,
        Some(i) => {
            let n = s.unicode_len();
            assert(i + 6 <= n);
            let j = skip_space(s, i + 6);
            proof {
                lemma_skip_json_space_bounds(s@, i + 6);
            }
            if j < s.unicode_len() && s.get_char(j) == ':' {
                let k = skip_space(s, j + 1);
                proof {
                    lemma_skip_json_space_bounds(s@, j + 1);
                }
                parse_digits(s, k)
            } else {
                None
            }
        },
    }
}

/// Why no disk size could be worked out.
pub enum SizingError {
    /// `podman inspect` failed, with this error output.
    InspectFailed { detail: String },
    /// Its output held no image size.
    UnreadableSize,
}

impl SizingError {
    /// The error message.
    pub fn message(&self) -> (r: String)
        ensures
            match self {
                SizingError::InspectFailed { detail } => r@ == "Failed to inspect image: "@ + detail@,
                SizingError::UnreadableSize => r@ == "Failed to read the image size from podman inspect output"@,
            },
    {
        match self {
            SizingError::InspectFailed { detail } => concat2("Failed to inspect image: ", detail.as_str()),
            SizingError::UnreadableSize => String::from_str("Failed to read the image size from podman inspect output"),
        }
    }
}

/// A disk size, or why there is none.
pub enum SizingView {
    SizeGb(nat),
    InspectFailed(Seq<char>),
    UnreadableSize,
}

/// The view of a sizing result.
pub open spec fn sizing_view(r: Result<u64, SizingError>) -> SizingView {
    match r {
        Ok(v) => SizingView::SizeGb(v as nat),
        Err(SizingError::InspectFailed { detail }) => SizingView::InspectFailed(detail@),
        Err(SizingError::UnreadableSize) => SizingView::UnreadableSize,
    }
}

/// The disk size for the image that `podman inspect` described with the
/// outcome `inspect`: its size plus one GB, rounded up, at least 2 GB; a
/// failed inspection, or an output without a size, gives no size.
pub open spec fn disk_sizing(inspect: OutcomeView) -> SizingView {
    match inspect {
        OutcomeView::Succeeded(out) => match inspect_size(out) {
            Some(bytes) => SizingView::SizeGb(disk_size_for(bytes)),
            None => SizingView::UnreadableSize,
        },
        OutcomeView::Failed(e) => SizingView::InspectFailed(e),
        OutcomeView::Unavailable(e) => SizingView::InspectFailed(e),
    }
}

/// The size in GB of the disk image for the container image that
/// `podman inspect` described with the outcome `inspect`; see
/// `disk_sizing`.
pub fn calculate_disk_size(inspect: Outcome) -> (r: Result<u64, SizingError>)
    ensures
        sizing_view(r) == disk_sizing(inspect@),
{
    match inspect {
        Outcome::Succeeded(out) => match get_image_size_bytes(out.as_str()) {
            Some(bytes) => Ok(disk_size_gb(bytes)),
            None => Err(SizingError::UnreadableSize),
        },
        Outcome::Failed(e) | Outcome::Unavailable(e) => Err(SizingError::InspectFailed { detail: e }),
    }
}

/// The `podman inspect` arguments that describe the image `image_tag`.
pub fn inspect_args_for(image_tag: &str) -> (r: Vec<String>)
    ensures
        views(r@) == seq![image_tag@],
{
    let mut r: Vec<String> = Vec::new();
    r.push(String::from_str(image_tag));
    assert(views(r@) =~= seq![image_tag@]);
    r
}

/// `bootc install to-disk` runs in exactly the given image, on the given
/// disk image file and filesystem: the argument right before `bootc` is
/// `image_tag` unchanged, the output directory is mounted at `/data`, the
/// target is `/data/<filename>` and `--filesystem` is followed by
/// `filesystem`; the SELinux mount comes in only when the host has it.
pub proof fn law_bootc_install_runs_given_image(
    image_tag: Seq<char>,
    output_dir: Seq<char>,
    filename: Seq<char>,
    filesystem: Seq<char>,
    selinux_present: bool,
)
    ensures
        ({
            let args = bootc_install_args(image_tag, output_dir, filename, filesystem, selinux_present);
            let p: int = if selinux_present { 5 } else { 3 };
            &&& args.len() == p + 22
            &&& args[p + 6] == "-v"@
            &&& args[p + 7] == output_dir + ":/data"@
            &&& args[p + 10] == image_tag
            &&& args[p + 11] == "bootc"@
            &&& args[p + 12] == "install"@
            &&& args[p + 13] == "to-disk"@
            &&& args[p + 16] == "/data/"@ + filename
            &&& args[p + 17] == "--filesystem"@
            &&& args[p + 18] == filesystem
            &&& (selinux_present <==> args[3] == "-v"@ && args[4] == "/sys/fs/selinux:/sys/fs/selinux"@)
        }),
{
    reveal_strlit("/sys/fs/selinux:/sys/fs/selinux");
    reveal_strlit("/etc/containers:/etc/containers:Z");
    let args = bootc_install_args(image_tag, output_dir, filename, filesystem, selinux_present);
    if !selinux_present {
        assert(args[4] == "/etc/containers:/etc/containers:Z"@);
        assert(args[4] != "/sys/fs/selinux:/sys/fs/selinux"@);
    }
}

} // verus!
