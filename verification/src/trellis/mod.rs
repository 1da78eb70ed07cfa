//! Trellis core: the decisions behind building, running and cleaning images.

use vstd::prelude::*;

use crate::text::{concat2, seq_starts_with, starts_with, trim, trim_str, trimmed_lines, trimmed_lines_of, views};

pub mod builder;
pub mod cleaner;
pub mod common;
pub mod constants;
pub mod discovery;
pub mod image_generator;
pub mod injection;
pub mod multistage;
pub mod operation;
pub mod runner;

pub use builder::ContainerBuilder;
pub use cleaner::ImageCleaner;
pub use image_generator::resolve_image_tag;

use constants::LOCALHOST_PREFIX;
use image_generator::{image_listing_args, image_listing_args_for};

verus! {

/// The code of `c` in lower case when it is an ASCII capital letter, else
/// the code of `c`.
pub open spec fn ascii_lower(c: char) -> u32 {
    if 'A' <= c && c <= 'Z' {
        ((c as u32) + 32) as u32
    } else {
        c as u32
    }
}

/// Whether `a` and `b` are equal up to the case of ASCII letters.
pub open spec fn eq_ignore_ascii_case(a: Seq<char>, b: Seq<char>) -> bool {
    a.len() == b.len() && forall|i: int| 0 <= i < a.len() ==> ascii_lower(#[trigger] a[i]) == ascii_lower(b[i])
}

/// Whether an answer to a yes/no prompt is yes: once trimmed and in lower
/// case, it is `y` or `yes`. (No character outside ASCII has a lower-case
/// form made of the letters `y`, `e` or `s`, so comparing ASCII letters
/// without case is the same as comparing the lower-cased answer.)
pub open spec fn is_yes(input: Seq<char>) -> bool {
    eq_ignore_ascii_case(trim(input), "y"@) || eq_ignore_ascii_case(trim(input), "yes"@)
}

fn eq_ignore_ascii_case_str(a: &str, b: &str) -> (r: bool)
    ensures
        r == eq_ignore_ascii_case(a@, b@),
{
    let n = a.unicode_len();
    if n != b.unicode_len() {
        return false;
    }
    let mut i: usize = 0;
    while i < n
        invariant
            n == a@.len(),
            n == b@.len(),
            i <= n,
            forall|j: int| 0 <= j < i ==> ascii_lower(#[trigger] a@[j]) == ascii_lower(b@[j]),
        decreases n - i,
    {
        let x = a.get_char(i);
        let y = b.get_char(i);
        let lx: u32 = if 'A' <= x && x <= 'Z' {
            (x as u32) + 32
        } else {
            x as u32
        };
        let ly: u32 = if 'A' <= y && y <= 'Z' {
            (y as u32) + 32
        } else {
            y as u32
        };
        if lx != ly {
            return false;
        }
        i += 1;
    }
    true
}

/// Whether an answer to a yes/no prompt is yes; see `is_yes`.
pub fn is_affirmative_response(input: &str) -> (r: bool)
    ensures
        r == is_yes(input@),
{
    let t = trim_str(input);
    eq_ignore_ascii_case_str(t.as_str(), "y") || eq_ignore_ascii_case_str(t.as_str(), "yes")
}

/// The `podman images` arguments that list the builder image `builder_tag`.
pub fn builder_listing_args(builder_tag: &str) -> (r: Vec<String>)
    ensures
        views(r@) == image_listing_args(LOCALHOST_PREFIX@ + builder_tag@),
{
    let full = concat2(LOCALHOST_PREFIX, builder_tag);
    image_listing_args_for(full.as_str())
}

/// Whether some line of `listing`, once trimmed, starts with `prefix`.
pub open spec fn lists_prefix(listing: Seq<char>, prefix: Seq<char>) -> bool {
    exists|k: int| 0 <= k < trimmed_lines(listing).len() && seq_starts_with(#[trigger] trimmed_lines(listing)[k], prefix)
}

/// Whether a `podman images` listing names the local builder image
/// `builder_tag` with some version: a line `localhost/<builder_tag>:...`.
pub fn builder_image_listed(builder_tag: &str, listing: &str) -> (r: bool)
    ensures
        r == lists_prefix(listing@, LOCALHOST_PREFIX@ + builder_tag@ + ":"@),
{
    let prefix = concat2(concat2(LOCALHOST_PREFIX, builder_tag).as_str(), ":");
    let lines = trimmed_lines_of(listing);
    let ghost ls = trimmed_lines(listing@);
    let mut i: usize = 0;
    while i < lines.len()
        invariant
            i <= lines@.len(),
            ls == lines@.map_values(|x: String| x@),
            ls == trimmed_lines(listing@),
            prefix@ == LOCALHOST_PREFIX@ + builder_tag@ + ":"@,
            forall|j: int| 0 <= j < i ==> !seq_starts_with(#[trigger] ls[j], prefix@),
        decreases lines@.len() - i,
    {
        assert(ls[i as int] == lines@[i as int]@);
        if starts_with(lines[i].as_str(), prefix.as_str()) {
            assert(seq_starts_with(ls[i as int], prefix@));
            assert(0 <= i < trimmed_lines(listing@).len());
            return true;
        }
        i += 1;
    }
    false
}

} // verus!
