//! Containerfile discovery: reading stage names, naming and choosing
//! containerfiles, and caching what was found.

use vstd::prelude::*;

use lru::LruCache;

use crate::config::TrellisConfig;
use crate::text::{
    concat2, join_strings, joined, lemma_split_once_at, split_once, split_once_str, views,
};
use crate::trellis::constants::{
    CONTAINERFILE_NOT_FOUND, CONTAINERFILE_PREFIX, DISCOVERY_CACHE_CAPACITY, MISSING_CONTAINERFILES,
};

verus! {

/// The `(group, stage)` that a stage name stands for: `"group:stage"` splits
/// at its first colon, and a name without a colon is both group and stage.
pub open spec fn stage_parts(build_stage: Seq<char>) -> (Seq<char>, Seq<char>) {
    match split_once(build_stage, ':') {
        Some(parts) => parts,
        None => (build_stage, build_stage),
    }
}

/// The file name of the containerfile of `group`.
pub open spec fn containerfile_name_of(group: Seq<char>) -> Seq<char> {
    CONTAINERFILE_PREFIX@ + group
}

/// The file name of the containerfile of `group`, `Containerfile.<group>`.
pub fn containerfile_name(group: &str) -> (r: String)
    ensures
        r@ == containerfile_name_of(group@),
{
    concat2(CONTAINERFILE_PREFIX, group)
}


/// Why a containerfile lookup failed.
#[derive(Debug, Clone)]
pub enum DiscoveryError {
    /// No file `filename` exists below the source directory `src_dir`.
    NotFound { filename: String, src_dir: String },
    /// The containerfiles with these names are missing.
    MissingContainerfiles(Vec<String>),
}

impl DiscoveryError {
    /// The text of the error message.
    pub open spec fn spec_message(self) -> Seq<char> {
        match self {
            DiscoveryError::NotFound { filename, src_dir } => CONTAINERFILE_NOT_FOUND@ + ": "@
                + filename@ + " (searched recursively in "@ + src_dir@
                + " and all subdirectories). Ensure the file exists and has correct permissions. Use 'find "@
                + src_dir@ + " -name \""@ + filename@ + "\"' to verify file location."@,
            DiscoveryError::MissingContainerfiles(files) => missing_containerfiles_message(views(files@)),
        }
    }

    /// The error message, as the program reports it.
    pub fn message(&self) -> (r: String)
        ensures
            r@ == self.spec_message(),
    {
        match self {
            DiscoveryError::NotFound { filename, src_dir } => {
                let a = concat2(CONTAINERFILE_NOT_FOUND, ": ");
                let b = concat2(a.as_str(), filename.as_str());
                let c = concat2(b.as_str(), " (searched recursively in ");
                let d = concat2(c.as_str(), src_dir.as_str());
                let e = concat2(
                    d.as_str(),
                    " and all subdirectories). Ensure the file exists and has correct permissions. Use 'find ",
                );
                let f = concat2(e.as_str(), src_dir.as_str());
                let g = concat2(f.as_str(), " -name \"");
                let h = concat2(g.as_str(), filename.as_str());
                concat2(h.as_str(), "\"' to verify file location.")
            },
            DiscoveryError::MissingContainerfiles(files) => {
                let a = concat2(MISSING_CONTAINERFILES, ": ");
                let list = join_strings(files.as_slice(), ", ");
                concat2(a.as_str(), list.as_str())
            },
        }
    }
}

/// Whether index `k` holds the first of the deepest candidates.
pub open spec fn is_first_deepest(candidates: Seq<(String, usize)>, k: int) -> bool {
    &&& 0 <= k < candidates.len()
    &&& forall|j: int| 0 <= j < candidates.len() ==> #[trigger] candidates[j].1 <= candidates[k].1
    &&& forall|j: int| 0 <= j < k ==> #[trigger] candidates[j].1 < candidates[k].1
}

/// Chooses among the containerfiles found (each with the number of
/// components of its path) the most deeply nested one, the most specific
/// match; among equally deep ones, the first found. None when nothing was found.
pub fn select_containerfile(candidates: &[(String, usize)]) -> (r: Option<String>)
    ensures
        candidates@.len() == 0 ==> r is None,
        candidates@.len() > 0 ==> (r matches Some(p) && exists|k: int|
            is_first_deepest(candidates@, k) && #[trigger] candidates@[k].0@ == p@),
{
    if candidates.len() == 0 {
        return None;
    }
    let mut best: usize = 0;
    let mut i: usize = 1;
    while i < candidates.len()
        invariant
            1 <= i <= candidates@.len(),
            best < i,
            forall|j: int| 0 <= j < i ==> #[trigger] candidates@[j].1 <= candidates@[best as int].1,
            forall|j: int| 0 <= j < best ==> #[trigger] candidates@[j].1 < candidates@[best as int].1,
        decreases candidates@.len() - i,
    {
        if candidates[i].1 > candidates[best].1 {
            best = i;
        }
        i += 1;
    }
    let p = candidates[best].0.clone();
    assert(is_first_deepest(candidates@, best as int));
    assert(candidates@[best as int].0@ == p@);
    Some(p)
}

/// The error when no containerfile of `group` exists below `src_dir`.
pub fn not_found_error(group: &str, src_dir: &str) -> (r: DiscoveryError)
    ensures
        r matches DiscoveryError::NotFound { filename, src_dir: d } && filename@ == containerfile_name_of(
            group@,
        ) && d@ == src_dir@,
{
    DiscoveryError::NotFound { filename: containerfile_name(group), src_dir: String::from_str(src_dir) }
}

/// The groups whose containerfiles the stages need, in order.
pub open spec fn stage_groups_of(stages: Seq<Seq<char>>) -> Seq<Seq<char>> {
    stages.map_values(|s: Seq<char>| stage_parts(s).0)
}

/// The groups whose containerfiles the stages need, in order.
pub fn stage_groups(stages: &[String]) -> (r: Vec<String>)
    ensures
        views(r@) == stage_groups_of(views(stages@)),
{
    let mut r: Vec<String> = Vec::new();
    let mut i: usize = 0;
    while i < stages.len()
        invariant
            i <= stages@.len(),
            views(r@) == stage_groups_of(views(stages@.take(i as int))),
        decreases stages@.len() - i,
    {
        let (group, _) = ContainerfileDiscovery::parse_stage_name(stages[i].as_str());
        let ghost before = views(r@);
        r.push(group);
        assert(views(r@) =~= before.push(stage_parts(stages@[i as int]@).0));
        assert(stage_groups_of(views(stages@.take(i + 1))) =~= stage_groups_of(
            views(stages@.take(i as int)),
        ).push(stage_parts(stages@[i as int]@).0));
        i += 1;
    }
    assert(stages@.take(stages@.len() as int) =~= stages@);
    r
}

/// The containerfile names of the stages whose group's containerfile was
/// not found, in order.
pub open spec fn missing_names(stages: Seq<Seq<char>>, found: Seq<bool>) -> Seq<Seq<char>>
    decreases stages.len(),
{
    if stages.len() == 0 {
        Seq::<Seq<char>>::empty()
    } else {
        let rest = missing_names(stages.drop_last(), found);
        if found[stages.len() - 1] {
            rest
        } else {
            rest.push(containerfile_name_of(stage_parts(stages.last()).0))
        }
    }
}

/// The message that names the missing containerfiles `names`.
pub open spec fn missing_containerfiles_message(names: Seq<Seq<char>>) -> Seq<char> {
    MISSING_CONTAINERFILES@ + ": "@ + joined(names, ", "@)
}

/// Nothing is missing exactly when every stage's containerfile was found.
pub proof fn lemma_missing_names_empty(stages: Seq<Seq<char>>, found: Seq<bool>)
    requires
        found.len() >= stages.len(),
    ensures
        missing_names(stages, found).len() == 0 <==> forall|i: int| 0 <= i < stages.len() ==> #[trigger] found[i],
    decreases stages.len(),
{
    if stages.len() > 0 {
        lemma_missing_names_empty(stages.drop_last(), found);
    }
}

/// The containerfile names of the stages whose group's containerfile was
/// not found (`found[i]` tells whether that of stage `i` was), in order.
pub fn missing_containerfiles(stages: &[String], found: &[bool]) -> (r: Vec<String>)
    requires
        found@.len() == stages@.len(),
    ensures
        views(r@) == missing_names(views(stages@), found@),
{
    let mut missing: Vec<String> = Vec::new();
    let mut i: usize = 0;
    while i < stages.len()
        invariant
            i <= stages@.len(),
            found@.len() == stages@.len(),
            views(missing@) == missing_names(views(stages@.take(i as int)), found@),
        decreases stages@.len() - i,
    {
        let ghost before = views(missing@);
        proof {
            let t = views(stages@.take(i + 1));
            assert(t.drop_last() =~= views(stages@.take(i as int)));
            assert(t.last() == stages@[i as int]@);
        }
        if !found[i] {
            let (group, _) = ContainerfileDiscovery::parse_stage_name(stages[i].as_str());
            missing.push(containerfile_name(group.as_str()));
            assert(views(missing@) =~= before.push(
                containerfile_name_of(stage_parts(stages@[i as int]@).0),
            ));
        }
        i += 1;
    }
    assert(stages@.take(stages@.len() as int) =~= stages@);
    missing
}

/// The LRU cache of the `lru` crate.
#[verifier::external_type_specification]
#[verifier::external_body]
#[verifier::reject_recursive_types(K)]
#[verifier::reject_recursive_types(V)]
#[verifier::reject_recursive_types(S)]
pub struct ExLruCache<K, V, S>(LruCache<K, V, S>);

/// The entries of an LRU cache of discovery results: group name to
/// containerfile path.
pub uninterp spec fn lru_contents(cache: LruCache<String, String>) -> Map<Seq<char>, Seq<char>>;

/// The number of entries an LRU cache was made to hold.
pub uninterp spec fn lru_capacity(cache: LruCache<String, String>) -> nat;

/// No cached entries.
pub open spec fn no_entries() -> Map<Seq<char>, Seq<char>> {
    Map::empty()
}

/// Whether an LRU cache holds finitely many entries, no more than its capacity.
pub open spec fn lru_within_capacity(cache: LruCache<String, String>) -> bool {
    &&& lru_contents(cache).dom().finite()
    &&& lru_contents(cache).dom().len() <= lru_capacity(cache)
}

/// Calls `LruCache::new`, which makes an empty cache that holds at most
/// `cap` entries (the `NonZeroUsize` it takes is made from `cap > 0`).
#[verifier::external_body]
fn lru_new(cap: usize) -> (r: LruCache<String, String>)
    requires
        cap > 0,
    ensures
        lru_contents(r) == no_entries(),
        lru_capacity(r) == cap,
{
    LruCache::new(std::num::NonZeroUsize::new(cap).unwrap())
}

/// Calls `LruCache::get`, which returns the value of `key` (cloned here)
/// when the cache holds it, and only marks the entry as most recently used:
/// the entries stay as they were.
#[verifier::external_body]
fn lru_get(cache: &mut LruCache<String, String>, key: &str) -> (r: Option<String>)
    ensures
        lru_contents(*final(cache)) == lru_contents(*old(cache)),
        lru_capacity(*final(cache)) == lru_capacity(*old(cache)),
        match r {
            Some(v) => lru_contents(*old(cache)).contains_key(key@) && v@ == lru_contents(
                *old(cache),
            )[key@],
            None => !lru_contents(*old(cache)).contains_key(key@),
        },
{
    cache.get(key).cloned()
}

/// Calls `LruCache::put`: the key gets the value; when the key was absent
/// and the cache full, one other entry (the least recently used) is evicted.
#[verifier::external_body]
fn lru_put(cache: &mut LruCache<String, String>, key: String, value: String)
    ensures
        lru_capacity(*final(cache)) == lru_capacity(*old(cache)),
        lru_contents(*old(cache)).contains_key(key@) || lru_contents(*old(cache)).dom().len()
            < lru_capacity(*old(cache)) ==> lru_contents(*final(cache)) == lru_contents(
            *old(cache),
        ).insert(key@, value@),
        !lru_contents(*old(cache)).contains_key(key@) && lru_contents(*old(cache)).dom().len()
            >= lru_capacity(*old(cache)) ==> exists|evicted: Seq<char>|
            #[trigger] lru_contents(*old(cache)).contains_key(evicted) && lru_contents(*final(cache))
                == lru_contents(*old(cache)).remove(evicted).insert(key@, value@),
{
    cache.put(key, value);
}

/// Calls `LruCache::pop`, which removes `key` and returns its value, if any.
#[verifier::external_body]
fn lru_pop(cache: &mut LruCache<String, String>, key: &str) -> (r: Option<String>)
    ensures
        lru_contents(*final(cache)) == lru_contents(*old(cache)).remove(key@),
        lru_capacity(*final(cache)) == lru_capacity(*old(cache)),
        match r {
            Some(v) => lru_contents(*old(cache)).contains_key(key@) && v@ == lru_contents(
                *old(cache),
            )[key@],
            None => !lru_contents(*old(cache)).contains_key(key@),
        },
{
    cache.pop(key)
}

/// Calls `LruCache::clear`, which removes every entry.
#[verifier::external_body]
fn lru_clear(cache: &mut LruCache<String, String>)
    ensures
        lru_contents(*final(cache)) == no_entries(),
        lru_capacity(*final(cache)) == lru_capacity(*old(cache)),
{
    cache.clear();
}

/// Cache of containerfile discovery results, valid as long as the source
/// directory has not been modified since they were found.
pub struct ContainerfileCache {
    cache: LruCache<String, String>,
    src_dir_mtime: Option<i128>,
}

impl ContainerfileCache {
    /// The cached discovery results: group name to containerfile path.
    pub closed spec fn entries(&self) -> Map<Seq<char>, Seq<char>> {
        lru_contents(self.cache)
    }

    /// The modification time of the source directory (nanoseconds from the
    /// epoch) that the cached results belong to, if known.
    pub closed spec fn mtime(&self) -> Option<i128> {
        self.src_dir_mtime
    }

    /// The cache holds at most `DISCOVERY_CACHE_CAPACITY` results.
    pub closed spec fn wf(&self) -> bool {
        &&& lru_capacity(self.cache) == DISCOVERY_CACHE_CAPACITY
        &&& lru_within_capacity(self.cache)
    }

    /// An empty cache for `DISCOVERY_CACHE_CAPACITY` results.
    pub fn new() -> (r: Self)
        ensures
            r.wf(),
            r.entries() == no_entries(),
            r.mtime() is None,
    {
        let r = ContainerfileCache { cache: lru_new(DISCOVERY_CACHE_CAPACITY), src_dir_mtime: None };
        assert(lru_contents(r.cache).dom() =~= Set::<Seq<char>>::empty());
        r
    }

    /// Whether the cached results are still valid for a source directory
    /// whose modification time is now `current_mtime` (None when it cannot be
    /// read): they are when they were recorded at that time or later.
    pub fn is_valid(&self, current_mtime: Option<i128>) -> (r: bool)
        ensures
            r == (current_mtime matches Some(c) && self.mtime() matches Some(m) && m >= c),
    {
        match current_mtime {
            Some(c) => match self.src_dir_mtime {
                Some(m) => m >= c,
                None => false,
            },
            None => false,
        }
    }

    /// Records the source directory's modification time, when it could be read.
    pub fn update_src_dir_mtime(&mut self, current_mtime: Option<i128>)
        requires
            old(self).wf(),
        ensures
            final(self).wf(),
            final(self).entries() == old(self).entries(),
            final(self).mtime() == if current_mtime is Some {
                current_mtime
            } else {
                old(self).mtime()
            },
    {
        if let Some(m) = current_mtime {
            self.src_dir_mtime = Some(m);
        }
    }

    /// Drops every cached result and the recorded modification time.
    pub fn invalidate(&mut self)
        requires
            old(self).wf(),
        ensures
            final(self).wf(),
            final(self).entries() == no_entries(),
            final(self).mtime() is None,
    {
        lru_clear(&mut self.cache);
        assert(lru_contents(self.cache).dom() =~= Set::<Seq<char>>::empty());
        self.src_dir_mtime = None;
    }

    /// Keeps the cached results when they are valid for `current_mtime`;
    /// else drops them and records `current_mtime`.
    pub fn refresh(&mut self, current_mtime: Option<i128>)
        requires
            old(self).wf(),
        ensures
            final(self).wf(),
            old(self).is_valid_spec(current_mtime) ==> final(self).entries() == old(self).entries()
                && final(self).mtime() == old(self).mtime(),
            !old(self).is_valid_spec(current_mtime) ==> final(self).entries() == no_entries() && final(self).mtime() == current_mtime,
            current_mtime is Some ==> final(self).is_valid_spec(current_mtime),
    {
        if !self.is_valid(current_mtime) {
            self.invalidate();
            self.update_src_dir_mtime(current_mtime);
        }
    }

    /// Whether the cached results are valid for `current_mtime`; see `is_valid`.
    pub open spec fn is_valid_spec(&self, current_mtime: Option<i128>) -> bool {
        current_mtime matches Some(c) && self.mtime() matches Some(m) && m >= c
    }

    /// The cached containerfile path of `group`, if any; the entries stay
    /// as they were.
    pub fn get(&mut self, group: &str) -> (r: Option<String>)
        requires
            old(self).wf(),
        ensures
            final(self).wf(),
            final(self).entries() == old(self).entries(),
            final(self).mtime() == old(self).mtime(),
            match r {
                Some(p) => old(self).entries().contains_key(group@) && p@ == old(self).entries()[group@],
                None => !old(self).entries().contains_key(group@),
            },
    {
        lru_get(&mut self.cache, group)
    }

    /// Records that the containerfile of `group` is at `path`. A later `get`
    /// of `group` gives `path` back; when the cache was full and did not hold
    /// `group`, one other result is dropped.
    pub fn put(&mut self, group: String, path: String)
        requires
            old(self).wf(),
        ensures
            final(self).wf(),
            final(self).mtime() == old(self).mtime(),
            final(self).entries().contains_key(group@),
            final(self).entries()[group@] == path@,
            forall|g: Seq<char>|
                #[trigger] final(self).entries().contains_key(g) && g != group@ ==> old(
                    self,
                ).entries().contains_key(g) && final(self).entries()[g] == old(self).entries()[g],
            old(self).entries().dom().len() < DISCOVERY_CACHE_CAPACITY ==> final(self).entries()
                == old(self).entries().insert(group@, path@),
    {
        let ghost g = group@;
        let ghost p = path@;
        let ghost before = lru_contents(self.cache);
        lru_put(&mut self.cache, group, path);
        proof {
            let after = lru_contents(self.cache);
            if before.contains_key(g) || before.dom().len() < lru_capacity(self.cache) {
                assert(after == before.insert(g, p));
                if !before.contains_key(g) {
                    assert(after.dom() =~= before.dom().insert(g));
                } else {
                    assert(after.dom() =~= before.dom());
                }
            } else {
                let e = choose|e: Seq<char>| #[trigger] before.contains_key(e) && after == before.remove(e).insert(g, p);
                assert(after.dom() =~= before.dom().remove(e).insert(g));
            }
        }
    }

    /// Drops the cached result of `group`, returning it if there was one.
    pub fn pop(&mut self, group: &str) -> (r: Option<String>)
        requires
            old(self).wf(),
        ensures
            final(self).wf(),
            final(self).mtime() == old(self).mtime(),
            final(self).entries() == old(self).entries().remove(group@),
            match r {
                Some(p) => old(self).entries().contains_key(group@) && p@ == old(self).entries()[group@],
                None => !old(self).entries().contains_key(group@),
            },
    {
        let ghost before = lru_contents(self.cache);
        let r = lru_pop(&mut self.cache, group);
        assert(lru_contents(self.cache).dom() =~= before.dom().remove(group@));
        r
    }
}


/// A stage name written `group:stage`, with a group free of colons, reads
/// back as that group and stage.
pub proof fn law_stage_name_round_trip(group: Seq<char>, stage: Seq<char>)
    requires
        !group.contains(':'),
    ensures
        stage_parts(group + ":"@ + stage) == (group, stage),
{
    reveal_strlit(":");
    let s = group + ":"@ + stage;
    let i = group.len() as int;
    assert forall|j: int| 0 <= j < i implies s[j] != ':' by {
        assert(s[j] == group[j]);
        if s[j] == ':' {
            assert(group.contains(':'));
        }
    }
    assert(s[i] == ':');
    lemma_split_once_at(s, ':', i);
    assert(s.take(i) =~= group);
    assert(s.skip(i + 1) =~= stage);
}

/// A stage name without a colon is its own group.
pub proof fn law_plain_stage_name(name: Seq<char>)
    requires
        !name.contains(':'),
    ensures
        stage_parts(name) == (name, name),
{
    assert forall|j: int| 0 <= j < name.len() implies name[j] != ':' by {
        if name[j] == ':' {
            assert(name.contains(':'));
        }
    }
    lemma_split_once_at(name, ':', name.len() as int);
}


/// Containerfile discovery for a configuration: the decisions and the cache
/// of results. The program walks the source directory and checks files.
pub struct ContainerfileDiscovery<'a> {
    config: &'a TrellisConfig,
    cache: ContainerfileCache,
}

impl<'a> ContainerfileDiscovery<'a> {
    /// The configuration this discovery searches for.
    pub closed spec fn spec_config(&self) -> TrellisConfig {
        *self.config
    }

    /// The cache of discovery results.
    pub closed spec fn spec_cache(&self) -> ContainerfileCache {
        self.cache
    }

    /// Discovery for `config`, with an empty cache.
    pub fn new(config: &'a TrellisConfig) -> (r: Self)
        ensures
            r.spec_config() == *config,
            r.spec_cache().wf(),
            r.spec_cache().entries() == no_entries(),
    {
        ContainerfileDiscovery { config, cache: ContainerfileCache::new() }
    }

    /// Parses a stage name that may use the `group:stage` syntax; see
    /// `stage_parts`.
    pub fn parse_stage_name(build_stage: &str) -> (r: (String, String))
        ensures
            (r.0@, r.1@) == stage_parts(build_stage@),
    {
        match split_once_str(build_stage, ':') {
            Some(parts) => parts,
            None => (String::from_str(build_stage), String::from_str(build_stage)),
        }
    }

    /// The cached containerfile path of `group`, after dropping the cache
    /// when the source directory changed since it was filled (its
    /// modification time is now `current_mtime`).
    pub fn cached_containerfile(&mut self, group: &str, current_mtime: Option<i128>) -> (r: Option<String>)
        requires
            old(self).spec_cache().wf(),
        ensures
            final(self).spec_cache().wf(),
            final(self).spec_config() == old(self).spec_config(),
            !old(self).spec_cache().is_valid_spec(current_mtime) ==> r is None,
            old(self).spec_cache().is_valid_spec(current_mtime) ==> match r {
                Some(p) => old(self).spec_cache().entries().contains_key(group@) && p@ == old(
                    self,
                ).spec_cache().entries()[group@],
                None => !old(self).spec_cache().entries().contains_key(group@),
            },
    {
        self.cache.refresh(current_mtime);
        self.cache.get(group)
    }

    /// Drops the cached result of `group` (its file no longer exists).
    pub fn forget_containerfile(&mut self, group: &str)
        requires
            old(self).spec_cache().wf(),
        ensures
            final(self).spec_cache().wf(),
            final(self).spec_config() == old(self).spec_config(),
            final(self).spec_cache().entries() == old(self).spec_cache().entries().remove(group@),
    {
        let _ = self.cache.pop(group);
    }

    /// Records that the containerfile of `group` was found at `path`.
    pub fn remember_containerfile(&mut self, group: String, path: String)
        requires
            old(self).spec_cache().wf(),
        ensures
            final(self).spec_cache().wf(),
            final(self).spec_config() == old(self).spec_config(),
            final(self).spec_cache().entries().contains_key(group@),
            final(self).spec_cache().entries()[group@] == path@,
    {
        self.cache.put(group, path);
    }

    /// The result of a search for the containerfile of `group` that found
    /// `candidates` (each with the number of components of its path): the
    /// most deeply nested one, or the error that nothing was found.
    pub fn choose_containerfile(&self, group: &str, candidates: &[(String, usize)]) -> (r: Result<String, DiscoveryError>)
        ensures
            candidates@.len() == 0 ==> (r matches Err(DiscoveryError::NotFound { filename, src_dir })
                && filename@ == containerfile_name_of(group@) && src_dir@ == self.spec_config().src_dir@),
            candidates@.len() > 0 ==> (r matches Ok(p) && exists|k: int|
                is_first_deepest(candidates@, k) && #[trigger] candidates@[k].0@ == p@),
    {
        match select_containerfile(candidates) {
            Some(p) => Ok(p),
            None => Err(not_found_error(group, self.config.src_dir.as_str())),
        }
    }

    /// Checks that every stage's containerfile was found (`found[i]` tells
    /// whether the containerfile of stage `i`'s group exists); the error lists
    /// the missing file names.
    pub fn validate_stages(&self, stages: &[String], found: &[bool]) -> (r: Result<(), DiscoveryError>)
        requires
            found@.len() == stages@.len(),
        ensures
            missing_names(views(stages@), found@).len() == 0 ==> r is Ok,
            missing_names(views(stages@), found@).len() > 0 ==> (r matches Err(
                DiscoveryError::MissingContainerfiles(files),
            ) && views(files@) == missing_names(views(stages@), found@)),
    {
        let missing = missing_containerfiles(stages, found);
        if missing.len() > 0 {
            Err(DiscoveryError::MissingContainerfiles(missing))
        } else {
            Ok(())
        }
    }
}

} // verus!
