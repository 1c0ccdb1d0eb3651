//! The result cache (file content hashes and check statuses) and the cache of
//! fetched external resources, per project.
//!
//! Reading and writing the cache files, hashing files on disk and fetching
//! over the network happen outside; this module holds every table and every
//! decision about them.

use vstd::prelude::*;
use crate::encode::check_fingerprint;
use crate::hashing::{content_hash, hash_bytes};
use crate::keyed::{entries_map, get_key, keys_unique, lemma_entries_map, set_key, StrMap};
use crate::model::{Check, CheckType};
use crate::status::{opt_view, Status};
use crate::text::{join_path, join_path_spec};

verus! {

/// Which kind of external resource a file is.
#[derive(Debug, Clone, Copy, PartialEq, Eq)]
pub enum Ttype {
    Checklist,
    Template,
}

/// File path to the content hash recorded when its check last passed.
#[derive(Debug)]
pub struct PathMap {
    map: StrMap,
}

impl PathMap {
    pub closed spec fn wf(&self) -> bool {
        self.map.wf()
    }

    pub closed spec fn view(&self) -> Map<Seq<char>, Seq<char>> {
        self.map.view()
    }

    pub fn new() -> (r: PathMap)
        ensures
            r.wf(),
            r@ == Map::<Seq<char>, Seq<char>>::empty(),
    {
        PathMap { map: StrMap::new() }
    }

    /// Records `hash` as the content hash of `path`.
    pub fn insert(&mut self, path: String, hash: String)
        requires
            old(self).wf(),
        ensures
            final(self).wf(),
            final(self)@ == old(self)@.insert(path@, hash@),
    {
        self.map.set(path, hash);
    }

    pub fn get(&self, path: &String) -> (r: Option<String>)
        requires
            self.wf(),
        ensures
            opt_view(r) == if self@.contains_key(path@) {
                Some(self@[path@])
            } else {
                None
            },
    {
        self.map.get(path)
    }

    pub fn entries(&self) -> (r: &Vec<(String, String)>)
        ensures
            self@ == entries_map(r@).map_values(|v: String| v@),
    {
        self.map.entries()
    }
}

/// Check fingerprint to the status last recorded for it.
#[derive(Debug)]
pub struct CheckMap {
    map: Vec<(String, Status)>,
}

impl CheckMap {
    pub closed spec fn wf(&self) -> bool {
        keys_unique(self.map@)
    }

    pub closed spec fn view(&self) -> Map<Seq<char>, Status> {
        entries_map(self.map@)
    }

    pub fn new() -> (r: CheckMap)
        ensures
            r.wf(),
            r@ == Map::<Seq<char>, Status>::empty(),
    {
        let r = CheckMap { map: Vec::new() };
        assert(r@ =~= Map::<Seq<char>, Status>::empty());
        r
    }

    /// The status recorded for the check's fingerprint, if any.
    pub fn get(&self, check: &Check) -> (r: Option<Status>)
        requires
            self.wf(),
        ensures
            r == if self@.contains_key(check_fingerprint(*check)) {
                Some(self@[check_fingerprint(*check)])
            } else {
                None
            },
    {
        let fp = check.fingerprint();
        match get_key(&self.map, &fp) {
            Some(s) => Some(s.duplicate()),
            None => None,
        }
    }

    pub fn insert(&mut self, check: &Check, status: Status)
        requires
            old(self).wf(),
        ensures
            final(self).wf(),
            final(self)@ == old(self)@.insert(check_fingerprint(*check), status),
    {
        let fp = check.fingerprint();
        set_key(&mut self.map, fp, status);
    }

    /// Records a status under a fingerprint directly.
    pub fn insert_fingerprint(&mut self, fingerprint: String, status: Status)
        requires
            old(self).wf(),
        ensures
            final(self).wf(),
            final(self)@ == old(self)@.insert(fingerprint@, status),
    {
        set_key(&mut self.map, fingerprint, status);
    }

    pub fn entries(&self) -> (r: &Vec<(String, Status)>)
        ensures
            self@ == entries_map(r@),
    {
        &self.map
    }
}

/// Why an external resource was refused.
#[derive(Debug, PartialEq, Eq)]
pub enum FetchError {
    /// The fetched bytes do not have the pinned hash.
    HashMismatch { name: String, given: String, computed: String },
}

/// Content hash to the local copy of a fetched external resource.
#[derive(Debug)]
pub struct ExternalChecklistCache {
    dir: String,
    map: StrMap,
}

/// Where a fetched resource of a kind is written, below the resource directory.
pub open spec fn dest_spec(dir: Seq<char>, name: Seq<char>, ttype: Ttype) -> Seq<char> {
    join_path_spec(
        join_path_spec(
            dir,
            match ttype {
                Ttype::Checklist => "checklists"@,
                Ttype::Template => "templates"@,
            },
        ),
        name,
    )
}

/// A pinned hash is given and differs from the content hash of the bytes.
pub open spec fn refused(hash: Option<String>, body: Seq<u8>) -> bool {
    match hash {
        Some(h) => h@ != content_hash(body),
        None => false,
    }
}

impl ExternalChecklistCache {
    pub closed spec fn wf(&self) -> bool {
        self.map.wf()
    }

    pub closed spec fn view(&self) -> Map<Seq<char>, Seq<char>> {
        self.map.view()
    }

    /// The directory that fetched resources are written below.
    pub closed spec fn dir(&self) -> Seq<char> {
        self.dir@
    }

    /// A cache in `parent_dir/remote-checklists` holding the given pairs
    /// (hash, local path).
    pub fn new(parent_dir: &str, map: Vec<(String, String)>) -> (r: ExternalChecklistCache)
        ensures
            r.wf(),
            r.dir() == join_path_spec(parent_dir@, "remote-checklists"@),
            r@ == entries_map(map@).map_values(|v: String| v@),
    {
        let dir = join_path(parent_dir, "remote-checklists");
        ExternalChecklistCache { dir, map: StrMap::from_pairs(map) }
    }

    /// The local copy registered for a content hash.
    pub fn get(&self, hash: &String) -> (r: Option<String>)
        requires
            self.wf(),
        ensures
            opt_view(r) == if self@.contains_key(hash@) {
                Some(self@[hash@])
            } else {
                None
            },
    {
        self.map.get(hash)
    }

    /// The path that a fetched resource named `name` is written to.
    pub fn destination(&self, name: &str, ttype: Ttype) -> (r: String)
        ensures
            r@ == dest_spec(self.dir(), name@, ttype),
    {
        let sub = match ttype {
            Ttype::Checklist => join_path(self.dir.as_str(), "checklists"),
            Ttype::Template => join_path(self.dir.as_str(), "templates"),
        };
        join_path(sub.as_str(), name)
    }

    /// Accepts the bytes fetched for `name`: when a pinned hash is given it
    /// must equal their content hash, else they are refused and nothing is
    /// registered. On success the content hash maps to the destination, which
    /// is returned.
    pub fn download_and_insert(
        &mut self,
        name: &str,
        body: &[u8],
        hash: Option<String>,
        ttype: Ttype,
    ) -> (r: Result<String, FetchError>)
        requires
            old(self).wf(),
        ensures
            final(self).wf(),
            final(self).dir() == old(self).dir(),
            refused(hash, body@) ==> r is Err && final(self)@ == old(self)@,
            !refused(hash, body@) ==> r is Ok && r->Ok_0@ == dest_spec(old(self).dir(), name@, ttype),
            !refused(hash, body@) ==> final(self)@ == old(self)@.insert(
                content_hash(body@),
                dest_spec(old(self).dir(), name@, ttype),
            ),
    {
        let dest = self.destination(name, ttype);
        let computed = hash_bytes(body);
        match hash {
            Some(given) => {
                if !(given == computed) {
                    return Err(
                        FetchError::HashMismatch { name: name.to_string(), given, computed },
                    );
                }
            },
            None => {},
        }
        self.map.set(computed, dest.clone());
        Ok(dest)
    }

    pub fn entries(&self) -> (r: &Vec<(String, String)>)
        ensures
            self@ == entries_map(r@).map_values(|v: String| v@),
    {
        self.map.entries()
    }
}

/// The two tables of the result cache, as maps.
pub struct CacheState {
    /// File path to content hash.
    pub paths: Map<Seq<char>, Seq<char>>,
    /// Check fingerprint to status.
    pub checks: Map<Seq<char>, Status>,
}

/// The status as stored in the cache: marked as served from it.
pub open spec fn cached_copy(st: Status) -> Status {
    Status { status: st.status, cached: true }
}

/// What a lookup of `check` returns, given the current content hash of its
/// file (`None` when the file cannot be hashed). Only file checks take part:
/// the file's recorded hash must equal its current one, and then the status
/// stored under the check's fingerprint is returned.
pub open spec fn cache_lookup(s: CacheState, check: Check, current: Option<Seq<char>>) -> Option<
    Status,
> {
    match check.check {
        CheckType::File(f) => if s.paths.contains_key(f.path@) && current == Some(s.paths[f.path@])
            && s.checks.contains_key(check_fingerprint(check)) {
            Some(s.checks[check_fingerprint(check)])
        } else {
            None
        },
        _ => None,
    }
}

/// The tables after storing `status` for `check`. Only file checks are
/// stored; the status is always written under the fingerprint, marked as
/// cached, but the file's hash is recorded only for a pass.
pub open spec fn cache_insert(
    s: CacheState,
    check: Check,
    status: Status,
    current: Option<Seq<char>>,
) -> CacheState {
    match check.check {
        CheckType::File(f) => CacheState {
            paths: match current {
                Some(h) => if status.status is Pass {
                    s.paths.insert(f.path@, h)
                } else {
                    s.paths
                },
                None => s.paths,
            },
            checks: s.checks.insert(check_fingerprint(check), cached_copy(status)),
        },
        _ => s,
    }
}

/// What to do for an external resource.
#[derive(Debug, PartialEq, Eq)]
pub enum FetchStep {
    /// Its pinned hash is registered: use this local copy, with no network access.
    Cached { path: String },
    /// Fetch `url`, then hand the bytes to `Cache::complete_external`; the copy
    /// will be written to `dest`.
    Download { url: String, dest: String },
}

/// The registered local copy for a pinned hash, if any.
pub open spec fn fetch_plan(remotes: Map<Seq<char>, Seq<char>>, hash: Option<Seq<char>>) -> Option<
    Seq<char>,
> {
    match hash {
        Some(h) => if remotes.contains_key(h) {
            Some(remotes[h])
        } else {
            None
        },
        None => None,
    }
}

/// The four cache files of a project: paths, checks, facts and remotes.
pub fn cache_files(dir: &str, project_name: &str) -> (r: (String, String, String, String))
    ensures
        r.0@ == join_path_spec(dir@, project_name@ + "-paths.json"@),
        r.1@ == join_path_spec(dir@, project_name@ + "-checks.json"@),
        r.2@ == join_path_spec(dir@, project_name@ + "-facts.json"@),
        r.3@ == join_path_spec(dir@, project_name@ + "-remotes.json"@),
{
    let mut p = project_name.to_string();
    p.append("-paths.json");
    let mut c = project_name.to_string();
    c.append("-checks.json");
    let mut f = project_name.to_string();
    f.append("-facts.json");
    let mut r = project_name.to_string();
    r.append("-remotes.json");
    (
        join_path(dir, p.as_str()),
        join_path(dir, c.as_str()),
        join_path(dir, f.as_str()),
        join_path(dir, r.as_str()),
    )
}

/// The result cache of one project, with the facts it was computed under and
/// its external-resource table.
#[derive(Debug)]
pub struct Cache {
    cache_dir: String,
    path_map: PathMap,
    check_map: CheckMap,
    external_checklist_cache: ExternalChecklistCache,
    project_name: String,
    facts: StrMap,
}

impl Cache {
    pub closed spec fn wf(&self) -> bool {
        &&& self.path_map.wf()
        &&& self.check_map.wf()
        &&& self.external_checklist_cache.wf()
        &&& self.facts.wf()
        &&& self.external_checklist_cache.dir() == join_path_spec(
            self.cache_dir@,
            "remote-checklists"@,
        )
    }

    pub closed spec fn state(&self) -> CacheState {
        CacheState { paths: self.path_map@, checks: self.check_map@ }
    }

    /// The facts snapshot the cache was written under.
    pub closed spec fn facts_view(&self) -> Map<Seq<char>, Seq<char>> {
        self.facts.view()
    }

    /// Content hash to local copy of fetched resources.
    pub closed spec fn remotes(&self) -> Map<Seq<char>, Seq<char>> {
        self.external_checklist_cache@
    }

    pub closed spec fn dir(&self) -> Seq<char> {
        self.cache_dir@
    }

    pub closed spec fn resource_dir(&self) -> Seq<char> {
        self.external_checklist_cache.dir()
    }

    /// An empty cache for `project_name` below `cache_dir`, under `facts`.
    pub fn new(cache_dir: &str, project_name: String, facts: StrMap) -> (r: Cache)
        requires
            facts.wf(),
        ensures
            r.wf(),
            r.dir() == join_path_spec(cache_dir@, project_name@),
            r.resource_dir() == join_path_spec(r.dir(), "remote-checklists"@),
            r.state().paths == Map::<Seq<char>, Seq<char>>::empty(),
            r.state().checks == Map::<Seq<char>, Status>::empty(),
            r.remotes() == Map::<Seq<char>, Seq<char>>::empty(),
            r.facts_view() == facts.view(),
    {
        let dir = join_path(cache_dir, project_name.as_str());
        let ext = ExternalChecklistCache::new(dir.as_str(), Vec::new());
        assert(ext@ =~= Map::<Seq<char>, Seq<char>>::empty());
        Cache {
            cache_dir: dir,
            path_map: PathMap::new(),
            check_map: CheckMap::new(),
            external_checklist_cache: ext,
            project_name,
            facts,
        }
    }

    /// The cache as read back from its files: `None` ("no cache yet") unless
    /// both the path table and the check table were found; a missing facts or
    /// remotes table reads as empty.
    pub fn load(
        cache_dir: &str,
        project_name: String,
        paths: Option<Vec<(String, String)>>,
        checks: Option<Vec<(String, Status)>>,
        facts: Option<Vec<(String, String)>>,
        remotes: Option<Vec<(String, String)>>,
    ) -> (r: Option<Cache>)
        ensures
            r is Some <==> paths is Some && checks is Some,
            r matches Some(c) ==> c.wf() && c.dir() == join_path_spec(cache_dir@, project_name@)
                && c.resource_dir() == join_path_spec(c.dir(), "remote-checklists"@) && c.state().paths == entries_map(paths->Some_0@).map_values(|v: String| v@)
                && c.state().checks == entries_map(checks->Some_0@) && c.facts_view() == match facts {
                Some(f) => entries_map(f@).map_values(|v: String| v@),
                None => Map::<Seq<char>, Seq<char>>::empty(),
            } && c.remotes() == match remotes {
                Some(m) => entries_map(m@).map_values(|v: String| v@),
                None => Map::<Seq<char>, Seq<char>>::empty(),
            },
    {
        let paths = match paths {
            Some(p) => p,
            None => {
                return None;
            },
        };
        let checks = match checks {
            Some(c) => c,
            None => {
                return None;
            },
        };
        let ghost facts_in = facts;
        let ghost paths_in = paths;
        let ghost checks_in = checks;
        let fact_map = match facts {
            Some(f) => StrMap::from_pairs(f),
            None => StrMap::new(),
        };
        let mut cache = Cache::new(cache_dir, project_name, fact_map);
        let ghost dir = cache.cache_dir@;
        assert(cache.state().checks =~= entries_map(checks@.subrange(0, 0)));
        let pm = StrMap::from_pairs(paths);
        cache.path_map = PathMap { map: pm };
        let mut i: usize = 0;
        while i < checks.len()
            invariant
                cache.wf(),
                cache.cache_dir@ == dir,
                0 <= i <= checks@.len(),
                cache.facts_view() == match facts_in {
                    Some(f) => entries_map(f@).map_values(|v: String| v@),
                    None => Map::<Seq<char>, Seq<char>>::empty(),
                },
                cache.state().paths == entries_map(paths@).map_values(|v: String| v@),
                cache.state().checks == entries_map(checks@.subrange(0, i as int)),
                cache.remotes() == Map::<Seq<char>, Seq<char>>::empty(),
            decreases checks@.len() - i,
        {
            proof {
                assert(checks@.subrange(0, i + 1).drop_last() =~= checks@.subrange(0, i as int));
            }
            cache.check_map.insert_fingerprint(checks[i].0.clone(), checks[i].1.duplicate());
            i = i + 1;
        }
        assert(checks@.subrange(0, checks@.len() as int) =~= checks@);
        match remotes {
            Some(rm) => {
                cache.external_checklist_cache = ExternalChecklistCache::new(cache.cache_dir.as_str(), rm);
            },
            None => {},
        }
        Some(cache)
    }

    /// An empty cache in the same directory, for the same project, written
    /// under `facts`: what replaces a wiped cache.
    pub fn emptied(&self, facts: StrMap) -> (r: Cache)
        requires
            self.wf(),
            facts.wf(),
        ensures
            r.wf(),
            r.dir() == self.dir(),
            r.resource_dir() == join_path_spec(r.dir(), "remote-checklists"@),
            r.state().paths == Map::<Seq<char>, Seq<char>>::empty(),
            r.state().checks == Map::<Seq<char>, Status>::empty(),
            r.remotes() == Map::<Seq<char>, Seq<char>>::empty(),
            r.facts_view() == facts.view(),
    {
        let dir = self.cache_dir.clone();
        let ext = ExternalChecklistCache::new(dir.as_str(), Vec::new());
        assert(ext@ =~= Map::<Seq<char>, Seq<char>>::empty());
        Cache {
            cache_dir: dir,
            path_map: PathMap::new(),
            check_map: CheckMap::new(),
            external_checklist_cache: ext,
            project_name: self.project_name.clone(),
            facts,
        }
    }

    pub fn cache_dir(&self) -> (r: &String)
        ensures
            r@ == self.dir(),
    {
        &self.cache_dir
    }

    pub fn facts(&self) -> (r: &StrMap)
        requires
            self.wf(),
        ensures
            r.wf(),
            r.view() == self.facts_view(),
    {
        &self.facts
    }

    /// The path whose current content hash a lookup of `check` needs: the
    /// file of a file check whose hash is recorded.
    pub fn file_to_hash(&self, check: &Check) -> (r: Option<String>)
        requires
            self.wf(),
        ensures
            match check.check {
                CheckType::File(f) => opt_view(r) == if self.state().paths.contains_key(f.path@) {
                    Some(f.path@)
                } else {
                    None::<Seq<char>>
                },
                _ => r is None,
            },
    {
        match &check.check {
            CheckType::File(f) => match self.path_map.get(&f.path) {
                Some(_) => Some(f.path.clone()),
                None => None,
            },
            _ => None,
        }
    }

    /// Looks up `check`; `current` is the current content hash of its file.
    /// Directory, command and HTTP checks are not cached yet, and variable
    /// checks never are: they always miss.
    pub fn get(&self, check: &Check, current: &Option<String>) -> (r: Option<Status>)
        requires
            self.wf(),
        ensures
            r == cache_lookup(self.state(), *check, opt_view(*current)),
    {
        match &check.check {
            CheckType::File(f) => {
                let recorded = self.path_map.get(&f.path);
                match (recorded, current) {
                    (Some(old_hash), Some(new_hash)) => {
                        if old_hash == *new_hash {
                            self.check_map.get(check)
                        } else {
                            None
                        }
                    },
                    _ => None,
                }
            },
            _ => None,
        }
    }

    /// Stores `status` for `check`, marked as cached; `current` is the
    /// current content hash of its file.
    pub fn insert(&mut self, check: &Check, status: Status, current: &Option<String>)
        requires
            old(self).wf(),
        ensures
            final(self).wf(),
            final(self).state() == cache_insert(old(self).state(), *check, status, opt_view(*current)),
            final(self).facts_view() == old(self).facts_view(),
            final(self).remotes() == old(self).remotes(),
            final(self).dir() == old(self).dir(),
            final(self).resource_dir() == old(self).resource_dir(),
    {
        let mut status = status;
        status.mark_as_cached();
        match &check.check {
            CheckType::File(f) => {
                if status.is_success() {
                    match current {
                        Some(h) => self.path_map.insert(f.path.clone(), h.clone()),
                        None => {},
                    }
                }
                self.check_map.insert(check, status);
                assert(self.state() == cache_insert(old(self).state(), *check, status, opt_view(*current)));
            },
            _ => {},
        }
    }

    /// The first step of getting an external resource: a registered pinned
    /// hash is served from its local copy, anything else must be fetched.
    pub fn get_or_dl_external_file(
        &self,
        name: &str,
        url: String,
        hash: &Option<String>,
        ttype: Ttype,
    ) -> (r: FetchStep)
        requires
            self.wf(),
        ensures
            match fetch_plan(self.remotes(), opt_view(*hash)) {
                Some(p) => r matches FetchStep::Cached { path } && path@ == p,
                None => r matches FetchStep::Download { url: u, dest } && u == url && dest@
                    == dest_spec(self.resource_dir(), name@, ttype),
            },
            self.resource_dir() == join_path_spec(self.dir(), "remote-checklists"@),
    {
        match hash {
            Some(h) => match self.external_checklist_cache.get(h) {
                Some(path) => {
                    return FetchStep::Cached { path };
                },
                None => {},
            },
            None => {},
        }
        FetchStep::Download { url, dest: self.external_checklist_cache.destination(name, ttype) }
    }

    /// The second step: the fetched bytes are checked against the pinned hash
    /// and registered under their content hash.
    pub fn complete_external(
        &mut self,
        name: &str,
        body: &[u8],
        hash: Option<String>,
        ttype: Ttype,
    ) -> (r: Result<String, FetchError>)
        requires
            old(self).wf(),
        ensures
            final(self).wf(),
            final(self).state() == old(self).state(),
            final(self).facts_view() == old(self).facts_view(),
            final(self).dir() == old(self).dir(),
            final(self).resource_dir() == old(self).resource_dir(),
            old(self).resource_dir() == join_path_spec(old(self).dir(), "remote-checklists"@),
            refused(hash, body@) ==> r is Err && final(self).remotes() == old(self).remotes(),
            !refused(hash, body@) ==> r is Ok && r->Ok_0@ == dest_spec(
                old(self).resource_dir(),
                name@,
                ttype,
            ),
            !refused(hash, body@) ==> final(self).remotes() == old(self).remotes().insert(
                content_hash(body@),
                dest_spec(old(self).resource_dir(), name@, ttype),
            ),
    {
        self.external_checklist_cache.download_and_insert(name, body, hash, ttype)
    }

    pub fn path_entries(&self) -> (r: &Vec<(String, String)>)
        ensures
            self.state().paths == entries_map(r@).map_values(|v: String| v@),
    {
        self.path_map.entries()
    }

    pub fn check_entries(&self) -> (r: &Vec<(String, Status)>)
        ensures
            self.state().checks == entries_map(r@),
    {
        self.check_map.entries()
    }

    pub fn remote_entries(&self) -> (r: &Vec<(String, String)>)
        ensures
            self.remotes() == entries_map(r@).map_values(|v: String| v@),
    {
        self.external_checklist_cache.entries()
    }
}

/// A pass stored for a file check is served back, marked as cached, while
/// the file keeps the content it had; once the content changes, the lookup
/// misses.
pub proof fn lemma_pass_is_served(s: CacheState, check: Check, status: Status, h: Seq<char>, other: Seq<char>)
    requires
        check.check is File,
        status.status is Pass,
        other != h,
    ensures
        cache_lookup(cache_insert(s, check, status, Some(h)), check, Some(h)) == Some(cached_copy(status)),
        cache_lookup(cache_insert(s, check, status, Some(h)), check, Some(other)) is None,
        cached_copy(status).cached,
{
}

/// A failure never records the file's hash: the path table is unchanged, so
/// when no hash was on record for the file (or another one was), a lookup
/// with the unchanged file still misses.
pub proof fn lemma_fail_never_freezes(s: CacheState, check: Check, status: Status, h: Seq<char>)
    requires
        check matches Check { check: CheckType::File(f), .. } && !(s.paths.contains_key(f.path@) && s.paths[f.path@] == h),
        status.status is Fail,
    ensures
        cache_insert(s, check, status, Some(h)).paths == s.paths,
        cache_lookup(cache_insert(s, check, status, Some(h)), check, Some(h)) is None,
{
}

/// Checks with different fingerprints are cached independently: storing one
/// leaves the status stored for the other as it was, and, when they are about
/// different files, the other's lookup too.
pub proof fn lemma_fingerprints_independent(
    s: CacheState,
    a: Check,
    b: Check,
    status: Status,
    ha: Option<Seq<char>>,
    hb: Option<Seq<char>>,
)
    requires
        check_fingerprint(a) != check_fingerprint(b),
    ensures
        cache_insert(s, a, status, ha).checks.contains_key(check_fingerprint(b))
            == s.checks.contains_key(check_fingerprint(b)),
        cache_insert(s, a, status, ha).checks[check_fingerprint(b)] == s.checks[check_fingerprint(b)],
        (a.check is File && b.check is File && a.check->File_0.path@ != b.check->File_0.path@)
            ==> cache_lookup(cache_insert(s, a, status, ha), b, hb) == cache_lookup(s, b, hb),
{
}

/// Variable checks never come from the cache, whatever was stored before:
/// storing one changes nothing and looking one up always misses.
pub proof fn lemma_varset_never_cached(
    s: CacheState,
    check: Check,
    status: Status,
    current: Option<Seq<char>>,
)
    requires
        check.check is VarSet,
    ensures
        cache_insert(s, check, status, current) == s,
        cache_lookup(cache_insert(s, check, status, current), check, current) is None,
{
}

/// A resource accepted under its correct pinned hash is served from its local
/// copy on the next request for that hash, with no fetch.
pub proof fn lemma_pinned_fetch_served(
    remotes: Map<Seq<char>, Seq<char>>,
    hash: String,
    body: Seq<u8>,
    dest: Seq<char>,
)
    requires
        !refused(Some(hash), body),
    ensures
        fetch_plan(remotes.insert(content_hash(body), dest), Some(hash@)) == Some(dest),
{
}

} // verus!
