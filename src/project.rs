//! The evaluation engine: resolves facts checklist by checklist, reconciles
//! the result cache with them, evaluates every check through the cache, and
//! aggregates the statuses.
//!
//! The engine is a state machine. `next` makes every decision and names the
//! outside work to do (run a pipeline, observe a check, wipe or save the
//! cache); the caller does it and hands the result back.

use vstd::prelude::*;
use crate::cache::{cache_lookup, cache_insert, Cache, CacheState};
use crate::env::EnvVars;
use crate::evaluate::{check_expected, first_unmet, probe_all, probes_agree, CheckObservation, EvalError};
use crate::keyed::StrMap;
use crate::model::{check_name, Check, Checklist, Fact, FactResolution, FactValue, Requirement};
use crate::settings::Settings;
use crate::text::{join_path, join_path_spec, views_of};
use crate::status::{meets, opt_view, Status, Statuses};

verus! {

/// Where the engine stands.
#[derive(Debug, Clone, Copy, PartialEq, Eq)]
pub enum Phase {
    /// Evaluation is over: the cache is to be saved.
    Saving,
    /// Resolving fact `fact` of checklist `list`.
    Facts { list: usize, fact: usize },
    /// Waiting for the output of a fact's pipeline.
    AwaitFact { list: usize, fact: usize },
    /// Comparing the cache's facts snapshot with the facts of this run.
    Reconcile,
    /// Waiting for the cache directory to be wiped.
    AwaitWipe,
    /// Evaluating check `check` of checklist `list`.
    Checks { list: usize, check: usize },
    /// Waiting for the observation of a check.
    AwaitObservation { list: usize, check: usize },
    /// Waiting for the cache to be written.
    AwaitSave,
    Done,
    Aborted,
}

/// The outside work that the engine asks for next.
#[derive(Debug, PartialEq, Eq)]
pub enum Action {
    /// Nothing outside: call `next` again.
    Continue,
    /// Run this pipeline with the facts as extra environment, then call
    /// `fact_output`.
    RunFactCommand { command: String },
    /// Delete the project's cache directory, then call `cache_wiped`.
    WipeCache { dir: String },
    /// Observe check `check` of checklist `list` (its file or directory, its
    /// conditions' targets, its rendered template, the content hash of its
    /// file), then call `check_observed`.
    ObserveCheck { list: usize, check: usize },
    /// Write the cache files, then call `saved`.
    SaveCache,
    /// The run is complete.
    Finished,
    /// The run stops: a fact could not be established or an evaluation failed.
    Abort { message: String },
}

/// The engine is evaluating checks, or waiting for a check's observation.
pub open spec fn checking(p: Phase) -> bool {
    match p {
        Phase::Checks { .. } => true,
        Phase::AwaitObservation { .. } => true,
        _ => false,
    }
}

/// Where a project keeps checklists: directories whose `.toml` files are
/// checklists, in the order they are read.
pub fn project_checklist_dirs(dir: &str) -> (r: Vec<String>)
    ensures
        views_of(r@) == seq![
            join_path_spec(dir@, ".checklists"@),
            join_path_spec(dir@, "checklists"@),
            join_path_spec(dir@, "checks"@),
            join_path_spec(dir@, ".checks"@),
        ],
{
    let mut r: Vec<String> = Vec::new();
    r.push(join_path(dir, ".checklists"));
    r.push(join_path(dir, "checklists"));
    r.push(join_path(dir, "checks"));
    r.push(join_path(dir, ".checks"));
    assert(views_of(r@) =~= seq![
        join_path_spec(dir@, ".checklists"@),
        join_path_spec(dir@, "checklists"@),
        join_path_spec(dir@, "checks"@),
        join_path_spec(dir@, ".checks"@),
    ]);
    r
}

/// Single checklist files a project may hold, read after the directories.
pub fn project_checklist_files(dir: &str) -> (r: Vec<String>)
    ensures
        views_of(r@) == seq![
            join_path_spec(dir@, ".checklist.toml"@),
            join_path_spec(dir@, "checklist.toml"@),
        ],
{
    let mut r: Vec<String> = Vec::new();
    r.push(join_path(dir, ".checklist.toml"));
    r.push(join_path(dir, "checklist.toml"));
    assert(views_of(r@) =~= seq![
        join_path_spec(dir@, ".checklist.toml"@),
        join_path_spec(dir@, "checklist.toml"@),
    ]);
    r
}

/// A file name with a stem and the extension `toml`.
pub open spec fn is_checklist_name_spec(name: Seq<char>) -> bool {
    name.len() > 5 && name.subrange(name.len() - 5, name.len() as int) == ".toml"@
}

/// Whether a file in a checklist directory is a checklist.
pub fn is_checklist_name(name: &str) -> (r: bool)
    ensures
        r == is_checklist_name_spec(name@),
{
    let n = name.unicode_len();
    if n <= 5 {
        return false;
    }
    let tail = name.substring_char(n - 5, n);
    proof {
        reveal_strlit(".toml");
    }
    let r = tail.unicode_len() == 5 && tail.get_char(0) == '.' && tail.get_char(1) == 't'
        && tail.get_char(2) == 'o' && tail.get_char(3) == 'm' && tail.get_char(4) == 'l';
    proof {
        if r {
            assert(tail@ =~= ".toml"@);
        } else {
            if name@.subrange(n - 5, n as int) == ".toml"@ {
                assert(tail@[0] == '.');
            }
        }
    }
    r
}

/// An environment requirement whose variable is not set.
pub open spec fn env_requirement_unset(r: Requirement, env: Map<Seq<char>, Seq<char>>) -> bool {
    match r {
        Requirement::Env { key } => !env.contains_key(key@),
        _ => false,
    }
}

/// A requirement that may fail: an executable (resolved on the search path,
/// outside the library's knowledge) or an unset variable.
pub open spec fn requirement_may_fail(r: Requirement, env: Map<Seq<char>, Seq<char>>) -> bool {
    match r {
        Requirement::Command { .. } => true,
        Requirement::Env { key } => !env.contains_key(key@),
    }
}

/// The phase after recording `st` for check `check` of checklist `list`: in
/// fail-fast mode a failure ends the evaluation of checks, otherwise the next
/// check follows.
pub open spec fn phase_after(st: Status, fails_fast: bool, list: usize, check: usize) -> Phase {
    if st.status is Fail && fails_fast {
        Phase::Saving
    } else {
        Phase::Checks { list, check: (check + 1) as usize }
    }
}

/// What establishing fact `f` does when none of its requirements failed.
pub open spec fn fact_established(
    f: Fact,
    env: Map<Seq<char>, Seq<char>>,
    before: Map<Seq<char>, Seq<char>>,
    after: Map<Seq<char>, Seq<char>>,
    phase: Phase,
    list: usize,
    fact: usize,
    r: Action,
) -> bool {
    match f.value {
        FactValue::Literal { value } => r is Continue && after == before.insert(f.key@, value@)
            && phase == (Phase::Facts { list, fact: (fact + 1) as usize }),
        FactValue::Env { key } => if env.contains_key(key@) {
            r is Continue && after == before.insert(f.key@, env[key@]) && phase == (Phase::Facts {
                list,
                fact: (fact + 1) as usize,
            })
        } else {
            r is Abort && phase is Aborted && after == before
        },
        FactValue::Command { command } => (r matches Action::RunFactCommand { command: c } && c@
            == command@) && phase == (Phase::AwaitFact { list, fact }) && after == before,
    }
}

/// The statuses after recording `st` for check `name` of checklist `path`.
pub open spec fn with_status(
    m: Map<Seq<char>, Map<Seq<char>, Status>>,
    path: Seq<char>,
    name: Seq<char>,
    st: Status,
) -> Map<Seq<char>, Map<Seq<char>, Status>> {
    m.insert(
        path,
        if m.contains_key(path) {
            m[path].insert(name, st)
        } else {
            Map::empty().insert(name, st)
        },
    )
}

/// Evaluates a check with the requirements probed now; an evaluation error
/// becomes the message that aborts the run.
fn evaluate_check(c: &Check, obs: &CheckObservation, env: &EnvVars, path: &String) -> (r: Result<
    Status,
    String,
>)
    requires
        env.wf(),
    ensures
        r matches Ok(st) ==> exists|found: Seq<bool>|
            found.len() == c.requirements@.len() && check_expected(*c, *obs, found, path@) is Some
                && #[trigger] meets(st@, check_expected(*c, *obs, found, path@)->Some_0),
        r is Err ==> exists|found: Seq<bool>|
            found.len() == c.requirements@.len() && #[trigger] check_expected(
                *c,
                *obs,
                found,
                path@,
            ) is None,
{
    let found = c.probe_requirements(env);
    match c.do_check(obs, &found, path) {
        Ok(st) => {
            assert(check_expected(*c, *obs, found@, path@) is Some);
            Ok(st)
        },
        Err(e) => {
            assert(check_expected(*c, *obs, found@, path@) is None);
            let msg = match e {
                EvalError::Unreadable { path } => {
                    let mut m = String::from_str("Unable to read ");
                    m.append(path.as_str());
                    m
                },
                EvalError::Template { message } => message,
                EvalError::Unobserved => String::from_str("Check was not observed"),
            };
            Err(msg)
        },
    }
}

/// The state of one run against one project.
#[derive(Debug)]
pub struct Project {
    checklists: Vec<Checklist>,
    settings: Settings,
    env: EnvVars,
    facts: StrMap,
    cache: Cache,
    statuses: Statuses,
    phase: Phase,
    abort_message: String,
}

impl Project {
    pub closed spec fn wf(&self) -> bool {
        &&& self.env.wf()
        &&& self.facts.wf()
        &&& self.cache.wf()
        &&& self.statuses.wf()
        &&& (checking(self.phase) ==> self.cache.facts_view() == self.facts.view())
        &&& match self.phase {
            Phase::AwaitFact { list, fact } => list < self.checklists@.len() && fact
                < self.checklists@[list as int].facts@.len(),
            Phase::AwaitObservation { list, check } => list < self.checklists@.len() && check
                < self.checklists@[list as int].checks@.len(),
            _ => true,
        }
    }

    pub closed spec fn phase_spec(&self) -> Phase {
        self.phase
    }

    /// The facts established so far.
    pub closed spec fn facts_view(&self) -> Map<Seq<char>, Seq<char>> {
        self.facts.view()
    }

    /// The facts snapshot of the cache in use.
    pub closed spec fn cache_facts(&self) -> Map<Seq<char>, Seq<char>> {
        self.cache.facts_view()
    }

    pub closed spec fn cache_state(&self) -> CacheState {
        self.cache.state()
    }

    pub closed spec fn statuses_view(&self) -> Map<Seq<char>, Map<Seq<char>, Status>> {
        self.statuses.view()
    }

    pub closed spec fn checklists_view(&self) -> Seq<Checklist> {
        self.checklists@
    }

    /// The directory of the cache in use.
    pub closed spec fn cache_dir_view(&self) -> Seq<char> {
        self.cache.dir()
    }

    pub closed spec fn env_view(&self) -> Map<Seq<char>, Seq<char>> {
        self.env.view()
    }

    pub closed spec fn reads_cache(&self) -> bool {
        !self.settings.no_read_cache
    }

    pub closed spec fn writes_cache(&self) -> bool {
        !self.settings.no_write_cache
    }

    pub closed spec fn clears_cache(&self) -> bool {
        self.settings.clear_cache
    }

    pub closed spec fn fails_fast(&self) -> bool {
        self.settings.fail_fast
    }

    /// A run over `checklists` (remote, then user-wide, then project-local),
    /// with the cache loaded for the project (or a fresh one) and a snapshot
    /// of the environment. No fact is known yet.
    pub fn new(
        checklists: Vec<Checklist>,
        settings: Settings,
        env: EnvVars,
        cache: Cache,
    ) -> (r: Project)
        requires
            env.wf(),
            cache.wf(),
        ensures
            r.wf(),
            r.phase_spec() == (Phase::Facts { list: 0, fact: 0 }),
            r.facts_view() == Map::<Seq<char>, Seq<char>>::empty(),
            r.statuses_view() == Map::<Seq<char>, Map<Seq<char>, Status>>::empty(),
            r.checklists_view() == checklists@,
            r.cache_state() == cache.state(),
            r.cache_facts() == cache.facts_view(),
            r.cache_dir_view() == cache.dir(),
            r.env_view() == env.view(),
            r.reads_cache() == !settings.no_read_cache,
            r.writes_cache() == !settings.no_write_cache,
            r.clears_cache() == settings.clear_cache,
            r.fails_fast() == settings.fail_fast,
    {
        Project {
            checklists,
            settings,
            env,
            facts: StrMap::new(),
            cache,
            statuses: Statuses::new(),
            phase: Phase::Facts { list: 0, fact: 0 },
            abort_message: String::new(),
        }
    }

    pub fn phase(&self) -> (r: Phase)
        ensures
            r == self.phase_spec(),
    {
        self.phase
    }

    pub fn checklists(&self) -> (r: &Vec<Checklist>)
        ensures
            r@ == self.checklists_view(),
    {
        &self.checklists
    }

    pub fn facts(&self) -> (r: &StrMap)
        requires
            self.wf(),
        ensures
            r.wf(),
            r.view() == self.facts_view(),
    {
        &self.facts
    }

    pub fn cache(&self) -> (r: &Cache)
        requires
            self.wf(),
        ensures
            r.wf(),
            r.state() == self.cache_state(),
    {
        &self.cache
    }

    pub fn statuses(&self) -> (r: &Statuses)
        requires
            self.wf(),
        ensures
            r.wf(),
            r.view() == self.statuses_view(),
    {
        &self.statuses
    }

    fn abort(&mut self, message: String) -> (r: Action)
        requires
            old(self).wf(),
        ensures
            final(self).wf(),
            final(self).phase == Phase::Aborted,
            final(self).facts == old(self).facts,
            final(self).cache == old(self).cache,
            final(self).statuses == old(self).statuses,
            final(self).checklists == old(self).checklists,
            final(self).env == old(self).env,
            r is Abort,
    {
        self.abort_message = message.clone();
        self.phase = Phase::Aborted;
        Action::Abort { message }
    }

    /// Takes one step and names the outside work that it needs.
    ///
    /// Facts are resolved in order: a requirement that fails aborts the run,
    /// a literal is taken as it is, a variable must be set (else the run
    /// aborts) and a pipeline's output is asked for. Once all facts are known,
    /// a cache whose facts snapshot differs from them, or any cache when
    /// clearing was asked for, is wiped before any check runs. Then each check
    /// is observed and evaluated in order, and the cache is saved.
    pub fn next(&mut self) -> (r: Action)
        requires
            old(self).wf(),
        ensures
            final(self).wf(),
            final(self).checklists_view() == old(self).checklists_view(),
            old(self).phase_spec() is Reconcile && (old(self).clears_cache()
                || old(self).cache_facts() != old(self).facts_view()) ==> (r matches Action::WipeCache {
                dir,
            } && dir@ == old(self).cache_dir_view()) && final(self).phase_spec() is AwaitWipe,
            old(self).phase_spec() is Reconcile && !(old(self).clears_cache()
                || old(self).cache_facts() != old(self).facts_view()) ==> r is Continue
                && final(self).phase_spec() == (Phase::Checks { list: 0, check: 0 }),
            match old(self).phase_spec() {
                Phase::Checks { list, check } => list < old(self).checklists_view().len() && check
                    < old(self).checklists_view()[list as int].checks@.len() ==> r == (Action::ObserveCheck {
                    list,
                    check,
                }),
                _ => true,
            },
            old(self).phase_spec() is Saving ==> r is SaveCache,
            old(self).phase_spec() is Done ==> r is Finished,
            old(self).phase_spec() is Aborted ==> r is Abort,
            !(old(self).phase_spec() is Facts) ==> final(self).facts_view() == old(self).facts_view(),
            match old(self).phase_spec() {
                Phase::Facts { list, fact } => if list >= old(self).checklists_view().len() {
                    r is Continue && final(self).phase_spec() is Reconcile
                } else if fact >= old(self).checklists_view()[list as int].facts@.len() {
                    r is Continue && final(self).phase_spec() == (Phase::Facts {
                        list: (list + 1) as usize,
                        fact: 0,
                    })
                } else {
                    let f = old(self).checklists_view()[list as int].facts@[fact as int];
                    let env = old(self).env_view();
                    let established = fact_established(
                        f,
                        env,
                        old(self).facts_view(),
                        final(self).facts_view(),
                        final(self).phase_spec(),
                        list,
                        fact,
                        r,
                    );
                    &&& (exists|i: int|
                        0 <= i < f.requirements@.len() && env_requirement_unset(
                            #[trigger] f.requirements@[i],
                            env,
                        )) ==> r is Abort && final(self).phase_spec() is Aborted
                    &&& exists|found: Seq<bool>|
                        #[trigger] probes_agree(f.requirements@, found, env) && ((exists|k: int|
                            first_unmet(found, k)) ==> r is Abort && final(self).phase_spec() is Aborted
                            && final(self).facts_view() == old(self).facts_view()) && (!(exists|k: int|
                            first_unmet(found, k)) ==> established)
                },
                Phase::Checks { list, check } => if list >= old(self).checklists_view().len() {
                    r is Continue && final(self).phase_spec() is Saving
                } else if check >= old(self).checklists_view()[list as int].checks@.len() {
                    r is Continue && final(self).phase_spec() == (Phase::Checks {
                        list: (list + 1) as usize,
                        check: 0,
                    })
                } else {
                    final(self).phase_spec() == (Phase::AwaitObservation { list, check })
                },
                Phase::Saving => final(self).phase_spec() is AwaitSave,
                Phase::AwaitFact { .. } => r is Continue && final(self).phase_spec() == old(
                    self,
                ).phase_spec(),
                Phase::AwaitWipe => r is Continue && final(self).phase_spec() == old(self).phase_spec(),
                Phase::AwaitObservation { .. } => r is Continue && final(self).phase_spec() == old(
                    self,
                ).phase_spec(),
                Phase::AwaitSave => r is Continue && final(self).phase_spec() == old(self).phase_spec(),
                _ => true,
            },
            final(self).statuses_view() == old(self).statuses_view(),
    {
        match self.phase {
            Phase::Facts { list, fact } => {
                if list >= self.checklists.len() {
                    self.phase = Phase::Reconcile;
                    return Action::Continue;
                }
                if fact >= self.checklists[list].facts.len() {
                    self.phase = Phase::Facts { list: list + 1, fact: 0 };
                    return Action::Continue;
                }
                let path = self.checklists[list].path.clone();
                let fct = &self.checklists[list].facts[fact];
                let found = probe_all(&fct.requirements, &self.env);
                let mut i: usize = 0;
                while i < found.len()
                    invariant
                        self.wf(),
                        *self == *old(self),
                        self.phase == (Phase::Facts { list, fact }),
                        list < self.checklists@.len(),
                        fact < self.checklists@[list as int].facts@.len(),
                        *fct == self.checklists@[list as int].facts@[fact as int],
                        probes_agree(fct.requirements@, found@, self.env.view()),
                        0 <= i <= found@.len(),
                        forall|j: int| 0 <= j < i ==> #[trigger] found@[j],
                    decreases found@.len() - i,
                {
                    if !found[i] {
                        proof {
                            assert(first_unmet(found@, i as int));
                            if exists|k: int| 0 <= k < fct.requirements@.len() && env_requirement_unset(
                                #[trigger] fct.requirements@[k],
                                self.env.view(),
                            ) {
                            }
                        }
                        let st = fct.requirements[i].status_for(false, &path);
                        let msg = st.to_text();
                        let a = self.abort(msg);
                        assert(probes_agree(
                            old(self).checklists_view()[list as int].facts@[fact as int].requirements@,
                            found@,
                            old(self).env_view(),
                        ));
                        assert(exists|k: int| first_unmet(found@, k));
                        return a;
                    }
                    i = i + 1;
                }
                assert(!exists|k: int| first_unmet(found@, k));
                assert forall|j: int|
                    0 <= j < fct.requirements@.len() implies !env_requirement_unset(
                        #[trigger] fct.requirements@[j],
                        self.env.view(),
                    ) by {
                    assert(found@[j]);
                }
                assert(probes_agree(
                    old(self).checklists_view()[list as int].facts@[fact as int].requirements@,
                    found@,
                    old(self).env_view(),
                ));
                match fct.value(&self.env) {
                    FactResolution::Value(v) => {
                        let k = fct.key();
                        self.facts.set(k, v);
                        self.phase = Phase::Facts { list, fact: fact + 1 };
                        Action::Continue
                    },
                    FactResolution::Unset(msg) => self.abort(msg),
                    FactResolution::RunCommand(command) => {
                        self.phase = Phase::AwaitFact { list, fact };
                        Action::RunFactCommand { command }
                    },
                }
            },
            Phase::Reconcile => {
                if self.settings.clear_cache || !self.cache.facts().same_as(&self.facts) {
                    self.phase = Phase::AwaitWipe;
                    Action::WipeCache { dir: self.cache.cache_dir().clone() }
                } else {
                    self.phase = Phase::Checks { list: 0, check: 0 };
                    Action::Continue
                }
            },
            Phase::Checks { list, check } => {
                if list >= self.checklists.len() {
                    self.phase = Phase::Saving;
                    return Action::Continue;
                }
                if check >= self.checklists[list].checks.len() {
                    self.phase = Phase::Checks { list: list + 1, check: 0 };
                    return Action::Continue;
                }
                self.phase = Phase::AwaitObservation { list, check };
                Action::ObserveCheck { list, check }
            },
            Phase::Saving => {
                self.phase = Phase::AwaitSave;
                Action::SaveCache
            },
            Phase::Done => Action::Finished,
            Phase::Aborted => Action::Abort { message: self.abort_message.clone() },
            _ => Action::Continue,
        }
    }
    /// Hands back the output of a fact's pipeline: its trimmed standard
    /// output (`None` when empty), or why it could not run. An empty output or
    /// a failure aborts the run; otherwise the fact is established.
    pub fn fact_output(&mut self, output: Result<Option<String>, String>)
        requires
            old(self).wf(),
        ensures
            final(self).wf(),
            final(self).checklists_view() == old(self).checklists_view(),
            final(self).statuses_view() == old(self).statuses_view(),
            match old(self).phase_spec() {
                Phase::AwaitFact { list, fact } => match output {
                    Ok(Some(v)) => final(self).facts_view() == old(self).facts_view().insert(
                        old(self).checklists_view()[list as int].facts@[fact as int].key@,
                        v@,
                    ) && final(self).phase_spec() == (Phase::Facts { list, fact: (fact + 1) as usize }),
                    _ => final(self).phase_spec() is Aborted,
                },
                _ => final(self).phase_spec() == old(self).phase_spec() && final(self).facts_view()
                    == old(self).facts_view(),
            },
    {
        match self.phase {
            Phase::AwaitFact { list, fact } => match output {
                Ok(Some(v)) => {
                    let count = self.checklists[list].facts.len();
                    assert(fact < count);
                    let k = self.checklists[list].facts[fact].key.clone();
                    self.facts.set(k, v);
                    self.phase = Phase::Facts { list, fact: fact + 1 };
                },
                Ok(None) => {
                    self.abort(String::from_str("Command produced empty output"));
                },
                Err(e) => {
                    self.abort(e);
                },
            },
            _ => {},
        }
    }

    /// The cache directory was wiped: the run goes on with an empty cache
    /// written under the current facts.
    pub fn cache_wiped(&mut self)
        requires
            old(self).wf(),
        ensures
            final(self).wf(),
            final(self).checklists_view() == old(self).checklists_view(),
            final(self).statuses_view() == old(self).statuses_view(),
            final(self).facts_view() == old(self).facts_view(),
            final(self).cache_dir_view() == old(self).cache_dir_view(),
            old(self).phase_spec() is AwaitWipe ==> final(self).phase_spec() == (Phase::Checks {
                list: 0,
                check: 0,
            }) && final(self).cache_facts() == old(self).facts_view() && final(self).cache_state().paths
                == Map::<Seq<char>, Seq<char>>::empty() && final(self).cache_state().checks
                == Map::<Seq<char>, Status>::empty(),
            !(old(self).phase_spec() is AwaitWipe) ==> final(self).phase_spec() == old(
                self,
            ).phase_spec(),
    {
        match self.phase {
            Phase::AwaitWipe => {
                let facts = self.facts.duplicate();
                self.cache = self.cache.emptied(facts);
                self.phase = Phase::Checks { list: 0, check: 0 };
            },
            _ => {},
        }
    }

    /// The cache files were written: the run is complete.
    pub fn saved(&mut self)
        requires
            old(self).wf(),
        ensures
            final(self).wf(),
            final(self).statuses_view() == old(self).statuses_view(),
            old(self).phase_spec() is AwaitSave ==> final(self).phase_spec() is Done,
            !(old(self).phase_spec() is AwaitSave) ==> final(self).phase_spec() == old(
                self,
            ).phase_spec(),
    {
        match self.phase {
            Phase::AwaitSave => {
                self.phase = Phase::Done;
            },
            _ => {},
        }
    }

    /// Whether check `check` of checklist `list` would be served from the
    /// cache, given the current content hash of its file: then its observation
    /// is not read.
    pub fn served_from_cache(&self, list: usize, check: usize, file_hash: &Option<String>) -> (r: bool)
        requires
            self.wf(),
            list < self.checklists_view().len(),
            check < self.checklists_view()[list as int].checks@.len(),
        ensures
            r == (self.reads_cache() && cache_lookup(
                self.cache_state(),
                self.checklists_view()[list as int].checks@[check as int],
                opt_view(*file_hash),
            ) is Some),
    {
        !self.settings.no_read_cache && self.cache.get(&self.checklists[list].checks[check], file_hash).is_some()
    }

    /// Hands back what was observed for the check that was asked for, and the
    /// current content hash of its file. A cache hit (when reading the cache
    /// is on) is recorded as it is, without evaluating anything; otherwise the
    /// check is evaluated, the result written to the cache (when writing is
    /// on) and recorded. An evaluation error aborts the run; a failure in
    /// fail-fast mode ends the evaluation of checks.
    pub fn check_observed(&mut self, obs: CheckObservation, file_hash: Option<String>)
        requires
            old(self).wf(),
        ensures
            final(self).wf(),
            final(self).checklists_view() == old(self).checklists_view(),
            final(self).facts_view() == old(self).facts_view(),
            match old(self).phase_spec() {
                Phase::AwaitObservation { list, check } => {
                    let c = old(self).checklists_view()[list as int].checks@[check as int];
                    let path = old(self).checklists_view()[list as int].path@;
                    let hit = cache_lookup(old(self).cache_state(), c, opt_view(file_hash));
                    let reqs = c.requirements@.len();
                    if old(self).reads_cache() && hit is Some {
                        final(self).statuses_view() == with_status(
                            old(self).statuses_view(),
                            path,
                            check_name(c),
                            hit->Some_0,
                        ) && final(self).cache_state() == old(self).cache_state()
                            && final(self).phase_spec() == phase_after(
                            hit->Some_0,
                            old(self).fails_fast(),
                            list,
                            check,
                        )
                    } else {
                        &&& (forall|found: Seq<bool>|
                            found.len() == reqs ==> #[trigger] check_expected(c, obs, found, path) is Some)
                            ==> !(final(self).phase_spec() is Aborted)
                        &&& final(self).phase_spec() is Aborted ==> (exists|found: Seq<bool>|
                            found.len() == reqs && #[trigger] check_expected(c, obs, found, path) is None)
                            && final(self).statuses_view() == old(self).statuses_view()
                        &&& final(self).phase_spec() is Aborted || exists|st: Status, found: Seq<bool>|
                            found.len() == reqs && check_expected(c, obs, found, path) is Some
                                && #[trigger] meets(st@, check_expected(c, obs, found, path)->Some_0)
                                && final(self).statuses_view() == with_status(
                                old(self).statuses_view(),
                                path,
                                check_name(c),
                                st,
                            ) && final(self).cache_state() == (if old(self).writes_cache() {
                                cache_insert(old(self).cache_state(), c, st, opt_view(file_hash))
                            } else {
                                old(self).cache_state()
                            }) && final(self).phase_spec() == phase_after(
                                st,
                                old(self).fails_fast(),
                                list,
                                check,
                            )
                    }
                },
                _ => final(self).phase_spec() == old(self).phase_spec() && final(self).statuses_view()
                    == old(self).statuses_view(),
            },
    {
        let (list, check) = match self.phase {
            Phase::AwaitObservation { list, check } => (list, check),
            _ => {
                return ;
            },
        };
        let c = &self.checklists[list].checks[check];
        let path = self.checklists[list].path.clone();
        let name = c.description();
        if !self.settings.no_read_cache {
            match self.cache.get(c, &file_hash) {
                Some(st) => {
                    let failed = st.is_failure();
                    self.statuses.insert(path, name, st);
                    let count = self.checklists[list].checks.len();
                    assert(check < count);
                    if failed && self.settings.fail_fast {
                        self.phase = Phase::Saving;
                    } else {
                        self.phase = Phase::Checks { list, check: check + 1 };
                    }
                    return ;
                },
                None => {},
            }
        }
        let st = match evaluate_check(c, &obs, &self.env, &path) {
            Ok(st) => st,
            Err(msg) => {
                self.abort(msg);
                return ;
            },
        };
        let ghost stv = st;
        if !self.settings.no_write_cache {
            self.cache.insert(c, st.duplicate(), &file_hash);
        }
        let failed = st.is_failure();
        self.statuses.insert(path, name, st);
        let count = self.checklists[list].checks.len();
        assert(check < count);
        if failed && self.settings.fail_fast {
            self.phase = Phase::Saving;
        } else {
            self.phase = Phase::Checks { list, check: check + 1 };
        }
    }
}

/// Checks only ever run against a cache written under the facts of the
/// current run: a cache whose facts snapshot differs is wiped before the
/// first check (see `next` and `cache_wiped`).
pub proof fn lemma_checks_use_current_facts(p: Project)
    requires
        p.wf(),
        checking(p.phase_spec()),
    ensures
        p.cache_facts() == p.facts_view(),
{
}

} // verus!
