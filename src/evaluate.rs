//! Evaluation of checks against what was observed of the project.
//!
//! Reading files, listing directories and rendering templates happen outside;
//! what they found is handed in as an observation, and everything decided
//! from it is here.

use vstd::prelude::*;
use crate::env::{executable_found, EnvVars};
use crate::model::{Check, CheckType, Condition, DirectoryCheck, FileCheck, Requirement};
use crate::status::{
    expect_fail, expect_not_implemented, expect_pass, meets, Detail, Expected, Kind, Outcome, Status,
    StatusStatus,
};
use crate::text::{
    contains_fragment, contains_text, join_lines, join_path, join_path_spec, str_compare,
    texts_agree,
};

verus! {

/// What was found of a file.
#[derive(Debug)]
pub struct FileObservation {
    pub is_file: bool,
    /// The file's text; `None` when it could not be read.
    pub contents: Option<String>,
    /// The check's template rendered with the facts, or why rendering failed;
    /// `None` when it was not rendered.
    pub rendered_template: Option<Result<String, String>>,
}

/// What was found of a directory.
#[derive(Debug)]
pub struct DirObservation {
    pub is_dir: bool,
    /// The names of its immediate children; `None` when it could not be listed.
    pub entries: Option<Vec<String>>,
}

#[derive(Debug)]
pub enum Observation {
    File(FileObservation),
    Directory(DirObservation),
    Nothing,
}

/// What was found for one check: for its own variant and for each condition.
#[derive(Debug)]
pub struct CheckObservation {
    pub main: Observation,
    pub conditions: Vec<Observation>,
}

/// An evaluation that cannot produce a status and aborts the run.
#[derive(Debug, PartialEq, Eq)]
pub enum EvalError {
    /// The file exists but could not be read.
    Unreadable { path: String },
    /// The template could not be rendered.
    Template { message: String },
    /// No observation of the right kind was handed in.
    Unobserved,
}

/// The evaluation gives an error exactly when no outcome is expected, and
/// otherwise a status with the expected outcome.
pub open spec fn result_meets(r: Result<Status, EvalError>, e: Option<Expected>) -> bool {
    match r {
        Ok(s) => match e {
            Some(x) => meets(s@, x),
            None => false,
        },
        Err(_) => e is None,
    }
}

/// Fragment `k` is the first of `frags` missing from `text`.
pub open spec fn missing_at(frags: Seq<String>, text: Seq<char>, k: int) -> bool {
    &&& 0 <= k < frags.len()
    &&& !contains_text(text, frags[k]@)
    &&& forall|j: int| 0 <= j < k ==> contains_text(text, #[trigger] frags[j]@)
}

pub open spec fn file_expected(fc: FileCheck, obs: FileObservation) -> Option<Expected> {
    if !obs.is_file {
        Some(expect_fail("Path is not a valid file"@, Detail::Exact(Some(fc.path@))))
    } else {
        match obs.contents {
            None => None,
            Some(actual) => {
                let contents_differ = match fc.contents {
                    Some(e) => !texts_agree(e@, actual@),
                    None => false,
                };
                if contents_differ {
                    Some(expect_fail("Contents differ"@, Detail::AnyText))
                } else if exists|k: int| missing_at(fc.contains@, actual@, k) {
                    let k = choose|k: int| missing_at(fc.contains@, actual@, k);
                    Some(
                        expect_fail(
                            "Expected fragment not found in file"@,
                            Detail::Exact(Some(fc.path@ + "\n"@ + fc.contains@[k]@)),
                        ),
                    )
                } else {
                    match fc.template {
                        None => Some(expect_pass()),
                        Some(_) => match obs.rendered_template {
                            Some(Ok(expected)) => if texts_agree(expected@, actual@) {
                                Some(expect_pass())
                            } else {
                                Some(
                                    expect_fail(
                                        "Populated template does not match file"@,
                                        Detail::AnyText,
                                    ),
                                )
                            },
                            _ => None,
                        },
                    }
                }
            },
        }
    }
}

pub open spec fn has_name(names: Seq<String>, n: Seq<char>) -> bool {
    exists|j: int| 0 <= j < names.len() && names[j]@ == n
}

/// The two lists name the same set of entries.
pub open spec fn same_names(a: Seq<String>, b: Seq<String>) -> bool {
    &&& forall|i: int| 0 <= i < a.len() ==> has_name(b, #[trigger] a[i]@)
    &&& forall|i: int| 0 <= i < b.len() ==> has_name(a, #[trigger] b[i]@)
}

/// Name `k` is the first of `names` absent from `entries`.
pub open spec fn absent_at(names: Seq<String>, entries: Seq<String>, k: int) -> bool {
    &&& 0 <= k < names.len()
    &&& !has_name(entries, names[k]@)
    &&& forall|j: int| 0 <= j < k ==> has_name(entries, #[trigger] names[j]@)
}

pub open spec fn dir_expected(dc: DirectoryCheck, obs: DirObservation) -> Option<Expected> {
    if !obs.is_dir {
        Some(expect_fail("Path is not a valid directory"@, Detail::Exact(Some(dc.path@))))
    } else {
        match obs.entries {
            None => None,
            Some(entries) => if dc.contents@.len() > 0 && !same_names(dc.contents@, entries@) {
                Some(expect_fail("Contents differ"@, Detail::AnyText))
            } else if exists|k: int| absent_at(dc.contains@, entries@, k) {
                let k = choose|k: int| absent_at(dc.contains@, entries@, k);
                Some(
                    expect_fail(
                        "Expected entry not found in directory"@,
                        Detail::Exact(
                            Some(
                                "dir: "@ + dc.path@ + ", path: "@ + join_path_spec(
                                    dc.path@,
                                    dc.contains@[k]@,
                                ),
                            ),
                        ),
                    ),
                )
            } else {
                Some(expect_pass())
            },
        }
    }
}

/// The outcome of a variant that has no evaluation yet.
pub open spec fn not_implemented(what: Seq<char>) -> Expected {
    expect_not_implemented("Not implemented"@, Detail::Exact(Some(what)))
}

pub open spec fn type_expected(ct: CheckType, obs: Observation) -> Option<Expected> {
    match ct {
        CheckType::File(f) => match obs {
            Observation::File(o) => file_expected(f, o),
            _ => None,
        },
        CheckType::Directory(d) => match obs {
            Observation::Directory(o) => dir_expected(d, o),
            _ => None,
        },
        CheckType::Command(_) => Some(not_implemented("command check"@)),
        CheckType::Http(_) => Some(not_implemented("http check"@)),
        CheckType::VarSet(_) => Some(not_implemented("varset check"@)),
    }
}

/// A skip with the same reason; a pass stays a pass.
pub open spec fn as_skip(e: Expected) -> Expected {
    match e.kind {
        Kind::Pass => e,
        _ => Expected { kind: Kind::Skip, main: e.main, detail: e.detail },
    }
}

pub enum Gate {
    Open,
    Blocked(Expected),
    Broken,
}

/// The conditions from index `i` on, in order: the first that does not pass
/// blocks the check with a skip carrying its reason.
pub open spec fn condition_gate(conds: Seq<Condition>, obs: Seq<Observation>, i: nat) -> Gate
    decreases conds.len() - i,
{
    if i >= conds.len() || i >= obs.len() {
        Gate::Open
    } else {
        match type_expected(conds[i as int].condition, obs[i as int]) {
            None => Gate::Broken,
            Some(e) => if e.kind is Pass {
                condition_gate(conds, obs, i + 1)
            } else {
                Gate::Blocked(as_skip(e))
            },
        }
    }
}

pub open spec fn requirement_expected(r: Requirement, found: bool, path: Seq<char>) -> Expected {
    if found {
        expect_pass()
    } else {
        let detail = Detail::Exact(Some("Required for a check in "@ + path));
        match r {
            Requirement::Command { command } => expect_fail(
                "Command not found '"@ + command@ + "'"@,
                detail,
            ),
            Requirement::Env { key } => expect_fail("Env var '"@ + key@ + "' not set"@, detail),
        }
    }
}

/// Requirement `k` is the first that does not hold.
pub open spec fn first_unmet(found: Seq<bool>, k: int) -> bool {
    &&& 0 <= k < found.len()
    &&& !found[k]
    &&& forall|j: int| 0 <= j < k ==> #[trigger] found[j]
}

/// Conditions first, then requirements, then the variant's own logic.
pub open spec fn check_expected(
    c: Check,
    obs: CheckObservation,
    found: Seq<bool>,
    path: Seq<char>,
) -> Option<Expected> {
    if obs.conditions@.len() != c.conditions@.len() || found.len() != c.requirements@.len() {
        None
    } else {
        match condition_gate(c.conditions@, obs.conditions@, 0) {
            Gate::Broken => None,
            Gate::Blocked(e) => Some(e),
            Gate::Open => if exists|k: int| first_unmet(found, k) {
                let k = choose|k: int| first_unmet(found, k);
                Some(requirement_expected(c.requirements@[k], false, path))
            } else {
                type_expected(c.check, obs.main)
            },
        }
    }
}

fn literal(s: &str) -> (r: String)
    ensures
        r@ == s@,
{
    s.to_string()
}

impl FileCheck {
    /// The path must be a regular file; then, in order and stopping at the
    /// first failure: exact contents (trimmed), required fragments, and the
    /// rendered template (trimmed).
    pub fn do_check(&self, obs: &FileObservation) -> (r: Result<Status, EvalError>)
        ensures
            result_meets(r, file_expected(*self, *obs)),
    {
        if !obs.is_file {
            return Ok(Status::fail(literal("Path is not a valid file"), Some(self.path.clone())));
        }
        let actual = match &obs.contents {
            Some(a) => a,
            None => {
                return Err(EvalError::Unreadable { path: self.path.clone() });
            },
        };
        match &self.contents {
            Some(expected) => match str_compare(expected.as_str(), actual.as_str()) {
                Some(diff) => {
                    return Ok(Status::fail(literal("Contents differ"), Some(diff)));
                },
                None => {},
            },
            None => {},
        }
        let mut i: usize = 0;
        while i < self.contains.len()
            invariant
                0 <= i <= self.contains@.len(),
                obs.is_file,
                obs.contents == Some(*actual),
                match self.contents {
                    Some(e) => texts_agree(e@, actual@),
                    None => true,
                },
                forall|j: int| 0 <= j < i ==> contains_text(actual@, #[trigger] self.contains@[j]@),
            decreases self.contains@.len() - i,
        {
            if !contains_fragment(actual.as_str(), self.contains[i].as_str()) {
                let mut detail = self.path.clone();
                detail.append("\n");
                detail.append(self.contains[i].as_str());
                proof {
                    assert(missing_at(self.contains@, actual@, i as int));
                    assert forall|k: int| missing_at(self.contains@, actual@, k) implies k == i by {
                        if k < i {
                            assert(contains_text(actual@, self.contains@[k]@));
                        } else if k > i {
                            assert(contains_text(actual@, self.contains@[i as int]@));
                        }
                    }
                }
                return Ok(Status::fail(literal("Expected fragment not found in file"), Some(detail)));
            }
            i = i + 1;
        }
        assert(!exists|k: int| missing_at(self.contains@, actual@, k));
        match &self.template {
            None => Ok(Status::pass()),
            Some(_) => match &obs.rendered_template {
                Some(Ok(expected)) => match str_compare(expected.as_str(), actual.as_str()) {
                    Some(diff) => Ok(
                        Status::fail(literal("Populated template does not match file"), Some(diff)),
                    ),
                    None => Ok(Status::pass()),
                },
                Some(Err(m)) => Err(EvalError::Template { message: m.clone() }),
                None => Err(EvalError::Unobserved),
            },
        }
    }
}

/// Whether `n` is one of `names`.
fn names_contain(names: &Vec<String>, n: &String) -> (r: bool)
    ensures
        r == has_name(names@, n@),
{
    let mut i: usize = 0;
    while i < names.len()
        invariant
            0 <= i <= names@.len(),
            forall|j: int| 0 <= j < i ==> names@[j]@ != n@,
        decreases names@.len() - i,
    {
        if names[i] == *n {
            return true;
        }
        i = i + 1;
    }
    false
}

/// Whether every one of `a` is among `b`.
fn all_named_in(a: &Vec<String>, b: &Vec<String>) -> (r: bool)
    ensures
        r == forall|i: int| 0 <= i < a@.len() ==> has_name(b@, #[trigger] a@[i]@),
{
    let mut i: usize = 0;
    while i < a.len()
        invariant
            0 <= i <= a@.len(),
            forall|j: int| 0 <= j < i ==> has_name(b@, #[trigger] a@[j]@),
        decreases a@.len() - i,
    {
        if !names_contain(b, &a[i]) {
            return false;
        }
        i = i + 1;
    }
    true
}

impl DirectoryCheck {
    /// The path must be a directory; then, in order and stopping at the first
    /// failure: the exact set of children (when a listing is given), and each
    /// required entry.
    pub fn do_check(&self, obs: &DirObservation) -> (r: Result<Status, EvalError>)
        ensures
            result_meets(r, dir_expected(*self, *obs)),
    {
        if !obs.is_dir {
            return Ok(
                Status::fail(literal("Path is not a valid directory"), Some(self.path.clone())),
            );
        }
        let entries = match &obs.entries {
            Some(e) => e,
            None => {
                return Err(EvalError::Unreadable { path: self.path.clone() });
            },
        };
        if self.contents.len() > 0 {
            let same = all_named_in(&self.contents, entries) && all_named_in(entries, &self.contents);
            if !same {
                let expected = join_lines(&self.contents);
                let actual = join_lines(entries);
                let detail = match str_compare(expected.as_str(), actual.as_str()) {
                    Some(diff) => diff,
                    None => actual,
                };
                return Ok(Status::fail(literal("Contents differ"), Some(detail)));
            }
        }
        let mut i: usize = 0;
        while i < self.contains.len()
            invariant
                0 <= i <= self.contains@.len(),
                obs.is_dir,
                obs.entries == Some(*entries),
                self.contents@.len() > 0 ==> same_names(self.contents@, entries@),
                forall|j: int| 0 <= j < i ==> has_name(entries@, #[trigger] self.contains@[j]@),
            decreases self.contains@.len() - i,
        {
            if !names_contain(entries, &self.contains[i]) {
                let mut detail = literal("dir: ");
                detail.append(self.path.as_str());
                detail.append(", path: ");
                let full = join_path(self.path.as_str(), self.contains[i].as_str());
                detail.append(full.as_str());
                proof {
                    assert(absent_at(self.contains@, entries@, i as int));
                    assert forall|k: int| absent_at(self.contains@, entries@, k) implies k == i by {
                        if k < i {
                            assert(has_name(entries@, self.contains@[k]@));
                        } else if k > i {
                            assert(has_name(entries@, self.contains@[i as int]@));
                        }
                    }
                }
                return Ok(
                    Status::fail(literal("Expected entry not found in directory"), Some(detail)),
                );
            }
            i = i + 1;
        }
        assert(!exists|k: int| absent_at(self.contains@, entries@, k));
        Ok(Status::pass())
    }
}

impl CheckType {
    /// Dispatches to the variant's evaluation; the variants without one yet
    /// give a distinct "not implemented" outcome.
    pub fn do_check(&self, obs: &Observation) -> (r: Result<Status, EvalError>)
        ensures
            result_meets(r, type_expected(*self, *obs)),
    {
        match self {
            CheckType::File(f) => match obs {
                Observation::File(o) => f.do_check(o),
                _ => Err(EvalError::Unobserved),
            },
            CheckType::Directory(d) => match obs {
                Observation::Directory(o) => d.do_check(o),
                _ => Err(EvalError::Unobserved),
            },
            CheckType::Command(_) => Ok(
                Status::not_implemented(literal("Not implemented"), Some(literal("command check"))),
            ),
            CheckType::Http(_) => Ok(
                Status::not_implemented(literal("Not implemented"), Some(literal("http check"))),
            ),
            CheckType::VarSet(_) => Ok(
                Status::not_implemented(literal("Not implemented"), Some(literal("varset check"))),
            ),
        }
    }
}

impl Condition {
    pub fn do_check(&self, obs: &Observation) -> (r: Result<Status, EvalError>)
        ensures
            result_meets(r, type_expected(self.condition, *obs)),
    {
        self.condition.do_check(obs)
    }
}

/// The same status as a skip: a failure or a "not implemented" outcome
/// becomes a skip with its reason.
fn into_skip(s: Status) -> (r: Status)
    ensures
        !(s.status is Pass) ==> r@.cached == s@.cached && match s@.outcome {
            Outcome::Fail { main, secondary } => r@.outcome == (Outcome::Skip { main, secondary }),
            Outcome::NotImplemented { main, secondary } => r@.outcome == (Outcome::Skip {
                main,
                secondary,
            }),
            _ => r@.outcome == s@.outcome,
        },
{
    match s.status {
        StatusStatus::Fail { reason } => Status::new(s.cached, StatusStatus::Skip { reason }),
        StatusStatus::NotImplemented { reason } => Status::new(
            s.cached,
            StatusStatus::Skip { reason },
        ),
        other => Status::new(s.cached, other),
    }
}

impl Requirement {
    /// The status of the requirement given whether it holds.
    pub fn status_for(&self, found: bool, checklist_path: &String) -> (r: Status)
        ensures
            meets(r@, requirement_expected(*self, found, checklist_path@)),
    {
        if found {
            return Status::pass();
        }
        let mut detail = literal("Required for a check in ");
        detail.append(checklist_path.as_str());
        let main = match self {
            Requirement::Command { command } => {
                let mut m = literal("Command not found '");
                m.append(command.as_str());
                m.append("'");
                m
            },
            Requirement::Env { key } => {
                let mut m = literal("Env var '");
                m.append(key.as_str());
                m.append("' not set");
                m
            },
        };
        Status::fail(main, Some(detail))
    }

    /// Whether the requirement holds: the executable resolves on the search
    /// path, or the variable is set in `env`.
    pub fn holds(&self, env: &EnvVars) -> (r: bool)
        requires
            env.wf(),
        ensures
            self matches Requirement::Env { key } ==> r == env.view().contains_key(key@),
    {
        match self {
            Requirement::Command { command } => executable_found(command.as_str()),
            Requirement::Env { key } => env.contains(key),
        }
    }

    /// Evaluates the requirement: a pass, or a failure naming what is missing.
    pub fn do_check(&self, env: &EnvVars, checklist_path: &String) -> (r: Status)
        requires
            env.wf(),
        ensures
            meets(r@, requirement_expected(*self, true, checklist_path@)) || meets(
                r@,
                requirement_expected(*self, false, checklist_path@),
            ),
            self matches Requirement::Env { key } ==> meets(
                r@,
                requirement_expected(*self, env.view().contains_key(key@), checklist_path@),
            ),
    {
        let found = self.holds(env);
        self.status_for(found, checklist_path)
    }
}

/// `found` has one entry per requirement, and the entry of an environment
/// requirement says whether its variable is set in `env`.
pub open spec fn probes_agree(
    reqs: Seq<Requirement>,
    found: Seq<bool>,
    env: Map<Seq<char>, Seq<char>>,
) -> bool {
    &&& found.len() == reqs.len()
    &&& forall|i: int|
        0 <= i < found.len() ==> match #[trigger] reqs[i] {
            Requirement::Env { key } => found[i] == env.contains_key(key@),
            _ => true,
        }
}

/// For each requirement, whether it holds now.
pub fn probe_all(reqs: &Vec<Requirement>, env: &EnvVars) -> (r: Vec<bool>)
    requires
        env.wf(),
    ensures
        probes_agree(reqs@, r@, env.view()),
{
    let mut r: Vec<bool> = Vec::new();
    let mut i: usize = 0;
    while i < reqs.len()
        invariant
            env.wf(),
            0 <= i <= reqs@.len(),
            r@.len() == i,
            forall|j: int|
                0 <= j < i ==> match #[trigger] reqs@[j] {
                    Requirement::Env { key } => r@[j] == env.view().contains_key(key@),
                    _ => true,
                },
        decreases reqs@.len() - i,
    {
        let h = reqs[i].holds(env);
        r.push(h);
        i = i + 1;
    }
    r
}

impl Check {
    /// For each requirement, whether it holds now.
    pub fn probe_requirements(&self, env: &EnvVars) -> (r: Vec<bool>)
        requires
            env.wf(),
        ensures
            probes_agree(self.requirements@, r@, env.view()),
    {
        probe_all(&self.requirements, env)
    }

    /// Evaluates the check: each condition in order (the first that does not
    /// pass skips the check with its reason), then each requirement in order
    /// (`found` says which hold; the first that does not fails the check),
    /// then the variant's own logic.
    pub fn do_check(&self, obs: &CheckObservation, found: &Vec<bool>, checklist_path: &String) -> (r:
        Result<Status, EvalError>)
        ensures
            result_meets(r, check_expected(*self, *obs, found@, checklist_path@)),
    {
        if obs.conditions.len() != self.conditions.len() || found.len() != self.requirements.len() {
            return Err(EvalError::Unobserved);
        }
        let mut i: usize = 0;
        while i < self.conditions.len()
            invariant
                0 <= i <= self.conditions@.len(),
                obs.conditions@.len() == self.conditions@.len(),
                found@.len() == self.requirements@.len(),
                condition_gate(self.conditions@, obs.conditions@, 0) == condition_gate(
                    self.conditions@,
                    obs.conditions@,
                    i as nat,
                ),
            decreases self.conditions@.len() - i,
        {
            let st = match self.conditions[i].do_check(&obs.conditions[i]) {
                Ok(s) => s,
                Err(e) => {
                    return Err(e);
                },
            };
            if !st.is_success() {
                let ghost e = type_expected(self.conditions@[i as int].condition, obs.conditions@[i as int]);
                let r = into_skip(st);
                assert(meets(r@, as_skip(e->0)));
                return Ok(r);
            }
            i = i + 1;
        }
        assert(condition_gate(self.conditions@, obs.conditions@, i as nat) == Gate::Open);
        let mut k: usize = 0;
        while k < found.len()
            invariant
                0 <= k <= found@.len(),
                obs.conditions@.len() == self.conditions@.len(),
                found@.len() == self.requirements@.len(),
                condition_gate(self.conditions@, obs.conditions@, 0) == Gate::Open,
                forall|j: int| 0 <= j < k ==> #[trigger] found@[j],
            decreases found@.len() - k,
        {
            if !found[k] {
                proof {
                    assert(first_unmet(found@, k as int));
                    assert forall|m: int| first_unmet(found@, m) implies m == k by {
                        if m < k {
                            assert(found@[m]);
                        } else if m > k {
                            assert(found@[k as int]);
                        }
                    }
                }
                return Ok(self.requirements[k].status_for(false, checklist_path));
            }
            k = k + 1;
        }
        assert(!exists|m: int| first_unmet(found@, m));
        self.check.do_check(&obs.main)
    }
}

} // verus!
