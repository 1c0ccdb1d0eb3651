//! Outcomes of evaluating checks, and their aggregate per checklist.

use vstd::prelude::*;
use crate::keyed::{entries_map, find_key, keys_unique, lemma_entries_map, lemma_entries_map_push, lemma_entries_map_update, set_key};

verus! {

/// Why a check was skipped or failed: a primary message and an optional detail
/// (for example a diff).
#[derive(Debug, PartialEq, Eq)]
pub struct Reason {
    pub main: String,
    pub secondary: Option<String>,
}

/// Copies an optional string, keeping its value.
pub fn copy_opt_string(s: &Option<String>) -> (r: Option<String>)
    ensures
        r == *s,
{
    match s {
        Some(x) => Some(x.clone()),
        None => None,
    }
}

impl Reason {
    pub fn new(main: String, secondary: Option<String>) -> (r: Reason)
        ensures
            r.main == main,
            r.secondary == secondary,
    {
        Reason { main, secondary }
    }

    pub fn main(&self) -> (r: &String)
        ensures
            *r == self.main,
    {
        &self.main
    }

    pub fn secondary(&self) -> (r: Option<&String>)
        ensures
            r == match self.secondary {
                Some(s) => Some(&s),
                None => None::<&String>,
            },
    {
        self.secondary.as_ref()
    }

    /// A copy equal to `self`.
    pub fn duplicate(&self) -> (r: Reason)
        ensures
            r == *self,
    {
        Reason { main: self.main.clone(), secondary: copy_opt_string(&self.secondary) }
    }

    /// The reason as one line: the main message, then `": "` and the detail if any.
    pub fn to_text(&self) -> (r: String)
        ensures
            r@ == reason_text(*self),
    {
        let mut s = self.main.clone();
        match &self.secondary {
            Some(sec) => {
                s.append(": ");
                s.append(sec.as_str());
            },
            None => {},
        }
        s
    }
}

pub open spec fn reason_text(r: Reason) -> Seq<char> {
    match r.secondary {
        Some(sec) => r.main@ + ": "@ + sec@,
        None => r.main@,
    }
}

/// What an outcome says, as mathematical values.
pub enum Outcome {
    Pass,
    Skip { main: Seq<char>, secondary: Option<Seq<char>> },
    Fail { main: Seq<char>, secondary: Option<Seq<char>> },
    NotImplemented { main: Seq<char>, secondary: Option<Seq<char>> },
}

/// A status as mathematical values.
pub struct StatusView {
    pub outcome: Outcome,
    pub cached: bool,
}

pub open spec fn opt_view(o: Option<String>) -> Option<Seq<char>> {
    match o {
        Some(s) => Some(s@),
        None => None,
    }
}

pub open spec fn fail_view(main: Seq<char>, secondary: Option<Seq<char>>) -> StatusView {
    StatusView { outcome: Outcome::Fail { main, secondary }, cached: false }
}

pub open spec fn skip_view(main: Seq<char>, secondary: Option<Seq<char>>) -> StatusView {
    StatusView { outcome: Outcome::Skip { main, secondary }, cached: false }
}

pub open spec fn pass_view() -> StatusView {
    StatusView { outcome: Outcome::Pass, cached: false }
}

/// The detail that an expected outcome asks for.
pub enum Detail {
    /// Exactly this detail.
    Exact(Option<Seq<char>>),
    /// Some text, such as a rendered diff, whose wording is not fixed.
    AnyText,
}

pub enum Kind {
    Pass,
    Skip,
    Fail,
    NotImplemented,
}

/// An outcome as a contract fixes it.
pub struct Expected {
    pub kind: Kind,
    pub main: Seq<char>,
    pub detail: Detail,
}

pub open spec fn detail_meets(d: Option<Seq<char>>, e: Detail) -> bool {
    match e {
        Detail::Exact(x) => d == x,
        Detail::AnyText => d is Some,
    }
}

/// A fresh (not cached) status that has the expected outcome.
pub open spec fn meets(v: StatusView, e: Expected) -> bool {
    &&& !v.cached
    &&& match v.outcome {
        Outcome::Pass => e.kind is Pass,
        Outcome::Skip { main, secondary } => e.kind is Skip && main == e.main && detail_meets(
            secondary,
            e.detail,
        ),
        Outcome::Fail { main, secondary } => e.kind is Fail && main == e.main && detail_meets(
            secondary,
            e.detail,
        ),
        Outcome::NotImplemented { main, secondary } => e.kind is NotImplemented && main == e.main
            && detail_meets(secondary, e.detail),
    }
}

pub open spec fn expect_pass() -> Expected {
    Expected { kind: Kind::Pass, main: Seq::empty(), detail: Detail::Exact(None) }
}

pub open spec fn expect_fail(main: Seq<char>, detail: Detail) -> Expected {
    Expected { kind: Kind::Fail, main, detail }
}

pub open spec fn expect_skip(main: Seq<char>, detail: Detail) -> Expected {
    Expected { kind: Kind::Skip, main, detail }
}

pub open spec fn expect_not_implemented(main: Seq<char>, detail: Detail) -> Expected {
    Expected { kind: Kind::NotImplemented, main, detail }
}

/// The outcome proper: pass, skip, fail, or a check whose kind has no
/// evaluation yet.
#[derive(Debug, PartialEq, Eq)]
pub enum StatusStatus {
    Pass,
    Skip { reason: Reason },
    Fail { reason: Reason },
    NotImplemented { reason: Reason },
}

impl StatusStatus {
    pub fn is_skipped(&self) -> (r: bool)
        ensures
            r == self is Skip,
    {
        match self {
            StatusStatus::Skip { .. } => true,
            _ => false,
        }
    }

    pub fn is_success(&self) -> (r: bool)
        ensures
            r == self is Pass,
    {
        match self {
            StatusStatus::Pass => true,
            _ => false,
        }
    }

    pub fn is_failure(&self) -> (r: bool)
        ensures
            r == self is Fail,
    {
        match self {
            StatusStatus::Fail { .. } => true,
            _ => false,
        }
    }

    pub fn duplicate(&self) -> (r: StatusStatus)
        ensures
            r == *self,
    {
        match self {
            StatusStatus::Pass => StatusStatus::Pass,
            StatusStatus::Skip { reason } => StatusStatus::Skip { reason: reason.duplicate() },
            StatusStatus::Fail { reason } => StatusStatus::Fail { reason: reason.duplicate() },
            StatusStatus::NotImplemented { reason } => StatusStatus::NotImplemented {
                reason: reason.duplicate(),
            },
        }
    }
}

/// An outcome together with whether it was served from the result cache.
#[derive(Debug, PartialEq, Eq)]
pub struct Status {
    pub status: StatusStatus,
    pub cached: bool,
}

impl View for Status {
    type V = StatusView;

    open spec fn view(&self) -> StatusView {
        StatusView {
            outcome: match self.status {
                StatusStatus::Pass => Outcome::Pass,
                StatusStatus::Skip { reason } => Outcome::Skip {
                    main: reason.main@,
                    secondary: opt_view(reason.secondary),
                },
                StatusStatus::Fail { reason } => Outcome::Fail {
                    main: reason.main@,
                    secondary: opt_view(reason.secondary),
                },
                StatusStatus::NotImplemented { reason } => Outcome::NotImplemented {
                    main: reason.main@,
                    secondary: opt_view(reason.secondary),
                },
            },
            cached: self.cached,
        }
    }
}

impl Status {
    pub fn new(cached: bool, status: StatusStatus) -> (r: Status)
        ensures
            r.cached == cached,
            r.status == status,
    {
        Status { cached, status }
    }

    /// A fresh failure with the given reason.
    pub fn fail(main: String, secondary: Option<String>) -> (r: Status)
        ensures
            r == fail_status(main, secondary),
            r@ == fail_view(main@, opt_view(secondary)),
    {
        Status::new(false, StatusStatus::Fail { reason: Reason::new(main, secondary) })
    }

    /// A fresh skip with the given reason.
    pub fn skip(main: String, secondary: Option<String>) -> (r: Status)
        ensures
            r@ == skip_view(main@, opt_view(secondary)),
    {
        Status::new(false, StatusStatus::Skip { reason: Reason::new(main, secondary) })
    }

    /// A fresh "not implemented" outcome with the given reason.
    pub fn not_implemented(main: String, secondary: Option<String>) -> (r: Status)
        ensures
            r@ == (StatusView {
                outcome: Outcome::NotImplemented { main: main@, secondary: opt_view(secondary) },
                cached: false,
            }),
    {
        Status::new(false, StatusStatus::NotImplemented { reason: Reason::new(main, secondary) })
    }

    /// A fresh pass.
    pub fn pass() -> (r: Status)
        ensures
            r == pass_status(),
            r@ == pass_view(),
    {
        Status::new(false, StatusStatus::Pass)
    }

    pub fn mark_as_cached(&mut self)
        ensures
            final(self).cached,
            final(self).status == old(self).status,
    {
        self.cached = true;
    }

    pub fn is_cached(&self) -> (r: bool)
        ensures
            r == self.cached,
    {
        self.cached
    }

    pub fn is_skipped(&self) -> (r: bool)
        ensures
            r == self.status is Skip,
    {
        self.status.is_skipped()
    }

    pub fn is_success(&self) -> (r: bool)
        ensures
            r == self.status is Pass,
    {
        self.status.is_success()
    }

    pub fn is_failure(&self) -> (r: bool)
        ensures
            r == self.status is Fail,
    {
        self.status.is_failure()
    }

    pub fn status(&self) -> (r: &StatusStatus)
        ensures
            *r == self.status,
    {
        &self.status
    }

    pub fn duplicate(&self) -> (r: Status)
        ensures
            r == *self,
    {
        Status { status: self.status.duplicate(), cached: self.cached }
    }

    /// The outcome in words: `Pass`, `Skipped (reason)`, `Failed (reason)` or
    /// `Not implemented (reason)`.
    pub fn to_text(&self) -> (r: String)
        ensures
            r@ == status_text(*self),
    {
        match &self.status {
            StatusStatus::Pass => String::from_str("Pass"),
            StatusStatus::Skip { reason } => {
                let mut s = String::from_str("Skipped (");
                let t = reason.to_text();
                s.append(t.as_str());
                s.append(")");
                s
            },
            StatusStatus::Fail { reason } => {
                let mut s = String::from_str("Failed (");
                let t = reason.to_text();
                s.append(t.as_str());
                s.append(")");
                s
            },
            StatusStatus::NotImplemented { reason } => {
                let mut s = String::from_str("Not implemented (");
                let t = reason.to_text();
                s.append(t.as_str());
                s.append(")");
                s
            },
        }
    }
}

pub open spec fn fail_status(main: String, secondary: Option<String>) -> Status {
    Status {
        status: StatusStatus::Fail { reason: Reason { main, secondary } },
        cached: false,
    }
}

pub open spec fn pass_status() -> Status {
    Status { status: StatusStatus::Pass, cached: false }
}

pub open spec fn status_text(s: Status) -> Seq<char> {
    match s.status {
        StatusStatus::Pass => "Pass"@,
        StatusStatus::Skip { reason } => "Skipped ("@ + reason_text(reason) + ")"@,
        StatusStatus::Fail { reason } => "Failed ("@ + reason_text(reason) + ")"@,
        StatusStatus::NotImplemented { reason } => "Not implemented ("@ + reason_text(reason)
            + ")"@,
    }
}

/// All statuses of a run: checklist path, then check description, to status.
/// Both levels keep the order in which keys were first inserted.
#[derive(Debug)]
pub struct Statuses {
    pub lists: Vec<(String, Vec<(String, Status)>)>,
}

impl Statuses {
    /// Checklist paths are unique, and so are check descriptions within each.
    pub open spec fn wf(&self) -> bool {
        &&& keys_unique(self.lists@)
        &&& forall|i: int| 0 <= i < self.lists@.len() ==> keys_unique(#[trigger] self.lists@[i].1@)
    }

    /// Checklist path to check description to status.
    pub open spec fn view(&self) -> Map<Seq<char>, Map<Seq<char>, Status>> {
        entries_map(self.lists@).map_values(|v: Vec<(String, Status)>| entries_map(v@))
    }

    /// Every recorded status passed.
    pub open spec fn all_pass(&self) -> bool {
        forall|p: Seq<char>, n: Seq<char>|
            self.view().contains_key(p) && #[trigger] self.view()[p].contains_key(n)
                ==> self.view()[p][n].status is Pass
    }

    pub fn new() -> (r: Statuses)
        ensures
            r.wf(),
            r.view() == Map::<Seq<char>, Map<Seq<char>, Status>>::empty(),
    {
        let r = Statuses { lists: Vec::new() };
        assert(r.view() =~= Map::<Seq<char>, Map<Seq<char>, Status>>::empty());
        r
    }

    /// 0 when every recorded status passed, 1 otherwise.
    pub fn exit_code(&self) -> (r: i32)
        requires
            self.wf(),
        ensures
            r == 0 <==> self.all_pass(),
            r == 0 || r == 1,
    {
        proof {
            lemma_entries_map(self.lists@);
        }
        let mut i: usize = 0;
        while i < self.lists.len()
            invariant
                self.wf(),
                0 <= i <= self.lists@.len(),
                forall|a: int, b: int|
                    0 <= a < i && 0 <= b < self.lists@[a].1@.len()
                        ==> (#[trigger] self.lists@[a].1@[b]).1.status is Pass,
            decreases self.lists@.len() - i,
        {
            let entries = &self.lists[i].1;
            let mut j: usize = 0;
            while j < entries.len()
                invariant
                    self.wf(),
                    0 <= i < self.lists@.len(),
                    *entries == self.lists@[i as int].1,
                    0 <= j <= entries@.len(),
                    forall|b: int| 0 <= b < j ==> (#[trigger] entries@[b]).1.status is Pass,
                decreases entries@.len() - j,
            {
                if !entries[j].1.is_success() {
                    proof {
                        lemma_entries_map(self.lists@);
                        let p = self.lists@[i as int].0@;
                        let n = entries@[j as int].0@;
                        lemma_entries_map(entries@);
                        assert(self.view().contains_key(p));
                        assert(self.view()[p] == entries_map(entries@));
                        assert(self.view()[p].contains_key(n));
                    }
                    return 1;
                }
                j = j + 1;
            }
            assert forall|a: int, b: int|
                0 <= a < i + 1 && 0 <= b < self.lists@[a].1@.len()
                    implies (#[trigger] self.lists@[a].1@[b]).1.status is Pass by {
                if a == i {
                    assert(entries@[b] == self.lists@[a].1@[b]);
                }
            }
            i = i + 1;
        }
        proof {
            lemma_entries_map(self.lists@);
            assert forall|p: Seq<char>, n: Seq<char>|
                self.view().contains_key(p) && #[trigger] self.view()[p].contains_key(n)
                    implies self.view()[p][n].status is Pass by {
                let a = choose|a: int| 0 <= a < self.lists@.len() && self.lists@[a].0@ == p;
                let inner = self.lists@[a].1@;
                assert(self.view()[p] == entries_map(inner));
                lemma_entries_map(inner);
                let b = choose|b: int| 0 <= b < inner.len() && inner[b].0@ == n;
                assert(inner[b] == self.lists@[a].1@[b]);
            }
        }
        0
    }

    /// Records `status` for check `name` of checklist `path`, replacing an earlier
    /// status of the same check.
    pub fn insert(&mut self, path: String, name: String, status: Status)
        requires
            old(self).wf(),
        ensures
            final(self).wf(),
            final(self).view() == old(self).view().insert(
                path@,
                if old(self).view().contains_key(path@) {
                    old(self).view()[path@].insert(name@, status)
                } else {
                    Map::empty().insert(name@, status)
                },
            ),
    {
        proof {
            lemma_entries_map(self.lists@);
        }
        match find_key(&self.lists, &path) {
            Some(i) => {
                let ghost before = self.lists@;
                let (key, mut inner) = self.lists.remove(i);
                assert(keys_unique(inner@)) by {
                    assert(inner == before[i as int].1);
                }
                let ghost old_inner = inner;
                set_key(&mut inner, name, status);
                let ghost new_inner = inner;
                self.lists.insert(i, (key, inner));
                proof {
                    assert(entries_map(before).contains_key(before[i as int].0@));
                    assert(old_inner == before[i as int].1);
                    assert(old(self).view()[path@] == entries_map(old_inner@));
                    assert(self.lists@ =~= before.update(i as int, (before[i as int].0, new_inner)));
                    lemma_entries_map_update(before, i as int, new_inner);
                    assert forall|j: int| 0 <= j < self.lists@.len() implies keys_unique(
                        #[trigger] self.lists@[j].1@,
                    ) by {
                        if j != i {
                            assert(self.lists@[j] == before[j]);
                        }
                    }
                    assert(self.view() =~= old(self).view().insert(
                        path@,
                        old(self).view()[path@].insert(name@, status),
                    ));
                }
            },
            None => {
                let mut inner: Vec<(String, Status)> = Vec::new();
                proof {
                    assert(entries_map(inner@) =~= Map::empty());
                }
                set_key(&mut inner, name, status);
                let ghost new_inner = inner;
                let ghost before = self.lists@;
                proof {
                    lemma_entries_map_push(before, path, new_inner);
                }
                self.lists.push((path, inner));
                proof {
                    assert forall|j: int| 0 <= j < self.lists@.len() implies keys_unique(
                        #[trigger] self.lists@[j].1@,
                    ) by {
                        if j < before.len() {
                            assert(self.lists@[j] == before[j]);
                        }
                    }
                    assert(self.view() =~= old(self).view().insert(
                        path@,
                        Map::empty().insert(name@, status),
                    ));
                }
            },
        }
    }
}

/// A single status that is not a pass, among any others, makes the aggregate
/// fail: `exit_code` is then non-zero. With every status a pass it is zero.
pub proof fn lemma_one_failure_fails_run(s: Statuses, path: Seq<char>, name: Seq<char>)
    requires
        s.view().contains_key(path),
        s.view()[path].contains_key(name),
        !(s.view()[path][name].status is Pass),
    ensures
        !s.all_pass(),
{
}

} // verus!
