//! The checklist data model: checks and their variants, conditions,
//! requirements, facts and checklists.

use vstd::prelude::*;
use vstd::string::*;
use crate::env::EnvVars;
use crate::remote::{decimal, decimal_text};
use crate::text::{join_path, join_path_spec, parent_of, parent_spec, views_of};

verus! {

/// The `Debug` rendering of a list of strings: `["a", "b"]`.
pub uninterp spec fn debug_list_text(items: Seq<Seq<char>>) -> Seq<char>;

/// The `Debug` rendering of a string: quoted, with escapes.
pub uninterp spec fn debug_text(s: Seq<char>) -> Seq<char>;

/// Relies on the `Debug` impl of `Vec<String>`: the text depends on the items alone.
#[verifier::external_body]
fn debug_list(v: &Vec<String>) -> (r: String)
    ensures
        r@ == debug_list_text(views_of(v@)),
{
    format!("{:?}", v)
}

/// Relies on the `Debug` impl of `str`: the text depends on the string alone.
#[verifier::external_body]
fn debug_str(s: &str) -> (r: String)
    ensures
        r@ == debug_text(s@),
{
    format!("{:?}", s)
}

#[derive(Debug, Clone, Copy, PartialEq, Eq, Hash)]
pub enum HttpMethod {
    Get,
    Post,
    Put,
    Delete,
    Head,
    Connect,
    Options,
    Trace,
    Patch,
}

/// A file that must exist, optionally with exact contents, required
/// fragments, or the contents of a rendered template.
#[derive(Debug, Clone, PartialEq, Eq, Hash)]
pub struct FileCheck {
    pub path: String,
    /// Exact contents of the file.
    pub contents: Option<String>,
    /// Text fragments that must occur in the file.
    pub contains: Vec<String>,
    /// Template to check against, relative to the checklist's directory
    /// unless absolute.
    pub template: Option<String>,
}

pub open spec fn method_name(m: HttpMethod) -> Seq<char> {
    match m {
        HttpMethod::Get => "Get"@,
        HttpMethod::Post => "Post"@,
        HttpMethod::Put => "Put"@,
        HttpMethod::Delete => "Delete"@,
        HttpMethod::Head => "Head"@,
        HttpMethod::Connect => "Connect"@,
        HttpMethod::Options => "Options"@,
        HttpMethod::Trace => "Trace"@,
        HttpMethod::Patch => "Patch"@,
    }
}

impl HttpMethod {
    /// The method's name, as in `Get`.
    pub fn name(&self) -> (r: &'static str)
        ensures
            r@ == method_name(*self),
    {
        match self {
            HttpMethod::Get => "Get",
            HttpMethod::Post => "Post",
            HttpMethod::Put => "Put",
            HttpMethod::Delete => "Delete",
            HttpMethod::Head => "Head",
            HttpMethod::Connect => "Connect",
            HttpMethod::Options => "Options",
            HttpMethod::Trace => "Trace",
            HttpMethod::Patch => "Patch",
        }
    }
}

pub open spec fn describe_file(f: FileCheck) -> Seq<char> {
    "File "@ + f.path@ + ": must exist"@ + (if f.contains@.len() > 0 {
        ", must contain "@ + debug_list_text(views_of(f.contains@))
    } else {
        Seq::empty()
    }) + match f.contents {
        Some(c) => ", contents must exactly match "@ + debug_text(c@),
        None => Seq::empty(),
    }
}

pub open spec fn describe_dir(d: DirectoryCheck) -> Seq<char> {
    "Directory "@ + d.path@ + ": must exist"@ + (if d.contains@.len() > 0 {
        ", must contain "@ + debug_list_text(views_of(d.contains@))
    } else {
        Seq::empty()
    }) + (if d.contents@.len() > 0 {
        ", contents must exactly match "@ + debug_list_text(views_of(d.contents@))
    } else {
        Seq::empty()
    })
}

pub open spec fn describe_command(c: CommandCheck) -> Seq<char> {
    "Command "@ + c.cmd@
}

pub open spec fn describe_http(h: HttpCheck) -> Seq<char> {
    "Http "@ + method_name(h.method) + " request to "@ + h.url@ + " must return "@ + decimal(
        h.code as nat,
    ) + match h.expected_body {
        Some(b) => ", body must match '"@ + b@ + "'"@,
        None => Seq::empty(),
    } + (if h.body_contains@.len() > 0 {
        ", body must contain "@ + debug_list_text(views_of(h.body_contains@))
    } else {
        Seq::empty()
    })
}

pub open spec fn describe_var(v: VarCheck) -> Seq<char> {
    "Var "@ + v.key@ + " "@ + match v.value {
        Some(x) => " must be set to "@ + x@,
        None => "must be set"@,
    }
}

pub open spec fn describe_type(t: CheckType) -> Seq<char> {
    match t {
        CheckType::File(f) => describe_file(f),
        CheckType::Directory(d) => describe_dir(d),
        CheckType::Command(c) => describe_command(c),
        CheckType::Http(h) => describe_http(h),
        CheckType::VarSet(v) => describe_var(v),
    }
}

/// A check's name in reports: its description, or a summary of its variant.
pub open spec fn check_name(c: Check) -> Seq<char> {
    match c.description {
        Some(d) => d@,
        None => describe_type(c.check),
    }
}

impl CheckType {
    pub fn describe(&self) -> (r: String)
        ensures
            r@ == describe_type(*self),
    {
        match self {
            CheckType::File(f) => {
                let mut s = String::from_str("File ");
                s.append(f.path.as_str());
                s.append(": must exist");
                let ghost a = s@;
                if f.contains.len() > 0 {
                    s.append(", must contain ");
                    s.append(debug_list(&f.contains).as_str());
                } else {
                    assert(s@ =~= a + Seq::<char>::empty());
                }
                let ghost b = s@;
                match &f.contents {
                    Some(c) => {
                        s.append(", contents must exactly match ");
                        s.append(debug_str(c.as_str()).as_str());
                    },
                    None => {
                        assert(s@ =~= b + Seq::<char>::empty());
                    },
                }
                assert(s@ =~= describe_type(*self));
                s
            },
            CheckType::Directory(d) => {
                let mut s = String::from_str("Directory ");
                s.append(d.path.as_str());
                s.append(": must exist");
                let ghost a = s@;
                if d.contains.len() > 0 {
                    s.append(", must contain ");
                    s.append(debug_list(&d.contains).as_str());
                } else {
                    assert(s@ =~= a + Seq::<char>::empty());
                }
                let ghost b = s@;
                if d.contents.len() > 0 {
                    s.append(", contents must exactly match ");
                    s.append(debug_list(&d.contents).as_str());
                } else {
                    assert(s@ =~= b + Seq::<char>::empty());
                }
                assert(s@ =~= describe_type(*self));
                s
            },
            CheckType::Command(c) => {
                let mut s = String::from_str("Command ");
                s.append(c.cmd.as_str());
                s
            },
            CheckType::Http(h) => {
                let mut s = String::from_str("Http ");
                s.append(h.method.name());
                s.append(" request to ");
                s.append(h.url.as_str());
                s.append(" must return ");
                s.append(decimal_text(h.code as u32).as_str());
                let ghost a = s@;
                match &h.expected_body {
                    Some(b) => {
                        s.append(", body must match '");
                        s.append(b.as_str());
                        s.append("'");
                    },
                    None => {
                        assert(s@ =~= a + Seq::<char>::empty());
                    },
                }
                let ghost b = s@;
                if h.body_contains.len() > 0 {
                    s.append(", body must contain ");
                    s.append(debug_list(&h.body_contains).as_str());
                } else {
                    assert(s@ =~= b + Seq::<char>::empty());
                }
                assert(s@ =~= describe_type(*self));
                s
            },
            CheckType::VarSet(v) => {
                let mut s = String::from_str("Var ");
                s.append(v.key.as_str());
                s.append(" ");
                match &v.value {
                    Some(x) => {
                        s.append(" must be set to ");
                        s.append(x.as_str());
                    },
                    None => {
                        s.append("must be set");
                    },
                }
                assert(s@ =~= describe_type(*self));
                s
            },
        }
    }
}

impl FileCheck {
    pub fn path(&self) -> (r: &String)
        ensures
            *r == self.path,
    {
        &self.path
    }
}

/// A directory that must exist, optionally with an exact listing or required
/// entries.
#[derive(Debug, Clone, PartialEq, Eq, Hash)]
pub struct DirectoryCheck {
    pub path: String,
    /// Exact names of the directory's children, when not empty.
    pub contents: Vec<String>,
    /// Names of children that must exist.
    pub contains: Vec<String>,
}

/// A command whose exit code and output are checked.
#[derive(Debug, Clone, PartialEq, Eq, Hash)]
pub struct CommandCheck {
    pub cmd: String,
    pub code: i32,
    pub expected_stdout: Option<String>,
    pub expected_stderr: Option<String>,
    pub stdout_contains: Vec<String>,
    pub stderr_contains: Vec<String>,
}

/// An HTTP request whose status and body are checked.
#[derive(Debug, Clone, PartialEq, Eq, Hash)]
pub struct HttpCheck {
    pub method: HttpMethod,
    pub code: u16,
    pub url: String,
    pub body_contains: Vec<String>,
    pub expected_body: Option<String>,
}

/// An environment variable that must be set, to a given value if one is named.
#[derive(Debug, Clone, PartialEq, Eq, Hash)]
pub struct VarCheck {
    pub key: String,
    /// `None` means any value will do.
    pub value: Option<String>,
}

#[derive(Debug, Clone, PartialEq, Eq, Hash)]
pub enum CheckType {
    File(FileCheck),
    Directory(DirectoryCheck),
    Command(CommandCheck),
    Http(HttpCheck),
    VarSet(VarCheck),
}

/// A check that gates whether its parent check runs.
#[derive(Debug, Clone, PartialEq, Eq, Hash)]
pub struct Condition {
    pub description: Option<String>,
    pub condition: CheckType,
}

/// A hard precondition: an executable that must resolve, or an environment
/// variable that must be set.
#[derive(Debug, Clone, PartialEq, Eq, Hash)]
pub enum Requirement {
    Command { command: String },
    Env { key: String },
}

/// One auditable assertion, with its guards.
#[derive(Debug, Clone, PartialEq, Eq, Hash)]
pub struct Check {
    pub check: CheckType,
    pub description: Option<String>,
    pub conditions: Vec<Condition>,
    pub requirements: Vec<Requirement>,
}

impl Check {
    /// The check's name in reports.
    pub fn description(&self) -> (r: String)
        ensures
            r@ == check_name(*self),
    {
        match &self.description {
            Some(d) => d.clone(),
            None => self.check.describe(),
        }
    }

    pub fn ttype(&self) -> (r: &CheckType)
        ensures
            *r == self.check,
    {
        &self.check
    }
}

/// Where a fact's value comes from.
#[derive(Debug, Clone, PartialEq, Eq)]
pub enum FactValue {
    /// The output of a command pipeline.
    Command { command: String },
    Literal { value: String },
    /// An environment variable.
    Env { key: String },
}

/// Relies on `exitcode::OK`: the conventional success code, 0.
#[verifier::external_body]
fn success_code() -> (r: i32)
    ensures
        r == 0,
{
    exitcode::OK
}

/// Relies on `reqwest::StatusCode::OK`: HTTP status 200.
#[verifier::external_body]
fn http_ok() -> (r: u16)
    ensures
        r == 200,
{
    reqwest::StatusCode::OK.as_u16()
}

/// The exit code a command check expects when none is given: success.
pub fn default_exit_code() -> (r: i32)
    ensures
        r == 0,
{
    success_code()
}

/// The status an HTTP check expects when none is given: 200.
pub fn default_http_status() -> (r: u16)
    ensures
        r == 200,
{
    http_ok()
}

/// `b` relative to `a`.
pub fn rel_to(a: &str, b: &str) -> (r: String)
    ensures
        r@ == join_path_spec(a@, b@),
{
    join_path(a, b)
}

/// A named value computed once and visible to everything evaluated after it.
#[derive(Debug, Clone, PartialEq, Eq)]
pub struct Fact {
    pub key: String,
    pub value: FactValue,
    pub requirements: Vec<Requirement>,
}

/// How a fact's value is obtained.
#[derive(Debug, PartialEq, Eq)]
pub enum FactResolution {
    /// The value is known.
    Value(String),
    /// The value is the output of this pipeline, which must be run.
    RunCommand(String),
    /// The value cannot be had; the message says why.
    Unset(String),
}

impl Fact {
    /// The fact's value, from a literal or the environment, or the pipeline to
    /// run for it.
    pub fn value(&self, env: &EnvVars) -> (r: FactResolution)
        requires
            env.wf(),
        ensures
            match self.value {
                FactValue::Literal { value } => r matches FactResolution::Value(v) && v@ == value@,
                FactValue::Env { key } => if env.view().contains_key(key@) {
                    r matches FactResolution::Value(v) && v@ == env.view()[key@]
                } else {
                    r matches FactResolution::Unset(m) && m@ == "Env var '"@ + key@ + "' not set"@
                },
                FactValue::Command { command } => r matches FactResolution::RunCommand(c) && c@
                    == command@,
            },
    {
        match &self.value {
            FactValue::Literal { value } => FactResolution::Value(value.clone()),
            FactValue::Env { key } => match env.get(key) {
                Some(v) => FactResolution::Value(v),
                None => {
                    let mut m = String::from_str("Env var '");
                    m.append(key.as_str());
                    m.append("' not set");
                    FactResolution::Unset(m)
                },
            },
            FactValue::Command { command } => FactResolution::RunCommand(command.clone()),
        }
    }

    pub fn key(&self) -> (r: String)
        ensures
            r == self.key,
    {
        self.key.clone()
    }

    pub fn requirements(&self) -> (r: &Vec<Requirement>)
        ensures
            *r == self.requirements,
    {
        &self.requirements
    }
}

/// The template a check names, if it is a file check with one.
pub open spec fn template_of(t: CheckType) -> Option<Seq<char>> {
    match t {
        CheckType::File(f) => match f.template {
            Some(x) => Some(x@),
            None => None,
        },
        _ => None,
    }
}

/// The templates of the checks, resolved against `base`, in order.
pub open spec fn templates_spec(checks: Seq<Check>, base: Seq<char>) -> Seq<Seq<char>>
    decreases checks.len(),
{
    if checks.len() == 0 {
        Seq::empty()
    } else {
        templates_spec(checks.drop_last(), base) + match template_of(checks.last().check) {
            Some(t) => seq![join_path_spec(base, t)],
            None => Seq::empty(),
        }
    }
}

/// A parsed checklist file.
#[derive(Debug, Clone, PartialEq, Eq)]
pub struct Checklist {
    pub path: String,
    pub facts: Vec<Fact>,
    pub conditions: Vec<Condition>,
    pub checks: Vec<Check>,
    pub requirements: Vec<Requirement>,
}

impl Checklist {
    pub fn checks(&self) -> (r: &Vec<Check>)
        ensures
            *r == self.checks,
    {
        &self.checks
    }

    pub fn facts(&self) -> (r: &Vec<Fact>)
        ensures
            *r == self.facts,
    {
        &self.facts
    }

    pub fn path(&self) -> (r: &String)
        ensures
            *r == self.path,
    {
        &self.path
    }

    /// The templates that the file checks name, each resolved against the
    /// checklist's directory, in order.
    pub fn templates(&self) -> (r: Vec<String>)
        ensures
            views_of(r@) == templates_spec(self.checks@, parent_spec(self.path@)),
    {
        let mut out: Vec<String> = Vec::new();
        let base = parent_of(self.path.as_str());
        let mut i: usize = 0;
        while i < self.checks.len()
            invariant
                0 <= i <= self.checks@.len(),
                base@ == parent_spec(self.path@),
                views_of(out@) == templates_spec(self.checks@.subrange(0, i as int), base@),
            decreases self.checks@.len() - i,
        {
            let ghost before = out@;
            proof {
                assert(self.checks@.subrange(0, i + 1).drop_last() =~= self.checks@.subrange(0, i as int));
            }
            match &self.checks[i].check {
                CheckType::File(f) => match &f.template {
                    Some(t) => {
                        let full = rel_to(base.as_str(), t.as_str());
                        out.push(full);
                        assert(views_of(out@) =~= views_of(before).push(full@));
                    },
                    None => {
                        assert(views_of(out@) =~= views_of(before) + Seq::<Seq<char>>::empty());
                    },
                },
                _ => {
                    assert(views_of(out@) =~= views_of(before) + Seq::<Seq<char>>::empty());
                },
            }
            i = i + 1;
        }
        assert(self.checks@.subrange(0, self.checks@.len() as int) =~= self.checks@);
        out
    }

    /// The checklist's name: its path.
    pub fn name(&self) -> (r: String)
        ensures
            r@ == self.path@,
    {
        self.path.clone()
    }
}

} // verus!
