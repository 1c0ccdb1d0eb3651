//! Command lines and pipelines: splitting a pipeline into stages, each stage
//! into words, resolving executables before anything runs, and the captured
//! output of the last stage. Spawning the processes happens outside.

use vstd::prelude::*;
use vstd::string::*;
use crate::env::executable_found;
use crate::evaluate::first_unmet;
use crate::text::{copy_strings, trim_of, trimmed, views_of};

verus! {

/// The words of a command line as a POSIX shell would split them, or `None`
/// when the quoting is unbalanced.
pub uninterp spec fn shell_words(s: Seq<char>) -> Option<Seq<Seq<char>>>;

/// The text of some bytes, with invalid UTF-8 replaced by U+FFFD.
pub uninterp spec fn lossy_text(b: Seq<u8>) -> Seq<char>;

/// Relies on `shlex::split`: the words, or `None` for erroneous input.
#[verifier::external_body]
fn split_words(s: &str) -> (r: Option<Vec<String>>)
    ensures
        match r {
            Some(v) => shell_words(s@) == Some(views_of(v@)),
            None => shell_words(s@) is None,
        },
{
    shlex::split(s)
}

/// Relies on `String::from_utf8_lossy`: the result depends on the bytes alone.
#[verifier::external_body]
fn lossy_string(b: &[u8]) -> (r: String)
    ensures
        r@ == lossy_text(b@),
{
    String::from_utf8_lossy(b).to_string()
}

/// Captured output, trimmed; an empty or blank stream reads as `None`.
pub open spec fn maybe_text(b: Seq<u8>) -> Option<Seq<char>> {
    if trim_of(lossy_text(b)).len() == 0 {
        None
    } else {
        Some(trim_of(lossy_text(b)))
    }
}

pub fn bytes_to_maybe_str(b: &[u8]) -> (r: Option<String>)
    ensures
        match r {
            Some(s) => maybe_text(b@) == Some(s@),
            None => maybe_text(b@) is None,
        },
{
    let s = lossy_string(b);
    let t = trimmed(s.as_str());
    if t.unicode_len() == 0 {
        None
    } else {
        Some(t)
    }
}

/// The exit code and captured output of a command's last stage.
#[derive(Debug)]
pub struct Output {
    code: i32,
    stdout: Option<String>,
    stderr: Option<String>,
}

impl Output {
    pub closed spec fn code_spec(&self) -> i32 {
        self.code
    }

    pub closed spec fn stdout_spec(&self) -> Option<Seq<char>> {
        match self.stdout {
            Some(s) => Some(s@),
            None => None,
        }
    }

    pub closed spec fn stderr_spec(&self) -> Option<Seq<char>> {
        match self.stderr {
            Some(s) => Some(s@),
            None => None,
        }
    }

    /// The output of a finished process from its exit code and raw streams.
    pub fn new(code: i32, stdout: &[u8], stderr: &[u8]) -> (r: Output)
        ensures
            r.code_spec() == code,
            r.stdout_spec() == maybe_text(stdout@),
            r.stderr_spec() == maybe_text(stderr@),
    {
        Output { code, stdout: bytes_to_maybe_str(stdout), stderr: bytes_to_maybe_str(stderr) }
    }

    pub fn code(&self) -> (r: i32)
        ensures
            r == self.code_spec(),
    {
        self.code
    }

    pub fn stdout(&self) -> (r: Option<&String>)
        ensures
            match r {
                Some(s) => self.stdout_spec() == Some(s@),
                None => self.stdout_spec() is None,
            },
    {
        self.stdout.as_ref()
    }

    pub fn stderr(&self) -> (r: Option<&String>)
        ensures
            match r {
                Some(s) => self.stderr_spec() == Some(s@),
                None => self.stderr_spec() is None,
            },
    {
        self.stderr.as_ref()
    }
}

/// Quoting state while scanning a pipeline: inside single quotes, inside
/// double quotes, and just after a backslash.
pub struct ScanState {
    pub single: bool,
    pub double: bool,
    pub escaped: bool,
}

pub open spec fn plain_state() -> ScanState {
    ScanState { single: false, double: false, escaped: false }
}

pub open spec fn scan_step(st: ScanState, c: char) -> ScanState {
    if st.escaped {
        ScanState { escaped: false, ..st }
    } else if st.single {
        if c == '\'' {
            ScanState { single: false, ..st }
        } else {
            st
        }
    } else if c == '\\' {
        ScanState { escaped: true, ..st }
    } else if st.double {
        if c == '"' {
            ScanState { double: false, ..st }
        } else {
            st
        }
    } else if c == '\'' {
        ScanState { single: true, ..st }
    } else if c == '"' {
        ScanState { double: true, ..st }
    } else {
        st
    }
}

/// The state before character `i`.
pub open spec fn state_at(s: Seq<char>, i: int) -> ScanState
    decreases i,
{
    if i <= 0 {
        plain_state()
    } else {
        scan_step(state_at(s, i - 1), s[i - 1])
    }
}

/// Character `i` is a `|` outside quotes and not escaped.
pub open spec fn splits_at(s: Seq<char>, i: int) -> bool {
    s[i] == '|' && state_at(s, i) == plain_state()
}

/// The stages of `s` from position `i` on, the current one starting at `start`.
pub open spec fn stages_from(s: Seq<char>, i: int, start: int) -> Seq<Seq<char>>
    decreases s.len() - i,
{
    if i >= s.len() {
        seq![s.subrange(start, s.len() as int)]
    } else if splits_at(s, i) {
        seq![s.subrange(start, i)] + stages_from(s, i + 1, i + 1)
    } else {
        stages_from(s, i + 1, start)
    }
}

/// The stages of a pipeline: the text between its unescaped, unquoted bars.
pub open spec fn stages_spec(s: Seq<char>) -> Seq<Seq<char>> {
    stages_from(s, 0, 0)
}

proof fn lemma_stages_nonempty(s: Seq<char>, i: int, start: int)
    ensures
        stages_from(s, i, start).len() >= 1,
    decreases s.len() - i,
{
    if i < s.len() {
        lemma_stages_nonempty(s, i + 1, i + 1);
        lemma_stages_nonempty(s, i + 1, start);
    }
}

/// Splits a pipeline into the text of its stages.
pub fn split_stages(command: &str) -> (r: Vec<String>)
    ensures
        views_of(r@) == stages_spec(command@),
{
    let n = command.unicode_len();
    let mut single = false;
    let mut double = false;
    let mut escaped = false;
    let mut start: usize = 0;
    let mut i: usize = 0;
    let mut out: Vec<String> = Vec::new();
    while i < n
        invariant
            n == command@.len(),
            0 <= start <= i <= n,
            (ScanState { single, double, escaped }) == state_at(command@, i as int),
            views_of(out@) + stages_from(command@, i as int, start as int) == stages_spec(command@),
        decreases n - i,
    {
        let c = command.get_char(i);
        let ghost before = out@;
        if c == '|' && !single && !double && !escaped {
            let stage = command.substring_char(start, i).to_string();
            out.push(stage);
            proof {
                assert(views_of(out@) =~= views_of(before) + seq![command@.subrange(start as int, i as int)]);
            }
            start = i + 1;
        } else if escaped {
            escaped = false;
        } else if single {
            if c == '\'' {
                single = false;
            }
        } else if c == '\\' {
            escaped = true;
        } else if double {
            if c == '"' {
                double = false;
            }
        } else if c == '\'' {
            single = true;
        } else if c == '"' {
            double = true;
        }
        i = i + 1;
    }
    let last = command.substring_char(start, n).to_string();
    let ghost before = out@;
    out.push(last);
    proof {
        assert(views_of(out@) =~= views_of(before) + seq![command@.subrange(start as int, n as int)]);
    }
    out
}

/// An executable and its arguments.
#[derive(Debug, Clone)]
pub struct XCommand {
    pub program: String,
    pub args: Vec<String>,
}

impl XCommand {
    /// The words of the command: program first.
    pub open spec fn words(&self) -> Seq<Seq<char>> {
        seq![self.program@] + views_of(self.args@)
    }

    /// A command from its program and arguments.
    pub fn from_parts(program: &str, args: &Vec<String>) -> (r: XCommand)
        ensures
            r.words() == seq![program@] + views_of(args@),
    {
        XCommand { program: program.to_string(), args: copy_strings(args) }
    }

    /// Splits one command line into executable and arguments.
    pub fn from_single(command: &str) -> (r: Result<XCommand, PipelineError>)
        ensures
            words_ok(shell_words(command@)) ==> (r matches Ok(c) && c.words() == shell_words(
                command@,
            )->Some_0),
            !words_ok(shell_words(command@)) ==> r matches Err(PipelineError::Invalid { .. }),
    {
        let parts = match split_words(command) {
            Some(p) => p,
            None => {
                return Err(PipelineError::Invalid { command: command.to_string() });
            },
        };
        if parts.len() == 0 {
            return Err(PipelineError::Invalid { command: command.to_string() });
        }
        let mut parts = parts;
        let ghost all = parts@;
        let exec = parts.remove(0);
        proof {
            assert(views_of(all) =~= seq![exec@] + views_of(parts@));
        }
        Ok(XCommand { program: exec, args: parts })
    }
}

/// Why a pipeline could not be built.
#[derive(Debug, PartialEq, Eq)]
pub enum PipelineError {
    /// A stage has unbalanced quoting or no words.
    Invalid { command: String },
    /// A stage's executable does not resolve on the search path.
    NotFound { program: String },
}

/// A stage that split into at least one word.
pub open spec fn words_ok(w: Option<Seq<Seq<char>>>) -> bool {
    match w {
        Some(x) => x.len() > 0,
        None => false,
    }
}

/// The words of every stage, when every stage splits into at least one word.
pub open spec fn pipeline_words(command: Seq<char>) -> Option<Seq<Seq<Seq<char>>>> {
    let stages = stages_spec(command);
    if forall|i: int| 0 <= i < stages.len() ==> words_ok(#[trigger] shell_words(stages[i])) {
        Some(Seq::new(stages.len(), |i: int| shell_words(stages[i])->Some_0))
    } else {
        None
    }
}

/// The error names the executable of one of the stages as not found.
pub open spec fn names_a_stage(e: PipelineError, w: Seq<Seq<Seq<char>>>) -> bool {
    match e {
        PipelineError::NotFound { program } => exists|i: int| 0 <= i < w.len() && w[i][0] == program@,
        _ => false,
    }
}

/// The outcome of resolving each stage's executable, `found` saying which
/// resolved: the pipeline is accepted when all did, and otherwise refused
/// naming the first that did not.
pub open spec fn preflight(
    w: Seq<Seq<Seq<char>>>,
    found: Seq<bool>,
    r: Result<Pipeline, PipelineError>,
) -> bool {
    &&& found.len() == w.len()
    &&& !(exists|k: int| first_unmet(found, k)) ==> (r matches Ok(p) && p.words() == w)
    &&& (exists|k: int| first_unmet(found, k)) ==> (r matches Err(PipelineError::NotFound { program })
        && program@ == w[choose|k: int| first_unmet(found, k)][0])
}

/// A chain of commands, each one's output feeding the next one's input.
#[derive(Debug)]
pub struct Pipeline {
    pub first: XCommand,
    pub rest: Vec<XCommand>,
}

impl Pipeline {
    /// The words of each stage, in order.
    pub open spec fn words(&self) -> Seq<Seq<Seq<char>>> {
        seq![self.first.words()] + self.rest@.map_values(|c: XCommand| c.words())
    }

    /// Parses a pipeline and resolves every stage's executable before
    /// anything runs: an unparsable stage or an executable that is not found
    /// fails the whole pipeline.
    pub fn new(command: &str) -> (r: Result<Pipeline, PipelineError>)
        ensures
            match pipeline_words(command@) {
                None => r matches Err(PipelineError::Invalid { .. }),
                Some(w) => (match r {
                    Ok(p) => p.words() == w,
                    Err(e) => names_a_stage(e, w),
                }) && exists|found: Seq<bool>| #[trigger] preflight(w, found, r),
            },
    {
        let stages = split_stages(command);
        let mut cmds: Vec<XCommand> = Vec::new();
        let ghost stage_views = stages_spec(command@);
        let mut i: usize = 0;
        while i < stages.len()
            invariant
                views_of(stages@) == stage_views,
                stage_views == stages_spec(command@),
                0 <= i <= stages@.len(),
                cmds@.len() == i,
                forall|j: int| 0 <= j < i ==> words_ok(#[trigger] shell_words(stage_views[j]))
                    && cmds@[j].words() == shell_words(stage_views[j])->Some_0,
            decreases stages@.len() - i,
        {
            match XCommand::from_single(stages[i].as_str()) {
                Ok(c) => {
                    cmds.push(c);
                },
                Err(e) => {
                    proof {
                        assert(stage_views[i as int] == stages@[i as int]@);
                        assert(!words_ok(shell_words(stage_views[i as int])));
                    }
                    return Err(e);
                },
            }
            i = i + 1;
        }
        proof {
            lemma_stages_nonempty(command@, 0, 0);
        }
        let ghost words = Seq::new(
            stage_views.len(),
            |j: int| shell_words(stage_views[j])->Some_0,
        );
        assert(pipeline_words(command@) == Some(words));
        let mut found: Vec<bool> = Vec::new();
        let mut k: usize = 0;
        while k < cmds.len()
            invariant
                0 <= k <= cmds@.len(),
                found@.len() == k,
            decreases cmds@.len() - k,
        {
            found.push(executable_found(cmds[k].program.as_str()));
            k = k + 1;
        }
        let mut k: usize = 0;
        while k < found.len()
            invariant
                0 <= k <= found@.len(),
                found@.len() == cmds@.len(),
                cmds@.len() == words.len(),
                words.len() >= 1,
                pipeline_words(command@) == Some(words),
                forall|j: int| 0 <= j < cmds@.len() ==> (#[trigger] cmds@[j]).words() == words[j],
                forall|j: int| 0 <= j < k ==> #[trigger] found@[j],
            decreases found@.len() - k,
        {
            if !found[k] {
                proof {
                    assert(cmds@[k as int].words()[0] == cmds@[k as int].program@);
                    assert(words[k as int][0] == cmds@[k as int].program@);
                    assert(first_unmet(found@, k as int));
                    assert forall|m: int| first_unmet(found@, m) implies m == k by {
                        if m < k {
                            assert(found@[m]);
                        } else if m > k {
                            assert(found@[k as int]);
                        }
                    }
                }
                let prog = cmds[k].program.clone();
                assert(words[k as int][0] == prog@);
                assert(exists|i: int| 0 <= i < words.len() && words[i][0] == prog@);
                let r = Err(PipelineError::NotFound { program: prog });
                assert(preflight(words, found@, r));
                return r;
            }
            k = k + 1;
        }
        assert(!exists|m: int| first_unmet(found@, m));
        let ghost all = cmds@;
        let first = cmds.remove(0);
        let p = Pipeline { first, rest: cmds };
        proof {
            assert(all[0].words() == words[0]);
            assert forall|j: int| 0 <= j < words.len() implies p.words()[j] == words[j] by {
                if j > 0 {
                    assert(p.rest@[j - 1] == all[j]);
                    assert(all[j].words() == words[j]);
                }
            }
            assert(p.words() =~= words);
        }
        let r = Ok(p);
        assert(preflight(words, found@, r));
        r
    }

    pub fn stages(&self) -> (r: Vec<&XCommand>)
        ensures
            r@.len() == self.rest@.len() + 1,
            *r@[0] == self.first,
            forall|i: int| 0 <= i < self.rest@.len() ==> *r@[i + 1] == self.rest@[i],
    {
        let mut r: Vec<&XCommand> = Vec::new();
        r.push(&self.first);
        let mut i: usize = 0;
        while i < self.rest.len()
            invariant
                0 <= i <= self.rest@.len(),
                r@.len() == i + 1,
                *r@[0] == self.first,
                forall|j: int| 0 <= j < i ==> *r@[j + 1] == self.rest@[j],
            decreases self.rest@.len() - i,
        {
            r.push(&self.rest[i]);
            i = i + 1;
        }
        r
    }
}

} // verus!
