//! The canonical byte encoding of a check definition, over which its
//! fingerprint is computed. Every field is written in declaration order;
//! strings carry their byte length and lists their item count, so the
//! encoding of one field never runs into the next.

use vstd::prelude::*;
use vstd::utf8::{encode_utf8, encode_utf8_decode_utf8};
use crate::hashing::{base64_url, blake3_digest, fingerprint_bytes};
use crate::status::opt_view;
use crate::text::views_of;
use crate::model::{
    Check, CheckType, CommandCheck, Condition, DirectoryCheck, FileCheck, HttpCheck, HttpMethod,
    Requirement, VarCheck,
};

verus! {

/// A number in base 128, least significant group first; every byte but the
/// last has its high bit set.
pub open spec fn leb(n: nat) -> Seq<u8>
    decreases n,
{
    if n < 128 {
        seq![n as u8]
    } else {
        seq![(n % 128 + 128) as u8] + leb(n / 128)
    }
}

/// A string: its UTF-8 byte length, then its UTF-8 bytes.
pub open spec fn enc_str(s: Seq<char>) -> Seq<u8> {
    leb(encode_utf8(s).len()) + encode_utf8(s)
}

pub open spec fn enc_opt(o: Option<String>) -> Seq<u8> {
    match o {
        None => seq![0u8],
        Some(s) => seq![1u8] + enc_str(s@),
    }
}

pub open spec fn enc_str_items(s: Seq<String>) -> Seq<u8>
    decreases s.len(),
{
    if s.len() == 0 {
        Seq::empty()
    } else {
        enc_str(s[0]@) + enc_str_items(s.drop_first())
    }
}

pub open spec fn enc_strs(s: Seq<String>) -> Seq<u8> {
    leb(s.len()) + enc_str_items(s)
}

pub open spec fn enc_method(m: HttpMethod) -> u8 {
    match m {
        HttpMethod::Get => 0,
        HttpMethod::Post => 1,
        HttpMethod::Put => 2,
        HttpMethod::Delete => 3,
        HttpMethod::Head => 4,
        HttpMethod::Connect => 5,
        HttpMethod::Options => 6,
        HttpMethod::Trace => 7,
        HttpMethod::Patch => 8,
    }
}

pub open spec fn enc_file(f: FileCheck) -> Seq<u8> {
    seq![0u8] + enc_str(f.path@) + enc_opt(f.contents) + enc_strs(f.contains@) + enc_opt(
        f.template,
    )
}

pub open spec fn enc_dir(d: DirectoryCheck) -> Seq<u8> {
    seq![1u8] + enc_str(d.path@) + enc_strs(d.contents@) + enc_strs(d.contains@)
}

pub open spec fn enc_command(c: CommandCheck) -> Seq<u8> {
    seq![2u8] + enc_str(c.cmd@) + leb(c.code as u32 as nat) + enc_opt(c.expected_stdout)
        + enc_opt(c.expected_stderr) + enc_strs(c.stdout_contains@) + enc_strs(
        c.stderr_contains@,
    )
}

pub open spec fn enc_http(h: HttpCheck) -> Seq<u8> {
    seq![3u8, enc_method(h.method)] + leb(h.code as nat) + enc_str(h.url@) + enc_strs(
        h.body_contains@,
    ) + enc_opt(h.expected_body)
}

pub open spec fn enc_var(v: VarCheck) -> Seq<u8> {
    seq![4u8] + enc_str(v.key@) + enc_opt(v.value)
}

pub open spec fn enc_type(t: CheckType) -> Seq<u8> {
    match t {
        CheckType::File(f) => enc_file(f),
        CheckType::Directory(d) => enc_dir(d),
        CheckType::Command(c) => enc_command(c),
        CheckType::Http(h) => enc_http(h),
        CheckType::VarSet(v) => enc_var(v),
    }
}

pub open spec fn enc_condition(c: Condition) -> Seq<u8> {
    enc_opt(c.description) + enc_type(c.condition)
}

pub open spec fn enc_condition_items(s: Seq<Condition>) -> Seq<u8>
    decreases s.len(),
{
    if s.len() == 0 {
        Seq::empty()
    } else {
        enc_condition(s[0]) + enc_condition_items(s.drop_first())
    }
}

pub open spec fn enc_requirement(r: Requirement) -> Seq<u8> {
    match r {
        Requirement::Command { command } => seq![0u8] + enc_str(command@),
        Requirement::Env { key } => seq![1u8] + enc_str(key@),
    }
}

pub open spec fn enc_requirement_items(s: Seq<Requirement>) -> Seq<u8>
    decreases s.len(),
{
    if s.len() == 0 {
        Seq::empty()
    } else {
        enc_requirement(s[0]) + enc_requirement_items(s.drop_first())
    }
}

/// The canonical encoding of a check definition.
pub open spec fn enc_check(c: Check) -> Seq<u8> {
    enc_type(c.check) + enc_opt(c.description) + leb(c.conditions@.len())
        + enc_condition_items(c.conditions@) + leb(c.requirements@.len())
        + enc_requirement_items(c.requirements@)
}

/// The fingerprint of a check: the digest of its canonical encoding.
pub open spec fn check_fingerprint(c: Check) -> Seq<char> {
    base64_url(blake3_digest(enc_check(c)))
}

proof fn lemma_str_items_push(s: Seq<String>, x: String)
    ensures
        enc_str_items(s.push(x)) == enc_str_items(s) + enc_str(x@),
    decreases s.len(),
{
    if s.len() == 0 {
        assert(s.push(x).drop_first() =~= s);
        assert(s.push(x)[0] == x);
        assert(enc_str_items(s) =~= Seq::<u8>::empty());
        assert(enc_str_items(s.push(x)) == enc_str(x@) + enc_str_items(s));
        assert(enc_str_items(s.push(x)) =~= enc_str(x@));
    } else {
        assert(s.push(x).drop_first() =~= s.drop_first().push(x));
        lemma_str_items_push(s.drop_first(), x);
        assert(enc_str_items(s.push(x)) =~= enc_str_items(s) + enc_str(x@));
    }
}

proof fn lemma_condition_items_push(s: Seq<Condition>, x: Condition)
    ensures
        enc_condition_items(s.push(x)) == enc_condition_items(s) + enc_condition(x),
    decreases s.len(),
{
    if s.len() == 0 {
        assert(s.push(x).drop_first() =~= s);
        assert(s.push(x)[0] == x);
        assert(enc_condition_items(s) =~= Seq::<u8>::empty());
        assert(enc_condition_items(s.push(x)) == enc_condition(x) + enc_condition_items(s));
        assert(enc_condition_items(s.push(x)) =~= enc_condition(x));
    } else {
        assert(s.push(x).drop_first() =~= s.drop_first().push(x));
        lemma_condition_items_push(s.drop_first(), x);
        assert(enc_condition_items(s.push(x)) =~= enc_condition_items(s) + enc_condition(x));
    }
}

proof fn lemma_requirement_items_push(s: Seq<Requirement>, x: Requirement)
    ensures
        enc_requirement_items(s.push(x)) == enc_requirement_items(s) + enc_requirement(x),
    decreases s.len(),
{
    if s.len() == 0 {
        assert(s.push(x).drop_first() =~= s);
        assert(s.push(x)[0] == x);
        assert(enc_requirement_items(s) =~= Seq::<u8>::empty());
        assert(enc_requirement_items(s.push(x)) == enc_requirement(x) + enc_requirement_items(s));
        assert(enc_requirement_items(s.push(x)) =~= enc_requirement(x));
    } else {
        assert(s.push(x).drop_first() =~= s.drop_first().push(x));
        lemma_requirement_items_push(s.drop_first(), x);
        assert(enc_requirement_items(s.push(x)) =~= enc_requirement_items(s) + enc_requirement(
            x,
        ));
    }
}

fn push_byte(out: &mut Vec<u8>, b: u8)
    ensures
        final(out)@ == old(out)@ + seq![b],
{
    out.push(b);
    assert(out@ =~= old(out)@ + seq![b]);
}

fn push_bytes(out: &mut Vec<u8>, b: &[u8])
    ensures
        final(out)@ == old(out)@ + b@,
{
    let ghost start = out@;
    let mut i: usize = 0;
    while i < b.len()
        invariant
            0 <= i <= b@.len(),
            out@ == start + b@.subrange(0, i as int),
        decreases b@.len() - i,
    {
        out.push(b[i]);
        assert(out@ =~= start + b@.subrange(0, i + 1));
        i = i + 1;
    }
    assert(b@.subrange(0, b@.len() as int) =~= b@);
}

fn push_number(out: &mut Vec<u8>, n: u64)
    ensures
        final(out)@ == old(out)@ + leb(n as nat),
    decreases n,
{
    if n < 128 {
        push_byte(out, n as u8);
    } else {
        let ghost start = out@;
        push_byte(out, (n % 128 + 128) as u8);
        push_number(out, n / 128);
        assert(out@ =~= start + leb(n as nat));
    }
}

fn push_str(out: &mut Vec<u8>, s: &String)
    ensures
        final(out)@ == old(out)@ + enc_str(s@),
{
    let ghost start = out@;
    let b = s.as_str().as_bytes();
    push_number(out, b.len() as u64);
    push_bytes(out, b);
    assert(out@ =~= start + enc_str(s@));
}

fn push_opt(out: &mut Vec<u8>, o: &Option<String>)
    ensures
        final(out)@ == old(out)@ + enc_opt(*o),
{
    let ghost start = out@;
    match o {
        None => push_byte(out, 0),
        Some(s) => {
            push_byte(out, 1);
            push_str(out, s);
            assert(out@ =~= start + enc_opt(*o));
        },
    }
}

fn push_strs(out: &mut Vec<u8>, v: &Vec<String>)
    ensures
        final(out)@ == old(out)@ + enc_strs(v@),
{
    let ghost start = out@;
    push_number(out, v.len() as u64);
    let mut i: usize = 0;
    while i < v.len()
        invariant
            0 <= i <= v@.len(),
            out@ == start + leb(v@.len()) + enc_str_items(v@.subrange(0, i as int)),
        decreases v@.len() - i,
    {
        proof {
            assert(v@.subrange(0, i + 1) =~= v@.subrange(0, i as int).push(v@[i as int]));
            lemma_str_items_push(v@.subrange(0, i as int), v@[i as int]);
        }
        push_str(out, &v[i]);
        i = i + 1;
        assert(out@ =~= start + leb(v@.len()) + enc_str_items(v@.subrange(0, i as int)));
    }
    assert(v@.subrange(0, v@.len() as int) =~= v@);
    assert(out@ =~= start + enc_strs(v@));
}

fn method_tag(m: HttpMethod) -> (r: u8)
    ensures
        r == enc_method(m),
{
    match m {
        HttpMethod::Get => 0,
        HttpMethod::Post => 1,
        HttpMethod::Put => 2,
        HttpMethod::Delete => 3,
        HttpMethod::Head => 4,
        HttpMethod::Connect => 5,
        HttpMethod::Options => 6,
        HttpMethod::Trace => 7,
        HttpMethod::Patch => 8,
    }
}

fn push_file(out: &mut Vec<u8>, f: &FileCheck)
    ensures
        final(out)@ == old(out)@ + enc_file(*f),
{
    let ghost start = out@;
    push_byte(out, 0);
    push_str(out, &f.path);
    push_opt(out, &f.contents);
    push_strs(out, &f.contains);
    push_opt(out, &f.template);
    assert(out@ =~= start + enc_file(*f));
}

fn push_dir(out: &mut Vec<u8>, d: &DirectoryCheck)
    ensures
        final(out)@ == old(out)@ + enc_dir(*d),
{
    let ghost start = out@;
    push_byte(out, 1);
    push_str(out, &d.path);
    push_strs(out, &d.contents);
    push_strs(out, &d.contains);
    assert(out@ =~= start + enc_dir(*d));
}

fn push_command(out: &mut Vec<u8>, c: &CommandCheck)
    ensures
        final(out)@ == old(out)@ + enc_command(*c),
{
    let ghost start = out@;
    push_byte(out, 2);
    push_str(out, &c.cmd);
    push_number(out, c.code as u32 as u64);
    push_opt(out, &c.expected_stdout);
    push_opt(out, &c.expected_stderr);
    push_strs(out, &c.stdout_contains);
    push_strs(out, &c.stderr_contains);
    assert(out@ =~= start + enc_command(*c));
}

fn push_http(out: &mut Vec<u8>, h: &HttpCheck)
    ensures
        final(out)@ == old(out)@ + enc_http(*h),
{
    let ghost start = out@;
    push_byte(out, 3);
    push_byte(out, method_tag(h.method));
    push_number(out, h.code as u64);
    push_str(out, &h.url);
    push_strs(out, &h.body_contains);
    push_opt(out, &h.expected_body);
    assert(out@ =~= start + enc_http(*h));
}

fn push_var(out: &mut Vec<u8>, v: &VarCheck)
    ensures
        final(out)@ == old(out)@ + enc_var(*v),
{
    let ghost start = out@;
    push_byte(out, 4);
    push_str(out, &v.key);
    push_opt(out, &v.value);
    assert(out@ =~= start + enc_var(*v));
}

fn push_type(out: &mut Vec<u8>, t: &CheckType)
    ensures
        final(out)@ == old(out)@ + enc_type(*t),
{
    match t {
        CheckType::File(f) => push_file(out, f),
        CheckType::Directory(d) => push_dir(out, d),
        CheckType::Command(c) => push_command(out, c),
        CheckType::Http(h) => push_http(out, h),
        CheckType::VarSet(v) => push_var(out, v),
    }
}

fn push_condition(out: &mut Vec<u8>, c: &Condition)
    ensures
        final(out)@ == old(out)@ + enc_condition(*c),
{
    let ghost start = out@;
    push_opt(out, &c.description);
    push_type(out, &c.condition);
    assert(out@ =~= start + enc_condition(*c));
}

fn push_requirement(out: &mut Vec<u8>, r: &Requirement)
    ensures
        final(out)@ == old(out)@ + enc_requirement(*r),
{
    let ghost start = out@;
    match r {
        Requirement::Command { command } => {
            push_byte(out, 0);
            push_str(out, command);
        },
        Requirement::Env { key } => {
            push_byte(out, 1);
            push_str(out, key);
        },
    }
    assert(out@ =~= start + enc_requirement(*r));
}

impl Check {
    /// The canonical encoding of this definition.
    pub fn encode(&self) -> (r: Vec<u8>)
        ensures
            r@ == enc_check(*self),
    {
        let mut out: Vec<u8> = Vec::new();
        push_type(&mut out, &self.check);
        push_opt(&mut out, &self.description);
        let ghost head = out@;
        push_number(&mut out, self.conditions.len() as u64);
        let mut i: usize = 0;
        while i < self.conditions.len()
            invariant
                0 <= i <= self.conditions@.len(),
                out@ == head + leb(self.conditions@.len()) + enc_condition_items(
                    self.conditions@.subrange(0, i as int),
                ),
            decreases self.conditions@.len() - i,
        {
            proof {
                assert(self.conditions@.subrange(0, i + 1) =~= self.conditions@.subrange(
                    0,
                    i as int,
                ).push(self.conditions@[i as int]));
                lemma_condition_items_push(
                    self.conditions@.subrange(0, i as int),
                    self.conditions@[i as int],
                );
            }
            push_condition(&mut out, &self.conditions[i]);
            i = i + 1;
            assert(out@ =~= head + leb(self.conditions@.len()) + enc_condition_items(
                self.conditions@.subrange(0, i as int),
            ));
        }
        assert(self.conditions@.subrange(0, self.conditions@.len() as int) =~= self.conditions@);
        let ghost mid = out@;
        push_number(&mut out, self.requirements.len() as u64);
        let mut k: usize = 0;
        while k < self.requirements.len()
            invariant
                0 <= k <= self.requirements@.len(),
                out@ == mid + leb(self.requirements@.len()) + enc_requirement_items(
                    self.requirements@.subrange(0, k as int),
                ),
            decreases self.requirements@.len() - k,
        {
            proof {
                assert(self.requirements@.subrange(0, k + 1) =~= self.requirements@.subrange(
                    0,
                    k as int,
                ).push(self.requirements@[k as int]));
                lemma_requirement_items_push(
                    self.requirements@.subrange(0, k as int),
                    self.requirements@[k as int],
                );
            }
            push_requirement(&mut out, &self.requirements[k]);
            k = k + 1;
            assert(out@ =~= mid + leb(self.requirements@.len()) + enc_requirement_items(
                self.requirements@.subrange(0, k as int),
            ));
        }
        assert(self.requirements@.subrange(0, self.requirements@.len() as int)
            =~= self.requirements@);
        assert(out@ =~= enc_check(*self));
        out
    }

    /// The check's fingerprint, its key in the result cache.
    pub fn fingerprint(&self) -> (r: String)
        ensures
            r@ == check_fingerprint(*self),
    {
        let e = self.encode();
        fingerprint_bytes(e.as_slice())
    }
}

/// Two variants with the same fields, compared by value.
pub open spec fn same_type(a: CheckType, b: CheckType) -> bool {
    match a {
        CheckType::File(f) => match b {
            CheckType::File(g) => f.path@ == g.path@ && opt_view(f.contents) == opt_view(g.contents)
                && views_of(f.contains@) == views_of(g.contains@) && opt_view(f.template)
                == opt_view(g.template),
            _ => false,
        },
        CheckType::Directory(d) => match b {
            CheckType::Directory(e) => d.path@ == e.path@ && views_of(d.contents@) == views_of(
                e.contents@,
            ) && views_of(d.contains@) == views_of(e.contains@),
            _ => false,
        },
        CheckType::Command(c) => match b {
            CheckType::Command(d) => c.cmd@ == d.cmd@ && c.code == d.code && opt_view(
                c.expected_stdout,
            ) == opt_view(d.expected_stdout) && opt_view(c.expected_stderr) == opt_view(
                d.expected_stderr,
            ) && views_of(c.stdout_contains@) == views_of(d.stdout_contains@) && views_of(
                c.stderr_contains@,
            ) == views_of(d.stderr_contains@),
            _ => false,
        },
        CheckType::Http(h) => match b {
            CheckType::Http(k) => h.method == k.method && h.code == k.code && h.url@ == k.url@
                && views_of(h.body_contains@) == views_of(k.body_contains@) && opt_view(
                h.expected_body,
            ) == opt_view(k.expected_body),
            _ => false,
        },
        CheckType::VarSet(v) => match b {
            CheckType::VarSet(w) => v.key@ == w.key@ && opt_view(v.value) == opt_view(w.value),
            _ => false,
        },
    }
}

pub open spec fn same_condition(a: Condition, b: Condition) -> bool {
    opt_view(a.description) == opt_view(b.description) && same_type(a.condition, b.condition)
}

pub open spec fn same_requirement(a: Requirement, b: Requirement) -> bool {
    match a {
        Requirement::Command { command: x } => match b {
            Requirement::Command { command: y } => x@ == y@,
            _ => false,
        },
        Requirement::Env { key: x } => match b {
            Requirement::Env { key: y } => x@ == y@,
            _ => false,
        },
    }
}

/// Two check definitions that agree in every field, compared by value.
pub open spec fn same_check(a: Check, b: Check) -> bool {
    &&& same_type(a.check, b.check)
    &&& opt_view(a.description) == opt_view(b.description)
    &&& a.conditions@.len() == b.conditions@.len()
    &&& forall|i: int|
        0 <= i < a.conditions@.len() ==> same_condition(
            #[trigger] a.conditions@[i],
            b.conditions@[i],
        )
    &&& a.requirements@.len() == b.requirements@.len()
    &&& forall|i: int|
        0 <= i < a.requirements@.len() ==> same_requirement(
            #[trigger] a.requirements@[i],
            b.requirements@[i],
        )
}

proof fn lemma_split(p: Seq<u8>, q: Seq<u8>, x: Seq<u8>, y: Seq<u8>)
    requires
        p + x == q + y,
        p.len() == q.len(),
    ensures
        p == q,
        x == y,
{
    assert(p =~= (p + x).subrange(0, p.len() as int));
    assert(q =~= (q + y).subrange(0, q.len() as int));
    assert(x =~= (p + x).subrange(p.len() as int, (p + x).len() as int));
    assert(y =~= (q + y).subrange(q.len() as int, (q + y).len() as int));
}

proof fn lemma_assoc(p: Seq<u8>, q: Seq<u8>, r: Seq<u8>)
    ensures
        (p + q) + r == p + (q + r),
{
    assert((p + q) + r =~= p + (q + r));
}

proof fn lemma_byte(a: u8, b: u8, x: Seq<u8>, y: Seq<u8>)
    requires
        seq![a] + x == seq![b] + y,
    ensures
        a == b,
        x == y,
{
    lemma_split(seq![a], seq![b], x, y);
    assert(seq![a][0] == seq![b][0]);
}

proof fn lemma_leb(a: nat, b: nat, x: Seq<u8>, y: Seq<u8>)
    requires
        leb(a) + x == leb(b) + y,
    ensures
        a == b,
        x == y,
    decreases a,
{
    assert((leb(a) + x)[0] == leb(a)[0]);
    assert((leb(b) + y)[0] == leb(b)[0]);
    if a < 128 && b < 128 {
        lemma_byte(a as u8, b as u8, x, y);
    } else if a >= 128 && b >= 128 {
        let ta = (a % 128 + 128) as u8;
        let tb = (b % 128 + 128) as u8;
        assert(leb(a) + x =~= seq![ta] + (leb(a / 128) + x));
        assert(leb(b) + y =~= seq![tb] + (leb(b / 128) + y));
        lemma_byte(ta, tb, leb(a / 128) + x, leb(b / 128) + y);
        lemma_leb(a / 128, b / 128, x, y);
        assert(a == 128 * (a / 128) + a % 128);
        assert(b == 128 * (b / 128) + b % 128);
    }
}

proof fn lemma_str(a: Seq<char>, b: Seq<char>, x: Seq<u8>, y: Seq<u8>)
    requires
        enc_str(a) + x == enc_str(b) + y,
    ensures
        a == b,
        x == y,
{
    let ea = encode_utf8(a);
    let eb = encode_utf8(b);
    assert(enc_str(a) + x =~= leb(ea.len()) + (ea + x));
    assert(enc_str(b) + y =~= leb(eb.len()) + (eb + y));
    lemma_leb(ea.len(), eb.len(), ea + x, eb + y);
    lemma_split(ea, eb, x, y);
    encode_utf8_decode_utf8(a);
    encode_utf8_decode_utf8(b);
}

proof fn lemma_opt(a: Option<String>, b: Option<String>, x: Seq<u8>, y: Seq<u8>)
    requires
        enc_opt(a) + x == enc_opt(b) + y,
    ensures
        opt_view(a) == opt_view(b),
        x == y,
{
    match a {
        None => match b {
            None => lemma_byte(0, 0, x, y),
            Some(t) => {
                assert(enc_opt(b) + y =~= seq![1u8] + (enc_str(t@) + y));
                lemma_byte(0, 1, x, enc_str(t@) + y);
            },
        },
        Some(s) => {
            assert(enc_opt(a) + x =~= seq![1u8] + (enc_str(s@) + x));
            match b {
                None => lemma_byte(1, 0, enc_str(s@) + x, y),
                Some(t) => {
                    assert(enc_opt(b) + y =~= seq![1u8] + (enc_str(t@) + y));
                    lemma_byte(1, 1, enc_str(s@) + x, enc_str(t@) + y);
                    lemma_str(s@, t@, x, y);
                },
            }
        },
    }
}

proof fn lemma_str_items(s: Seq<String>, t: Seq<String>, x: Seq<u8>, y: Seq<u8>)
    requires
        s.len() == t.len(),
        enc_str_items(s) + x == enc_str_items(t) + y,
    ensures
        views_of(s) == views_of(t),
        x == y,
    decreases s.len(),
{
    if s.len() == 0 {
        assert(enc_str_items(s) + x =~= x);
        assert(enc_str_items(t) + y =~= y);
        assert(views_of(s) =~= views_of(t));
    } else {
        let rs = enc_str_items(s.drop_first()) + x;
        let rt = enc_str_items(t.drop_first()) + y;
        assert(enc_str_items(s) + x =~= enc_str(s[0]@) + rs);
        assert(enc_str_items(t) + y =~= enc_str(t[0]@) + rt);
        lemma_str(s[0]@, t[0]@, rs, rt);
        lemma_str_items(s.drop_first(), t.drop_first(), x, y);
        assert forall|i: int| 0 <= i < s.len() implies views_of(s)[i] == views_of(t)[i] by {
            if i > 0 {
                assert(views_of(s.drop_first())[i - 1] == views_of(t.drop_first())[i - 1]);
            }
        }
        assert(views_of(s) =~= views_of(t));
    }
}

proof fn lemma_strs(s: Seq<String>, t: Seq<String>, x: Seq<u8>, y: Seq<u8>)
    requires
        enc_strs(s) + x == enc_strs(t) + y,
    ensures
        views_of(s) == views_of(t),
        x == y,
{
    assert(enc_strs(s) + x =~= leb(s.len()) + (enc_str_items(s) + x));
    assert(enc_strs(t) + y =~= leb(t.len()) + (enc_str_items(t) + y));
    lemma_leb(s.len(), t.len(), enc_str_items(s) + x, enc_str_items(t) + y);
    lemma_str_items(s, t, x, y);
}

proof fn lemma_file(f: FileCheck, g: FileCheck, x: Seq<u8>, y: Seq<u8>)
    requires
        enc_file(f) + x == enc_file(g) + y,
    ensures
        same_type(CheckType::File(f), CheckType::File(g)),
        x == y,
{
    let a4 = enc_opt(f.template) + x;
    let a3 = enc_strs(f.contains@) + a4;
    let a2 = enc_opt(f.contents) + a3;
    let a1 = enc_str(f.path@) + a2;
    let b4 = enc_opt(g.template) + y;
    let b3 = enc_strs(g.contains@) + b4;
    let b2 = enc_opt(g.contents) + b3;
    let b1 = enc_str(g.path@) + b2;
    lemma_assoc(seq![0u8] + enc_str(f.path@) + enc_opt(f.contents) + enc_strs(f.contains@), enc_opt(f.template), x);
    lemma_assoc(seq![0u8] + enc_str(f.path@) + enc_opt(f.contents), enc_strs(f.contains@), a4);
    lemma_assoc(seq![0u8] + enc_str(f.path@), enc_opt(f.contents), a3);
    lemma_assoc(seq![0u8], enc_str(f.path@), a2);
    lemma_assoc(seq![0u8] + enc_str(g.path@) + enc_opt(g.contents) + enc_strs(g.contains@), enc_opt(g.template), y);
    lemma_assoc(seq![0u8] + enc_str(g.path@) + enc_opt(g.contents), enc_strs(g.contains@), b4);
    lemma_assoc(seq![0u8] + enc_str(g.path@), enc_opt(g.contents), b3);
    lemma_assoc(seq![0u8], enc_str(g.path@), b2);
    lemma_byte(0, 0, a1, b1);
    lemma_str(f.path@, g.path@, a2, b2);
    lemma_opt(f.contents, g.contents, a3, b3);
    lemma_strs(f.contains@, g.contains@, a4, b4);
    lemma_opt(f.template, g.template, x, y);
}

proof fn lemma_dir(d: DirectoryCheck, e: DirectoryCheck, x: Seq<u8>, y: Seq<u8>)
    requires
        enc_dir(d) + x == enc_dir(e) + y,
    ensures
        same_type(CheckType::Directory(d), CheckType::Directory(e)),
        x == y,
{
    let a3 = enc_strs(d.contains@) + x;
    let a2 = enc_strs(d.contents@) + a3;
    let a1 = enc_str(d.path@) + a2;
    let b3 = enc_strs(e.contains@) + y;
    let b2 = enc_strs(e.contents@) + b3;
    let b1 = enc_str(e.path@) + b2;
    assert(enc_dir(d) + x =~= seq![1u8] + a1);
    assert(enc_dir(e) + y =~= seq![1u8] + b1);
    lemma_byte(1, 1, a1, b1);
    lemma_str(d.path@, e.path@, a2, b2);
    lemma_strs(d.contents@, e.contents@, a3, b3);
    lemma_strs(d.contains@, e.contains@, x, y);
}

proof fn lemma_command(c: CommandCheck, d: CommandCheck, x: Seq<u8>, y: Seq<u8>)
    requires
        enc_command(c) + x == enc_command(d) + y,
    ensures
        same_type(CheckType::Command(c), CheckType::Command(d)),
        x == y,
{
    let a6 = enc_strs(c.stderr_contains@) + x;
    let a5 = enc_strs(c.stdout_contains@) + a6;
    let a4 = enc_opt(c.expected_stderr) + a5;
    let a3 = enc_opt(c.expected_stdout) + a4;
    let a2 = leb(c.code as u32 as nat) + a3;
    let a1 = enc_str(c.cmd@) + a2;
    let b6 = enc_strs(d.stderr_contains@) + y;
    let b5 = enc_strs(d.stdout_contains@) + b6;
    let b4 = enc_opt(d.expected_stderr) + b5;
    let b3 = enc_opt(d.expected_stdout) + b4;
    let b2 = leb(d.code as u32 as nat) + b3;
    let b1 = enc_str(d.cmd@) + b2;
    lemma_assoc(seq![2u8] + enc_str(c.cmd@) + leb(c.code as u32 as nat) + enc_opt(c.expected_stdout) + enc_opt(c.expected_stderr) + enc_strs(c.stdout_contains@), enc_strs(c.stderr_contains@), x);
    lemma_assoc(seq![2u8] + enc_str(c.cmd@) + leb(c.code as u32 as nat) + enc_opt(c.expected_stdout) + enc_opt(c.expected_stderr), enc_strs(c.stdout_contains@), a6);
    lemma_assoc(seq![2u8] + enc_str(c.cmd@) + leb(c.code as u32 as nat) + enc_opt(c.expected_stdout), enc_opt(c.expected_stderr), a5);
    lemma_assoc(seq![2u8] + enc_str(c.cmd@) + leb(c.code as u32 as nat), enc_opt(c.expected_stdout), a4);
    lemma_assoc(seq![2u8] + enc_str(c.cmd@), leb(c.code as u32 as nat), a3);
    lemma_assoc(seq![2u8], enc_str(c.cmd@), a2);
    lemma_assoc(seq![2u8] + enc_str(d.cmd@) + leb(d.code as u32 as nat) + enc_opt(d.expected_stdout) + enc_opt(d.expected_stderr) + enc_strs(d.stdout_contains@), enc_strs(d.stderr_contains@), y);
    lemma_assoc(seq![2u8] + enc_str(d.cmd@) + leb(d.code as u32 as nat) + enc_opt(d.expected_stdout) + enc_opt(d.expected_stderr), enc_strs(d.stdout_contains@), b6);
    lemma_assoc(seq![2u8] + enc_str(d.cmd@) + leb(d.code as u32 as nat) + enc_opt(d.expected_stdout), enc_opt(d.expected_stderr), b5);
    lemma_assoc(seq![2u8] + enc_str(d.cmd@) + leb(d.code as u32 as nat), enc_opt(d.expected_stdout), b4);
    lemma_assoc(seq![2u8] + enc_str(d.cmd@), leb(d.code as u32 as nat), b3);
    lemma_assoc(seq![2u8], enc_str(d.cmd@), b2);
    lemma_byte(2, 2, a1, b1);
    lemma_str(c.cmd@, d.cmd@, a2, b2);
    lemma_leb(c.code as u32 as nat, d.code as u32 as nat, a3, b3);
    let (p, q) = (c.code, d.code);
    assert(p == q) by (bit_vector)
        requires
            p as u32 == q as u32,
    ;
    lemma_opt(c.expected_stdout, d.expected_stdout, a4, b4);
    lemma_opt(c.expected_stderr, d.expected_stderr, a5, b5);
    lemma_strs(c.stdout_contains@, d.stdout_contains@, a6, b6);
    lemma_strs(c.stderr_contains@, d.stderr_contains@, x, y);
}

proof fn lemma_http(h: HttpCheck, k: HttpCheck, x: Seq<u8>, y: Seq<u8>)
    requires
        enc_http(h) + x == enc_http(k) + y,
    ensures
        same_type(CheckType::Http(h), CheckType::Http(k)),
        x == y,
{
    let a5 = enc_opt(h.expected_body) + x;
    let a4 = enc_strs(h.body_contains@) + a5;
    let a3 = enc_str(h.url@) + a4;
    let a2 = leb(h.code as nat) + a3;
    let a1 = seq![enc_method(h.method)] + a2;
    let b5 = enc_opt(k.expected_body) + y;
    let b4 = enc_strs(k.body_contains@) + b5;
    let b3 = enc_str(k.url@) + b4;
    let b2 = leb(k.code as nat) + b3;
    let b1 = seq![enc_method(k.method)] + b2;
    assert(seq![3u8, enc_method(h.method)] =~= seq![3u8] + seq![enc_method(h.method)]);
    assert(seq![3u8, enc_method(k.method)] =~= seq![3u8] + seq![enc_method(k.method)]);
    lemma_assoc(seq![3u8] + seq![enc_method(h.method)] + leb(h.code as nat) + enc_str(h.url@) + enc_strs(h.body_contains@), enc_opt(h.expected_body), x);
    lemma_assoc(seq![3u8] + seq![enc_method(h.method)] + leb(h.code as nat) + enc_str(h.url@), enc_strs(h.body_contains@), a5);
    lemma_assoc(seq![3u8] + seq![enc_method(h.method)] + leb(h.code as nat), enc_str(h.url@), a4);
    lemma_assoc(seq![3u8] + seq![enc_method(h.method)], leb(h.code as nat), a3);
    lemma_assoc(seq![3u8], seq![enc_method(h.method)], a2);
    lemma_assoc(seq![3u8] + seq![enc_method(k.method)] + leb(k.code as nat) + enc_str(k.url@) + enc_strs(k.body_contains@), enc_opt(k.expected_body), y);
    lemma_assoc(seq![3u8] + seq![enc_method(k.method)] + leb(k.code as nat) + enc_str(k.url@), enc_strs(k.body_contains@), b5);
    lemma_assoc(seq![3u8] + seq![enc_method(k.method)] + leb(k.code as nat), enc_str(k.url@), b4);
    lemma_assoc(seq![3u8] + seq![enc_method(k.method)], leb(k.code as nat), b3);
    lemma_assoc(seq![3u8], seq![enc_method(k.method)], b2);
    lemma_byte(3, 3, a1, b1);
    lemma_byte(enc_method(h.method), enc_method(k.method), a2, b2);
    lemma_leb(h.code as nat, k.code as nat, a3, b3);
    lemma_str(h.url@, k.url@, a4, b4);
    lemma_strs(h.body_contains@, k.body_contains@, a5, b5);
    lemma_opt(h.expected_body, k.expected_body, x, y);
}

proof fn lemma_var(v: VarCheck, w: VarCheck, x: Seq<u8>, y: Seq<u8>)
    requires
        enc_var(v) + x == enc_var(w) + y,
    ensures
        same_type(CheckType::VarSet(v), CheckType::VarSet(w)),
        x == y,
{
    let a2 = enc_opt(v.value) + x;
    let a1 = enc_str(v.key@) + a2;
    let b2 = enc_opt(w.value) + y;
    let b1 = enc_str(w.key@) + b2;
    assert(enc_var(v) + x =~= seq![4u8] + a1);
    assert(enc_var(w) + y =~= seq![4u8] + b1);
    lemma_byte(4, 4, a1, b1);
    lemma_str(v.key@, w.key@, a2, b2);
    lemma_opt(v.value, w.value, x, y);
}

/// The first byte of a variant's encoding: its tag.
pub open spec fn type_tag(t: CheckType) -> u8 {
    match t {
        CheckType::File(_) => 0,
        CheckType::Directory(_) => 1,
        CheckType::Command(_) => 2,
        CheckType::Http(_) => 3,
        CheckType::VarSet(_) => 4,
    }
}

proof fn lemma_type(a: CheckType, b: CheckType, x: Seq<u8>, y: Seq<u8>)
    requires
        enc_type(a) + x == enc_type(b) + y,
    ensures
        same_type(a, b),
        x == y,
{
    assert((enc_type(a) + x)[0] == type_tag(a));
    assert((enc_type(b) + y)[0] == type_tag(b));
    match a {
        CheckType::File(f) => match b {
            CheckType::File(g) => lemma_file(f, g, x, y),
            _ => {},
        },
        CheckType::Directory(d) => match b {
            CheckType::Directory(e) => lemma_dir(d, e, x, y),
            _ => {},
        },
        CheckType::Command(c) => match b {
            CheckType::Command(d) => lemma_command(c, d, x, y),
            _ => {},
        },
        CheckType::Http(h) => match b {
            CheckType::Http(k) => lemma_http(h, k, x, y),
            _ => {},
        },
        CheckType::VarSet(v) => match b {
            CheckType::VarSet(w) => lemma_var(v, w, x, y),
            _ => {},
        },
    }
}

proof fn lemma_condition(a: Condition, b: Condition, x: Seq<u8>, y: Seq<u8>)
    requires
        enc_condition(a) + x == enc_condition(b) + y,
    ensures
        same_condition(a, b),
        x == y,
{
    assert(enc_condition(a) + x =~= enc_opt(a.description) + (enc_type(a.condition) + x));
    assert(enc_condition(b) + y =~= enc_opt(b.description) + (enc_type(b.condition) + y));
    lemma_opt(a.description, b.description, enc_type(a.condition) + x, enc_type(b.condition) + y);
    lemma_type(a.condition, b.condition, x, y);
}

proof fn lemma_condition_items(s: Seq<Condition>, t: Seq<Condition>, x: Seq<u8>, y: Seq<u8>)
    requires
        s.len() == t.len(),
        enc_condition_items(s) + x == enc_condition_items(t) + y,
    ensures
        forall|i: int| 0 <= i < s.len() ==> same_condition(#[trigger] s[i], t[i]),
        x == y,
    decreases s.len(),
{
    if s.len() == 0 {
        assert(enc_condition_items(s) + x =~= x);
        assert(enc_condition_items(t) + y =~= y);
    } else {
        let rs = enc_condition_items(s.drop_first()) + x;
        let rt = enc_condition_items(t.drop_first()) + y;
        assert(enc_condition_items(s) + x =~= enc_condition(s[0]) + rs);
        assert(enc_condition_items(t) + y =~= enc_condition(t[0]) + rt);
        lemma_condition(s[0], t[0], rs, rt);
        lemma_condition_items(s.drop_first(), t.drop_first(), x, y);
        assert forall|i: int| 0 <= i < s.len() implies same_condition(#[trigger] s[i], t[i]) by {
            if i > 0 {
                assert(same_condition(s.drop_first()[i - 1], t.drop_first()[i - 1]));
            }
        }
    }
}

proof fn lemma_requirement(a: Requirement, b: Requirement, x: Seq<u8>, y: Seq<u8>)
    requires
        enc_requirement(a) + x == enc_requirement(b) + y,
    ensures
        same_requirement(a, b),
        x == y,
{
    let (ta, sa): (u8, Seq<char>) = match a {
        Requirement::Command { command } => (0u8, command@),
        Requirement::Env { key } => (1u8, key@),
    };
    let (tb, sb): (u8, Seq<char>) = match b {
        Requirement::Command { command } => (0u8, command@),
        Requirement::Env { key } => (1u8, key@),
    };
    assert(enc_requirement(a) + x =~= seq![ta] + (enc_str(sa) + x));
    assert(enc_requirement(b) + y =~= seq![tb] + (enc_str(sb) + y));
    lemma_byte(ta, tb, enc_str(sa) + x, enc_str(sb) + y);
    lemma_str(sa, sb, x, y);
}

proof fn lemma_requirement_items(s: Seq<Requirement>, t: Seq<Requirement>, x: Seq<u8>, y: Seq<u8>)
    requires
        s.len() == t.len(),
        enc_requirement_items(s) + x == enc_requirement_items(t) + y,
    ensures
        forall|i: int| 0 <= i < s.len() ==> same_requirement(#[trigger] s[i], t[i]),
        x == y,
    decreases s.len(),
{
    if s.len() == 0 {
        assert(enc_requirement_items(s) + x =~= x);
        assert(enc_requirement_items(t) + y =~= y);
    } else {
        let rs = enc_requirement_items(s.drop_first()) + x;
        let rt = enc_requirement_items(t.drop_first()) + y;
        assert(enc_requirement_items(s) + x =~= enc_requirement(s[0]) + rs);
        assert(enc_requirement_items(t) + y =~= enc_requirement(t[0]) + rt);
        lemma_requirement(s[0], t[0], rs, rt);
        lemma_requirement_items(s.drop_first(), t.drop_first(), x, y);
        assert forall|i: int| 0 <= i < s.len() implies same_requirement(#[trigger] s[i], t[i]) by {
            if i > 0 {
                assert(same_requirement(s.drop_first()[i - 1], t.drop_first()[i - 1]));
            }
        }
    }
}

/// Check definitions that differ in any field have different encodings, so
/// they are fingerprinted, and cached, independently (up to collisions of
/// the digest, which nothing here can rule out).
pub proof fn lemma_distinct_definitions_distinct_encodings(a: Check, b: Check)
    requires
        !same_check(a, b),
    ensures
        enc_check(a) != enc_check(b),
{
    if enc_check(a) == enc_check(b) {
        let e = Seq::<u8>::empty();
        let ca = a.conditions@;
        let cb = b.conditions@;
        let ra = a.requirements@;
        let rb = b.requirements@;
        let a4 = enc_requirement_items(ra) + e;
        let a3 = leb(ra.len()) + a4;
        let a2 = enc_condition_items(ca) + a3;
        let a1 = leb(ca.len()) + a2;
        let a0 = enc_opt(a.description) + a1;
        let b4 = enc_requirement_items(rb) + e;
        let b3 = leb(rb.len()) + b4;
        let b2 = enc_condition_items(cb) + b3;
        let b1 = leb(cb.len()) + b2;
        let b0 = enc_opt(b.description) + b1;
        lemma_assoc(enc_type(a.check) + enc_opt(a.description) + leb(ca.len()) + enc_condition_items(ca) + leb(ra.len()), enc_requirement_items(ra), e);
        lemma_assoc(enc_type(a.check) + enc_opt(a.description) + leb(ca.len()) + enc_condition_items(ca), leb(ra.len()), a4);
        lemma_assoc(enc_type(a.check) + enc_opt(a.description) + leb(ca.len()), enc_condition_items(ca), a3);
        lemma_assoc(enc_type(a.check) + enc_opt(a.description), leb(ca.len()), a2);
        lemma_assoc(enc_type(a.check), enc_opt(a.description), a1);
        lemma_assoc(enc_type(b.check) + enc_opt(b.description) + leb(cb.len()) + enc_condition_items(cb) + leb(rb.len()), enc_requirement_items(rb), e);
        lemma_assoc(enc_type(b.check) + enc_opt(b.description) + leb(cb.len()) + enc_condition_items(cb), leb(rb.len()), b4);
        lemma_assoc(enc_type(b.check) + enc_opt(b.description) + leb(cb.len()), enc_condition_items(cb), b3);
        lemma_assoc(enc_type(b.check) + enc_opt(b.description), leb(cb.len()), b2);
        lemma_assoc(enc_type(b.check), enc_opt(b.description), b1);
        assert(enc_check(a) + e =~= enc_check(a));
        assert(enc_check(b) + e =~= enc_check(b));
        lemma_type(a.check, b.check, a0, b0);
        lemma_opt(a.description, b.description, a1, b1);
        lemma_leb(ca.len(), cb.len(), a2, b2);
        lemma_condition_items(ca, cb, a3, b3);
        lemma_leb(ra.len(), rb.len(), a4, b4);
        lemma_requirement_items(ra, rb, e, e);
    }
}

} // verus!
