//! References to remote checklist and template files:
//! `scheme://host[:port][/path][#fragment][::hash]`.

use vstd::prelude::*;
use vstd::string::*;
use crate::status::opt_view;

verus! {

/// A parsed URL as mathematical values.
pub struct UrlView {
    pub scheme: Seq<char>,
    pub host: Seq<char>,
    pub port: Option<u32>,
    pub path: Option<Seq<char>>,
    pub fragment: Option<Seq<char>>,
}

/// A parsed remote reference as mathematical values.
pub struct RemoteView {
    pub url: UrlView,
    pub hash: Option<Seq<char>>,
}

pub open spec fn is_digit(c: char) -> bool {
    '0' <= c && c <= '9'
}

/// The first position from `i` on where `://` starts, or the length.
pub open spec fn sep_at(s: Seq<char>, i: int) -> int
    decreases s.len() - i,
{
    if i < 0 || i + 3 > s.len() {
        s.len() as int
    } else if s[i] == ':' && s[i + 1] == '/' && s[i + 2] == '/' {
        i
    } else {
        sep_at(s, i + 1)
    }
}

/// The end of a host: the first `:`, `/` or `#` from `i` on, or the length.
pub open spec fn host_end(s: Seq<char>, i: int) -> int
    decreases s.len() - i,
{
    if i < 0 || i >= s.len() {
        s.len() as int
    } else if s[i] == ':' || s[i] == '/' || s[i] == '#' {
        i
    } else {
        host_end(s, i + 1)
    }
}

/// The end of a run of decimal digits starting at `i`.
pub open spec fn digits_end(s: Seq<char>, i: int) -> int
    decreases s.len() - i,
{
    if i < 0 || i >= s.len() {
        s.len() as int
    } else if !is_digit(s[i]) {
        i
    } else {
        digits_end(s, i + 1)
    }
}

/// Character `i` starts a `::`.
pub open spec fn hash_sep_at(s: Seq<char>, i: int) -> bool {
    0 <= i && i + 1 < s.len() && s[i] == ':' && s[i + 1] == ':'
}

/// The end of a path: the first `#`, `?` or `::` from `i` on, or the length.
pub open spec fn path_end(s: Seq<char>, i: int) -> int
    decreases s.len() - i,
{
    if i < 0 || i >= s.len() {
        s.len() as int
    } else if s[i] == '#' || s[i] == '?' || hash_sep_at(s, i) {
        i
    } else {
        path_end(s, i + 1)
    }
}

/// The end of a fragment: the first `::` from `i` on, or the length.
pub open spec fn fragment_end(s: Seq<char>, i: int) -> int
    decreases s.len() - i,
{
    if i < 0 || i >= s.len() {
        s.len() as int
    } else if hash_sep_at(s, i) {
        i
    } else {
        fragment_end(s, i + 1)
    }
}

/// The number that the digits `s[i..j]` spell.
pub open spec fn digits_value(s: Seq<char>, i: int, j: int) -> nat
    decreases j - i,
{
    if j <= i {
        0
    } else {
        digits_value(s, i, j - 1) * 10 + (s[j - 1] as nat - '0' as nat) as nat
    }
}

/// The parse of a remote reference, or `None` when the text does not follow
/// the grammar (or the port exceeds `u32`).
pub open spec fn parse_remote_spec(s: Seq<char>) -> Option<RemoteView> {
    let a = sep_at(s, 0);
    let hs = a + 3;
    let he = host_end(s, hs);
    let has_port = he + 1 < s.len() && s[he] == ':' && is_digit(s[he + 1]);
    let de = digits_end(s, he + 1);
    let after_port = if has_port {
        de
    } else {
        he
    };
    let has_path = after_port < s.len() && s[after_port] == '/';
    let after_path = if has_path {
        path_end(s, after_port)
    } else {
        after_port
    };
    let has_fragment = after_path < s.len() && s[after_path] == '#';
    let after_fragment = if has_fragment {
        fragment_end(s, after_path + 1)
    } else {
        after_path
    };
    let has_hash = hash_sep_at(s, after_fragment);
    let parsed_end = if has_hash {
        s.len() as int
    } else {
        after_fragment
    };
    if a == 0 || a >= s.len() || he == hs || parsed_end != s.len() || (has_port && digits_value(
        s,
        he + 1,
        de,
    ) > u32::MAX) {
        None
    } else {
        Some(
            RemoteView {
                url: UrlView {
                    scheme: s.subrange(0, a),
                    host: s.subrange(hs, he),
                    port: if has_port {
                        Some(digits_value(s, he + 1, de) as u32)
                    } else {
                        None
                    },
                    path: if has_path {
                        Some(s.subrange(after_port, after_path))
                    } else {
                        None
                    },
                    fragment: if has_fragment {
                        Some(s.subrange(after_path + 1, after_fragment))
                    } else {
                        None
                    },
                },
                hash: if has_hash {
                    Some(s.subrange(after_fragment + 2, s.len() as int))
                } else {
                    None
                },
            },
        )
    }
}

/// The text after the last `/` (all of it when there is none).
pub open spec fn last_component(s: Seq<char>) -> Seq<char>
    decreases s.len(),
{
    if s.len() == 0 {
        s
    } else if s.last() == '/' {
        Seq::empty()
    } else {
        last_component(s.drop_last()).push(s.last())
    }
}

pub open spec fn digit_char(d: nat) -> char {
    if d == 0 {
        '0'
    } else if d == 1 {
        '1'
    } else if d == 2 {
        '2'
    } else if d == 3 {
        '3'
    } else if d == 4 {
        '4'
    } else if d == 5 {
        '5'
    } else if d == 6 {
        '6'
    } else if d == 7 {
        '7'
    } else if d == 8 {
        '8'
    } else {
        '9'
    }
}

/// The decimal text of a number.
pub open spec fn decimal(n: nat) -> Seq<char>
    decreases n,
{
    if n < 10 {
        seq![digit_char(n)]
    } else {
        decimal(n / 10).push(digit_char(n % 10))
    }
}

pub open spec fn url_text(u: UrlView) -> Seq<char> {
    u.scheme + "://"@ + u.host + match u.port {
        Some(p) => seq![':'] + decimal(p as nat),
        None => Seq::empty(),
    } + match u.path {
        Some(p) => p,
        None => Seq::empty(),
    } + match u.fragment {
        Some(f) => seq!['#'] + f,
        None => Seq::empty(),
    }
}

#[derive(Debug, Clone, PartialEq, Eq)]
pub struct Url {
    scheme: String,
    host: String,
    port: Option<u32>,
    path: Option<String>,
    fragment: Option<String>,
}

impl View for Url {
    type V = UrlView;

    closed spec fn view(&self) -> UrlView {
        UrlView {
            scheme: self.scheme@,
            host: self.host@,
            port: self.port,
            path: opt_view(self.path),
            fragment: opt_view(self.fragment),
        }
    }
}

/// A reference to a remote file, optionally pinned to a content hash.
#[derive(Debug, Clone, PartialEq, Eq)]
pub struct RemoteFile {
    url: Url,
    hash: Option<String>,
}

impl View for RemoteFile {
    type V = RemoteView;

    closed spec fn view(&self) -> RemoteView {
        RemoteView { url: self.url@, hash: opt_view(self.hash) }
    }
}

/// A text that is not a remote reference.
#[derive(Debug, PartialEq, Eq)]
pub struct UrlParseError {
    pub input: String,
}

fn digit_text(d: u32) -> (r: &'static str)
    requires
        d < 10,
    ensures
        r@ == seq![digit_char(d as nat)],
{
    proof {
        reveal_strlit("0");
        reveal_strlit("1");
        reveal_strlit("2");
        reveal_strlit("3");
        reveal_strlit("4");
        reveal_strlit("5");
        reveal_strlit("6");
        reveal_strlit("7");
        reveal_strlit("8");
        reveal_strlit("9");
    }
    if d == 0 {
        "0"
    } else if d == 1 {
        "1"
    } else if d == 2 {
        "2"
    } else if d == 3 {
        "3"
    } else if d == 4 {
        "4"
    } else if d == 5 {
        "5"
    } else if d == 6 {
        "6"
    } else if d == 7 {
        "7"
    } else if d == 8 {
        "8"
    } else {
        "9"
    }
}

/// The decimal text of `n`.
pub fn decimal_text(n: u32) -> (r: String)
    ensures
        r@ == decimal(n as nat),
    decreases n,
{
    if n < 10 {
        String::from_str(digit_text(n))
    } else {
        let mut s = decimal_text(n / 10);
        s.append(digit_text(n % 10));
        s
    }
}

proof fn lemma_digits_mono(s: Seq<char>, i: int, j: int, k: int)
    requires
        i <= j <= k,
    ensures
        digits_value(s, i, j) <= digits_value(s, i, k),
    decreases k - j,
{
    if j < k {
        lemma_digits_mono(s, i, j, k - 1);
    }
}

fn find_sep(s: &str, n: usize) -> (r: usize)
    requires
        n == s@.len(),
    ensures
        r == sep_at(s@, 0),
        r == n || r + 3 <= n,
{
    let mut i: usize = 0;
    while n >= 3 && i <= n - 3
        invariant
            n == s@.len(),
            i <= n,
            sep_at(s@, 0) == sep_at(s@, i as int),
        decreases n - i,
    {
        if s.get_char(i) == ':' && s.get_char(i + 1) == '/' && s.get_char(i + 2) == '/' {
            return i;
        }
        i = i + 1;
    }
    n
}

fn find_host_end(s: &str, n: usize, start: usize) -> (r: usize)
    requires
        n == s@.len(),
        start <= n,
    ensures
        r == host_end(s@, start as int),
        start <= r <= n,
{
    let mut i: usize = start;
    while i < n
        invariant
            n == s@.len(),
            start <= i <= n,
            host_end(s@, start as int) == host_end(s@, i as int),
        decreases n - i,
    {
        let c = s.get_char(i);
        if c == ':' || c == '/' || c == '#' {
            return i;
        }
        i = i + 1;
    }
    n
}

fn find_digits_end(s: &str, n: usize, start: usize) -> (r: usize)
    requires
        n == s@.len(),
        start <= n,
    ensures
        r == digits_end(s@, start as int),
        start <= r <= n,
        forall|j: int| start <= j < r ==> is_digit(#[trigger] s@[j]),
{
    let mut i: usize = start;
    while i < n
        invariant
            n == s@.len(),
            start <= i <= n,
            digits_end(s@, start as int) == digits_end(s@, i as int),
            forall|j: int| start <= j < i ==> is_digit(#[trigger] s@[j]),
        decreases n - i,
    {
        let c = s.get_char(i);
        if !('0' <= c && c <= '9') {
            return i;
        }
        i = i + 1;
    }
    n
}

fn hash_sep(s: &str, n: usize, i: usize) -> (r: bool)
    requires
        n == s@.len(),
    ensures
        r == hash_sep_at(s@, i as int),
{
    i < n && i + 1 < n && s.get_char(i) == ':' && s.get_char(i + 1) == ':'
}

fn find_path_end(s: &str, n: usize, start: usize) -> (r: usize)
    requires
        n == s@.len(),
        start <= n,
    ensures
        r == path_end(s@, start as int),
        start <= r <= n,
{
    let mut i: usize = start;
    while i < n
        invariant
            n == s@.len(),
            start <= i <= n,
            path_end(s@, start as int) == path_end(s@, i as int),
        decreases n - i,
    {
        let c = s.get_char(i);
        if c == '#' || c == '?' || hash_sep(s, n, i) {
            return i;
        }
        i = i + 1;
    }
    n
}

fn find_fragment_end(s: &str, n: usize, start: usize) -> (r: usize)
    requires
        n == s@.len(),
        start <= n,
    ensures
        r == fragment_end(s@, start as int),
        start <= r <= n,
{
    let mut i: usize = start;
    while i < n
        invariant
            n == s@.len(),
            start <= i <= n,
            fragment_end(s@, start as int) == fragment_end(s@, i as int),
        decreases n - i,
    {
        if hash_sep(s, n, i) {
            return i;
        }
        i = i + 1;
    }
    n
}

/// The number spelled by the digits `s[start..end]`, or `None` above `u32`.
fn digits_number(s: &str, n: usize, start: usize, end: usize) -> (r: Option<u32>)
    requires
        n == s@.len(),
        start <= end <= n,
        forall|j: int| start <= j < end ==> is_digit(#[trigger] s@[j]),
    ensures
        match r {
            Some(v) => v as nat == digits_value(s@, start as int, end as int),
            None => digits_value(s@, start as int, end as int) > u32::MAX,
        },
{
    let mut v: u64 = 0;
    let mut j: usize = start;
    while j < end
        invariant
            n == s@.len(),
            start <= j <= end <= n,
            forall|k: int| start <= k < end ==> is_digit(#[trigger] s@[k]),
            v as nat == digits_value(s@, start as int, j as int),
            v <= u32::MAX,
        decreases end - j,
    {
        let c = s.get_char(j);
        assert(is_digit(s@[j as int]));
        let d = (c as u32 - '0' as u32) as u64;
        v = v * 10 + d;
        j = j + 1;
        if v > 4294967295 {
            proof {
                lemma_digits_mono(s@, start as int, j as int, end as int);
            }
            return None;
        }
    }
    Some(v as u32)
}

fn part(s: &str, from: usize, to: usize) -> (r: String)
    requires
        from <= to <= s@.len(),
    ensures
        r@ == s@.subrange(from as int, to as int),
{
    String::from_str(s.substring_char(from, to))
}

impl RemoteFile {
    /// Parses `scheme://host[:port][/path][#fragment][::hash]`.
    pub fn parse(s: &str) -> (r: Result<RemoteFile, UrlParseError>)
        ensures
            match parse_remote_spec(s@) {
                Some(v) => r matches Ok(f) && f@ == v,
                None => r is Err,
            },
    {
        let n = s.unicode_len();
        let err = UrlParseError { input: String::from_str(s) };
        let a = find_sep(s, n);
        if a == 0 || a >= n {
            return Err(err);
        }
        let hs = a + 3;
        let he = find_host_end(s, n, hs);
        if he == hs {
            return Err(err);
        }
        let has_port = he < n && n - he > 1 && s.get_char(he) == ':' && {
            let c = s.get_char(he + 1);
            '0' <= c && c <= '9'
        };
        let mut port: Option<u32> = None;
        let mut after_port = he;
        if has_port {
            let de = find_digits_end(s, n, he + 1);
            match digits_number(s, n, he + 1, de) {
                Some(v) => {
                    port = Some(v);
                },
                None => {
                    return Err(err);
                },
            }
            after_port = de;
        }
        let has_path = after_port < n && s.get_char(after_port) == '/';
        let mut path: Option<String> = None;
        let mut after_path = after_port;
        if has_path {
            after_path = find_path_end(s, n, after_port);
            path = Some(part(s, after_port, after_path));
        }
        let has_fragment = after_path < n && s.get_char(after_path) == '#';
        let mut fragment: Option<String> = None;
        let mut after_fragment = after_path;
        if has_fragment {
            after_fragment = find_fragment_end(s, n, after_path + 1);
            fragment = Some(part(s, after_path + 1, after_fragment));
        }
        let has_hash = hash_sep(s, n, after_fragment);
        let mut hash: Option<String> = None;
        if has_hash {
            hash = Some(part(s, after_fragment + 2, n));
        } else if after_fragment != n {
            return Err(err);
        }
        let url = Url { scheme: part(s, 0, a), host: part(s, hs, he), port, path, fragment };
        Ok(RemoteFile { url, hash })
    }

    pub fn url(&self) -> (r: &Url)
        ensures
            r@ == self@.url,
    {
        &self.url
    }

    pub fn hash(&self) -> (r: Option<&String>)
        ensures
            match r {
                Some(h) => self@.hash == Some(h@),
                None => self@.hash is None,
            },
    {
        self.hash.as_ref()
    }
}

fn last_component_of(s: &str) -> (r: String)
    ensures
        r@ == last_component(s@),
{
    let n = s.unicode_len();
    let mut i: usize = n;
    let mut found = false;
    while i > 0 && !found
        invariant
            i <= n,
            n == s@.len(),
            forall|j: int| i <= j < n ==> s@[j] != '/',
            found ==> i > 0 && s@[i - 1] == '/',
        decreases 2 * i + if found {
            0int
        } else {
            1int
        },
    {
        if s.get_char(i - 1) == '/' {
            found = true;
        } else {
            i = i - 1;
        }
    }
    proof {
        lemma_last_component(s@, i as int);
    }
    part(s, i, n)
}

proof fn lemma_last_component(s: Seq<char>, i: int)
    requires
        0 <= i <= s.len(),
        forall|j: int| i <= j < s.len() ==> s[j] != '/',
        i == 0 || s[i - 1] == '/',
    ensures
        last_component(s) == s.subrange(i, s.len() as int),
    decreases s.len(),
{
    if s.len() == 0 {
    } else if i == s.len() {
        assert(s.subrange(i, s.len() as int) =~= Seq::<char>::empty());
    } else {
        let t = s.drop_last();
        lemma_last_component(t, i);
        assert(s.subrange(i, s.len() as int) =~= t.subrange(i, t.len() as int).push(s.last()));
    }
}

/// A remote reference as text: the URL, then `::` and the pinned hash if any.
pub open spec fn remote_text(v: RemoteView) -> Seq<char> {
    url_text(v.url) + match v.hash {
        Some(h) => "::"@ + h,
        None => Seq::empty(),
    }
}

impl RemoteFile {
    /// The reference as text, in the form that `parse` reads.
    pub fn to_text(&self) -> (r: String)
        ensures
            r@ == remote_text(self@),
    {
        let mut s = self.url.to_text();
        let ghost head = s@;
        match &self.hash {
            Some(h) => {
                s.append("::");
                s.append(h.as_str());
            },
            None => {
                assert(s@ =~= head + Seq::<char>::empty());
            },
        }
        s
    }
}

impl Url {
    pub fn scheme(&self) -> (r: &String)
        ensures
            r@ == self@.scheme,
    {
        &self.scheme
    }

    pub fn host(&self) -> (r: &String)
        ensures
            r@ == self@.host,
    {
        &self.host
    }

    pub fn port(&self) -> (r: Option<u32>)
        ensures
            r == self@.port,
    {
        self.port
    }

    pub fn path(&self) -> (r: Option<&String>)
        ensures
            match r {
                Some(p) => self@.path == Some(p@),
                None => self@.path is None,
            },
    {
        self.path.as_ref()
    }

    pub fn fragment(&self) -> (r: Option<&String>)
        ensures
            match r {
                Some(f) => self@.fragment == Some(f@),
                None => self@.fragment is None,
            },
    {
        self.fragment.as_ref()
    }

    /// The resource's display name: the last segment of the path, or the host
    /// when there is no path.
    pub fn name(&self) -> (r: String)
        ensures
            r@ == match self@.path {
                Some(p) => last_component(p),
                None => self@.host,
            },
    {
        match &self.path {
            Some(p) => last_component_of(p.as_str()),
            None => self.host.clone(),
        }
    }

    /// The URL as text, without the pinned hash.
    pub fn to_text(&self) -> (r: String)
        ensures
            r@ == url_text(self@),
    {
        let mut s = self.scheme.clone();
        s.append("://");
        s.append(self.host.as_str());
        let ghost head = s@;
        match self.port {
            Some(p) => {
                s.append(":");
                let d = decimal_text(p);
                s.append(d.as_str());
                proof {
                    reveal_strlit(":");
                }
                assert(s@ =~= head + seq![':'] + decimal(p as nat));
            },
            None => {
                assert(s@ =~= head + Seq::<char>::empty());
            },
        }
        let ghost head2 = s@;
        match &self.path {
            Some(p) => {
                s.append(p.as_str());
            },
            None => {
                assert(s@ =~= head2 + Seq::<char>::empty());
            },
        }
        let ghost head3 = s@;
        match &self.fragment {
            Some(f) => {
                s.append("#");
                s.append(f.as_str());
                proof {
                    reveal_strlit("#");
                }
                assert(s@ =~= head3 + seq!['#'] + f@);
            },
            None => {
                assert(s@ =~= head3 + Seq::<char>::empty());
            },
        }
        assert(s@ =~= url_text(self@));
        s
    }
}

} // verus!
