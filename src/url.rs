use vstd::prelude::*;
use vstd::string::{StrSliceExecFns, StringExecFns};

verus! {

/// The scheme marker that an `http` URL carries.
pub open spec fn scheme_marker() -> Seq<char> {
    seq!['h', 't', 't', 'p', ':', '/', '/']
}

/// Whether `pat` occurs in `s` starting at position `i`.
pub open spec fn occurs_at(s: Seq<char>, pat: Seq<char>, i: int) -> bool {
    0 <= i && i + pat.len() <= s.len() && s.subrange(i, i + pat.len()) == pat
}

/// Whether `pat` occurs anywhere in `s`.
pub open spec fn contains_seq(s: Seq<char>, pat: Seq<char>) -> bool {
    exists|i: int| occurs_at(s, pat, i)
}

/// `s` with every leading repetition of the scheme marker removed.
pub open spec fn trim_scheme(s: Seq<char>) -> Seq<char>
    decreases s.len(),
{
    if s.len() >= 7 && s.subrange(0, 7) == scheme_marker() {
        trim_scheme(s.subrange(7, s.len() as int))
    } else {
        s
    }
}

/// Position of the first `c` in `s`, or the length of `s` where there is none.
pub open spec fn first_index(s: Seq<char>, c: char) -> int
    decreases s.len(),
{
    if s.len() == 0 || s[0] == c {
        0
    } else {
        1 + first_index(s.drop_first(), c)
    }
}

/// The text of `s` before its first `c` (all of `s` where there is none).
pub open spec fn before(s: Seq<char>, c: char) -> Seq<char> {
    s.take(first_index(s, c))
}

/// The text of `s` after its first `c`.
pub open spec fn after(s: Seq<char>, c: char) -> Seq<char> {
    s.skip(first_index(s, c) + 1)
}

/// What follows the scheme marker, up to the first `/`, without a query.
pub open spec fn host_and_port_of(raw: Seq<char>) -> Seq<char> {
    before(before(trim_scheme(raw), '/'), '?')
}

/// The host: the host-and-port text up to its first `:`.
pub open spec fn host_of(raw: Seq<char>) -> Seq<char> {
    before(host_and_port_of(raw), ':')
}

/// The port of a URL that names none.
pub open spec fn default_port() -> Seq<char> {
    seq!['8', '0']
}

/// The port: the host-and-port text after its first `:`, or the default.
pub open spec fn port_of(raw: Seq<char>) -> Seq<char> {
    if host_and_port_of(raw).contains(':') {
        after(host_and_port_of(raw), ':')
    } else {
        default_port()
    }
}

/// The path: after the first `/` that follows the scheme marker, up to the
/// next `?`; empty where there is no `/`.
pub open spec fn path_of(raw: Seq<char>) -> Seq<char> {
    let rest = trim_scheme(raw);
    if rest.contains('/') {
        before(after(rest, '/'), '?')
    } else {
        Seq::empty()
    }
}

/// The searchpart: after the first `?` of the text behind the first `/`, or,
/// where there is no `/`, after the first `?` of the host block.
pub open spec fn searchpart_of(raw: Seq<char>) -> Seq<char> {
    let rest = trim_scheme(raw);
    if rest.contains('/') {
        let tail = after(rest, '/');
        if tail.contains('?') {
            after(tail, '?')
        } else {
            Seq::empty()
        }
    } else if rest.contains('?') {
        after(rest, '?')
    } else {
        Seq::empty()
    }
}

proof fn lemma_first_index(s: Seq<char>, c: char, i: int)
    requires
        0 <= i <= s.len(),
        forall|j: int| 0 <= j < i ==> s[j] != c,
        i == s.len() || s[i] == c,
    ensures
        first_index(s, c) == i,
        s.contains(c) == (i < s.len()),
    decreases i,
{
    if i > 0 {
        lemma_first_index(s.drop_first(), c, i - 1);
    }
    if i < s.len() {
        assert(s[i] == c);
    }
}

/// Position of the first `c` in `s`, or the length of `s` where there is none.
fn find_char(s: &str, c: char) -> (r: usize)
    ensures
        r == first_index(s@, c),
        r <= s@.len(),
        s@.contains(c) == (r < s@.len()),
{
    let n = s.unicode_len();
    let mut i: usize = 0;
    while i < n
        invariant
            i <= n,
            n == s@.len(),
            forall|j: int| 0 <= j < i ==> s@[j] != c,
        decreases n - i,
    {
        if s.get_char(i) == c {
            proof {
                lemma_first_index(s@, c, i as int);
            }
            return i;
        }
        i += 1;
    }
    proof {
        lemma_first_index(s@, c, n as int);
    }
    n
}

fn text_before(s: &str, c: char) -> (r: &str)
    ensures
        r@ == before(s@, c),
{
    let i = find_char(s, c);
    s.substring_char(0, i)
}

/// The text after the first `c`; `None` where `s` holds no `c`.
fn text_after(s: &str, c: char) -> (r: Option<&str>)
    ensures
        r is Some == s@.contains(c),
        r matches Some(t) ==> t@ == after(s@, c),
{
    let i = find_char(s, c);
    let n = s.unicode_len();
    if i < n {
        Some(s.substring_char(i + 1, n))
    } else {
        None
    }
}

/// Whether `pat` occurs in `s` starting at position `i`.
fn occurs_at_exec(s: &str, pat: &str, i: usize) -> (r: bool)
    requires
        i <= s@.len(),
    ensures
        r == occurs_at(s@, pat@, i as int),
{
    let n = s.unicode_len();
    let m = pat.unicode_len();
    if m > n - i {
        return false;
    }
    let mut k: usize = 0;
    while k < m
        invariant
            k <= m,
            m == pat@.len(),
            n == s@.len(),
            i + m <= n,
            forall|j: int| 0 <= j < k ==> s@[i + j] == pat@[j],
        decreases m - k,
    {
        if s.get_char(i + k) != pat.get_char(k) {
            proof {
                assert(s@.subrange(i as int, i + m)[k as int] != pat@[k as int]);
            }
            return false;
        }
        k += 1;
    }
    proof {
        assert(s@.subrange(i as int, i + m) =~= pat@);
    }
    true
}

fn starts_with_scheme(s: &str) -> (r: bool)
    ensures
        r == (s@.len() >= 7 && s@.subrange(0, 7) == scheme_marker()),
{
    proof {
        reveal_strlit("http://");
        assert("http://"@ =~= scheme_marker());
    }
    occurs_at_exec(s, "http://", 0)
}

/// `s` with every leading repetition of the scheme marker removed.
fn strip_scheme(s: &str) -> (r: &str)
    ensures
        r@ == trim_scheme(s@),
{
    let mut rest = s;
    while starts_with_scheme(rest)
        invariant
            trim_scheme(rest@) == trim_scheme(s@),
        decreases rest@.len(),
    {
        let n = rest.unicode_len();
        rest = rest.substring_char(7, n);
    }
    rest
}

/// A URL string together with the parts that `parse` derives from it.
#[derive(Debug, Clone, PartialEq)]
pub struct Url {
    url: String,
    host: String,
    port: String,
    path: String,
    searchpart: String,
}

/// The fields of a `Url` as character sequences.
pub struct UrlView {
    pub raw: Seq<char>,
    pub host: Seq<char>,
    pub port: Seq<char>,
    pub path: Seq<char>,
    pub searchpart: Seq<char>,
}

impl View for Url {
    type V = UrlView;

    closed spec fn view(&self) -> UrlView {
        UrlView {
            raw: self.url@,
            host: self.host@,
            port: self.port@,
            path: self.path@,
            searchpart: self.searchpart@,
        }
    }
}

/// The value that parsing `raw` yields when `raw` is accepted.
pub open spec fn parsed(raw: Seq<char>) -> UrlView {
    UrlView {
        raw,
        host: host_of(raw),
        port: port_of(raw),
        path: path_of(raw),
        searchpart: searchpart_of(raw),
    }
}

/// Whether `raw` is accepted as an `http` URL.
pub open spec fn is_http_url(raw: Seq<char>) -> bool {
    contains_seq(raw, scheme_marker())
}

/// The message with which a URL without the scheme marker is rejected.
pub open spec fn scheme_error() -> Seq<char> {
    "Only HTTP scheme is supported."@
}

/// What parsing `raw` yields: the parsed fields, or the message of the rejection.
pub open spec fn parse_result(raw: Seq<char>) -> Result<UrlView, Seq<char>> {
    if is_http_url(raw) {
        Ok(parsed(raw))
    } else {
        Err(scheme_error())
    }
}

/// The view of the value that `Url::parse` returns.
pub open spec fn result_view(r: Result<Url, String>) -> Result<UrlView, Seq<char>> {
    match r {
        Ok(u) => Ok(u@),
        Err(e) => Err(e@),
    }
}

/// Parsing is idempotent: a parsed value carries the raw text it came from,
/// and parsing that text again yields the same fields.
pub proof fn lemma_parse_idempotent(raw: Seq<char>)
    ensures
        parse_result(raw) matches Ok(v) ==> v.raw == raw && parse_result(v.raw) == Ok::<
            UrlView,
            Seq<char>,
        >(v),
{
}

impl Url {
    /// An unparsed URL: `raw` is kept, the derived fields are empty.
    pub fn new(url: String) -> (r: Url)
        ensures
            r@.raw == url@,
            r@.host.len() == 0,
            r@.port.len() == 0,
            r@.path.len() == 0,
            r@.searchpart.len() == 0,
    {
        Url {
            url,
            host: String::new(),
            port: String::new(),
            path: String::new(),
            searchpart: String::new(),
        }
    }

    /// Parses the raw URL. On success the derived fields are filled in and a
    /// copy is returned; on rejection nothing changes.
    pub fn parse(&mut self) -> (r: Result<Url, String>)
        ensures
            result_view(r) == parse_result(old(self)@.raw),
            final(self)@.raw == old(self)@.raw,
            (r is Ok) == is_http_url(old(self)@.raw),
            r matches Ok(u) ==> final(self)@ == u@ && u@ == parsed(old(self)@.raw),
            r matches Err(e) ==> final(self)@ == old(self)@ && e@ == scheme_error(),
    {
        if !self.is_http() {
            return Err(String::from_str("Only HTTP scheme is supported."));
        }
        self.host = self.extract_host();
        self.port = self.extract_port();
        self.path = self.extract_path();
        self.searchpart = self.extract_searchpart();
        Ok(Url {
            url: self.url.clone(),
            host: self.host.clone(),
            port: self.port.clone(),
            path: self.path.clone(),
            searchpart: self.searchpart.clone(),
        })
    }

    /// The raw text the URL was made from.
    pub fn raw(&self) -> (r: String)
        ensures
            r@ == self@.raw,
    {
        self.url.clone()
    }

    pub fn host(&self) -> (r: String)
        ensures
            r@ == self@.host,
    {
        self.host.clone()
    }

    pub fn port(&self) -> (r: String)
        ensures
            r@ == self@.port,
    {
        self.port.clone()
    }

    pub fn path(&self) -> (r: String)
        ensures
            r@ == self@.path,
    {
        self.path.clone()
    }

    pub fn searchpart(&self) -> (r: String)
        ensures
            r@ == self@.searchpart,
    {
        self.searchpart.clone()
    }

    /// Whether the scheme marker occurs anywhere in the raw text. This is a
    /// substring test, not a prefix test: `xhttp://a` is accepted as well.
    pub fn is_http(&self) -> (r: bool)
        ensures
            r == is_http_url(self@.raw),
    {
        let s = self.url.as_str();
        let n = s.unicode_len();
        let mut i: usize = 0;
        proof {
            reveal_strlit("http://");
            assert("http://"@ =~= scheme_marker());
        }
        while i < n
            invariant
                i <= n,
                n == s@.len(),
                s@ == self@.raw,
                "http://"@ == scheme_marker(),
                forall|j: int| 0 <= j < i ==> !occurs_at(s@, scheme_marker(), j),
            decreases n - i,
        {
            if occurs_at_exec(s, "http://", i) {
                return true;
            }
            i += 1;
        }
        if occurs_at_exec(s, "http://", n) {
            return true;
        }
        proof {
            assert forall|j: int| !occurs_at(s@, scheme_marker(), j) by {
                if 0 <= j && j < n {
                    assert(!occurs_at(s@, scheme_marker(), j));
                }
            }
        }
        false
    }

    /// The host: the text after the scheme marker, up to the first `/`, `?`
    /// or `:`.
    pub fn extract_host(&self) -> (r: String)
        ensures
            r@ == host_of(self@.raw),
    {
        let rest = strip_scheme(self.url.as_str());
        let block = text_before(rest, '/');
        let host_and_port = text_before(block, '?');
        String::from_str(text_before(host_and_port, ':'))
    }

    /// The port: the text after the first `:` of the host block, `80` where
    /// it has none.
    pub fn extract_port(&self) -> (r: String)
        ensures
            r@ == port_of(self@.raw),
    {
        let rest = strip_scheme(self.url.as_str());
        let block = text_before(rest, '/');
        let host_and_port = text_before(block, '?');
        match text_after(host_and_port, ':') {
            Some(port) => String::from_str(port),
            None => {
                proof {
                    reveal_strlit("80");
                    assert("80"@ =~= default_port());
                }
                String::from_str("80")
            },
        }
    }

    /// The path: between the first `/` after the host and the next `?`,
    /// without its leading `/`.
    pub fn extract_path(&self) -> (r: String)
        ensures
            r@ == path_of(self@.raw),
    {
        let rest = strip_scheme(self.url.as_str());
        match text_after(rest, '/') {
            Some(tail) => String::from_str(text_before(tail, '?')),
            None => String::new(),
        }
    }

    /// The searchpart: the text after the first `?` that follows the host
    /// block, or within the host block where no `/` follows it.
    pub fn extract_searchpart(&self) -> (r: String)
        ensures
            r@ == searchpart_of(self@.raw),
    {
        let rest = strip_scheme(self.url.as_str());
        match text_after(rest, '/') {
            Some(tail) => match text_after(tail, '?') {
                Some(query) => String::from_str(query),
                None => String::new(),
            },
            None => match text_after(rest, '?') {
                Some(query) => String::from_str(query),
                None => String::new(),
            },
        }
    }
}

} // verus!
