//! Text handling for the checker: trimming input lines, building the two
//! candidate URLs of a domain, and extracting the bare host from a URL.

use vstd::prelude::*;
use vstd::string::StrSliceExecFns;
use vstd::string::StringExecFns;

verus! {

/// The characters removed when an input line is trimmed: the Unicode
/// white-space set.
pub open spec fn is_space_char(c: char) -> bool {
    let u = c as u32;
    u == 0x20 || (0x09 <= u && u <= 0x0d) || u == 0x85 || u == 0xa0 || u == 0x1680 || (0x2000
        <= u && u <= 0x200a) || u == 0x2028 || u == 0x2029 || u == 0x202f || u == 0x205f || u
        == 0x3000
}

/// Whether one character counts as whitespace for trimming.
pub fn is_space(c: char) -> (r: bool)
    ensures
        r == is_space_char(c),
{
    let u = c as u32;
    u == 0x20 || (0x09 <= u && u <= 0x0d) || u == 0x85 || u == 0xa0 || u == 0x1680 || (0x2000
        <= u && u <= 0x200a) || u == 0x2028 || u == 0x2029 || u == 0x202f || u == 0x205f || u
        == 0x3000
}

/// A line with its leading whitespace removed.
pub open spec fn trim_start_spec(s: Seq<char>) -> Seq<char>
    decreases s.len(),
{
    if s.len() > 0 && is_space_char(s[0]) {
        trim_start_spec(s.skip(1))
    } else {
        s
    }
}

/// A line with its trailing whitespace removed.
pub open spec fn trim_end_spec(s: Seq<char>) -> Seq<char>
    decreases s.len(),
{
    if s.len() > 0 && is_space_char(s[s.len() - 1]) {
        trim_end_spec(s.take(s.len() - 1))
    } else {
        s
    }
}

/// A line with surrounding whitespace removed.
pub open spec fn trim_spec(s: Seq<char>) -> Seq<char> {
    trim_end_spec(trim_start_spec(s))
}

/// Removes leading and trailing whitespace from a line.
pub fn trim(s: &str) -> (r: &str)
    ensures
        r@ == trim_spec(s@),
{
    let len = s.unicode_len();
    let mut i: usize = 0;
    proof {
        assert(s@.skip(0) =~= s@);
    }
    while i < len && is_space(s.get_char(i))
        invariant
            0 <= i <= len,
            len == s@.len(),
            trim_start_spec(s@) == trim_start_spec(s@.skip(i as int)),
        decreases len - i,
    {
        proof {
            let t = s@.skip(i as int);
            assert(t[0] == s@[i as int]);
            assert(t.skip(1) =~= s@.skip(i as int + 1));
        }
        i = i + 1;
    }
    let mut j: usize = len;
    while j > i && is_space(s.get_char(j - 1))
        invariant
            i <= j <= len,
            len == s@.len(),
            i < len ==> !is_space_char(s@[i as int]),
            i < len ==> i < j,
            trim_end_spec(s@.subrange(i as int, len as int)) == trim_end_spec(
                s@.subrange(i as int, j as int),
            ),
        decreases j,
    {
        proof {
            let t = s@.subrange(i as int, j as int);
            assert(t[t.len() - 1] == s@[j - 1]);
            assert(t.take(t.len() - 1) =~= s@.subrange(i as int, j - 1));
        }
        j = j - 1;
    }
    let r = s.substring_char(i, j);
    proof {
        if i == len {
            assert(s@.skip(i as int) =~= Seq::<char>::empty());
            assert(r@ =~= trim_spec(s@));
        } else {
            assert(s@.skip(i as int) =~= s@.subrange(i as int, len as int));
            let t = s@.subrange(i as int, j as int);
            assert(!is_space_char(s@[i as int]));
            assert(t.len() > 0 && t[0] == s@[i as int]);
            assert(trim_start_spec(s@.subrange(i as int, len as int)) == s@.subrange(
                i as int,
                len as int,
            ));
            assert(!is_space_char(t[t.len() - 1]));
            assert(trim_end_spec(t) == t);
        }
    }
    r
}

/// Trims an input line; a line that is blank after trimming yields nothing
/// and must never produce a verdict.
pub fn prepare_line(line: &str) -> (r: Option<String>)
    ensures
        r matches Some(d) ==> d@ == trim_spec(line@) && trim_spec(line@).len() > 0,
        r is None ==> trim_spec(line@).len() == 0,
{
    let t = trim(line);
    if t.unicode_len() == 0 {
        None
    } else {
        Some(String::from_str(t))
    }
}

/// The HTTP candidate URL for a domain.
pub open spec fn http_url_spec(domain: Seq<char>) -> Seq<char> {
    "http://"@ + domain
}

/// The HTTPS candidate URL for a domain.
pub open spec fn https_url_spec(domain: Seq<char>) -> Seq<char> {
    "https://"@ + domain
}

/// Builds the HTTP candidate URL for a domain.
pub fn http_url(domain: &str) -> (u: String)
    ensures
        u@ == http_url_spec(domain@),
{
    String::from_str("http://").concat(domain)
}

/// Builds the HTTPS candidate URL for a domain.
pub fn https_url(domain: &str) -> (u: String)
    ensures
        u@ == https_url_spec(domain@),
{
    String::from_str("https://").concat(domain)
}

/// Index of the first '/' in a line of text, or its length when none occurs.
pub open spec fn pre_slash_len(s: Seq<char>) -> int
    decreases s.len(),
{
    if s.len() == 0 {
        0
    } else if s[0] == '/' {
        0
    } else {
        1 + pre_slash_len(s.skip(1))
    }
}

/// The text before the first '/', or the whole text when none occurs.
pub open spec fn before_slash(s: Seq<char>) -> Seq<char> {
    s.take(pre_slash_len(s))
}

proof fn lemma_pre_slash_at(s: Seq<char>, k: int)
    requires
        0 <= k <= s.len(),
        forall|m: int| 0 <= m < k ==> s[m] != '/',
        k < s.len() ==> s[k] == '/',
    ensures
        pre_slash_len(s) == k,
    decreases k,
{
    if k > 0 {
        assert(s[0] != '/');
        let t = s.skip(1);
        assert(forall|m: int| 0 <= m < k - 1 ==> t[m] == s[m + 1] && t[m] != '/');
        assert(k - 1 < t.len() ==> t[k - 1] == s[k]);
        lemma_pre_slash_at(t, k - 1);
    }
}

/// A URL with a leading "http://" or "https://" scheme removed; text
/// without such a scheme is kept whole as a defensive fallback.
pub open spec fn scheme_stripped(u: Seq<char>) -> Seq<char> {
    if u.len() >= 8 && u.subrange(0, 8) == "https://"@ {
        u.skip(8)
    } else if u.len() >= 7 && u.subrange(0, 7) == "http://"@ {
        u.skip(7)
    } else {
        u
    }
}

/// The bare host recorded for a live URL: the text after a leading scheme,
/// up to but not including the first '/'.
pub open spec fn host_of(u: Seq<char>) -> Seq<char> {
    before_slash(scheme_stripped(u))
}

/// Building a candidate URL and extracting its host undo one another: the
/// bare host of either candidate URL of a domain is the domain itself, up
/// to but not including its first '/'.
pub proof fn lemma_host_of_candidate_urls(domain: Seq<char>)
    ensures
        host_of(http_url_spec(domain)) == before_slash(domain),
        host_of(https_url_spec(domain)) == before_slash(domain),
{
    reveal_strlit("http://");
    reveal_strlit("https://");
    let h = http_url_spec(domain);
    let hs = https_url_spec(domain);
    assert(hs.subrange(0, 8) =~= "https://"@);
    assert(hs.skip(8) =~= domain);
    if h.len() >= 8 {
        assert(h.subrange(0, 8)[4] == ':');
    }
    assert(h.subrange(0, 7) =~= "http://"@);
    assert(h.skip(7) =~= domain);
}

/// A domain that holds no '/' is recorded whole.
pub proof fn lemma_before_slash_whole(s: Seq<char>)
    requires
        forall|k: int| 0 <= k < s.len() ==> s[k] != '/',
    ensures
        before_slash(s) == s,
{
    lemma_pre_slash_at(s, s.len() as int);
    assert(s.take(s.len() as int) =~= s);
}

/// Whether `s` starts with the prefix `p`.
pub fn has_prefix(s: &str, p: &str) -> (r: bool)
    ensures
        r == (s@.len() >= p@.len() && s@.subrange(0, p@.len() as int) == p@),
{
    let plen = p.unicode_len();
    let slen = s.unicode_len();
    if slen < plen {
        return false;
    }
    let mut k: usize = 0;
    while k < plen
        invariant
            0 <= k <= plen,
            plen == p@.len(),
            slen == s@.len(),
            plen <= slen,
            forall|m: int| 0 <= m < k ==> s@[m] == p@[m],
        decreases plen - k,
    {
        if s.get_char(k) != p.get_char(k) {
            proof {
                assert(s@.subrange(0, plen as int)[k as int] == s@[k as int]);
            }
            return false;
        }
        k = k + 1;
    }
    proof {
        assert(s@.subrange(0, plen as int) =~= p@);
    }
    true
}

/// Extracts the bare host from a URL: strips a leading "http://" or
/// "https://" scheme, then keeps the text before the first '/'; text
/// without such a scheme is kept whole, up to the first '/'.
pub fn extract_domain(url: &str) -> (host: String)
    ensures
        host@ == host_of(url@),
{
    let len = url.unicode_len();
    let offset: usize = if has_prefix(url, "https://") {
        8
    } else if has_prefix(url, "http://") {
        7
    } else {
        0
    };
    proof {
        reveal_strlit("https://");
        reveal_strlit("http://");
        assert(url@.skip(offset as int) =~= url@.subrange(offset as int, len as int));
    }
    let rest = url.substring_char(offset, len);
    let rlen = len - offset;
    let mut k: usize = 0;
    while k < rlen && rest.get_char(k) != '/'
        invariant
            0 <= k <= rlen,
            rlen == rest@.len(),
            forall|m: int| 0 <= m < k ==> rest@[m] != '/',
        decreases rlen - k,
    {
        k = k + 1;
    }
    let host = rest.substring_char(0, k);
    proof {
        lemma_pre_slash_at(rest@, k as int);
        assert(host@ =~= before_slash(rest@));
        assert(rest@ == scheme_stripped(url@));
    }
    String::from_str(host)
}

} // verus!
