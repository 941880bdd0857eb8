use vstd::prelude::*;
use crate::model::{XzmuError, Fault, option_view, result_view};

verus! {

/// The portal host that answers the redirect probe.
pub const PORTAL_PROBE_URL: &'static str = "http://10.10.0.163/";

/// The login page of the gateway, used to test that it can be reached.
pub const GATEWAY_PROBE_URL: &'static str = "http://120.95.80.23:8080/Self/login/";

/// A public site, used to test that the open internet can be reached.
pub const INTERNET_PROBE_URL: &'static str = "http://www.163.com/";

/// The browser identity that the portal expects of its clients.
pub const BROWSER_USER_AGENT: &'static str = "Mozilla/5.0 (Windows NT 10.0; Win64; x64) AppleWebKit/537.36 (KHTML, like Gecko) Chrome/58.0.3029.110 Safari/537.36";

/// Time limit of the redirect probe and of the login request, in milliseconds.
pub const REQUEST_TIMEOUT_MS: u64 = 2000;

/// Time limit of the two reachability probes, in milliseconds.
pub const REACHABILITY_TIMEOUT_MS: u64 = 1000;

/// Text that a probe page holds only when the portal has captured the client.
pub const CAPTIVE_MARKER: &'static str = "http://10.1.0.212?wlanusermac=";

/// The script assignment that carries the portal's redirect target.
pub const REDIRECT_PATTERN: &'static str = r#"location\.href="(.*?)""#;

/// The text that opens the redirect assignment that `REDIRECT_PATTERN` matches.
pub const HREF_OPEN: &'static str = "location.href=\"";

/// Text that shows a page to have been answered by the portal itself.
pub const INTERCEPT_MARKER: &'static str = "http://10.1.0.212";

/// `pat` occurs in `s` as a contiguous run.
pub open spec fn has_substring(s: Seq<char>, pat: Seq<char>) -> bool {
    exists|i: int| 0 <= i <= s.len() - pat.len() && #[trigger] s.subrange(i, i + pat.len()) == pat
}

/// The text of the first capture group of the leftmost-first match of the
/// regular expression `pattern` in `haystack`; none where the expression does
/// not compile, does not match, or its group takes no part in the match.
pub uninterp spec fn regex_first_group(pattern: Seq<char>, haystack: Seq<char>) -> Option<Seq<char>>;

/// The index of the first `"` at or after `k`, where no line break comes
/// before it.
pub open spec fn closing_quote(text: Seq<char>, k: int) -> Option<int>
    decreases text.len() - k,
{
    if k < 0 || k >= text.len() {
        None
    } else if text[k] == '"' {
        Some(k)
    } else if text[k] == '\n' {
        None
    } else {
        closing_quote(text, k + 1)
    }
}

/// The value of the first `location.href="..."` assignment that starts at or
/// after `i` and closes on its line: what `REDIRECT_PATTERN` captures, its
/// lazy group stopping at the first quote and its `.` never taking a line break.
pub open spec fn first_redirect_from(text: Seq<char>, i: int) -> Option<Seq<char>>
    decreases text.len() - i,
{
    if i < 0 || i >= text.len() {
        None
    } else {
        let start = i + HREF_OPEN@.len();
        if start <= text.len() && text.subrange(i, start) == HREF_OPEN@ && closing_quote(
            text,
            start,
        ) is Some {
            Some(text.subrange(start, closing_quote(text, start)->0))
        } else {
            first_redirect_from(text, i + 1)
        }
    }
}

/// The characters of `s`, in order.
fn chars_of(s: &str) -> (r: Vec<char>)
    ensures
        r@ == s@,
{
    broadcast use vstd::string::group_string_axioms;

    let mut v: Vec<char> = Vec::new();
    for c in it: s.chars()
        invariant
            it.seq() == s@,
            v@ == it.seq().take(it.index() as int),
    {
        v.push(c);
    }
    v
}

/// Whether `pat` occurs in `s` as a contiguous run of characters.
fn str_contains(s: &str, pat: &str) -> (r: bool)
    ensures
        r == has_substring(s@, pat@),
{
    let hay = chars_of(s);
    let needle = chars_of(pat);
    let n = hay.len();
    let m = needle.len();
    if m > n {
        return false;
    }
    let mut i: usize = 0;
    while i <= n - m
        invariant
            hay@ == s@,
            needle@ == pat@,
            n == hay.len(),
            m == needle.len(),
            m <= n,
            i <= n - m + 1,
            forall|k: int| 0 <= k < i ==> #[trigger] hay@.subrange(k, k + m) != needle@,
        decreases n - m + 1 - i,
    {
        let mut j: usize = 0;
        while j < m && hay[i + j] == needle[j]
            invariant
                hay@ == s@,
                needle@ == pat@,
                n == hay.len(),
                m == needle.len(),
                i + m <= n,
                j <= m,
                forall|q: int| 0 <= q < j ==> hay@[i + q] == needle@[q],
            decreases m - j,
        {
            j = j + 1;
        }
        if j == m {
            assert(hay@.subrange(i as int, i + m) =~= needle@);
            return true;
        }
        assert(hay@.subrange(i as int, i + m)[j as int] != needle@[j as int]);
        i = i + 1;
    }
    false
}

/// Relies on `regex::Regex::new` to compile the expression and on
/// `regex::Regex::captures` for its leftmost-first match, of which the first
/// group's text is returned. For the library's own pattern that text is the
/// value of the leftmost assignment that matches.
#[verifier::external_body]
fn regex_capture(pattern: &str, haystack: &str) -> (r: Option<String>)
    ensures
        option_view(r) == regex_first_group(pattern@, haystack@),
        pattern@ == REDIRECT_PATTERN@ ==> option_view(r) == first_redirect_from(haystack@, 0),
{
    regex::Regex::new(pattern).ok().and_then(|re| re.captures(haystack)).and_then(
        |c| c.get(1),
    ).map(|m| m.as_str().to_string())
}

/// The redirect target that a probe page carries, or why there is none.
pub open spec fn redirect_target(body: Seq<char>) -> Result<Seq<char>, Fault> {
    if !has_substring(body, CAPTIVE_MARKER@) {
        Err(Fault::NotCaptive)
    } else {
        match first_redirect_from(body, 0) {
            Some(url) => Ok(url),
            None => Err(Fault::RedirectNotFound),
        }
    }
}

/// Finds the portal's redirect target in the body of the probe page.
pub fn extract_login_url(body: &str) -> (r: Result<String, XzmuError>)
    ensures
        result_view(r) == redirect_target(body@),
{
    if !str_contains(body, CAPTIVE_MARKER) {
        return Err(XzmuError::NotCaptive);
    }
    match regex_capture(REDIRECT_PATTERN, body) {
        Some(url) => Ok(url),
        None => Err(XzmuError::RedirectNotFound),
    }
}

/// Judges the internet probe: `body` is the page that came back, or none
/// where the request failed. The internet is open when a page came back that
/// the portal did not answer.
pub fn internet_reachable(body: Option<&str>) -> (r: bool)
    ensures
        r == (body matches Some(b) && !has_substring(b@, INTERCEPT_MARKER@)),
{
    match body {
        Some(b) => !str_contains(b, INTERCEPT_MARKER),
        None => false,
    }
}

/// A probe page without the captive marker means the client is not captured;
/// one with the marker but no redirect assignment means the redirect is not found.
pub proof fn lemma_probe_page_faults(body: Seq<char>)
    ensures
        !has_substring(body, CAPTIVE_MARKER@) ==> redirect_target(body) == Err::<Seq<char>, Fault>(
            Fault::NotCaptive,
        ),
        has_substring(body, CAPTIVE_MARKER@) && first_redirect_from(body, 0) is None
            ==> redirect_target(body) == Err::<Seq<char>, Fault>(Fault::RedirectNotFound),
{
}

proof fn lemma_closing_quote(text: Seq<char>, k: int, end: int)
    requires
        0 <= k <= end < text.len(),
        text[end] == '"',
        forall|m: int| k <= m < end ==> text[m] != '"' && text[m] != '\n',
    ensures
        closing_quote(text, k) == Some(end),
    decreases end - k,
{
    if k < end {
        lemma_closing_quote(text, k + 1, end);
    }
}

proof fn lemma_first_redirect_from(text: Seq<char>, j: int, i: int, u: Seq<char>)
    requires
        0 <= j <= i,
        i + HREF_OPEN@.len() + u.len() < text.len(),
        text.subrange(i, i + HREF_OPEN@.len()) == HREF_OPEN@,
        text.subrange(i + HREF_OPEN@.len(), i + HREF_OPEN@.len() + u.len()) == u,
        text[i + HREF_OPEN@.len() + u.len()] == '"',
        forall|k: int| 0 <= k < u.len() ==> u[k] != '"' && u[k] != '\n',
        forall|m: int|
            0 <= m < i && m + HREF_OPEN@.len() <= text.len() ==> #[trigger] text.subrange(
                m,
                m + HREF_OPEN@.len(),
            ) != HREF_OPEN@,
    ensures
        first_redirect_from(text, j) == Some(u),
    decreases i - j,
{
    let start = i + HREF_OPEN@.len();
    if j == i {
        assert forall|m: int| start <= m < start + u.len() implies text[m] != '"' && text[m] != '\n' by {
            assert(text[m] == text.subrange(start, start + u.len())[m - start]);
        }
        lemma_closing_quote(text, start, start + u.len());
    } else {
        lemma_first_redirect_from(text, j + 1, i, u);
    }
}

/// A probe page that holds the captive marker, and whose first
/// `location.href="` is followed by `u` and a closing quote on the same
/// line, has `u` as its redirect target.
pub proof fn lemma_probe_page_redirect(body: Seq<char>, i: int, u: Seq<char>)
    requires
        has_substring(body, CAPTIVE_MARKER@),
        0 <= i,
        i + HREF_OPEN@.len() + u.len() < body.len(),
        body.subrange(i, i + HREF_OPEN@.len()) == HREF_OPEN@,
        body.subrange(i + HREF_OPEN@.len(), i + HREF_OPEN@.len() + u.len()) == u,
        body[i + HREF_OPEN@.len() + u.len()] == '"',
        forall|k: int| 0 <= k < u.len() ==> u[k] != '"' && u[k] != '\n',
        forall|m: int|
            0 <= m < i && m + HREF_OPEN@.len() <= body.len() ==> #[trigger] body.subrange(
                m,
                m + HREF_OPEN@.len(),
            ) != HREF_OPEN@,
    ensures
        redirect_target(body) == Ok::<Seq<char>, Fault>(u),
{
    lemma_first_redirect_from(body, 0, i, u);
}

} // verus!
