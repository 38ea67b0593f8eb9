//! Security classification of untrusted decoded payload bytes.
use crate::text::{
    has_ascii_control, has_outer_white_space, has_outer_ws, is_ascii_control, lower_seq,
    to_ascii_lowercase, utf8_to_string,
};
use vstd::prelude::*;
use vstd::utf8::{decode_utf8, valid_utf8};

verus! {

/// A parsed URL that is safe for the browser-opening port.
#[derive(Clone, Debug, PartialEq, Eq)]
pub struct SafeHttpUrl {
    normalized: String,
    identity: String,
    scheme: String,
}

impl View for SafeHttpUrl {
    type V = (Seq<char>, Seq<char>, Seq<char>);

    closed spec fn view(&self) -> (Seq<char>, Seq<char>, Seq<char>) {
        (self.normalized@, self.identity@, self.scheme@)
    }
}

impl SafeHttpUrl {
    /// Returns the normalized URL supplied to the operating system.
    pub fn as_str(&self) -> (r: &str)
        ensures
            r@ == self@.0,
    {
        self.normalized.as_str()
    }

    /// Returns a fragment-free normalized identity suitable for deduplication.
    pub fn identity(&self) -> (r: &str)
        ensures
            r@ == self@.1,
    {
        self.identity.as_str()
    }

    /// A copy of this URL.
    pub fn duplicate(&self) -> (r: SafeHttpUrl)
        ensures
            r@ == self@,
    {
        SafeHttpUrl {
            normalized: self.normalized.clone(),
            identity: self.identity.clone(),
            scheme: self.scheme.clone(),
        }
    }

    /// Returns the lowercase scheme, `http` or `https`.
    pub fn scheme(&self) -> (r: &str)
        ensures
            r@ == self@.2,
    {
        self.scheme.as_str()
    }
}

/// Security classification for untrusted decoded payload bytes.
#[derive(Clone, Debug, PartialEq, Eq)]
pub enum PayloadClass {
    /// A validated HTTP or HTTPS URL.
    SafeUrl(SafeHttpUrl),
    /// Valid UTF-8 that is not syntactically a URL.
    PlainText(String),
    /// Text that starts like an HTTP(S) URL but is not a well-formed one.
    MalformedUrl {
        /// Original text, retained only for optional clipboard copying.
        text: String,
    },
    /// A syntactically valid URL with a scheme QRForge never launches.
    BlockedScheme {
        /// Lowercase parsed scheme.
        scheme: String,
        /// Original text, retained only for optional clipboard copying.
        text: String,
    },
    /// An HTTP(S) URL that carries credentials in its authority.
    BlockedUrl {
        /// Original text, retained only for optional clipboard copying.
        text: String,
    },
    /// Empty text or text with control characters.
    UnsafeText,
    /// Non-UTF-8 payload bytes. These are preserved by the detection but not
    /// coerced onto a text clipboard.
    Binary,
}

/// A payload classification in terms of characters.
pub enum PayloadView {
    SafeUrl { normalized: Seq<char>, identity: Seq<char>, scheme: Seq<char> },
    PlainText(Seq<char>),
    MalformedUrl(Seq<char>),
    BlockedScheme { scheme: Seq<char>, text: Seq<char> },
    BlockedUrl(Seq<char>),
    UnsafeText,
    Binary,
}

impl View for PayloadClass {
    type V = PayloadView;

    open spec fn view(&self) -> PayloadView {
        match self {
            PayloadClass::SafeUrl(url) => PayloadView::SafeUrl {
                normalized: url@.0,
                identity: url@.1,
                scheme: url@.2,
            },
            PayloadClass::PlainText(t) => PayloadView::PlainText(t@),
            PayloadClass::MalformedUrl { text } => PayloadView::MalformedUrl(text@),
            PayloadClass::BlockedScheme { scheme, text } => PayloadView::BlockedScheme {
                scheme: scheme@,
                text: text@,
            },
            PayloadClass::BlockedUrl { text } => PayloadView::BlockedUrl(text@),
            PayloadClass::UnsafeText => PayloadView::UnsafeText,
            PayloadClass::Binary => PayloadView::Binary,
        }
    }
}

// ---------------------------------------------------------------------------
// The URL parser
/// What the logic reads of a parsed URL: scheme, whether it has a host, whether it
/// cannot be a base, username, whether a password is present, and the serialization.
pub type UrlFacts = (Seq<char>, bool, bool, Seq<char>, bool, Seq<char>);

/// What `url::Url::parse` gives for the text: `None` when parsing fails.
pub uninterp spec fn url_parse_facts(input: Seq<char>) -> Option<UrlFacts>;

/// What the logic reads of a successfully parsed `url::Url`.
#[derive(Clone, Debug, PartialEq, Eq)]
pub struct ParsedUrl {
    /// The scheme as the parser gives it.
    pub scheme: String,
    /// Whether the URL has a host.
    pub has_host: bool,
    /// Whether the URL cannot be a base (no authority or path hierarchy).
    pub cannot_be_a_base: bool,
    /// The username; empty when there is none.
    pub username: String,
    /// Whether a password is present.
    pub has_password: bool,
    /// The normalized serialization.
    pub serialization: String,
}

impl View for ParsedUrl {
    type V = UrlFacts;

    open spec fn view(&self) -> UrlFacts {
        (
            self.scheme@,
            self.has_host,
            self.cannot_be_a_base,
            self.username@,
            self.has_password,
            self.serialization@,
        )
    }
}

/// Calls `url::Url::parse` and reads `scheme`, `has_host`, `cannot_be_a_base`,
/// `username`, `password().is_some()` and `as_str` of the result. The contract says
/// only that these facts are a fixed function of the input text; the WHATWG parsing
/// algorithm itself is not stated.
#[verifier::external_body]
fn parse_url(input: &str) -> (r: Option<ParsedUrl>)
    ensures
        r matches Some(p) ==> url_parse_facts(input@) == Some(p@),
        r is None ==> url_parse_facts(input@) is None,
{
    match url::Url::parse(input) {
        Ok(url) => Some(
            ParsedUrl {
                scheme: url.scheme().to_owned(),
                has_host: url.has_host(),
                cannot_be_a_base: url.cannot_be_a_base(),
                username: url.username().to_owned(),
                has_password: url.password().is_some(),
                serialization: url.as_str().to_owned(),
            },
        ),
        Err(_) => None,
    }
}

// ---------------------------------------------------------------------------
// Specification
/// Index of the first `c` at or after `i`, or the length when there is none.
pub open spec fn index_of(s: Seq<char>, c: char, i: int) -> int
    decreases s.len() - i,
{
    if i < 0 || i >= s.len() {
        s.len() as int
    } else if s[i] == c {
        i
    } else {
        index_of(s, c, i + 1)
    }
}

pub open spec fn seq_http() -> Seq<char> {
    seq!['h', 't', 't', 'p']
}

pub open spec fn seq_https() -> Seq<char> {
    seq!['h', 't', 't', 'p', 's']
}

/// Text whose scheme part reads `http:` or `https:` in any letter case.
pub open spec fn http_like(t: Seq<char>) -> bool {
    ||| t.len() >= 5 && lower_seq(t.take(5)) == seq_http().push(':')
    ||| t.len() >= 6 && lower_seq(t.take(6)) == seq_https().push(':')
}

/// The text after the first `:` starts with `//` and not with a third slash or a backslash.
pub open spec fn authority_form_ok(t: Seq<char>) -> bool {
    let colon = index_of(t, ':', 0);
    let rest = if colon < t.len() {
        t.skip(colon + 1)
    } else {
        Seq::empty()
    };
    &&& rest.len() >= 2
    &&& rest[0] == '/'
    &&& rest[1] == '/'
    &&& !(rest.len() > 2 && (rest[2] == '/' || rest[2] == '\\'))
}

/// The serialization without its fragment: everything before the first `#`.
pub open spec fn without_fragment(s: Seq<char>) -> Seq<char> {
    s.take(index_of(s, '#', 0))
}

/// Classification of text that is valid UTF-8.
pub open spec fn classify_text(t: Seq<char>) -> PayloadView {
    if t.len() == 0 || exists|i: int| 0 <= i < t.len() && is_ascii_control(#[trigger] t[i]) {
        PayloadView::UnsafeText
    } else if has_outer_ws(t) {
        PayloadView::PlainText(t)
    } else {
        classify_parsed(t, url_parse_facts(t))
    }
}

/// Classification of text without control characters or outer white space, given what
/// the URL parser gave for it.
pub open spec fn classify_parsed(t: Seq<char>, facts: Option<UrlFacts>) -> PayloadView {
    {
        match facts {
            None => if http_like(t) {
                PayloadView::MalformedUrl(t)
            } else {
                PayloadView::PlainText(t)
            },
            Some(u) => {
                let scheme = lower_seq(u.0);
                if scheme != seq_http() && scheme != seq_https() {
                    PayloadView::BlockedScheme { scheme, text: t }
                } else if !authority_form_ok(t) || u.2 || !u.1 {
                    PayloadView::MalformedUrl(t)
                } else if u.3.len() > 0 || u.4 {
                    PayloadView::BlockedUrl(t)
                } else {
                    PayloadView::SafeUrl {
                        normalized: u.5,
                        identity: without_fragment(u.5),
                        scheme,
                    }
                }
            },
        }
    }
}

/// Classification of untrusted payload bytes.
pub open spec fn classify_spec(bytes: Seq<u8>) -> PayloadView {
    if !valid_utf8(bytes) {
        PayloadView::Binary
    } else {
        classify_text(decode_utf8(bytes))
    }
}

// ---------------------------------------------------------------------------
// Implementation
fn index_of_char(s: &str, c: char) -> (r: usize)
    ensures
        r as int == index_of(s@, c, 0),
        r <= s@.len(),
{
    let n = s.unicode_len();
    let mut i: usize = 0;
    while i < n && s.get_char(i) != c
        invariant
            n == s@.len(),
            i <= n,
            index_of(s@, c, 0) == index_of(s@, c, i as int),
        decreases n - i,
    {
        i = i + 1;
    }
    i
}

fn is_http_like(t: &str) -> (r: bool)
    ensures
        r == http_like(t@),
{
    let n = t.unicode_len();
    proof {
        reveal_strlit("http:");
        reveal_strlit("https:");
        assert("http:"@ =~= seq_http().push(':'));
        assert("https:"@ =~= seq_https().push(':'));
    }
    let a = if n >= 5 {
        let head = to_ascii_lowercase(t.substring_char(0, 5));
        assert(t@.subrange(0, 5) =~= t@.take(5));
        head == String::from_str("http:")
    } else {
        false
    };
    let b = if n >= 6 {
        let head = to_ascii_lowercase(t.substring_char(0, 6));
        assert(t@.subrange(0, 6) =~= t@.take(6));
        head == String::from_str("https:")
    } else {
        false
    };
    a || b
}

fn has_authority_form(t: &str) -> (r: bool)
    ensures
        r == authority_form_ok(t@),
{
    let n = t.unicode_len();
    let colon = index_of_char(t, ':');
    if colon >= n {
        return false;
    }
    let rest = t.substring_char(colon + 1, n);
    assert(rest@ =~= t@.skip(colon + 1));
    let m = rest.unicode_len();
    if m < 2 {
        return false;
    }
    if rest.get_char(0) != '/' || rest.get_char(1) != '/' {
        return false;
    }
    if m > 2 {
        let third = rest.get_char(2);
        if third == '/' || third == '\\' {
            return false;
        }
    }
    true
}

fn without_fragment_exec(s: &str) -> (r: String)
    ensures
        r@ == without_fragment(s@),
{
    let end = index_of_char(s, '#');
    let piece = s.substring_char(0, end);
    assert(piece@ =~= s@.take(end as int));
    String::from_str(piece)
}

/// Classifies untrusted QR payload bytes without executing or dereferencing them.
pub fn classify_payload(payload: &[u8]) -> (r: PayloadClass)
    ensures
        r@ == classify_spec(payload@),
{
    let text = match utf8_to_string(payload) {
        None => return PayloadClass::Binary,
        Some(t) => t,
    };
    if text.unicode_len() == 0 || has_ascii_control(text.as_str()) {
        return PayloadClass::UnsafeText;
    }
    if has_outer_white_space(text.as_str()) {
        return PayloadClass::PlainText(text);
    }
    let parsed = parse_url(text.as_str());
    classify_url_text(text, parsed)
}

/// Classifies text without control characters or outer white space from what the URL
/// parser gave for it: a parse failure is malformed when the text starts like an HTTP(S)
/// URL and plain otherwise; a scheme other than HTTP(S) is blocked; a URL without a proper
/// authority or host is malformed; credentials are blocked; the rest is a safe URL keyed
/// by its serialization without the fragment.
pub fn classify_url_text(text: String, parsed: Option<ParsedUrl>) -> (r: PayloadClass)
    ensures
        r@ == classify_parsed(
            text@,
            match parsed {
                Some(p) => Some(p@),
                None => None,
            },
        ),
{
    let parsed = match parsed {
        None => {
            if is_http_like(text.as_str()) {
                return PayloadClass::MalformedUrl { text };
            }
            return PayloadClass::PlainText(text);
        },
        Some(p) => p,
    };
    let scheme = to_ascii_lowercase(parsed.scheme.as_str());
    let is_http = scheme == String::from_str("http");
    let is_https = scheme == String::from_str("https");
    proof {
        reveal_strlit("http");
        reveal_strlit("https");
        assert("http"@ =~= seq_http());
        assert("https"@ =~= seq_https());
    }
    if !is_http && !is_https {
        return PayloadClass::BlockedScheme { scheme, text };
    }
    if !has_authority_form(text.as_str()) || parsed.cannot_be_a_base || !parsed.has_host {
        return PayloadClass::MalformedUrl { text };
    }
    if parsed.username.unicode_len() > 0 || parsed.has_password {
        return PayloadClass::BlockedUrl { text };
    }
    let identity = without_fragment_exec(parsed.serialization.as_str());
    PayloadClass::SafeUrl(SafeHttpUrl { normalized: parsed.serialization, identity, scheme })
}

/// Text the URL parser rejects is malformed exactly when it starts, in any letter case,
/// with `http:` or `https:`, and plain text otherwise.
pub proof fn lemma_unparsed_http_text_is_malformed(t: Seq<char>)
    requires
        url_parse_facts(t) is None,
        t.len() > 0,
        forall|i: int| 0 <= i < t.len() ==> !is_ascii_control(#[trigger] t[i]),
        !has_outer_ws(t),
    ensures
        ((t.len() >= 5 && lower_seq(t.take(5)) == seq!['h', 't', 't', 'p', ':']) || (t.len() >= 6
            && lower_seq(t.take(6)) == seq!['h', 't', 't', 'p', 's', ':'])) ==> classify_text(t)
            == PayloadView::MalformedUrl(t),
        !((t.len() >= 5 && lower_seq(t.take(5)) == seq!['h', 't', 't', 'p', ':']) || (t.len() >= 6
            && lower_seq(t.take(6)) == seq!['h', 't', 't', 'p', 's', ':'])) ==> classify_text(t)
            == PayloadView::PlainText(t),
{
    assert(seq_http().push(':') =~= seq!['h', 't', 't', 'p', ':']);
    assert(seq_https().push(':') =~= seq!['h', 't', 't', 'p', 's', ':']);
}

proof fn lemma_index_of_facts(s: Seq<char>, c: char, i: int)
    requires
        0 <= i <= s.len(),
    ensures
        i <= index_of(s, c, i) <= s.len(),
        index_of(s, c, i) < s.len() ==> s[index_of(s, c, i)] == c,
        forall|j: int| i <= j < index_of(s, c, i) ==> s[j] != c,
    decreases s.len() - i,
{
    if i < s.len() && s[i] != c {
        lemma_index_of_facts(s, c, i + 1);
    }
}

/// What a payload's text is classified as: empty text, or text with a control character,
/// is unsafe and never shown or copied; text with white space at either end is plain
/// text, kept exactly; a parsed URL whose scheme is neither `http` nor `https` (in any
/// case) is blocked with its lowercased scheme; an HTTP(S) URL with credentials but
/// otherwise well formed is blocked; a safe URL keeps the parser's serialization and is
/// identified by it without the fragment.
pub proof fn lemma_text_classes(t: Seq<char>)
    ensures
        (t.len() == 0 || exists|i: int| 0 <= i < t.len() && is_ascii_control(#[trigger] t[i]))
            ==> classify_text(t) is UnsafeText,
        (t.len() > 0 && (forall|i: int| 0 <= i < t.len() ==> !is_ascii_control(#[trigger] t[i]))
            && has_outer_ws(t)) ==> classify_text(t) == PayloadView::PlainText(t),
        (t.len() > 0 && (forall|i: int| 0 <= i < t.len() ==> !is_ascii_control(#[trigger] t[i]))
            && !has_outer_ws(t) && url_parse_facts(t) is Some) ==> ({
            let u = url_parse_facts(t)->0;
            let scheme = lower_seq(u.0);
            &&& (scheme != seq!['h', 't', 't', 'p'] && scheme != seq!['h', 't', 't', 'p', 's'])
                ==> classify_text(t) == (PayloadView::BlockedScheme { scheme, text: t })
            &&& ((scheme == seq!['h', 't', 't', 'p'] || scheme == seq!['h', 't', 't', 'p', 's'])
                && authority_form_ok(t) && u.1 && !u.2 && (u.3.len() > 0 || u.4)) ==> classify_text(
                t,
            ) == PayloadView::BlockedUrl(t)
            &&& classify_text(t) matches PayloadView::SafeUrl { normalized, identity, scheme: s }
                ==> (normalized == u.5 && s == scheme && u.3.len() == 0 && !u.4 && identity
                == u.5.take(identity.len() as int) && !identity.contains('#') && (identity.len()
                < u.5.len() ==> u.5[identity.len() as int] == '#'))
        }),
{
    if t.len() > 0 && (forall|i: int| 0 <= i < t.len() ==> !is_ascii_control(#[trigger] t[i]))
        && !has_outer_ws(t) && url_parse_facts(t) is Some {
        let u = url_parse_facts(t)->0;
        lemma_index_of_facts(u.5, '#', 0);
        let k = index_of(u.5, '#', 0);
        assert(without_fragment(u.5).len() == k);
        assert(!without_fragment(u.5).contains('#')) by {
            if without_fragment(u.5).contains('#') {
                let j = choose|j: int| 0 <= j < without_fragment(u.5).len() && without_fragment(u.5)[j] == '#';
                assert(u.5[j] == '#');
            }
        }
        assert(seq_http() =~= seq!['h', 't', 't', 'p']);
        assert(seq_https() =~= seq!['h', 't', 't', 'p', 's']);
    }
}

/// Only payloads that are well-formed HTTP(S) URLs without credentials are ever
/// classified as safe to open, and their scheme is `http` or `https`.
pub proof fn lemma_safe_only_for_http(bytes: Seq<u8>)
    ensures
        classify_spec(bytes) matches PayloadView::SafeUrl { scheme, .. } ==> {
            &&& valid_utf8(bytes)
            &&& (scheme == seq_http() || scheme == seq_https())
            &&& (url_parse_facts(decode_utf8(bytes)) matches Some(u) && u.1 && !u.2 && u.3.len() == 0
                && !u.4)
            &&& authority_form_ok(decode_utf8(bytes))
            &&& !(exists|i: int|
                0 <= i < decode_utf8(bytes).len() && is_ascii_control(
                    #[trigger] decode_utf8(bytes)[i],
                ))
        },
{
}

} // verus!
