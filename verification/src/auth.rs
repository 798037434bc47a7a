//! Portal resolution and authentication data: credentials, the entry URL
//! resolved from the gateway's redirect page, the endpoints resolved from
//! the portal script, and the typed protocol errors.

use vstd::prelude::*;
use crate::scan::find_char;
use crate::scan::find_sub;
use crate::scan::lemma_find_char_at;
use crate::scan::lemma_find_char_props;
use crate::scan::lemma_find_sub_at;
use crate::scan::lemma_find_sub_props;
use crate::scan::lemma_trim_end_spaces;
use crate::scan::lemma_trim_start_spaces;
use crate::scan::matches_at;
use crate::scan::space_char;
use crate::scan::spec_find_char;
use crate::scan::spec_find_sub;
use crate::scan::is_space;
use crate::scan::trim_end;
use crate::scan::trim_start;
use crate::scan::trimmed;

verus! {

/// Carrier affiliation of a login id.  The portal wants a fixed short token
/// appended to the id in the quick-auth step and sent as `operatorSuffix`
/// in the primary-auth form.
#[derive(Clone, Copy, Debug, PartialEq, Eq, Structural)]
pub enum Suffix {
    ChinaMobie,
    ChinaUnicom,
    ChinaTelecom,
    Local,
}

/// The fixed token of each carrier suffix.
pub open spec fn spec_suffix_token(s: Suffix) -> Seq<char> {
    match s {
        Suffix::ChinaMobie => "@yd"@,
        Suffix::ChinaUnicom => "@lt"@,
        Suffix::ChinaTelecom => "@dx"@,
        Suffix::Local => "@hsd"@,
    }
}

impl Suffix {
    /// The token the portal expects for this carrier.
    pub fn to_str(&self) -> (r: &str)
        ensures
            r@ == spec_suffix_token(*self),
    {
        match self {
            Suffix::ChinaMobie => "@yd",
            Suffix::ChinaUnicom => "@lt",
            Suffix::ChinaTelecom => "@dx",
            Suffix::Local => "@hsd",
        }
    }
}

/// Stored credentials: login id, password, and the carrier suffix.
#[derive(Clone, Debug)]
pub struct UserInfo {
    pub id: String,
    pub password: String,
    pub suffix: Suffix,
}

impl UserInfo {
    /// Bundle credentials for the protocol.
    pub fn new(id: String, password: String, suffix: Suffix) -> (r: UserInfo)
        ensures
            r.id == id,
            r.password == password,
            r.suffix == suffix,
    {
        UserInfo { id, password, suffix }
    }
}

/// The redirect target scraped from the gateway page: the full entry URL,
/// its origin root (scheme, host and port), and the decoded query
/// parameters the portal prefilled for this session.
#[derive(Clone, Debug)]
pub struct IndexUrl {
    pub url: String,
    pub root: String,
    pub args: Vec<(String, String)>,
}

/// The endpoints scraped from the portal script: the primary-auth submit
/// URL, the root for logout calls, and the campus code the form wants.
#[derive(Clone, Debug)]
pub struct AuthInfo {
    pub logout_url_root: String,
    pub auth_url: String,
    pub school_codes: String,
}

/// Typed outcome of a protocol step that went wrong, or the short-circuit
/// signal that the client is already authenticated.
#[derive(Clone, Debug)]
pub enum AuthError {
    /// The network transport failed; carries the transport's own message.
    ReqError(String),
    /// A fetched page or reply did not have the expected shape; carries the
    /// offending payload for diagnostics.
    InvalidResponse(String),
    /// The portal explicitly rejected the credentials or the session.
    AuthFailed { msg: String },
    /// The external probe succeeded: nothing to do, not a failure.
    Authed,
}

impl AuthError {
    /// A human-readable description of the error.
    pub fn describe(&self) -> (r: String)
        ensures
            r@ == spec_describe_auth_error(*self),
    {
        match self {
            AuthError::ReqError(e) => String::from_str("Request Error: ").concat(e.as_str()),
            AuthError::InvalidResponse(e) => String::from_str("Invalid Response: ").concat(
                e.as_str(),
            ),
            AuthError::Authed => String::from_str("Already Authenticated"),
            AuthError::AuthFailed { msg } => String::from_str("Authentication Failed: ").concat(
                msg.as_str(),
            ),
        }
    }
}

/// The description `describe` returns for each error.
pub open spec fn spec_describe_auth_error(e: AuthError) -> Seq<char> {
    match e {
        AuthError::ReqError(m) => "Request Error: "@ + m@,
        AuthError::InvalidResponse(m) => "Invalid Response: "@ + m@,
        AuthError::Authed => "Already Authenticated"@,
        AuthError::AuthFailed { msg } => "Authentication Failed: "@ + msg@,
    }
}

/// Where the origin root of `url` ends: at the first `/` after `://`.
pub open spec fn spec_root_end(url: Seq<char>) -> Option<int> {
    match spec_find_sub(url, "://"@, 0) {
        None => None,
        Some(p) => spec_find_char(url, '/', p + 3),
    }
}

/// The origin root of `url`: scheme, host and port, up to but not
/// including the first `/` after `://`.
pub open spec fn spec_root_of(url: Seq<char>) -> Option<Seq<char>> {
    match spec_root_end(url) {
        None => None,
        Some(e) => Some(url.subrange(0, e)),
    }
}

/// The origin root of `url`, or nothing when `url` has no `://` or no `/`
/// after it.
pub fn get_root_url(url: &str) -> (r: Option<String>)
    ensures
        match r {
            Some(s) => spec_root_of(url@) == Some(s@),
            None => spec_root_of(url@) is None,
        },
{
    proof {
        reveal_strlit("://");
    }
    let n = url.unicode_len();
    let p = match find_sub(url, "://", 0) {
        Some(p) => p,
        None => {
            return None;
        },
    };
    proof {
        lemma_find_sub_props(url@, "://"@, 0);
        assert(p + 3 <= n);
    }
    let e = match find_char(url, '/', p + 3) {
        Some(e) => e,
        None => {
            return None;
        },
    };
    proof {
        lemma_find_char_props(url@, '/', p + 3);
    }
    Some(String::from_str(url.substring_char(0, e)))
}

/// The first double-quoted segment of `html`.
pub open spec fn spec_quoted_url(html: Seq<char>) -> Option<Seq<char>> {
    match spec_find_char(html, '"', 0) {
        None => None,
        Some(q1) => match spec_find_char(html, '"', q1 + 1) {
            None => None,
            Some(q2) => Some(html.subrange(q1 + 1, q2)),
        },
    }
}

/// The query string of `url`: everything after the first `?`.
pub open spec fn spec_query_of(url: Seq<char>) -> Option<Seq<char>> {
    match spec_find_char(url, '?', 0) {
        None => None,
        Some(q) => Some(url.subrange(q + 1, url.len() as int)),
    }
}

/// The gateway page parses when it carries a quoted redirect URL whose
/// origin root is well formed and which has a query string.
pub open spec fn spec_parse_index_ok(html: Seq<char>) -> bool {
    &&& spec_quoted_url(html) is Some
    &&& spec_root_of(spec_quoted_url(html)->0) is Some
    &&& spec_query_of(spec_quoted_url(html)->0) is Some
}

/// What `url::form_urlencoded::parse` makes of a query string: the pairs
/// split at `&` and `=`, keys and values percent-decoded.
pub uninterp spec fn decoded_query_pairs(q: Seq<char>) -> Seq<(Seq<char>, Seq<char>)>;

/// Relies on `url::form_urlencoded::parse`: splits the query at `&` and
/// `=` and percent-decodes each key and value; the result depends on the
/// query text alone.
#[verifier::external_body]
fn parse_query_pairs(q: &str) -> (r: Vec<(String, String)>)
    ensures
        r.deep_view() == decoded_query_pairs(q@),
{
    url::form_urlencoded::parse(q.as_bytes()).into_owned().collect()
}

/// What `url::form_urlencoded::Serializer` makes of a pair list:
/// `k1=v1&k2=v2&...` with every key and value percent-encoded.
pub uninterp spec fn form_encoded(pairs: Seq<(Seq<char>, Seq<char>)>) -> Seq<char>;

/// Relies on `url::form_urlencoded::Serializer` (`new`, `extend_pairs`,
/// `finish`): writes the pairs in order, percent-encoded and joined with
/// `&`; the result depends on the pairs alone.
#[verifier::external_body]
fn encode_form_pairs(pairs: &Vec<(String, String)>) -> (r: String)
    ensures
        r@ == form_encoded(pairs.deep_view()),
{
    let mut ser = url::form_urlencoded::Serializer::new(String::new());
    ser.extend_pairs(pairs.iter());
    ser.finish()
}

/// Scrape the gateway page: the first double-quoted attribute holds the
/// redirect URL; its origin root and its decoded query parameters come
/// with it.  Nothing parses when the quotes, the root or the query are
/// missing.
pub fn parse_index_page(html: &str) -> (r: Option<IndexUrl>)
    ensures
        r is Some <==> spec_parse_index_ok(html@),
        r matches Some(iu) ==> {
            &&& iu.url@ == spec_quoted_url(html@)->0
            &&& Some(iu.root@) == spec_root_of(iu.url@)
            &&& iu.args.deep_view() == decoded_query_pairs(spec_query_of(iu.url@)->0)
        },
{
    let n = html.unicode_len();
    let q1 = match find_char(html, '"', 0) {
        Some(i) => i,
        None => {
            return None;
        },
    };
    proof {
        lemma_find_char_props(html@, '"', 0);
        assert(q1 < n);
    }
    let q2 = match find_char(html, '"', q1 + 1) {
        Some(i) => i,
        None => {
            return None;
        },
    };
    proof {
        lemma_find_char_props(html@, '"', q1 + 1 as int);
    }
    let url = html.substring_char(q1 + 1, q2);
    let root = match get_root_url(url) {
        Some(s) => s,
        None => {
            return None;
        },
    };
    let qm = match find_char(url, '?', 0) {
        Some(i) => i,
        None => {
            return None;
        },
    };
    proof {
        lemma_find_char_props(url@, '?', 0);
    }
    let query = url.substring_char(qm + 1, url.unicode_len());
    let args = parse_query_pairs(query);
    Some(IndexUrl { url: String::from_str(url), root, args })
}

/// The src attribute of the first script tag that references
/// `js/common.js`: after the first `<script`, the text between the first
/// `src="` and the end of the first `js/common.js`, provided a closing
/// `"` and a closing `>` follow.
pub open spec fn spec_js_url(html: Seq<char>) -> Option<Seq<char>> {
    match spec_find_sub(html, "<script"@, 0) {
        None => None,
        Some(t) => match spec_find_sub(html, "src=\""@, t + 7) {
            None => None,
            Some(sp) => match spec_find_sub(html, "js/common.js"@, sp + 5) {
                None => None,
                Some(j) => match spec_find_char(html, '"', j + 12) {
                    None => None,
                    Some(q) => match spec_find_char(html, '>', q + 1) {
                        None => None,
                        Some(_) => Some(html.subrange(sp + 5, j + 12)),
                    },
                },
            },
        },
    }
}

/// Locate the portal script: the entry page references it from a
/// `<script ... src="...js/common.js...">` tag.
pub fn get_js_url(html: &str) -> (r: Option<&str>)
    ensures
        match r {
            Some(u) => spec_js_url(html@) == Some(u@),
            None => spec_js_url(html@) is None,
        },
{
    proof {
        reveal_strlit("<script");
        reveal_strlit("src=\"");
        reveal_strlit("js/common.js");
    }
    let n = html.unicode_len();
    let t = match find_sub(html, "<script", 0) {
        Some(i) => i,
        None => {
            return None;
        },
    };
    proof {
        lemma_find_sub_props(html@, "<script"@, 0);
    }
    let sp = match find_sub(html, "src=\"", t + 7) {
        Some(i) => i,
        None => {
            return None;
        },
    };
    proof {
        lemma_find_sub_props(html@, "src=\""@, t + 7 as int);
    }
    let j = match find_sub(html, "js/common.js", sp + 5) {
        Some(i) => i,
        None => {
            return None;
        },
    };
    proof {
        lemma_find_sub_props(html@, "js/common.js"@, sp + 5 as int);
    }
    let q = match find_char(html, '"', j + 12) {
        Some(i) => i,
        None => {
            return None;
        },
    };
    proof {
        lemma_find_char_props(html@, '"', j + 12 as int);
    }
    match find_char(html, '>', q + 1) {
        Some(_) => Some(html.substring_char(sp + 5, j + 12)),
        None => None,
    }
}

/// The value assigned to `name` in script text: the text between
/// `name =` and the next `;`, trimmed, with one surrounding quote
/// character stripped from each end.  Nothing when the assignment or the
/// `;` is missing, or when the trimmed text does not begin with a quote
/// or is shorter than two characters.
pub open spec fn spec_variable_value(js: Seq<char>, name: Seq<char>) -> Option<Seq<char>> {
    let assign = name + " ="@;
    match spec_find_sub(js, assign, 0) {
        None => None,
        Some(p) => {
            let start = p + assign.len();
            match spec_find_char(js, ';', start) {
                None => None,
                Some(semi) => {
                    let t = trimmed(js.subrange(start, semi));
                    if t.len() >= 2 && (t[0] == '\'' || t[0] == '"') {
                        Some(t.subrange(1, t.len() - 1))
                    } else {
                        None
                    }
                },
            }
        },
    }
}

/// Extract the quoted value of a `name = '...';` assignment from script
/// text.
pub fn get_variable_value<'a>(js_code: &'a str, variable_name: &str) -> (r: Option<&'a str>)
    ensures
        match r {
            Some(v) => spec_variable_value(js_code@, variable_name@) == Some(v@),
            None => spec_variable_value(js_code@, variable_name@) is None,
        },
{
    proof {
        reveal_strlit(" =");
    }
    let assignment = String::from_str(variable_name).concat(" =");
    let alen = assignment.as_str().unicode_len();
    let n = js_code.unicode_len();
    let p = match find_sub(js_code, assignment.as_str(), 0) {
        Some(i) => i,
        None => {
            return None;
        },
    };
    proof {
        lemma_find_sub_props(js_code@, assignment@, 0);
    }
    let start = p + alen;
    let semi = match find_char(js_code, ';', start) {
        Some(i) => i,
        None => {
            return None;
        },
    };
    proof {
        lemma_find_char_props(js_code@, ';', start as int);
    }
    let ghost value: Seq<char> = js_code@.subrange(start as int, semi as int);
    let mut a = start;
    while a < semi && space_char(js_code.get_char(a))
        invariant
            start <= a <= semi,
            semi < n,
            n == js_code@.len(),
            trim_start(value) == trim_start(js_code@.subrange(a as int, semi as int)),
        decreases semi - a,
    {
        proof {
            assert(js_code@.subrange(a as int, semi as int).subrange(
                1,
                semi - a,
            ) =~= js_code@.subrange(a as int + 1, semi as int));
        }
        a += 1;
    }
    proof {
        assert(trim_start(value) == js_code@.subrange(a as int, semi as int));
    }
    let mut b = semi;
    while b > a && space_char(js_code.get_char(b - 1))
        invariant
            a <= b <= semi,
            semi < n,
            n == js_code@.len(),
            trim_end(js_code@.subrange(a as int, semi as int)) == trim_end(
                js_code@.subrange(a as int, b as int),
            ),
        decreases b,
    {
        proof {
            assert(js_code@.subrange(a as int, b as int).subrange(
                0,
                b - 1 - a,
            ) =~= js_code@.subrange(a as int, b as int - 1));
        }
        b -= 1;
    }
    proof {
        assert(trimmed(value) == js_code@.subrange(a as int, b as int));
    }
    if b - a >= 2 {
        let first = js_code.get_char(a);
        if first == '\'' || first == '"' {
            let v = js_code.substring_char(a + 1, b - 1);
            proof {
                assert(js_code@.subrange(a as int + 1, b as int - 1) =~= trimmed(value).subrange(
                    1,
                    trimmed(value).len() - 1,
                ));
            }
            Some(v)
        } else {
            None
        }
    } else {
        None
    }
}

/// The logout root of the auth URL: its origin root with any `:port`
/// suffix removed.
pub open spec fn spec_logout_root(url: Seq<char>) -> Option<Seq<char>> {
    match spec_root_end(url) {
        None => None,
        Some(e) => {
            let p = spec_find_sub(url, "://"@, 0)->0;
            match spec_find_char(url, ':', p + 3) {
                None => Some(url.subrange(0, e)),
                Some(c) => if c < e {
                    Some(url.subrange(0, c))
                } else {
                    Some(url.subrange(0, e))
                },
            }
        },
    }
}

/// The origin root of `url` with any `:port` suffix removed, or nothing
/// when `url` has no origin root.
pub fn strip_port_root(url: &str) -> (r: Option<String>)
    ensures
        match r {
            Some(s) => spec_logout_root(url@) == Some(s@),
            None => spec_logout_root(url@) is None,
        },
{
    proof {
        reveal_strlit("://");
    }
    let n = url.unicode_len();
    let p = match find_sub(url, "://", 0) {
        Some(p) => p,
        None => {
            return None;
        },
    };
    proof {
        lemma_find_sub_props(url@, "://"@, 0);
        assert(p + 3 <= n);
    }
    let e = match find_char(url, '/', p + 3) {
        Some(e) => e,
        None => {
            return None;
        },
    };
    proof {
        lemma_find_char_props(url@, '/', p + 3 as int);
    }
    match find_char(url, ':', p + 3) {
        Some(c) if c < e => Some(String::from_str(url.substring_char(0, c))),
        _ => Some(String::from_str(url.substring_char(0, e))),
    }
}

/// The portal script defines both endpoint variables and the auth URL has
/// an origin root.
pub open spec fn spec_auth_info_ok(js: Seq<char>) -> bool {
    &&& spec_variable_value(js, "authApiUrl"@) is Some
    &&& spec_logout_root(spec_variable_value(js, "authApiUrl"@)->0) is Some
    &&& spec_variable_value(js, "authSchoolCodes"@) is Some
}

/// Read the two endpoint variables out of the portal script: the
/// primary-auth URL and the campus code, and derive the logout root from
/// the auth URL's origin.
pub fn get_js_auth_info(js: &str) -> (r: Option<AuthInfo>)
    ensures
        r is Some <==> spec_auth_info_ok(js@),
        r matches Some(ai) ==> {
            &&& Some(ai.auth_url@) == spec_variable_value(js@, "authApiUrl"@)
            &&& Some(ai.logout_url_root@) == spec_logout_root(ai.auth_url@)
            &&& Some(ai.school_codes@) == spec_variable_value(js@, "authSchoolCodes"@)
        },
{
    let auth_url = match get_variable_value(js, "authApiUrl") {
        Some(v) => v,
        None => {
            return None;
        },
    };
    let logout_root = match strip_port_root(auth_url) {
        Some(s) => s,
        None => {
            return None;
        },
    };
    let school_codes = match get_variable_value(js, "authSchoolCodes") {
        Some(v) => v,
        None => {
            return None;
        },
    };
    Some(
        AuthInfo {
            logout_url_root: logout_root,
            auth_url: String::from_str(auth_url),
            school_codes: String::from_str(school_codes),
        },
    )
}

/// The four fields of the primary-auth form, in submission order.
pub open spec fn spec_primary_form(auth: AuthInfo, user: UserInfo) -> Seq<(Seq<char>, Seq<char>)> {
    seq![
        ("campusCode"@, auth.school_codes@),
        ("username"@, user.id@),
        ("password"@, user.password@),
        ("operatorSuffix"@, spec_suffix_token(user.suffix)),
    ]
}

/// The form the primary-auth step posts: campus code, login id, password,
/// and the carrier suffix token.
pub fn build_primary_form(auth: &AuthInfo, user: &UserInfo) -> (r: Vec<(String, String)>)
    ensures
        r.deep_view() == spec_primary_form(*auth, *user),
{
    let mut v: Vec<(String, String)> = Vec::new();
    v.push((String::from_str("campusCode"), auth.school_codes.clone()));
    v.push((String::from_str("username"), user.id.clone()));
    v.push((String::from_str("password"), user.password.clone()));
    v.push((String::from_str("operatorSuffix"), String::from_str(user.suffix.to_str())));
    proof {
        assert(v.deep_view() =~~= spec_primary_form(*auth, *user));
    }
    v
}

/// The pairs of the quick-auth query: the prefilled session parameters,
/// then the suffixed login id and the password.
pub open spec fn spec_quickauth_pairs(args: Seq<(Seq<char>, Seq<char>)>, user: UserInfo) -> Seq<
    (Seq<char>, Seq<char>),
> {
    args + seq![
        ("userid"@, user.id@ + spec_suffix_token(user.suffix)),
        ("passwd"@, user.password@),
    ]
}

/// The URL the quick-auth step fetches: the entry origin root, the
/// `/quickauth.do` path, and the encoded session parameters followed by
/// the suffixed login id and the password.
pub fn build_quickauth_url(index: &IndexUrl, user: &UserInfo) -> (r: String)
    ensures
        r@ == index.root@ + "/quickauth.do?"@ + form_encoded(
            spec_quickauth_pairs(index.args.deep_view(), *user),
        ),
{
    let mut pairs: Vec<(String, String)> = Vec::new();
    let mut i: usize = 0;
    while i < index.args.len()
        invariant
            0 <= i <= index.args.len(),
            pairs.deep_view() == index.args.deep_view().subrange(0, i as int),
        decreases index.args.len() - i,
    {
        let k = index.args[i].0.clone();
        let val = index.args[i].1.clone();
        let ghost pre = pairs.deep_view();
        let ghost kv = (k@, val@);
        pairs.push((k, val));
        i += 1;
        proof {
            assert(forall|j: int| 0 <= j < pre.len() ==> pairs.deep_view()[j] == pre[j]);
            assert(pairs.deep_view()[pre.len() as int] == kv);
            assert(kv == index.args.deep_view()[i - 1]);
            assert(pairs.deep_view() =~~= index.args.deep_view().subrange(0, i as int));
        }
    }
    pairs.push((String::from_str("userid"), user.id.clone().concat(user.suffix.to_str())));
    pairs.push((String::from_str("passwd"), user.password.clone()));
    proof {
        assert(index.args.deep_view().subrange(0, index.args@.len() as int)
            =~= index.args.deep_view());
        assert(pairs.deep_view() =~~= spec_quickauth_pairs(index.args.deep_view(), *user));
    }
    let encoded = encode_form_pairs(&pairs);
    index.root.clone().concat("/quickauth.do?").concat(encoded.as_str())
}

/// Law: a parsed gateway page reassembles.  The recovered origin root,
/// followed by the rest of the entry URL (path and query), is exactly the
/// entry URL the page carried.
pub proof fn lemma_entry_round_trip(html: Seq<char>)
    requires
        spec_parse_index_ok(html),
    ensures
        ({
            let url = spec_quoted_url(html)->0;
            let root = spec_root_of(url)->0;
            &&& root.len() <= url.len()
            &&& url == root + url.subrange(root.len() as int, url.len() as int)
        }),
{
    reveal_strlit("://");
    let url = spec_quoted_url(html)->0;
    let e = spec_root_end(url)->0;
    lemma_find_sub_props(url, "://"@, 0);
    lemma_find_char_props(url, '/', spec_find_sub(url, "://"@, 0)->0 + 3);
    assert(url =~= url.subrange(0, e) + url.subrange(e, url.len() as int));
}

/// Law: a variable assignment embedded in script text is recovered
/// exactly.  Wherever the first `name =` of the script is followed, up
/// to the next `;`, by a quoted value with arbitrary white space around
/// it — in either quote style — `spec_variable_value` yields precisely
/// that value.
pub proof fn lemma_variable_extraction(
    js: Seq<char>,
    name: Seq<char>,
    pre: Seq<char>,
    ws1: Seq<char>,
    q: char,
    value: Seq<char>,
    ws2: Seq<char>,
    rest: Seq<char>,
)
    requires
        js == pre + (name + " ="@) + ws1 + (seq![q] + value + seq![q]) + ws2 + ";"@ + rest,
        q == '\'' || q == '"',
        forall|i: int| 0 <= i < ws1.len() ==> is_space(#[trigger] ws1[i]),
        forall|i: int| 0 <= i < ws2.len() ==> is_space(#[trigger] ws2[i]),
        forall|i: int| 0 <= i < value.len() ==> #[trigger] value[i] != ';',
        spec_find_sub(js, name + " ="@, 0) == Some(pre.len() as int),
    ensures
        spec_variable_value(js, name) == Some(value),
{
    reveal_strlit(" =");
    reveal_strlit(";");
    let assign = name + " ="@;
    let mid = seq![q] + value + seq![q];
    let start = pre.len() + assign.len();
    let semi = start + ws1.len() + mid.len() + ws2.len();
    assert(js.subrange(start as int, semi as int) =~= ws1 + mid + ws2);
    assert(js[semi as int] == ';');
    assert forall|j: int| start <= j < semi implies js[j] != ';' by {
        let k = j - start;
        assert(js[j] == (ws1 + mid + ws2)[k]);
        if k < ws1.len() {
            assert(is_space(ws1[k]));
        } else if k < ws1.len() + mid.len() {
            let m = k - ws1.len();
            assert((ws1 + mid + ws2)[k] == mid[m]);
            if 0 < m && m < mid.len() - 1 {
                assert(mid[m] == value[m - 1]);
            }
        } else {
            assert(is_space(ws2[k - ws1.len() - mid.len()]));
        }
    }
    lemma_find_char_at(js, ';', start as int, semi as int);
    assert(ws1 + mid + ws2 =~= ws1 + (mid + ws2));
    lemma_trim_start_spaces(ws1, mid + ws2);
    assert((mid + ws2)[0] == q);
    lemma_trim_end_spaces(mid, ws2);
    assert(mid[mid.len() - 1] == q);
    assert(trimmed(js.subrange(start as int, semi as int)) == mid);
    assert(mid.subrange(1, mid.len() - 1) =~= value);
}

/// Law: the logout root is the auth URL's origin with the port
/// stripped.  For every URL assembled from a scheme, a host, an
/// optional `:port` and a path — with no stray `:` or `/` inside scheme
/// or host and no `/` inside the port — the origin root keeps the port
/// and the logout root drops it: both equal `scheme://host` up to the
/// port.
pub proof fn lemma_logout_root_parts(
    scheme: Seq<char>,
    host: Seq<char>,
    port: Seq<char>,
    tail: Seq<char>,
)
    requires
        forall|i: int| 0 <= i < scheme.len() ==> #[trigger] scheme[i] != ':' && scheme[i] != '/',
        forall|i: int| 0 <= i < host.len() ==> #[trigger] host[i] != ':' && host[i] != '/',
        forall|i: int| 0 <= i < port.len() ==> #[trigger] port[i] != '/',
        port.len() > 0 ==> port[0] == ':',
    ensures
        spec_root_of(scheme + "://"@ + host + port + "/"@ + tail) == Some(
            scheme + "://"@ + host + port,
        ),
        spec_logout_root(scheme + "://"@ + host + port + "/"@ + tail) == Some(
            scheme + "://"@ + host,
        ),
{
    reveal_strlit("://");
    reveal_strlit("/");
    let url = scheme + "://"@ + host + port + "/"@ + tail;
    let p = scheme.len() as int;
    assert(url.subrange(p, p + 3) =~= "://"@);
    assert(matches_at(url, "://"@, p));
    assert forall|j: int| 0 <= j < p implies !matches_at(url, "://"@, j) by {
        if matches_at(url, "://"@, j) {
            assert(url.subrange(j, j + 3)[0] == url[j]);
            assert(url[j] == ':');
            assert(url[j] == scheme[j]);
        }
    }
    lemma_find_sub_at(url, "://"@, 0, p);
    let hstart = p + 3;
    let hend = hstart + host.len();
    let pend = hend + port.len();
    assert(url[pend] == '/');
    assert forall|j: int| hstart <= j < pend implies url[j] != '/' by {
        if j < hend {
            assert(url[j] == host[j - hstart]);
        } else {
            assert(url[j] == port[j - hend]);
        }
    }
    lemma_find_char_at(url, '/', hstart, pend);
    assert(url.subrange(0, pend) =~= scheme + "://"@ + host + port);
    if port.len() > 0 {
        assert(url[hend] == ':');
        assert forall|j: int| hstart <= j < hend implies url[j] != ':' by {
            assert(url[j] == host[j - hstart]);
        }
        lemma_find_char_at(url, ':', hstart, hend);
        assert(url.subrange(0, hend) =~= scheme + "://"@ + host);
    } else {
        lemma_find_char_props(url, ':', hstart);
        match spec_find_char(url, ':', hstart) {
            Some(c) => {
                assert forall|j: int| hstart <= j < pend implies url[j] != ':' by {
                    assert(url[j] == host[j - hstart]);
                }
                assert(url[pend] == '/');
                assert(c > pend);
            },
            None => {},
        }
        assert(scheme + "://"@ + host + port =~= scheme + "://"@ + host);
    }
}

} // verus!
