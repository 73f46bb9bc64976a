//! Parsing of `simplex://` deep links, token extraction from callback URLs,
//! and construction of media-server web URLs.
use vstd::prelude::*;
use crate::text::{
    concat, contains_str, decimal, decimal_string, eq_ignore_ascii_case, eq_ignore_ascii_case_str,
    opt_view, owned, seq_join, spec_contains, spec_starts_with, starts_with_str, str_eq, views,
    join, spec_find,
};
use crate::web::{
    parse_url, url_error_text, percent_decode, percent_encode, url_decode, url_encode, url_parse,
    ParsedUrl, UrlParts,
};
use crate::query::{before_char, before_char_exec, qget, query_get, split_on, segment_get, split_char, segments_get};

verus! {

broadcast use vstd::string::group_string_axioms;

/// Why a deep link was refused.
#[derive(Debug)]
pub enum DeepLinkError {
    InvalidUrl(String),
    InvalidScheme,
    UnableToParse,
    Other(String),
}

/// Why a deep link was refused, as a value.
pub enum DeepLinkFailure {
    InvalidUrl(Seq<char>),
    InvalidScheme,
    UnableToParse,
    Other(Seq<char>),
}

impl View for DeepLinkError {
    type V = DeepLinkFailure;

    open spec fn view(&self) -> DeepLinkFailure {
        match self {
            DeepLinkError::InvalidUrl(m) => DeepLinkFailure::InvalidUrl(m@),
            DeepLinkError::InvalidScheme => DeepLinkFailure::InvalidScheme,
            DeepLinkError::UnableToParse => DeepLinkFailure::UnableToParse,
            DeepLinkError::Other(m) => DeepLinkFailure::Other(m@),
        }
    }
}

/// What a deep link asks to open.
#[derive(Debug, Clone)]
pub struct DeepLinkResult {
    pub base_url: Option<String>,
    pub server_id: Option<String>,
    pub key: Option<String>,
    pub extra_query: Option<String>,
}

/// A deep link's target as values.
pub struct DeepLinkView {
    pub base_url: Option<Seq<char>>,
    pub server_id: Option<Seq<char>>,
    pub key: Option<Seq<char>>,
    pub extra_query: Option<Seq<char>>,
}

impl View for DeepLinkResult {
    type V = DeepLinkView;

    open spec fn view(&self) -> DeepLinkView {
        DeepLinkView {
            base_url: opt_view(self.base_url),
            server_id: opt_view(self.server_id),
            key: opt_view(self.key),
            extra_query: opt_view(self.extra_query),
        }
    }
}

/// The query parameters a deep link may hand on to the web UI, in the order
/// they are handed on.
pub open spec fn allowed_query_params() -> Seq<Seq<char>> {
    seq![
        "context"@,
        "source"@,
        "includeMeta"@,
        "includeAdvanced"@,
        "includeCollections"@,
        "includeExternalMedia"@,
        "type"@,
        "X-Plex-Container-Start"@,
        "X-Plex-Container-Size"@,
    ]
}

/// One handed-on parameter, percent-encoded as `key=value`.
pub open spec fn encoded_param(k: Seq<char>, v: Seq<char>) -> Seq<char> {
    percent_encode(k) + "="@ + percent_encode(v)
}

/// The handed-on parameters among the first `n` allowed names.
pub open spec fn extra_params_upto(pairs: Seq<(Seq<char>, Seq<char>)>, n: int) -> Seq<Seq<char>>
    decreases n,
{
    if n <= 0 {
        seq![]
    } else {
        let prev = extra_params_upto(pairs, n - 1);
        let k = allowed_query_params()[n - 1];
        match qget(pairs, k) {
            Some(v) => prev.push(encoded_param(k, v)),
            None => prev,
        }
    }
}

/// The allowed parameters of a link joined by `&`, or `None` when it has none.
pub open spec fn extra_query_of(pairs: Seq<(Seq<char>, Seq<char>)>) -> Option<Seq<char>> {
    let ps = extra_params_upto(pairs, 9);
    if ps.len() == 0 {
        None
    } else {
        Some(seq_join(ps, "&"@))
    }
}

/// The path a link addresses, with the `server`, `auth` and `oauth` hosts
/// taken as the path's first segment.
pub open spec fn link_path(u: UrlParts) -> Seq<char> {
    if u.host == Some("server"@) {
        if spec_starts_with(u.path, "/"@) {
            "/server"@ + u.path
        } else {
            "/server/"@ + u.path
        }
    } else if u.host == Some("auth"@) {
        "/auth"@
    } else if u.host == Some("oauth"@) {
        "/oauth"@
    } else {
        u.path
    }
}

/// `scheme://host[:port]` of a parsed URL (an absent host is empty).
pub open spec fn origin_of(u: UrlParts) -> Seq<char> {
    let host = match u.host {
        Some(h) => h,
        None => Seq::<char>::empty(),
    };
    match u.port {
        Some(p) => u.scheme + "://"@ + host + ":"@ + decimal(p as nat),
        None => u.scheme + "://"@ + host,
    }
}

/// A deep link target.
pub open spec fn target(
    base_url: Option<Seq<char>>,
    server_id: Option<Seq<char>>,
    key: Option<Seq<char>>,
    extra_query: Option<Seq<char>>,
) -> DeepLinkView {
    DeepLinkView { base_url, server_id, key, extra_query }
}

/// Whether a path names the OAuth callback.
pub open spec fn is_auth_path(path: Seq<char>) -> bool {
    path == "/auth"@ || path == "/oauth"@
}

/// The decoded `url` parameter, when it is present and decodes.
pub open spec fn decoded_url_param(q: Seq<(Seq<char>, Seq<char>)>) -> Option<Seq<char>> {
    match qget(q, "url"@) {
        Some(e) => percent_decode(e),
        None => None,
    }
}

/// The OAuth callback reading of a link, if it is one.
pub open spec fn oauth_target(path: Seq<char>, q: Seq<(Seq<char>, Seq<char>)>) -> Option<DeepLinkView> {
    if !is_auth_path(path) {
        None
    } else if let Some(t) = qget(q, "token"@) {
        Some(target(Some("oauth://token?token="@ + t), None, None, None))
    } else if let Some(d) = decoded_url_param(q) {
        Some(target(Some("oauth://callback?url="@ + percent_encode(d)), None, None, None))
    } else {
        None
    }
}

/// The `url=` reading of a link: a full web URL whose origin and path are taken.
pub open spec fn web_url_target(q: Seq<(Seq<char>, Seq<char>)>) -> Option<DeepLinkView> {
    match decoded_url_param(q) {
        Some(d) => match url_parse(d) {
            Some(w) => Some(target(Some(origin_of(w)), None, Some(w.path), extra_query_of(q))),
            None => None,
        },
        None => None,
    }
}

/// What a `simplex://` link with parsed parts `u` asks for.
pub open spec fn link_target(u: UrlParts) -> Result<DeepLinkView, DeepLinkFailure> {
    let path = link_path(u);
    let q = u.query_pairs;
    let extra = extra_query_of(q);
    if let Some(t) = oauth_target(path, q) {
        Ok(t)
    } else if let Some(t) = web_url_target(q) {
        Ok(t)
    } else if spec_starts_with(path, "/server/"@) {
        Ok(target(None, Some(before_char(path.skip(8), '/')), qget(q, "key"@), extra))
    } else if let Some(b) = qget(q, "baseUrl"@) {
        match percent_decode(b) {
            Some(d) => Ok(target(Some(d), qget(q, "serverId"@), qget(q, "key"@), extra)),
            None => Err(DeepLinkFailure::Other("Failed to decode baseUrl"@)),
        }
    } else if let Some(k) = qget(q, "key"@) {
        Ok(target(None, None, Some(k), extra))
    } else {
        Err(DeepLinkFailure::UnableToParse)
    }
}

/// What a deep link with parsed parts `u` asks for: only the `simplex`
/// scheme is taken.
pub open spec fn parsed_deep_link(u: UrlParts) -> Result<DeepLinkView, DeepLinkFailure> {
    if u.scheme != "simplex"@ {
        Err(DeepLinkFailure::InvalidScheme)
    } else {
        link_target(u)
    }
}

/// What `parse_deep_link` answers for `url`.
pub open spec fn spec_parse_deep_link(url: Seq<char>) -> Result<DeepLinkView, DeepLinkFailure> {
    match url_parse(url) {
        None => Err(DeepLinkFailure::InvalidUrl(url_error_text(url))),
        Some(u) => parsed_deep_link(u),
    }
}

/// Whether a URL looks like an OAuth or sign-in page.
pub open spec fn spec_is_oauth_url(url: Seq<char>) -> bool {
    spec_contains(url, "plex.tv/auth"@) || spec_contains(url, "plex.tv/login"@)
        || spec_contains(url, "plex.tv/sign-in"@) || spec_contains(url, "/oauth2/"@)
        || spec_contains(url, "authorize"@)
}

/// Returns true if the URL appears to be an OAuth/auth callback URL.
pub fn is_oauth_url(url: &str) -> (b: bool)
    ensures
        b == spec_is_oauth_url(url@),
{
    contains_str(url, "plex.tv/auth") || contains_str(url, "plex.tv/login") || contains_str(
        url,
        "plex.tv/sign-in",
    ) || contains_str(url, "/oauth2/") || contains_str(url, "authorize")
}

fn allowed_param(i: usize) -> (r: &'static str)
    requires
        i < 9,
    ensures
        r@ == allowed_query_params()[i as int],
{
    if i == 0 {
        "context"
    } else if i == 1 {
        "source"
    } else if i == 2 {
        "includeMeta"
    } else if i == 3 {
        "includeAdvanced"
    } else if i == 4 {
        "includeCollections"
    } else if i == 5 {
        "includeExternalMedia"
    } else if i == 6 {
        "type"
    } else if i == 7 {
        "X-Plex-Container-Start"
    } else {
        "X-Plex-Container-Size"
    }
}

fn extra_query(pairs: &Vec<(String, String)>) -> (r: Option<String>)
    ensures
        opt_view(r) == extra_query_of(crate::web::pairs_view(pairs@)),
{
    let ghost q = crate::web::pairs_view(pairs@);
    let mut parts: Vec<String> = Vec::new();
    let mut i: usize = 0;
    while i < 9
        invariant
            q == crate::web::pairs_view(pairs@),
            i <= 9,
            views(parts@) == extra_params_upto(q, i as int),
        decreases 9 - i,
    {
        let k = allowed_param(i);
        match query_get(pairs, k) {
            Some(v) => {
                let mut p = url_encode(k);
                p.append("=");
                let ev = url_encode(v.as_str());
                p.append(ev.as_str());
                let ghost before = parts@;
                parts.push(p);
                assert(views(parts@) == views(before).push(p@));
            },
            None => {},
        }
        i += 1;
    }
    if parts.len() == 0 {
        None
    } else {
        Some(join(&parts, "&"))
    }
}

fn is_host(u: &ParsedUrl, name: &str) -> (b: bool)
    ensures
        b == (u@.host == Some(name@)),
{
    match &u.host {
        Some(h) => str_eq(h.as_str(), name),
        None => false,
    }
}

fn link_path_exec(u: &ParsedUrl) -> (r: String)
    ensures
        r@ == link_path(u@),
{
    if is_host(u, "server") {
        if starts_with_str(u.path.as_str(), "/") {
            concat("/server", u.path.as_str())
        } else {
            concat("/server/", u.path.as_str())
        }
    } else if is_host(u, "auth") {
        owned("/auth")
    } else if is_host(u, "oauth") {
        owned("/oauth")
    } else {
        u.path.clone()
    }
}

fn origin_exec(u: &ParsedUrl) -> (r: String)
    ensures
        r@ == origin_of(u@),
{
    let mut r = u.scheme.clone();
    r.append("://");
    match &u.host {
        Some(h) => r.append(h.as_str()),
        None => {},
    }
    match u.port {
        Some(p) => {
            r.append(":");
            let ps = decimal_string(p as u64);
            r.append(ps.as_str());
        },
        None => {},
    }
    r
}

fn decoded_url_param_exec(pairs: &Vec<(String, String)>) -> (r: Option<String>)
    ensures
        opt_view(r) == decoded_url_param(crate::web::pairs_view(pairs@)),
{
    match query_get(pairs, "url") {
        Some(e) => url_decode(e.as_str()),
        None => None,
    }
}

/// The OAuth callback reading of a link with path `path` and query `pairs`:
/// a token handed over directly, or a callback URL to pass on.
pub fn oauth_target_exec(path: &str, pairs: &Vec<(String, String)>) -> (r: Option<DeepLinkResult>)
    ensures
        match r {
            Some(t) => oauth_target(path@, crate::web::pairs_view(pairs@)) == Some(t@),
            None => oauth_target(path@, crate::web::pairs_view(pairs@)) is None,
        },
{
    if !(str_eq(path, "/auth") || str_eq(path, "/oauth")) {
        return None;
    }
    if let Some(t) = query_get(pairs, "token") {
        return Some(
            DeepLinkResult {
                base_url: Some(concat("oauth://token?token=", t.as_str())),
                server_id: None,
                key: None,
                extra_query: None,
            },
        );
    }
    if let Some(d) = decoded_url_param_exec(pairs) {
        let e = url_encode(d.as_str());
        return Some(
            DeepLinkResult {
                base_url: Some(concat("oauth://callback?url=", e.as_str())),
                server_id: None,
                key: None,
                extra_query: None,
            },
        );
    }
    None
}

/// The `url=` reading of a link with query `pairs`: the origin and path of
/// the web URL it carries.
pub fn web_url_target_exec(pairs: &Vec<(String, String)>) -> (r: Option<DeepLinkResult>)
    ensures
        match r {
            Some(t) => web_url_target(crate::web::pairs_view(pairs@)) == Some(t@),
            None => web_url_target(crate::web::pairs_view(pairs@)) is None,
        },
{
    match decoded_url_param_exec(pairs) {
        Some(d) => match parse_url(d.as_str()) {
            Ok(w) => Some(
                DeepLinkResult {
                    base_url: Some(origin_exec(&w)),
                    server_id: None,
                    key: Some(w.path.clone()),
                    extra_query: extra_query(pairs),
                },
            ),
            Err(_) => None,
        },
        None => None,
    }
}

/// What a parsed `simplex://` link asks to open (its scheme is not looked at).
pub fn link_target_exec(u: &ParsedUrl) -> (r: Result<DeepLinkResult, DeepLinkError>)
    ensures
        match r {
            Ok(t) => link_target(u@) == Ok::<DeepLinkView, DeepLinkFailure>(t@),
            Err(e) => link_target(u@) == Err::<DeepLinkView, DeepLinkFailure>(e@),
        },
{
    let path = link_path_exec(u);
    let pairs = &u.query_pairs;
    if let Some(t) = oauth_target_exec(path.as_str(), pairs) {
        return Ok(t);
    }
    if let Some(t) = web_url_target_exec(pairs) {
        return Ok(t);
    }
    if starts_with_str(path.as_str(), "/server/") {
        let pv = crate::text::chars_of(path.as_str());
        proof {
            reveal_strlit("/server/");
        }
        let rest = crate::text::string_of(crate::query::slice_skip(&pv, 8));
        return Ok(
            DeepLinkResult {
                base_url: None,
                server_id: Some(before_char_exec(rest.as_str(), '/')),
                key: query_get(pairs, "key"),
                extra_query: extra_query(pairs),
            },
        );
    }
    if let Some(b) = query_get(pairs, "baseUrl") {
        return match url_decode(b.as_str()) {
            Some(d) => Ok(
                DeepLinkResult {
                    base_url: Some(d),
                    server_id: query_get(pairs, "serverId"),
                    key: query_get(pairs, "key"),
                    extra_query: extra_query(pairs),
                },
            ),
            None => Err(DeepLinkError::Other(owned("Failed to decode baseUrl"))),
        };
    }
    if let Some(k) = query_get(pairs, "key") {
        return Ok(
            DeepLinkResult { base_url: None, server_id: None, key: Some(k), extra_query: extra_query(pairs) },
        );
    }
    Err(DeepLinkError::UnableToParse)
}

/// What a parsed deep link asks to open.
pub fn deep_link_from_parsed_url(u: &ParsedUrl) -> (r: Result<DeepLinkResult, DeepLinkError>)
    ensures
        match r {
            Ok(t) => parsed_deep_link(u@) == Ok::<DeepLinkView, DeepLinkFailure>(t@),
            Err(e) => parsed_deep_link(u@) == Err::<DeepLinkView, DeepLinkFailure>(e@),
        },
{
    if !str_eq(u.scheme.as_str(), "simplex") {
        return Err(DeepLinkError::InvalidScheme);
    }
    link_target_exec(u)
}

/// A `simplex` link that carries a `baseUrl` (and no `url`, and is neither
/// an OAuth callback nor under `/server/`) opens the decoded base URL on the
/// server its `serverId` names, at its `key`, keeping the other parameters.
pub proof fn law_base_url_link_targets(u: UrlParts, b: Seq<char>, d: Seq<char>)
    requires
        u.scheme == "simplex"@,
        qget(u.query_pairs, "url"@) is None,
        link_path(u) != "/auth"@,
        link_path(u) != "/oauth"@,
        !spec_starts_with(link_path(u), "/server/"@),
        qget(u.query_pairs, "baseUrl"@) == Some(b),
        percent_decode(b) == Some(d),
    ensures
        parsed_deep_link(u) == Ok::<DeepLinkView, DeepLinkFailure>(
            DeepLinkView {
                base_url: Some(d),
                server_id: qget(u.query_pairs, "serverId"@),
                key: qget(u.query_pairs, "key"@),
                extra_query: extra_query_of(u.query_pairs),
            },
        ),
{
}

/// A `simplex` OAuth callback link (`auth` or `oauth`) with a `token`
/// hands that token over, and nothing else.
pub proof fn law_oauth_token_link(u: UrlParts, t: Seq<char>)
    requires
        u.scheme == "simplex"@,
        link_path(u) == "/auth"@ || link_path(u) == "/oauth"@,
        qget(u.query_pairs, "token"@) == Some(t),
    ensures
        parsed_deep_link(u) == Ok::<DeepLinkView, DeepLinkFailure>(
            DeepLinkView { base_url: Some("oauth://token?token="@ + t), server_id: None, key: None, extra_query: None },
        ),
{
}

/// A `simplex` link under `/server/<id>` (with no `url` parameter, and not
/// an OAuth callback) opens `key` on the server `<id>`, the path segment
/// after `/server/`.
pub proof fn law_server_path_link(u: UrlParts)
    requires
        u.scheme == "simplex"@,
        qget(u.query_pairs, "url"@) is None,
        link_path(u) != "/auth"@,
        link_path(u) != "/oauth"@,
        spec_starts_with(link_path(u), "/server/"@),
    ensures
        parsed_deep_link(u) == Ok::<DeepLinkView, DeepLinkFailure>(
            DeepLinkView {
                base_url: None,
                server_id: Some(before_char(link_path(u).skip(8), '/')),
                key: qget(u.query_pairs, "key"@),
                extra_query: extra_query_of(u.query_pairs),
            },
        ),
{
}

/// A `simplex` link whose `baseUrl` does not decode is refused with
/// `Failed to decode baseUrl` (when no earlier format applies).
pub proof fn law_undecodable_base_url_link(u: UrlParts, b: Seq<char>)
    requires
        u.scheme == "simplex"@,
        qget(u.query_pairs, "url"@) is None,
        link_path(u) != "/auth"@,
        link_path(u) != "/oauth"@,
        !spec_starts_with(link_path(u), "/server/"@),
        qget(u.query_pairs, "baseUrl"@) == Some(b),
        percent_decode(b) is None,
    ensures
        parsed_deep_link(u) == Err::<DeepLinkView, DeepLinkFailure>(DeepLinkFailure::Other("Failed to decode baseUrl"@)),
{
}

/// A `simplex` link with only a `key` (no `url`, `baseUrl`, server path or
/// OAuth callback) opens that key on the default server; a link with none
/// of these cannot be read.
pub proof fn law_key_only_link(u: UrlParts)
    requires
        u.scheme == "simplex"@,
        qget(u.query_pairs, "url"@) is None,
        link_path(u) != "/auth"@,
        link_path(u) != "/oauth"@,
        !spec_starts_with(link_path(u), "/server/"@),
        qget(u.query_pairs, "baseUrl"@) is None,
    ensures
        parsed_deep_link(u) == match qget(u.query_pairs, "key"@) {
            Some(k) => Ok::<DeepLinkView, DeepLinkFailure>(
                DeepLinkView { base_url: None, server_id: None, key: Some(k), extra_query: extra_query_of(u.query_pairs) },
            ),
            None => Err::<DeepLinkView, DeepLinkFailure>(DeepLinkFailure::UnableToParse),
        },
{
}

/// Only the `simplex` scheme is read as a deep link.
pub proof fn law_deep_link_scheme(u: UrlParts)
    requires
        u.scheme != "simplex"@,
    ensures
        parsed_deep_link(u) == Err::<DeepLinkView, DeepLinkFailure>(DeepLinkFailure::InvalidScheme),
{
}

/// Parses a `simplex://` deep link into what it asks to open.
pub fn parse_deep_link(url: &str) -> (r: Result<DeepLinkResult, DeepLinkError>)
    ensures
        match r {
            Ok(t) => spec_parse_deep_link(url@) == Ok::<DeepLinkView, DeepLinkFailure>(t@),
            Err(e) => spec_parse_deep_link(url@) == Err::<DeepLinkView, DeepLinkFailure>(e@),
        },
{
    let u = match parse_url(url) {
        Ok(u) => u,
        Err(e) => {
            return Err(DeepLinkError::InvalidUrl(e));
        },
    };
    deep_link_from_parsed_url(&u)
}

/// Whether a URL uses one of the deep-link schemes.
pub open spec fn spec_is_deep_link_scheme(url: Seq<char>) -> bool {
    spec_starts_with(url, "simplex://"@) || spec_starts_with(url, "plex-desktop://"@)
}

/// The token after the first occurrence of `marker` (a seven-character
/// `?token=` or `&token=`), up to the next `&`.
pub open spec fn token_after(url: Seq<char>, marker: Seq<char>) -> Option<Seq<char>> {
    match spec_find(url, marker) {
        Some(i) => Some(before_char(url.skip(i + 7), '&')),
        None => None,
    }
}

/// Whether a query key names an auth token.
pub open spec fn is_token_key(k: Seq<char>) -> bool {
    k == "token"@ || k == "access_token"@ || k == "authToken"@
}

/// The value of the first query pair whose key names a token.
pub open spec fn first_token_pair(pairs: Seq<(Seq<char>, Seq<char>)>) -> Option<Seq<char>>
    decreases pairs.len(),
{
    if pairs.len() == 0 {
        None
    } else if is_token_key(pairs[0].0) {
        Some(pairs[0].1)
    } else {
        first_token_pair(pairs.drop_first())
    }
}

/// The token a URL fragment carries: `token`, else `access_token`, else `authToken`.
pub open spec fn fragment_token(f: Seq<char>) -> Option<Seq<char>> {
    let segs = split_on(f, '&');
    if segment_get(segs, "token"@) is Some {
        segment_get(segs, "token"@)
    } else if segment_get(segs, "access_token"@) is Some {
        segment_get(segs, "access_token"@)
    } else {
        segment_get(segs, "authToken"@)
    }
}

/// The token a parsed URL carries: in a query parameter, else in the fragment.
pub open spec fn parsed_url_token(u: UrlParts) -> Option<Seq<char>> {
    if first_token_pair(u.query_pairs) is Some {
        first_token_pair(u.query_pairs)
    } else {
        match u.fragment {
            Some(f) => fragment_token(f),
            None => None,
        }
    }
}

/// What `extract_token_from_url` finds in `url`.
pub open spec fn spec_extract_token(url: Seq<char>) -> Option<Seq<char>> {
    if spec_is_deep_link_scheme(url) && token_after(url, "?token="@) is Some {
        token_after(url, "?token="@)
    } else if spec_is_deep_link_scheme(url) && token_after(url, "&token="@) is Some {
        token_after(url, "&token="@)
    } else {
        match url_parse(url) {
            None => None,
            Some(u) => parsed_url_token(u),
        }
    }
}

fn is_deep_link_scheme(url: &str) -> (b: bool)
    ensures
        b == spec_is_deep_link_scheme(url@),
{
    starts_with_str(url, "simplex://") || starts_with_str(url, "plex-desktop://")
}

fn token_after_exec(url: &str, marker: &str) -> (r: Option<String>)
    requires
        marker@.len() == 7,
    ensures
        opt_view(r) == token_after(url@, marker@),
{
    let v = crate::text::chars_of(url);
    let m = crate::text::chars_of(marker);
    match crate::text::find_chars(&v, &m) {
        Some(i) => {
            proof {
                crate::query::lemma_find_in_bounds(v@, m@);
            }
            assert(i + 7 <= v.len());
            let rest = crate::text::string_of(crate::query::slice_skip(&v, i + 7));
            Some(before_char_exec(rest.as_str(), '&'))
        },
        None => None,
    }
}

fn is_token_key_exec(k: &str) -> (b: bool)
    ensures
        b == is_token_key(k@),
{
    str_eq(k, "token") || str_eq(k, "access_token") || str_eq(k, "authToken")
}

/// The value of the first `token`, `access_token` or `authToken` query parameter.
pub fn first_token_pair_exec(pairs: &Vec<(String, String)>) -> (r: Option<String>)
    ensures
        opt_view(r) == first_token_pair(crate::web::pairs_view(pairs@)),
{
    let ghost pv = crate::web::pairs_view(pairs@);
    assert(pv.skip(0) == pv);
    let mut i: usize = 0;
    while i < pairs.len()
        invariant
            pv == crate::web::pairs_view(pairs@),
            i <= pairs.len(),
            first_token_pair(pv) == first_token_pair(pv.skip(i as int)),
        decreases pairs.len() - i,
    {
        assert(pv.skip(i as int).drop_first() == pv.skip(i + 1));
        if is_token_key_exec(pairs[i].0.as_str()) {
            return Some(pairs[i].1.clone());
        }
        i += 1;
    }
    None
}

/// The token named in a URL fragment of `&`-separated `key=value` segments.
pub fn fragment_token_exec(f: &str) -> (r: Option<String>)
    ensures
        opt_view(r) == fragment_token(f@),
{
    let segs = split_char(f, '&');
    if let Some(t) = segments_get(&segs, "token") {
        return Some(t);
    }
    if let Some(t) = segments_get(&segs, "access_token") {
        return Some(t);
    }
    segments_get(&segs, "authToken")
}

/// The token a parsed callback URL carries in a query parameter or its fragment.
pub fn token_from_parsed_url(u: &ParsedUrl) -> (r: Option<String>)
    ensures
        opt_view(r) == parsed_url_token(u@),
{
    if let Some(t) = first_token_pair_exec(&u.query_pairs) {
        return Some(t);
    }
    match &u.fragment {
        Some(f) => fragment_token_exec(f.as_str()),
        None => None,
    }
}

/// Extracts an auth token from a callback URL: from `?token=`/`&token=` in a
/// deep link, else from a `token`/`access_token`/`authToken` query parameter,
/// else from the fragment.
pub fn extract_token_from_url(url: &str) -> (r: Option<String>)
    ensures
        opt_view(r) == spec_extract_token(url@),
{
    if is_deep_link_scheme(url) {
        proof {
            reveal_strlit("?token=");
            reveal_strlit("&token=");
        }
        if let Some(t) = token_after_exec(url, "?token=") {
            return Some(t);
        }
        if let Some(t) = token_after_exec(url, "&token=") {
            return Some(t);
        }
    }
    match parse_url(url) {
        Ok(u) => token_from_parsed_url(&u),
        Err(_) => None,
    }
}

/// The decoded `url` parameter of a parsed `simplex://open` (or
/// `plex-desktop://open`) link.
pub open spec fn parsed_direct_web_url(u: UrlParts) -> Option<Seq<char>> {
    if (u.scheme == "simplex"@ || u.scheme == "plex-desktop"@) && (u.host == Some("open"@)
        || eq_ignore_ascii_case(u.path, "/open"@)) {
        decoded_url_param(u.query_pairs)
    } else {
        None
    }
}

/// What `extract_direct_web_url_from_deep_link` finds in `deep_link`.
pub open spec fn spec_direct_web_url(deep_link: Seq<char>) -> Option<Seq<char>> {
    match url_parse(deep_link) {
        None => None,
        Some(u) => parsed_direct_web_url(u),
    }
}

/// The decoded `url` parameter of a parsed `open` deep link.
pub fn direct_web_url_from_parsed_url(u: &ParsedUrl) -> (r: Option<String>)
    ensures
        opt_view(r) == parsed_direct_web_url(u@),
{
    if !str_eq(u.scheme.as_str(), "simplex") && !str_eq(u.scheme.as_str(), "plex-desktop") {
        return None;
    }
    let is_open = is_host(u, "open") || eq_ignore_ascii_case_str(u.path.as_str(), "/open");
    if !is_open {
        return None;
    }
    decoded_url_param_exec(&u.query_pairs)
}

/// The decoded `url` parameter of a `simplex://open?url=...` (or
/// `plex-desktop://open?url=...`) link.
pub fn extract_direct_web_url_from_deep_link(deep_link: &str) -> (r: Option<String>)
    ensures
        opt_view(r) == spec_direct_web_url(deep_link@),
{
    match parse_url(deep_link) {
        Ok(u) => direct_web_url_from_parsed_url(&u),
        Err(_) => None,
    }
}

/// `s` without its trailing `/` characters (`trim_end_matches('/')`).
pub open spec fn trim_trailing_slashes(s: Seq<char>) -> Seq<char>
    decreases s.len(),
{
    if s.len() > 0 && s.last() == '/' {
        trim_trailing_slashes(s.drop_last())
    } else {
        s
    }
}

/// The query of a web-UI URL: `key=` with the encoded key, then the extra query.
pub open spec fn web_query_parts(key: Option<Seq<char>>, extra_query: Option<Seq<char>>) -> Seq<Seq<char>> {
    let with_key: Seq<Seq<char>> = match key {
        Some(k) => seq!["key="@ + percent_encode(k)],
        None => seq![],
    };
    match extra_query {
        Some(e) => with_key.push(e),
        None => with_key,
    }
}

/// The web-UI URL for an item.
pub open spec fn spec_plex_url(
    base_url: Seq<char>,
    server_id: Option<Seq<char>>,
    key: Option<Seq<char>>,
    extra_query: Option<Seq<char>>,
) -> Seq<char> {
    let page = trim_trailing_slashes(base_url) + "/web/index.html"@;
    let route = match server_id {
        Some(id) => page + "#!/server/"@ + id + "/details"@,
        None => page + "#!/details"@,
    };
    let parts = web_query_parts(key, extra_query);
    if parts.len() == 0 {
        route
    } else {
        route + "?"@ + seq_join(parts, "&"@)
    }
}

/// `s` without its trailing `/` characters.
pub fn trim_trailing_slashes_exec(s: &str) -> (r: String)
    ensures
        r@ == trim_trailing_slashes(s@),
{
    let v = crate::text::chars_of(s);
    let mut n = v.len();
    assert(v@.take(n as int) == v@);
    while n > 0 && v[n - 1] == '/'
        invariant
            n <= v.len(),
            trim_trailing_slashes(v@) == trim_trailing_slashes(v@.take(n as int)),
        decreases n,
    {
        assert(v@.take(n as int).drop_last() == v@.take(n - 1));
        n -= 1;
    }
    assert(v@.take(n as int) == trim_trailing_slashes(v@.take(n as int)));
    crate::text::string_of(crate::query::slice_take(&v, n))
}

/// Constructs the media server's web-UI URL for an item.
pub fn construct_plex_url(
    base_url: &str,
    server_id: Option<&str>,
    key: Option<&str>,
    extra_query: Option<&str>,
) -> (r: String)
    ensures
        r@ == spec_plex_url(
            base_url@,
            crate::player_state::opt_str_view(server_id),
            crate::player_state::opt_str_view(key),
            crate::player_state::opt_str_view(extra_query),
        ),
{
    let mut url = trim_trailing_slashes_exec(base_url);
    url.append("/web/index.html");
    match server_id {
        Some(id) => {
            url.append("#!/server/");
            url.append(id);
            url.append("/details");
        },
        None => url.append("#!/details"),
    }
    let mut parts: Vec<String> = Vec::new();
    if let Some(k) = key {
        let ek = url_encode(k);
        parts.push(concat("key=", ek.as_str()));
    }
    if let Some(e) = extra_query {
        parts.push(owned(e));
    }
    proof {
        assert(views(parts@) == web_query_parts(
            crate::player_state::opt_str_view(key),
            crate::player_state::opt_str_view(extra_query),
        ));
    }
    if parts.len() > 0 {
        url.append("?");
        let q = join(&parts, "&");
        url.append(q.as_str());
    }
    url
}

} // verus!
