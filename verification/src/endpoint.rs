//! Guards that recognise first-party endpoints exactly, and the validation of
//! the Codewhale API base URL.

use vstd::prelude::*;
use crate::provider::optional_text;
use crate::provider_kind::ProviderKind;
use crate::text::{
    find_text, is_white_space, lemma_trim_of_solid, lower, lower_char, occurs_at,
    same_ignoring_case, same_text, strip_last, stripped_last, trim, trim_end_char, trimmed,
    trimmed_end_char,
};

verus! {

broadcast use vstd::string::group_string_axioms;

/// Whether `base_url`, without surrounding white space and one trailing slash,
/// is `https://<authority>/<path>`: scheme and authority in any ASCII case, the
/// path character by character.
pub open spec fn exact_https_route(
    base_url: Seq<char>,
    authority: Seq<char>,
    path: Seq<char>,
) -> bool {
    let url = strip_last(trim(base_url), '/');
    let origin = "https://"@ + authority;
    &&& !authority.contains('/')
    &&& url.len() == origin.len() + 1 + path.len()
    &&& lower(url.take(origin.len() as int)) == lower(origin)
    &&& url.skip(origin.len() as int) == "/"@ + path
}

/// Whether a route is exactly the official Kimi Code endpoint.
pub open spec fn exact_kimi_code_route(kind: ProviderKind, base_url: Seq<char>) -> bool {
    kind == ProviderKind::Moonshot && exact_https_route(base_url, "api.kimi.com"@, "coding/v1"@)
}

/// Whether a route is exactly the hosted Ollama endpoint.
pub open spec fn exact_ollama_cloud_route(kind: ProviderKind, base_url: Seq<char>) -> bool {
    (kind == ProviderKind::Ollama || kind == ProviderKind::OllamaCloud) && exact_https_route(
        base_url,
        "ollama.com"@,
        "v1"@,
    )
}

/// Whether a route is the released shape of the hosted Ollama endpoint: the old
/// identity at exactly that endpoint.
pub open spec fn legacy_ollama_cloud_route(kind: ProviderKind, base_url: Seq<char>) -> bool {
    kind == ProviderKind::Ollama && exact_ollama_cloud_route(kind, base_url)
}

/// Whether a route is exactly Moonshot's direct API endpoint.
pub open spec fn exact_moonshot_platform_route(kind: ProviderKind, base_url: Seq<char>) -> bool {
    kind == ProviderKind::Moonshot && (exact_https_route(base_url, "api.moonshot.ai"@, "v1"@)
        || exact_https_route(base_url, "api.moonshot.cn"@, "v1"@))
}

/// Whether a route is exactly xAI's first-party endpoint.
pub open spec fn exact_xai_platform_route(kind: ProviderKind, base_url: Seq<char>) -> bool {
    kind == ProviderKind::Xai && exact_https_route(base_url, "api.x.ai"@, "v1"@)
}

/// Whether a route is one of Z.ai's exact Chat Completions endpoints.
pub open spec fn exact_zai_chat_route(kind: ProviderKind, base_url: Seq<char>) -> bool {
    kind == ProviderKind::Zai && (exact_https_route(
        base_url,
        "api.z.ai"@,
        "api/coding/paas/v4"@,
    ) || exact_https_route(base_url, "api.z.ai"@, "api/paas/v4"@) || exact_https_route(
        base_url,
        "open.bigmodel.cn"@,
        "api/paas/v4"@,
    ))
}

/// Whether a route is one of MiniMax's exact Chat Completions endpoints.
pub open spec fn exact_minimax_chat_route(kind: ProviderKind, base_url: Seq<char>) -> bool {
    kind == ProviderKind::Minimax && (exact_https_route(base_url, "api.minimax.io"@, "v1"@)
        || exact_https_route(base_url, "api.minimaxi.com"@, "v1"@))
}

/// Whether a route is one of MiniMax's exact Messages endpoints.
pub open spec fn exact_minimax_anthropic_route(kind: ProviderKind, base_url: Seq<char>) -> bool {
    kind == ProviderKind::MinimaxAnthropic && (exact_https_route(
        base_url,
        "api.minimax.io"@,
        "anthropic"@,
    ) || exact_https_route(base_url, "api.minimaxi.com"@, "anthropic"@))
}

/// Whether a route is exactly CSDN's official platform endpoint.
pub open spec fn exact_csdn_platform_route(kind: ProviderKind, base_url: Seq<char>) -> bool {
    kind == ProviderKind::Csdn && exact_https_route(base_url, "ai.csdn.net"@, "api/model/v1"@)
}

/// [`exact_https_route`] read off character by character.
spec fn https_shape(url: Seq<char>, authority: Seq<char>, path: Seq<char>) -> bool {
    &&& !authority.contains('/')
    &&& url.len() == 9 + authority.len() + path.len()
    &&& forall|i: int| 0 <= i < 5 ==> lower_char(#[trigger] url[i]) == "https"@[i]
    &&& url[5] == ':' && url[6] == '/' && url[7] == '/'
    &&& forall|i: int|
        0 <= i < authority.len() ==> lower_char(#[trigger] url[8 + i]) == lower_char(authority[i])
    &&& url[8 + authority.len() as int] == '/'
    &&& url.skip(9 + authority.len() as int) == path
}

proof fn lemma_shape(base_url: Seq<char>, authority: Seq<char>, path: Seq<char>)
    ensures
        exact_https_route(base_url, authority, path) == https_shape(
            strip_last(trim(base_url), '/'),
            authority,
            path,
        ),
{
    let url = strip_last(trim(base_url), '/');
    let origin = "https://"@ + authority;
    let n = origin.len() as int;
    reveal_strlit("https://");
    reveal_strlit("https");
    reveal_strlit("/");
    if exact_https_route(base_url, authority, path) {
        assert forall|i: int| 0 <= i < n implies lower_char(#[trigger] url[i]) == lower_char(
            origin[i],
        ) by {
            assert(lower(url.take(n))[i] == lower(origin)[i]);
            assert(url.take(n)[i] == url[i]);
        }
        assert forall|i: int| 0 <= i < authority.len() implies lower_char(#[trigger] url[8 + i])
            == lower_char(authority[i]) by {
            assert(origin[8 + i] == authority[i]);
        }
        assert(url[n] == url.skip(n)[0]);
        assert(url.skip(n + 1) =~= url.skip(n).skip(1));
        assert(("/"@ + path).skip(1) =~= path);
        assert(url[0] == url[0] && origin[5] == ':' && origin[6] == '/' && origin[7] == '/');
        assert(lower_char(url[5]) == lower_char(origin[5]));
        assert(lower_char(url[6]) == lower_char(origin[6]));
        assert(lower_char(url[7]) == lower_char(origin[7]));
    }
    if https_shape(url, authority, path) {
        assert forall|i: int| 0 <= i < n implies lower_char(#[trigger] url[i]) == lower_char(
            origin[i],
        ) by {
            if i >= 8 {
                assert(lower_char(url[8 + (i - 8)]) == lower_char(authority[i - 8]));
            }
        }
        assert(lower(url.take(n)) =~= lower(origin));
        assert forall|i: int| 0 <= i < url.skip(n).len() implies url.skip(n)[i] == ("/"@
            + path)[i] by {
            if i > 0 {
                assert(url.skip(n)[i] == url.skip(n + 1)[i - 1]);
            }
        }
        assert(url.skip(n) =~= "/"@ + path);
    }
}

proof fn lemma_slash_at(s: Seq<char>, i: int)
    requires
        0 <= i < s.len(),
    ensures
        occurs_at(s, "/"@, i) == (s[i] == '/'),
{
    reveal_strlit("/");
    let t = s.subrange(i, i + 1);
    assert(t[0] == s[i]);
    assert("/"@[0] == '/');
    if s[i] == '/' {
        assert(t =~= "/"@);
    }
}

proof fn lemma_scheme_mark_at(s: Seq<char>, i: int)
    requires
        0 <= i,
        i + 3 <= s.len(),
    ensures
        occurs_at(s, "://"@, i) == (s[i] == ':' && s[i + 1] == '/' && s[i + 2] == '/'),
{
    reveal_strlit("://");
    let t = s.subrange(i, i + 3);
    assert(t[0] == s[i] && t[1] == s[i + 1] && t[2] == s[i + 2]);
    if s[i] == ':' && s[i + 1] == '/' && s[i + 2] == '/' {
        assert(t =~= "://"@);
    }
}

/// Whether `base_url` is exactly the given HTTPS endpoint.
///
/// URL schemes and host names are ASCII case-insensitive; paths are not: a
/// differently-cased path is a neighboring route, not the official endpoint.
pub fn is_exact_https_route(
    base_url: &str,
    expected_authority: &str,
    expected_path: &str,
) -> (r: bool)
    ensures
        r == exact_https_route(base_url@, expected_authority@, expected_path@),
{
    let normalized: &str = stripped_last(trimmed(base_url), '/');
    let ghost url = normalized@;
    let ghost expected = expected_authority@;
    let ghost shape = https_shape(url, expected, expected_path@);
    proof {
        lemma_shape(base_url@, expected, expected_path@);
        reveal_strlit("https");
        reveal_strlit("://");
        reveal_strlit("/");
        if shape {
            lemma_scheme_mark_at(url, 5);
        }
    }
    let (colon, n): (usize, usize) = match find_text(normalized, "://") {
        Some(i) => (i, normalized.unicode_len()),
        None => {
            return false;
        },
    };
    proof {
        lemma_scheme_mark_at(url, colon as int);
        if shape && colon < 5 {
            assert(lower_char(url[colon as int]) == "https"@[colon as int]);
        }
        assert(shape ==> colon == 5);
    }
    let scheme: &str = normalized.substring_char(0, colon);
    let authority_and_path: &str = normalized.substring_char(colon + 3, n);
    let ghost rest = authority_and_path@;
    proof {
        if shape {
            assert(rest[expected.len() as int] == url[8 + expected.len() as int]);
            lemma_slash_at(rest, expected.len() as int);
        }
    }
    let (slash, m): (usize, usize) = match find_text(authority_and_path, "/") {
        Some(i) => (i, authority_and_path.unicode_len()),
        None => {
            return false;
        },
    };
    proof {
        lemma_slash_at(rest, slash as int);
        if shape && slash < expected.len() {
            assert(rest[slash as int] == url[8 + slash]);
            assert(lower_char(url[8 + slash]) == lower_char(expected[slash as int]));
            assert(expected.contains(expected[slash as int]));
        }
        assert(shape ==> slash == expected.len());
    }
    let authority: &str = authority_and_path.substring_char(0, slash);
    let path: &str = authority_and_path.substring_char(slash + 1, m);
    let r: bool = same_ignoring_case(scheme, "https") && same_ignoring_case(
        authority,
        expected_authority,
    ) && same_text(path, expected_path);
    proof {
        if shape {
            assert(lower(scheme@) =~= lower("https"@)) by {
                assert forall|i: int| 0 <= i < 5 implies lower(scheme@)[i] == lower("https"@)[i] by {
                    assert(lower_char(url[i]) == "https"@[i]);
                }
            }
            assert(lower(authority@) =~= lower(expected)) by {
                assert forall|i: int| 0 <= i < expected.len() implies lower(authority@)[i] == lower(
                    expected,
                )[i] by {
                    assert(authority@[i] == url[8 + i]);
                }
            }
            assert(path@ =~= expected_path@);
        }
        if r {
            assert(scheme@.len() == lower("https"@).len());
            assert(authority@.len() == lower(expected).len());
            assert forall|i: int| 0 <= i < 5 implies lower_char(#[trigger] url[i]) == "https"@[i] by {
                assert(lower(scheme@)[i] == lower("https"@)[i]);
            }
            assert forall|i: int| 0 <= i < expected.len() implies lower_char(#[trigger] url[8 + i])
                == lower_char(expected[i]) by {
                assert(lower(authority@)[i] == lower(expected)[i]);
                assert(authority@[i] == url[8 + i]);
            }
            assert(url.skip(9 + expected.len() as int) =~= path@);
            assert forall|i: int| 0 <= i < expected.len() implies expected[i] != '/' by {
                assert(lower(authority@)[i] == lower(expected)[i]);
                lemma_slash_at(rest, i);
                assert(!occurs_at(rest, "/"@, i));
                assert(authority@[i] == rest[i]);
            }
            assert(shape);
        }
    }
    r
}

/// Whether a configured route is exactly the official Kimi Code endpoint.
///
/// A trailing slash is insignificant, but neighboring Kimi-hosted paths must
/// not inherit membership-plan credentials merely because they share a host.
#[must_use]
pub fn is_exact_kimi_code_route(kind: ProviderKind, base_url: &str) -> (r: bool)
    ensures
        r == exact_kimi_code_route(kind, base_url@),
{
    if kind != ProviderKind::Moonshot {
        return false;
    }
    is_exact_https_route(base_url, "api.kimi.com", "coding/v1")
}

/// Whether a configured Ollama route is exactly the hosted OpenAI-compatible
/// endpoint.
///
/// Local Ollama remains keyless. Neighboring paths, HTTP downgrades, and
/// lookalike hosts remain custom routes so they cannot inherit an Ollama Cloud
/// credential or durable secret-store slot.
#[must_use]
pub fn is_exact_ollama_cloud_route(kind: ProviderKind, base_url: &str) -> (r: bool)
    ensures
        r == exact_ollama_cloud_route(kind, base_url@),
{
    (kind == ProviderKind::Ollama || kind == ProviderKind::OllamaCloud) && is_exact_https_route(
        base_url,
        "ollama.com",
        "v1",
    )
}

/// In-memory compatibility classifier for the released route-sensitive shape.
///
/// Only the old `ollama` identity at the exact hosted endpoint migrates. This
/// deliberately rejects neighboring paths, HTTP downgrades, and lookalike
/// hosts so no local/custom route can consume Ollama Cloud credentials.
#[must_use]
pub fn migrates_legacy_ollama_cloud_route(kind: ProviderKind, base_url: &str) -> (r: bool)
    ensures
        r == legacy_ollama_cloud_route(kind, base_url@),
{
    kind == ProviderKind::Ollama && is_exact_ollama_cloud_route(kind, base_url)
}

/// Whether a configured route is exactly Moonshot's direct API endpoint.
///
/// Direct K3 owns a different reasoning-control dialect from the Kimi Code
/// membership endpoint. Keep this route guard exact so custom gateways and
/// neighboring Moonshot paths do not inherit direct-K3 wire semantics.
#[must_use]
pub fn is_exact_moonshot_platform_route(kind: ProviderKind, base_url: &str) -> (r: bool)
    ensures
        r == exact_moonshot_platform_route(kind, base_url@),
{
    kind == ProviderKind::Moonshot && (is_exact_https_route(base_url, "api.moonshot.ai", "v1")
        || is_exact_https_route(base_url, "api.moonshot.cn", "v1"))
}

/// Whether a configured route is exactly xAI's first-party OpenAI-compatible
/// API endpoint.
///
/// Grok-specific request fields must not leak to a custom compatible gateway
/// merely because the operator selected the `xai` provider identity.
#[must_use]
pub fn is_exact_xai_platform_route(kind: ProviderKind, base_url: &str) -> (r: bool)
    ensures
        r == exact_xai_platform_route(kind, base_url@),
{
    kind == ProviderKind::Xai && is_exact_https_route(base_url, "api.x.ai", "v1")
}

/// Whether a configured route is one of Z.ai's exact first-party Chat
/// Completions endpoints.
///
/// Z.ai-only request fields must not leak to compatible gateways merely
/// because they expose the same model id. Both api.z.ai products (Coding Plan
/// and general platform) and BigModel's general platform endpoint are
/// first-party. Neighboring paths, BigModel's `/preview` among them, remain
/// distinct.
#[must_use]
pub fn is_exact_zai_chat_route(kind: ProviderKind, base_url: &str) -> (r: bool)
    ensures
        r == exact_zai_chat_route(kind, base_url@),
{
    kind == ProviderKind::Zai && (is_exact_https_route(base_url, "api.z.ai", "api/coding/paas/v4")
        || is_exact_https_route(base_url, "api.z.ai", "api/paas/v4") || is_exact_https_route(
        base_url,
        "open.bigmodel.cn",
        "api/paas/v4",
    ))
}

/// Whether a configured route is one of MiniMax's exact first-party OpenAI
/// Chat Completions endpoints.
///
/// This deliberately excludes the `/anthropic` routes: those use the native
/// Messages adapter and do not share Chat Completions token-limit fields.
#[must_use]
pub fn is_exact_minimax_chat_route(kind: ProviderKind, base_url: &str) -> (r: bool)
    ensures
        r == exact_minimax_chat_route(kind, base_url@),
{
    kind == ProviderKind::Minimax && (is_exact_https_route(base_url, "api.minimax.io", "v1")
        || is_exact_https_route(base_url, "api.minimaxi.com", "v1"))
}

/// Whether a configured route is one of MiniMax's exact first-party
/// Anthropic-compatible Messages endpoints.
///
/// M3 exposes only adaptive/disabled thinking on these routes; it does not
/// expose distinct effort tiers. Keep the guard exact so a compatible gateway
/// cannot inherit first-party effective-state claims from its provider label.
#[must_use]
pub fn is_exact_minimax_anthropic_route(kind: ProviderKind, base_url: &str) -> (r: bool)
    ensures
        r == exact_minimax_anthropic_route(kind, base_url@),
{
    kind == ProviderKind::MinimaxAnthropic && (is_exact_https_route(
        base_url,
        "api.minimax.io",
        "anthropic",
    ) || is_exact_https_route(base_url, "api.minimaxi.com", "anthropic"))
}

/// Whether a configured route is exactly CSDN's official OpenAI-compatible
/// platform endpoint.
///
/// Coding Plan keys and general marketplace keys share this one endpoint, so
/// the URL proves neither product, only that the route is first-party.
/// Neighboring paths, HTTP downgrades, and lookalike hosts must not inherit
/// CSDN billing or wire semantics.
#[must_use]
pub fn is_exact_csdn_platform_route(kind: ProviderKind, base_url: &str) -> (r: bool)
    ensures
        r == exact_csdn_platform_route(kind, base_url@),
{
    kind == ProviderKind::Csdn && is_exact_https_route(base_url, "ai.csdn.net", "api/model/v1")
}

/// Environment variable that overrides the Codewhale API base URL.
pub const CODEWHALE_API_BASE_ENV: &'static str = "CODEWHALE_API_BASE";

/// Ollama Cloud's exact OpenAI-compatible API base URL.
pub const OLLAMA_CLOUD_BASE_URL: &'static str = "https://ollama.com/v1";

/// What a URL parser says of the origin of a URL.
#[derive(Debug)]
pub struct UrlOrigin {
    pub scheme: String,
    /// Whether the host is a loopback host.
    pub host_is_loopback: bool,
    /// Whether the URL carries user information.
    pub has_credentials: bool,
}

/// A candidate base URL without surrounding white space and trailing slashes.
pub open spec fn base_candidate(raw: Seq<char>) -> Seq<char> {
    trim_end_char(trim(raw), '/')
}

/// Whether a bearer token may be sent to an origin: over HTTPS, or over
/// cleartext to the own machine alone, and never to a URL with credentials of
/// its own.
pub open spec fn origin_is_allowed(
    scheme: Seq<char>,
    host_is_loopback: bool,
    has_credentials: bool,
) -> bool {
    !has_credentials && (scheme == "https"@ || (scheme == "http"@ && host_is_loopback))
}

/// The Codewhale API base URL that a candidate gives, when its origin is known
/// and allowed.
pub open spec fn api_base_of(raw: Seq<char>, origin: Option<&UrlOrigin>) -> Option<Seq<char>> {
    match origin {
        Some(o) => if base_candidate(raw).len() > 0 && origin_is_allowed(
            o.scheme@,
            o.host_is_loopback,
            o.has_credentials,
        ) {
            Some(base_candidate(raw))
        } else {
            None
        },
        None => None,
    }
}

/// A candidate base URL without surrounding white space and trailing slashes:
/// the URL whose origin decides.
#[must_use]
pub fn codewhale_api_base_candidate<'a>(raw: &'a str) -> (r: &'a str)
    ensures
        r@ == base_candidate(raw@),
{
    trimmed_end_char(trimmed(raw), '/')
}

/// Validate one candidate Codewhale API base URL.
///
/// `origin` is what a URL parser says of [`codewhale_api_base_candidate`], or
/// nothing when it rejects it. A bearer token has no replay protection, so
/// cleartext is allowed only on loopback.
#[must_use]
pub fn codewhale_api_base(raw: &str, origin: Option<&UrlOrigin>) -> (r: Option<String>)
    ensures
        optional_text(r) == api_base_of(raw@, origin),
{
    let candidate: &str = codewhale_api_base_candidate(raw);
    if candidate.unicode_len() == 0 {
        return None;
    }
    let o: &UrlOrigin = match origin {
        Some(o) => o,
        None => {
            return None;
        },
    };
    if o.has_credentials {
        return None;
    }
    let allowed: bool = same_text(o.scheme.as_str(), "https") || (same_text(
        o.scheme.as_str(),
        "http",
    ) && o.host_is_loopback);
    if allowed {
        Some(candidate.to_owned())
    } else {
        None
    }
}

/// A base URL is exactly one endpoint at most: authorities that it matches agree
/// up to case, and paths agree character by character.
pub proof fn an_exact_route_names_one_endpoint(
    base_url: Seq<char>,
    authority: Seq<char>,
    path: Seq<char>,
    other_authority: Seq<char>,
    other_path: Seq<char>,
)
    requires
        exact_https_route(base_url, authority, path),
        exact_https_route(base_url, other_authority, other_path),
    ensures
        lower(authority) == lower(other_authority),
        path == other_path,
{
    let url = strip_last(trim(base_url), '/');
    lemma_shape(base_url, authority, path);
    lemma_shape(base_url, other_authority, other_path);
    let n = authority.len() as int;
    let m = other_authority.len() as int;
    if n < m {
        assert(lower_char(url[8 + n]) == lower_char(other_authority[n]));
        assert(other_authority.contains(other_authority[n]));
        assert(false);
    }
    if m < n {
        assert(lower_char(url[8 + m]) == lower_char(authority[m]));
        assert(authority.contains(authority[m]));
        assert(false);
    }
    assert forall|i: int| 0 <= i < n implies lower(authority)[i] == lower(other_authority)[i] by {
        assert(lower_char(url[8 + i]) == lower_char(authority[i]));
        assert(lower_char(url[8 + i]) == lower_char(other_authority[i]));
    }
    assert(lower(authority) =~= lower(other_authority));
}

/// White space around a base URL, one trailing slash, and the case of scheme and
/// authority do not matter; everything else does.
pub proof fn exact_routes_are_told_by_the_normalized_url(
    base_url: Seq<char>,
    other: Seq<char>,
    authority: Seq<char>,
    path: Seq<char>,
)
    requires
        exact_https_route(base_url, authority, path),
    ensures
        exact_https_route(other, authority, path) <==> {
            let url = strip_last(trim(base_url), '/');
            let other_url = strip_last(trim(other), '/');
            let n = ("https://"@ + authority).len() as int;
            other_url.len() == url.len() && lower(other_url.take(n)) == lower(url.take(n))
                && other_url.skip(n) == url.skip(n)
        },
{
}

/// An exact route is never a cleartext one, nor one with another port, a query
/// or a fragment: behind the scheme there is the authority, a slash and the path
/// and nothing else.
pub proof fn an_exact_route_is_https_and_nothing_more(
    base_url: Seq<char>,
    authority: Seq<char>,
    path: Seq<char>,
)
    requires
        exact_https_route(base_url, authority, path),
    ensures
        lower(strip_last(trim(base_url), '/').take(8)) == "https://"@,
        lower(strip_last(trim(base_url), '/')) == lower("https://"@ + authority + "/"@ + path),
{
    let url = strip_last(trim(base_url), '/');
    let origin = "https://"@ + authority;
    let n = origin.len() as int;
    reveal_strlit("https://");
    reveal_strlit("/");
    assert forall|i: int| 0 <= i < n implies lower_char(#[trigger] url[i]) == lower_char(
        origin[i],
    ) by {
        assert(lower(url.take(n))[i] == lower(origin)[i]);
        assert(url.take(n)[i] == url[i]);
    }
    let whole = origin + "/"@ + path;
    assert(lower(url.take(8)) =~= "https://"@);
    assert forall|i: int| 0 <= i < url.len() implies lower(url)[i] == lower(whole)[i] by {
        if i < n {
            assert(lower_char(url[i]) == lower_char(origin[i]));
            assert(whole[i] == origin[i]);
        } else {
            assert(url.skip(n)[i - n] == ("/"@ + path)[i - n]);
            assert(whole[i] == ("/"@ + path)[i - n]);
        }
    }
    assert(lower(url) =~= lower(whole));
}

/// The Kimi Code membership endpoint and Moonshot's direct platform are never
/// the same route.
pub proof fn kimi_code_is_not_the_moonshot_platform(kind: ProviderKind, base_url: Seq<char>)
    ensures
        !(exact_kimi_code_route(kind, base_url) && exact_moonshot_platform_route(kind, base_url)),
{
    reveal_strlit("coding/v1");
    reveal_strlit("v1");
    if exact_kimi_code_route(kind, base_url) {
        if exact_https_route(base_url, "api.moonshot.ai"@, "v1"@) {
            an_exact_route_names_one_endpoint(
                base_url,
                "api.kimi.com"@,
                "coding/v1"@,
                "api.moonshot.ai"@,
                "v1"@,
            );
        }
        if exact_https_route(base_url, "api.moonshot.cn"@, "v1"@) {
            an_exact_route_names_one_endpoint(
                base_url,
                "api.kimi.com"@,
                "coding/v1"@,
                "api.moonshot.cn"@,
                "v1"@,
            );
        }
    }
}

/// MiniMax's Chat Completions and Messages endpoints are never the same base
/// URL.
pub proof fn minimax_chat_is_not_minimax_messages(base_url: Seq<char>)
    ensures
        !(exact_minimax_chat_route(ProviderKind::Minimax, base_url)
            && exact_minimax_anthropic_route(ProviderKind::MinimaxAnthropic, base_url)),
{
    reveal_strlit("v1");
    reveal_strlit("anthropic");
    if exact_minimax_chat_route(ProviderKind::Minimax, base_url) && exact_minimax_anthropic_route(
        ProviderKind::MinimaxAnthropic,
        base_url,
    ) {
        let chat = if exact_https_route(base_url, "api.minimax.io"@, "v1"@) {
            "api.minimax.io"@
        } else {
            "api.minimaxi.com"@
        };
        let messages = if exact_https_route(base_url, "api.minimax.io"@, "anthropic"@) {
            "api.minimax.io"@
        } else {
            "api.minimaxi.com"@
        };
        an_exact_route_names_one_endpoint(base_url, chat, "v1"@, messages, "anthropic"@);
    }
}

proof fn lemma_trim_end_char_shape(s: Seq<char>, c: char)
    ensures
        trim_end_char(s, c).len() > 0 ==> trim_end_char(s, c).last() != c,
    decreases s.len(),
{
    if s.len() > 0 && s.last() == c {
        lemma_trim_end_char_shape(s.drop_last(), c);
    }
}

/// An accepted API base URL never carries a bearer over cleartext to another
/// machine, never carries credentials of its own, and ends without a slash.
pub proof fn an_api_base_keeps_the_bearer_safe(raw: Seq<char>, origin: &UrlOrigin)
    requires
        api_base_of(raw, Some(origin)) is Some,
    ensures
        origin.scheme@ == "https"@ || origin.host_is_loopback,
        !origin.has_credentials,
        (api_base_of(raw, Some(origin))->0).len() > 0,
        (api_base_of(raw, Some(origin))->0).last() != '/',
{
    lemma_trim_end_char_shape(trim(raw), '/');
}


/// A URL of the scheme, the authority and the path is that exact route, with one
/// trailing slash or none; with two it is not.
pub proof fn an_exact_route_allows_one_trailing_slash(
    origin: Seq<char>,
    authority: Seq<char>,
    path: Seq<char>,
)
    requires
        lower(origin) == lower("https://"@ + authority),
        !authority.contains('/'),
        origin.len() > 0,
        !is_white_space(origin[0]),
        path.len() > 0,
        path.last() != '/',
        !is_white_space(path.last()),
    ensures
        exact_https_route(origin + "/"@ + path, authority, path),
        exact_https_route(origin + "/"@ + path + "/"@, authority, path),
        !exact_https_route(origin + "/"@ + path + "//"@, authority, path),
{
    reveal_strlit("/");
    reveal_strlit("//");
    let url = origin + "/"@ + path;
    let n = ("https://"@ + authority).len() as int;
    assert(lower(origin).len() == origin.len());
    assert(lower("https://"@ + authority).len() == n);
    assert(origin.len() == n);
    assert(url.last() == path.last());
    assert(url[0] == origin[0]);
    lemma_trim_of_solid(url);
    assert(url.take(n) =~= origin);
    assert(url.skip(n) =~= "/"@ + path);
    let slashed = url + "/"@;
    assert(slashed.last() == '/');
    assert(slashed[0] == origin[0]);
    assert(!is_white_space('/'));
    lemma_trim_of_solid(slashed);
    assert(slashed.drop_last() =~= url);
    let doubled = url + "//"@;
    assert(doubled.last() == '/');
    assert(doubled[0] == origin[0]);
    lemma_trim_of_solid(doubled);
    assert(doubled.drop_last() =~= slashed);
    assert(strip_last(trim(doubled), '/').len() == n + 2 + path.len());
}

/// Each first-party route is one of the documented endpoints of its own provider
/// and of no other.
pub proof fn first_party_routes_are_the_documented_ones(kind: ProviderKind, base_url: Seq<char>)
    ensures
        exact_kimi_code_route(kind, base_url) <==> kind == ProviderKind::Moonshot
            && exact_https_route(base_url, "api.kimi.com"@, "coding/v1"@),
        exact_ollama_cloud_route(kind, base_url) <==> (kind == ProviderKind::Ollama || kind
            == ProviderKind::OllamaCloud) && exact_https_route(base_url, "ollama.com"@, "v1"@),
        legacy_ollama_cloud_route(kind, base_url) <==> kind == ProviderKind::Ollama
            && exact_https_route(base_url, "ollama.com"@, "v1"@),
        exact_moonshot_platform_route(kind, base_url) <==> kind == ProviderKind::Moonshot && (
        exact_https_route(base_url, "api.moonshot.ai"@, "v1"@) || exact_https_route(
            base_url,
            "api.moonshot.cn"@,
            "v1"@,
        )),
        exact_xai_platform_route(kind, base_url) <==> kind == ProviderKind::Xai
            && exact_https_route(base_url, "api.x.ai"@, "v1"@),
        exact_zai_chat_route(kind, base_url) <==> kind == ProviderKind::Zai && (exact_https_route(
            base_url,
            "api.z.ai"@,
            "api/coding/paas/v4"@,
        ) || exact_https_route(base_url, "api.z.ai"@, "api/paas/v4"@) || exact_https_route(
            base_url,
            "open.bigmodel.cn"@,
            "api/paas/v4"@,
        )),
        exact_minimax_chat_route(kind, base_url) <==> kind == ProviderKind::Minimax && (
        exact_https_route(base_url, "api.minimax.io"@, "v1"@) || exact_https_route(
            base_url,
            "api.minimaxi.com"@,
            "v1"@,
        )),
        exact_minimax_anthropic_route(kind, base_url) <==> kind == ProviderKind::MinimaxAnthropic
            && (exact_https_route(base_url, "api.minimax.io"@, "anthropic"@) || exact_https_route(
            base_url,
            "api.minimaxi.com"@,
            "anthropic"@,
        )),
        exact_csdn_platform_route(kind, base_url) <==> kind == ProviderKind::Csdn
            && exact_https_route(base_url, "ai.csdn.net"@, "api/model/v1"@),
{
}

/// An API base URL is accepted exactly where it is not blank, its origin is known
/// and carries no credentials, and the connection is encrypted or stays on this
/// machine. What is accepted is the candidate without white space around it and
/// without the slashes at its end.
pub proof fn an_api_base_is_accepted_where_a_bearer_is_safe(raw: Seq<char>, origin: &UrlOrigin)
    ensures
        api_base_of(raw, None) is None,
        api_base_of(raw, Some(origin)) is Some <==> trim_end_char(trim(raw), '/').len() > 0
            && !origin.has_credentials && (origin.scheme@ == "https"@ || (origin.scheme@
            == "http"@ && origin.host_is_loopback)),
        api_base_of(raw, Some(origin)) is Some ==> api_base_of(raw, Some(origin))->0
            == trim_end_char(trim(raw), '/'),
{
}

} // verus!
