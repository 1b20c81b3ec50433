//! Where a request goes.
use vstd::prelude::*;

use crate::text::{self, without_leading, without_trailing};
use crate::types::{AuthStrategy, ModelCheckService};

verus! {

/// The path that a messages request appends to its base address.
pub open spec fn claude_path(copilot: bool, api_format: Seq<char>, versioned: bool) -> Seq<char> {
    if copilot {
        if api_format == "openai_responses"@ {
            "/v1/responses"@
        } else {
            "/chat/completions"@
        }
    } else if api_format == "openai_responses"@ {
        if versioned {
            "/responses"@
        } else {
            "/v1/responses"@
        }
    } else if api_format == "openai_chat"@ {
        if versioned {
            "/chat/completions"@
        } else {
            "/v1/chat/completions"@
        }
    } else if versioned {
        "/messages"@
    } else {
        "/v1/messages"@
    }
}

/// The address of a messages request.
pub open spec fn claude_url(
    base_url: Seq<char>,
    strategy: AuthStrategy,
    api_format: Seq<char>,
    is_full_url: bool,
    gemini_url: Seq<char>,
) -> Seq<char> {
    if api_format == "gemini_native"@ {
        gemini_url
    } else if is_full_url {
        base_url
    } else {
        let base = without_trailing(base_url, '/');
        base + claude_path(
            strategy is GitHubCopilot,
            api_format,
            "/v1"@.is_suffix_of(base),
        )
    }
}

/// The path of Gemini's streaming call for a model.
pub open spec fn gemini_path(model: Seq<char>) -> Seq<char> {
    "/v1beta/models/"@ + model + ":streamGenerateContent?alt=sse"@
}

/// A base address and an endpoint with one slash between them.
pub open spec fn plain_url(base_url: Seq<char>, endpoint: Seq<char>) -> Seq<char> {
    without_trailing(base_url, '/') + "/"@ + without_leading(endpoint, '/')
}

/// The addresses that a Codex request tries, in this order.
pub open spec fn codex_urls(
    base_url: Seq<char>,
    is_full_url: bool,
    endpoint: Seq<char>,
    primary: Seq<char>,
) -> Seq<Seq<char>> {
    if is_full_url {
        seq![base_url]
    } else if primary == plain_url(base_url, endpoint) {
        seq![primary]
    } else {
        seq![primary, plain_url(base_url, endpoint)]
    }
}

/// The characters of each string.
pub open spec fn texts_of(strings: Seq<String>) -> Seq<Seq<char>> {
    Seq::new(strings.len(), |i: int| strings[i]@)
}

impl ModelCheckService {
    /// The path of Gemini's streaming call, for a model under its normalized name.
    pub fn gemini_endpoint(model: &str) -> (r: String)
        ensures
            r@ == gemini_path(model@),
    {
        text::join3("/v1beta/models/", model, ":streamGenerateContent?alt=sse")
    }

    /// The address of a messages request. `gemini_url` is the address that the native
    /// Gemini format uses for the model.
    pub fn resolve_claude_url(
        base_url: &str,
        auth_strategy: AuthStrategy,
        api_format: &str,
        is_full_url: bool,
        gemini_url: &str,
    ) -> (r: String)
        ensures
            r@ == claude_url(base_url@, auth_strategy, api_format@, is_full_url, gemini_url@),
    {
        if text::same(api_format, "gemini_native") {
            return gemini_url.to_string();
        }
        if is_full_url {
            return base_url.to_string();
        }
        let base = text::trim_end_matches(base_url, '/');
        let is_copilot = auth_strategy == AuthStrategy::GitHubCopilot;
        let versioned = text::ends_with(base, "/v1");
        let path = if is_copilot {
            if text::same(api_format, "openai_responses") {
                "/v1/responses"
            } else {
                "/chat/completions"
            }
        } else if text::same(api_format, "openai_responses") {
            if versioned {
                "/responses"
            } else {
                "/v1/responses"
            }
        } else if text::same(api_format, "openai_chat") {
            if versioned {
                "/chat/completions"
            } else {
                "/v1/chat/completions"
            }
        } else if versioned {
            "/messages"
        } else {
            "/v1/messages"
        };
        text::join2(base, path)
    }

    /// The base address without trailing slashes and the endpoint without leading
    /// ones: what the primary Codex address is built from.
    pub fn codex_url_parts(base_url: &str, endpoint: &str) -> (r: (String, String))
        ensures
            r.0@ == without_trailing(base_url@, '/'),
            r.1@ == without_leading(endpoint@, '/'),
    {
        (
            text::trim_end_matches(base_url, '/').to_string(),
            text::trim_start_matches(endpoint, '/').to_string(),
        )
    }

    /// The addresses that a Codex request tries. `primary` is the address that the
    /// Codex adapter builds; the plain one follows where it differs.
    pub fn resolve_codex_urls(
        base_url: &str,
        is_full_url: bool,
        endpoint: &str,
        primary: &str,
    ) -> (r: Vec<String>)
        ensures
            texts_of(r@) == codex_urls(base_url@, is_full_url, endpoint@, primary@),
    {
        let mut urls: Vec<String> = Vec::new();
        if is_full_url {
            urls.push(base_url.to_string());
            assert(texts_of(urls@) == seq![base_url@]);
            return urls;
        }
        let base = text::trim_end_matches(base_url, '/');
        let endpoint = text::trim_start_matches(endpoint, '/');
        let fallback = text::join3(base, "/", endpoint);
        urls.push(primary.to_string());
        if text::same(primary, fallback.as_str()) {
            assert(texts_of(urls@) == seq![primary@]);
        } else {
            let ghost plain = fallback@;
            urls.push(fallback);
            assert(texts_of(urls@) == seq![primary@, plain]);
        }
        urls
    }
}

} // verus!
