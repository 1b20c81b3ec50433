//! Laws of addresses.
use vstd::prelude::*;

use crate::laws::text::lemma_without_trailing_push;
use crate::text::{without_leading, without_trailing};
use crate::types::AuthStrategy;
use crate::urls::{claude_path, claude_url, codex_urls, gemini_path};

verus! {

/// The path is appended: neither the native Gemini format nor a complete address.
pub open spec fn appends_path(api_format: Seq<char>, is_full_url: bool) -> bool {
    api_format != "gemini_native"@ && !is_full_url
}

/// A slash at the end of the base address makes no difference.
pub proof fn law_trailing_slash(
    base_url: Seq<char>,
    strategy: AuthStrategy,
    api_format: Seq<char>,
    gemini_url: Seq<char>,
)
    requires
        appends_path(api_format, false),
    ensures
        claude_url(base_url.push('/'), strategy, api_format, false, gemini_url) == claude_url(
            base_url,
            strategy,
            api_format,
            false,
            gemini_url,
        ),
{
    lemma_without_trailing_push(base_url, '/');
}

/// A complete address is used as it stands, whatever the format but native Gemini.
pub proof fn law_full_url_is_verbatim(
    base_url: Seq<char>,
    strategy: AuthStrategy,
    api_format: Seq<char>,
    gemini_url: Seq<char>,
    endpoint: Seq<char>,
    primary: Seq<char>,
)
    ensures
        api_format != "gemini_native"@ ==> claude_url(
            base_url,
            strategy,
            api_format,
            true,
            gemini_url,
        ) == base_url,
        codex_urls(base_url, true, endpoint, primary) == seq![base_url],
{
}

/// A base address with the version and one without it lead to the same endpoint, except
/// for GitHub Copilot, which appends the same path to both.
pub proof fn law_version_is_not_doubled(
    root: Seq<char>,
    strategy: AuthStrategy,
    api_format: Seq<char>,
    gemini_url: Seq<char>,
)
    requires
        appends_path(api_format, false),
        !(strategy is GitHubCopilot),
        root.len() > 0 ==> root.last() != '/',
        !"/v1"@.is_suffix_of(root),
    ensures
        claude_url(root + "/v1"@, strategy, api_format, false, gemini_url) == claude_url(
            root,
            strategy,
            api_format,
            false,
            gemini_url,
        ),
{
    reveal_strlit("/v1");
    reveal_strlit("/messages");
    reveal_strlit("/v1/messages");
    reveal_strlit("/responses");
    reveal_strlit("/v1/responses");
    reveal_strlit("/chat/completions");
    reveal_strlit("/v1/chat/completions");
    let base = root + "/v1"@;
    assert(base.last() == '1');
    assert(without_trailing(base, '/') == base);
    assert(without_trailing(root, '/') == root);
    assert("/v1"@.is_suffix_of(base));
    let tail = claude_path(false, api_format, true);
    assert("/v1"@ + tail =~= claude_path(false, api_format, false));
    assert(base + tail =~= root + ("/v1"@ + tail));
}

/// A Codex request has one address or two, which differ; slashes at the end of the base
/// address and at the start of the endpoint make no difference.
pub proof fn law_codex_addresses(
    base_url: Seq<char>,
    is_full_url: bool,
    endpoint: Seq<char>,
    primary: Seq<char>,
)
    ensures
        1 <= codex_urls(base_url, is_full_url, endpoint, primary).len() <= 2,
        codex_urls(base_url, is_full_url, endpoint, primary).no_duplicates(),
        codex_urls(base_url.push('/'), false, endpoint, primary) == codex_urls(
            base_url,
            false,
            endpoint,
            primary,
        ),
        codex_urls(base_url, false, seq!['/'] + endpoint, primary) == codex_urls(
            base_url,
            false,
            endpoint,
            primary,
        ),
{
    lemma_without_trailing_push(base_url, '/');
    assert((seq!['/'] + endpoint).drop_first() =~= endpoint);
    assert(without_leading(seq!['/'] + endpoint, '/') == without_leading(endpoint, '/'));
}

/// A native Gemini request goes to the Gemini address, even where the base address is
/// complete.
pub proof fn law_native_gemini_address(
    base_url: Seq<char>,
    strategy: AuthStrategy,
    is_full_url: bool,
    gemini_url: Seq<char>,
)
    ensures
        claude_url(base_url, strategy, "gemini_native"@, is_full_url, gemini_url) == gemini_url,
{
}

/// GitHub Copilot takes Responses under `/v1/responses` and everything else under
/// `/chat/completions`, whatever its base address ends in.
pub proof fn law_copilot_address(base: Seq<char>, api_format: Seq<char>, gemini_url: Seq<char>)
    requires
        base.len() > 0 ==> base.last() != '/',
        api_format != "gemini_native"@,
    ensures
        api_format == "openai_responses"@ ==> claude_url(
            base,
            AuthStrategy::GitHubCopilot,
            api_format,
            false,
            gemini_url,
        ) == base + "/v1/responses"@,
        api_format != "openai_responses"@ ==> claude_url(
            base,
            AuthStrategy::GitHubCopilot,
            api_format,
            false,
            gemini_url,
        ) == base + "/chat/completions"@,
{
    assert(without_trailing(base, '/') == base);
}

/// Everyone else takes the three formats under their own paths, behind a `/v1` that the
/// base address has or gets. A format that is not known is Anthropic's.
pub proof fn law_messages_address(
    base: Seq<char>,
    strategy: AuthStrategy,
    api_format: Seq<char>,
    gemini_url: Seq<char>,
)
    requires
        base.len() > 0 ==> base.last() != '/',
        !(strategy is GitHubCopilot),
        api_format != "gemini_native"@,
    ensures
        ({
            let url = claude_url(base, strategy, api_format, false, gemini_url);
            let root = if "/v1"@.is_suffix_of(base) {
                base
            } else {
                base + "/v1"@
            };
            &&& api_format == "openai_responses"@ ==> url == root + "/responses"@
            &&& api_format == "openai_chat"@ ==> url == root + "/chat/completions"@
            &&& api_format != "openai_responses"@ && api_format != "openai_chat"@ ==> url == root
                + "/messages"@
        }),
{
    reveal_strlit("/v1");
    reveal_strlit("/messages");
    reveal_strlit("/v1/messages");
    reveal_strlit("/responses");
    reveal_strlit("/v1/responses");
    reveal_strlit("/chat/completions");
    reveal_strlit("/v1/chat/completions");
    reveal_strlit("openai_responses");
    reveal_strlit("openai_chat");
    assert("openai_responses"@.len() != "openai_chat"@.len());
    assert(without_trailing(base, '/') == base);
    let url = claude_url(base, strategy, api_format, false, gemini_url);
    if !"/v1"@.is_suffix_of(base) {
        assert(base + "/v1/responses"@ =~= base + "/v1"@ + "/responses"@);
        assert(base + "/v1/chat/completions"@ =~= base + "/v1"@ + "/chat/completions"@);
        assert(base + "/v1/messages"@ =~= base + "/v1"@ + "/messages"@);
    }
}

/// The path of Gemini's streaming call names the model between its two parts.
pub proof fn law_gemini_path(model: Seq<char>)
    ensures
        gemini_path(model) == "/v1beta/models/"@ + model + ":streamGenerateContent?alt=sse"@,
{
}

/// A Codex request tries the address of the adapter first. The plain address, with one
/// slash between base and endpoint, comes last, and comes once.
pub proof fn law_codex_order(base: Seq<char>, endpoint: Seq<char>, primary: Seq<char>)
    requires
        base.len() > 0 ==> base.last() != '/',
        endpoint.len() > 0 ==> endpoint.first() != '/',
    ensures
        codex_urls(base, false, endpoint, primary).first() == primary,
        codex_urls(base, false, endpoint, primary).last() == base + seq!['/'] + endpoint,
        codex_urls(base, false, endpoint, primary).len() == if primary == base + seq!['/']
            + endpoint {
            1nat
        } else {
            2nat
        },
{
    reveal_strlit("/");
    assert("/"@ =~= seq!['/']);
    assert(without_trailing(base, '/') == base);
    assert(without_leading(endpoint, '/') == endpoint);
}

} // verus!
