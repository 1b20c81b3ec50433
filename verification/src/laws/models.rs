//! Laws of the choice of a model.
use vstd::prelude::*;

use crate::json::JsonTree;
use crate::laws::text::{law_trimmed, lemma_first_index_after, lemma_first_index_none};
use crate::models::{
    effort_split, env_text, keyed_model, listed_model, named_model, route_model,
    test_model, usable, usable_json,
};
use crate::text::{is_white_space, trimmed, trimmed_end, trimmed_start};
use crate::types::{AnthropicProfile, AppType, ModelRoute, Provider};

verus! {

/// A model that is asked for is the one that is tested, whatever the application and
/// its provider.
pub proof fn law_request_wins(
    app_type: AppType,
    provider: Provider,
    requested: Seq<char>,
    profile: AnthropicProfile,
)
    requires
        trimmed(requested).len() > 0,
    ensures
        test_model(app_type, provider, Some(requested), profile) == Some(trimmed(requested)),
{
}

/// A blank request is no request.
pub proof fn law_blank_request_is_none(
    app_type: AppType,
    provider: Provider,
    requested: Seq<char>,
    profile: AnthropicProfile,
)
    requires
        trimmed(requested).len() == 0,
    ensures
        test_model(app_type, provider, Some(requested), profile) == test_model(
            app_type,
            provider,
            None,
            profile,
        ),
{
}

/// What a text says: all of it but the white space around it, unless it is blank.
pub open spec fn stripped(text: Seq<char>) -> Option<Seq<char>> {
    if trimmed(text).len() > 0 {
        Some(trimmed(text))
    } else {
        None
    }
}

/// What a setting says. Only a string that is not blank says something.
pub open spec fn said(value: Option<JsonTree>) -> Option<Seq<char>> {
    match value {
        Some(JsonTree::String(text)) => stripped(text),
        _ => None,
    }
}

/// What a variable of the environment in a configuration says.
pub open spec fn said_in_env(config: JsonTree, name: Seq<char>) -> Option<Seq<char>> {
    match config.get("env"@) {
        Some(env) => said(env.get(name)),
        None => None,
    }
}

/// The first of these texts that is there is at `k`; none is where `k` is behind them all.
pub open spec fn first_is_at(texts: Seq<Option<Seq<char>>>, k: int) -> bool {
    &&& 0 <= k <= texts.len()
    &&& forall|i: int| 0 <= i < k ==> (#[trigger] texts[i]) is None
    &&& k < texts.len() ==> texts[k] is Some
}

/// What the routes of the desktop application say, in their order.
pub open spec fn said_by_routes(provider: Provider) -> Seq<Option<Seq<char>>> {
    match provider.meta {
        Some(meta) => Seq::new(
            meta.claude_desktop_model_routes@.len(),
            |i: int| stripped(meta.claude_desktop_model_routes@[i].model@),
        ),
        None => seq![],
    }
}

/// What a provider of Anthropic's format may name a model in, the first choice first.
pub open spec fn claude_sources(provider: Provider) -> Seq<Option<Seq<char>>> {
    let config = provider.settings_config@;
    seq![said_in_env(config, "ANTHROPIC_MODEL"@)] + said_by_routes(provider) + seq![
        said_in_env(config, "ANTHROPIC_DEFAULT_SONNET_MODEL"@),
        said_in_env(config, "ANTHROPIC_DEFAULT_HAIKU_MODEL"@),
        said_in_env(config, "ANTHROPIC_DEFAULT_OPUS_MODEL"@),
    ]
}

proof fn lemma_route_at(routes: Seq<ModelRoute>, k: int)
    requires
        0 <= k <= routes.len(),
        forall|i: int| 0 <= i < k ==> trimmed((#[trigger] routes[i]).model@).len() == 0,
        k < routes.len() ==> trimmed(routes[k].model@).len() > 0,
    ensures
        route_model(routes) == if k < routes.len() {
            Some(trimmed(routes[k].model@))
        } else {
            None
        },
    decreases routes.len(),
{
    if routes.len() > 0 && k > 0 {
        assert(trimmed(routes[0].model@).len() == 0);
        let rest = routes.drop_first();
        assert forall|i: int| 0 <= i < k - 1 implies trimmed((#[trigger] rest[i]).model@).len()
            == 0 by {
            assert(rest[i] == routes[i + 1]);
        }
        lemma_route_at(rest, k - 1);
    }
}

/// Where no model is asked for, the first of the sources that names one decides; where
/// none does, the model is the profile's default, and only there is it read.
pub proof fn law_first_source_decides(
    app_type: AppType,
    provider: Provider,
    requested: Option<Seq<char>>,
    profile: AnthropicProfile,
    k: int,
)
    requires
        app_type is Claude || app_type is ClaudeDesktop,
        requested matches Some(text) ==> trimmed(text).len() == 0,
        first_is_at(claude_sources(provider), k),
    ensures
        test_model(app_type, provider, requested, profile) == if k < claude_sources(
            provider,
        ).len() {
            claude_sources(provider)[k]
        } else {
            Some(profile.default_model@)
        },
{
    let config = provider.settings_config@;
    let sources = claude_sources(provider);
    let routes = said_by_routes(provider);
    let n = routes.len() as int;
    assert(sources[0] == said_in_env(config, "ANTHROPIC_MODEL"@));
    assert(sources[n + 1] == said_in_env(config, "ANTHROPIC_DEFAULT_SONNET_MODEL"@));
    assert(sources[n + 2] == said_in_env(config, "ANTHROPIC_DEFAULT_HAIKU_MODEL"@));
    assert(sources[n + 3] == said_in_env(config, "ANTHROPIC_DEFAULT_OPUS_MODEL"@));
    assert(sources.len() == n + 4);
    if k > 0 {
        let at = if k <= n {
            k - 1
        } else {
            n
        };
        assert forall|i: int| 0 <= i < n implies sources[i + 1] == #[trigger] routes[i] by {}
        assert(sources[0] is None);
        match provider.meta {
            Some(meta) => {
                let list = meta.claude_desktop_model_routes@;
                assert forall|i: int| 0 <= i < at implies trimmed((#[trigger] list[i]).model@).len()
                    == 0 by {
                    assert(sources[i + 1] == routes[i]);
                }
                if at < n {
                    assert(sources[at + 1] == routes[at]);
                }
                lemma_route_at(list, at);
            },
            None => {},
        }
    }
}

/// Where no model is asked for, Codex and Grok Build test the upstream model of the
/// provider as it is; only a provider without one is tested with `gpt-4o-mini`.
pub proof fn law_upstream_model_decides(
    app_type: AppType,
    provider: Provider,
    requested: Option<Seq<char>>,
    profile: AnthropicProfile,
)
    requires
        app_type is Codex || app_type is GrokBuild,
        requested matches Some(text) ==> trimmed(text).len() == 0,
    ensures
        provider.routing.codex_upstream_model matches Some(model) ==> test_model(
            app_type,
            provider,
            requested,
            profile,
        ) == Some(model@),
        provider.routing.codex_upstream_model is None ==> test_model(
            app_type,
            provider,
            requested,
            profile,
        ) == Some("gpt-4o-mini"@),
{
}

/// Where no model is asked for, Gemini tests the one of the environment, else the one of
/// the configuration, else `gemini-2.5-flash`.
pub proof fn law_gemini_model_decides(
    provider: Provider,
    requested: Option<Seq<char>>,
    profile: AnthropicProfile,
    k: int,
)
    requires
        requested matches Some(text) ==> trimmed(text).len() == 0,
        first_is_at(
            seq![
                said_in_env(provider.settings_config@, "GEMINI_MODEL"@),
                said(provider.settings_config@.get("model"@)),
                Some("gemini-2.5-flash"@),
            ],
            k,
        ),
    ensures
        test_model(AppType::Gemini, provider, requested, profile) == seq![
            said_in_env(provider.settings_config@, "GEMINI_MODEL"@),
            said(provider.settings_config@.get("model"@)),
            Some("gemini-2.5-flash"@),
        ][k],
{
    let sources = seq![
        said_in_env(provider.settings_config@, "GEMINI_MODEL"@),
        said(provider.settings_config@.get("model"@)),
        Some("gemini-2.5-flash"@),
    ];
    assert(k > 0 ==> sources[0] is None);
    assert(k > 1 ==> sources[1] is None);
    assert(k > 2 ==> sources[2] is None);
}

/// What a list of models says, item by item.
pub open spec fn said_by_items(items: Seq<JsonTree>) -> Seq<Option<Seq<char>>> {
    Seq::new(items.len(), |i: int| said(items[i].get("id"@)))
}

/// What the keys of an object of models say.
pub open spec fn said_by_keys(entries: Seq<(Seq<char>, JsonTree)>) -> Seq<Option<Seq<char>>> {
    Seq::new(entries.len(), |i: int| stripped(entries[i].0))
}

/// The first usable `id` of a list of models is the one that it names.
pub proof fn law_first_listed_model(items: Seq<JsonTree>, k: int)
    requires
        first_is_at(said_by_items(items), k),
    ensures
        named_model(Some(JsonTree::Array(items))) == if k < items.len() {
            said(items[k].get("id"@))
        } else {
            None
        },
    decreases items.len(),
{
    let texts = said_by_items(items);
    if items.len() > 0 && k > 0 {
        assert(texts[0] is None);
        let rest = items.drop_first();
        assert forall|i: int| 0 <= i < k - 1 implies (#[trigger] said_by_items(rest)[i]) is None by {
            assert(texts[i + 1] is None);
        }
        if k < items.len() {
            assert(texts[k] is Some);
        }
        law_first_listed_model(rest, k - 1);
    } else if items.len() > 0 {
        assert(texts[0] is Some);
    }
}

/// The first usable key of an object of models is the one that it names.
pub proof fn law_first_model_key(entries: Seq<(Seq<char>, JsonTree)>, k: int)
    requires
        first_is_at(said_by_keys(entries), k),
    ensures
        named_model(Some(JsonTree::Object(entries))) == if k < entries.len() {
            stripped(entries[k].0)
        } else {
            None
        },
    decreases entries.len(),
{
    let texts = said_by_keys(entries);
    if entries.len() > 0 && k > 0 {
        assert(texts[0] is None);
        let rest = entries.drop_first();
        assert forall|i: int| 0 <= i < k - 1 implies (#[trigger] said_by_keys(rest)[i]) is None by {
            assert(texts[i + 1] is None);
        }
        if k < entries.len() {
            assert(texts[k] is Some);
        }
        law_first_model_key(rest, k - 1);
    } else if entries.len() > 0 {
        assert(texts[0] is Some);
    }
}

/// Where no model is asked for, the applications that list their models test what their
/// `models` setting names, and a setting that is neither a list nor an object names none.
pub proof fn law_models_setting_decides(
    app_type: AppType,
    provider: Provider,
    requested: Option<Seq<char>>,
    profile: AnthropicProfile,
)
    requires
        app_type is OpenCode || app_type is OpenClaw || app_type is Hermes || app_type is Pi,
        requested matches Some(text) ==> trimmed(text).len() == 0,
    ensures
        test_model(app_type, provider, requested, profile) == named_model(
            provider.settings_config@.get("models"@),
        ),
        !(provider.settings_config@.get("models"@) matches Some(JsonTree::Array(_))) && !(
        provider.settings_config@.get("models"@) matches Some(JsonTree::Object(_)))
            ==> test_model(app_type, provider, requested, profile) is None,
{
}

/// The application falls back on a default model.
pub open spec fn has_default(app_type: AppType) -> bool {
    ||| app_type is Claude
    ||| app_type is ClaudeDesktop
    ||| app_type is Codex
    ||| app_type is GrokBuild
    ||| app_type is Gemini
}

/// Only the applications that list their models can be left without one, and only where
/// nothing that they list is usable.
pub proof fn law_model_is_found(
    app_type: AppType,
    provider: Provider,
    requested: Option<Seq<char>>,
    profile: AnthropicProfile,
)
    ensures
        has_default(app_type) ==> test_model(app_type, provider, requested, profile) is Some,
        !has_default(app_type) ==> (test_model(app_type, provider, requested, profile) is None <==> (
        requested matches Some(text) ==> trimmed(text).len() == 0) && named_model(
            provider.settings_config@.get("models"@),
        ) is None),
{
}

/// A text that a setting could hold: not blank, and without white space around it.
pub open spec fn is_usable(text: Option<Seq<char>>) -> bool {
    text matches Some(s) ==> s.len() > 0 && trimmed(s) == s
}

proof fn lemma_usable(value: Option<Seq<char>>)
    ensures
        is_usable(usable(value)),
{
    match value {
        Some(s) => law_trimmed(s),
        None => {},
    }
}

proof fn lemma_usable_json(value: Option<JsonTree>)
    ensures
        is_usable(usable_json(value)),
{
    match value {
        Some(tree) => lemma_usable(tree.as_str()),
        None => {},
    }
}

proof fn lemma_env_text(config: JsonTree, key: Seq<char>)
    ensures
        is_usable(env_text(config, key)),
{
    match config.get("env"@) {
        Some(env) => lemma_usable_json(env.get(key)),
        None => {},
    }
}

proof fn lemma_route_model(routes: Seq<ModelRoute>)
    ensures
        is_usable(route_model(routes)),
    decreases routes.len(),
{
    if routes.len() > 0 {
        lemma_usable(Some(routes.first().model@));
        lemma_route_model(routes.drop_first());
    }
}

proof fn lemma_listed_model(items: Seq<JsonTree>)
    ensures
        is_usable(listed_model(items)),
    decreases items.len(),
{
    if items.len() > 0 {
        lemma_usable_json(items.first().get("id"@));
        lemma_listed_model(items.drop_first());
    }
}

proof fn lemma_keyed_model(entries: Seq<(Seq<char>, JsonTree)>)
    ensures
        is_usable(keyed_model(entries)),
    decreases entries.len(),
{
    if entries.len() > 0 {
        lemma_usable(Some(entries.first().0));
        lemma_keyed_model(entries.drop_first());
    }
}

/// A text whose ends are not white space stays as it is when it is trimmed.
proof fn lemma_no_white_space_around(s: Seq<char>)
    requires
        s.len() > 0,
        !is_white_space(s.first()),
        !is_white_space(s.last()),
    ensures
        trimmed(s) == s,
{
    assert(trimmed_start(s) == s);
    assert(trimmed_end(s) == s);
}

/// A model that is tested is neither blank nor padded with white space, as long as the
/// defaults that the application brings along are not: the default of Anthropic's
/// format, and the upstream model that the router reads off a provider for Codex.
pub proof fn law_model_is_usable(
    app_type: AppType,
    provider: Provider,
    requested: Option<Seq<char>>,
    profile: AnthropicProfile,
)
    requires
        is_usable(Some(profile.default_model@)),
        provider.routing.codex_upstream_model matches Some(model) ==> is_usable(Some(model@)),
    ensures
        is_usable(test_model(app_type, provider, requested, profile)),
{
    let config = provider.settings_config@;
    lemma_usable(requested);
    lemma_env_text(config, "ANTHROPIC_MODEL"@);
    lemma_env_text(config, "ANTHROPIC_DEFAULT_SONNET_MODEL"@);
    lemma_env_text(config, "ANTHROPIC_DEFAULT_HAIKU_MODEL"@);
    lemma_env_text(config, "ANTHROPIC_DEFAULT_OPUS_MODEL"@);
    lemma_env_text(config, "GEMINI_MODEL"@);
    lemma_usable_json(config.get("model"@));
    match provider.meta {
        Some(meta) => lemma_route_model(meta.claude_desktop_model_routes@),
        None => {},
    }
    match config.get("models"@) {
        Some(JsonTree::Array(items)) => lemma_listed_model(items),
        Some(JsonTree::Object(entries)) => lemma_keyed_model(entries),
        _ => {},
    }
    reveal_strlit("gpt-4o-mini");
    reveal_strlit("gemini-2.5-flash");
    lemma_no_white_space_around("gpt-4o-mini"@);
    lemma_no_white_space_around("gemini-2.5-flash"@);
}

/// A name without a marker is the whole model.
pub proof fn law_plain_model(model: Seq<char>)
    requires
        !model.contains('@'),
        !model.contains('#'),
    ensures
        effort_split(model) == (model, None::<Seq<char>>),
{
    lemma_first_index_none(model, '@');
    lemma_first_index_none(model, '#');
}

/// A model and an effort that are put together with a marker come apart again. With
/// `@` the model must not hold one; with `#` neither may hold an `@`, nor the model a
/// `#`.
pub proof fn law_effort_round_trip(model: Seq<char>, marker: char, effort: Seq<char>)
    requires
        model.len() > 0,
        trimmed(model) == model,
        effort.len() > 0,
        trimmed(effort) == effort,
        !model.contains('@'),
        marker == '@' || (marker == '#' && !model.contains('#') && !effort.contains('@')),
    ensures
        effort_split(model + seq![marker] + effort) == (model, Some(effort)),
{
    let name = model + seq![marker] + effort;
    lemma_first_index_after(model, marker, effort);
    if marker == '#' {
        assert forall|j: int| 0 <= j < name.len() implies name[j] != '@' by {
            if j < model.len() {
                assert(model.contains(model[j]));
            } else if j > model.len() {
                assert(effort.contains(effort[j - model.len() - 1]));
            }
        }
        lemma_first_index_none(name, '@');
    }
    assert(name.take(model.len() as int) =~= model);
    assert(name.skip(model.len() as int + 1) =~= effort);
}

/// A name is cut at its first `@`, or at its first `#` where it has no `@`. White space
/// around the two parts is dropped. Nothing before the marker leaves the name whole, and
/// nothing behind it is no effort.
pub proof fn law_effort_split(before: Seq<char>, marker: char, after: Seq<char>)
    requires
        !before.contains('@'),
        marker == '@' || (marker == '#' && !before.contains('#') && !after.contains('@')),
    ensures
        trimmed(before).len() == 0 ==> effort_split(before + seq![marker] + after) == (
            before + seq![marker] + after,
            None::<Seq<char>>,
        ),
        trimmed(before).len() > 0 && trimmed(after).len() == 0 ==> effort_split(
            before + seq![marker] + after,
        ) == (trimmed(before), None::<Seq<char>>),
        trimmed(before).len() > 0 && trimmed(after).len() > 0 ==> effort_split(
            before + seq![marker] + after,
        ) == (trimmed(before), Some(trimmed(after))),
{
    let name = before + seq![marker] + after;
    lemma_first_index_after(before, marker, after);
    if marker == '#' {
        assert forall|j: int| 0 <= j < name.len() implies name[j] != '@' by {
            if j < before.len() {
                assert(before.contains(before[j]));
            } else if j > before.len() {
                assert(after.contains(after[j - before.len() - 1]));
            }
        }
        lemma_first_index_none(name, '@');
    }
    assert(name.take(before.len() as int) =~= before);
    assert(name.skip(before.len() as int + 1) =~= after);
}

} // verus!
