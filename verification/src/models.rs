//! Which model a check asks for.
use vstd::prelude::*;

use crate::json::{entries_tree, tree_of_ref, Json, JsonTree};
use crate::text::{self, first_index, is_blank, trimmed};
use crate::types::{
    either, text_of, text_of_str, AnthropicProfile, AppType, ModelCheckService, ModelRoute,
    Provider,
};

verus! {

pub const DEFAULT_CODEX_MODEL: &'static str = "gpt-4o-mini";

pub const DEFAULT_GEMINI_MODEL: &'static str = "gemini-2.5-flash";

/// A text without the white space around it, unless nothing is left of it.
pub open spec fn usable(value: Option<Seq<char>>) -> Option<Seq<char>> {
    match value {
        Some(s) => if is_blank(s) {
            None
        } else {
            Some(trimmed(s))
        },
        None => None,
    }
}

/// The usable text of a JSON string.
pub open spec fn usable_json(value: Option<JsonTree>) -> Option<Seq<char>> {
    match value {
        Some(tree) => usable(tree.as_str()),
        None => None,
    }
}

/// The usable text under `key` in the `env` member of a configuration.
pub open spec fn env_text(config: JsonTree, key: Seq<char>) -> Option<Seq<char>> {
    match config.get("env"@) {
        Some(env) => usable_json(env.get(key)),
        None => None,
    }
}

/// The first usable model of a list of routes.
pub open spec fn route_model(routes: Seq<ModelRoute>) -> Option<Seq<char>>
    decreases routes.len(),
{
    if routes.len() == 0 {
        None
    } else {
        either(usable(Some(routes.first().model@)), route_model(routes.drop_first()))
    }
}

/// The first usable `id` of a list of models.
pub open spec fn listed_model(items: Seq<JsonTree>) -> Option<Seq<char>>
    decreases items.len(),
{
    if items.len() == 0 {
        None
    } else {
        either(usable_json(items.first().get("id"@)), listed_model(items.drop_first()))
    }
}

/// The first usable key of an object of models.
pub open spec fn keyed_model(entries: Seq<(Seq<char>, JsonTree)>) -> Option<Seq<char>>
    decreases entries.len(),
{
    if entries.len() == 0 {
        None
    } else {
        either(usable(Some(entries.first().0)), keyed_model(entries.drop_first()))
    }
}

/// The first model that a `models` setting names.
pub open spec fn named_model(value: Option<JsonTree>) -> Option<Seq<char>> {
    match value {
        Some(JsonTree::Array(items)) => listed_model(items),
        Some(JsonTree::Object(entries)) => keyed_model(entries),
        _ => None,
    }
}

/// The first usable model that the desktop application routes to a provider.
pub open spec fn desktop_model(provider: Provider) -> Option<Seq<char>> {
    match provider.meta {
        Some(meta) => route_model(meta.claude_desktop_model_routes@),
        None => None,
    }
}

/// The model that a provider of Anthropic's format is configured with, if any.
pub open spec fn claude_model(provider: Provider) -> Option<Seq<char>> {
    let config = provider.settings_config@;
    either(
        env_text(config, "ANTHROPIC_MODEL"@),
        either(
            desktop_model(provider),
            either(
                env_text(config, "ANTHROPIC_DEFAULT_SONNET_MODEL"@),
                either(
                    env_text(config, "ANTHROPIC_DEFAULT_HAIKU_MODEL"@),
                    env_text(config, "ANTHROPIC_DEFAULT_OPUS_MODEL"@),
                ),
            ),
        ),
    )
}

/// The model that a provider for Gemini is configured with, if any.
pub open spec fn gemini_model(provider: Provider) -> Option<Seq<char>> {
    let config = provider.settings_config@;
    either(env_text(config, "GEMINI_MODEL"@), usable_json(config.get("model"@)))
}

/// The model that the configuration of a provider leads to.
pub open spec fn configured_model(
    app_type: AppType,
    provider: Provider,
    profile: AnthropicProfile,
) -> Option<Seq<char>> {
    match app_type {
        AppType::Claude | AppType::ClaudeDesktop => either(
            claude_model(provider),
            Some(profile.default_model@),
        ),
        AppType::Codex | AppType::GrokBuild => either(
            text_of(provider.routing.codex_upstream_model),
            Some(DEFAULT_CODEX_MODEL@),
        ),
        AppType::Gemini => either(gemini_model(provider), Some(DEFAULT_GEMINI_MODEL@)),
        AppType::OpenCode | AppType::OpenClaw | AppType::Hermes | AppType::Pi => named_model(
            provider.settings_config@.get("models"@),
        ),
    }
}

/// The model of a check: the one asked for, else the configured one.
pub open spec fn test_model(
    app_type: AppType,
    provider: Provider,
    requested: Option<Seq<char>>,
    profile: AnthropicProfile,
) -> Option<Seq<char>> {
    either(usable(requested), configured_model(app_type, provider, profile))
}

/// What precedes the marker of a reasoning effort in a model's name, and the
/// effort. The marker is the first `@`, or the first `#` where there is no `@`.
pub open spec fn effort_split(model: Seq<char>) -> (Seq<char>, Option<Seq<char>>) {
    match either(first_index(model, '@'), first_index(model, '#')) {
        None => (model, None),
        Some(i) => if is_blank(model.take(i)) {
            (model, None)
        } else {
            (trimmed(model.take(i)), usable(Some(model.skip(i + 1))))
        },
    }
}

/// A text without the white space around it, unless nothing is left of it.
pub fn usable_text(value: &str) -> (r: Option<&str>)
    ensures
        text_of_str(r) == usable(Some(value@)),
{
    let inner = text::trim(value);
    if inner.is_empty() {
        None
    } else {
        Some(inner)
    }
}

/// The usable text of a JSON string.
pub fn usable_string(value: Option<&Json>) -> (r: Option<&str>)
    ensures
        text_of_str(r) == usable_json(tree_of_ref(value)),
{
    match value {
        Some(json) => match json.as_str() {
            Some(s) => usable_text(s),
            None => None,
        },
        None => None,
    }
}

/// The usable text under `key` in the `env` member of a configuration.
fn env_string<'a>(config: &'a Json, key: &str) -> (r: Option<&'a str>)
    ensures
        text_of_str(r) == env_text(config@, key@),
{
    match config.get("env") {
        Some(env) => usable_string(env.get(key)),
        None => None,
    }
}

/// The first usable model of a list of routes.
fn first_route(routes: &Vec<ModelRoute>) -> (r: Option<&str>)
    ensures
        text_of_str(r) == route_model(routes@),
{
    let mut i: usize = 0;
    assert(routes@.skip(0) == routes@);
    while i < routes.len()
        invariant
            i <= routes@.len(),
            route_model(routes@) == route_model(routes@.skip(i as int)),
        decreases routes@.len() - i,
    {
        assert(routes@.skip(i as int).drop_first() == routes@.skip(i + 1));
        let model = usable_text(routes[i].model.as_str());
        if model.is_some() {
            return model;
        }
        i += 1;
    }
    None
}

/// The model that a provider of Anthropic's format is configured with, if any.
fn claude_string(provider: &Provider) -> (r: Option<&str>)
    ensures
        text_of_str(r) == claude_model(*provider),
{
    let config = &provider.settings_config;
    let chosen = env_string(config, "ANTHROPIC_MODEL");
    if chosen.is_some() {
        return chosen;
    }
    let routed = match &provider.meta {
        Some(meta) => first_route(&meta.claude_desktop_model_routes),
        None => None,
    };
    if routed.is_some() {
        return routed;
    }
    let sonnet = env_string(config, "ANTHROPIC_DEFAULT_SONNET_MODEL");
    if sonnet.is_some() {
        return sonnet;
    }
    let haiku = env_string(config, "ANTHROPIC_DEFAULT_HAIKU_MODEL");
    if haiku.is_some() {
        return haiku;
    }
    env_string(config, "ANTHROPIC_DEFAULT_OPUS_MODEL")
}

/// A text of its own, or that of a default.
fn owned_or(value: Option<&str>, default: &str) -> (r: Option<String>)
    ensures
        text_of(r) == either(text_of_str(value), Some(default@)),
{
    match value {
        Some(s) => Some(s.to_string()),
        None => Some(default.to_string()),
    }
}

impl ModelCheckService {
    /// The model of a check: the one asked for, else the one that the routing of
    /// real requests would take from the provider's configuration. Only the
    /// applications that list their models can be left without one.
    pub fn resolve_test_model(
        app_type: &AppType,
        provider: &Provider,
        requested_model: Option<&str>,
        profile: &AnthropicProfile,
    ) -> (r: Option<String>)
        ensures
            text_of(r) == test_model(
                *app_type,
                *provider,
                text_of_str(requested_model),
                *profile,
            ),
    {
        match requested_model {
            Some(model) => match usable_text(model) {
                Some(usable) => {
                    return Some(usable.to_string());
                },
                None => {},
            },
            None => {},
        }
        match app_type {
            AppType::Claude | AppType::ClaudeDesktop => owned_or(
                claude_string(provider),
                profile.default_model.as_str(),
            ),
            AppType::Codex | AppType::GrokBuild => match &provider.routing.codex_upstream_model {
                Some(model) => Some(model.clone()),
                None => Some(DEFAULT_CODEX_MODEL.to_string()),
            },
            AppType::Gemini => {
                let config = &provider.settings_config;
                let chosen = env_string(config, "GEMINI_MODEL");
                if chosen.is_some() {
                    owned_or(chosen, DEFAULT_GEMINI_MODEL)
                } else {
                    owned_or(usable_string(config.get("model")), DEFAULT_GEMINI_MODEL)
                }
            },
            AppType::OpenCode | AppType::OpenClaw | AppType::Hermes | AppType::Pi => {
                Self::first_model(provider.settings_config.get("models"))
            },
        }
    }

    /// The first usable model of a `models` setting: the first `id` of a list, or
    /// the first key of an object.
    pub fn first_model(value: Option<&Json>) -> (r: Option<String>)
        ensures
            text_of(r) == named_model(tree_of_ref(value)),
    {
        match value {
            Some(Json::Array(items)) => {
                let ghost trees = value->0@->Array_0;
                let mut i: usize = 0;
                assert(trees.skip(0) == trees);
                while i < items.len()
                    invariant
                        i <= items@.len() == trees.len(),
                        forall|j: int| 0 <= j < items@.len() ==> trees[j] == (#[trigger] items@[j])@,
                        tree_of_ref(value) == Some(JsonTree::Array(trees)),
                        listed_model(trees) == listed_model(trees.skip(i as int)),
                    decreases items@.len() - i,
                {
                    assert(trees.skip(i as int).first() == items@[i as int]@);
                    assert(trees.skip(i as int).drop_first() == trees.skip(i + 1));
                    match usable_string(items[i].get("id")) {
                        Some(model) => {
                            return Some(model.to_string());
                        },
                        None => {},
                    }
                    i += 1;
                }
                None
            },
            Some(Json::Object(entries)) => {
                let ghost trees = entries_tree(entries@);
                assert(value->0@->Object_0 =~= trees);
                let mut i: usize = 0;
                assert(trees.skip(0) == trees);
                while i < entries.len()
                    invariant
                        i <= entries@.len(),
                        trees == entries_tree(entries@),
                        tree_of_ref(value) == Some(JsonTree::Object(trees)),
                        keyed_model(trees) == keyed_model(trees.skip(i as int)),
                    decreases entries@.len() - i,
                {
                    assert(trees.skip(i as int).first() == trees[i as int]);
                    assert(trees.skip(i as int).drop_first() == trees.skip(i + 1));
                    match usable_text(entries[i].0.as_str()) {
                        Some(model) => {
                            return Some(model.to_string());
                        },
                        None => {},
                    }
                    i += 1;
                }
                None
            },
            _ => None,
        }
    }

    /// The model and the reasoning effort of a name such as `gpt-5@low`.
    pub fn parse_model_with_effort(model: &str) -> (r: (String, Option<String>))
        ensures
            (r.0@, text_of(r.1)) == effort_split(model@),
    {
        let index = match text::find(model, '@') {
            Some(i) => Some(i),
            None => text::find(model, '#'),
        };
        match index {
            None => (model.to_string(), None),
            Some(i) => {
                let total: usize = model.unicode_len();
                assert(model@.subrange(0, i as int) == model@.take(i as int));
                assert(model@.subrange(i + 1, total as int) == model@.skip(i + 1));
                let actual = text::trim(model.substring_char(0, i));
                if actual.is_empty() {
                    return (model.to_string(), None);
                }
                let effort = match usable_text(model.substring_char(i + 1, total)) {
                    Some(effort) => Some(effort.to_string()),
                    None => None,
                };
                (actual.to_string(), effort)
            },
        }
    }
}

} // verus!
