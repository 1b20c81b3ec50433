//! The bodies of requests.
use vstd::prelude::*;

use crate::json::{entries_tree, inserted, Json, JsonTree};
use crate::laws::json::law_bodies;
use crate::types::{text_of_str, ModelCheckService};

verus! {

pub const MODEL_CHECK_PROMPT: &'static str = "Reply with OK.";

/// The one message of every check, in the shape that OpenAI and Anthropic share.
pub open spec fn user_message() -> JsonTree {
    JsonTree::Object(
        seq![
            ("role"@, JsonTree::String("user"@)),
            ("content"@, JsonTree::String(MODEL_CHECK_PROMPT@)),
        ],
    )
}

/// The body of a messages request before it is mapped and translated.
pub open spec fn claude_body(model: Seq<char>) -> JsonTree {
    JsonTree::Object(
        seq![
            ("model"@, JsonTree::String(model)),
            ("max_tokens"@, JsonTree::Number("8"@)),
            ("messages"@, JsonTree::Array(seq![user_message()])),
            ("stream"@, JsonTree::Bool(true)),
        ],
    )
}

/// The body of a Codex request before the upstream model is put in.
pub open spec fn codex_body(model: Seq<char>, uses_chat: bool) -> JsonTree {
    if uses_chat {
        JsonTree::Object(
            seq![
                ("model"@, JsonTree::String(model)),
                ("messages"@, JsonTree::Array(seq![user_message()])),
                ("max_tokens"@, JsonTree::Number("1"@)),
                ("stream"@, JsonTree::Bool(true)),
            ],
        )
    } else {
        JsonTree::Object(
            seq![
                ("model"@, JsonTree::String(model)),
                ("input"@, JsonTree::Array(seq![user_message()])),
                ("stream"@, JsonTree::Bool(true)),
                ("store"@, JsonTree::Bool(false)),
            ],
        )
    }
}

/// The body of a native Gemini request.
pub open spec fn gemini_body() -> JsonTree {
    JsonTree::Object(
        seq![
            (
                "contents"@,
                JsonTree::Array(
                    seq![
                        JsonTree::Object(
                            seq![
                                ("role"@, JsonTree::String("user"@)),
                                (
                                    "parts"@,
                                    JsonTree::Array(
                                        seq![
                                            JsonTree::Object(
                                                seq![
                                                    (
                                                        "text"@,
                                                        JsonTree::String(MODEL_CHECK_PROMPT@),
                                                    ),
                                                ],
                                            ),
                                        ],
                                    ),
                                ),
                            ],
                        ),
                    ],
                ),
            ),
        ],
    )
}

/// A body that may take a further member: an object, or `null` in place of one.
pub open spec fn takes_members(body: JsonTree) -> bool {
    body is Object || body is Null
}

/// A body with one more member.
pub open spec fn with_member(body: JsonTree, key: Seq<char>, value: JsonTree) -> JsonTree {
    match body {
        JsonTree::Object(entries) => JsonTree::Object(inserted(entries, key, value)),
        _ => JsonTree::Object(seq![(key, value)]),
    }
}

/// The body of a Codex request with the reasoning effort that was asked for.
pub open spec fn reasoning_body(
    body: JsonTree,
    uses_chat: bool,
    effort: Option<Seq<char>>,
    effort_supported: bool,
) -> JsonTree {
    match effort {
        None => body,
        Some(effort) => if !uses_chat {
            with_member(
                body,
                "reasoning"@,
                JsonTree::Object(seq![("effort"@, JsonTree::String(effort))]),
            )
        } else if effort_supported {
            with_member(body, "reasoning_effort"@, JsonTree::String(effort))
        } else {
            body
        },
    }
}

/// A string value.
fn string(text: &str) -> (r: Json)
    ensures
        r@ == JsonTree::String(text@),
{
    Json::String(text.to_string())
}

/// A list of one value.
fn single(item: Json) -> (r: Json)
    ensures
        r@ == JsonTree::Array(seq![item@]),
{
    let mut items: Vec<Json> = Vec::new();
    items.push(item);
    let r = Json::Array(items);
    assert(r@->Array_0 =~= seq![item@]);
    r
}

/// Appends one member.
fn push_member(members: &mut Vec<(String, Json)>, key: &str, value: Json)
    ensures
        entries_tree(final(members)@) == entries_tree(old(members)@).push((key@, value@)),
{
    members.push((key.to_string(), value));
    assert(entries_tree(members@) =~= entries_tree(old(members)@).push((key@, value@)));
}

/// An object with these members.
fn object(members: Vec<(String, Json)>) -> (r: Json)
    ensures
        r@ == JsonTree::Object(entries_tree(members@)),
{
    let r = Json::Object(members);
    assert(r@->Object_0 =~= entries_tree(members@));
    r
}

/// The one message of every check.
fn new_user_message() -> (r: Json)
    ensures
        r@ == user_message(),
{
    let mut members: Vec<(String, Json)> = Vec::new();
    push_member(&mut members, "role", string("user"));
    push_member(&mut members, "content", string(MODEL_CHECK_PROMPT));
    assert(entries_tree(members@) =~= user_message()->Object_0);
    object(members)
}

impl ModelCheckService {
    /// The body of a messages request before it is mapped and translated.
    pub fn claude_request_body(model: &str) -> (r: Json)
        ensures
            r@ == claude_body(model@),
            r@.well_formed(),
    {
        let mut members: Vec<(String, Json)> = Vec::new();
        push_member(&mut members, "model", string(model));
        push_member(&mut members, "max_tokens", Json::Number("8".to_string()));
        push_member(&mut members, "messages", single(new_user_message()));
        push_member(&mut members, "stream", Json::Bool(true));
        assert(entries_tree(members@) =~= claude_body(model@)->Object_0);
        proof {
            law_bodies(model@, true);
        }
        object(members)
    }

    /// The body of a Codex request before the upstream model is put in.
    pub fn codex_request_body(model: &str, uses_chat: bool) -> (r: Json)
        ensures
            r@ == codex_body(model@, uses_chat),
            r@.well_formed(),
    {
        let mut members: Vec<(String, Json)> = Vec::new();
        push_member(&mut members, "model", string(model));
        if uses_chat {
            push_member(&mut members, "messages", single(new_user_message()));
            push_member(&mut members, "max_tokens", Json::Number("1".to_string()));
            push_member(&mut members, "stream", Json::Bool(true));
        } else {
            push_member(&mut members, "input", single(new_user_message()));
            push_member(&mut members, "stream", Json::Bool(true));
            push_member(&mut members, "store", Json::Bool(false));
        }
        assert(entries_tree(members@) =~= codex_body(model@, uses_chat)->Object_0);
        proof {
            law_bodies(model@, uses_chat);
        }
        object(members)
    }

    /// The body of a native Gemini request.
    pub fn gemini_request_body() -> (r: Json)
        ensures
            r@ == gemini_body(),
            r@.well_formed(),
    {
        let mut part: Vec<(String, Json)> = Vec::new();
        push_member(&mut part, "text", string(MODEL_CHECK_PROMPT));
        assert(entries_tree(part@) =~= seq![("text"@, JsonTree::String(MODEL_CHECK_PROMPT@))]);
        let parts = single(object(part));
        let mut content: Vec<(String, Json)> = Vec::new();
        push_member(&mut content, "role", string("user"));
        push_member(&mut content, "parts", parts);
        assert(entries_tree(content@) =~= seq![
            ("role"@, JsonTree::String("user"@)),
            ("parts"@, parts@),
        ]);
        let contents = single(object(content));
        let mut members: Vec<(String, Json)> = Vec::new();
        push_member(&mut members, "contents", contents);
        assert(entries_tree(members@) =~= seq![("contents"@, contents@)]);
        proof {
            law_bodies(seq![], true);
        }
        object(members)
    }

    /// The body of a Codex request with the reasoning effort that was asked for.
    /// Chat Completions take one only for the models that support it.
    pub fn codex_reasoning_body(
        body: Json,
        uses_chat: bool,
        effort: Option<&str>,
        effort_supported: bool,
    ) -> (r: Json)
        requires
            effort is Some && (!uses_chat || effort_supported) ==> takes_members(body@),
        ensures
            r@ == reasoning_body(body@, uses_chat, text_of_str(effort), effort_supported),
            body@.well_formed() ==> r@.well_formed(),
    {
        match effort {
            None => body,
            Some(effort) => if !uses_chat {
                let mut members: Vec<(String, Json)> = Vec::new();
                push_member(&mut members, "effort", string(effort));
                assert(entries_tree(members@) =~= seq![("effort"@, JsonTree::String(effort@))]);
                let reasoning = object(members);
                proof {
                    reveal_with_fuel(JsonTree::well_formed, 2);
                    assert(reasoning@.well_formed());
                }
                body.with("reasoning", reasoning)
            } else if effort_supported {
                body.with("reasoning_effort", string(effort))
            } else {
                body
            },
        }
    }
}

} // verus!
