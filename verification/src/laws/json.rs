//! Laws of JSON objects and of the bodies that are made of them.
use vstd::prelude::*;

use crate::bodies::{
    claude_body, codex_body, gemini_body, reasoning_body, takes_members, user_message, with_member,
};
use crate::json::{distinct_keys, inserted, lookup, Json, JsonTree};

verus! {

/// A member that is put into an object is found under its key, and no other key is
/// affected.
pub proof fn law_inserted_is_found(
    entries: Seq<(Seq<char>, JsonTree)>,
    key: Seq<char>,
    value: JsonTree,
    other: Seq<char>,
)
    ensures
        lookup(inserted(entries, key, value), key) == Some(value),
        other != key ==> lookup(inserted(entries, key, value), other) == lookup(entries, other),
    decreases entries.len(),
{
    let after = inserted(entries, key, value);
    if entries.len() == 0 {
        assert(after.first() == (key, value));
        assert(after.drop_first() =~= entries);
    } else if entries.first().0 == key {
        assert(after.first() == (key, value));
        assert(after.drop_first() =~= entries.drop_first());
    } else {
        law_inserted_is_found(entries.drop_first(), key, value, other);
        assert(after.first() == entries.first());
        assert(after.drop_first() =~= inserted(entries.drop_first(), key, value));
    }
}

/// What is in an object after an insertion is the new member or was there before.
proof fn lemma_inserted_members(
    entries: Seq<(Seq<char>, JsonTree)>,
    key: Seq<char>,
    value: JsonTree,
    i: int,
)
    requires
        0 <= i < inserted(entries, key, value).len(),
    ensures
        inserted(entries, key, value)[i] == (key, value) || entries.contains(
            inserted(entries, key, value)[i],
        ),
    decreases entries.len(),
{
    let after = inserted(entries, key, value);
    if entries.len() > 0 {
        let rest = entries.drop_first();
        if entries.first().0 == key {
            if i > 0 {
                assert(after[i] == entries[i]);
            }
        } else if i == 0 {
            assert(after[0] == entries[0]);
        } else {
            lemma_inserted_members(rest, key, value, i - 1);
            assert(after[i] == inserted(rest, key, value)[i - 1]);
            if after[i] != (key, value) {
                let k = choose|k: int| 0 <= k < rest.len() && rest[k] == after[i];
                assert(entries[k + 1] == after[i]);
            }
        }
    }
}

/// Putting a member into an object keeps its keys apart.
pub proof fn law_inserted_keeps_keys_apart(
    entries: Seq<(Seq<char>, JsonTree)>,
    key: Seq<char>,
    value: JsonTree,
)
    requires
        distinct_keys(entries),
    ensures
        distinct_keys(inserted(entries, key, value)),
    decreases entries.len(),
{
    let after = inserted(entries, key, value);
    if entries.len() > 0 {
        let rest = entries.drop_first();
        assert(distinct_keys(rest)) by {
            assert forall|i: int, j: int| 0 <= i < j < rest.len() implies #[trigger] rest[i].0
                != #[trigger] rest[j].0 by {
                assert(rest[i] == entries[i + 1]);
                assert(rest[j] == entries[j + 1]);
            }
        }
        if entries.first().0 == key {
            assert forall|i: int, j: int| 0 <= i < j < after.len() implies #[trigger] after[i].0
                != #[trigger] after[j].0 by {
                assert(after[i].0 == entries[i].0);
                assert(after[j].0 == entries[j].0);
            }
        } else {
            law_inserted_keeps_keys_apart(rest, key, value);
            let inner = inserted(rest, key, value);
            assert forall|i: int, j: int| 0 <= i < j < after.len() implies #[trigger] after[i].0
                != #[trigger] after[j].0 by {
                assert(after[j] == inner[j - 1]);
                if i == 0 {
                    assert(after[0] == entries[0]);
                    lemma_inserted_members(rest, key, value, j - 1);
                    if inner[j - 1] != (key, value) {
                        let k = choose|k: int| 0 <= k < rest.len() && rest[k] == inner[j - 1];
                        assert(rest[k] == entries[k + 1]);
                    }
                } else {
                    assert(after[i] == inner[i - 1]);
                }
            }
        }
    }
}

/// Putting a well-formed member into a well-formed object leaves it well-formed.
pub proof fn law_inserted_is_well_formed(
    entries: Seq<(Seq<char>, JsonTree)>,
    key: Seq<char>,
    value: JsonTree,
)
    requires
        JsonTree::Object(entries).well_formed(),
        value.well_formed(),
    ensures
        JsonTree::Object(inserted(entries, key, value)).well_formed(),
{
    law_inserted_keeps_keys_apart(entries, key, value);
    let after = inserted(entries, key, value);
    assert forall|i: int| 0 <= i < after.len() implies (#[trigger] after[i]).1.well_formed() by {
        lemma_inserted_members(entries, key, value, i);
        if after[i] != (key, value) {
            let k = choose|k: int| 0 <= k < entries.len() && entries[k] == after[i];
            assert(entries[k].1.well_formed());
        }
    }
}

/// Putting a well-formed member into a well-formed body leaves it well-formed, and adds
/// that member alone.
pub proof fn law_with_member(
    body: JsonTree,
    key: Seq<char>,
    value: JsonTree,
    other: Seq<char>,
)
    requires
        takes_members(body),
    ensures
        with_member(body, key, value).get(key) == Some(value),
        other != key ==> with_member(body, key, value).get(other) == body.get(other),
        body.well_formed() && value.well_formed() ==> with_member(body, key, value).well_formed(),
{
    match body {
        JsonTree::Object(entries) => {
            law_inserted_is_found(entries, key, value, other);
            if body.well_formed() && value.well_formed() {
                law_inserted_is_well_formed(entries, key, value);
            }
        },
        _ => {
            reveal_with_fuel(lookup, 2);
            assert(seq![(key, value)].drop_first() =~= seq![]);
        },
    }
}

/// A reasoning effort goes where the format of the request looks for it, and nothing else
/// of the body changes; Chat Completions leave it out for a model without support.
pub proof fn law_reasoning_effort(
    body: JsonTree,
    uses_chat: bool,
    effort: Seq<char>,
    effort_supported: bool,
    other: Seq<char>,
)
    requires
        takes_members(body),
    ensures
        !uses_chat ==> reasoning_body(body, uses_chat, Some(effort), effort_supported).get(
            "reasoning"@,
        ) == Some(JsonTree::Object(seq![("effort"@, JsonTree::String(effort))])),
        uses_chat && effort_supported ==> reasoning_body(
            body,
            uses_chat,
            Some(effort),
            effort_supported,
        ).get("reasoning_effort"@) == Some(JsonTree::String(effort)),
        uses_chat && !effort_supported ==> reasoning_body(
            body,
            uses_chat,
            Some(effort),
            effort_supported,
        ) == body,
        other != "reasoning"@ && other != "reasoning_effort"@ ==> reasoning_body(
            body,
            uses_chat,
            Some(effort),
            effort_supported,
        ).get(other) == body.get(other),
{
    law_with_member(
        body,
        "reasoning"@,
        JsonTree::Object(seq![("effort"@, JsonTree::String(effort))]),
        other,
    );
    law_with_member(body, "reasoning_effort"@, JsonTree::String(effort), other);
}

/// Every body is a well-formed JSON object, names its model where it has one, and the
/// streaming formats ask for a stream.
pub proof fn law_bodies(model: Seq<char>, uses_chat: bool)
    ensures
        claude_body(model).well_formed(),
        claude_body(model).get("model"@) == Some(JsonTree::String(model)),
        claude_body(model).get("stream"@) == Some(JsonTree::Bool(true)),
        codex_body(model, uses_chat).well_formed(),
        codex_body(model, uses_chat).get("model"@) == Some(JsonTree::String(model)),
        codex_body(model, uses_chat).get("stream"@) == Some(JsonTree::Bool(true)),
        gemini_body().well_formed(),
{
    lemma_keys_differ();
    reveal_with_fuel(lookup, 5);
    reveal_with_fuel(JsonTree::well_formed, 7);
    assert(distinct_keys(user_message()->Object_0));
    assert(distinct_keys(claude_body(model)->Object_0));
    assert(distinct_keys(codex_body(model, uses_chat)->Object_0));
    assert(distinct_keys(gemini_body()->Object_0));
}

/// The keys that bodies use are different texts.
proof fn lemma_keys_differ()
    ensures
        "role"@ != "content"@,
        "role"@ != "parts"@,
        "model"@ != "max_tokens"@,
        "model"@ != "messages"@,
        "model"@ != "stream"@,
        "model"@ != "input"@,
        "model"@ != "store"@,
        "max_tokens"@ != "messages"@,
        "max_tokens"@ != "stream"@,
        "messages"@ != "stream"@,
        "messages"@ != "input"@,
        "messages"@ != "store"@,
        "max_tokens"@ != "input"@,
        "max_tokens"@ != "store"@,
        "input"@ != "stream"@,
        "input"@ != "store"@,
        "stream"@ != "store"@,
{
    reveal_strlit("role");
    reveal_strlit("content");
    reveal_strlit("parts");
    reveal_strlit("model");
    reveal_strlit("max_tokens");
    reveal_strlit("messages");
    reveal_strlit("stream");
    reveal_strlit("input");
    reveal_strlit("store");
    assert("role"@.len() == 4);
    assert("content"@.len() == 7);
    assert("parts"@.len() == 5);
    assert("model"@.len() == 5);
    assert("max_tokens"@.len() == 10);
    assert("messages"@.len() == 8);
    assert("stream"@.len() == 6);
    assert("input"@[0] != "store"@[0]);
    assert("model"@[0] != "input"@[0]);
    assert("model"@[0] != "store"@[0]);
}

/// The member under a key is the first one of that key; there is none only where no
/// member has the key.
pub proof fn law_lookup(entries: Seq<(Seq<char>, JsonTree)>, key: Seq<char>)
    ensures
        match JsonTree::Object(entries).get(key) {
            Some(value) => exists|i: int|
                0 <= i < entries.len() && #[trigger] entries[i] == (key, value) && forall|j: int|
                    0 <= j < i ==> (#[trigger] entries[j]).0 != key,
            None => forall|i: int| 0 <= i < entries.len() ==> (#[trigger] entries[i]).0 != key,
        },
    decreases entries.len(),
{
    if entries.len() > 0 {
        if entries[0].0 == key {
            assert(entries[0] == (key, entries[0].1));
        } else {
            let rest = entries.drop_first();
            law_lookup(rest, key);
            assert forall|j: int| 0 < j < entries.len() implies #[trigger] entries[j] == rest[j - 1] by {}
            match JsonTree::Object(rest).get(key) {
                Some(value) => {
                    let i = choose|i: int|
                        0 <= i < rest.len() && #[trigger] rest[i] == (key, value) && forall|j: int|
                            0 <= j < i ==> (#[trigger] rest[j]).0 != key;
                    assert(entries[i + 1] == (key, value));
                },
                None => {},
            }
        }
    }
}

/// Only an object has members, only a string has characters, only a boolean has a truth
/// value.
pub proof fn law_parts_of_values(
    tree: JsonTree,
    key: Seq<char>,
    s: Seq<char>,
    b: bool,
    entries: Seq<(Seq<char>, JsonTree)>,
)
    ensures
        !(tree is Object) ==> tree.get(key) is None,
        tree.as_str() == Some(s) <==> tree == JsonTree::String(s),
        tree.as_bool() == Some(b) <==> tree == JsonTree::Bool(b),
        tree.as_object() == Some(entries) <==> tree == JsonTree::Object(entries),
{
}

/// A value stands for the tree of the same shape.
pub proof fn law_tree_of_a_value(value: Json)
    ensures
        value is Null <==> value@ is Null,
        value matches Json::Bool(b) ==> value@ == JsonTree::Bool(b),
        value matches Json::Number(n) ==> value@ == JsonTree::Number(n@),
        value matches Json::String(s) ==> value@ == JsonTree::String(s@),
        value matches Json::Array(items) ==> (value@ matches JsonTree::Array(trees)
            && trees.len() == items@.len() && forall|i: int|
            0 <= i < items@.len() ==> #[trigger] trees[i] == items@[i]@),
        value matches Json::Object(entries) ==> (value@ matches JsonTree::Object(trees)
            && trees.len() == entries@.len() && forall|i: int|
            0 <= i < entries@.len() ==> #[trigger] trees[i] == (
                entries@[i].0@,
                entries@[i].1@,
            )),
{
}

/// The message of a user that asks for a short reply, and nothing else.
pub open spec fn asks_for_ok(tree: JsonTree) -> bool {
    &&& tree is Object
    &&& tree.get("role"@) == Some(JsonTree::String("user"@))
    &&& tree.get("content"@) == Some(JsonTree::String("Reply with OK."@))
    &&& forall|key: Seq<char>|
        key != "role"@ && key != "content"@ ==> (#[trigger] tree.get(key)) is None
}

/// A list that holds that message alone.
pub open spec fn asks_once(value: Option<JsonTree>) -> bool {
    value matches Some(JsonTree::Array(items)) && items.len() == 1 && asks_for_ok(items[0])
}

proof fn lemma_asks_for_ok()
    ensures
        asks_for_ok(user_message()),
{
    lemma_keys_differ();
    reveal_with_fuel(lookup, 3);
}

/// A messages request asks for eight tokens of a streamed reply to the one message, and
/// for nothing else.
pub proof fn law_messages_body(model: Seq<char>, other: Seq<char>)
    ensures
        claude_body(model) is Object,
        claude_body(model).get("model"@) == Some(JsonTree::String(model)),
        claude_body(model).get("max_tokens"@) == Some(JsonTree::Number("8"@)),
        claude_body(model).get("stream"@) == Some(JsonTree::Bool(true)),
        asks_once(claude_body(model).get("messages"@)),
        other != "model"@ && other != "max_tokens"@ && other != "stream"@ && other != "messages"@
            ==> claude_body(model).get(other) is None,
{
    lemma_keys_differ();
    lemma_asks_for_ok();
    reveal_with_fuel(lookup, 5);
}

/// A body for Chat Completions holds the message under `messages` and asks for one token;
/// a body for Responses holds it under `input` and is not stored. Neither has a member of
/// the other, or any further one.
pub proof fn law_codex_body(model: Seq<char>, other: Seq<char>)
    ensures
        codex_body(model, true) is Object,
        codex_body(model, true).get("model"@) == Some(JsonTree::String(model)),
        asks_once(codex_body(model, true).get("messages"@)),
        codex_body(model, true).get("max_tokens"@) == Some(JsonTree::Number("1"@)),
        codex_body(model, true).get("stream"@) == Some(JsonTree::Bool(true)),
        codex_body(model, true).get("input"@) is None,
        codex_body(model, true).get("store"@) is None,
        other != "model"@ && other != "messages"@ && other != "max_tokens"@ && other != "stream"@
            ==> codex_body(model, true).get(other) is None,
        codex_body(model, false) is Object,
        codex_body(model, false).get("model"@) == Some(JsonTree::String(model)),
        asks_once(codex_body(model, false).get("input"@)),
        codex_body(model, false).get("stream"@) == Some(JsonTree::Bool(true)),
        codex_body(model, false).get("store"@) == Some(JsonTree::Bool(false)),
        codex_body(model, false).get("messages"@) is None,
        codex_body(model, false).get("max_tokens"@) is None,
        other != "model"@ && other != "input"@ && other != "stream"@ && other != "store"@
            ==> codex_body(model, false).get(other) is None,
{
    lemma_keys_differ();
    lemma_asks_for_ok();
    reveal_with_fuel(lookup, 5);
}

/// A native Gemini body holds one turn of the user, whose one part is the text that asks
/// for a short reply, and nothing else.
pub proof fn law_gemini_body(other: Seq<char>)
    ensures
        gemini_body() is Object,
        other != "contents"@ ==> gemini_body().get(other) is None,
        gemini_body().get("contents"@) matches Some(JsonTree::Array(turns)) && turns.len() == 1
            && turns[0] is Object && turns[0].get("role"@) == Some(JsonTree::String("user"@)) && (
        other != "role"@ && other != "parts"@ ==> turns[0].get(other) is None) && (turns[0].get(
            "parts"@,
        ) matches Some(JsonTree::Array(parts)) && parts.len() == 1 && parts[0] is Object
            && parts[0].get("text"@) == Some(JsonTree::String("Reply with OK."@)) && (other
            != "text"@ ==> parts[0].get(other) is None)),
{
    lemma_keys_differ();
    reveal_with_fuel(lookup, 3);
}

/// Without a reasoning effort a body is left alone. With one, Responses get it as the one
/// member of `reasoning`, Chat Completions as `reasoning_effort` where the model takes one;
/// no other member changes.
pub proof fn law_effort_is_the_only_change(
    body: JsonTree,
    effort: Seq<char>,
    supported: bool,
    other: Seq<char>,
)
    requires
        body is Object || body is Null,
    ensures
        reasoning_body(body, true, None, supported) == body,
        reasoning_body(body, false, None, supported) == body,
        reasoning_body(body, true, Some(effort), false) == body,
        reasoning_body(body, true, Some(effort), true).get("reasoning_effort"@) == Some(
            JsonTree::String(effort),
        ),
        other != "reasoning_effort"@ ==> reasoning_body(body, true, Some(effort), true).get(other)
            == body.get(other),
        reasoning_body(body, false, Some(effort), supported).get("reasoning"@) == Some(
            JsonTree::Object(seq![("effort"@, JsonTree::String(effort))]),
        ),
        other != "reasoning"@ ==> reasoning_body(body, false, Some(effort), supported).get(other)
            == body.get(other),
{
    law_with_member(
        body,
        "reasoning"@,
        JsonTree::Object(seq![("effort"@, JsonTree::String(effort))]),
        other,
    );
    law_with_member(body, "reasoning_effort"@, JsonTree::String(effort), other);
}

} // verus!
