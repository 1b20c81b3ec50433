//! Requests and their headers.
use vstd::prelude::*;

use crate::json::{entries_tree, Json, JsonTree};
use crate::text;
use crate::types::{
    text_of, text_of_str, AppError, AppErrorView, CheckProtocol, ModelCheckService, Provider,
};

verus! {

/// The name and the value of a header.
pub type HeaderView = (Seq<char>, Seq<char>);

/// A request that is ready to be sent. Headers are appended in their order: one
/// that occurs twice is sent twice.
#[derive(Debug)]
pub struct HttpRequest {
    pub url: String,
    pub headers: Vec<(String, String)>,
    pub body: Json,
    /// The dialect of the answer.
    pub protocol: CheckProtocol,
    /// The model that the result of the check names.
    pub model: String,
}

/// What an [`HttpRequest`] stands for.
pub struct HttpRequestView {
    pub url: Seq<char>,
    pub headers: Seq<HeaderView>,
    pub body: JsonTree,
    pub protocol: CheckProtocol,
    pub model: Seq<char>,
}

/// The characters of a list of headers.
pub open spec fn pairs_of(headers: Seq<(String, String)>) -> Seq<HeaderView> {
    Seq::new(headers.len(), |i: int| (headers[i].0@, headers[i].1@))
}

impl View for HttpRequest {
    type V = HttpRequestView;

    open spec fn view(&self) -> HttpRequestView {
        HttpRequestView {
            url: self.url@,
            headers: pairs_of(self.headers@),
            body: self.body@,
            protocol: self.protocol,
            model: self.model@,
        }
    }
}

/// A request, or why there is none.
pub open spec fn request_of(result: Result<HttpRequest, AppError>) -> Result<
    HttpRequestView,
    AppErrorView,
> {
    match result {
        Ok(request) => Ok(request@),
        Err(error) => Err(error@),
    }
}

/// Headers, or the text of the error in their place.
pub open spec fn adapter_of(result: Result<Vec<(String, String)>, String>) -> Result<
    Seq<HeaderView>,
    Seq<char>,
> {
    match result {
        Ok(headers) => Ok(pairs_of(headers@)),
        Err(text) => Err(text@),
    }
}

/// The members with a string value, as headers.
pub open spec fn string_members(entries: Seq<(Seq<char>, JsonTree)>) -> Seq<HeaderView>
    decreases entries.len(),
{
    if entries.len() == 0 {
        seq![]
    } else {
        match entries.last().1.as_str() {
            Some(value) => string_members(entries.drop_last()).push((entries.last().0, value)),
            None => string_members(entries.drop_last()),
        }
    }
}

/// Absent headers, or their trees.
pub open spec fn headers_of(
    headers: Option<&Vec<(String, Json)>>,
) -> Option<Seq<(Seq<char>, JsonTree)>> {
    match headers {
        Some(entries) => Some(entries_tree(entries@)),
        None => None,
    }
}

/// The headers of a configuration, where it has some.
pub open spec fn extra_of(headers: Option<Seq<(Seq<char>, JsonTree)>>) -> Seq<HeaderView> {
    match headers {
        Some(entries) => string_members(entries),
        None => seq![],
    }
}

/// The user agent that the provider's settings ask for.
pub open spec fn user_agent(provider: Provider) -> Option<Seq<char>> {
    match provider.meta {
        Some(meta) => match meta.custom_user_agent_header {
            Ok(value) => text_of(value),
            Err(_) => None,
        },
        None => None,
    }
}

/// One header under `name`, where there is a value for it.
pub open spec fn optional_header(name: Seq<char>, value: Option<Seq<char>>) -> Seq<HeaderView> {
    match value {
        Some(value) => seq![(name, value)],
        None => seq![],
    }
}

/// A key as a bearer token.
pub open spec fn bearer(api_key: Seq<char>) -> HeaderView {
    ("authorization"@, "Bearer "@ + api_key)
}

/// What every streaming request asks for.
pub open spec fn stream_headers() -> Seq<HeaderView> {
    seq![
        ("content-type"@, "application/json"@),
        ("accept"@, "text/event-stream"@),
        ("accept-encoding"@, "identity"@),
    ]
}

/// Appends one header.
pub fn push_header(headers: &mut Vec<(String, String)>, name: &str, value: &str)
    ensures
        pairs_of(final(headers)@) == pairs_of(old(headers)@).push((name@, value@)),
{
    headers.push((name.to_string(), value.to_string()));
    assert(pairs_of(headers@) =~= pairs_of(old(headers)@).push((name@, value@)));
}

/// Appends a list of headers.
pub fn push_headers(headers: &mut Vec<(String, String)>, more: &Vec<(String, String)>)
    ensures
        pairs_of(final(headers)@) == pairs_of(old(headers)@) + pairs_of(more@),
{
    let mut i: usize = 0;
    assert(pairs_of(headers@) =~= pairs_of(old(headers)@) + pairs_of(more@).take(0));
    while i < more.len()
        invariant
            i <= more@.len(),
            pairs_of(headers@) == pairs_of(old(headers)@) + pairs_of(more@).take(i as int),
        decreases more@.len() - i,
    {
        push_header(headers, more[i].0.as_str(), more[i].1.as_str());
        assert(pairs_of(more@).take(i + 1) =~= pairs_of(more@).take(i as int).push(
            pairs_of(more@)[i as int],
        ));
        assert(pairs_of(headers@) =~= pairs_of(old(headers)@) + pairs_of(more@).take(i + 1));
        i += 1;
    }
    assert(pairs_of(more@).take(i as int) =~= pairs_of(more@));
}

/// Appends one header, where there is a value for it.
pub fn push_optional(headers: &mut Vec<(String, String)>, name: &str, value: Option<&str>)
    ensures
        pairs_of(final(headers)@) == pairs_of(old(headers)@) + optional_header(
            name@,
            text_of_str(value),
        ),
{
    match value {
        Some(value) => {
            push_header(headers, name, value);
            assert(pairs_of(headers@) =~= pairs_of(old(headers)@) + seq![(name@, value@)]);
        },
        None => {
            assert(pairs_of(headers@) =~= pairs_of(old(headers)@) + Seq::<HeaderView>::empty());
        },
    }
}

/// Appends a key as a bearer token.
pub fn push_bearer(headers: &mut Vec<(String, String)>, api_key: &str)
    ensures
        pairs_of(final(headers)@) == pairs_of(old(headers)@).push(bearer(api_key@)),
{
    let token = text::join2("Bearer ", api_key);
    push_header(headers, "authorization", token.as_str());
}

/// What every streaming request asks for.
pub fn new_stream_headers() -> (r: Vec<(String, String)>)
    ensures
        pairs_of(r@) == stream_headers(),
{
    let mut headers: Vec<(String, String)> = Vec::new();
    push_header(&mut headers, "content-type", "application/json");
    push_header(&mut headers, "accept", "text/event-stream");
    push_header(&mut headers, "accept-encoding", "identity");
    assert(pairs_of(headers@) =~= stream_headers());
    headers
}

impl ModelCheckService {
    /// Appends the members of an object that are strings, each as a header.
    pub fn apply_extra_headers(headers: &mut Vec<(String, String)>, extra: &Vec<(String, Json)>)
        ensures
            pairs_of(final(headers)@) == pairs_of(old(headers)@) + string_members(
                entries_tree(extra@),
            ),
    {
        let ghost trees = entries_tree(extra@);
        let mut i: usize = 0;
        assert(trees.take(0) =~= seq![]);
        assert(pairs_of(headers@) =~= pairs_of(old(headers)@) + string_members(trees.take(0)));
        while i < extra.len()
            invariant
                i <= extra@.len(),
                trees == entries_tree(extra@),
                pairs_of(headers@) == pairs_of(old(headers)@) + string_members(
                    trees.take(i as int),
                ),
            decreases extra@.len() - i,
        {
            assert(trees.take(i + 1).drop_last() =~= trees.take(i as int));
            assert(trees.take(i + 1).last() == trees[i as int]);
            match extra[i].1.as_str() {
                Some(value) => {
                    push_header(headers, extra[i].0.as_str(), value);
                    assert(pairs_of(headers@) =~= pairs_of(old(headers)@) + string_members(
                        trees.take(i + 1),
                    ));
                },
                None => {},
            }
            i += 1;
        }
        assert(trees.take(i as int) =~= trees);
    }

    /// The user agent that the provider's settings ask for.
    pub fn custom_user_agent(provider: &Provider) -> (r: Option<&str>)
        ensures
            text_of_str(r) == user_agent(*provider),
    {
        match &provider.meta {
            Some(meta) => match &meta.custom_user_agent_header {
                Ok(Some(value)) => Some(value.as_str()),
                _ => None,
            },
            None => None,
        }
    }
}

/// Appends the headers of a configuration, where it has some.
pub fn push_extra(headers: &mut Vec<(String, String)>, extra: Option<&Vec<(String, Json)>>)
    ensures
        pairs_of(final(headers)@) == pairs_of(old(headers)@) + extra_of(headers_of(extra)),
{
    match extra {
        Some(entries) => ModelCheckService::apply_extra_headers(headers, entries),
        None => {
            assert(pairs_of(headers@) =~= pairs_of(old(headers)@) + Seq::<HeaderView>::empty());
        },
    }
}

} // verus!
