//! Native Gemini requests.
use vstd::prelude::*;

use crate::bodies::gemini_body;
use crate::http::{
    adapter_of, extra_of, headers_of, optional_header, pairs_of, push_extra, push_header,
    push_headers, push_optional, request_of, user_agent, HeaderView, HttpRequest, HttpRequestView,
};
use crate::json::{Json, JsonTree};
use crate::types::{message, AppError, AppErrorView, CheckProtocol, ModelCheckService, Provider};

verus! {

/// A native Gemini request, given what the adapter made of the credential.
pub open spec fn gemini_http(
    url: Seq<char>,
    model: Seq<char>,
    provider: Provider,
    adapter: Result<Seq<HeaderView>, Seq<char>>,
    extra_headers: Option<Seq<(Seq<char>, JsonTree)>>,
) -> Result<HttpRequestView, AppErrorView> {
    match adapter {
        Err(text) => message(text),
        Ok(made) => Ok(
            HttpRequestView {
                url,
                headers: seq![
                    ("content-type"@, "application/json"@),
                    ("accept"@, "text/event-stream"@),
                ] + made + extra_of(extra_headers) + optional_header(
                    "user-agent"@,
                    user_agent(provider),
                ),
                body: gemini_body(),
                protocol: CheckProtocol::Gemini,
                model,
            },
        ),
    }
}

impl ModelCheckService {
    /// The native Gemini request to `url`, the address that resolves the base
    /// address and the endpoint of the model (see
    /// [`ModelCheckService::gemini_endpoint`]). `adapter` holds the headers that the
    /// Gemini adapter makes of the credential, or the text of its error.
    pub fn check_gemini(
        url: &str,
        model: &str,
        provider: &Provider,
        adapter: Result<Vec<(String, String)>, String>,
        extra_headers: Option<&Vec<(String, Json)>>,
    ) -> (r: Result<HttpRequest, AppError>)
        ensures
            request_of(r) == gemini_http(
                url@,
                model@,
                *provider,
                adapter_of(adapter),
                headers_of(extra_headers),
            ),
    {
        let made = match adapter {
            Ok(made) => made,
            Err(error) => {
                return Err(AppError::Message(error));
            },
        };
        let mut headers: Vec<(String, String)> = Vec::new();
        push_header(&mut headers, "content-type", "application/json");
        push_header(&mut headers, "accept", "text/event-stream");
        assert(pairs_of(headers@) =~= seq![
            ("content-type"@, "application/json"@),
            ("accept"@, "text/event-stream"@),
        ]);
        push_headers(&mut headers, &made);
        push_extra(&mut headers, extra_headers);
        push_optional(&mut headers, "user-agent", Self::custom_user_agent(provider));
        Ok(
            HttpRequest {
                url: url.to_string(),
                headers,
                body: Self::gemini_request_body(),
                protocol: CheckProtocol::Gemini,
                model: model.to_string(),
            },
        )
    }
}

} // verus!
