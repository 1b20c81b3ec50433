//! One exchange with the upstream, from the request that was sent to the outcome of the
//! check, as a machine that takes what happens and says what it is waiting for.
use vstd::prelude::*;

use crate::results::{kept_body, request_failure, RequestError};
use crate::stream::{chunk_text, closed_outcome, fed, ReaderView, ResponseReader};
use crate::types::{
    message, outcome_of, AppErrorView, CheckProtocol, ModelCheckService, Outcome, OutcomeView,
};

verus! {

/// The state of an exchange.
pub enum Exchange {
    /// The request was sent; its status is awaited.
    Waiting { model: String, protocol: CheckProtocol },
    /// The status is not one of success; the body that explains it is awaited.
    Refused { status: u16 },
    /// The answer is streamed.
    Reading(ResponseReader),
    /// The outcome is there.
    Ended(Outcome),
}

/// What an [`Exchange`] stands for.
pub enum ExchangeView {
    Waiting { model: Seq<char>, protocol: CheckProtocol },
    Refused { status: u16 },
    Reading(ReaderView),
    Ended(OutcomeView),
}

impl View for Exchange {
    type V = ExchangeView;

    open spec fn view(&self) -> ExchangeView {
        match *self {
            Exchange::Waiting { model, protocol } => ExchangeView::Waiting {
                model: model@,
                protocol,
            },
            Exchange::Refused { status } => ExchangeView::Refused { status },
            Exchange::Reading(reader) => ExchangeView::Reading(reader@),
            Exchange::Ended(outcome) => ExchangeView::Ended(outcome_of(outcome)),
        }
    }
}

/// Something that happens to an exchange.
pub enum ExchangeEvent<'a> {
    /// The request got no answer.
    SendFailed(RequestError),
    /// The status of the answer.
    Status(u16),
    /// The whole body of a refusal, or `None` where it could not be read.
    ErrorBody(Option<String>),
    /// A chunk of the stream.
    Chunk(&'a [u8]),
    /// The stream broke off with this error.
    ChunkFailed(String),
    /// The stream is at its end.
    Closed,
}

/// What an [`ExchangeEvent`] stands for.
pub enum EventView {
    SendFailed { timeout: bool, connect: bool, text: Seq<char> },
    Status(u16),
    ErrorBody(Option<Seq<char>>),
    Chunk(Seq<u8>),
    ChunkFailed(Seq<char>),
    Closed,
}

impl<'a> View for ExchangeEvent<'a> {
    type V = EventView;

    open spec fn view(&self) -> EventView {
        match *self {
            ExchangeEvent::SendFailed(error) => EventView::SendFailed {
                timeout: error.timeout,
                connect: error.connect,
                text: error.text@,
            },
            ExchangeEvent::Status(status) => EventView::Status(status),
            ExchangeEvent::ErrorBody(Some(body)) => EventView::ErrorBody(Some(body@)),
            ExchangeEvent::ErrorBody(None) => EventView::ErrorBody(None),
            ExchangeEvent::Chunk(bytes) => EventView::Chunk(bytes@),
            ExchangeEvent::ChunkFailed(text) => EventView::ChunkFailed(text@),
            ExchangeEvent::Closed => EventView::Closed,
        }
    }
}

/// A status of success.
pub open spec fn is_success_status(status: u16) -> bool {
    200 <= status < 300
}

/// The state that follows an event. One that does not belong to the state changes
/// nothing.
pub open spec fn stepped(state: ExchangeView, event: EventView) -> ExchangeView {
    match (state, event) {
        (
            ExchangeView::Waiting { .. },
            EventView::SendFailed { timeout, connect, text },
        ) => ExchangeView::Ended(Err(request_failure(timeout, connect, text))),
        (
            ExchangeView::Waiting { model, protocol },
            EventView::Status(status),
        ) => if is_success_status(status) {
            ExchangeView::Reading(ReaderView { status, model, protocol, pending: seq![] })
        } else {
            ExchangeView::Refused { status }
        },
        (ExchangeView::Refused { status }, EventView::ErrorBody(body)) => {
            let text = match body {
                Some(text) => text,
                None => seq![],
            };
            ExchangeView::Ended(Err(AppErrorView::HttpStatus { status, body: kept_body(text) }))
        },
        (ExchangeView::Reading(reader), EventView::Chunk(bytes)) => if bytes.len() == 0 {
            state
        } else {
            match fed(reader, chunk_text(bytes)) {
                (Some(outcome), _) => ExchangeView::Ended(outcome),
                (None, after) => ExchangeView::Reading(after),
            }
        },
        (ExchangeView::Reading(_), EventView::ChunkFailed(text)) => ExchangeView::Ended(
            message("读取模型响应失败: "@ + text),
        ),
        (ExchangeView::Reading(reader), EventView::Closed) => ExchangeView::Ended(
            closed_outcome(reader.pending, reader.status, reader.model),
        ),
        _ => state,
    }
}

impl ModelCheckService {
    /// Takes an exchange one event further. It starts out waiting, and no event is needed
    /// once it has ended.
    pub fn send_json_and_validate(state: Exchange, event: ExchangeEvent) -> (r: Exchange)
        ensures
            r@ == stepped(state@, event@),
    {
        match (state, event) {
            (Exchange::Waiting { .. }, ExchangeEvent::SendFailed(error)) => Exchange::Ended(
                Err(Self::map_request_error(error)),
            ),
            (
                Exchange::Waiting { model, protocol },
                ExchangeEvent::Status(status),
            ) => if Self::is_success(status) {
                Exchange::Reading(ResponseReader::new(status, model.as_str(), protocol))
            } else {
                Exchange::Refused { status }
            },
            (Exchange::Refused { status }, ExchangeEvent::ErrorBody(body)) => {
                let text = match body {
                    Some(text) => text,
                    None => String::new(),
                };
                proof {
                    if event@->ErrorBody_0 is None {
                        assert(text@ =~= seq![]);
                    }
                }
                Exchange::Ended(Err(Self::http_status_error(status, text)))
            },
            (Exchange::Reading(reader), ExchangeEvent::Chunk(bytes)) => {
                let mut reader = reader;
                match reader.read_chunk(bytes) {
                    Some(outcome) => Exchange::Ended(outcome),
                    None => Exchange::Reading(reader),
                }
            },
            (Exchange::Reading(_), ExchangeEvent::ChunkFailed(text)) => Exchange::Ended(
                ResponseReader::broken(text.as_str()),
            ),
            (Exchange::Reading(reader), ExchangeEvent::Closed) => Exchange::Ended(reader.finish()),
            (state, _) => state,
        }
    }
}

} // verus!
