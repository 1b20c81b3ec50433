//! Laws of reading a streamed answer.
use vstd::prelude::*;
use vstd::utf8::{decode_utf8, pop_first_scalar, valid_utf8, valid_utf8_concat};

use crate::exchange::{is_success_status, stepped, EventView, ExchangeView};
use crate::json::{json_text, JsonTree};
use crate::laws::text::law_trimmed;
use crate::results::kept_body;
use crate::stream::{
    carried_payload, chunk_text, closed_outcome, fed, is_control, is_error_payload, line_verdict,
    line_verdict_with, scan, ReaderView,
};
use crate::text::{first_index, lemma_first_index, lowered, occurs, trimmed};
use crate::types::{AppErrorView, CheckProtocol, OutcomeView};

verus! {

/// White space around a line does not change what it says.
pub proof fn law_line_ignores_white_space(line: Seq<char>)
    ensures
        line_verdict(trimmed(line)) == line_verdict(line),
{
    law_trimmed(line);
}

/// Blank lines, comments, identifiers, reconnection times, data lines without data and the
/// closing `[DONE]` in any case say nothing of an answer.
pub proof fn law_control_lines_are_silent(line: Seq<char>, parsed: Option<JsonTree>)
    ensures
        ({
            let inner = trimmed(line);
            let silent = line_verdict(line) is None && line_verdict_with(line, parsed) is None;
            &&& inner.len() == 0 ==> silent
            &&& inner.len() > 0 && inner.first() == ':' ==> silent
            &&& "id:"@.is_prefix_of(inner) ==> silent
            &&& "retry:"@.is_prefix_of(inner) ==> silent
            &&& "data:"@.is_prefix_of(inner) && trimmed(inner.skip(5)).len() == 0 ==> silent
            &&& "data:"@.is_prefix_of(inner) && lowered(trimmed(inner.skip(5))) == "[done]"@
                ==> silent
            &&& lowered(inner) == "[done]"@ ==> silent
        }),
{
    reveal_strlit(":");
    reveal_strlit("data:");
    reveal_strlit("event:");
    lemma_done();
    let inner = trimmed(line);
    assert("data:"@.len() == 5);
    if inner.len() > 0 && inner.first() == ':' {
        assert(":"@.is_prefix_of(inner));
    }
    if "data:"@.is_prefix_of(inner) {
        assert(inner[0] == "data:"@[0]);
        assert(!"event:"@.is_prefix_of(inner)) by {
            if "event:"@.is_prefix_of(inner) {
                assert(inner[0] == "event:"@[0]);
            }
        }
    }
    if lowered(inner) == "[done]"@ {
        assert(lowered(inner)[0] == "[done]"@[0]);
        assert(inner[0] == '[');
        if "event:"@.is_prefix_of(inner) {
            assert(inner[0] == "event:"@[0]);
        }
    }
}

/// The closing marker in lower case.
proof fn lemma_done()
    ensures
        lowered("[DONE]"@) == "[done]"@,
        "[done]"@.len() == 6,
        "[done]"@[0] == '[',
{
    reveal_strlit("[DONE]");
    reveal_strlit("[done]");
    assert(lowered("[DONE]"@) =~= "[done]"@);
}

/// An event line reports an error where the event is called `error` or `response.failed`,
/// in whatever case; every other event line says nothing.
pub proof fn law_event_lines(line: Seq<char>, name: Seq<char>, parsed: Option<JsonTree>)
    requires
        trimmed(line) == "event:"@ + name,
    ensures
        line_verdict_with(line, parsed) == line_verdict(line),
        lowered(trimmed(name)) == "error"@ || lowered(trimmed(name)) == "response.failed"@
            ==> line_verdict(line) == Some(
            Err::<(), _>(AppErrorView::Message("上游返回了错误事件"@)),
        ),
        lowered(trimmed(name)) != "error"@ && lowered(trimmed(name)) != "response.failed"@
            ==> line_verdict(line) is None,
{
    reveal_strlit("event:");
    reveal_strlit(":");
    reveal_strlit("id:");
    reveal_strlit("retry:");
    let inner = trimmed(line);
    assert("event:"@.is_prefix_of(inner));
    assert(inner[0] == 'e');
    assert(inner.skip("event:"@.len() as int) =~= name);
    assert(!is_control(inner)) by {
        if ":"@.is_prefix_of(inner) {
            assert(inner[0] == ":"@[0]);
        }
        if "id:"@.is_prefix_of(inner) {
            assert(inner[0] == "id:"@[0]);
        }
        if "retry:"@.is_prefix_of(inner) {
            assert(inner[0] == "retry:"@[0]);
        }
    }
}

/// The line carries this payload: it is no comment, identifier, reconnection time or event,
/// and the payload, what follows `data:` or the whole line, is neither empty nor the
/// closing marker.
pub open spec fn carries(line: Seq<char>, payload: Seq<char>) -> bool {
    let inner = trimmed(line);
    &&& inner.len() > 0
    &&& inner.first() != ':'
    &&& !"id:"@.is_prefix_of(inner)
    &&& !"retry:"@.is_prefix_of(inner)
    &&& !"event:"@.is_prefix_of(inner)
    &&& "data:"@.is_prefix_of(inner) ==> payload == trimmed(inner.skip(5))
    &&& !"data:"@.is_prefix_of(inner) ==> payload == inner
    &&& payload.len() > 0
    &&& lowered(payload) != "[done]"@
}

/// The payload that is read from a line is the one that it carries. It alone is what is
/// parsed.
pub proof fn law_payload_of_a_line(line: Seq<char>, payload: Seq<char>)
    ensures
        carried_payload(line) == Some(payload) <==> carries(line, payload),
        carries(line, payload) ==> line_verdict(line) == line_verdict_with(
            line,
            json_text(payload),
        ),
{
    reveal_strlit(":");
    reveal_strlit("data:");
    lemma_done();
    let inner = trimmed(line);
    assert("data:"@.len() == 5);
    if ":"@.is_prefix_of(inner) {
        assert(inner[0] == ":"@[0]);
    }
    if inner.len() > 0 && inner.first() == ':' {
        assert(":"@.is_prefix_of(inner));
    }
}

/// The `type` member of a payload is this string.
pub open spec fn is_of_type(parsed: Option<JsonTree>, kind: Seq<char>) -> bool {
    parsed matches Some(tree) && tree.get("type"@) == Some(JsonTree::String(kind))
}

/// The payload has an `error` member other than `null`.
pub open spec fn reports_error(parsed: Option<JsonTree>) -> bool {
    parsed matches Some(tree) && (tree.get("error"@) matches Some(error) && error
        != JsonTree::Null)
}

/// The text of a payload quotes `error` without setting it to `null`, and is neither the
/// start of a message nor a list of candidates.
pub open spec fn quotes_error(payload: Seq<char>) -> bool {
    let lower = lowered(payload);
    &&& occurs(lower, "\"error\""@)
    &&& !occurs(lower, "\"error\":null"@)
    &&& !occurs(lower, "message_start"@)
    &&& !occurs(lower, "candidates"@)
}

/// A payload is an error where it reports one, where it is of the type `error` or
/// `response.failed`, or where its text quotes one; and nowhere else.
pub proof fn law_error_payloads(payload: Seq<char>, parsed: Option<JsonTree>)
    ensures
        is_error_payload(payload, parsed) <==> {
            ||| reports_error(parsed)
            ||| is_of_type(parsed, "error"@)
            ||| is_of_type(parsed, "response.failed"@)
            ||| quotes_error(payload)
        },
{
}

/// A line that carries a payload says nothing where that is a ping, whatever else it
/// holds; else it is an error where the payload is one.
pub proof fn law_error_lines(line: Seq<char>, payload: Seq<char>, parsed: Option<JsonTree>)
    requires
        carries(line, payload),
    ensures
        is_of_type(parsed, "ping"@) ==> line_verdict_with(line, parsed) is None,
        !is_of_type(parsed, "ping"@) && (reports_error(parsed) || is_of_type(parsed, "error"@)
            || is_of_type(parsed, "response.failed"@) || quotes_error(payload))
            ==> line_verdict_with(line, parsed) == Some(
            Err::<(), _>(AppErrorView::Message("上游返回了错误响应体"@)),
        ),
{
    law_payload_of_a_line(line, payload);
    law_error_payloads(payload, parsed);
}

/// Every other line that carries a payload is part of an answer: whatever its type, as
/// long as that is none of `ping`, `error` and `response.failed`, and whether or not its
/// payload is JSON.
pub proof fn law_answer_lines(line: Seq<char>, payload: Seq<char>, parsed: Option<JsonTree>)
    requires
        carries(line, payload),
        parsed matches Some(tree) ==> {
            &&& tree.get("type"@) != Some(JsonTree::String("ping"@))
            &&& tree.get("type"@) != Some(JsonTree::String("error"@))
            &&& tree.get("type"@) != Some(JsonTree::String("response.failed"@))
            &&& tree.get("error"@) is None || tree.get("error"@) == Some(JsonTree::Null)
        },
        !occurs(lowered(payload), "\"error\""@) || occurs(lowered(payload), "\"error\":null"@)
            || occurs(lowered(payload), "message_start"@) || occurs(
            lowered(payload),
            "candidates"@,
        ),
    ensures
        line_verdict_with(line, parsed) == Some(Ok::<(), AppErrorView>(())),
        parsed == json_text(payload) ==> line_verdict(line) == Some(Ok::<(), AppErrorView>(())),
{
    law_payload_of_a_line(line, payload);
    law_error_payloads(payload, parsed);
}

/// A stream is read line by line: the first complete line decides where it says something,
/// and what follows it is left unread; without a line break nothing is decided.
pub proof fn law_first_line_decides(line: Seq<char>, rest: Seq<char>)
    requires
        !line.contains('\n'),
    ensures
        scan(line) == (None::<Result<(), AppErrorView>>, line),
        line_verdict(line) matches Some(verdict) ==> scan(line + seq!['\n'] + rest) == (
            Some(verdict),
            rest,
        ),
        line_verdict(line) is None ==> scan(line + seq!['\n'] + rest) == scan(rest),
{
    lemma_first_index(line, '\n');
    let text = line + seq!['\n'] + rest;
    lemma_first_index(text, '\n');
    let i = line.len() as int;
    assert(text[i] == '\n');
    let k = first_index(text, '\n')->0;
    if k < i {
        assert(line[k] == '\n');
    }
    assert(text.take(i) =~= line);
    assert(text.skip(i + 1) =~= rest);
}

/// A piece of text is read behind what is pending. The check ends with the verdict of the
/// first line that has one, under the status and the model of the exchange; without one
/// only the unread text changes.
pub proof fn law_feeding(reader: ReaderView, text: Seq<char>)
    ensures
        ({
            let (outcome, after) = fed(reader, text);
            let (verdict, rest) = scan(reader.pending + text);
            &&& verdict is None <==> outcome is None
            &&& verdict matches Some(Ok(_)) ==> outcome == Some(
                Ok::<_, AppErrorView>((reader.status, reader.model)),
            )
            &&& verdict matches Some(Err(error)) ==> outcome == Some(
                Err::<(u16, Seq<char>), _>(error),
            )
            &&& after.pending == rest
            &&& after.status == reader.status
            &&& after.model == reader.model
            &&& after.protocol == reader.protocol
        }),
{
}

/// When a stream closes, what is pending counts as its last line; where that says nothing
/// the answer is empty.
pub proof fn law_closing(pending: Seq<char>, status: u16, model: Seq<char>)
    ensures
        line_verdict(pending) is None ==> closed_outcome(pending, status, model) == Err::<
            (u16, Seq<char>),
            _,
        >(AppErrorView::Message("模型响应为空，未收到有效数据"@)),
        line_verdict(pending) matches Some(Ok(_)) ==> closed_outcome(pending, status, model) == Ok::<
            _,
            AppErrorView,
        >((status, model)),
        line_verdict(pending) matches Some(Err(error)) ==> closed_outcome(pending, status, model)
            == Err::<(u16, Seq<char>), _>(error),
{
}

/// A chunk of UTF-8 is read as the text that it encodes.
pub proof fn law_chunk_text(bytes: Seq<u8>)
    requires
        valid_utf8(bytes),
    ensures
        chunk_text(bytes) == decode_utf8(bytes),
{
}

/// A `ping` says nothing of an answer, whatever else its payload holds.
pub proof fn law_ping_is_silent(line: Seq<char>, parsed: JsonTree)
    requires
        !("event:"@.is_prefix_of(trimmed(line))),
        parsed.get("type"@) == Some(JsonTree::String("ping"@)),
    ensures
        line_verdict_with(line, Some(parsed)) is None,
{
}

/// The first line break of two texts is that of the first one, if it has one.
proof fn lemma_first_index_concat(a: Seq<char>, b: Seq<char>, c: char)
    requires
        first_index(a, c) is Some,
    ensures
        first_index(a + b, c) == first_index(a, c),
{
    lemma_first_index(a, c);
    lemma_first_index(a + b, c);
    let i = first_index(a, c)->0;
    assert((a + b)[i] == c);
    let k = first_index(a + b, c)->0;
    if k < i {
        assert((a + b)[k] == a[k]);
    }
}

/// Reading a stream in two pieces: a line of the first piece that decides does so
/// whatever follows; else what the first piece leaves unread is read together with the
/// second.
pub proof fn law_scan_in_pieces(a: Seq<char>, b: Seq<char>)
    ensures
        scan(a + b) == match scan(a) {
            (Some(verdict), rest) => (Some(verdict), rest + b),
            (None, rest) => scan(rest + b),
        },
    decreases a.len(),
{
    lemma_first_index(a, '\n');
    match first_index(a, '\n') {
        None => {},
        Some(i) => {
            lemma_first_index_concat(a, b, '\n');
            assert((a + b).take(i) =~= a.take(i));
            assert((a + b).skip(i + 1) =~= a.skip(i + 1) + b);
            law_scan_in_pieces(a.skip(i + 1), b);
        },
    }
}

/// A complete line that says nothing might as well not be there.
pub proof fn law_silent_lines_vanish(line: Seq<char>, rest: Seq<char>)
    requires
        !line.contains('\n'),
        line_verdict(line) is None,
    ensures
        scan(line + seq!['\n'] + rest) == scan(rest),
{
    let text = line + seq!['\n'] + rest;
    lemma_first_index(text, '\n');
    let i = line.len() as int;
    assert(text[i] == '\n');
    let k = first_index(text, '\n')->0;
    if k < i {
        assert(line[k] == '\n');
    }
    assert(text.take(i) =~= line);
    assert(text.skip(i + 1) =~= rest);
}

/// How a check ends that reads a stream in these pieces.
pub open spec fn read_pieces(reader: ReaderView, pieces: Seq<Seq<char>>) -> OutcomeView
    decreases pieces.len(),
{
    if pieces.len() == 0 {
        closed_outcome(reader.pending, reader.status, reader.model)
    } else {
        match fed(reader, pieces.first()) {
            (Some(outcome), _) => outcome,
            (None, after) => read_pieces(after, pieces.drop_first()),
        }
    }
}

/// The text of all pieces.
pub open spec fn joined(pieces: Seq<Seq<char>>) -> Seq<char>
    decreases pieces.len(),
{
    if pieces.len() == 0 {
        seq![]
    } else {
        pieces.first() + joined(pieces.drop_first())
    }
}

/// How a stream is cut into pieces does not change how a check ends: it ends as if the
/// whole text had come at once.
pub proof fn law_pieces_do_not_matter(reader: ReaderView, pieces: Seq<Seq<char>>)
    requires
        !reader.pending.contains('\n'),
    ensures
        read_pieces(reader, pieces) == read_pieces(reader, seq![joined(pieces)]),
    decreases pieces.len(),
{
    let whole = seq![joined(pieces)];
    assert(whole.drop_first() =~= seq![]);
    reveal_with_fuel(read_pieces, 2);
    if pieces.len() == 0 {
        lemma_first_index(reader.pending, '\n');
        assert(reader.pending + joined(pieces) =~= reader.pending);
    } else {
        let first = pieces.first();
        let others = pieces.drop_first();
        let text = reader.pending + first;
        law_scan_in_pieces(text, joined(others));
        assert(reader.pending + joined(pieces) =~= text + joined(others));
        if scan(text).0 is None {
            let after = fed(reader, first).1;
            lemma_scan_rest(text);
            law_pieces_do_not_matter(after, others);
            assert(seq![joined(others)].drop_first() =~= seq![]);
        }
    }
}

/// What an undecided stream leaves unread holds no line break.
proof fn lemma_scan_rest(text: Seq<char>)
    ensures
        scan(text).0 is None ==> !scan(text).1.contains('\n'),
    decreases text.len(),
{
    lemma_first_index(text, '\n');
    match first_index(text, '\n') {
        None => {},
        Some(i) => {
            lemma_scan_rest(text.skip(i + 1));
        },
    }
}

/// UTF-8 is decoded piece by piece.
proof fn lemma_decode_concat(a: Seq<u8>, b: Seq<u8>)
    requires
        valid_utf8(a),
        valid_utf8(b),
    ensures
        valid_utf8(a + b),
        decode_utf8(a + b) == decode_utf8(a) + decode_utf8(b),
    decreases a.len(),
{
    valid_utf8_concat(a, b);
    if a.len() == 0 {
        assert(a + b =~= b);
        assert(decode_utf8(a) + decode_utf8(b) =~= decode_utf8(b));
    } else {
        let rest = pop_first_scalar(a);
        assert(pop_first_scalar(a + b) =~= rest + b);
        lemma_decode_concat(rest, b);
        assert(decode_utf8(a + b) =~= decode_utf8(a) + decode_utf8(b));
    }
}

/// How a check ends that reads a stream in these chunks of bytes.
pub open spec fn read_chunks(reader: ReaderView, chunks: Seq<Seq<u8>>) -> OutcomeView
    decreases chunks.len(),
{
    if chunks.len() == 0 {
        closed_outcome(reader.pending, reader.status, reader.model)
    } else if chunks.first().len() == 0 {
        read_chunks(reader, chunks.drop_first())
    } else {
        match fed(reader, chunk_text(chunks.first())) {
            (Some(outcome), _) => outcome,
            (None, after) => read_chunks(after, chunks.drop_first()),
        }
    }
}

/// The bytes of all chunks.
pub open spec fn joined_bytes(chunks: Seq<Seq<u8>>) -> Seq<u8>
    decreases chunks.len(),
{
    if chunks.len() == 0 {
        seq![]
    } else {
        chunks.first() + joined_bytes(chunks.drop_first())
    }
}

/// The text of each chunk.
pub open spec fn chunk_texts(chunks: Seq<Seq<u8>>) -> Seq<Seq<char>> {
    Seq::new(chunks.len(), |i: int| chunk_text(chunks[i]))
}

/// Reading chunks is reading their texts; an empty chunk is an empty text.
proof fn lemma_chunks_are_pieces(reader: ReaderView, chunks: Seq<Seq<u8>>)
    requires
        !reader.pending.contains('\n'),
    ensures
        read_chunks(reader, chunks) == read_pieces(reader, chunk_texts(chunks)),
    decreases chunks.len(),
{
    if chunks.len() > 0 {
        let others = chunks.drop_first();
        assert(chunk_texts(chunks).drop_first() =~= chunk_texts(others));
        let text = chunk_text(chunks.first());
        lemma_first_index(reader.pending, '\n');
        if chunks.first().len() == 0 {
            assert(text =~= seq![]);
            assert(reader.pending + text =~= reader.pending);
            assert(fed(reader, text) == (None::<OutcomeView>, reader));
            lemma_chunks_are_pieces(reader, others);
        } else {
            lemma_scan_rest(reader.pending + text);
            if fed(reader, text).0 is None {
                lemma_chunks_are_pieces(fed(reader, text).1, others);
            }
        }
    }
}

/// The texts of chunks of UTF-8 make up the text of all their bytes.
proof fn lemma_joined_text(chunks: Seq<Seq<u8>>)
    requires
        forall|i: int| 0 <= i < chunks.len() ==> valid_utf8(#[trigger] chunks[i]),
    ensures
        valid_utf8(joined_bytes(chunks)),
        joined(chunk_texts(chunks)) == decode_utf8(joined_bytes(chunks)),
    decreases chunks.len(),
{
    if chunks.len() > 0 {
        let others = chunks.drop_first();
        assert forall|i: int| 0 <= i < others.len() implies valid_utf8(#[trigger] others[i]) by {
            assert(others[i] == chunks[i + 1]);
        }
        lemma_joined_text(others);
        assert(valid_utf8(chunks[0]));
        lemma_decode_concat(chunks.first(), joined_bytes(others));
        assert(chunk_texts(chunks).drop_first() =~= chunk_texts(others));
    }
}

/// Where chunks end does not change how a check ends, as long as no chunk ends within a
/// character: it ends as if all bytes had come in one chunk.
pub proof fn law_chunks_do_not_matter(reader: ReaderView, chunks: Seq<Seq<u8>>)
    requires
        !reader.pending.contains('\n'),
        forall|i: int| 0 <= i < chunks.len() ==> valid_utf8(#[trigger] chunks[i]),
    ensures
        read_chunks(reader, chunks) == read_chunks(reader, seq![joined_bytes(chunks)]),
{
    let whole = seq![joined_bytes(chunks)];
    lemma_joined_text(chunks);
    lemma_chunks_are_pieces(reader, chunks);
    lemma_chunks_are_pieces(reader, whole);
    law_pieces_do_not_matter(reader, chunk_texts(chunks));
    assert(chunk_texts(whole) =~= seq![joined(chunk_texts(chunks))]);
}

/// The state of an exchange after these events.
pub open spec fn ran(state: ExchangeView, events: Seq<EventView>) -> ExchangeView
    decreases events.len(),
{
    if events.len() == 0 {
        state
    } else {
        ran(stepped(state, events.first()), events.drop_first())
    }
}

/// An exchange that has ended stays as it is, whatever else happens.
pub proof fn law_the_end_is_final(outcome: OutcomeView, events: Seq<EventView>)
    ensures
        ran(ExchangeView::Ended(outcome), events) == ExchangeView::Ended(outcome),
    decreases events.len(),
{
    if events.len() > 0 {
        law_the_end_is_final(outcome, events.drop_first());
    }
}

/// The chunks of a stream and its end, as events.
pub open spec fn stream_events(chunks: Seq<Seq<u8>>) -> Seq<EventView> {
    Seq::new(chunks.len(), |i: int| EventView::Chunk(chunks[i])).push(EventView::Closed)
}

proof fn lemma_stream_events(reader: ReaderView, chunks: Seq<Seq<u8>>)
    ensures
        ran(ExchangeView::Reading(reader), stream_events(chunks)) == ExchangeView::Ended(
            read_chunks(reader, chunks),
        ),
    decreases chunks.len(),
{
    let events = stream_events(chunks);
    if chunks.len() == 0 {
        reveal_with_fuel(ran, 2);
        assert(events.first() == EventView::Closed);
        assert(events.drop_first() =~= seq![]);
    } else {
        let others = chunks.drop_first();
        assert(events.first() == EventView::Chunk(chunks.first()));
        assert(events.drop_first() =~= stream_events(others));
        if chunks.first().len() == 0 {
            lemma_stream_events(reader, others);
        } else {
            match fed(reader, chunk_text(chunks.first())) {
                (Some(outcome), _) => law_the_end_is_final(outcome, stream_events(others)),
                (None, after) => lemma_stream_events(after, others),
            }
        }
    }
}

/// An answer with a status of success ends the check as its stream says; any other status
/// ends it with an error that holds the status and what is kept of the body.
pub proof fn law_answer_decides(
    model: Seq<char>,
    protocol: CheckProtocol,
    status: u16,
    chunks: Seq<Seq<u8>>,
    body: Seq<char>,
)
    ensures
        is_success_status(status) ==> ran(
            ExchangeView::Waiting { model, protocol },
            seq![EventView::Status(status)] + stream_events(chunks),
        ) == ExchangeView::Ended(
            read_chunks(ReaderView { status, model, protocol, pending: seq![] }, chunks),
        ),
        !is_success_status(status) ==> ran(
            ExchangeView::Waiting { model, protocol },
            seq![EventView::Status(status), EventView::ErrorBody(Some(body))],
        ) == ExchangeView::Ended(Err(AppErrorView::HttpStatus { status, body: kept_body(body) })),
{
    let reader = ReaderView { status, model, protocol, pending: seq![] };
    let events = seq![EventView::Status(status)] + stream_events(chunks);
    assert(events.drop_first() =~= stream_events(chunks));
    lemma_stream_events(reader, chunks);
    let refusal = seq![EventView::Status(status), EventView::ErrorBody(Some(body))];
    assert(refusal.drop_first() =~= seq![EventView::ErrorBody(Some(body))]);
    assert(refusal.drop_first().drop_first() =~= seq![]);
    reveal_with_fuel(ran, 3);
}

/// A request that gets no answer ends the exchange with the failure to send it.
pub proof fn law_unanswered(
    model: Seq<char>,
    protocol: CheckProtocol,
    timeout: bool,
    connect: bool,
    text: Seq<char>,
)
    ensures
        ({
            let end = stepped(
                ExchangeView::Waiting { model, protocol },
                EventView::SendFailed { timeout, connect, text },
            );
            &&& timeout ==> end == ExchangeView::Ended(Err(AppErrorView::Message("请求超时"@)))
            &&& !timeout && connect ==> end == ExchangeView::Ended(
                Err(AppErrorView::Message("连接失败: "@ + text)),
            )
            &&& !timeout && !connect ==> end == ExchangeView::Ended(
                Err(AppErrorView::Message("请求失败: "@ + text)),
            )
        }),
{
}

/// The statuses 200 to 299 open the stream, with nothing read yet; every other one is a
/// refusal whose body is awaited.
pub proof fn law_status_decides(model: Seq<char>, protocol: CheckProtocol, status: u16)
    ensures
        200 <= status <= 299 ==> stepped(
            ExchangeView::Waiting { model, protocol },
            EventView::Status(status),
        ) == ExchangeView::Reading(ReaderView { status, model, protocol, pending: seq![] }),
        status < 200 || status > 299 ==> stepped(
            ExchangeView::Waiting { model, protocol },
            EventView::Status(status),
        ) == (ExchangeView::Refused { status }),
{
}

/// A refusal ends with its status and what is kept of its body. A body that cannot be
/// read counts as an empty one.
pub proof fn law_refusal_ends(status: u16, body: Seq<char>)
    ensures
        stepped(ExchangeView::Refused { status }, EventView::ErrorBody(Some(body)))
            == ExchangeView::Ended(Err(AppErrorView::HttpStatus { status, body: kept_body(body) })),
        stepped(ExchangeView::Refused { status }, EventView::ErrorBody(None)) == stepped(
            ExchangeView::Refused { status },
            EventView::ErrorBody(Some(seq![])),
        ),
{
}

/// While a stream is read, an empty chunk changes nothing, any other one is fed to the
/// reader, an error ends the exchange with its wording, and the end of the stream closes
/// the reader.
pub proof fn law_reading(reader: ReaderView, bytes: Seq<u8>, error: Seq<char>)
    ensures
        stepped(ExchangeView::Reading(reader), EventView::Chunk(seq![])) == ExchangeView::Reading(
            reader,
        ),
        bytes.len() > 0 && fed(reader, chunk_text(bytes)).0 is None ==> stepped(
            ExchangeView::Reading(reader),
            EventView::Chunk(bytes),
        ) == ExchangeView::Reading(fed(reader, chunk_text(bytes)).1),
        bytes.len() > 0 && fed(reader, chunk_text(bytes)).0 is Some ==> stepped(
            ExchangeView::Reading(reader),
            EventView::Chunk(bytes),
        ) == ExchangeView::Ended(fed(reader, chunk_text(bytes)).0->0),
        stepped(ExchangeView::Reading(reader), EventView::ChunkFailed(error))
            == ExchangeView::Ended(Err(AppErrorView::Message("读取模型响应失败: "@ + error))),
        stepped(ExchangeView::Reading(reader), EventView::Closed) == ExchangeView::Ended(
            closed_outcome(reader.pending, reader.status, reader.model),
        ),
{
}

/// An event belongs to a state.
pub open spec fn belongs(state: ExchangeView, event: EventView) -> bool {
    match state {
        ExchangeView::Waiting { .. } => event is SendFailed || event is Status,
        ExchangeView::Refused { .. } => event is ErrorBody,
        ExchangeView::Reading(_) => event is Chunk || event is ChunkFailed || event is Closed,
        ExchangeView::Ended(_) => false,
    }
}

/// An event that does not belong to the state of an exchange changes nothing.
pub proof fn law_stray_events_change_nothing(state: ExchangeView, event: EventView)
    requires
        !belongs(state, event),
    ensures
        stepped(state, event) == state,
{
}

/// A healthy stream succeeds: where the first complete line that says something is part of
/// an answer, and only silent lines come before it, the check ends with the status and the
/// model, however the stream goes on.
pub proof fn law_healthy_stream(
    status: u16,
    model: Seq<char>,
    protocol: CheckProtocol,
    silent: Seq<Seq<char>>,
    line: Seq<char>,
    rest: Seq<char>,
)
    requires
        forall|i: int|
            0 <= i < silent.len() ==> !(#[trigger] silent[i]).contains('\n') && line_verdict(
                silent[i],
            ) is None,
        !line.contains('\n'),
        line_verdict(line) == Some(Ok::<(), AppErrorView>(())),
    ensures
        fed(
            ReaderView { status, model, protocol, pending: seq![] },
            lines(silent) + (line + seq!['\n'] + rest),
        ).0 == Some(Ok::<_, AppErrorView>((status, model))),
{
    let text = lines(silent) + (line + seq!['\n'] + rest);
    lemma_silent_lines(silent, line + seq!['\n'] + rest);
    law_first_line_decides(line, rest);
    assert(Seq::<char>::empty() + text =~= text);
}

/// These lines, each with its line break.
pub open spec fn lines(texts: Seq<Seq<char>>) -> Seq<char>
    decreases texts.len(),
{
    if texts.len() == 0 {
        seq![]
    } else {
        texts.first() + seq!['\n'] + lines(texts.drop_first())
    }
}

proof fn lemma_silent_lines(silent: Seq<Seq<char>>, rest: Seq<char>)
    requires
        forall|i: int|
            0 <= i < silent.len() ==> !(#[trigger] silent[i]).contains('\n') && line_verdict(
                silent[i],
            ) is None,
    ensures
        scan(lines(silent) + rest) == scan(rest),
    decreases silent.len(),
{
    if silent.len() == 0 {
        assert(lines(silent) + rest =~= rest);
    } else {
        let others = silent.drop_first();
        assert(!silent[0].contains('\n'));
        assert forall|i: int| 0 <= i < others.len() implies !(#[trigger] others[i]).contains('\n')
            && line_verdict(others[i]) is None by {
            assert(others[i] == silent[i + 1]);
        }
        lemma_silent_lines(others, rest);
        law_silent_lines_vanish(silent[0], lines(others) + rest);
        assert(lines(silent) + rest =~= silent[0] + seq!['\n'] + (lines(others) + rest));
    }
}

} // verus!
