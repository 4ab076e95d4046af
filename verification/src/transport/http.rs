//! HTTP requests and responses of the SSE transport's server side: reading
//! the request that opens an event stream or posts a message, and framing
//! what is sent back.

use vstd::prelude::*;
use crate::json::{Json, JsonValue, json_get, entries_view};
use crate::jsonrpc::push_member;
use crate::text::{chars_of, string_from_chars, lines_of, words_of, split_chars, trim_chars, find_char_from, starts_with_ignore_case, chars_eq, parse_usize, find_chars, join_from, sub_chars, owned, u64_to_decimal, str_starts_with, lines, words, split_char, trim, first_index, starts_with, starts_with_ci, find_sub, join, views, parse_usize_spec, decimal, lemma_first_index, ascii_lower};

verus! {

// ---------------------------------------------------------------------------
// What kind of request opens a connection
// ---------------------------------------------------------------------------

/// The kind of an incoming HTTP request, judged by its first bytes.
pub enum RequestKind {
    /// A `GET`: a client opening an event stream.
    Get,
    /// A `POST`: a client sending a message.
    Post,
    /// Anything else; answered with [`METHOD_NOT_ALLOWED`].
    Other,
}

/// The kind of request whose text begins with `peek`.
pub open spec fn request_kind_spec(peek: Seq<char>) -> RequestKind {
    if starts_with(peek, "GET"@) {
        RequestKind::Get
    } else if starts_with(peek, "POST"@) {
        RequestKind::Post
    } else {
        RequestKind::Other
    }
}

/// The kind of request whose text begins with `peek`.
pub fn request_kind(peek: &str) -> (res: RequestKind)
    ensures
        res == request_kind_spec(peek@),
{
    if str_starts_with(peek, "GET") {
        RequestKind::Get
    } else if str_starts_with(peek, "POST") {
        RequestKind::Post
    } else {
        RequestKind::Other
    }
}

/// The answer to a request that is neither `GET` nor `POST`.
pub const METHOD_NOT_ALLOWED: &'static str = "HTTP/1.1 405 Method Not Allowed\r\nContent-Length: 18\r\n\r\nMethod Not Allowed";

/// The answer to a request for a path the server does not serve.
pub const NOT_FOUND: &'static str = "HTTP/1.1 404 Not Found\r\nContent-Length: 14\r\n\r\nPath not found";

/// The headers that open an event stream.
pub const SSE_HEADERS: &'static str = "HTTP/1.1 200 OK\r\nContent-Type: text/event-stream\r\nCache-Control: no-cache\r\nConnection: keep-alive\r\nAccess-Control-Allow-Origin: *\r\n\r\n";

/// The answer to a posted message with an empty body.
pub const EMPTY_BODY: &'static str = "HTTP/1.1 400 Bad Request\r\nContent-Length: 11\r\n\r\nEmpty body\n";

/// The answer to a posted message whose body is not JSON. Its
/// `Content-Length` header says 16, though the body that follows has 18
/// bytes; the bytes are kept as the protocol's peers have seen them.
pub const INVALID_JSON_BODY: &'static str = "HTTP/1.1 400 Bad Request\r\nContent-Length: 16\r\n\r\nInvalid JSON body\n";

// ---------------------------------------------------------------------------
// Headers
// ---------------------------------------------------------------------------

/// What follows the first `:` of a header line, or nothing when it has none.
pub open spec fn after_colon(l: Seq<char>) -> Seq<char> {
    let k = first_index(l, ':');
    if k < l.len() {
        l.skip(k + 1 as int)
    } else {
        seq![]
    }
}

/// The value of a header line: what follows its first `:`, trimmed.
pub open spec fn header_value(l: Seq<char>) -> Seq<char> {
    trim(after_colon(l))
}

/// The host named by the first `Host` header line among `ls` whose value is
/// not empty; `localhost` when there is none.
pub open spec fn host_of(ls: Seq<Seq<char>>) -> Seq<char>
    decreases ls.len(),
{
    if ls.len() == 0 {
        "localhost"@
    } else if starts_with_ci(ls[0], "host:"@) && header_value(ls[0]).len() > 0 {
        header_value(ls[0])
    } else {
        host_of(ls.skip(1))
    }
}

/// The value a `Content-Length` header line gives: the second `:`-separated
/// piece, trimmed and read as a `usize`.
pub open spec fn content_length_of_line(l: Seq<char>) -> Option<usize> {
    if starts_with_ci(l, "content-length:"@) && split_char(l, ':').len() > 1 {
        parse_usize_spec(trim(split_char(l, ':')[1]))
    } else {
        None
    }
}

/// The content length the lines declare: the last `Content-Length` line
/// with a readable value wins; 0 when there is none.
pub open spec fn content_length(ls: Seq<Seq<char>>) -> usize
    decreases ls.len(),
{
    if ls.len() == 0 {
        0
    } else {
        match content_length_of_line(ls.last()) {
            Some(v) => v,
            None => content_length(ls.drop_last()),
        }
    }
}

fn header_value_of(l: &Vec<char>) -> (res: Vec<char>)
    ensures
        res@ == header_value(l@),
{
    let k = find_char_from(l.as_slice(), 0, ':');
    proof {
        assert(l@.skip(0) =~= l@);
        lemma_first_index(l@, ':');
    }
    if k < l.len() {
        let rest = sub_chars(l.as_slice(), k + 1, l.len());
        assert(rest@ =~= l@.skip(k + 1));
        trim_chars(rest.as_slice())
    } else {
        let empty: Vec<char> = Vec::new();
        assert(empty@ =~= seq![]);
        trim_chars(empty.as_slice())
    }
}

fn host_from(ls: &Vec<Vec<char>>, from: usize) -> (res: Vec<char>)
    requires
        from <= ls@.len(),
    ensures
        res@ == host_of(views(ls@).skip(from as int)),
{
    let prefix = chars_of("host:");
    let mut i = from;
    while i < ls.len()
        invariant
            from <= i <= ls@.len(),
            prefix@ == "host:"@,
            host_of(views(ls@).skip(from as int)) == host_of(views(ls@).skip(i as int)),
        decreases ls@.len() - i,
    {
        assert(views(ls@).skip(i as int)[0] == ls@[i as int]@);
        if starts_with_ignore_case(ls[i].as_slice(), prefix.as_slice()) {
            let v = header_value_of(&ls[i]);
            if v.len() > 0 {
                return v;
            }
        }
        assert(views(ls@).skip(i as int).skip(1) =~= views(ls@).skip(i + 1));
        i = i + 1;
    }
    chars_of("localhost")
}

fn content_length_of(l: &Vec<char>, prefix: &Vec<char>) -> (res: Option<usize>)
    requires
        prefix@ == "content-length:"@,
    ensures
        res == content_length_of_line(l@),
{
    if !starts_with_ignore_case(l.as_slice(), prefix.as_slice()) {
        return None;
    }
    let pieces = split_chars(l.as_slice(), ':');
    if pieces.len() > 1 {
        assert(views(pieces@)[1] == pieces@[1]@);
        let t = trim_chars(pieces[1].as_slice());
        parse_usize(t.as_slice())
    } else {
        None
    }
}

/// The content length declared by the lines `ls[from..]` (see
/// [`content_length`]).
pub fn content_length_from(ls: &Vec<Vec<char>>, from: usize) -> (res: usize)
    requires
        from <= ls@.len(),
    ensures
        res == content_length(views(ls@).skip(from as int)),
{
    let prefix = chars_of("content-length:");
    let mut v: usize = 0;
    let mut i = from;
    assert(views(ls@).skip(from as int).take(0) =~= Seq::<Seq<char>>::empty());
    while i < ls.len()
        invariant
            from <= i <= ls@.len(),
            prefix@ == "content-length:"@,
            v == content_length(views(ls@).skip(from as int).take(i - from)),
        decreases ls@.len() - i,
    {
        let ghost before = views(ls@).skip(from as int).take(i - from);
        let ghost after = views(ls@).skip(from as int).take(i + 1 - from);
        assert(after.drop_last() =~= before);
        assert(after.last() == ls@[i as int]@);
        match content_length_of(&ls[i], &prefix) {
            Some(n) => {
                v = n;
            },
            None => {},
        }
        i = i + 1;
    }
    assert(views(ls@).skip(from as int).take(i - from) =~= views(ls@).skip(from as int));
    v
}

// ---------------------------------------------------------------------------
// The request that opens an event stream
// ---------------------------------------------------------------------------

/// What to do with a `GET` request.
pub enum SseRequest {
    /// The request is empty or has no path: close without answering.
    Ignore,
    /// The path is not `/events`: answer [`NOT_FOUND`].
    NotFound,
    /// Open an event stream; the host is the one the request names.
    Accept { host: String },
}

/// The mathematical form of an [`SseRequest`].
pub enum SseRequestView {
    Ignore,
    NotFound,
    Accept(Seq<char>),
}

impl View for SseRequest {
    type V = SseRequestView;

    open spec fn view(&self) -> SseRequestView {
        match self {
            SseRequest::Ignore => SseRequestView::Ignore,
            SseRequest::NotFound => SseRequestView::NotFound,
            SseRequest::Accept { host } => SseRequestView::Accept(host@),
        }
    }
}

/// What to do with the `GET` request `r`: ignore it when it has no line or
/// its first line has fewer than two words; refuse it when the path (the
/// second word) is not `/events`; otherwise accept it, with the host that
/// the headers name (see [`host_of`]).
pub open spec fn sse_request_spec(r: Seq<char>) -> SseRequestView {
    let ls = lines(r);
    if ls.len() == 0 {
        SseRequestView::Ignore
    } else if words(ls[0]).len() < 2 {
        SseRequestView::Ignore
    } else if words(ls[0])[1] != "/events"@ {
        SseRequestView::NotFound
    } else {
        SseRequestView::Accept(host_of(ls.skip(1)))
    }
}

/// Reads a `GET` request (see [`sse_request_spec`]).
pub fn parse_sse_request(request: &str) -> (res: SseRequest)
    ensures
        res@ == sse_request_spec(request@),
{
    let cs = chars_of(request);
    let ls = lines_of(cs.as_slice());
    if ls.len() == 0 {
        return SseRequest::Ignore;
    }
    assert(views(ls@)[0] == ls@[0]@);
    let parts = words_of(ls[0].as_slice());
    if parts.len() < 2 {
        return SseRequest::Ignore;
    }
    assert(views(parts@)[1] == parts@[1]@);
    let events = chars_of("/events");
    if !chars_eq(parts[1].as_slice(), events.as_slice()) {
        return SseRequest::NotFound;
    }
    let host = host_from(&ls, 1);
    SseRequest::Accept { host: string_from_chars(host.as_slice()) }
}

// ---------------------------------------------------------------------------
// The request that posts a message
// ---------------------------------------------------------------------------

/// Where the body of a posted message is.
pub enum Body {
    /// The body is this text.
    Text(String),
    /// The body has not arrived yet: read this many more bytes.
    ReadMore(usize),
}

/// The mathematical form of a [`Body`].
pub enum BodyView {
    Text(Seq<char>),
    ReadMore(nat),
}

impl View for Body {
    type V = BodyView;

    open spec fn view(&self) -> BodyView {
        match self {
            Body::Text(t) => BodyView::Text(t@),
            Body::ReadMore(n) => BodyView::ReadMore(*n as nat),
        }
    }
}

/// What to do with a `POST` request.
pub enum PostRequest {
    /// The request is empty or has no path: close without answering.
    Ignore,
    /// The path is not `/messages`: answer [`NOT_FOUND`].
    NotFound,
    /// Take the message: the session named by the query, if any, and the body.
    Accept { session_id: Option<String>, body: Body },
}

/// The mathematical form of a [`PostRequest`].
pub enum PostRequestView {
    Ignore,
    NotFound,
    Accept(Option<Seq<char>>, BodyView),
}

impl View for PostRequest {
    type V = PostRequestView;

    open spec fn view(&self) -> PostRequestView {
        match self {
            PostRequest::Ignore => PostRequestView::Ignore,
            PostRequest::NotFound => PostRequestView::NotFound,
            PostRequest::Accept { session_id, body } => PostRequestView::Accept(
                match session_id {
                    Some(s) => Some(s@),
                    None => None,
                },
                body@,
            ),
        }
    }
}

/// The session id named by the first `sessionId=<id>` among the
/// `&`-separated query parameters `ps` (a parameter with more than one `=`
/// does not count).
pub open spec fn session_param(ps: Seq<Seq<char>>) -> Option<Seq<char>>
    decreases ps.len(),
{
    if ps.len() == 0 {
        None
    } else if split_char(ps[0], '=').len() == 2 && split_char(ps[0], '=')[0] == "sessionId"@ {
        Some(split_char(ps[0], '=')[1])
    } else {
        session_param(ps.skip(1))
    }
}

/// The session id named by the query of a request target: the part after
/// its first `?` up to the next `?`.
pub open spec fn query_session(target: Seq<char>) -> Option<Seq<char>> {
    let pp = split_char(target, '?');
    if pp.len() > 1 {
        session_param(split_char(pp[1], '&'))
    } else {
        None
    }
}

/// The lines after the first one (none when there are none).
pub open spec fn header_lines(ls: Seq<Seq<char>>) -> Seq<Seq<char>> {
    if ls.len() > 0 {
        ls.skip(1)
    } else {
        ls
    }
}

/// The index of the first empty line, or the number of lines.
pub open spec fn first_empty_line(ls: Seq<Seq<char>>) -> nat
    decreases ls.len(),
{
    if ls.len() == 0 {
        0
    } else if ls[0].len() == 0 {
        0
    } else {
        1 + first_empty_line(ls.skip(1))
    }
}

/// The body of a posted message: the lines after the first empty line,
/// joined with `\n` (all lines when none is empty). When the empty line is
/// the last line, the text after the first `\r\n\r\n` if there is any;
/// failing that, the request's declared content length still to read.
pub open spec fn post_body(r: Seq<char>) -> BodyView {
    let ls = lines(r);
    let e = first_empty_line(ls);
    let start = if e < ls.len() {
        e + 1
    } else {
        0
    };
    if start < ls.len() {
        BodyView::Text(join(ls.skip(start as int), "\n"@))
    } else {
        match find_sub(r, "\r\n\r\n"@) {
            Some(p) => if p + 4 < r.len() {
                BodyView::Text(r.skip(p + 4 as int))
            } else {
                BodyView::ReadMore(content_length(header_lines(ls)) as nat)
            },
            None => BodyView::ReadMore(content_length(header_lines(ls)) as nat),
        }
    }
}

/// What to do with the `POST` request `r`: ignore it when it has no line or
/// its first line has fewer than two words; refuse it when the path (the
/// second word, up to its first `?`) is not `/messages`; otherwise accept it
/// with the session its query names and its body (see [`post_body`]).
pub open spec fn post_request_spec(r: Seq<char>) -> PostRequestView {
    let ls = lines(r);
    if ls.len() == 0 {
        PostRequestView::Ignore
    } else if words(ls[0]).len() < 2 {
        PostRequestView::Ignore
    } else if split_char(words(ls[0])[1], '?')[0] != "/messages"@ {
        PostRequestView::NotFound
    } else {
        PostRequestView::Accept(query_session(words(ls[0])[1]), post_body(r))
    }
}

proof fn lemma_split_nonempty(s: Seq<char>, c: char)
    ensures
        split_char(s, c).len() >= 1,
{
    let k = first_index(s, c);
    if k >= s.len() {
    } else {
        assert(split_char(s, c) == seq![s.take(k as int)] + split_char(s.skip(k + 1 as int), c));
    }
}

fn session_from_params(ps: &Vec<Vec<char>>) -> (res: Option<String>)
    ensures
        match session_param(views(ps@)) {
            Some(s) => res is Some && res->0@ == s,
            None => res is None,
        },
{
    let key = chars_of("sessionId");
    let mut i: usize = 0;
    assert(views(ps@).skip(0) =~= views(ps@));
    while i < ps.len()
        invariant
            i <= ps@.len(),
            key@ == "sessionId"@,
            session_param(views(ps@)) == session_param(views(ps@).skip(i as int)),
        decreases ps@.len() - i,
    {
        assert(views(ps@).skip(i as int)[0] == ps@[i as int]@);
        let kv = split_chars(ps[i].as_slice(), '=');
        if kv.len() == 2 {
            assert(views(kv@)[0] == kv@[0]@);
            assert(views(kv@)[1] == kv@[1]@);
            if chars_eq(kv[0].as_slice(), key.as_slice()) {
                return Some(string_from_chars(kv[1].as_slice()));
            }
        }
        assert(views(ps@).skip(i as int).skip(1) =~= views(ps@).skip(i + 1));
        i = i + 1;
    }
    None
}

fn session_from_target(target: &Vec<char>) -> (res: Option<String>)
    ensures
        match query_session(target@) {
            Some(s) => res is Some && res->0@ == s,
            None => res is None,
        },
{
    let pp = split_chars(target.as_slice(), '?');
    if pp.len() > 1 {
        assert(views(pp@)[1] == pp@[1]@);
        let ps = split_chars(pp[1].as_slice(), '&');
        session_from_params(&ps)
    } else {
        None
    }
}

fn first_empty_from(ls: &Vec<Vec<char>>) -> (res: usize)
    ensures
        res == first_empty_line(views(ls@)),
{
    let mut i: usize = 0;
    assert(views(ls@).skip(0) =~= views(ls@));
    while i < ls.len()
        invariant
            i <= ls@.len(),
            first_empty_line(views(ls@)) == i + first_empty_line(views(ls@).skip(i as int)),
        decreases ls@.len() - i,
    {
        assert(views(ls@).skip(i as int)[0] == ls@[i as int]@);
        if ls[i].len() == 0 {
            return i;
        }
        assert(views(ls@).skip(i as int).skip(1) =~= views(ls@).skip(i + 1));
        i = i + 1;
    }
    i
}

/// Reads the body of a posted message (see [`post_body`]).
pub fn read_post_body(request: &str) -> (res: Body)
    ensures
        res@ == post_body(request@),
{
    let cs = chars_of(request);
    let ls = lines_of(cs.as_slice());
    let e = first_empty_from(&ls);
    let start: usize = if e < ls.len() {
        e + 1
    } else {
        0
    };
    if start < ls.len() {
        let nl = chars_of("\n");
        let body = join_from(&ls, start, nl.as_slice());
        return Body::Text(string_from_chars(body.as_slice()));
    }
    let sep = chars_of("\r\n\r\n");
    match find_chars(cs.as_slice(), sep.as_slice()) {
        Some(p) => {
            assert(find_sub(request@, "\r\n\r\n"@) == Some(p as nat));
            if p < cs.len() && cs.len() - p > 4 {
                let rest = sub_chars(cs.as_slice(), p + 4, cs.len());
                assert(rest@ =~= cs@.skip(p + 4));
                return Body::Text(string_from_chars(rest.as_slice()));
            }
        },
        None => {},
    }
    if ls.len() == 0 {
        assert(views(ls@).skip(0) =~= views(ls@));
        Body::ReadMore(content_length_from(&ls, 0))
    } else {
        Body::ReadMore(content_length_from(&ls, 1))
    }
}

/// Reads a `POST` request (see [`post_request_spec`]).
pub fn parse_post_request(request: &str) -> (res: PostRequest)
    ensures
        res@ == post_request_spec(request@),
{
    let cs = chars_of(request);
    let ls = lines_of(cs.as_slice());
    if ls.len() == 0 {
        return PostRequest::Ignore;
    }
    assert(views(ls@)[0] == ls@[0]@);
    let parts = words_of(ls[0].as_slice());
    if parts.len() < 2 {
        return PostRequest::Ignore;
    }
    assert(views(parts@)[1] == parts@[1]@);
    let pp = split_chars(parts[1].as_slice(), '?');
    proof {
        lemma_split_nonempty(parts@[1]@, '?');
    }
    assert(views(pp@)[0] == pp@[0]@);
    let messages = chars_of("/messages");
    if !chars_eq(pp[0].as_slice(), messages.as_slice()) {
        return PostRequest::NotFound;
    }
    let session_id = session_from_target(&parts[1]);
    PostRequest::Accept { session_id, body: read_post_body(request) }
}

// ---------------------------------------------------------------------------
// The body of a posted message, as the session manager reads it
// ---------------------------------------------------------------------------

/// The body of a posted message as the session manager reads it: the text
/// after the first `\r\n\r\n`; when that is blank, the content length that
/// the request's lines declare is still to read, if it is not 0.
pub open spec fn session_post_body(r: Seq<char>) -> BodyView {
    let body = match find_sub(r, "\r\n\r\n"@) {
        Some(p) => if p + 4 < r.len() {
            r.skip(p + 4 as int)
        } else {
            seq![]
        },
        None => seq![],
    };
    if trim(body).len() == 0 && content_length(lines(r)) > 0 {
        BodyView::ReadMore(content_length(lines(r)) as nat)
    } else {
        BodyView::Text(body)
    }
}

/// Reads the body of a posted message as the session manager does (see
/// [`session_post_body`]).
pub fn read_session_post_body(request: &str) -> (res: Body)
    ensures
        res@ == session_post_body(request@),
{
    let cs = chars_of(request);
    let sep = chars_of("\r\n\r\n");
    let mut body: Vec<char> = Vec::new();
    match find_chars(cs.as_slice(), sep.as_slice()) {
        Some(p) => {
            if p < cs.len() && cs.len() - p > 4 {
                body = sub_chars(cs.as_slice(), p + 4, cs.len());
                assert(body@ =~= cs@.skip(p + 4));
            }
        },
        None => {},
    }
    assert(body@ =~= match find_sub(request@, "\r\n\r\n"@) {
        Some(p) => if p + 4 < request@.len() {
            request@.skip(p + 4 as int)
        } else {
            seq![]
        },
        None => seq![],
    });
    let t = trim_chars(body.as_slice());
    if t.len() == 0 {
        let ls = lines_of(cs.as_slice());
        assert(views(ls@).skip(0) =~= views(ls@));
        let cl = content_length_from(&ls, 0);
        if cl > 0 {
            return Body::ReadMore(cl);
        }
    }
    Body::Text(string_from_chars(body.as_slice()))
}

// ---------------------------------------------------------------------------
// Judging a posted message
// ---------------------------------------------------------------------------

/// The mathematical form of a message that may or may not have been JSON.
pub open spec fn parsed_view(p: Option<&JsonValue>) -> Option<Json> {
    match p {
        Some(v) => Some(v@),
        None => None,
    }
}

/// Whether a posted message is a request (JSON with a `method` member), which
/// the server must serve, rather than something to pass on to a client.
pub open spec fn is_request_spec(parsed: Option<Json>) -> bool {
    parsed matches Some(v) && json_get(v, "method"@) is Some
}

/// Whether a posted message is a request; `parsed` is the message read as
/// JSON, `None` when it is not JSON.
pub fn is_request(parsed: Option<&JsonValue>) -> (res: bool)
    ensures
        res == is_request_spec(parsed_view(parsed)),
{
    match parsed {
        Some(v) => v.get("method").is_some(),
        None => false,
    }
}

/// What the session manager does with a posted body.
pub enum PostVerdict {
    /// The body is blank: answer [`EMPTY_BODY`].
    EmptyBody,
    /// The body is not JSON: answer [`INVALID_JSON_BODY`].
    InvalidJson,
    /// A request: hand it to the server.
    Request,
    /// Anything else: pass it on to the session that posted it.
    Forward,
}

/// What the session manager does with the posted `body`, which read as JSON
/// is `parsed`.
pub open spec fn post_verdict_spec(body: Seq<char>, parsed: Option<Json>) -> PostVerdict {
    if trim(body).len() == 0 {
        PostVerdict::EmptyBody
    } else if parsed is None {
        PostVerdict::InvalidJson
    } else if is_request_spec(parsed) {
        PostVerdict::Request
    } else {
        PostVerdict::Forward
    }
}

/// What the session manager does with the posted `body`; `parsed` is the
/// body read as JSON, `None` when it is not JSON.
pub fn post_verdict(body: &str, parsed: Option<&JsonValue>) -> (res: PostVerdict)
    ensures
        res == post_verdict_spec(body@, parsed_view(parsed)),
{
    let cs = chars_of(body);
    let t = trim_chars(cs.as_slice());
    if t.len() == 0 {
        PostVerdict::EmptyBody
    } else if parsed.is_none() {
        PostVerdict::InvalidJson
    } else if is_request(parsed) {
        PostVerdict::Request
    } else {
        PostVerdict::Forward
    }
}

// ---------------------------------------------------------------------------
// Framing what is sent back
// ---------------------------------------------------------------------------

/// The event that tells a client where to post its messages:
/// `event: endpoint`, with the URL `http://<host>/messages?sessionId=<id>`.
pub open spec fn endpoint_event_spec(host: Seq<char>, session_id: Seq<char>) -> Seq<char> {
    "event: endpoint\ndata: http://"@ + host + "/messages?sessionId="@ + session_id + "\n\n"@
}

/// The event that tells a client where to post its messages.
pub fn endpoint_event(host: &str, session_id: &str) -> (res: String)
    ensures
        res@ == endpoint_event_spec(host@, session_id@),
{
    let mut out = owned("event: endpoint\ndata: http://");
    out.append(host);
    out.append("/messages?sessionId=");
    out.append(session_id);
    out.append("\n\n");
    out
}

/// An event carrying a message: `event: message`, then the data.
pub open spec fn message_event_spec(data: Seq<char>) -> Seq<char> {
    "event: message\ndata: "@ + data + "\n\n"@
}

/// An event carrying a message.
pub fn message_event(data: &str) -> (res: String)
    ensures
        res@ == message_event_spec(data@),
{
    let mut out = owned("event: message\ndata: ");
    out.append(data);
    out.append("\n\n");
    out
}

/// The message that greets a client on a new event stream.
pub open spec fn welcome_json(session_id: Seq<char>) -> Json {
    Json::Object(
        seq![
            ("id"@, Json::Int(0)),
            ("jsonrpc"@, Json::Str("2.0"@)),
            ("method"@, Json::Str("welcome"@)),
            ("params"@, Json::Object(seq![("message"@, Json::Str("Connected to SSE stream"@)), ("session"@, Json::Str(session_id))])),
        ],
    )
}

/// The message that greets a client on a new event stream.
pub fn welcome_message(session_id: &str) -> (res: JsonValue)
    ensures
        res@ == welcome_json(session_id@),
{
    let mut params: Vec<(String, JsonValue)> = Vec::new();
    push_member(&mut params, "message", JsonValue::from_str("Connected to SSE stream"));
    push_member(&mut params, "session", JsonValue::from_str(session_id));
    let mut obj: Vec<(String, JsonValue)> = Vec::new();
    push_member(&mut obj, "id", JsonValue::Number(crate::json::JsonNumber::Int(0)));
    push_member(&mut obj, "jsonrpc", JsonValue::from_str("2.0"));
    push_member(&mut obj, "method", JsonValue::from_str("welcome"));
    push_member(&mut obj, "params", JsonValue::Object(params));
    let res = JsonValue::Object(obj);
    let ghost pj = Json::Object(seq![("message"@, Json::Str("Connected to SSE stream"@)), ("session"@, Json::Str(session_id@))]);
    assert(entries_view(params@) =~= seq![("message"@, Json::Str("Connected to SSE stream"@)), ("session"@, Json::Str(session_id@))]);
    assert(entries_view(obj@) =~= seq![
        ("id"@, Json::Int(0)),
        ("jsonrpc"@, Json::Str("2.0"@)),
        ("method"@, Json::Str("welcome"@)),
        ("params"@, pj),
    ]);
    assert(res@ =~= welcome_json(session_id@));
    res
}

/// The JSON that acknowledges a posted message on the plain HTTP server.
pub open spec fn post_accepted_json() -> Json {
    Json::Object(seq![("success"@, Json::Bool(true)), ("message"@, Json::Str("Message received and processed"@))])
}

/// The JSON that acknowledges a posted message on the plain HTTP server.
pub fn post_accepted() -> (res: JsonValue)
    ensures
        res@ == post_accepted_json(),
{
    let mut obj: Vec<(String, JsonValue)> = Vec::new();
    push_member(&mut obj, "success", JsonValue::Bool(true));
    push_member(&mut obj, "message", JsonValue::from_str("Message received and processed"));
    let res = JsonValue::Object(obj);
    assert(entries_view(obj@) =~= seq![("success"@, Json::Bool(true)), ("message"@, Json::Str("Message received and processed"@))]);
    assert(res@ =~= post_accepted_json());
    res
}

/// The JSON that acknowledges a posted message on the routed server.
pub open spec fn message_received_json() -> Json {
    Json::Object(
        seq![
            ("success"@, Json::Bool(true)),
            ("status"@, Json::Str("success"@)),
            ("message"@, Json::Str("Message received"@)),
        ],
    )
}

/// The JSON that acknowledges a posted message on the routed server.
pub fn message_received() -> (res: JsonValue)
    ensures
        res@ == message_received_json(),
{
    let mut obj: Vec<(String, JsonValue)> = Vec::new();
    push_member(&mut obj, "success", JsonValue::Bool(true));
    push_member(&mut obj, "status", JsonValue::from_str("success"));
    push_member(&mut obj, "message", JsonValue::from_str("Message received"));
    let res = JsonValue::Object(obj);
    assert(entries_view(obj@) =~= seq![
        ("success"@, Json::Bool(true)),
        ("status"@, Json::Str("success"@)),
        ("message"@, Json::Str("Message received"@)),
    ]);
    assert(res@ =~= message_received_json());
    res
}

/// A `200 OK` answer carrying the JSON text `json`, its length in bytes
/// given as `Content-Length`.
pub open spec fn json_response_spec(json: &str) -> Seq<char> {
    "HTTP/1.1 200 OK\r\nContent-Type: application/json\r\nContent-Length: "@ + decimal(
        json.len() as nat,
    ) + "\r\n\r\n"@ + json@
}

/// A `200 OK` answer carrying the JSON text `json`.
pub fn json_response(json: &str) -> (res: String)
    ensures
        res@ == json_response_spec(json),
{
    let mut out = owned("HTTP/1.1 200 OK\r\nContent-Type: application/json\r\nContent-Length: ");
    let n = json.len();
    let len_text = u64_to_decimal(n as u64);
    out.append(len_text.as_str());
    out.append("\r\n\r\n");
    out.append(json);
    out
}

/// The `Host` header is read whatever the case of its name: for a first
/// header line made of a name that reads `host:` once its ASCII letters are
/// lowered (`Host:`, `host:`, `HOST:`, ...) and a value `v` that is not
/// blank, the host is `v` trimmed, whatever lines follow.
pub proof fn lemma_host_header_any_case(name: Seq<char>, v: Seq<char>, rest: Seq<Seq<char>>)
    requires
        name.len() == 5,
        forall|j: int| 0 <= j < 5 ==> ascii_lower(#[trigger] name[j]) == "host:"@[j],
        trim(v).len() > 0,
    ensures
        host_of(seq![name + v] + rest) == trim(v),
{
    reveal_strlit("host:");
    let l = name + v;
    assert(ascii_lower(name[4]) == ':');
    assert(l[4] == ':');
    assert forall|j: int| 0 <= j < 4 implies l[j] != ':' by {
        assert(l[j] == name[j]);
        assert(ascii_lower(name[j]) == "host:"@[j]);
    }
    lemma_first_index(l, ':');
    assert(first_index(l, ':') == 4);
    assert(l.skip(5) =~= v);
    assert(header_value(l) == trim(v));
    assert(starts_with_ci(l, "host:"@)) by {
        assert forall|j: int| 0 <= j < 5 implies ascii_lower(#[trigger] l[j]) == "host:"@[j] by {
            assert(l[j] == name[j]);
        }
    }
    assert((seq![l] + rest)[0] == l);
}

} // verus!
