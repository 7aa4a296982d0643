//! Classification of a freshly accepted connection by its request head.

use vstd::prelude::*;
use bytes::BytesMut;
use crate::text::{starts_with, str_eq};

verus! {

/// The most headers that a request head may carry.
pub const MAX_HEADERS: usize = 32;

/// The room that is added to a full buffer before the next read.
pub const GROWTH: usize = 16;

/// The protocol handler that a connection is meant for.
#[derive(Clone, Copy, Debug, PartialEq, Eq, Structural)]
pub enum RequestType {
    Websocket,
    Status,
    LogCheck,
    LBHeartBeat,
    Version,
}

/// Why a connection could not be classified.
#[derive(Clone, Copy, Debug, PartialEq, Eq, Structural)]
pub enum DispatchError {
    /// The peer closed the stream before a whole request head had arrived.
    EarlyEof,
    /// The bytes cannot be the beginning of an HTTP request.
    ParseError,
    /// The request is well formed but is neither an upgrade nor a known path.
    UnknownRequest,
}

/// What classification reads of a parsed request head.
#[derive(Clone, Debug, PartialEq, Eq)]
pub struct RequestHead {
    /// The request target, as sent.
    pub path: Option<String>,
    /// The names of the headers, in the order sent.
    pub header_names: Vec<String>,
}

/// A request head as sequences of characters.
pub ghost struct RequestHeadView {
    pub path: Option<Seq<char>>,
    pub header_names: Seq<Seq<char>>,
}

impl View for RequestHead {
    type V = RequestHeadView;

    open spec fn view(&self) -> RequestHeadView {
        RequestHeadView {
            path: match self.path {
                Some(p) => Some(p@),
                None => None,
            },
            header_names: Seq::new(self.header_names@.len(), |i: int| self.header_names@[i]@),
        }
    }
}

/// Whether one of `names` is exactly `Upgrade`.
pub open spec fn asks_upgrade(names: Seq<Seq<char>>) -> bool {
    exists|i: int| 0 <= i < names.len() && #[trigger] names[i] == "Upgrade"@
}

/// The handler that owns requests to `path`, if any.
pub open spec fn path_kind(path: Seq<char>) -> Option<RequestType> {
    if "/status"@.is_prefix_of(path) || path == "/__heartbeat__"@ {
        Some(RequestType::Status)
    } else if path == "/__lbheartbeat__"@ {
        Some(RequestType::LBHeartBeat)
    } else if path == "/__version__"@ {
        Some(RequestType::Version)
    } else if "/v1/err/crit"@.is_prefix_of(path) || path == "/__error__"@ {
        Some(RequestType::LogCheck)
    } else {
        None
    }
}

/// The classification of a complete request head: an upgrade request is a
/// websocket whatever its path; any other request goes by its path.
pub open spec fn classification(head: RequestHeadView) -> Result<RequestType, DispatchError> {
    if asks_upgrade(head.header_names) {
        Ok(RequestType::Websocket)
    } else {
        match head.path {
            Some(p) => match path_kind(p) {
                Some(kind) => Ok(kind),
                None => Err(DispatchError::UnknownRequest),
            },
            None => Err(DispatchError::UnknownRequest),
        }
    }
}

/// Looks for a header named `Upgrade`.
fn has_upgrade(names: &Vec<String>) -> (found: bool)
    ensures
        found == asks_upgrade(Seq::new(names@.len(), |i: int| names@[i]@)),
{
    let ghost views = Seq::new(names@.len(), |i: int| names@[i]@);
    let mut i: usize = 0;
    while i < names.len()
        invariant
            i <= names.len(),
            views == Seq::new(names@.len(), |i: int| names@[i]@),
            forall|j: int| 0 <= j < i ==> #[trigger] views[j] != "Upgrade"@,
        decreases names.len() - i,
    {
        if str_eq(names[i].as_str(), "Upgrade") {
            assert(views[i as int] == "Upgrade"@);
            return true;
        }
        i += 1;
    }
    false
}

/// Matches a request path against the table of health-check endpoints.
pub fn classify_path(path: &str) -> (kind: Option<RequestType>)
    ensures
        kind == path_kind(path@),
{
    if starts_with(path, "/status") || str_eq(path, "/__heartbeat__") {
        Some(RequestType::Status)
    } else if str_eq(path, "/__lbheartbeat__") {
        Some(RequestType::LBHeartBeat)
    } else if str_eq(path, "/__version__") {
        Some(RequestType::Version)
    } else if starts_with(path, "/v1/err/crit") {
        Some(RequestType::LogCheck)
    } else if str_eq(path, "/__error__") {
        Some(RequestType::LogCheck)
    } else {
        None
    }
}

/// Classifies a complete request head.
pub fn classify(head: &RequestHead) -> (kind: Result<RequestType, DispatchError>)
    ensures
        kind == classification(head@),
{
    if has_upgrade(&head.header_names) {
        Ok(RequestType::Websocket)
    } else {
        match &head.path {
            Some(p) => match classify_path(p.as_str()) {
                Some(kind) => Ok(kind),
                None => Err(DispatchError::UnknownRequest),
            },
            None => Err(DispatchError::UnknownRequest),
        }
    }
}

/// What the parser makes of the bytes buffered so far.
pub ghost enum HeadParse {
    /// The bytes may still grow into a request head.
    Partial,
    /// No continuation of the bytes is a request head.
    Malformed,
    /// The bytes begin with a whole request head.
    Complete(RequestHeadView),
}

/// `httparse::Error`: why the parser refused the bytes. Nothing inside it is
/// read.
#[verifier::external_type_specification]
#[verifier::external_body]
pub struct ExParseError(httparse::Error);

/// `bytes::BytesMut`: the buffer of the bytes read. What it holds is named
/// below.
#[verifier::external_type_specification]
#[verifier::external_body]
pub struct ExBytesMut(BytesMut);

/// What `httparse::Request::parse` makes of `data`, given room for
/// `max_headers` headers.
pub uninterp spec fn parsed_head(data: Seq<u8>, max_headers: usize) -> HeadParse;

/// The bytes that a buffer holds, first to last.
pub uninterp spec fn buffered(buf: BytesMut) -> Seq<u8>;

/// `httparse::Request::parse` on a fresh request with `max_headers` empty
/// header slots. The contract names the outcome and claims only that it is
/// the same for the same bytes and the same number of slots; of a complete
/// head the path and the header names are handed on, in order.
#[verifier::external_body]
fn parse_head(data: &[u8], max_headers: usize) -> (parsed: Result<Option<RequestHead>, httparse::Error>)
    ensures
        parsed_head(data@, max_headers) == parse_view(parsed),
{
    let mut headers = vec![httparse::EMPTY_HEADER; max_headers];
    let mut req = httparse::Request::new(&mut headers);
    match req.parse(data) {
        Ok(httparse::Status::Complete(_)) => Ok(Some(RequestHead {
            path: req.path.map(|p| p.to_string()),
            header_names: req.headers.iter().map(|h| h.name.to_string()).collect(),
        })),
        Ok(httparse::Status::Partial) => Ok(None),
        Err(e) => Err(e),
    }
}

/// `BytesMut::new`: a buffer that holds nothing.
pub assume_specification[ BytesMut::new ]() -> (buf: BytesMut)
    ensures
        buffered(buf) == Seq::<u8>::empty(),
;

/// `BytesMut::len`: the number of bytes held.
pub assume_specification[ BytesMut::len ](buf: &BytesMut) -> (n: usize)
    ensures
        n == buffered(*buf).len(),
;

/// `BytesMut::capacity`: never less than the number of bytes held.
pub assume_specification[ BytesMut::capacity ](buf: &BytesMut) -> (n: usize)
    ensures
        n >= buffered(*buf).len(),
;

/// `BytesMut::reserve`: makes room and leaves the contents as they are. It
/// panics where the new capacity is more than an allocation can be, which
/// the bound rules out for a buffer that was never split.
pub assume_specification[ BytesMut::reserve ](buf: &mut BytesMut, additional: usize)
    requires
        buffered(*old(buf)).len() + additional <= isize::MAX,
    ensures
        buffered(*final(buf)) == buffered(*old(buf)),
;

/// `BytesMut::extend_from_slice`: appends the slice, reserving room for it
/// first as `BytesMut::reserve` does.
pub assume_specification[ BytesMut::extend_from_slice ](buf: &mut BytesMut, extend: &[u8])
    requires
        buffered(*old(buf)).len() + extend@.len() <= isize::MAX,
    ensures
        buffered(*final(buf)) == buffered(*old(buf)) + extend@,
;

/// `BytesMut::take`: hands out all the bytes held and leaves the buffer empty.
pub assume_specification[ BytesMut::take ](buf: &mut BytesMut) -> (taken: BytesMut)
    ensures
        buffered(taken) == buffered(*old(buf)),
        buffered(*final(buf)) == Seq::<u8>::empty(),
;

/// `Deref::deref` of `BytesMut`: the bytes held, as a slice.
#[verifier::external_body]
fn buffer_bytes(buf: &BytesMut) -> (bytes: &[u8])
    ensures
        bytes@ == buffered(*buf),
{
    &buf[..]
}

/// The parser's outcome as the contracts speak of it.
pub open spec fn parse_view(parsed: Result<Option<RequestHead>, httparse::Error>) -> HeadParse {
    match parsed {
        Ok(Some(head)) => HeadParse::Complete(head@),
        Ok(None) => HeadParse::Partial,
        Err(_) => HeadParse::Malformed,
    }
}

/// Where a connection stands.
#[derive(Clone, Copy, Debug, PartialEq, Eq, Structural)]
pub enum DispatchState {
    /// More bytes are awaited.
    Buffering,
    /// The connection belongs to a handler; nothing more is read.
    Classified(RequestType),
    /// The connection is to be closed without a response.
    Failed(DispatchError),
}

/// The state that follows a parse of everything buffered.
pub open spec fn outcome(parse: HeadParse) -> DispatchState {
    match parse {
        HeadParse::Partial => DispatchState::Buffering,
        HeadParse::Malformed => DispatchState::Failed(DispatchError::ParseError),
        HeadParse::Complete(head) => match classification(head) {
            Ok(kind) => DispatchState::Classified(kind),
            Err(e) => DispatchState::Failed(e),
        },
    }
}

/// The state after `chunk` was read while `data` was buffered. A read of
/// nothing is the end of the stream; a state other than `Buffering` is final.
pub open spec fn next_state(state: DispatchState, data: Seq<u8>, chunk: Seq<u8>) -> DispatchState {
    match state {
        DispatchState::Buffering => if chunk.len() == 0 {
            DispatchState::Failed(DispatchError::EarlyEof)
        } else {
            outcome(parsed_head(data + chunk, MAX_HEADERS))
        },
        _ => state,
    }
}

/// The bytes buffered after `chunk` was read while `data` was buffered.
pub open spec fn next_data(state: DispatchState, data: Seq<u8>, chunk: Seq<u8>) -> Seq<u8> {
    match state {
        DispatchState::Buffering => data + chunk,
        _ => data,
    }
}

/// Decides on the parser's outcome: wait, fail, or classify.
pub fn settle(parsed: &Result<Option<RequestHead>, httparse::Error>) -> (state: DispatchState)
    ensures
        state == outcome(parse_view(*parsed)),
{
    match parsed {
        Ok(Some(head)) => match classify(head) {
            Ok(kind) => DispatchState::Classified(kind),
            Err(e) => DispatchState::Failed(e),
        },
        Ok(None) => DispatchState::Buffering,
        Err(_) => DispatchState::Failed(DispatchError::ParseError),
    }
}

/// The dispatcher of one connection: every byte read so far, and the state.
pub struct Dispatch {
    data: BytesMut,
    state: DispatchState,
}

impl View for Dispatch {
    type V = Seq<u8>;

    /// Every byte read so far, in the order read.
    closed spec fn view(&self) -> Seq<u8> {
        buffered(self.data)
    }
}

impl Dispatch {
    /// Where the connection stands.
    pub closed spec fn spec_state(&self) -> DispatchState {
        self.state
    }

    /// A dispatcher that has read nothing yet.
    pub fn new() -> (d: Dispatch)
        ensures
            d@ == Seq::<u8>::empty(),
            d.spec_state() == DispatchState::Buffering,
    {
        Dispatch { data: BytesMut::new(), state: DispatchState::Buffering }
    }

    /// Where the connection stands.
    #[verifier::when_used_as_spec(spec_state)]
    pub fn state(&self) -> (state: DispatchState)
        ensures
            state == self.spec_state(),
    {
        self.state
    }

    /// The number of bytes read so far.
    pub fn len(&self) -> (n: usize)
        ensures
            n == self@.len(),
    {
        self.data.len()
    }

    /// Takes what one read returned. While buffering, the bytes are appended
    /// and everything buffered is parsed anew; an empty read is the end of the
    /// stream. Once classified or failed, nothing changes any more.
    pub fn step(&mut self, chunk: &[u8]) -> (next: DispatchState)
        requires
            old(self)@.len() + chunk@.len() + GROWTH <= isize::MAX,
        ensures
            next == final(self).spec_state(),
            next == next_state(old(self).spec_state(), old(self)@, chunk@),
            final(self)@ == next_data(old(self).spec_state(), old(self)@, chunk@),
    {
        match self.state {
            DispatchState::Buffering => {},
            _ => {
                return self.state;
            },
        }
        if self.data.len() == self.data.capacity() {
            self.data.reserve(GROWTH);
        }
        if chunk.len() == 0 {
            self.state = DispatchState::Failed(DispatchError::EarlyEof);
            return self.state;
        }
        self.data.extend_from_slice(chunk);
        let parsed = parse_head(buffer_bytes(&self.data), MAX_HEADERS);
        self.state = settle(&parsed);
        self.state
    }

    /// Hands the connection on: the classification together with every byte
    /// read, for the handler to parse again. Nothing is handed on unless the
    /// connection was classified.
    pub fn finish(self) -> (handoff: Option<(RequestType, BytesMut)>)
        ensures
            match self.spec_state() {
                DispatchState::Classified(kind) => handoff matches Some((k, bytes)) && k == kind
                    && buffered(bytes) == self@,
                _ => handoff is None,
            },
    {
        let mut this = self;
        match this.state {
            DispatchState::Classified(kind) => Some((kind, this.data.take())),
            _ => None,
        }
    }
}

/// The bytes of `chunks`, one after the other.
pub open spec fn joined(chunks: Seq<Seq<u8>>) -> Seq<u8>
    decreases chunks.len(),
{
    if chunks.len() == 0 {
        Seq::empty()
    } else {
        joined(chunks.drop_last()) + chunks.last()
    }
}

/// The state and the buffer of a fresh dispatcher after the reads `chunks`,
/// in order.
pub open spec fn run(chunks: Seq<Seq<u8>>) -> (DispatchState, Seq<u8>)
    decreases chunks.len(),
{
    if chunks.len() == 0 {
        (DispatchState::Buffering, Seq::empty())
    } else {
        let (state, data) = run(chunks.drop_last());
        (next_state(state, data, chunks.last()), next_data(state, data, chunks.last()))
    }
}

/// While every read so far was non-empty and left the head partial, the
/// dispatcher is buffering and holds exactly the bytes read.
proof fn lemma_still_buffering(pieces: Seq<Seq<u8>>, k: int)
    requires
        0 <= k <= pieces.len(),
        forall|i: int| 0 <= i < k ==> (#[trigger] pieces[i]).len() > 0,
        forall|j: int|
            0 < j <= k ==> parsed_head(#[trigger] joined(pieces.take(j)), MAX_HEADERS)
                == HeadParse::Partial,
    ensures
        run(pieces.take(k)) == (DispatchState::Buffering, joined(pieces.take(k))),
    decreases k,
{
    if k > 0 {
        lemma_still_buffering(pieces, k - 1);
        assert(pieces.take(k).drop_last() == pieces.take(k - 1));
    }
}

/// A request head that arrives in pieces is classified as the whole would be,
/// and not before it is whole: if every piece is non-empty, every shorter run
/// of pieces leaves the head partial, and all of them together hold a complete
/// head, then the dispatcher is buffering after each piece but the last, and
/// after the last it is in the state that the complete head decides, holding
/// every byte read. For a head with an `Upgrade` header that state is
/// `Classified(Websocket)`.
pub proof fn lemma_head_in_pieces(pieces: Seq<Seq<u8>>, head: RequestHeadView)
    requires
        pieces.len() > 0,
        forall|i: int| 0 <= i < pieces.len() ==> (#[trigger] pieces[i]).len() > 0,
        forall|j: int|
            0 < j < pieces.len() ==> parsed_head(#[trigger] joined(pieces.take(j)), MAX_HEADERS)
                == HeadParse::Partial,
        parsed_head(joined(pieces), MAX_HEADERS) == HeadParse::Complete(head),
    ensures
        forall|k: int|
            0 <= k < pieces.len() ==> #[trigger] run(pieces.take(k)) == (
                DispatchState::Buffering,
                joined(pieces.take(k)),
            ),
        run(pieces) == (outcome(HeadParse::Complete(head)), joined(pieces)),
        asks_upgrade(head.header_names) ==> run(pieces).0 == DispatchState::Classified(
            RequestType::Websocket,
        ),
{
    let n = pieces.len() as int;
    assert forall|k: int| 0 <= k < n implies #[trigger] run(pieces.take(k)) == (
        DispatchState::Buffering,
        joined(pieces.take(k)),
    ) by {
        lemma_still_buffering(pieces, k);
    }
    lemma_still_buffering(pieces, n - 1);
}

/// Once a dispatcher has classified or failed, further reads change neither
/// its state nor its buffer.
pub proof fn lemma_terminal(state: DispatchState, data: Seq<u8>, chunk: Seq<u8>)
    requires
        state != DispatchState::Buffering,
    ensures
        next_state(state, data, chunk) == state,
        next_data(state, data, chunk) == data,
{
}

} // verus!
