use vstd::prelude::*;
use vstd::string::StringExecFns;
use vstd::utf8::{decode_utf8, valid_utf8};

use crate::error::{Error, ErrorView};

verus! {

/// The full text of an HTTP response: status line, headers and body, undivided.
#[derive(Debug, Clone, PartialEq, Eq)]
pub struct HttpResponse {
    raw: String,
}

impl View for HttpResponse {
    type V = Seq<char>;

    closed spec fn view(&self) -> Seq<char> {
        self.raw@
    }
}

impl HttpResponse {
    pub fn new(raw: String) -> (r: HttpResponse)
        ensures
            r@ == raw@,
    {
        HttpResponse { raw }
    }

    /// The response text.
    pub fn raw(&self) -> (r: String)
        ensures
            r@ == self@,
    {
        self.raw.clone()
    }
}

/// The request that a fetch of `path` from `host` sends, line ends being a
/// bare line feed.
pub open spec fn request_spec(host: Seq<char>, path: Seq<char>) -> Seq<char> {
    "GET /"@ + path + " HTTP/1.1\n"@ + "Host: "@ + host + "\n"@ + "Accept: text/html\n"@
        + "Connection: close\n"@ + "\n"@
}

/// The text of a `GET` request for `path` on `host`.
pub fn request_text(host: &str, path: &str) -> (r: String)
    ensures
        r@ == request_spec(host@, path@),
{
    let mut r = String::from_str("GET /");
    r.append(path);
    r.append(" HTTP/1.1\n");
    r.append("Host: ");
    r.append(host);
    r.append("\n");
    r.append("Accept: text/html\n");
    r.append("Connection: close\n");
    r.append("\n");
    r
}

/// Relies on `String::from_utf8`: it accepts exactly the valid UTF-8 byte
/// sequences and yields the characters they encode.
#[verifier::external_body]
fn text_from_utf8(bytes: Vec<u8>) -> (r: Option<String>)
    ensures
        r is Some == valid_utf8(bytes@),
        r matches Some(s) ==> s@ == decode_utf8(bytes@),
{
    match String::from_utf8(bytes) {
        Ok(s) => Some(s),
        Err(_) => None,
    }
}

/// Where a fetch stands.
#[derive(Debug, Clone, Copy, PartialEq, Eq, Structural)]
pub enum Phase {
    /// The host name is to be resolved.
    Resolving,
    /// A connection to the first resolved address is being opened.
    Connecting,
    /// The request is being written.
    Sending,
    /// The response is being read.
    Receiving,
    /// The fetch has finished, with a response or an error.
    Done,
}

/// What the transport reports back to a fetch.
#[derive(Debug, Clone, PartialEq, Eq)]
pub enum Event {
    /// Name resolution gave this many addresses.
    Resolved(usize),
    /// Name resolution failed, with this detail.
    ResolveFailed(String),
    Connected,
    ConnectFailed,
    Sent,
    SendFailed,
    /// A read gave these bytes; none means the peer closed the connection.
    Received(Vec<u8>),
    ReceiveFailed,
}

/// What a fetch asks the transport to do next.
#[derive(Debug, PartialEq, Eq)]
pub enum Action {
    /// Connect to the resolved address at this index, on this port.
    Connect(usize, u16),
    /// Write this request text.
    Send(String),
    /// Read the next chunk of the response.
    Receive,
    /// Close the connection and hand this outcome to the caller.
    Finish(Result<HttpResponse, Error>),
}

/// An `Event` with its text and bytes as sequences.
pub enum EventView {
    Resolved(nat),
    ResolveFailed(Seq<char>),
    Connected,
    ConnectFailed,
    Sent,
    SendFailed,
    Received(Seq<u8>),
    ReceiveFailed,
}

/// An `Action` with its texts as sequences.
pub enum ActionView {
    Connect(nat, u16),
    Send(Seq<char>),
    Receive,
    Finish(Result<Seq<char>, ErrorView>),
}

impl View for Event {
    type V = EventView;

    open spec fn view(&self) -> EventView {
        match self {
            Event::Resolved(n) => EventView::Resolved(*n as nat),
            Event::ResolveFailed(d) => EventView::ResolveFailed(d@),
            Event::Connected => EventView::Connected,
            Event::ConnectFailed => EventView::ConnectFailed,
            Event::Sent => EventView::Sent,
            Event::SendFailed => EventView::SendFailed,
            Event::Received(b) => EventView::Received(b@),
            Event::ReceiveFailed => EventView::ReceiveFailed,
        }
    }
}

impl View for Action {
    type V = ActionView;

    open spec fn view(&self) -> ActionView {
        match self {
            Action::Connect(i, p) => ActionView::Connect(*i as nat, *p),
            Action::Send(t) => ActionView::Send(t@),
            Action::Receive => ActionView::Receive,
            Action::Finish(Ok(resp)) => ActionView::Finish(Ok(resp@)),
            Action::Finish(Err(e)) => ActionView::Finish(Err(e@)),
        }
    }
}

pub open spec fn resolve_message(detail: Seq<char>) -> Seq<char> {
    "Failed to find IP addresses: "@ + detail
}

pub open spec fn no_address_message() -> Seq<char> {
    "Failed to find IP addresses"@
}

pub open spec fn connect_message() -> Seq<char> {
    "Failed to connect to TCP stream"@
}

pub open spec fn send_message() -> Seq<char> {
    "Failed to send a request to TCP stream"@
}

pub open spec fn receive_message() -> Seq<char> {
    "Failed to receive a request from TCP stream"@
}

pub open spec fn decode_message() -> Seq<char> {
    "Invalid received response"@
}

pub open spec fn unexpected_message() -> Seq<char> {
    "Event does not fit the phase of the fetch"@
}

/// The outcome of a fetch whose connection closed after these bytes. Bytes
/// that are not UTF-8 are reported as a network error.
pub open spec fn outcome_of(received: Seq<u8>) -> Result<Seq<char>, ErrorView> {
    if valid_utf8(received) {
        Ok(decode_utf8(received))
    } else {
        Err(ErrorView::Network(decode_message()))
    }
}

/// The state and fields of a fetch.
pub struct FetchView {
    pub host: Seq<char>,
    pub port: u16,
    pub path: Seq<char>,
    pub phase: Phase,
    pub received: Seq<u8>,
}

pub open spec fn with_phase(v: FetchView, phase: Phase) -> FetchView {
    FetchView { host: v.host, port: v.port, path: v.path, phase, received: v.received }
}

/// A finished fetch: what it had received is dropped.
pub open spec fn finished(v: FetchView) -> FetchView {
    FetchView { host: v.host, port: v.port, path: v.path, phase: Phase::Done, received: Seq::empty() }
}

pub open spec fn network_failure(message: Seq<char>) -> ActionView {
    ActionView::Finish(Err(ErrorView::Network(message)))
}

/// The next state of a fetch in state `v` on event `e`, and what it asks for.
pub open spec fn transition(v: FetchView, e: EventView) -> (FetchView, ActionView) {
    match (v.phase, e) {
        (Phase::Resolving, EventView::Resolved(n)) => if n == 0 {
            (finished(v), network_failure(no_address_message()))
        } else {
            (with_phase(v, Phase::Connecting), ActionView::Connect(0, v.port))
        },
        (Phase::Resolving, EventView::ResolveFailed(d)) => (
            finished(v),
            network_failure(resolve_message(d)),
        ),
        (Phase::Connecting, EventView::Connected) => (
            with_phase(v, Phase::Sending),
            ActionView::Send(request_spec(v.host, v.path)),
        ),
        (Phase::Connecting, EventView::ConnectFailed) => (
            finished(v),
            network_failure(connect_message()),
        ),
        (Phase::Sending, EventView::Sent) => (with_phase(v, Phase::Receiving), ActionView::Receive),
        (Phase::Sending, EventView::SendFailed) => (finished(v), network_failure(send_message())),
        (Phase::Receiving, EventView::Received(b)) => if b.len() == 0 {
            (finished(v), ActionView::Finish(outcome_of(v.received)))
        } else {
            (
                FetchView {
                    host: v.host,
                    port: v.port,
                    path: v.path,
                    phase: Phase::Receiving,
                    received: v.received + b,
                },
                ActionView::Receive,
            )
        },
        (Phase::Receiving, EventView::ReceiveFailed) => (
            finished(v),
            network_failure(receive_message()),
        ),
        _ => (
            finished(v),
            ActionView::Finish(Err(ErrorView::UnexpectedInput(unexpected_message()))),
        ),
    }
}

/// A fetch of `path` from `host` on `port` that has not begun.
pub open spec fn initial(host: Seq<char>, port: u16, path: Seq<char>) -> FetchView {
    FetchView { host, port, path, phase: Phase::Resolving, received: Seq::empty() }
}

/// The state after feeding `events` one by one, starting from `v`.
pub open spec fn run(v: FetchView, events: Seq<EventView>) -> FetchView
    decreases events.len(),
{
    if events.len() == 0 {
        v
    } else {
        run(transition(v, events[0]).0, events.drop_first())
    }
}

/// One read event for each chunk.
pub open spec fn chunk_events(chunks: Seq<Seq<u8>>) -> Seq<EventView> {
    chunks.map_values(|c: Seq<u8>| EventView::Received(c))
}

/// Whether `e` reports the failure of the step that a fetch in `phase` waits on.
pub open spec fn is_failure(phase: Phase, e: EventView) -> bool {
    match (phase, e) {
        (Phase::Resolving, EventView::Resolved(n)) => n == 0,
        (Phase::Resolving, EventView::ResolveFailed(_)) => true,
        (Phase::Connecting, EventView::ConnectFailed) => true,
        (Phase::Sending, EventView::SendFailed) => true,
        (Phase::Receiving, EventView::ReceiveFailed) => true,
        _ => false,
    }
}

/// A failed resolution (an error, or no address at all), connection, write
/// or read ends the fetch with a network error, and the bytes received so far
/// are dropped.
pub proof fn lemma_failure_aborts(v: FetchView, e: EventView)
    requires
        is_failure(v.phase, e),
    ensures
        transition(v, e).0.phase == Phase::Done,
        transition(v, e).0.received.len() == 0,
        transition(v, e).1 matches ActionView::Finish(Err(ErrorView::Network(_))),
{
}

/// A finished fetch gives no response: every further event is refused.
pub proof fn lemma_finished_stays_finished(v: FetchView, e: EventView)
    requires
        v.phase == Phase::Done,
    ensures
        transition(v, e).0.phase == Phase::Done,
        transition(v, e).1 matches ActionView::Finish(Err(_)),
{
}

proof fn lemma_run_append(v: FetchView, a: Seq<EventView>, b: Seq<EventView>)
    ensures
        run(v, a + b) == run(run(v, a), b),
    decreases a.len(),
{
    if a.len() > 0 {
        assert((a + b).drop_first() =~= a.drop_first() + b);
        lemma_run_append(transition(v, a[0]).0, a.drop_first(), b);
    } else {
        assert(a + b =~= b);
    }
}

proof fn lemma_reading_chunks(v: FetchView, chunks: Seq<Seq<u8>>)
    requires
        v.phase == Phase::Receiving,
        forall|i: int| 0 <= i < chunks.len() ==> chunks[i].len() > 0,
    ensures
        run(v, chunk_events(chunks)) == (FetchView {
            host: v.host,
            port: v.port,
            path: v.path,
            phase: Phase::Receiving,
            received: v.received + chunks.flatten(),
        }),
    decreases chunks.len(),
{
    if chunks.len() == 0 {
        assert(v.received + chunks.flatten() =~= v.received);
    } else {
        let w = transition(v, chunk_events(chunks)[0]).0;
        assert(chunk_events(chunks).drop_first() =~= chunk_events(chunks.drop_first()));
        lemma_reading_chunks(w, chunks.drop_first());
        assert(w.received + chunks.drop_first().flatten() =~= v.received + chunks.flatten());
    }
}

/// A fetch whose host resolves, whose connection opens and whose request is
/// written, and whose reads give non-empty chunks and then nothing, finishes
/// with the UTF-8 decoding of the chunks concatenated in order.
pub proof fn lemma_response_is_concatenation(
    host: Seq<char>,
    port: u16,
    path: Seq<char>,
    addresses: nat,
    chunks: Seq<Seq<u8>>,
)
    requires
        addresses > 0,
        forall|i: int| 0 <= i < chunks.len() ==> chunks[i].len() > 0,
    ensures
        ({
            let events = seq![EventView::Resolved(addresses), EventView::Connected, EventView::Sent]
                + chunk_events(chunks);
            let w = run(initial(host, port, path), events);
            &&& w.received == chunks.flatten()
            &&& transition(w, EventView::Received(Seq::empty())).1 == ActionView::Finish(
                outcome_of(chunks.flatten()),
            )
        }),
{
    let opening = seq![EventView::Resolved(addresses), EventView::Connected, EventView::Sent];
    let v = initial(host, port, path);
    lemma_run_append(v, opening, chunk_events(chunks));
    let v1 = with_phase(v, Phase::Connecting);
    let v2 = with_phase(v, Phase::Sending);
    let v3 = with_phase(v, Phase::Receiving);
    assert(opening.drop_first() =~= seq![EventView::Connected, EventView::Sent]);
    assert(opening.drop_first().drop_first() =~= seq![EventView::Sent]);
    assert(opening.drop_first().drop_first().drop_first() =~= Seq::<EventView>::empty());
    assert(run(v3, Seq::empty()) == v3);
    assert(run(v2, seq![EventView::Sent]) == v3);
    assert(run(v1, seq![EventView::Connected, EventView::Sent]) == v3);
    assert(run(v, opening) == v3);
    let u = v3;
    lemma_reading_chunks(u, chunks);
    assert(Seq::<u8>::empty() + chunks.flatten() =~= chunks.flatten());
}

/// One `GET` exchange: it resolves the host, connects to the first address,
/// writes the request, reads until the peer closes, and decodes the bytes as
/// UTF-8. The transport reports each step's result as an `Event`.
pub struct Fetch {
    host: String,
    port: u16,
    path: String,
    phase: Phase,
    received: Vec<u8>,
}

impl View for Fetch {
    type V = FetchView;

    closed spec fn view(&self) -> FetchView {
        FetchView {
            host: self.host@,
            port: self.port,
            path: self.path@,
            phase: self.phase,
            received: self.received@,
        }
    }
}

fn network_error(message: &str) -> (r: Action)
    ensures
        r@ == network_failure(message@),
{
    Action::Finish(Err(Error::Network(String::from_str(message))))
}

impl Fetch {
    /// A fetch of `path` from `host` on `port`, about to resolve `host`.
    pub fn new(host: String, port: u16, path: String) -> (r: Fetch)
        ensures
            r@ == (FetchView {
                host: host@,
                port,
                path: path@,
                phase: Phase::Resolving,
                received: Seq::empty(),
            }),
    {
        Fetch { host, port, path, phase: Phase::Resolving, received: Vec::new() }
    }

    /// The host name to resolve.
    pub fn host(&self) -> (r: String)
        ensures
            r@ == self@.host,
    {
        self.host.clone()
    }

    pub fn phase(&self) -> (r: Phase)
        ensures
            r == self@.phase,
    {
        self.phase
    }

    /// Moves the fetch on by one event and says what the transport does next.
    pub fn step(&mut self, event: Event) -> (r: Action)
        ensures
            (final(self)@, r@) == transition(old(self)@, event@),
    {
        match (self.phase, event) {
            (Phase::Resolving, Event::Resolved(n)) => {
                if n == 0 {
                    self.finish();
                    network_error("Failed to find IP addresses")
                } else {
                    self.phase = Phase::Connecting;
                    Action::Connect(0, self.port)
                }
            },
            (Phase::Resolving, Event::ResolveFailed(detail)) => {
                self.finish();
                let mut message = String::from_str("Failed to find IP addresses: ");
                message.append(detail.as_str());
                Action::Finish(Err(Error::Network(message)))
            },
            (Phase::Connecting, Event::Connected) => {
                self.phase = Phase::Sending;
                Action::Send(request_text(self.host.as_str(), self.path.as_str()))
            },
            (Phase::Connecting, Event::ConnectFailed) => {
                self.finish();
                network_error("Failed to connect to TCP stream")
            },
            (Phase::Sending, Event::Sent) => {
                self.phase = Phase::Receiving;
                Action::Receive
            },
            (Phase::Sending, Event::SendFailed) => {
                self.finish();
                network_error("Failed to send a request to TCP stream")
            },
            (Phase::Receiving, Event::Received(mut bytes)) => {
                if bytes.len() == 0 {
                    let received = self.finish();
                    match text_from_utf8(received) {
                        Some(text) => Action::Finish(Ok(HttpResponse::new(text))),
                        None => network_error("Invalid received response"),
                    }
                } else {
                    self.received.append(&mut bytes);
                    Action::Receive
                }
            },
            (Phase::Receiving, Event::ReceiveFailed) => {
                self.finish();
                network_error("Failed to receive a request from TCP stream")
            },
            _ => {
                self.finish();
                Action::Finish(
                    Err(Error::UnexpectedInput(
                        String::from_str("Event does not fit the phase of the fetch"),
                    )),
                )
            },
        }
    }

    /// Ends the fetch and hands out what it had received.
    fn finish(&mut self) -> (r: Vec<u8>)
        ensures
            final(self)@ == finished(old(self)@),
            r@ == old(self)@.received,
    {
        let mut r: Vec<u8> = Vec::new();
        core::mem::swap(&mut r, &mut self.received);
        self.phase = Phase::Done;
        r
    }
}

} // verus!
