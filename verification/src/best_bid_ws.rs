//! Best bid stream from the relays: the subscriptions of the slot bidders and
//! the decisions of the task that reads the websocket.
use tokio_tungstenite::tungstenite::client::IntoClientRequest;
use vstd::prelude::*;

use crate::u256::U256;

verus! {

#[verifier::external_type_specification]
#[verifier::external_body]
#[verifier::reject_recursive_types(T)]
pub struct ExHttpRequest<T>(http::Request<T>);

/// Whether tungstenite's `IntoClientRequest` for `&str` accepts `url`: the url
/// parses as an `http::Uri` with a non-empty host.
pub uninterp spec fn ws_url_accepted(url: Seq<char>) -> bool;

/// The headers a request holds: for each header name (in lower case, as
/// `http` normalises names), the text of the first value stored under it.
pub uninterp spec fn request_headers(request: http::Request<()>) -> Map<Seq<char>, Seq<char>>;

/// The target of a request: the text (as `Display` writes it) of its
/// `http::Uri`.
pub uninterp spec fn request_uri(request: http::Request<()>) -> Seq<char>;

/// The text (as `Display` writes it) of the `http::Uri` that `url` parses to
/// with `str::parse::<http::Uri>`.
pub uninterp spec fn ws_request_uri(url: Seq<char>) -> Seq<char>;

/// `<&str as tungstenite::client::IntoClientRequest>::into_client_request`: a
/// websocket handshake request for `url`, when the url is accepted. The source
/// targets the request at the `http::Uri` that `url` parses to, and sets the
/// headers Host, Connection, Upgrade, Sec-WebSocket-Version and a random
/// Sec-WebSocket-Key, and no Authorization header; the key is random, so
/// nothing else is said of the headers.
#[verifier::external_body]
fn into_client_request(url: &str) -> (r: Option<http::Request<()>>)
    ensures
        r is Some <==> ws_url_accepted(url@),
        r matches Some(request) ==> request_uri(request) == ws_request_uri(url@),
        r matches Some(request) ==> !request_headers(request).dom().contains("authorization"@),
{
    url.into_client_request().ok()
}

/// What `http::HeaderValue::from_str` accepts: every byte of the UTF-8
/// encoding is visible ASCII, a space, a tab or a non-ASCII byte; in
/// characters, none is a control character other than tab, nor DEL.
pub open spec fn is_valid_header_value(s: Seq<char>) -> bool {
    forall|i: int|
        0 <= i < s.len() ==> ((#[trigger] s[i] as u32 >= 32 && s[i] as u32 != 127) || s[i] == '\t')
}

/// `http::HeaderValue::from_str(value)` and, when it accepts the value,
/// `http::HeaderMap::insert` of it under `Authorization` in the request's
/// headers, which replaces any value stored there. The source accepts a string
/// when each of its bytes `b` satisfies `b >= 32 && b != 127 || b == b'\t'`
/// (bytes of non-ASCII characters are all at least 0x80); a refused value
/// leaves the request as it was. The request's target is not touched.
#[verifier::external_body]
fn insert_authorization_header(request: &mut http::Request<()>, value: &str) -> (r: bool)
    ensures
        r == is_valid_header_value(value@),
        request_uri(*final(request)) == request_uri(*old(request)),
        r ==> request_headers(*final(request)) == request_headers(*old(request)).insert(
            "authorization"@,
            value@,
        ),
        !r ==> *final(request) == *old(request),
{
    match http::HeaderValue::from_str(value) {
        Ok(header_value) => {
            request.headers_mut().insert("Authorization", header_value);
            true
        },
        Err(_) => false,
    }
}

/// Best competition bid for a block and slot, as the relay stream reports it.
#[derive(Debug, Clone, Copy, Default)]
pub struct BestBidValue {
    pub block_number: u64,
    pub slot_number: u64,
    pub block_top_bid: U256,
}

/// An observer interested in the bids of one block and slot. `obs_id`
/// identifies the observer (two subscriptions with the same id are the same
/// observer).
#[derive(Debug)]
pub struct Subscription<O> {
    pub block_number: u64,
    pub slot_number: u64,
    pub obs_id: u64,
    pub obs: O,
}

/// Whether a subscription is for `block_number` and `slot_number`.
pub open spec fn subscribed_to<O>(s: Subscription<O>, block_number: u64, slot_number: u64) -> bool {
    s.block_number == block_number && s.slot_number == slot_number
}

/// The subscriptions held, in subscription order.
#[derive(Debug)]
pub struct SubscriptionList<O> {
    subscriptions: Vec<Subscription<O>>,
}

impl<O> View for SubscriptionList<O> {
    type V = Seq<Subscription<O>>;

    closed spec fn view(&self) -> Seq<Subscription<O>> {
        self.subscriptions@
    }
}

impl<O> SubscriptionList<O> {
    /// No subscription.
    pub fn new() -> (r: Self)
        ensures
            r@ == Seq::<Subscription<O>>::empty(),
    {
        SubscriptionList { subscriptions: Vec::new() }
    }

    /// Adds `obs` (identified by `obs_id`) for the bids of `block_number`
    /// and `slot_number`.
    pub fn subscribe(&mut self, block_number: u64, slot_number: u64, obs_id: u64, obs: O)
        ensures
            final(self)@ == old(self)@.push(Subscription { block_number, slot_number, obs_id, obs }),
    {
        self.subscriptions.push(Subscription { block_number, slot_number, obs_id, obs });
    }

    /// Removes every subscription of the observer `obs_id`, keeping the others
    /// in order.
    pub fn unsubscribe(&mut self, obs_id: u64)
        ensures
            final(self)@ == old(self)@.filter(|s: Subscription<O>| s.obs_id != obs_id),
    {
        let ghost pred = |s: Subscription<O>| s.obs_id != obs_id;
        let ghost initial = self.subscriptions@;
        let mut rest: Vec<Subscription<O>> = Vec::new();
        std::mem::swap(&mut rest, &mut self.subscriptions);
        let ghost mut consumed: int = 0;
        while rest.len() > 0
            invariant
                pred == (|s: Subscription<O>| s.obs_id != obs_id),
                0 <= consumed <= initial.len(),
                rest@ == initial.skip(consumed),
                self.subscriptions@ == initial.take(consumed).filter(pred),
            decreases rest.len(),
        {
            let s = rest.remove(0);
            proof {
                assert(initial.take(consumed + 1) =~= initial.take(consumed).push(s));
                initial.take(consumed).lemma_filter_push(s, pred);
                assert(initial.take(consumed + 1).filter(pred) == if pred(s) {
                    initial.take(consumed).filter(pred).push(s)
                } else {
                    initial.take(consumed).filter(pred)
                });
            }
            if s.obs_id != obs_id {
                assert(pred(s));
                self.subscriptions.push(s);
            } else {
                assert(!pred(s));
            }
            proof {
                consumed = consumed + 1;
                assert(rest@ =~= initial.skip(consumed));
            }
        }
        assert(initial.take(consumed) =~= initial);
    }

    /// The observers subscribed to `block_number` and `slot_number`, in
    /// subscription order.
    pub fn observers_for(&self, block_number: u64, slot_number: u64) -> (r: Vec<O>)
        where
            O: Clone,
        ensures
            r@.len() == self@.filter(
                |s: Subscription<O>| subscribed_to(s, block_number, slot_number),
            ).len(),
            forall|i: int|
                0 <= i < r@.len() ==> cloned(
                    self@.filter(|s: Subscription<O>| subscribed_to(s, block_number, slot_number))[i].obs,
                    #[trigger] r@[i],
                ),
    {
        let ghost pred = |s: Subscription<O>| subscribed_to(s, block_number, slot_number);
        let ghost all = self.subscriptions@;
        let mut r: Vec<O> = Vec::new();
        let mut i: usize = 0;
        while i < self.subscriptions.len()
            invariant
                pred == (|s: Subscription<O>| subscribed_to(s, block_number, slot_number)),
                all == self.subscriptions@,
                0 <= i <= all.len(),
                r@.len() == all.take(i as int).filter(pred).len(),
                forall|j: int|
                    0 <= j < r@.len() ==> cloned(
                        all.take(i as int).filter(pred)[j].obs,
                        #[trigger] r@[j],
                    ),
            decreases all.len() - i,
        {
            let s = &self.subscriptions[i];
            let ghost before = all.take(i as int).filter(pred);
            proof {
                assert(all.take(i + 1) =~= all.take(i as int).push(*s));
                all.take(i as int).lemma_filter_push(*s, pred);
                assert(all.take(i + 1).filter(pred) == if pred(*s) {
                    before.push(*s)
                } else {
                    before
                });
            }
            if s.block_number == block_number && s.slot_number == slot_number {
                assert(pred(*s));
                let o = s.obs.clone();
                r.push(o);
                assert(all.take(i + 1).filter(pred)[r@.len() - 1] == *s);
            } else {
                assert(!pred(*s));
            }
            i = i + 1;
        }
        assert(all.take(i as int) =~= all);
        r
    }
}

/// After `unsubscribe(obs_id)`, no subscription of that observer is left, and
/// every other subscription is kept.
pub proof fn lemma_unsubscribe_removes_only_the_observer<O>(
    subscriptions: Seq<Subscription<O>>,
    obs_id: u64,
    s: Subscription<O>,
)
    ensures
        subscriptions.filter(|x: Subscription<O>| x.obs_id != obs_id).contains(s) <==> (
        subscriptions.contains(s) && s.obs_id != obs_id),
{
    let pred = |x: Subscription<O>| x.obs_id != obs_id;
    let kept = subscriptions.filter(pred);
    if kept.contains(s) {
        subscriptions.lemma_filter_contains_rev(pred, s);
        let i = choose|i: int| 0 <= i < kept.len() && kept[i] == s;
        subscriptions.lemma_filter_pred(pred, i);
    }
    if subscriptions.contains(s) && s.obs_id != obs_id {
        let i = choose|i: int| 0 <= i < subscriptions.len() && subscriptions[i] == s;
        subscriptions.lemma_filter_contains(pred, i);
    }
}

/// A new subscription is notified: the observers of its block and slot are
/// those subscribed before, followed by it.
pub proof fn lemma_subscriber_is_notified<O>(
    subscriptions: Seq<Subscription<O>>,
    s: Subscription<O>,
)
    ensures
        subscriptions.push(s).filter(
            |x: Subscription<O>| subscribed_to(x, s.block_number, s.slot_number),
        ) == subscriptions.filter(
            |x: Subscription<O>| subscribed_to(x, s.block_number, s.slot_number),
        ).push(s),
{
    subscriptions.lemma_filter_push(
        s,
        |x: Subscription<O>| subscribed_to(x, s.block_number, s.slot_number),
    );
}

/// Read errors on one connection after which the task reconnects.
pub const MAX_IO_ERRORS: usize = 5;

/// What the reading task does next.
#[derive(Debug, Clone, Copy, PartialEq, Eq, Structural)]
pub enum ReadCommand {
    /// Stop: the task was cancelled.
    Finish,
    /// Open a new connection.
    Reconnect,
    /// Wait (with a timeout) for the next message.
    Read,
}

/// What waiting for the next message gave.
#[derive(Debug, Clone, Copy)]
pub enum WsEvent {
    /// No message came within the read timeout.
    Timeout,
    /// The read stream ended.
    StreamClosed,
    /// Reading failed.
    ReadError,
    /// A text or binary message; `None` when its payload is not a best bid value.
    Data(Option<BestBidValue>),
    Ping,
    Pong,
    Frame,
    /// The relay closed the connection.
    Close,
}

/// What the reading task does with an event.
#[derive(Debug, Clone, Copy)]
pub enum WsAction {
    /// Open a new connection.
    Reconnect,
    /// Nothing to do: read the next message.
    Continue,
    /// A new best bid: notify the observers subscribed to its block and slot;
    /// when `non_zero`, also count it and feed the watchdog.
    NewBid { value: BestBidValue, non_zero: bool },
}

/// State of the reading task on one connection.
#[derive(Debug)]
pub struct WsReaderState {
    io_error_count: usize,
}

impl WsReaderState {
    pub closed spec fn io_error_count(&self) -> nat {
        self.io_error_count as nat
    }

    /// State on a fresh connection: no error yet.
    pub fn new() -> (r: Self)
        ensures
            r.io_error_count() == 0,
    {
        WsReaderState { io_error_count: 0 }
    }

    /// The next step: finish when cancelled, reconnect after
    /// [`MAX_IO_ERRORS`] read errors, read otherwise.
    pub fn next_command(&self, cancelled: bool) -> (r: ReadCommand)
        ensures
            r == (if cancelled {
                ReadCommand::Finish
            } else if self.io_error_count() >= MAX_IO_ERRORS {
                ReadCommand::Reconnect
            } else {
                ReadCommand::Read
            }),
    {
        if cancelled {
            ReadCommand::Finish
        } else if self.io_error_count >= MAX_IO_ERRORS {
            ReadCommand::Reconnect
        } else {
            ReadCommand::Read
        }
    }

    /// Handles what a read gave: timeouts, the end of the stream and close
    /// messages reconnect; read errors are counted; pings, pongs, frames and
    /// payloads that are not best bid values are skipped; a best bid value is
    /// passed on, flagged when its top bid is not zero.
    pub fn on_event(&mut self, event: WsEvent) -> (r: WsAction)
        requires
            old(self).io_error_count() < MAX_IO_ERRORS,
        ensures
            final(self).io_error_count() == old(self).io_error_count() + if event is ReadError {
                1nat
            } else {
                0nat
            },
            final(self).io_error_count() <= MAX_IO_ERRORS,
            match event {
                WsEvent::Timeout | WsEvent::StreamClosed | WsEvent::Close => r is Reconnect,
                WsEvent::ReadError | WsEvent::Ping | WsEvent::Pong | WsEvent::Frame => r is Continue,
                WsEvent::Data(None) => r is Continue,
                WsEvent::Data(Some(v)) => r matches WsAction::NewBid { value, non_zero } && value
                    == v && non_zero == (v.block_top_bid@ != 0),
            },
    {
        match event {
            WsEvent::Timeout | WsEvent::StreamClosed | WsEvent::Close => WsAction::Reconnect,
            WsEvent::ReadError => {
                self.io_error_count = self.io_error_count + 1;
                WsAction::Continue
            },
            WsEvent::Ping | WsEvent::Pong | WsEvent::Frame => WsAction::Continue,
            WsEvent::Data(None) => WsAction::Continue,
            WsEvent::Data(Some(value)) => {
                let non_zero = !value.block_top_bid.is_zero();
                WsAction::NewBid { value, non_zero }
            },
        }
    }
}

/// Why a connection request cannot be built.
#[derive(Debug, Clone, Copy, PartialEq, Eq, Structural)]
pub enum ConnectorError {
    /// The url is not a websocket url with a host.
    InvalidUrl,
    /// The basic-auth credentials cannot stand in a header.
    InvalidAuthorization,
}

/// The handshake request for the relay stream, with the url it was made for.
#[derive(Debug)]
pub struct ConnectionRequest {
    pub url: String,
    pub request: http::Request<()>,
}

/// The handshake request for the relay stream at `url`, authenticated with
/// `basic_auth`: its `Authorization` header is `Basic <basic_auth>`.
pub fn connection_request(url: &str, basic_auth: &str) -> (r: Result<
    ConnectionRequest,
    ConnectorError,
>)
    ensures
        r is Ok <==> ws_url_accepted(url@) && is_valid_header_value("Basic "@ + basic_auth@),
        r matches Err(e) ==> e == if !ws_url_accepted(url@) {
            ConnectorError::InvalidUrl
        } else {
            ConnectorError::InvalidAuthorization
        },
        r matches Ok(req) ==> {
            &&& req.url@ == url@
            &&& request_uri(req.request) == ws_request_uri(url@)
            &&& request_headers(req.request).dom().contains("authorization"@)
            &&& request_headers(req.request)["authorization"@] == "Basic "@ + basic_auth@
        },
{
    let mut request = match into_client_request(url) {
        Some(request) => request,
        None => {
            return Err(ConnectorError::InvalidUrl);
        },
    };
    let authorization = basic_authorization(basic_auth);
    if !insert_authorization_header(&mut request, authorization.as_str()) {
        return Err(ConnectorError::InvalidAuthorization);
    }
    Ok(ConnectionRequest { url: String::from_str(url), request })
}

/// The value of the `Authorization` header for HTTP basic authentication.
pub fn basic_authorization(basic_auth: &str) -> (r: String)
    ensures
        r@ == "Basic "@ + basic_auth@,
{
    let mut value = String::from_str("Basic ");
    value.append(basic_auth);
    value
}

} // verus!
