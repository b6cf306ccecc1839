//! The session of one benchmark client, as a state machine.
//!
//! The session authenticates, subscribes, and then issues orders in a cycle:
//! an order is created, and when the server has booked it, it is cancelled;
//! when the cancellation is done, the next order follows. Each response is
//! matched with its request by the correlation id, and the time in between is
//! recorded.
//!
//! Nothing here touches the transport. The caller hands in what arrived and
//! sends what is handed back.

use crate::config::{Config, ConfigView};
use crate::protocol::{
    authentication, cancellation, generate_client_id, is_client_id, kind_of, limit_order,
    orders_subscription, parse, parse_message, AuthenticateMessage, AuthenticateView, CancelOrderMessage,
    CancelOrderView, CreateOrderMessage, CreateOrderView, IncomingMessage, IncomingView,
    MessageKind, SubscribeMessage, SubscribeView,
};
use crate::text::optional_text;
use crate::protocol::lemma_kinds_of_known_types;
use crate::tracker::{
    clamp_latency, elapsed_between, IntervalSnapshot, LatencyTracker, TrackerView,
};
use vstd::prelude::*;
use vstd::string::StringExecFns;

verus! {

/// Why a session ended in failure.
#[derive(Debug)]
pub enum ClientError {
    /// The transport failed.
    WebSocket(String),
    /// A message could not be encoded or decoded.
    Json(String),
    /// The secure connection could not be set up.
    Tls(String),
    /// The connection ended before the session did.
    ConnectionClosed,
    /// The server answered the authentication with an error.
    AuthenticationFailed,
    /// The server broke the protocol.
    Protocol(String),
}

impl ClientError {
    /// The error as one line of text.
    pub fn message(&self) -> (out: String)
        ensures
            out@ == match *self {
                ClientError::WebSocket(detail) => "WebSocket error: "@ + detail@,
                ClientError::Json(detail) => "JSON error: "@ + detail@,
                ClientError::Tls(detail) => "TLS error: "@ + detail@,
                ClientError::ConnectionClosed => "Connection closed unexpectedly"@,
                ClientError::AuthenticationFailed => "Authentication failed"@,
                ClientError::Protocol(detail) => "Protocol error: "@ + detail@,
            },
    {
        match self {
            ClientError::WebSocket(detail) => {
                let mut out = String::from_str("WebSocket error: ");
                out.append(detail.as_str());
                out
            },
            ClientError::Json(detail) => {
                let mut out = String::from_str("JSON error: ");
                out.append(detail.as_str());
                out
            },
            ClientError::Tls(detail) => {
                let mut out = String::from_str("TLS error: ");
                out.append(detail.as_str());
                out
            },
            ClientError::ConnectionClosed => String::from_str("Connection closed unexpectedly"),
            ClientError::AuthenticationFailed => String::from_str("Authentication failed"),
            ClientError::Protocol(detail) => {
                let mut out = String::from_str("Protocol error: ");
                out.append(detail.as_str());
                out
            },
        }
    }
}

/// Where a session stands.
#[derive(Debug, Clone, Copy, PartialEq, Eq, Structural)]
pub enum ClientState {
    Connecting,
    Authenticating,
    Subscribing,
    /// The steady state: orders are created and cancelled in turn.
    Testing,
    Closed,
}

impl ClientState {
    /// The place of the state in the order in which a session passes
    /// through its states.
    pub open spec fn rank(self) -> nat {
        match self {
            ClientState::Connecting => 0,
            ClientState::Authenticating => 1,
            ClientState::Subscribing => 2,
            ClientState::Testing => 3,
            ClientState::Closed => 4,
        }
    }
}

/// What arrived from the transport.
#[derive(Debug, Clone, PartialEq, Eq)]
pub enum Frame {
    /// A text frame.
    Text(String),
    /// A keepalive ping with its payload.
    Ping(Vec<u8>),
    /// The transport was closed.
    Close,
    /// Any other frame.
    Other,
}

/// What is to be sent.
#[derive(Debug, Clone, PartialEq, Eq)]
pub enum Outbound {
    Authenticate(AuthenticateMessage),
    Subscribe(SubscribeMessage),
    CreateOrder(CreateOrderMessage),
    CancelOrder(CancelOrderMessage),
    /// The answer to a ping, with the ping's payload.
    Pong(Vec<u8>),
    /// The request to close the connection.
    Close,
}

/// Why a step did nothing, for the caller's diagnostics.
#[derive(Debug, Clone, Copy, PartialEq, Eq, Structural)]
pub enum Notice {
    /// A text frame that is not a message: not JSON, or without a type.
    Malformed,
    /// A response whose correlation id is absent or not pending.
    UnknownId,
    /// An error reported by the server after the authentication.
    ServerError,
    /// A message of a type that the client does not react to, or one that
    /// the state of the session does not expect.
    Unexpected,
}

/// What the session asks of its caller after one step.
#[derive(Debug, Clone, PartialEq, Eq)]
pub struct Reaction {
    /// What to send, if anything.
    pub outbound: Option<Outbound>,
    /// The interval that was closed in this step, to be printed and stored.
    pub snapshot: Option<IntervalSnapshot>,
    /// Why the step did nothing, where something was dropped.
    pub notice: Option<Notice>,
}

impl Reaction {
    /// The reaction that asks for nothing.
    pub fn none() -> (out: Self)
        ensures
            out == (Reaction { outbound: None, snapshot: None, notice: None }),
    {
        Reaction { outbound: None, snapshot: None, notice: None }
    }

    /// The reaction that asks to send `outbound`.
    pub fn send(outbound: Outbound) -> (out: Self)
        ensures
            out == (Reaction { outbound: Some(outbound), snapshot: None, notice: None }),
    {
        Reaction { outbound: Some(outbound), snapshot: None, notice: None }
    }

    /// The reaction to something that was dropped.
    pub fn dropped(notice: Notice) -> (out: Self)
        ensures
            out == (Reaction { outbound: None, snapshot: None, notice: Some(notice) }),
    {
        Reaction { outbound: None, snapshot: None, notice: Some(notice) }
    }
}

pub enum FrameView {
    Text(Seq<char>),
    Ping(Seq<u8>),
    Close,
    Other,
}

pub enum OutboundView {
    Authenticate(AuthenticateView),
    Subscribe(SubscribeView),
    CreateOrder(CreateOrderView),
    CancelOrder(CancelOrderView),
    Pong(Seq<u8>),
    Close,
}

impl View for Frame {
    type V = FrameView;

    open spec fn view(&self) -> FrameView {
        match *self {
            Frame::Text(text) => FrameView::Text(text@),
            Frame::Ping(data) => FrameView::Ping(data@),
            Frame::Close => FrameView::Close,
            Frame::Other => FrameView::Other,
        }
    }
}

impl View for Outbound {
    type V = OutboundView;

    open spec fn view(&self) -> OutboundView {
        match *self {
            Outbound::Authenticate(m) => OutboundView::Authenticate(m@),
            Outbound::Subscribe(m) => OutboundView::Subscribe(m@),
            Outbound::CreateOrder(m) => OutboundView::CreateOrder(m@),
            Outbound::CancelOrder(m) => OutboundView::CancelOrder(m@),
            Outbound::Pong(data) => OutboundView::Pong(data@),
            Outbound::Close => OutboundView::Close,
        }
    }
}

pub open spec fn optional_outbound(o: Option<Outbound>) -> Option<OutboundView> {
    match o {
        Some(m) => Some(m@),
        None => None,
    }
}

impl Outbound {
    /// The JSON text of a protocol message; `None` for a pong and for the
    /// request to close, which are not text.
    pub fn to_json(&self) -> (out: Option<String>)
        ensures
            match self@ {
                OutboundView::Authenticate(m) => out is Some && out->0@
                    == crate::protocol::auth_json(m),
                OutboundView::Subscribe(m) => out is Some && out->0@
                    == crate::protocol::subscribe_json(m),
                OutboundView::CreateOrder(m) => out is Some && out->0@
                    == crate::protocol::create_order_json(m),
                OutboundView::CancelOrder(m) => out is Some && out->0@
                    == crate::protocol::cancel_order_json(m),
                OutboundView::Pong(_) => out is None,
                OutboundView::Close => out is None,
            },
    {
        match self {
            Outbound::Authenticate(m) => Some(m.to_json()),
            Outbound::Subscribe(m) => Some(m.to_json()),
            Outbound::CreateOrder(m) => Some(m.to_json()),
            Outbound::CancelOrder(m) => Some(m.to_json()),
            Outbound::Pong(_) => None,
            Outbound::Close => None,
        }
    }
}

// ---------------------------------------------------------------------------
// The session as mathematical data
// ---------------------------------------------------------------------------

/// The state of a session.
pub struct ClientView {
    pub config: ConfigView,
    pub tracker: TrackerView,
    pub state: ClientState,
    /// The place in the list of instruments of the one that the next order
    /// is for.
    pub pair_index: usize,
    /// The correlation id of the order that was issued last.
    pub current_client_id: Option<Seq<char>>,
}

/// One step of a session: the state after it and what it asks for.
pub struct StepView {
    pub next: ClientView,
    pub outbound: Option<OutboundView>,
    /// The state of the tracker whose reporting interval the step closed,
    /// if it closed one.
    pub closed: Option<TrackerView>,
    /// Why the step did nothing, where something was dropped.
    pub notice: Option<Notice>,
    /// Whether the step failed the session.
    pub failed: bool,
}

/// No request is in flight.
pub open spec fn idle(t: TrackerView) -> bool {
    t.pending_orders.dom() =~= Set::<Seq<char>>::empty() && t.pending_cancels.dom()
        =~= Set::<Seq<char>>::empty()
}

/// Exactly one request is in flight, under correlation id `id`: the open
/// operation or the close operation, not both.
pub open spec fn awaiting(t: TrackerView, id: Seq<char>) -> bool {
    ||| t.pending_orders.dom() =~= set![id] && t.pending_cancels.dom()
        =~= Set::<Seq<char>>::empty()
    ||| t.pending_orders.dom() =~= Set::<Seq<char>>::empty() && t.pending_cancels.dom()
        =~= set![id]
}

impl ClientView {
    /// A session before it is opened.
    pub open spec fn fresh(config: ConfigView, started: u64) -> ClientView {
        ClientView {
            config,
            tracker: TrackerView::fresh(config.test_size, config.host, started),
            state: ClientState::Connecting,
            pair_index: 0,
            current_client_id: None,
        }
    }

    /// The invariant of a session. The index of the instrument lies within
    /// the list. Before the cycle begins no request is in flight; during the
    /// cycle exactly one is, under the id of the order issued last; once
    /// the session is closed at most that one is left.
    pub open spec fn wf(self) -> bool {
        &&& self.tracker.bounded()
        &&& self.tracker.test_size == self.config.test_size
        &&& self.pair_index < self.config.coin_pairs.len() || self.pair_index == 0
        &&& match self.state {
            ClientState::Connecting | ClientState::Authenticating | ClientState::Subscribing => {
                idle(self.tracker) && self.current_client_id is None
            },
            ClientState::Testing => {
                self.current_client_id matches Some(id) && awaiting(self.tracker, id)
            },
            ClientState::Closed => {
                idle(self.tracker) || (self.current_client_id matches Some(id) && awaiting(
                    self.tracker,
                    id,
                ))
            },
        }
    }

    /// The instrument that the next order is for. A session without
    /// instruments trades `BTC_EUR`.
    pub open spec fn current_pair(self) -> Seq<char> {
        if self.pair_index < self.config.coin_pairs.len() {
            self.config.coin_pairs[self.pair_index as int]
        } else {
            "BTC_EUR"@
        }
    }

    /// The index after one rotation: one further, and from the end of the
    /// list back to its start.
    pub open spec fn rotated_index(self) -> usize {
        if self.config.coin_pairs.len() > 0 {
            ((self.pair_index + 1) % (self.config.coin_pairs.len() as int)) as usize
        } else {
            self.pair_index
        }
    }

    /// The session after one rotation of the instrument.
    pub open spec fn pair_rotated(self) -> ClientView {
        ClientView { pair_index: self.rotated_index(), ..self }
    }

    /// The order that is issued under correlation id `id`.
    pub open spec fn order_message(self, id: Seq<char>) -> CreateOrderView {
        limit_order("BUY"@, self.current_pair(), id)
    }

    /// The session after an order was issued at `now` under correlation id
    /// `id`: the order is in flight, and the instrument has rotated.
    pub open spec fn order_issued(self, id: Seq<char>, now: u64) -> ClientView {
        ClientView {
            tracker: self.tracker.order_sent(id, now),
            current_client_id: Some(id),
            pair_index: self.rotated_index(),
            ..self
        }
    }

    /// A step that changes nothing and asks for nothing.
    pub open spec fn ignored(self, notice: Option<Notice>) -> StepView {
        StepView { next: self, outbound: None, closed: None, notice, failed: false }
    }

    /// The step that opens the session.
    pub open spec fn on_open(self) -> StepView {
        if self.state == ClientState::Connecting {
            StepView {
                next: ClientView { state: ClientState::Authenticating, ..self },
                outbound: Some(OutboundView::Authenticate(authentication(self.config.api_token))),
                closed: None,
                notice: None,
                failed: false,
            }
        } else {
            self.ignored(None)
        }
    }

    /// The step on the response `BOOKED` for the pending order `id`.
    pub open spec fn on_booked(self, id: Seq<char>, instrument: Option<Seq<char>>, now: u64) -> StepView {
        let instrument_code = match instrument {
            Some(code) => code,
            None => self.current_pair(),
        };
        StepView {
            next: ClientView {
                tracker: self.tracker.order_resolved(id, now).cancel_sent(id, now),
                ..self
            },
            outbound: Some(OutboundView::CancelOrder(cancellation(instrument_code, id))),
            closed: None,
            notice: None,
            failed: false,
        }
    }

    /// The step on the response `DONE` for the pending cancellation `id`.
    pub open spec fn on_done(self, id: Seq<char>, now: u64, fresh_id: Seq<char>) -> StepView {
        let resolved = self.tracker.cancel_resolved(id, now);
        let (tracker, closed) = if resolved.should_report() {
            (resolved.interval_closed(now), Some(resolved))
        } else {
            (resolved, None)
        };
        let settled = ClientView { tracker, ..self };
        if resolved.is_complete() {
            StepView {
                next: ClientView { state: ClientState::Closed, ..settled },
                outbound: Some(OutboundView::Close),
                closed,
                notice: None,
                failed: false,
            }
        } else {
            StepView {
                next: settled.order_issued(fresh_id, now),
                outbound: Some(OutboundView::CreateOrder(settled.order_message(fresh_id))),
                closed,
                notice: None,
                failed: false,
            }
        }
    }

    /// The step on an inbound message that arrives at `now`. `fresh_id` is
    /// the correlation id for the order that the step may issue.
    ///
    /// A message acts only in the state that expects it. A response whose
    /// correlation id is absent or not pending is dropped, and so is any
    /// other message; an error from the server ends the session only while
    /// it authenticates.
    pub open spec fn on_message(self, m: IncomingView, now: u64, fresh_id: Seq<char>) -> StepView {
        let kind = kind_of(m.msg_type);
        if self.state == ClientState::Authenticating && kind == MessageKind::Authenticated {
            StepView {
                next: ClientView { state: ClientState::Subscribing, ..self },
                outbound: Some(OutboundView::Subscribe(orders_subscription())),
                closed: None,
                notice: None,
                failed: false,
            }
        } else if self.state == ClientState::Authenticating && kind == MessageKind::Error {
            StepView {
                next: ClientView { state: ClientState::Closed, ..self },
                outbound: None,
                closed: None,
                notice: None,
                failed: true,
            }
        } else if self.state == ClientState::Subscribing && kind == MessageKind::Subscriptions {
            let testing = ClientView { state: ClientState::Testing, ..self };
            StepView {
                next: testing.order_issued(fresh_id, now),
                outbound: Some(OutboundView::CreateOrder(testing.order_message(fresh_id))),
                closed: None,
                notice: None,
                failed: false,
            }
        } else if self.state == ClientState::Testing && kind == MessageKind::Booked {
            if m.client_id is Some && self.tracker.pending_orders.contains_key(m.client_id->0) {
                self.on_booked(m.client_id->0, m.instrument_code, now)
            } else {
                self.ignored(Some(Notice::UnknownId))
            }
        } else if self.state == ClientState::Testing && kind == MessageKind::Done {
            if m.client_id is Some && self.tracker.pending_cancels.contains_key(m.client_id->0) {
                self.on_done(m.client_id->0, now, fresh_id)
            } else {
                self.ignored(Some(Notice::UnknownId))
            }
        } else if kind == MessageKind::Error {
            self.ignored(Some(Notice::ServerError))
        } else {
            self.ignored(Some(Notice::Unexpected))
        }
    }

    /// Whether the step on `m` may issue an order, and so needs a fresh
    /// correlation id.
    pub open spec fn may_issue(self, m: IncomingView) -> bool {
        let kind = kind_of(m.msg_type);
        ||| self.state == ClientState::Subscribing && kind == MessageKind::Subscriptions
        ||| self.state == ClientState::Testing && kind == MessageKind::Done
    }

    /// The step on a text frame that arrives at `now`: the step on the
    /// message that the text is. A text that is no message is dropped.
    pub open spec fn on_text(self, text: Seq<char>, now: u64, fresh_id: Seq<char>) -> StepView {
        match parse(text) {
            Ok(m) => self.on_message(m, now, fresh_id),
            Err(_) => self.ignored(Some(Notice::Malformed)),
        }
    }

    /// Whether the step on the text may issue an order.
    pub open spec fn text_may_issue(self, text: Seq<char>) -> bool {
        parse(text) matches Ok(m) && self.may_issue(m)
    }

    /// Whether the step on `frame` may issue an order.
    pub open spec fn frame_may_issue(self, frame: FrameView) -> bool {
        frame matches FrameView::Text(text) && self.text_may_issue(text)
    }

    /// The step on a frame that arrives at `now`. A ping is answered with a
    /// pong of the same payload; a close ends the session; any other frame
    /// that is not text is dropped.
    pub open spec fn on_frame(self, frame: FrameView, now: u64, fresh_id: Seq<char>) -> StepView {
        match frame {
            FrameView::Text(text) => self.on_text(text, now, fresh_id),
            FrameView::Ping(data) => StepView {
                next: self,
                outbound: Some(OutboundView::Pong(data)),
                closed: None,
                notice: None,
                failed: false,
            },
            FrameView::Close => StepView {
                next: ClientView { state: ClientState::Closed, ..self },
                outbound: None,
                closed: None,
                notice: None,
                failed: false,
            },
            FrameView::Other => self.ignored(None),
        }
    }
}

/// How the result of a step in code answers to the step `step` taken at
/// `now`: it fails exactly when the step does, with the authentication
/// error; otherwise it asks to send what the step sends, and hands out a
/// snapshot exactly when the step closed an interval, which the snapshot
/// then describes.
pub open spec fn answers(result: Result<Reaction, ClientError>, step: StepView, now: u64) -> bool {
    match result {
        Ok(reaction) => {
            &&& !step.failed
            &&& optional_outbound(reaction.outbound) == step.outbound
            &&& reaction.notice == step.notice
            &&& reaction.snapshot is Some <==> step.closed is Some
            &&& reaction.snapshot is Some ==> reaction.snapshot->0.describes(step.closed->0, now)
        },
        Err(e) => step.failed && e is AuthenticationFailed,
    }
}

// ---------------------------------------------------------------------------
// The session
// ---------------------------------------------------------------------------

/// The session of one benchmark client.
pub struct HftClient {
    config: Config,
    tracker: LatencyTracker,
    state: ClientState,
    current_pair_index: usize,
    current_client_id: Option<String>,
}

impl View for HftClient {
    type V = ClientView;

    closed spec fn view(&self) -> ClientView {
        ClientView {
            config: self.config@,
            tracker: self.tracker@,
            state: self.state,
            pair_index: self.current_pair_index,
            current_client_id: optional_text(self.current_client_id),
        }
    }
}

impl HftClient {
    /// The tracker is well formed and the session's invariant holds.
    pub closed spec fn wf(&self) -> bool {
        self.tracker.wf() && self@.wf()
    }

    /// A well-formed session satisfies the session's invariant.
    pub proof fn lemma_wf_view(&self)
        requires
            self.wf(),
        ensures
            self@.wf(),
    {
    }

    /// A session for `config`, not yet opened.
    pub fn new(config: Config) -> (out: Self)
        ensures
            out.wf(),
            out@ == ClientView::fresh(config@, out@.tracker.interval_start),
    {
        let tracker = LatencyTracker::new(config.test_size, config.host.clone());
        proof {
            tracker.lemma_wf_bounded();
        }
        HftClient {
            config,
            tracker,
            state: ClientState::Connecting,
            current_pair_index: 0,
            current_client_id: None,
        }
    }

    /// Where the session stands.
    pub fn state(&self) -> (state: ClientState)
        ensures
            state == self@.state,
    {
        self.state
    }

    /// Whether the session has ended.
    pub fn is_closed(&self) -> (closed: bool)
        ensures
            closed == (self@.state == ClientState::Closed),
    {
        match self.state {
            ClientState::Closed => true,
            _ => false,
        }
    }

    /// The place in the list of instruments of the one that the next order
    /// is for.
    pub fn current_pair_index(&self) -> (index: usize)
        ensures
            index == self@.pair_index,
    {
        self.current_pair_index
    }

    /// The configuration of the session.
    pub fn config(&self) -> (config: &Config)
        ensures
            config@ == self@.config,
    {
        &self.config
    }

    /// The tracker of the session.
    pub fn tracker(&self) -> (tracker: &LatencyTracker)
        ensures
            tracker@ == self@.tracker,
            self.wf() ==> tracker.wf(),
    {
        &self.tracker
    }

    /// The instrument that the next order is for.
    pub fn current_pair(&self) -> (pair: String)
        ensures
            pair@ == self@.current_pair(),
    {
        if self.current_pair_index < self.config.coin_pairs.len() {
            self.config.coin_pairs[self.current_pair_index].clone()
        } else {
            String::from_str("BTC_EUR")
        }
    }

    fn rotate_index(&mut self)
        requires
            old(self)@.pair_index < old(self)@.config.coin_pairs.len() || old(self)@.pair_index
                == 0,
        ensures
            final(self)@ == old(self)@.pair_rotated(),
            final(self).tracker == old(self).tracker,
            final(self)@.pair_index < final(self)@.config.coin_pairs.len() || final(self)@.pair_index
                == 0,
    {
        let n = self.config.coin_pairs.len();
        if n > 0 {
            self.current_pair_index = (self.current_pair_index + 1) % n;
        }
    }

    /// Moves on to the next instrument; after the last comes the first.
    pub fn rotate_pair(&mut self)
        requires
            old(self).wf(),
        ensures
            final(self).wf(),
            final(self)@ == old(self)@.pair_rotated(),
    {
        self.rotate_index();
    }

    /// Issues an order under correlation id `client_id` at `now`.
    fn send_order_at(&mut self, client_id: String, now: u64) -> (m: CreateOrderMessage)
        requires
            old(self).tracker.wf(),
            old(self)@.pair_index < old(self)@.config.coin_pairs.len() || old(self)@.pair_index
                == 0,
        ensures
            final(self).tracker.wf(),
            final(self)@ == old(self)@.order_issued(client_id@, now),
            m@ == old(self)@.order_message(client_id@),
    {
        let instrument_code = self.current_pair();
        let m = CreateOrderMessage::limit("BUY", instrument_code.as_str(), client_id.as_str());
        self.tracker.record_order_sent_at(client_id.clone(), now);
        self.current_client_id = Some(client_id);
        self.rotate_index();
        m
    }

    /// Issues the cancellation of order `client_id` at `now`.
    fn send_cancel_at(&mut self, client_id: &str, instrument_code: &str, now: u64) -> (m:
        CancelOrderMessage)
        requires
            old(self).tracker.wf(),
        ensures
            final(self).tracker.wf(),
            final(self)@ == (ClientView {
                tracker: old(self)@.tracker.cancel_sent(client_id@, now),
                ..old(self)@
            }),
            m@ == cancellation(instrument_code@, client_id@),
    {
        let m = CancelOrderMessage::new(instrument_code, client_id);
        self.tracker.record_cancel_sent_at(String::from_str(client_id), now);
        m
    }

    /// Opens the session: in state `Connecting` the token is presented and
    /// the session waits for the answer. In any other state nothing happens.
    pub fn open(&mut self) -> (outbound: Option<Outbound>)
        requires
            old(self).wf(),
        ensures
            final(self).wf(),
            final(self)@ == old(self)@.on_open().next,
            optional_outbound(outbound) == old(self)@.on_open().outbound,
    {
        match self.state {
            ClientState::Connecting => {
                self.state = ClientState::Authenticating;
                Some(Outbound::Authenticate(AuthenticateMessage::new(self.config.api_token)))
            },
            _ => None,
        }
    }

    /// Takes the step on the inbound message `msg` that arrived at `now`.
    /// `fresh_id` is used as the correlation id if the step issues an order.
    pub fn handle_message_at(&mut self, msg: &IncomingMessage, now: u64, fresh_id: String) -> (result:
        Result<Reaction, ClientError>)
        requires
            old(self).wf(),
            old(self)@.tracker.response_count < u64::MAX,
        ensures
            final(self).wf(),
            final(self)@ == old(self)@.on_message(msg@, now, fresh_id@).next,
            answers(result, old(self)@.on_message(msg@, now, fresh_id@), now),
    {
        let kind = msg.kind();
        match self.state {
            ClientState::Authenticating => match kind {
                MessageKind::Authenticated => {
                    self.state = ClientState::Subscribing;
                    Ok(Reaction::send(Outbound::Subscribe(SubscribeMessage::orders())))
                },
                MessageKind::Error => {
                    self.state = ClientState::Closed;
                    Err(ClientError::AuthenticationFailed)
                },
                _ => Ok(Reaction::dropped(Notice::Unexpected)),
            },
            ClientState::Subscribing => match kind {
                MessageKind::Subscriptions => {
                    self.state = ClientState::Testing;
                    let order = self.send_order_at(fresh_id, now);
                    proof {
                        self.tracker.lemma_wf_bounded();
                    }
                    Ok(Reaction::send(Outbound::CreateOrder(order)))
                },
                MessageKind::Error => Ok(Reaction::dropped(Notice::ServerError)),
                _ => Ok(Reaction::dropped(Notice::Unexpected)),
            },
            ClientState::Testing => match kind {
                MessageKind::Booked => self.handle_booked(msg, now),
                MessageKind::Done => self.handle_done(msg, now, fresh_id),
                MessageKind::Error => Ok(Reaction::dropped(Notice::ServerError)),
                _ => Ok(Reaction::dropped(Notice::Unexpected)),
            },
            _ => match kind {
                MessageKind::Error => Ok(Reaction::dropped(Notice::ServerError)),
                _ => Ok(Reaction::dropped(Notice::Unexpected)),
            },
        }
    }

    /// The step on `BOOKED` in state `Testing`.
    fn handle_booked(&mut self, msg: &IncomingMessage, now: u64) -> (result: Result<
        Reaction,
        ClientError,
    >)
        requires
            old(self).wf(),
            old(self)@.tracker.response_count < u64::MAX,
            old(self)@.state == ClientState::Testing,
            kind_of(msg@.msg_type) == MessageKind::Booked,
        ensures
            final(self).wf(),
            final(self)@ == old(self)@.on_message(msg@, now, Seq::empty()).next,
            answers(result, old(self)@.on_message(msg@, now, Seq::empty()), now),
    {
        let client_id = match &msg.client_id {
            Some(id) => id,
            None => {
                return Ok(Reaction::dropped(Notice::UnknownId));
            },
        };
        match self.tracker.record_order_response_at(client_id.as_str(), now) {
            Some(_) => {},
            None => {
                return Ok(Reaction::dropped(Notice::UnknownId));
            },
        }
        let instrument_code = match &msg.instrument_code {
            Some(code) => code.clone(),
            None => self.current_pair(),
        };
        let cancel = self.send_cancel_at(client_id.as_str(), instrument_code.as_str(), now);
        proof {
            self.tracker.lemma_wf_bounded();
        }
        Ok(Reaction::send(Outbound::CancelOrder(cancel)))
    }

    /// The step on `DONE` in state `Testing`.
    fn handle_done(&mut self, msg: &IncomingMessage, now: u64, fresh_id: String) -> (result: Result<
        Reaction,
        ClientError,
    >)
        requires
            old(self).wf(),
            old(self)@.tracker.response_count < u64::MAX,
            old(self)@.state == ClientState::Testing,
            kind_of(msg@.msg_type) == MessageKind::Done,
        ensures
            final(self).wf(),
            final(self)@ == old(self)@.on_message(msg@, now, fresh_id@).next,
            answers(result, old(self)@.on_message(msg@, now, fresh_id@), now),
    {
        let client_id = match &msg.client_id {
            Some(id) => id,
            None => {
                return Ok(Reaction::dropped(Notice::UnknownId));
            },
        };
        match self.tracker.record_cancel_response_at(client_id.as_str(), now) {
            Some(_) => {},
            None => {
                return Ok(Reaction::dropped(Notice::UnknownId));
            },
        }
        let snapshot = if self.tracker.should_print_stats() {
            Some(self.tracker.print_stats_at(now))
        } else {
            None
        };
        proof {
            self.tracker.lemma_wf_bounded();
        }
        if self.tracker.is_test_complete() {
            self.state = ClientState::Closed;
            Ok(Reaction { outbound: Some(Outbound::Close), snapshot, notice: None })
        } else {
            let order = self.send_order_at(fresh_id, now);
            proof {
                self.tracker.lemma_wf_bounded();
            }
            Ok(Reaction { outbound: Some(Outbound::CreateOrder(order)), snapshot, notice: None })
        }
    }

    /// Takes the step on the frame `frame` that arrived at `now`.
    pub fn handle_frame_at(&mut self, frame: Frame, now: u64, fresh_id: String) -> (result: Result<
        Reaction,
        ClientError,
    >)
        requires
            old(self).wf(),
            old(self)@.tracker.response_count < u64::MAX,
        ensures
            final(self).wf(),
            final(self)@ == old(self)@.on_frame(frame@, now, fresh_id@).next,
            answers(result, old(self)@.on_frame(frame@, now, fresh_id@), now),
    {
        match frame {
            Frame::Text(text) => self.handle_text_at(text.as_str(), now, fresh_id),
            Frame::Ping(data) => Ok(Reaction::send(Outbound::Pong(data))),
            Frame::Close => {
                self.state = ClientState::Closed;
                Ok(Reaction::none())
            },
            Frame::Other => Ok(Reaction::none()),
        }
    }

    /// Takes the step on the text frame `text` that arrived at `now`.
    pub fn handle_text_at(&mut self, text: &str, now: u64, fresh_id: String) -> (result: Result<
        Reaction,
        ClientError,
    >)
        requires
            old(self).wf(),
            old(self)@.tracker.response_count < u64::MAX,
        ensures
            final(self).wf(),
            final(self)@ == old(self)@.on_text(text@, now, fresh_id@).next,
            answers(result, old(self)@.on_text(text@, now, fresh_id@), now),
    {
        match parse_message(text) {
            Ok(msg) => self.handle_message_at(&msg, now, fresh_id),
            Err(_) => Ok(Reaction::dropped(Notice::Malformed)),
        }
    }

    /// Whether the step on `msg` may issue an order.
    fn may_issue(&self, msg: &IncomingMessage) -> (may: bool)
        ensures
            may == self@.may_issue(msg@),
    {
        let kind = msg.kind();
        match self.state {
            ClientState::Subscribing => match kind {
                MessageKind::Subscriptions => true,
                _ => false,
            },
            ClientState::Testing => match kind {
                MessageKind::Done => true,
                _ => false,
            },
            _ => false,
        }
    }

    /// Takes the step on the inbound message `msg`, which has arrived now.
    /// The time is read from the tracker's clock, and an order that the step
    /// issues gets a fresh correlation id. Whatever the clock reads and
    /// whichever id is drawn, the step is the one that `on_message` gives
    /// for them.
    pub fn handle_message(&mut self, msg: &IncomingMessage) -> (result: Result<
        Reaction,
        ClientError,
    >)
        requires
            old(self).wf(),
            old(self)@.tracker.response_count < u64::MAX,
        ensures
            final(self).wf(),
            exists|now: u64, id: Seq<char>|
                {
                    &&& old(self)@.may_issue(msg@) ==> is_client_id(id)
                    &&& final(self)@ == (#[trigger] old(self)@.on_message(msg@, now, id)).next
                    &&& answers(result, old(self)@.on_message(msg@, now, id), now)
                },
    {
        let now = self.tracker.now();
        let fresh_id = if self.may_issue(msg) {
            generate_client_id()
        } else {
            String::new()
        };
        let ghost id = fresh_id@;
        let result = self.handle_message_at(msg, now, fresh_id);
        assert(final(self)@ == old(self)@.on_message(msg@, now, id).next);
        result
    }

    /// Takes the step on the frame `frame`, which has arrived now.
    pub fn handle_frame(&mut self, frame: Frame) -> (result: Result<Reaction, ClientError>)
        requires
            old(self).wf(),
            old(self)@.tracker.response_count < u64::MAX,
        ensures
            final(self).wf(),
            exists|now: u64, id: Seq<char>|
                {
                    &&& old(self)@.frame_may_issue(frame@) ==> is_client_id(id)
                    &&& final(self)@ == (#[trigger] old(self)@.on_frame(frame@, now, id)).next
                    &&& answers(result, old(self)@.on_frame(frame@, now, id), now)
                },
    {
        match frame {
            Frame::Text(text) => {
                let result = self.handle_text(text.as_str());
                proof {
                    let (now, id) = choose|now: u64, id: Seq<char>|
                        {
                            &&& old(self)@.text_may_issue(text@) ==> is_client_id(id)
                            &&& final(self)@ == (#[trigger] old(self)@.on_text(text@, now, id)).next
                            &&& answers(result, old(self)@.on_text(text@, now, id), now)
                        };
                    assert(final(self)@ == old(self)@.on_frame(frame@, now, id).next);
                }
                result
            },
            // The step on any other frame depends neither on the time nor on
            // a fresh id.
            other => {
                let result = self.handle_frame_at(other, 0, String::new());
                assert(final(self)@ == old(self)@.on_frame(frame@, 0, Seq::empty()).next);
                result
            },
        }
    }

    /// Takes the step on the text frame `text`, which has arrived now.
    pub fn handle_text(&mut self, text: &str) -> (result: Result<Reaction, ClientError>)
        requires
            old(self).wf(),
            old(self)@.tracker.response_count < u64::MAX,
        ensures
            final(self).wf(),
            exists|now: u64, id: Seq<char>|
                {
                    &&& old(self)@.text_may_issue(text@) ==> is_client_id(id)
                    &&& final(self)@ == (#[trigger] old(self)@.on_text(text@, now, id)).next
                    &&& answers(result, old(self)@.on_text(text@, now, id), now)
                },
    {
        let msg = match parse_message(text) {
            Ok(msg) => msg,
            Err(_) => {
                assert(final(self)@ == old(self)@.on_text(text@, 0, Seq::empty()).next);
                return Ok(Reaction::dropped(Notice::Malformed));
            },
        };
        let now = self.tracker.now();
        let fresh_id = if self.may_issue(&msg) {
            generate_client_id()
        } else {
            String::new()
        };
        let ghost id = fresh_id@;
        let result = self.handle_message_at(&msg, now, fresh_id);
        assert(final(self)@ == old(self)@.on_text(text@, now, id).next);
        result
    }
}

// ---------------------------------------------------------------------------
// Laws
// ---------------------------------------------------------------------------

/// A bounded tracker stays bounded when a response is settled.
proof fn lemma_settled_bounded(t: TrackerView, id: Seq<char>, rtt: u64)
    requires
        t.bounded(),
        t.response_count < u64::MAX,
    ensures
        t.order_settled(id, rtt).bounded(),
        t.cancel_settled(id, rtt).bounded(),
{
    let sample = clamp_latency(rtt);
    vstd::multiset::lemma_insert_len(t.samples, sample);
    assert forall|v: u64| t.samples.insert(sample).contains(v) implies crate::tracker::MIN_LATENCY
        <= v <= crate::tracker::MAX_LATENCY by {
        vstd::multiset::lemma_insert_containment(t.samples, sample, v);
        if v != sample {
            assert(t.samples.contains(v));
        }
    }
}

/// The invariant of a session holds after every step: whatever arrives,
/// at most one request is in flight, under the id of the order issued last,
/// and never as open and close operation at once.
pub proof fn law_step_keeps_invariant(c: ClientView, frame: FrameView, now: u64, fresh_id: Seq<char>)
    requires
        c.wf(),
        c.tracker.response_count < u64::MAX,
    ensures
        c.on_open().next.wf(),
        c.on_frame(frame, now, fresh_id).next.wf(),
{
    if frame matches FrameView::Text(text) && parse(text) is Ok {
        let m = parse(frame->Text_0)->Ok_0;
        if m.client_id is Some {
            let id = m.client_id->0;
            if c.tracker.pending_orders.contains_key(id) {
                lemma_settled_bounded(c.tracker, id, elapsed_between(c.tracker.pending_orders[id], now));
            }
            if c.tracker.pending_cancels.contains_key(id) {
                lemma_settled_bounded(c.tracker, id, elapsed_between(c.tracker.pending_cancels[id], now));
            }
        }
    }
}

/// A session only moves forward through its states: no step takes it back
/// to an earlier one.
pub proof fn law_state_advances(c: ClientView, frame: FrameView, now: u64, fresh_id: Seq<char>)
    ensures
        c.on_open().next.state.rank() >= c.state.rank(),
        c.on_frame(frame, now, fresh_id).next.state.rank() >= c.state.rank(),
{
}

/// A response that carries no correlation id, or one that is not pending,
/// is dropped: the session and its tracker stay as they are, and nothing is
/// sent.
pub proof fn law_unknown_response_is_ignored(
    c: ClientView,
    m: IncomingView,
    now: u64,
    fresh_id: Seq<char>,
)
    requires
        kind_of(m.msg_type) == MessageKind::Booked || kind_of(m.msg_type) == MessageKind::Done,
        m.client_id matches Some(id) ==> !c.tracker.pending_orders.contains_key(id)
            && !c.tracker.pending_cancels.contains_key(id),
    ensures
        c.on_message(m, now, fresh_id).next == c,
        c.on_message(m, now, fresh_id).outbound is None,
        c.on_message(m, now, fresh_id).closed is None,
        !c.on_message(m, now, fresh_id).failed,
        c.state == ClientState::Testing ==> c.on_message(m, now, fresh_id).notice == Some(
            Notice::UnknownId,
        ),
{
}

/// The session after orders were issued, one after the other, under the
/// correlation ids `ids`, the order number `i` at the time `times(i)`.
pub open spec fn after_orders(c: ClientView, ids: Seq<Seq<char>>, times: spec_fn(int) -> u64) -> ClientView
    decreases ids.len(),
{
    if ids.len() == 0 {
        c
    } else {
        after_orders(c, ids.drop_last(), times).order_issued(ids.last(), times(ids.len() - 1))
    }
}

/// The instrument rotates through the list. In a session that begins at
/// the start of a list of `n > 0` instruments, the order that is issued
/// after `k` earlier ones is for instrument number `k mod n`: the orders go
/// through the list in order and begin again after the last.
pub proof fn law_rotation_is_cyclic(
    c: ClientView,
    ids: Seq<Seq<char>>,
    times: spec_fn(int) -> u64,
    next_id: Seq<char>,
)
    requires
        0 < c.config.coin_pairs.len() <= usize::MAX,
        c.pair_index == 0,
    ensures
        after_orders(c, ids, times).config == c.config,
        after_orders(c, ids, times).pair_index == ids.len() % c.config.coin_pairs.len(),
        after_orders(c, ids, times).order_message(next_id).order.instrument_code
            == c.config.coin_pairs[(ids.len() % c.config.coin_pairs.len()) as int],
    decreases ids.len(),
{
    let n = c.config.coin_pairs.len() as int;
    let k = ids.len() as int;
    if k > 0 {
        law_rotation_is_cyclic(c, ids.drop_last(), times, next_id);
        let i = (k - 1) % n;
        vstd::arithmetic::div_mod::lemma_add_mod_noop(k - 1, 1, n);
        vstd::arithmetic::div_mod::lemma_mod_bound(k - 1, n);
        if n == 1 {
            assert((i + 1) % n == 0);
            assert(1int % n == 0);
        } else {
            vstd::arithmetic::div_mod::lemma_small_mod(1, n as nat);
        }
        assert((i + 1) % n == k % n);
    } else {
        vstd::arithmetic::div_mod::lemma_small_mod(0, n as nat);
    }
    vstd::arithmetic::div_mod::lemma_mod_bound(k, n);
}

/// Issuing an order rotates the instrument once and asks for the
/// instrument that was current before.
pub proof fn law_order_uses_current_pair(c: ClientView, id: Seq<char>, now: u64)
    ensures
        c.order_message(id).order.instrument_code == c.current_pair(),
        c.order_message(id).order.client_id == id,
        c.order_issued(id, now).pair_index == c.pair_rotated().pair_index,
        c.order_issued(id, now).tracker.pending_orders.contains_key(id),
{
}

/// An inbound message of type `t` with correlation id `id`.
pub open spec fn response(t: Seq<char>, id: Option<Seq<char>>, instrument: Option<Seq<char>>) -> IncomingView {
    IncomingView { msg_type: t, client_id: id, instrument_code: instrument }
}

/// The course of a session without mishap. A fresh session is opened and
/// receives, in turn, `AUTHENTICATED`, `SUBSCRIPTIONS`, `BOOKED` for the
/// order it issued and `DONE` for the cancellation. It sends, in turn, the
/// authentication, the subscription, an order under the fresh id, and the
/// cancellation under the same id. The two responses are counted. With a
/// test size of more than 2 the session then issues the next order, for the
/// next instrument, and stays in `Testing`; with a test size of at most 2 it
/// asks to close and is `Closed`.
pub proof fn law_happy_path(
    config: ConfigView,
    started: u64,
    first_id: Seq<char>,
    second_id: Seq<char>,
    instrument: Option<Seq<char>>,
    t1: u64,
    t2: u64,
    t3: u64,
    t4: u64,
)
    ensures
        ({
            let c = ClientView::fresh(config, started);
            let opened = c.on_open();
            let authenticated = opened.next.on_message(
                response("AUTHENTICATED"@, None, None),
                t1,
                Seq::empty(),
            );
            let subscribed = authenticated.next.on_message(
                response("SUBSCRIPTIONS"@, None, None),
                t2,
                first_id,
            );
            let booked = subscribed.next.on_message(
                response("BOOKED"@, Some(first_id), instrument),
                t3,
                Seq::empty(),
            );
            let done = booked.next.on_message(response("DONE"@, Some(first_id), None), t4, second_id);
            &&& c.wf()
            &&& opened.outbound == Some(OutboundView::Authenticate(authentication(config.api_token)))
            &&& authenticated.outbound == Some(OutboundView::Subscribe(orders_subscription()))
            &&& subscribed.outbound == Some(
                OutboundView::CreateOrder(limit_order("BUY"@, c.current_pair(), first_id)),
            )
            &&& subscribed.next.state == ClientState::Testing
            &&& booked.outbound == Some(
                OutboundView::CancelOrder(
                    cancellation(
                        match instrument {
                            Some(code) => code,
                            None => c.pair_rotated().current_pair(),
                        },
                        first_id,
                    ),
                ),
            )
            &&& booked.next.state == ClientState::Testing
            &&& done.next.tracker.response_count == 2
            &&& idle(done.next.tracker) || awaiting(done.next.tracker, second_id)
            &&& config.test_size > 2 ==> done.next.state == ClientState::Testing && done.outbound
                == Some(
                OutboundView::CreateOrder(
                    limit_order("BUY"@, c.pair_rotated().current_pair(), second_id),
                ),
            )
            &&& config.test_size <= 2 ==> done.next.state == ClientState::Closed && done.outbound
                == Some(OutboundView::Close)
        }),
{
    lemma_kinds_of_known_types();
    let c = ClientView::fresh(config, started);
    let opened = c.on_open();
    let authenticated = opened.next.on_message(
        response("AUTHENTICATED"@, None, None),
        t1,
        Seq::empty(),
    );
    let subscribed = authenticated.next.on_message(
        response("SUBSCRIPTIONS"@, None, None),
        t2,
        first_id,
    );
    assert(subscribed.next.tracker.pending_orders.contains_key(first_id));
    let booked = subscribed.next.on_message(
        response("BOOKED"@, Some(first_id), instrument),
        t3,
        Seq::empty(),
    );
    assert(booked.next.tracker.pending_cancels.contains_key(first_id));
    assert(booked.next.tracker.response_count == 1);
    let done = booked.next.on_message(response("DONE"@, Some(first_id), None), t4, second_id);
    assert(done.next.tracker.response_count == 2);
}

} // verus!
