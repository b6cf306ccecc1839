//! The messages of the trading protocol and their JSON text.
//!
//! Every message is a JSON object with a `type` member. The outbound
//! messages are written without white space, members in the order of the
//! fields. Strings are quoted and escaped by `serde_json`.

use crate::number::{decimal, push_decimal};
use crate::text::optional_text;
use vstd::pervasive::unreached;
use vstd::prelude::*;
use vstd::string::StringExecFns;

verus! {

/// `serde_json::Error`, carried through as it is.
#[verifier::external_type_specification]
#[verifier::external_body]
pub struct ExJsonError(serde_json::Error);

// ---------------------------------------------------------------------------
// JSON strings
// ---------------------------------------------------------------------------

/// The small hexadecimal digit for `n`.
pub open spec fn hex_digit(n: nat) -> char
    recommends
        n < 16,
{
    if n < 10 {
        (('0' as u8) + (n as u8)) as char
    } else {
        (('a' as u8) + ((n - 10) as u8)) as char
    }
}

/// How one character stands inside a JSON string: the quote, the backslash
/// and the control characters below U+0020 are escaped, every other
/// character stands for itself.
pub open spec fn json_escape(c: char) -> Seq<char> {
    if c == '"' {
        seq!['\\', '"']
    } else if c == '\\' {
        seq!['\\', '\\']
    } else if c == '\u{8}' {
        seq!['\\', 'b']
    } else if c == '\u{c}' {
        seq!['\\', 'f']
    } else if c == '\n' {
        seq!['\\', 'n']
    } else if c == '\r' {
        seq!['\\', 'r']
    } else if c == '\t' {
        seq!['\\', 't']
    } else if (c as u32) < 0x20 {
        seq!['\\', 'u', '0', '0', hex_digit((c as nat) / 16), hex_digit((c as nat) % 16)]
    } else {
        seq![c]
    }
}

/// The characters of `s`, each escaped.
pub open spec fn json_escaped(s: Seq<char>) -> Seq<char>
    decreases s.len(),
{
    if s.len() == 0 {
        Seq::empty()
    } else {
        json_escaped(s.drop_last()) + json_escape(s.last())
    }
}

/// `s` as a JSON string: escaped, between double quotes.
pub open spec fn json_string(s: Seq<char>) -> Seq<char> {
    seq!['"'] + json_escaped(s) + seq!['"']
}

/// `serde_json::to_string` on a string slice. It writes the slice as a JSON
/// string, as `json_string` says, into memory, which cannot fail.
#[verifier::external_body]
fn encode_json_string(s: &str) -> (out: Result<String, serde_json::Error>)
    ensures
        out is Ok,
        out->Ok_0@ == json_string(s@),
{
    serde_json::to_string(s)
}

/// Appends `s` to `out` as a JSON string.
pub fn push_json_string(out: &mut String, s: &str)
    ensures
        final(out)@ == old(out)@ + json_string(s@),
{
    let quoted = match encode_json_string(s) {
        Ok(t) => t,
        Err(_) => unreached(),
    };
    out.append(quoted.as_str());
}

// ---------------------------------------------------------------------------
// Outbound messages
// ---------------------------------------------------------------------------

/// Presents the API token to the server.
#[derive(Debug, Clone, PartialEq, Eq)]
pub struct AuthenticateMessage {
    pub msg_type: &'static str,
    pub api_token: String,
}

/// A channel to subscribe to.
#[derive(Debug, Clone, PartialEq, Eq)]
pub struct Channel {
    pub name: String,
}

/// Subscribes to channels.
#[derive(Debug, Clone, PartialEq, Eq)]
pub struct SubscribeMessage {
    pub msg_type: &'static str,
    pub channels: Vec<Channel>,
}

/// The order of a `CREATE_ORDER` message. Price and amount are decimal
/// numbers written as text.
#[derive(Debug, Clone, PartialEq, Eq)]
pub struct Order {
    pub instrument_code: String,
    pub client_id: String,
    pub side: String,
    pub order_type: String,
    pub price: String,
    pub amount: String,
    pub time_in_force: String,
}

/// Opens an order. The order's `client_id` is the correlation id.
#[derive(Debug, Clone, PartialEq, Eq)]
pub struct CreateOrderMessage {
    pub msg_type: &'static str,
    pub order: Order,
}

/// Cancels the order with correlation id `client_id`.
#[derive(Debug, Clone, PartialEq, Eq)]
pub struct CancelOrderMessage {
    pub msg_type: &'static str,
    pub client_id: String,
    pub instrument_code: String,
}

/// An `AUTHENTICATE` message as mathematical data.
pub struct AuthenticateView {
    pub msg_type: Seq<char>,
    pub api_token: Seq<char>,
}

/// A `SUBSCRIBE` message as mathematical data: its channels by name.
pub struct SubscribeView {
    pub msg_type: Seq<char>,
    pub channels: Seq<Seq<char>>,
}

pub struct OrderView {
    pub instrument_code: Seq<char>,
    pub client_id: Seq<char>,
    pub side: Seq<char>,
    pub order_type: Seq<char>,
    pub price: Seq<char>,
    pub amount: Seq<char>,
    pub time_in_force: Seq<char>,
}

pub struct CreateOrderView {
    pub msg_type: Seq<char>,
    pub order: OrderView,
}

pub struct CancelOrderView {
    pub msg_type: Seq<char>,
    pub client_id: Seq<char>,
    pub instrument_code: Seq<char>,
}

impl View for AuthenticateMessage {
    type V = AuthenticateView;

    open spec fn view(&self) -> AuthenticateView {
        AuthenticateView { msg_type: self.msg_type@, api_token: self.api_token@ }
    }
}

impl View for Channel {
    type V = Seq<char>;

    open spec fn view(&self) -> Seq<char> {
        self.name@
    }
}

impl View for SubscribeMessage {
    type V = SubscribeView;

    open spec fn view(&self) -> SubscribeView {
        SubscribeView {
            msg_type: self.msg_type@,
            channels: Seq::new(self.channels@.len(), |i: int| self.channels@[i]@),
        }
    }
}

impl View for Order {
    type V = OrderView;

    open spec fn view(&self) -> OrderView {
        OrderView {
            instrument_code: self.instrument_code@,
            client_id: self.client_id@,
            side: self.side@,
            order_type: self.order_type@,
            price: self.price@,
            amount: self.amount@,
            time_in_force: self.time_in_force@,
        }
    }
}

impl View for CreateOrderMessage {
    type V = CreateOrderView;

    open spec fn view(&self) -> CreateOrderView {
        CreateOrderView { msg_type: self.msg_type@, order: self.order@ }
    }
}

impl View for CancelOrderMessage {
    type V = CancelOrderView;

    open spec fn view(&self) -> CancelOrderView {
        CancelOrderView {
            msg_type: self.msg_type@,
            client_id: self.client_id@,
            instrument_code: self.instrument_code@,
        }
    }
}

/// The `AUTHENTICATE` message for a token: the token in decimal notation.
pub open spec fn authentication(api_token: u32) -> AuthenticateView {
    AuthenticateView { msg_type: "AUTHENTICATE"@, api_token: decimal(api_token as nat) }
}

/// The `SUBSCRIBE` message for the one channel `ORDERS`.
pub open spec fn orders_subscription() -> SubscribeView {
    SubscribeView { msg_type: "SUBSCRIBE"@, channels: seq!["ORDERS"@] }
}

/// The `CREATE_ORDER` message of a limit order over amount 1 at price 1 that
/// stays good until it is cancelled.
pub open spec fn limit_order(
    side: Seq<char>,
    instrument_code: Seq<char>,
    client_id: Seq<char>,
) -> CreateOrderView {
    CreateOrderView {
        msg_type: "CREATE_ORDER"@,
        order: OrderView {
            instrument_code,
            client_id,
            side,
            order_type: "LIMIT"@,
            price: "1"@,
            amount: "1"@,
            time_in_force: "GOOD_TILL_CANCELLED"@,
        },
    }
}

/// The `CANCEL_ORDER` message for the order with correlation id `client_id`.
pub open spec fn cancellation(instrument_code: Seq<char>, client_id: Seq<char>) -> CancelOrderView {
    CancelOrderView { msg_type: "CANCEL_ORDER"@, client_id, instrument_code }
}

pub open spec fn auth_json(m: AuthenticateView) -> Seq<char> {
    "{\"type\":"@ + json_string(m.msg_type) + ",\"api_token\":"@ + json_string(m.api_token)
        + "}"@
}

pub open spec fn channel_json(name: Seq<char>) -> Seq<char> {
    "{\"name\":"@ + json_string(name) + "}"@
}

/// The channels, separated by commas.
pub open spec fn channels_json(channels: Seq<Seq<char>>) -> Seq<char>
    decreases channels.len(),
{
    if channels.len() == 0 {
        Seq::empty()
    } else if channels.len() == 1 {
        channel_json(channels[0])
    } else {
        channels_json(channels.drop_last()) + ","@ + channel_json(channels.last())
    }
}

pub open spec fn subscribe_json(m: SubscribeView) -> Seq<char> {
    "{\"type\":"@ + json_string(m.msg_type) + ",\"channels\":["@ + channels_json(m.channels)
        + "]}"@
}

pub open spec fn order_json(o: OrderView) -> Seq<char> {
    "{\"instrument_code\":"@ + json_string(o.instrument_code) + ",\"client_id\":"@ + json_string(
        o.client_id,
    ) + ",\"side\":"@ + json_string(o.side) + ",\"type\":"@ + json_string(o.order_type)
        + ",\"price\":"@ + json_string(o.price) + ",\"amount\":"@ + json_string(o.amount)
        + ",\"time_in_force\":"@ + json_string(o.time_in_force) + "}"@
}

pub open spec fn create_order_json(m: CreateOrderView) -> Seq<char> {
    "{\"type\":"@ + json_string(m.msg_type) + ",\"order\":"@ + order_json(m.order) + "}"@
}

pub open spec fn cancel_order_json(m: CancelOrderView) -> Seq<char> {
    "{\"type\":"@ + json_string(m.msg_type) + ",\"client_id\":"@ + json_string(m.client_id)
        + ",\"instrument_code\":"@ + json_string(m.instrument_code) + "}"@
}

impl AuthenticateMessage {
    pub fn new(api_token: u32) -> (m: Self)
        ensures
            m@ == authentication(api_token),
    {
        let mut token = String::new();
        push_decimal(&mut token, api_token as u64);
        assert(token@ == decimal(api_token as nat));
        AuthenticateMessage { msg_type: "AUTHENTICATE", api_token: token }
    }

    /// The message as JSON text.
    pub fn to_json(&self) -> (out: String)
        ensures
            out@ == auth_json(self@),
    {
        let mut out = String::from_str("{\"type\":");
        push_json_string(&mut out, self.msg_type);
        out.append(",\"api_token\":");
        push_json_string(&mut out, self.api_token.as_str());
        out.append("}");
        out
    }
}

impl Channel {
    /// The channel as JSON text.
    pub fn to_json(&self) -> (out: String)
        ensures
            out@ == channel_json(self@),
    {
        let mut out = String::from_str("{\"name\":");
        push_json_string(&mut out, self.name.as_str());
        out.append("}");
        out
    }
}

impl SubscribeMessage {
    /// The subscription to the channel `ORDERS`.
    pub fn orders() -> (m: Self)
        ensures
            m@ == orders_subscription(),
    {
        let mut channels: Vec<Channel> = Vec::new();
        channels.push(Channel { name: String::from_str("ORDERS") });
        let m = SubscribeMessage { msg_type: "SUBSCRIBE", channels };
        assert(m@.channels =~= seq!["ORDERS"@]);
        m
    }

    /// The message as JSON text.
    pub fn to_json(&self) -> (out: String)
        ensures
            out@ == subscribe_json(self@),
    {
        let ghost names = self@.channels;
        let mut list = String::new();
        let mut i: usize = 0;
        assert(names.take(0) == Seq::<Seq<char>>::empty());
        while i < self.channels.len()
            invariant
                i <= self.channels.len(),
                names == self@.channels,
                list@ == channels_json(names.take(i as int)),
            decreases self.channels.len() - i,
        {
            let ghost seen = names.take(i + 1);
            assert(seen.drop_last() == names.take(i as int));
            assert(seen.last() == self.channels@[i as int]@);
            if i > 0 {
                list.append(",");
            }
            let item = self.channels[i].to_json();
            list.append(item.as_str());
            i += 1;
        }
        assert(names.take(i as int) == names);
        let mut out = String::from_str("{\"type\":");
        push_json_string(&mut out, self.msg_type);
        out.append(",\"channels\":[");
        out.append(list.as_str());
        out.append("]}");
        out
    }
}

impl Order {
    /// The order as JSON text.
    pub fn to_json(&self) -> (out: String)
        ensures
            out@ == order_json(self@),
    {
        let mut out = String::from_str("{\"instrument_code\":");
        push_json_string(&mut out, self.instrument_code.as_str());
        out.append(",\"client_id\":");
        push_json_string(&mut out, self.client_id.as_str());
        out.append(",\"side\":");
        push_json_string(&mut out, self.side.as_str());
        out.append(",\"type\":");
        push_json_string(&mut out, self.order_type.as_str());
        out.append(",\"price\":");
        push_json_string(&mut out, self.price.as_str());
        out.append(",\"amount\":");
        push_json_string(&mut out, self.amount.as_str());
        out.append(",\"time_in_force\":");
        push_json_string(&mut out, self.time_in_force.as_str());
        out.append("}");
        out
    }
}

impl CreateOrderMessage {
    /// A limit order on `side` over amount 1 at price 1.
    pub fn limit(side: &str, instrument_code: &str, client_id: &str) -> (m: Self)
        ensures
            m@ == limit_order(side@, instrument_code@, client_id@),
    {
        CreateOrderMessage {
            msg_type: "CREATE_ORDER",
            order: Order {
                instrument_code: String::from_str(instrument_code),
                client_id: String::from_str(client_id),
                side: String::from_str(side),
                order_type: String::from_str("LIMIT"),
                price: String::from_str("1"),
                amount: String::from_str("1"),
                time_in_force: String::from_str("GOOD_TILL_CANCELLED"),
            },
        }
    }

    /// The message as JSON text.
    pub fn to_json(&self) -> (out: String)
        ensures
            out@ == create_order_json(self@),
    {
        let mut out = String::from_str("{\"type\":");
        push_json_string(&mut out, self.msg_type);
        out.append(",\"order\":");
        let order = self.order.to_json();
        out.append(order.as_str());
        out.append("}");
        out
    }
}

impl CancelOrderMessage {
    pub fn new(instrument_code: &str, client_id: &str) -> (m: Self)
        ensures
            m@ == cancellation(instrument_code@, client_id@),
    {
        CancelOrderMessage {
            msg_type: "CANCEL_ORDER",
            client_id: String::from_str(client_id),
            instrument_code: String::from_str(instrument_code),
        }
    }

    /// The message as JSON text.
    pub fn to_json(&self) -> (out: String)
        ensures
            out@ == cancel_order_json(self@),
    {
        let mut out = String::from_str("{\"type\":");
        push_json_string(&mut out, self.msg_type);
        out.append(",\"client_id\":");
        push_json_string(&mut out, self.client_id.as_str());
        out.append(",\"instrument_code\":");
        push_json_string(&mut out, self.instrument_code.as_str());
        out.append("}");
        out
    }
}

/// The `AUTHENTICATE` message for `api_token`, as JSON text.
pub fn auth_message(api_token: u32) -> (out: String)
    ensures
        out@ == auth_json(authentication(api_token)),
{
    AuthenticateMessage::new(api_token).to_json()
}

/// The `SUBSCRIBE` message for the channel `ORDERS`, as JSON text.
pub fn subscribe_message() -> (out: String)
    ensures
        out@ == subscribe_json(orders_subscription()),
{
    SubscribeMessage::orders().to_json()
}

/// The `CREATE_ORDER` message of a buy order, as JSON text.
pub fn create_buy_order(instrument_code: &str, client_id: &str) -> (out: String)
    ensures
        out@ == create_order_json(limit_order("BUY"@, instrument_code@, client_id@)),
{
    CreateOrderMessage::limit("BUY", instrument_code, client_id).to_json()
}

/// The `CREATE_ORDER` message of a sell order, as JSON text.
pub fn create_sell_order(instrument_code: &str, client_id: &str) -> (out: String)
    ensures
        out@ == create_order_json(limit_order("SELL"@, instrument_code@, client_id@)),
{
    CreateOrderMessage::limit("SELL", instrument_code, client_id).to_json()
}

/// The `CANCEL_ORDER` message, as JSON text.
pub fn cancel_order(instrument_code: &str, client_id: &str) -> (out: String)
    ensures
        out@ == cancel_order_json(cancellation(instrument_code@, client_id@)),
{
    CancelOrderMessage::new(instrument_code, client_id).to_json()
}

// ---------------------------------------------------------------------------
// Correlation ids
// ---------------------------------------------------------------------------

pub open spec fn is_lower_hex(c: char) -> bool {
    ('0' <= c <= '9') || ('a' <= c <= 'f')
}

/// The form of a correlation id: a version 4 UUID in its hyphenated
/// notation of 36 characters, with small hexadecimal digits.
pub open spec fn is_client_id(s: Seq<char>) -> bool {
    &&& s.len() == 36
    &&& forall|i: int|
        0 <= i < 36 ==> if i == 8 || i == 13 || i == 18 || i == 23 {
            #[trigger] s[i] == '-'
        } else {
            is_lower_hex(s[i])
        }
    &&& s[14] == '4'
    &&& (s[19] == '8' || s[19] == '9' || s[19] == 'a' || s[19] == 'b')
}

/// `Uuid::new_v4`, shown through `to_string`: a random UUID with version 4
/// and the RFC variant, in hyphenated small hexadecimal notation. Which one
/// is not said.
#[verifier::external_body]
fn random_uuid_text() -> (out: String)
    ensures
        is_client_id(out@),
{
    uuid::Uuid::new_v4().to_string()
}

/// A fresh correlation id.
pub fn generate_client_id() -> (out: String)
    ensures
        is_client_id(out@),
{
    random_uuid_text()
}

// ---------------------------------------------------------------------------
// Inbound messages
// ---------------------------------------------------------------------------

/// What is read of a message from the server: its type and, where present,
/// the correlation id and the instrument. Other members are ignored.
#[derive(Debug, Clone, PartialEq, Eq)]
pub struct IncomingMessage {
    pub msg_type: String,
    pub client_id: Option<String>,
    pub instrument_code: Option<String>,
}

/// An inbound message as mathematical data.
pub struct IncomingView {
    pub msg_type: Seq<char>,
    pub client_id: Option<Seq<char>>,
    pub instrument_code: Option<Seq<char>>,
}

impl View for IncomingMessage {
    type V = IncomingView;

    open spec fn view(&self) -> IncomingView {
        IncomingView {
            msg_type: self.msg_type@,
            client_id: optional_text(self.client_id),
            instrument_code: optional_text(self.instrument_code),
        }
    }
}

/// The types of inbound message that the client reacts to.
#[derive(Debug, Clone, Copy, PartialEq, Eq, Structural)]
pub enum MessageKind {
    Authenticated,
    Subscriptions,
    Booked,
    Done,
    Error,
    /// Any other type.
    Other,
}

/// The kind of the message type `t`.
pub open spec fn kind_of(t: Seq<char>) -> MessageKind {
    if t == "AUTHENTICATED"@ {
        MessageKind::Authenticated
    } else if t == "SUBSCRIPTIONS"@ {
        MessageKind::Subscriptions
    } else if t == "BOOKED"@ {
        MessageKind::Booked
    } else if t == "DONE"@ {
        MessageKind::Done
    } else if t == "ERROR"@ {
        MessageKind::Error
    } else {
        MessageKind::Other
    }
}

fn text_is(s: &String, word: &str) -> (same: bool)
    ensures
        same == (s@ == word@),
{
    let other = String::from_str(word);
    *s == other
}

impl IncomingMessage {
    /// The kind of the message, by its type.
    pub fn kind(&self) -> (k: MessageKind)
        ensures
            k == kind_of(self.msg_type@),
    {
        if text_is(&self.msg_type, "AUTHENTICATED") {
            MessageKind::Authenticated
        } else if text_is(&self.msg_type, "SUBSCRIPTIONS") {
            MessageKind::Subscriptions
        } else if text_is(&self.msg_type, "BOOKED") {
            MessageKind::Booked
        } else if text_is(&self.msg_type, "DONE") {
            MessageKind::Done
        } else if text_is(&self.msg_type, "ERROR") {
            MessageKind::Error
        } else {
            MessageKind::Other
        }
    }
}

// ---------------------------------------------------------------------------
// Reading inbound messages
// ---------------------------------------------------------------------------

/// `serde_json::Value`: a JSON document, which Verus does not look into.
#[verifier::external_type_specification]
#[verifier::external_body]
pub struct ExJsonValue(serde_json::Value);

/// What a JSON object holds under one name, as far as a message is read.
#[derive(Debug, Clone, PartialEq, Eq)]
pub enum Member {
    /// There is no member of that name.
    Absent,
    /// The member is `null`.
    Null,
    /// The member is a string.
    Text(String),
    /// The member is something else.
    Other,
}

pub enum MemberView {
    Absent,
    Null,
    Text(Seq<char>),
    Other,
}

impl View for Member {
    type V = MemberView;

    open spec fn view(&self) -> MemberView {
        match *self {
            Member::Absent => MemberView::Absent,
            Member::Null => MemberView::Null,
            Member::Text(t) => MemberView::Text(t@),
            Member::Other => MemberView::Other,
        }
    }
}

/// The members of the JSON document `doc`, by name. A document that is not
/// an object has none.
pub uninterp spec fn members_of(doc: serde_json::Value) -> Map<Seq<char>, MemberView>;

/// The members of the JSON document that `text` is; `None` for a text that
/// is not JSON.
pub uninterp spec fn json_members(text: Seq<char>) -> Option<Map<Seq<char>, MemberView>>;

/// What `members` holds under `name`.
pub open spec fn member_at(members: Map<Seq<char>, MemberView>, name: Seq<char>) -> MemberView {
    if members.contains_key(name) {
        members[name]
    } else {
        MemberView::Absent
    }
}

/// `serde_json::from_str` for a `Value`. Whether the text is JSON, and which
/// members the document then has, depends on the text alone.
#[verifier::external_body]
fn parse_document(text: &str) -> (out: Result<serde_json::Value, serde_json::Error>)
    ensures
        out is Ok ==> json_members(text@) == Some(members_of(out->Ok_0)),
        out is Err ==> json_members(text@) is None,
{
    serde_json::from_str::<serde_json::Value>(text)
}

/// `Value::get` with a name: the member of that name, if the document is an
/// object that has one.
#[verifier::external_body]
fn member(doc: &serde_json::Value, name: &str) -> (out: Member)
    ensures
        out@ == member_at(members_of(*doc), name@),
{
    match doc.get(name) {
        None => Member::Absent,
        Some(serde_json::Value::Null) => Member::Null,
        Some(serde_json::Value::String(s)) => Member::Text(s.clone()),
        Some(_) => Member::Other,
    }
}

/// The text that `serde_json::Error` shows for itself, through its
/// `Display` impl. Nothing is claimed of it.
#[verifier::external_body]
fn json_error_text(e: &serde_json::Error) -> (out: String) {
    format!("{}", e)
}

/// Why a text could not be read as a message.
#[derive(Debug)]
pub enum MessageError {
    /// The text is not JSON.
    Malformed(serde_json::Error),
    /// The document has no member `type`.
    MissingType,
    /// The member of this name is neither a string nor, where it may be
    /// left out, `null`.
    InvalidMember(&'static str),
}

pub enum MessageErrorView {
    Malformed,
    MissingType,
    InvalidMember(Seq<char>),
}

impl View for MessageError {
    type V = MessageErrorView;

    open spec fn view(&self) -> MessageErrorView {
        match *self {
            MessageError::Malformed(_) => MessageErrorView::Malformed,
            MessageError::MissingType => MessageErrorView::MissingType,
            MessageError::InvalidMember(name) => MessageErrorView::InvalidMember(name@),
        }
    }
}

impl MessageError {
    /// The error as one line of text.
    pub fn message(&self) -> (out: String)
        ensures
            self@ is MissingType ==> out@ == "missing field `type`"@,
            self@ matches MessageErrorView::InvalidMember(name) ==> out@ == "invalid member `"@
                + name + "`"@,
    {
        match self {
            MessageError::Malformed(e) => json_error_text(e),
            MessageError::MissingType => String::from_str("missing field `type`"),
            MessageError::InvalidMember(name) => {
                let mut out = String::from_str("invalid member `");
                out.append(name);
                out.append("`");
                out
            },
        }
    }
}

/// The message that the three members give: `type` must be a string; the
/// correlation id and the instrument are strings or left out, and `null`
/// counts as left out. The first member, in this order, that is of another
/// form is named.
pub open spec fn message_of(
    msg_type: MemberView,
    client_id: MemberView,
    instrument_code: MemberView,
) -> Result<IncomingView, MessageErrorView> {
    match msg_type {
        MemberView::Absent => Err(MessageErrorView::MissingType),
        MemberView::Text(t) => {
            if client_id is Other {
                Err(MessageErrorView::InvalidMember("client_id"@))
            } else if instrument_code is Other {
                Err(MessageErrorView::InvalidMember("instrument_code"@))
            } else {
                Ok(
                    IncomingView {
                        msg_type: t,
                        client_id: optional_member(client_id),
                        instrument_code: optional_member(instrument_code),
                    },
                )
            }
        },
        _ => Err(MessageErrorView::InvalidMember("type"@)),
    }
}

pub open spec fn optional_member(m: MemberView) -> Option<Seq<char>> {
    match m {
        MemberView::Text(t) => Some(t),
        _ => None,
    }
}

/// The message that a document with these members is.
pub open spec fn decode(members: Map<Seq<char>, MemberView>) -> Result<
    IncomingView,
    MessageErrorView,
> {
    message_of(
        member_at(members, "type"@),
        member_at(members, "client_id"@),
        member_at(members, "instrument_code"@),
    )
}

/// The message that a text is.
pub open spec fn parse(text: Seq<char>) -> Result<IncomingView, MessageErrorView> {
    match json_members(text) {
        Some(members) => decode(members),
        None => Err(MessageErrorView::Malformed),
    }
}

/// How the result of reading in code answers to the result `expected`.
pub open spec fn reads_as(
    result: Result<IncomingMessage, MessageError>,
    expected: Result<IncomingView, MessageErrorView>,
) -> bool {
    match result {
        Ok(m) => expected == Ok::<IncomingView, MessageErrorView>(m@),
        Err(e) => expected == Err::<IncomingView, MessageErrorView>(e@),
    }
}

fn optional_string(m: Member) -> (out: Option<String>)
    ensures
        optional_text(out) == optional_member(m@),
{
    match m {
        Member::Text(t) => Some(t),
        _ => None,
    }
}

impl IncomingMessage {
    /// The message that the three members give.
    pub fn from_members(msg_type: Member, client_id: Member, instrument_code: Member) -> (result:
        Result<IncomingMessage, MessageError>)
        ensures
            reads_as(result, message_of(msg_type@, client_id@, instrument_code@)),
    {
        let msg_type = match msg_type {
            Member::Text(t) => t,
            Member::Absent => {
                return Err(MessageError::MissingType);
            },
            _ => {
                return Err(MessageError::InvalidMember("type"));
            },
        };
        if let Member::Other = client_id {
            return Err(MessageError::InvalidMember("client_id"));
        }
        if let Member::Other = instrument_code {
            return Err(MessageError::InvalidMember("instrument_code"));
        }
        Ok(
            IncomingMessage {
                msg_type,
                client_id: optional_string(client_id),
                instrument_code: optional_string(instrument_code),
            },
        )
    }

    /// The message that the JSON document `doc` is.
    pub fn from_document(doc: &serde_json::Value) -> (result: Result<
        IncomingMessage,
        MessageError,
    >)
        ensures
            reads_as(result, decode(members_of(*doc))),
    {
        IncomingMessage::from_members(
            member(doc, "type"),
            member(doc, "client_id"),
            member(doc, "instrument_code"),
        )
    }
}

/// Reads a message from JSON text. Members other than the type, the
/// correlation id and the instrument are ignored.
pub fn parse_message(json: &str) -> (result: Result<IncomingMessage, MessageError>)
    ensures
        reads_as(result, parse(json@)),
{
    match parse_document(json) {
        Ok(doc) => IncomingMessage::from_document(&doc),
        Err(e) => Err(MessageError::Malformed(e)),
    }
}

/// The five types that the client reacts to are told apart: each name has
/// its own kind.
pub proof fn lemma_kinds_of_known_types()
    ensures
        kind_of("AUTHENTICATED"@) == MessageKind::Authenticated,
        kind_of("SUBSCRIPTIONS"@) == MessageKind::Subscriptions,
        kind_of("BOOKED"@) == MessageKind::Booked,
        kind_of("DONE"@) == MessageKind::Done,
        kind_of("ERROR"@) == MessageKind::Error,
{
    reveal_strlit("AUTHENTICATED");
    reveal_strlit("SUBSCRIPTIONS");
    reveal_strlit("BOOKED");
    reveal_strlit("DONE");
    reveal_strlit("ERROR");
    assert("SUBSCRIPTIONS"@[0] != "AUTHENTICATED"@[0]);
    assert("BOOKED"@.len() != "AUTHENTICATED"@.len());
    assert("BOOKED"@.len() != "SUBSCRIPTIONS"@.len());
    assert("DONE"@.len() != "AUTHENTICATED"@.len());
    assert("DONE"@.len() != "SUBSCRIPTIONS"@.len());
    assert("DONE"@.len() != "BOOKED"@.len());
    assert("ERROR"@.len() != "AUTHENTICATED"@.len());
    assert("ERROR"@.len() != "SUBSCRIPTIONS"@.len());
    assert("ERROR"@.len() != "BOOKED"@.len());
    assert("ERROR"@.len() != "DONE"@.len());
}

} // verus!
