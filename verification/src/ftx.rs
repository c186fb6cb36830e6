//! FTX: API credentials, websocket channel tags, the connectors a websocket
//! client opens and the subscription messages it sends on each.

use vstd::prelude::*;
use crate::json::{json_channel, json_value, parse_ws_text};
use crate::text::{json_quote, json_string, opt_texts, texts_are, same_text, texts};

verus! {

/// The credentials of an FTX account: API key, API secret and subaccount.
#[derive(Debug, Clone)]
pub struct FtxApiDetails {
    api_key: String,
    api_secret: String,
    api_subaccount: String,
}

impl View for FtxApiDetails {
    /// Key, secret and subaccount.
    type V = (Seq<char>, Seq<char>, Seq<char>);

    closed spec fn view(&self) -> (Seq<char>, Seq<char>, Seq<char>) {
        (self.api_key@, self.api_secret@, self.api_subaccount@)
    }
}

/// The view of optional credentials.
pub open spec fn opt_details(d: Option<FtxApiDetails>) -> Option<(Seq<char>, Seq<char>, Seq<char>)> {
    match d {
        Some(d) => Some(d@),
        None => None,
    }
}

impl FtxApiDetails {
    /// Credentials from the key, secret and subaccount, copied.
    pub fn from_values(api_key: &str, api_secret: &str, api_subaccount: &str) -> (d: Self)
        ensures
            d@ == (api_key@, api_secret@, api_subaccount@),
    {
        FtxApiDetails {
            api_key: String::from_str(api_key),
            api_secret: String::from_str(api_secret),
            api_subaccount: String::from_str(api_subaccount),
        }
    }

    /// The API key.
    pub fn api_key(&self) -> (k: &str)
        ensures
            k@ == self@.0,
    {
        self.api_key.as_str()
    }

    /// The API secret.
    pub fn api_secret(&self) -> (s: &str)
        ensures
            s@ == self@.1,
    {
        self.api_secret.as_str()
    }

    /// The subaccount.
    pub fn api_subaccount(&self) -> (s: &str)
        ensures
            s@ == self@.2,
    {
        self.api_subaccount.as_str()
    }

    fn copied(&self) -> (d: Self)
        ensures
            d@ == self@,
    {
        FtxApiDetails {
            api_key: self.api_key.clone(),
            api_secret: self.api_secret.clone(),
            api_subaccount: self.api_subaccount.clone(),
        }
    }
}

/// The three websocket feeds of FTX.
#[derive(Debug, Clone, Copy, PartialEq, Eq, Structural)]
pub enum FtxWSTag {
    OrderbookUpdates,
    OrderUpdates,
    FillUpdates,
}

impl FtxWSTag {
    /// The name of the feed.
    pub open spec fn name(self) -> Seq<char> {
        match self {
            FtxWSTag::OrderbookUpdates => "orderbook_update"@,
            FtxWSTag::OrderUpdates => "order_update"@,
            FtxWSTag::FillUpdates => "fill_update"@,
        }
    }

    /// The channel that the feed subscribes to.
    pub open spec fn channel(self) -> Seq<char> {
        match self {
            FtxWSTag::OrderbookUpdates => "orderbook"@,
            FtxWSTag::OrderUpdates => "orders"@,
            FtxWSTag::FillUpdates => "fills"@,
        }
    }

    /// The kind of update that the feed carries.
    pub open spec fn update(self) -> FtxUpdate {
        match self {
            FtxWSTag::OrderbookUpdates => FtxUpdate::Orderbook,
            FtxWSTag::OrderUpdates => FtxUpdate::Order,
            FtxWSTag::FillUpdates => FtxUpdate::Fill,
        }
    }

    /// Whether `s` names a feed.
    pub open spec fn is_name(s: Seq<char>) -> bool {
        s == "orderbook_update"@ || s == "order_update"@ || s == "fill_update"@
    }

    /// The name of the feed: `orderbook_update`, `order_update` or
    /// `fill_update`.
    pub fn as_str(&self) -> (s: &'static str)
        ensures
            s@ == self.name(),
    {
        match self {
            FtxWSTag::OrderbookUpdates => "orderbook_update",
            FtxWSTag::OrderUpdates => "order_update",
            FtxWSTag::FillUpdates => "fill_update",
        }
    }

    /// The feed that `tag` names; `tag` must be one of the three names.
    pub fn from_str(tag: &str) -> (t: Self)
        requires
            Self::is_name(tag@),
        ensures
            t.name() == tag@,
    {
        if same_text(tag, "orderbook_update") {
            FtxWSTag::OrderbookUpdates
        } else if same_text(tag, "order_update") {
            FtxWSTag::OrderUpdates
        } else {
            FtxWSTag::FillUpdates
        }
    }
}

/// The websocket connectors that a client opens: the order book feed without
/// credentials, and, only where credentials are given, the order and fill
/// feeds, each with the credentials.
pub open spec fn spec_ws_connectors(api_details: Option<(Seq<char>, Seq<char>, Seq<char>)>) -> Seq<(FtxWSTag, Option<(Seq<char>, Seq<char>, Seq<char>)>)> {
    match api_details {
        Some(d) => seq![
            (FtxWSTag::OrderbookUpdates, None),
            (FtxWSTag::OrderUpdates, Some(d)),
            (FtxWSTag::FillUpdates, Some(d)),
        ],
        None => seq![(FtxWSTag::OrderbookUpdates, None)],
    }
}

/// The connectors, in the order they are started, that an FTX websocket
/// client spawns: see `spec_ws_connectors`.
pub fn ws_connectors(api_details: &Option<FtxApiDetails>) -> (plan: Vec<(FtxWSTag, Option<FtxApiDetails>)>)
    ensures
        plan@.len() == spec_ws_connectors(opt_details(*api_details)).len(),
        forall|i: int| 0 <= i < plan@.len() ==> (#[trigger] plan@[i]).0 == spec_ws_connectors(opt_details(*api_details))[i].0
            && opt_details(plan@[i].1) == spec_ws_connectors(opt_details(*api_details))[i].1,
{
    let mut plan: Vec<(FtxWSTag, Option<FtxApiDetails>)> = Vec::new();
    plan.push((FtxWSTag::OrderbookUpdates, None));
    match api_details {
        Some(d) => {
            plan.push((FtxWSTag::OrderUpdates, Some(d.copied())));
            plan.push((FtxWSTag::FillUpdates, Some(d.copied())));
        },
        None => {},
    }
    plan
}

/// The message that subscribes to the order book of `market`.
pub open spec fn orderbook_subscription(market: Seq<char>) -> Seq<char> {
    "{\"channel\":\"orderbook\",\"market\":"@ + json_string(market) + ",\"op\":\"subscribe\"}"@
}

/// The messages a client sends on a connector once it has started: one order
/// book subscription per market, in order, on the order book feed (none when
/// no markets are given); one subscription to the `orders` or `fills` channel
/// on the other two feeds.
pub open spec fn spec_subscriptions(tag: FtxWSTag, markets: Option<Seq<Seq<char>>>) -> Seq<Seq<char>> {
    match tag {
        FtxWSTag::OrderbookUpdates => match markets {
            Some(ms) => ms.map_values(|m: Seq<char>| orderbook_subscription(m)),
            None => Seq::empty(),
        },
        FtxWSTag::OrderUpdates => seq!["{\"channel\":\"orders\",\"op\":\"subscribe\"}"@],
        FtxWSTag::FillUpdates => seq!["{\"channel\":\"fills\",\"op\":\"subscribe\"}"@],
    }
}

fn orderbook_message(market: &str) -> (m: String)
    ensures
        m@ == orderbook_subscription(market@),
{
    let mut m = String::from_str("{\"channel\":\"orderbook\",\"market\":");
    let q = json_quote(market);
    m.append(q.as_str());
    m.append(",\"op\":\"subscribe\"}");
    m
}

/// The JSON text of the subscription messages to send once the connector of
/// `tag` has started: see `spec_subscriptions`.
pub fn subscribe_messages(tag: FtxWSTag, subscribe_markets: &Option<Vec<String>>) -> (msgs: Vec<String>)
    ensures
        texts_are(msgs@, spec_subscriptions(tag, opt_texts(*subscribe_markets))),
{
    let mut msgs: Vec<String> = Vec::new();
    match tag {
        FtxWSTag::OrderbookUpdates => {
            match subscribe_markets {
                Some(markets) => {
                    let n = markets.len();
                    for i in 0..n
                        invariant
                            n == markets@.len(),
                            msgs@.len() == i,
                            forall|j: int| 0 <= j < i ==> #[trigger] msgs@[j]@ == orderbook_subscription(markets@[j]@),
                    {
                        let m = orderbook_message(markets[i].as_str());
                        msgs.push(m);
                    }
                    assert(texts(msgs@) =~= texts(markets@).map_values(|m: Seq<char>| orderbook_subscription(m)));
                },
                None => {},
            }
        },
        FtxWSTag::OrderUpdates => {
            msgs.push(String::from_str("{\"channel\":\"orders\",\"op\":\"subscribe\"}"));
        },
        FtxWSTag::FillUpdates => {
            msgs.push(String::from_str("{\"channel\":\"fills\",\"op\":\"subscribe\"}"));
        },
    }
    assert(texts(msgs@) =~= spec_subscriptions(tag, opt_texts(*subscribe_markets)));
    msgs
}

/// The kinds of update that the websocket client hands to the strategy.
#[derive(Debug, Clone, Copy, PartialEq, Eq, Structural)]
pub enum FtxUpdate {
    Orderbook,
    Order,
    Fill,
}

/// The update kind of a message's `channel`: `orderbook`, `orders` or
/// `fills`; any other channel is none of them.
pub open spec fn spec_update_kind(channel: Seq<char>) -> Option<FtxUpdate> {
    if channel == "orderbook"@ {
        Some(FtxUpdate::Orderbook)
    } else if channel == "orders"@ {
        Some(FtxUpdate::Order)
    } else if channel == "fills"@ {
        Some(FtxUpdate::Fill)
    } else {
        None
    }
}

/// Where an incoming message with this `channel` goes: see
/// `spec_update_kind`. `None` is an unknown channel, which the client treats
/// as fatal.
pub fn update_kind(channel: &str) -> (k: Option<FtxUpdate>)
    ensures
        k == spec_update_kind(channel@),
{
    if same_text(channel, "orderbook") {
        Some(FtxUpdate::Orderbook)
    } else if same_text(channel, "orders") {
        Some(FtxUpdate::Order)
    } else if same_text(channel, "fills") {
        Some(FtxUpdate::Fill)
    } else {
        None
    }
}

/// What an FTX websocket client does with a text received on one of its
/// connectors.
pub enum FtxIncoming {
    /// The text is no JSON: the connector stops.
    NotJson,
    /// A JSON message without a `channel` string: it is logged and dropped.
    NoChannel(serde_json::Value),
    /// A JSON message on a channel that no feed subscribes to: this is fatal.
    UnknownChannel(String),
    /// A JSON message to hand to the strategy as an update of this kind.
    Update(FtxUpdate, serde_json::Value),
}

/// Whether `a` is the outcome for the received `text`: see `FtxIncoming`;
/// the channel is read from the text as JSON and routed by
/// `spec_update_kind`; the message handed on is the received text's JSON
/// value.
pub open spec fn ftx_incoming_matches(text: Seq<char>, a: FtxIncoming) -> bool {
    match json_channel(text) {
        None => a is NotJson,
        Some(None) => a matches FtxIncoming::NoChannel(m) && m == json_value(text),
        Some(Some(c)) => match spec_update_kind(c) {
            Some(k) => a matches FtxIncoming::Update(k2, m) && k2 == k && m == json_value(text),
            None => a matches FtxIncoming::UnknownChannel(c2) && c2@ == c,
        },
    }
}

/// The outcome for a text received on an FTX websocket: see
/// `ftx_incoming_matches`.
pub fn route_ftx_text(text: &str) -> (a: FtxIncoming)
    ensures
        ftx_incoming_matches(text@, a),
{
    match parse_ws_text(text) {
        None => FtxIncoming::NotJson,
        Some((message, None)) => FtxIncoming::NoChannel(message),
        Some((message, Some(channel))) => match update_kind(channel.as_str()) {
            Some(kind) => FtxIncoming::Update(kind, message),
            None => FtxIncoming::UnknownChannel(channel),
        },
    }
}

/// A feed is known by its name: every feed's name is accepted by
/// `FtxWSTag::from_str`, and no two feeds share a name, so reading back the
/// name of a feed gives that feed.
pub proof fn ftx_tag_names(t: FtxWSTag, u: FtxWSTag)
    ensures
        FtxWSTag::is_name(t.name()),
        t.name() == u.name() <==> t == u,
{
    reveal_strlit("orderbook_update");
    reveal_strlit("order_update");
    reveal_strlit("fill_update");
    assert("orderbook_update"@.len() == 16);
    assert("order_update"@.len() == 12);
    assert("fill_update"@.len() == 11);
}

/// The beginning of every subscription message of a feed: its channel.
pub open spec fn channel_prefix(tag: FtxWSTag) -> Seq<char> {
    "{\"channel\":\""@ + tag.channel() + "\""@
}

/// What a client subscribes to is what it routes: every subscription message
/// of a feed begins with the feed's channel, and a message on that channel
/// is routed to the kind of update that the feed carries.
pub proof fn ftx_subscriptions_route_back(tag: FtxWSTag, markets: Option<Seq<Seq<char>>>)
    ensures
        spec_update_kind(tag.channel()) == Some(tag.update()),
        forall|i: int| 0 <= i < spec_subscriptions(tag, markets).len()
            ==> (#[trigger] spec_subscriptions(tag, markets)[i]).take(channel_prefix(tag).len() as int)
                == channel_prefix(tag),
{
    reveal_strlit("orderbook");
    reveal_strlit("orders");
    reveal_strlit("fills");
    reveal_strlit("{\"channel\":\"");
    reveal_strlit("\"");
    reveal_strlit("{\"channel\":\"orderbook\",\"market\":");
    reveal_strlit("{\"channel\":\"orders\",\"op\":\"subscribe\"}");
    reveal_strlit("{\"channel\":\"fills\",\"op\":\"subscribe\"}");
    let p = channel_prefix(tag);
    assert forall|i: int| 0 <= i < spec_subscriptions(tag, markets).len()
        implies (#[trigger] spec_subscriptions(tag, markets)[i]).take(p.len() as int) == p by {
        let msg = spec_subscriptions(tag, markets)[i];
        match tag {
            FtxWSTag::OrderbookUpdates => {
                let m = markets.unwrap()[i];
                assert(msg == orderbook_subscription(m));
                assert(msg.take(p.len() as int) =~= p);
            },
            _ => {
                assert(msg.take(p.len() as int) =~= p);
            },
        }
    }
}

/// The order and fill feeds each send exactly one subscription, to their
/// channel, whatever markets the client follows; the order book feed sends,
/// for each market in order, one subscription to that market's order book,
/// and nothing when no markets are given.
pub proof fn ftx_subscriptions_per_feed(markets: Option<Seq<Seq<char>>>)
    ensures
        spec_subscriptions(FtxWSTag::OrderUpdates, markets) == seq!["{\"channel\":\"orders\",\"op\":\"subscribe\"}"@],
        spec_subscriptions(FtxWSTag::FillUpdates, markets) == seq!["{\"channel\":\"fills\",\"op\":\"subscribe\"}"@],
        markets is None ==> spec_subscriptions(FtxWSTag::OrderbookUpdates, markets).len() == 0,
        markets matches Some(ms) ==> spec_subscriptions(FtxWSTag::OrderbookUpdates, markets).len() == ms.len(),
        markets matches Some(ms) ==> forall|i: int| 0 <= i < ms.len() ==>
            #[trigger] spec_subscriptions(FtxWSTag::OrderbookUpdates, markets)[i]
                == "{\"channel\":\"orderbook\",\"market\":"@ + json_string(ms[i]) + ",\"op\":\"subscribe\"}"@,
{
}

/// A received text goes where its JSON `channel` says, and nowhere else: not
/// JSON, the connector stops; no channel string, the message is dropped; the
/// channels `orderbook`, `orders` and `fills` hand the text's JSON value on as
/// an order book, order or fill update; any other channel is named as unknown.
pub proof fn ftx_text_goes_where_its_channel_says(text: Seq<char>, a: FtxIncoming)
    requires
        ftx_incoming_matches(text, a),
    ensures
        json_channel(text) is None ==> a is NotJson,
        json_channel(text) == Some(None::<Seq<char>>) ==> (a matches FtxIncoming::NoChannel(m) && m == json_value(text)),
        json_channel(text) == Some(Some("orderbook"@)) ==> (a matches FtxIncoming::Update(k, m) && k == FtxUpdate::Orderbook && m == json_value(text)),
        json_channel(text) == Some(Some("orders"@)) ==> (a matches FtxIncoming::Update(k, m) && k == FtxUpdate::Order && m == json_value(text)),
        json_channel(text) == Some(Some("fills"@)) ==> (a matches FtxIncoming::Update(k, m) && k == FtxUpdate::Fill && m == json_value(text)),
        match json_channel(text) {
            Some(Some(c)) => c != "orderbook"@ && c != "orders"@ && c != "fills"@
                ==> (a matches FtxIncoming::UnknownChannel(c2) && c2@ == c),
            _ => true,
        },
{
    reveal_strlit("orderbook");
    reveal_strlit("orders");
    reveal_strlit("fills");
    assert("orderbook"@.len() == 9);
    assert("orders"@.len() == 6);
    assert("fills"@.len() == 5);
}

} // verus!
