//! Binance: API credentials, websocket stream tags and the messages sent on
//! a stream connection.

use vstd::prelude::*;
use crate::json::{json_channel, json_value, parse_ws_text};
use crate::text::{json_quote, json_string, opt_texts, texts_are, texts};

verus! {

/// The credentials of a Binance account: API key, API secret and subaccount.
#[derive(Debug, Clone)]
pub struct BinanceApiDetails {
    api_key: String,
    api_secret: String,
    api_subaccount: String,
}

impl View for BinanceApiDetails {
    /// Key, secret and subaccount.
    type V = (Seq<char>, Seq<char>, Seq<char>);

    closed spec fn view(&self) -> (Seq<char>, Seq<char>, Seq<char>) {
        (self.api_key@, self.api_secret@, self.api_subaccount@)
    }
}

impl BinanceApiDetails {
    /// Credentials from the key, secret and subaccount, copied.
    pub fn from_values(api_key: &str, api_secret: &str, api_subaccount: &str) -> (d: Self)
        ensures
            d@ == (api_key@, api_secret@, api_subaccount@),
    {
        BinanceApiDetails {
            api_key: String::from_str(api_key),
            api_secret: String::from_str(api_secret),
            api_subaccount: String::from_str(api_subaccount),
        }
    }

    /// The API key.
    pub fn api_key(&self) -> (k: &str)
        ensures
            k@ == self@.0,
    {
        self.api_key.as_str()
    }

    /// The API secret.
    pub fn api_secret(&self) -> (s: &str)
        ensures
            s@ == self@.1,
    {
        self.api_secret.as_str()
    }

    /// The subaccount.
    pub fn api_subaccount(&self) -> (s: &str)
        ensures
            s@ == self@.2,
    {
        self.api_subaccount.as_str()
    }
}

/// The websocket streams of Binance.
#[derive(Debug, Clone, Copy, PartialEq, Eq, Structural)]
pub enum BinanceWSTag {
    OrderbookUpdates,
    OrderUpdates,
    FillUpdates,
}

impl BinanceWSTag {
    /// The name of the stream.
    pub open spec fn name(self) -> Seq<char> {
        match self {
            BinanceWSTag::OrderbookUpdates => "orderbook_update"@,
            BinanceWSTag::OrderUpdates => "order_update"@,
            BinanceWSTag::FillUpdates => "fill_update"@,
        }
    }

    /// The name of the stream: `orderbook_update`, `order_update` or
    /// `fill_update`.
    pub fn as_str(&self) -> (s: &'static str)
        ensures
            s@ == self.name(),
    {
        match self {
            BinanceWSTag::OrderbookUpdates => "orderbook_update",
            BinanceWSTag::OrderUpdates => "order_update",
            BinanceWSTag::FillUpdates => "fill_update",
        }
    }
}

/// The message that subscribes to the trades of `market`.
pub open spec fn trade_subscription(market: Seq<char>) -> Seq<char> {
    "{\"id\":1,\"method\":\"SUBSCRIBE\",\"params\":["@ + json_string(market + "@trade"@) + "]}"@
}

/// The messages a client sends on a stream once it has started: one trade
/// subscription per market, in order, on the order book stream (none when no
/// markets are given), and nothing on the other streams.
pub open spec fn spec_subscriptions(tag: BinanceWSTag, markets: Option<Seq<Seq<char>>>) -> Seq<Seq<char>> {
    match tag {
        BinanceWSTag::OrderbookUpdates => match markets {
            Some(ms) => ms.map_values(|m: Seq<char>| trade_subscription(m)),
            None => Seq::empty(),
        },
        _ => Seq::empty(),
    }
}

fn trade_message(market: &str) -> (m: String)
    ensures
        m@ == trade_subscription(market@),
{
    let mut stream = String::from_str(market);
    stream.append("@trade");
    let mut m = String::from_str("{\"id\":1,\"method\":\"SUBSCRIBE\",\"params\":[");
    let q = json_quote(stream.as_str());
    m.append(q.as_str());
    m.append("]}");
    m
}

/// The JSON text of the subscription messages to send once the stream of
/// `tag` has started: see `spec_subscriptions`.
pub fn subscribe_messages(tag: BinanceWSTag, subscribe_markets: &Option<Vec<String>>) -> (msgs: Vec<String>)
    ensures
        texts_are(msgs@, spec_subscriptions(tag, opt_texts(*subscribe_markets))),
{
    let mut msgs: Vec<String> = Vec::new();
    match tag {
        BinanceWSTag::OrderbookUpdates => {
            match subscribe_markets {
                Some(markets) => {
                    let n = markets.len();
                    for i in 0..n
                        invariant
                            n == markets@.len(),
                            msgs@.len() == i,
                            forall|j: int| 0 <= j < i ==> #[trigger] msgs@[j]@ == trade_subscription(markets@[j]@),
                    {
                        let m = trade_message(markets[i].as_str());
                        msgs.push(m);
                    }
                    assert(texts(msgs@) =~= texts(markets@).map_values(|m: Seq<char>| trade_subscription(m)));
                },
                None => {},
            }
        },
        _ => {},
    }
    assert(texts(msgs@) =~= spec_subscriptions(tag, opt_texts(*subscribe_markets)));
    msgs
}

/// The connectors that a Binance websocket client opens: the order book
/// stream alone, without credentials.
pub fn ws_connectors() -> (plan: Vec<(BinanceWSTag, Option<BinanceApiDetails>)>)
    ensures
        plan@.len() == 1,
        plan@[0].0 == BinanceWSTag::OrderbookUpdates,
        plan@[0].1 is None,
{
    let mut plan: Vec<(BinanceWSTag, Option<BinanceApiDetails>)> = Vec::new();
    plan.push((BinanceWSTag::OrderbookUpdates, None));
    plan
}

/// What a stream connector does with a text it received.
pub enum StreamOutcome {
    /// The text is JSON: hand the message to the client.
    Forward(serde_json::Value),
    /// The text is no JSON: the connector stops.
    Stop,
}

/// The outcome for a text received on a Binance stream: the text's JSON
/// value is forwarded exactly where the text is JSON, and the connector
/// stops otherwise.
pub fn route_stream_text(text: &str) -> (o: StreamOutcome)
    ensures
        o is Forward <==> json_channel(text@) is Some,
        o matches StreamOutcome::Forward(m) ==> m == json_value(text@),
{
    match parse_ws_text(text) {
        Some((message, _)) => StreamOutcome::Forward(message),
        None => StreamOutcome::Stop,
    }
}

/// The JSON text of the keep-alive message of a stream connection.
pub fn ping_message() -> (m: String)
    ensures
        m@ == "{\"op\":\"ping\"}"@,
{
    String::from_str("{\"op\":\"ping\"}")
}

/// No two streams share a name.
pub proof fn binance_tag_names(t: BinanceWSTag, u: BinanceWSTag)
    ensures
        t.name() == u.name() <==> t == u,
{
    reveal_strlit("orderbook_update");
    reveal_strlit("order_update");
    reveal_strlit("fill_update");
    assert("orderbook_update"@.len() == 16);
    assert("order_update"@.len() == 12);
    assert("fill_update"@.len() == 11);
}

/// The order book stream sends, for each market in order, one subscription
/// to that market's trades, `<market>@trade`, and nothing without markets;
/// the other streams send nothing.
pub proof fn binance_subscriptions_per_stream(markets: Option<Seq<Seq<char>>>)
    ensures
        spec_subscriptions(BinanceWSTag::OrderUpdates, markets).len() == 0,
        spec_subscriptions(BinanceWSTag::FillUpdates, markets).len() == 0,
        markets is None ==> spec_subscriptions(BinanceWSTag::OrderbookUpdates, markets).len() == 0,
        markets matches Some(ms) ==> spec_subscriptions(BinanceWSTag::OrderbookUpdates, markets).len() == ms.len(),
        markets matches Some(ms) ==> forall|i: int| 0 <= i < ms.len() ==>
            #[trigger] spec_subscriptions(BinanceWSTag::OrderbookUpdates, markets)[i]
                == "{\"id\":1,\"method\":\"SUBSCRIBE\",\"params\":["@ + json_string(ms[i] + "@trade"@) + "]}"@,
{
}

} // verus!
