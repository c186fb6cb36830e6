# redwood

Building blocks for trading on the FTX and Binance exchanges.

- `src/` is the verified library: API credentials, websocket feed tags, the
  connectors a websocket client opens and the subscription messages it sends,
  the reading of received websocket text as JSON and its routing by channel
  (or to a stop), and signed FTX REST requests (URL, signed path, HMAC-SHA256
  authentication headers).
- `app/` holds the actix actors, the websocket and HTTP connections and the
  example strategies, which hand their decisions to the library.
- `tests/` runs the library on concrete values.
