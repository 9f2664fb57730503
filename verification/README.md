# trading_platform

A crypto trading platform: exchange adapters read Kraken and Coinbase price
feeds, strategies turn prices into trade signals, an execution manager hands
orders to a broker, and console, logger and metrics subscribers watch the
event bus.

The library in `src/` holds the platform's decisions, each with a contract
proved by Verus:

- `config`: the configuration types, their checks and defaults;
- `common`: names, errors, topics, parameters, configurations by name, and
  the text handling the rest relies on (number parsing and rendering, the
  grammar of floating-point literals, trimming and splitting);
- `domain`: events, orders, strategy configurations and the strategies;
- `infra`: reading exchange messages and writing subscriptions, broker
  endpoints, event bus topics and message framing, order bookkeeping;
- `platform`: which configured components are built, and which subscribers
  start;
- `ui`: the subscribers' lifecycle and the console's commands.

Public `law_*` proof functions state what holds across calls, such as that a
subscriber takes back exactly what was published on its topic.

`app/` is the program around the library: configuration loading, sockets,
websockets, async tasks, and the parts that compute with floating point.

`tests/` runs the library on concrete values.
