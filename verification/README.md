# Preaching Partner server

The companion server of the Preaching Partner app: a login endpoint and a
WebSocket channel over a SQLite database of congregations, service groups,
maps, streets and addresses.

`src/` is the verified library. It holds the messages and records
(`datatypes`), the session tokens and the keys they are stored under
(`tokens`), the statements run against the database and what is made of their
results (`database`), the login exchange as a state machine (`services`), token issuing
(`auth`), the pool-level account operations (`account`), the decisions of a client
connection (`connection`), synchronisation as a state machine (`sync`), and
permission checks (`authorise`).

`app/` runs the server: it owns the SQLite pool, the WebSocket and HTTP
routes, the clock and the file system, the MessagePack encoding, and it feeds
the outcome of each database operation back to the library.
