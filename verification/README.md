# socialnetwork

The verified core of an event-driven social network built on a message
broker and a wide-column database.

- `src/` is the library, verified with Verus:
  - `events`: event kinds, their `EVENT_TYPE` names and topics;
  - `payload`: the text of a published event;
  - `produce`: the records the web services publish, per request;
  - `ingest`: how the consumer classifies a fetched record and the database
    writes each event becomes;
  - `pipeline`: laws tying what is published to what the consumer reads;
  - `topics`: topic set-up, connection addresses, the consumer's cursor;
  - `queries` and `game`: the back end's read side and the prize draw;
  - `tables`: a model of the tables the consumer writes, with laws tying an
    applied event to what the back end's queries then answer;
  - `answers`, `pages` and `clock`: reading the back end's JSON answers, the
    front end's pages built from them, and date display;
  - `ids` and `status`: UUID text and HTTP status codes.
- `app/` runs the four services (`backend`, `consumer`, `frontend`,
  `identity`): HTTP, broker and database I/O, the consumer's typed JSON
  reading, and templates.
- `tests/` exercises the library on concrete values.
