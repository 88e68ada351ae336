# siege

The verified core of a Kafka topic-management and chaos-testing service.

- `src/` is the library, written in Verus: topic settings, the in-memory
  topic store, the API's resources and errors, the event stream and the
  cluster watcher, the chaos operations and their payloads, the seeded
  topics, the console's state (themes, topic list, toasts, configuration
  table, wheel of chaos, battlefield grid) and the client's addresses.
  Every function carries a contract proved by Verus; the laws the library
  keeps stand as public proof functions beside the code they speak of.
- `tests/` runs the library on concrete values.
- `app/` is the HTTP server around the library: the actix handlers, the
  librdkafka backend, the broadcast of events, JSON encoding, and the
  floating-point canvas geometry.
