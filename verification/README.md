# hivehook

Client library for the Hivehook webhook API, with its logic verified by Verus.

- `src/` is the verified library: webhook signing and verification
  (`webhook`), the GraphQL request of every API operation (`request`,
  `resources`), reading responses and classifying errors, the bounded retry
  policy (`transport`), walking paginated lists (`pagination`), client
  settings (`client`), and the API's entities as plain values (`types`).
- `app/` holds what performs I/O around it: the blocking and async HTTP
  transports, the resource services that send each request and decode its
  answer with serde, and the serde shapes of the entities.
- `tests/` exercises the library on concrete values.
