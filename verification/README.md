# storefront

The verified core of a small e-commerce backend made of an auth service, a
cart service, an inventory service, an order service and a gateway.

- `src/` is the library, proved with Verus: payload validation rules, token
  claims and signing, the mapping of failures to HTTP answers, order event
  naming and Borsh encoding, the repositories' decisions on query results,
  the settings sources, the gateway's forwarding address, the table
  definitions the migrations create, and each HTTP handler as a flow of
  steps (`src/handlers/`) whose outcomes are stated and proved.
- `app/` runs the services: routing, extractors, database queries, the
  RabbitMQ bus, configuration loading and running the migrations. It
  performs the work each flow step names and hands the outcome back to the
  library.
- `tests/` exercises the library on concrete values.
