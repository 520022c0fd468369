# api

The verified core of a quotations service for manufactured parts: customers create
projects and quotations, upload parts, receive quotes for them and pay through Stripe.

- `src/` is the library, verified with Verus: error responses, the DynamoDB items and
  the requests the repositories send (keys, queries, updates, deletes), pagination
  cursors, prices and Stripe line items, working-day arithmetic, the identity
  provider's refusals, and the decisions of the use cases.
- `tests/` runs the library on concrete values.
- `app/` is the service around it: the HTTP error answers, the DynamoDB, S3 and SES
  clients, and the conversions between the outside crates' types and the library's.
