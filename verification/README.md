# webserver

A newsletter web service. Its rules are a Verus library under `src/`; the
HTTP server, the database access and the email client are in `app/`.

- `src/domain/subscriber_email.rs`: `SubscriberEmail`, an address that
  `validator::validate_email` accepts.
- `src/configuration.rs`: database settings, with the password kept in a
  `secrecy::Secret`, and the Postgres connection strings built from them.
- `src/decimal.rs`: decimal notation of port numbers.
- `src/startup.rs`: the public base URL of the service.
- `src/routes/subscriptions.rs`: validation of subscription requests,
  subscription tokens, confirmation links and confirmation emails.
- `src/routes/newsletters.rs`: checking the stored addresses of confirmed
  subscribers and planning the delivery of an issue.
- `app/`: `main`, configuration loading, the actix-web routes and server,
  the sqlx queries and the HTTP email client.
