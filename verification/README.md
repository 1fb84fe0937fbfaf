# investment_wallet

The verified core of an investment wallet web service.

- `src/` is the library, checked by Verus: sign-up and sign-in rules over
  bcrypt password hashes, session claims and cookies, request
  authentication, the reply each request ends in, and the step-by-step
  refresh of token prices from the DexScreener quote service.
- `app/` is the web service around it: routes (axum), the MySQL database
  (sqlx), session tokens (jsonwebtoken), HTML pages (askama), the quote
  requests (reqwest) and the periodic background refresh.
- `tests/` runs the library on concrete values.
