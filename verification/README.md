# futureyou

The rules of a service that keeps letters to one's future self: a letter is
submitted, confirmed with a one-time password sent by mail, stored, handed to
the mail service for delivery on its date, and removed once delivered.

- `src/` is the verified library (Verus): validation of submissions
  (`validation`, `handlers`), instants (`time`), letters and their storage
  queries and updates (`letters`), passwords and the verification steps
  (`otp`), mail drafts (`resendkit`), the scheduling round (`scheduler`),
  notification checks (`webhooks`), failure answers (`responses`) and decimal
  formatting (`text`).
- `app/` is the program around it: HTTP routes, MongoDB, Redis, the mail
  service, the environment and the hourly loop.
- `tests/` runs the library on concrete values.
