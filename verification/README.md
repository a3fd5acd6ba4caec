# reading_features

The domain logic of a reading application, verified with Verus: reading
streaks and daily activity, reading progress and sessions, highlights,
reading plans with their subscriptions and groups, user profiles, settings
and reminders, and text-to-speech voices.

Layout:

- `src/` — the verified library. `common/` holds the plain-value types
  every feature shares (calendar dates, clock readings, identifiers, exact
  decimals, the error type); each feature has a module of its own
  (`streaks/`, `reader/`, `plans/`, `profile/`, `tts/`). Use cases that
  talk to storage are written as functions from what was loaded to what
  to store, or as small state machines whose actions the caller performs.
- `tests/` — tests of the library on concrete values.
- `app/` — the service around the library: repository ports, the
  asynchronous use cases that drive the library against them, JSON request
  and response bodies, and the PostgreSQL repositories. Floating-point
  values (session minutes, progress percentages, speech speed and pitch)
  are handled here.
