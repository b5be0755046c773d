# aviet

Verified core of an auto-play service for the Aviator crash game on betting
sites, with its HTTP API server and desktop client.

- `src/` is the library, verified with Verus:
  - `phase` — the phases of a session's auto-play and what each allows;
  - `engine` — the auto-play state machine of one session (starting and
    stopping, the loop's next step, placing bets, cashing out, counting wins
    and losses, walking the betting plan) and its laws;
  - `sites` — the supported site profiles and case-insensitive lookup;
  - `page` — decisions taken on the game page (login page and outcome, which
    frame holds the game, payout labels, balance text, cashout amount text);
  - `responses` — the bodies the API answers with;
  - `client` — the endpoints the API client calls;
  - `auth` — token claims and signing;
  - `desktop` — the desktop window's model and its laws;
  - `text` — the string operations of std and `uuid` the rest relies on.
- `app/` is the programs: the axum server with its WebDriver sessions (run
  with no argument) and the relm4 desktop client (run with `desktop`). It does
  the I/O, the floating-point strategy arithmetic and the serde wire forms.
- `tests/` runs the library on concrete values.
