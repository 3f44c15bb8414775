# etc_middleware

The logic of an electronic toll collection middleware, verified with Verus: the caches of
stations, lanes and entry transaction records, the binary messages exchanged with the lanes and
with the card issuers' back-ends, the transaction record and its transitions, and the decisions
of the lane handlers (checkin, commit, checkout, lookup, cleanup).

Layout:

- `src/` — the verified library. Each module states its behaviour in `requires`/`ensures`
  over spec functions; properties that relate several operations are public proof functions
  whose names start with `law_`.
  - caches: `toll_cache`, `toll_lane_cache`, `etdr_cache`, `keyed`;
  - messages and their bytes: `tcoc_messages`, `bect_messages`, `vetc_messages`,
    `rating_detail`, `wire`, `boo_codec`, `fe_codec`, `connect_rules`;
  - the transaction record: `etdr_types`, `etdr_build`, `etdr_update`, `etdr_sync`,
    `kafka_payload`, `tcd_rules`, `transport_stage` (its stored stage row);
  - handler decisions: `checkin_rules`, `checkin_flow`, `checkout_rules`, `commit_rules`,
    `checkout_cleanup`, `pending_choice`, `vehicle_lookup`, `tcoc_rules`, and `request_steps`
    (the request check before dispatch and the checkin and checkout-reservation handlers as
    step functions from state and event to next state and action);
  - replies to the lane: `fe_reply` (reply bytes and their AES-128-CBC encryption);
  - the check-in rollback message to the card issuer, with its fixed-width texts:
    `rollback_boo`;
  - logging: `log_rules`, `process_type`; text and numbers: `text`, `numtext`, `clock`.
- `app/` — the process around it: the shared caches behind locks, log files and their cleanup,
  the process type of a thread, the JSON events of the hub, and the loop that drops a record
  after its checkout commit.
- `tests/` — tests of the library on concrete values.
