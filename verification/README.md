# wicket

Admissibility preflight for agentic operations: one intended operation goes
in; a bounded verdict, the dimensional accounting behind it (basis,
precedence, standing), the next actions the actor may and may not take, and a
content-addressed receipt come out.

The library is written in Verus. Each public function states its result in
its contract, and `src/laws.rs` proves the properties that span functions
(that `authorized` means every dimension is satisfied, that a hard basis
failure is never softened into a gap, that the receipt id is the address of
the canonical body, and so on).

## Layout

- `src/model.rs`: intents, outcomes and receipts, with their views.
- `src/rules.rs`: the three dimensions (basis, precedence, standing).
- `src/verdict.rs`: the projection onto the surface verdict, the allowed
  and forbidden actions, and the reason-code accounting.
- `src/canonical.rs`: the canonical (RFC 8785) JSON bytes of intents,
  evidence and outcomes.
- `src/digest.rs`, `src/receipt.rs`: SHA-256 content addresses and sealing.
- `src/time.rs`, `src/paths.rs`: instants and paths as plain values, with
  the calls into `chrono` and `std::path` behind trusted wrappers.
- `src/grant.rs`: standing grants and their validation.
- `src/cook.rs`: turning verb-shaped fact packets (edit, run, commit) into
  intents, from the facts the command line gathered.
- `src/report.rs`: exit codes and the one-line brief.
- `src/laws.rs`: the library's laws as proof functions.
- `app/`: the command line (argument parsing, files, the clock, `git`,
  JSON in and out).
