# backend

The domain core of a design-QA service, verified with Verus.

- `src/domain/`: the validated values a QA run is made of (`ProjectName`,
  `FigmaFileKey`, `FigmaNodeId`, `TargetUrl`), the validation of a run
  request (`NewQaRun`), and the lifecycle of a run (`QaRun`: pending,
  running, then completed or failed). Each validator's result is stated
  exactly over the text it reads; the lifecycle is stated as a transition
  function `fire`, with laws on what it keeps.
- `src/configuration.rs`: the deployment environment and what the database
  settings compute (connection string, TLS mode).
- `src/text.rs`: trimming, character classes and string building, proved
  against their specifications.
- `src/bindings.rs`: the trusted boundary: the outside calls the library
  makes (URL parsing, lowercasing, the clock) and what is
  assumed of them.
- `app/`: the HTTP service around the library (actix-web, sqlx, config,
  tracing), which is not verified.
