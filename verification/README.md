# sms_scraper

The verified core of a Seattle music-scene event pipeline: parsers for venue
pages and feeds, normalization into venues, events and artists, a quality
gate, enrichment, change detection, an in-memory catalog store, a token-bucket
rate limiter, and the naming, registration and rendering of the pipeline's
metrics and Grafana dashboard.

Every function under `src/` is written in Verus and verified; the laws that relate several operations (what a read returns after a write, what
a rate limiter's wait guarantees, how a registry keeps names distinct, and
others) are public proof functions next to the code they speak about. Calls
into outside crates (`scraper`, `chrono`, `chrono-tz`, `uuid`, `sha2`, `hex`,
`serde_json`, `metrics-exporter-prometheus`) go through small trusted wrappers whose
contracts say what those crates document.

Layout:

- `src/` — the library (`parser`, `scrapers`, `normalize`, `quality_gate`, `enrich`,
  `catalog`, `storage`, `ingestion`, `metrics`, `recorder`, `tasks`, `web`,
  and the wrappers in `html`, `calendar`, `ids`, `digest`, `text`).
- `tests/` — tests run against the compiled library.
- `app/` — the command line: reads payload files and ingest-log files, runs
  the parsers, normalizer, quality gate and enricher, prints the dashboard,
  and installs the Prometheus recorder.
