# opentelemetry_lambda

OpenTelemetry for AWS Lambda: an extension that receives OTLP signals from a
function, adds metrics of the platform, and exports them in time; and middleware
that traces the handlers of Lambda events. The logic is written in Verus: what each
function does is stated in its contract and proved.

## Layout

- `src/` is the verified library.
  - The extension: `config`, `resource`, `receiver`, `otlp`, `aggregator`, `flush`,
    `completion`, `exporter`, `telemetry`, `conversion`, `context`, `service`,
    `runtime`, `error`.
  - The middleware: `extractor`, `extractors`, `cold_start`, `invocation`, `layer`,
    `future`.
  - Shared by both: `model`, `semconv`, `table`, `text`, `time`, `tracing`.
- `app/` is the program around it: it loads the configuration, serves and sends
  HTTP, waits, and asks the library what to do next.
- `tests/` runs the library with the crates that it calls.

Public proof functions whose names begin with `law_` state what holds of several
functions together, such as that a queue never exceeds its budget, or that parsing
brings back a trace header that was written.

## What is not proved

Calls into other crates stand behind functions marked `external_body`. Their doc
comments name the call and say what is claimed of it. Time, random numbers and the
propagator that a process has set are left open: what depends on them is stated for
every value that they may have.
