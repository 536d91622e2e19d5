# stock_scanner

A stock scanner that scores tickers with technical indicators and a local
language model, split into a verified library and a thin program around it.

- `src/` is the library, verified with Verus: reading the settings from the
  values of the environment variables (`config`), unsigned decimal numbers
  (`numbers`), white-space trimming and splitting (`text`), the decision
  rules and the risk gate (`logic`, and `standalone` for the fixed-threshold
  scanner), the console rows and record file paths (`report`), the chart
  address, the close-series check and the history check (`market`), and
  finding and reading the
  JSON object in the model's reply, its message text and explanation
  (`llm`, `json`).
- `app/` is the program: environment and `.env` loading, HTTP requests,
  the clock, the file watcher, the scan loop, and the floating-point
  indicators, risk comparison and score scaling.
- `tests/` runs the library on concrete inputs.
