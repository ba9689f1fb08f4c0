# excel_com_range_probe

Evidence tooling for Excel's COM Automation `Range` surface and its type
library. The library in `src/` holds every decision and every generated text,
written in Verus and proved against its contracts; `app/` is the command-line
front end (argument handling, files, child processes).

## Layout

- `value`, `codec`, `scode`, `variant`, `utf16`, `floatbits`: the Automation
  value model (numbers by their bits, text, SCODEs, dates, currency,
  rectangles) and its encoding to and from `VARIANT`/`SAFEARRAY` images, with
  the round-trip law.
- `frame`, `geometry`: invocation frames, dispatch diagnostics, cell and
  SAFEARRAY index arithmetic.
- `evidence`, `runtime_report`, `report`: evidence records, merging and
  ordering, JSONL, the generated runtime reports and the artifact checks.
- `parity`, `kernel`: parity configurations and the raw kernel's evidence
  bookkeeping.
- `automation`, `value_runtime`, `scode_runtime`, `pydiff`: the value layer's
  checks and live-run verdicts, and the reports of the value, SCODE and Python
  differential evidence.
- `typelib`, `typelib_report`: the type-library audit's naming, scoping and
  report generation.
- `cli`, `text`: option parsing and text building.

Driving Excel itself (COM activation, `IDispatch::Invoke`, type-library
loading) needs Windows and a local Excel installation; on other hosts the
commands that would do so report it and stop.
