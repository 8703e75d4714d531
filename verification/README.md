# lookoutside

A terminal weather report. The library under `src/` holds the logic, verified
with Verus:

- `location`: naming a place from the parts a location service reports (blank
  parts dropped, repeats up to ASCII case dropped, "Unknown location" when nothing
  is left), choosing where the coordinates come from, and checking replies of
  the address location service;
- `weather`: descriptions and symbols of WMO weather codes, compass points;
- `format`: short times, spaced timestamps, terminal colours, first values of
  daily series;
- `text`: white space, ASCII-case-insensitive comparison, joining;
- `units`: the unit systems and their names at the forecast service.

`app/main.rs` is the command-line program: argument parsing, HTTP requests,
JSON, floating-point formatting and printing.
