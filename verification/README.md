# osms

Railway data handling with machine-checked contracts (Verus).

- `src/` is the verified library:
  - `xml`, `forecasts`: reading Darwin push-port forecast elements
    (`plat`, `arr`/`dep`/`pass`, `Location`, `TS`, reasons) from XML
    element trees, each reader specified as a reading of attributes and
    children in document order;
  - `text`, `time`: the standard `bool`/`u32` parsing rules and Darwin
    times and dates (parsed by `chrono`);
  - `schedule`: CIF schedule days and enumerations;
  - `live`: the decisions of processing NROD train movement messages
    (dispatch, activation against authoritative schedules, cancellation,
    and a step machine that records movement reports);
  - `make`: the decisions of building the railway graph from OSM data
    (nodes at line ends, level crossings taking each point once, the area
    that stands for each station);
  - `config`, `updater_config`, `tmpl`: settings and page data.
- `app/` holds what the library leaves to its caller: reading XML events,
  running the steps against a database, geometry, threads, settings files
  and Handlebars rendering.
- `tests/` exercises the library on concrete values.
