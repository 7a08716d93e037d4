# fresh

The logic behind a desktop data explorer for CSV-based projects, written in
Verus and verified: what each function returns is stated in its contract and
proved.

- `src/` — the verified library.
  - `data_type`, `query`, `text`: column types, query results and their
    column lookups, trimming and decimal rendering.
  - `plots/`: plot types and their column requirements, column validation,
    plot configurations and color schemes, bar categories, line thinning,
    heat map cells and network graphs.
  - `plot_window`: a plot window's column choices and their validation
    against query data.
  - `file_config`, `csv_import`, `multi_csv_import`: splitting CSV lines,
    guessing a header's delimiter, file previews, table name checks and the
    import dialogs.
  - `data_transformation`, `duplicate_detection`, `export_dialog`: the
    dialogs' state and decisions, transformation requests, and JSON export.
  - `gpu_renderer`: the choice between GPU and CPU drawing.
- `app/` — the parts around it: file reading and writing, serde forms of
  settings, Arrow type conversions, and the floating-point color blending,
  box plot statistics, heat map sums and node placement.
- `tests/` — tests of the library on concrete values.
