# rhwp (verified core)

A Verus library for an HWP/HWPX document toolkit.

- `src/document_core/builders/document_template/`: the document template's data
  types, and what can be done on them without a full document model: name
  tables for the model's enums, section/page/footnote settings, line
  segments and character-shape runs, picture and object layouts (crop,
  padding, image rectangle, shape attributes, common object attributes),
  drawing-style and picture effects (JSON readers and writers, HWPX XML
  fragments written and read back through `quick_xml`), page-flow
  compaction (with its laws in `flow_laws.rs`: a run is determined by its
  input, each pass changes exactly the blocks it counts, a second run finds
  nothing more), template statistics, and the block edits the body builder
  makes.
- `src/document_core/builders/government_report.rs`: the plan of edits that
  builds a government report.
- `src/mcp/`: the file-system guard of the MCP server and its table of
  document sessions, with the JSON answers of opening, adding and closing
  a session.
- `src/ooxml_chart/`: the OOXML chart vocabulary (chart kinds and attribute
  values) and the chart data model (with its combination-chart test).
- `src/json_value.rs`, `src/text.rs`, `src/model.rs`: the JSON value type,
  text helpers, and the part of the document model the library works on.

`app/` is the command-line front end (file I/O, serde conversion, and the
rendering matrix's real numbers). `tests/` runs the library on examples.
