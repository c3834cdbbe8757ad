# gravity_ledger

A verified Verus library behind the Gravity Ledger accounting workbook: a
minimal OOXML spreadsheet writer, the workbook's content (sheets, VBA modules,
VBScript builder, setup guide, explanatory document), and the plain-value
decisions of its double-entry engine.

## Layout

- `src/text.rs` — decimal rendering, XML escaping, bijective base-26 column
  letters, prefix/equality/lexicographic tests on text.
- `src/xlsx.rs` — cells, sheets, the worksheet XML, the package parts
  (content types, relationships, workbook, styles) and the `.xlsx` bytes.
- `src/archive.rs` — packing named entries into a zip archive through the
  `zip` crate.
- `src/order.rs` — stable selection-and-sort of records by (text, number).
- `src/ledger.rs` — account types and sign convention, the chart of accounts
  with stable ids, FIFO lot order, chronological event order, held positions,
  the default mark's trade, event account codes.
- `src/vba.rs`, `src/workbook.rs`, `src/doc.rs` — the workbook's content.
- `src/coherence.rs` — laws that tie that content together: the report
  sheets' headers and the VBA that resets them, the document's pipeline
  listing and `RunAll`, the builder script and the sheet and macros it names,
  and the worked example's figures across the document, the setup guide and
  the README sheet.
- `app/` — the program: writes `dist/` (workbook, modules, builder, guide,
  bundle), and `simulate`, which runs the engine's amounts in `f64` on the demo
  scenario and checks the reference figures.
