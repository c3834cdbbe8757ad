//! Gravity Ledger workbook toolkit: a minimal OOXML spreadsheet writer, the
//! workbook content of the Gravity Ledger accounting book, and the plain-value
//! decision logic of its double-entry engine (chart of accounts, FIFO lot
//! order, chronological event order).
pub mod text;
pub mod xlsx;
pub mod archive;
pub mod order;
pub mod ledger;
pub mod vba;
pub mod workbook;
pub mod doc;
pub mod coherence;
