pub mod cells;
pub mod datefmt;
pub mod sheets;
pub mod workbook;
