//! Domain model and field resolution for a catalogue of academic-journal
//! publishing economics: publishers, journals, owners, fees, currencies,
//! categories and institutional open-access agreements.
//!
//! The storage engine and the query-execution framework live outside this
//! library. Rows fetched from storage are handed to the functions here, which
//! decide what each field and listing resolves to.

mod text;

pub mod enums;
pub mod web_address;
pub mod model;
pub mod resolve;
pub mod listing;
