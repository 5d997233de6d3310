//! Feedback of a CNC nesting database: archived transaction rows are read
//! as typed records, classified by transaction code, correlated to their
//! program by name and repeat index, and assembled into nests.
//!
//! Rows come in as plain values (`row::Row`); reading, classifying and
//! correlating them is verified against the spec functions of each module.

pub mod batch;
pub mod correlate;
pub mod dbconfig;
pub mod error;
pub mod export;
pub mod export_lemmas;
pub mod feedback;
pub mod interfaces;
pub mod machine;
pub mod nc;
pub mod records;
pub mod row;
pub mod simtrans;
pub mod text;
pub mod views;
pub mod worker;
