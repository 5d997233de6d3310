use vstd::prelude::*;

verus! {

/// Failures of a feedback export or a point lookup.
#[derive(Debug)]
pub enum Error {
    /// The connection pool could not hand out a connection.
    ConnectionError,
    /// The driver rejected a statement or failed while running it.
    QueryError(String),
    /// None of the listed column aliases holds a value of the field's type.
    MissingColumn(Vec<String>),
    /// A transaction code that is neither a create, a delete nor an update.
    UnknownTransactionCode(String),
    /// The requested resource does not exist.
    NotFound(String),
}

/// What an [`Error`] says, with its texts as character sequences.
pub enum ErrorView {
    ConnectionError,
    QueryError(Seq<char>),
    MissingColumn(Seq<Seq<char>>),
    UnknownTransactionCode(Seq<char>),
    NotFound(Seq<char>),
}

pub open spec fn texts_of(v: Seq<String>) -> Seq<Seq<char>> {
    v.map_values(|s: String| s@)
}

impl View for Error {
    type V = ErrorView;

    open spec fn view(&self) -> ErrorView {
        match self {
            Error::ConnectionError => ErrorView::ConnectionError,
            Error::QueryError(m) => ErrorView::QueryError(m@),
            Error::MissingColumn(names) => ErrorView::MissingColumn(texts_of(names@)),
            Error::UnknownTransactionCode(c) => ErrorView::UnknownTransactionCode(c@),
            Error::NotFound(m) => ErrorView::NotFound(m@),
        }
    }
}

} // verus!
