use vstd::prelude::*;

verus! {

/// The failure kinds of a fetch, each with a human-readable detail.
#[derive(Debug, Clone, PartialEq, Eq)]
pub enum Error {
    Network(String),
    UnexpectedInput(String),
    InvalidUrl(String),
    Other(String),
}

/// An `Error` with its detail as a character sequence.
pub enum ErrorView {
    Network(Seq<char>),
    UnexpectedInput(Seq<char>),
    InvalidUrl(Seq<char>),
    Other(Seq<char>),
}

impl View for Error {
    type V = ErrorView;

    open spec fn view(&self) -> ErrorView {
        match self {
            Error::Network(m) => ErrorView::Network(m@),
            Error::UnexpectedInput(m) => ErrorView::UnexpectedInput(m@),
            Error::InvalidUrl(m) => ErrorView::InvalidUrl(m@),
            Error::Other(m) => ErrorView::Other(m@),
        }
    }
}

impl Error {
    /// The detail text carried by the error.
    pub fn detail(&self) -> (r: String)
        ensures
            r@ == match self@ {
                ErrorView::Network(m) => m,
                ErrorView::UnexpectedInput(m) => m,
                ErrorView::InvalidUrl(m) => m,
                ErrorView::Other(m) => m,
            },
    {
        match self {
            Error::Network(m) => m.clone(),
            Error::UnexpectedInput(m) => m.clone(),
            Error::InvalidUrl(m) => m.clone(),
            Error::Other(m) => m.clone(),
        }
    }
}

} // verus!
