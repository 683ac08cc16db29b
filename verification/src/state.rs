//! What the daemon keeps from one run to the next.

use vstd::prelude::*;
use vstd::string::*;

verus! {

/// The state that is kept: the private key of the WireGuard interface, once
/// there is one.
#[derive(Clone, Debug, PartialEq)]
pub struct State {
    pub wg_private_key: Option<String>,
}

impl DeepView for State {
    type V = Option<Seq<char>>;

    open spec fn deep_view(&self) -> Option<Seq<char>> {
        self.wg_private_key.deep_view()
    }
}

impl View for State {
    type V = Option<Seq<char>>;

    open spec fn view(&self) -> Option<Seq<char>> {
        self.deep_view()
    }
}

/// Why the state could not be read or written.
#[derive(Clone, Debug, PartialEq)]
pub enum Error {
    NoStateFolder,
    NoFile,
    NoParentFolder,
    IO(String),
    BinCodeError(String),
}

/// What an `Error` stands for.
pub enum ErrorView {
    NoStateFolder,
    NoFile,
    NoParentFolder,
    IO(Seq<char>),
    BinCodeError(Seq<char>),
}

impl DeepView for Error {
    type V = ErrorView;

    open spec fn deep_view(&self) -> ErrorView {
        match self {
            Error::NoStateFolder => ErrorView::NoStateFolder,
            Error::NoFile => ErrorView::NoFile,
            Error::NoParentFolder => ErrorView::NoParentFolder,
            Error::IO(text) => ErrorView::IO(text@),
            Error::BinCodeError(text) => ErrorView::BinCodeError(text@),
        }
    }
}

impl View for Error {
    type V = ErrorView;

    open spec fn view(&self) -> ErrorView {
        self.deep_view()
    }
}

impl ErrorView {
    /// The message of the error.
    pub open spec fn message(self) -> Seq<char> {
        match self {
            ErrorView::NoStateFolder => "state folder error"@,
            ErrorView::NoFile => "state file not found"@,
            ErrorView::NoParentFolder => "error determining parent folder"@,
            ErrorView::IO(text) => "IO error: "@ + text,
            ErrorView::BinCodeError(text) => "error serializing/deserializing state: "@ + text,
        }
    }
}

impl Error {
    /// The message of the error.
    pub fn to_string(&self) -> (r: String)
        ensures
            r@ == self@.message(),
    {
        match self {
            Error::NoStateFolder => String::from_str("state folder error"),
            Error::NoFile => String::from_str("state file not found"),
            Error::NoParentFolder => String::from_str("error determining parent folder"),
            Error::IO(text) => {
                let mut s = String::from_str("IO error: ");
                s.append(text.as_str());
                s
            },
            Error::BinCodeError(text) => {
                let mut s = String::from_str("error serializing/deserializing state: ");
                s.append(text.as_str());
                s
            },
        }
    }
}

impl Default for State {
    fn default() -> (r: State)
        ensures
            r@ == None::<Seq<char>>,
    {
        State { wg_private_key: None }
    }
}

impl State {
    /// Takes a new private key. The state is then to be written out.
    pub fn set_wg_private_key(&mut self, key: String)
        ensures
            final(self)@ == Some(key@),
    {
        self.wg_private_key = Some(key);
    }

    /// A copy of the state.
    pub fn duplicate(&self) -> (r: State)
        ensures
            r@ == self@,
    {
        State {
            wg_private_key: match &self.wg_private_key {
                Some(key) => Some(key.clone()),
                None => None,
            },
        }
    }
}

} // verus!
