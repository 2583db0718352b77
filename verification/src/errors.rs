//! What can go wrong with a call, as one tagged value.

use vstd::prelude::*;

verus! {

/// Why a body could not be turned into the value that was asked for.
#[derive(Clone, Copy, Debug, PartialEq, Eq, Structural)]
pub enum DecodeCause {
    /// The body is not a JSON text.
    Syntax,
    /// The body is a JSON text of another shape than the value has.
    Shape,
}

/// What is wrong with the authentication material of a client.
#[derive(Clone, Copy, Debug, PartialEq, Eq, Structural)]
pub enum ConfigFault {
    /// The client holds no credentials.
    MissingCredentials,
    /// The user name of a credential pair is empty.
    EmptyUsername,
    /// The token is empty.
    EmptyToken,
}

/// The failure of a call. None of them is retried by this library.
#[derive(Debug)]
#[allow(inconsistent_fields)]
pub enum Error {
    /// The request did not get an answer.
    Transport { cause: String },
    /// The server answered with a status outside 200 to 299. `messages` holds
    /// what the body said, and is empty where it said nothing readable.
    Api { status: u16, messages: Vec<String> },
    /// The server answered with a status from 200 to 299 and a body that does
    /// not write the value that was asked for.
    Decode { raw_body: String, cause: DecodeCause },
    /// The client cannot authenticate; nothing was sent.
    Configuration { fault: ConfigFault },
}

/// The mathematical model of an `Error`.
#[allow(inconsistent_fields)]
pub enum ErrorView {
    Transport { cause: Seq<char> },
    Api { status: u16, messages: Seq<Seq<char>> },
    Decode { raw_body: Seq<char>, cause: DecodeCause },
    Configuration { fault: ConfigFault },
}

impl View for Error {
    type V = ErrorView;

    open spec fn view(&self) -> ErrorView {
        match *self {
            Error::Transport { cause } => ErrorView::Transport { cause: cause@ },
            Error::Api { status, messages } => ErrorView::Api {
                status,
                messages: messages@.map_values(|m: String| m@),
            },
            Error::Decode { raw_body, cause } => ErrorView::Decode { raw_body: raw_body@, cause },
            Error::Configuration { fault } => ErrorView::Configuration { fault },
        }
    }
}

} // verus!
