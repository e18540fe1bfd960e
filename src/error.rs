use vstd::prelude::*;

verus! {

/// Why a request to the gateway did not succeed.
#[derive(Debug, PartialEq, Eq)]
pub enum GatewayError {
    /// The process could not be started; carries the system's description.
    Transport(String),
    /// The process ran and exited unsuccessfully; carries its error text.
    Command(String),
    /// A directory change named a directory that is missing or cannot be resolved.
    Validation(String),
}

impl GatewayError {
    /// The text carried by the error, whatever its kind.
    pub open spec fn text(&self) -> Seq<char> {
        match self {
            GatewayError::Transport(m) => m@,
            GatewayError::Command(m) => m@,
            GatewayError::Validation(m) => m@,
        }
    }

    /// The text carried by the error, as the UI shows it.
    pub fn message(&self) -> (r: String)
        ensures
            r@ == self.text(),
    {
        match self {
            GatewayError::Transport(m) => m.clone(),
            GatewayError::Command(m) => m.clone(),
            GatewayError::Validation(m) => m.clone(),
        }
    }
}

} // verus!
