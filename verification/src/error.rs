use vstd::prelude::*;

verus! {

/// The error taxonomy of the engine core.
///
/// `Initialization` is a failure constructing a state or overlay (for example
/// a missing dependent resource); `Update` is a failure during an update tick
/// after successful setup; `Draw` is a failure while preparing a draw pass.
/// Every variant carries a human-readable message and no structured code.
#[derive(Debug, Clone)]
pub enum GameError {
    Initialization(String),
    Update(String),
    Draw(String),
}

impl GameError {
    /// The human-readable reason carried by the error.
    pub open spec fn spec_message(&self) -> Seq<char> {
        match self {
            GameError::Initialization(m) => m@,
            GameError::Update(m) => m@,
            GameError::Draw(m) => m@,
        }
    }

    /// The human-readable reason carried by the error.
    pub fn message(&self) -> (r: &str)
        ensures
            r@ == self.spec_message(),
    {
        match self {
            GameError::Initialization(m) => m.as_str(),
            GameError::Update(m) => m.as_str(),
            GameError::Draw(m) => m.as_str(),
        }
    }
}

} // verus!
