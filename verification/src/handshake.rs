use vstd::prelude::*;

verus! {

/// How the search for a player by its bus name ended.
#[derive(Debug, PartialEq, Eq)]
pub enum Lookup {
    /// A live player has the name.
    Found,
    /// The players could be listed and none has the name.
    NotFound,
    /// The players could not be listed; the text says why.
    Failed(String),
}

/// Why a listener or a controller did not start.
#[derive(Debug, PartialEq, Eq)]
pub enum StartError {
    PlayerNotFound,
    LookupFailed(String),
}

/// What a background worker reports to the caller that waits for it, once
/// the search for its player has ended: success only when the player was
/// found.
pub open spec fn ready_signal_of(lookup: Lookup) -> Result<(), StartError> {
    match lookup {
        Lookup::Found => Ok(()),
        Lookup::NotFound => Err(StartError::PlayerNotFound),
        Lookup::Failed(reason) => Err(StartError::LookupFailed(reason)),
    }
}

pub fn ready_signal(lookup: Lookup) -> (signal: Result<(), StartError>)
    ensures
        signal == ready_signal_of(lookup),
        signal is Ok <==> lookup is Found,
{
    match lookup {
        Lookup::Found => Ok(()),
        Lookup::NotFound => Err(StartError::PlayerNotFound),
        Lookup::Failed(reason) => Err(StartError::LookupFailed(reason)),
    }
}

impl StartError {
    /// The text shown for the error: a fixed one when no player has the
    /// name, else the reason the lookup gave.
    pub fn message(&self) -> (text: String)
        ensures
            text@ == match *self {
                StartError::PlayerNotFound => "Player not found"@,
                StartError::LookupFailed(reason) => reason@,
            },
    {
        match self {
            StartError::PlayerNotFound => "Player not found".to_owned(),
            StartError::LookupFailed(reason) => reason.clone(),
        }
    }
}

} // verus!
