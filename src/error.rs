use vstd::prelude::*;

verus! {

/// A failure carrying a human-readable message.
#[derive(Debug)]
pub struct InstallError {
    details: String,
}

impl InstallError {
    pub closed spec fn view(&self) -> Seq<char> {
        self.details@
    }

    pub fn new(msg: String) -> (r: InstallError)
        ensures
            r@ == msg@,
    {
        InstallError { details: msg }
    }

    /// An error with the same message.
    pub fn duplicate(&self) -> (r: InstallError)
        ensures
            r@ == self@,
    {
        InstallError { details: self.details.clone() }
    }

    /// The message this error carries.
    pub fn description(&self) -> (r: &str)
        ensures
            r@ == self@,
    {
        self.details.as_str()
    }
}

/// The message of a failed outcome, or `Ok(())`.
pub open spec fn outcome_view(r: Result<(), InstallError>) -> Result<(), Seq<char>> {
    match r {
        Ok(()) => Ok(()),
        Err(e) => Err(e@),
    }
}

} // verus!
