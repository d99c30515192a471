use vstd::prelude::*;

verus! {

/// Why a value was rejected: an owned, human-readable message.
#[derive(Debug, PartialEq, Eq, Clone)]
pub struct Error {
    message: String,
}

/// What every check returns: `Ok(())` when the value is accepted.
pub type ValidationResult = Result<(), Error>;

impl View for Error {
    type V = Seq<char>;

    closed spec fn view(&self) -> Seq<char> {
        self.message@
    }
}

/// The verdict of a result: `None` when it accepts, else the message.
pub open spec fn outcome(r: ValidationResult) -> Option<Seq<char>> {
    match r {
        Ok(_) => None,
        Err(e) => Some(e@),
    }
}

impl Error {
    /// An error that carries `message`.
    pub fn new(message: String) -> (r: Error)
        ensures
            r@ == message@,
    {
        Error { message }
    }

    /// The message, as a string of its own.
    pub fn get_message(&self) -> (r: String)
        ensures
            r@ == self@,
    {
        self.message.clone()
    }

    /// This error with `label` and a space put in front of its message.
    pub fn prefixed(self, label: &str) -> (r: Error)
        ensures
            r@ == label@ + " "@ + self@,
    {
        let head = label.to_owned().concat(" ");
        Error { message: head.concat(self.message.as_str()) }
    }
}

} // verus!
