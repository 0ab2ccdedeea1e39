use vstd::prelude::*;

verus! {

/// Why no voice handler could be had for a guild.
#[derive(Debug)]
pub enum HandlerError {
    HandlerGetError { why: String },
}

impl HandlerError {
    /// What the error says.
    pub fn message(&self) -> (s: String)
        ensures
            match self {
                HandlerError::HandlerGetError { why } => s@ == "Could not handler, serenity returned: "@
                    + why@,
            },
    {
        match self {
            HandlerError::HandlerGetError { why } => {
                let mut s = String::from_str("Could not handler, serenity returned: ");
                s.append(why.as_str());
                s
            },
        }
    }
}

} // verus!
