//! Sources from which a model can be pulled.
use vstd::prelude::*;
use vstd::string::*;
use crate::text::trim_start_matches;
use crate::text::without_leading;

verus! {

/// What can go wrong while a model is pulled.
#[derive(Clone, Debug)]
pub enum Error {
    /// The parameters of the pull lack something; the reason says what.
    UnableToLoadConfig { reason: String },
}

/// The source of models that lie on the local disk.
#[derive(Clone, Copy, Debug, PartialEq, Eq, Structural)]
pub struct Local {}

impl Local {
    /// The name of the model to pull. It has to be given.
    pub fn required_name(&self, name: Option<String>) -> (r: Result<String, Error>)
        ensures
            match name {
                Some(n) => r == Ok::<String, Error>(n),
                None => r matches Err(Error::UnableToLoadConfig { reason }) && reason@
                    == "Name is required"@,
            },
    {
        match name {
            Some(n) => Ok(n),
            None => Err(Error::UnableToLoadConfig { reason: "Name is required".to_owned() }),
        }
    }

    /// Where the model lies on the local disk: the `from` parameter without
    /// the `file:` in front of it. The parameter has to be given.
    pub fn pull(&self, from: Option<String>) -> (r: Result<String, Error>)
        ensures
            match from {
                Some(f) => r matches Ok(path) && path@ == without_leading(f@, "file:"@),
                None => r matches Err(Error::UnableToLoadConfig { reason }) && reason@
                    == "From is required"@,
            },
    {
        match from {
            Some(f) => Ok(trim_start_matches(f.as_str(), "file:").to_owned()),
            None => Err(Error::UnableToLoadConfig { reason: "From is required".to_owned() }),
        }
    }
}

} // verus!
