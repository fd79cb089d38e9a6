//! The header of a pod definition: which version of the format it is
//! written in, and what kind of document it is.
use vstd::prelude::*;
use vstd::string::*;
use crate::text::same_text;

verus! {

/// The versions of the pod format.
#[derive(Clone, Copy, Debug, PartialEq, Eq, Structural)]
pub enum SpicepodVersion {
    V1Beta1,
}

/// The kinds of pod document.
#[derive(Clone, Copy, Debug, PartialEq, Eq, Structural)]
pub enum SpicepodKind {
    Spicepod,
}

impl SpicepodVersion {
    /// The version as it is written in a pod definition: in lower case.
    pub fn as_str(&self) -> (r: &'static str)
        ensures
            r@ == "v1beta1"@,
    {
        match self {
            SpicepodVersion::V1Beta1 => "v1beta1",
        }
    }

    /// Reads a version as it is written in a pod definition.
    pub fn parse(s: &str) -> (r: Option<SpicepodVersion>)
        ensures
            r == if s@ == "v1beta1"@ {
                Some(SpicepodVersion::V1Beta1)
            } else {
                None
            },
    {
        if same_text(s, "v1beta1") {
            Some(SpicepodVersion::V1Beta1)
        } else {
            None
        }
    }
}

impl SpicepodKind {
    /// The kind as it is written in a pod definition.
    pub fn as_str(&self) -> (r: &'static str)
        ensures
            r@ == "Spicepod"@,
    {
        match self {
            SpicepodKind::Spicepod => "Spicepod",
        }
    }

    /// Reads a kind as it is written in a pod definition.
    pub fn parse(s: &str) -> (r: Option<SpicepodKind>)
        ensures
            r == if s@ == "Spicepod"@ {
                Some(SpicepodKind::Spicepod)
            } else {
                None
            },
    {
        if same_text(s, "Spicepod") {
            Some(SpicepodKind::Spicepod)
        } else {
            None
        }
    }
}

} // verus!
