//! Modifiers shared by commands and responses.

use vstd::prelude::*;

verus! {

/// An identifier that Agda assigns to a hole in the loaded file.
pub type InteractionPoint = u32;

/// Modifier for interactive commands,
/// specifying the amount of normalization in the output.
#[derive(Debug, Copy, Clone, PartialEq, Eq, PartialOrd, Ord, Hash, Structural)]
pub enum Rewrite {
    AsIs,
    Instantiated,
    HeadNormal,
    Simplified,
    Normalised,
}

/// Modifier for the interactive computation command,
/// specifying the mode of computation and result display.
#[derive(Debug, Copy, Clone, PartialEq, Eq, PartialOrd, Ord, Hash, Structural)]
pub enum ComputeMode {
    DefaultCompute,
    IgnoreAbstract,
    UseShowInstance,
}

/// Modifier for interactive commands,
/// specifying whether safety checks should be ignored.
#[derive(Debug, Copy, Clone, PartialEq, Eq, PartialOrd, Ord, Hash, Structural)]
pub enum UseForce {
    /// Ignore additional checks, like termination/positivity...
    WithForce,
    /// Don't ignore any checks.
    WithoutForce,
}

/// Whether a token-highlighting file is deleted once it has been read.
#[derive(Debug, Copy, Clone, PartialEq, Eq, PartialOrd, Ord, Hash, Structural)]
pub enum Remove {
    Remove,
    Keep,
}

impl Rewrite {
    /// The constructor's name as Agda reads it.
    pub open spec fn token(self) -> Seq<char> {
        match self {
            Rewrite::AsIs => "AsIs"@,
            Rewrite::Instantiated => "Instantiated"@,
            Rewrite::HeadNormal => "HeadNormal"@,
            Rewrite::Simplified => "Simplified"@,
            Rewrite::Normalised => "Normalised"@,
        }
    }

    pub fn as_str(self) -> (r: &'static str)
        ensures
            r@ == self.token(),
    {
        match self {
            Rewrite::AsIs => "AsIs",
            Rewrite::Instantiated => "Instantiated",
            Rewrite::HeadNormal => "HeadNormal",
            Rewrite::Simplified => "Simplified",
            Rewrite::Normalised => "Normalised",
        }
    }
}

impl ComputeMode {
    /// The constructor's name as Agda reads it.
    pub open spec fn token(self) -> Seq<char> {
        match self {
            ComputeMode::DefaultCompute => "DefaultCompute"@,
            ComputeMode::IgnoreAbstract => "IgnoreAbstract"@,
            ComputeMode::UseShowInstance => "UseShowInstance"@,
        }
    }

    pub fn as_str(self) -> (r: &'static str)
        ensures
            r@ == self.token(),
    {
        match self {
            ComputeMode::DefaultCompute => "DefaultCompute",
            ComputeMode::IgnoreAbstract => "IgnoreAbstract",
            ComputeMode::UseShowInstance => "UseShowInstance",
        }
    }
}

impl UseForce {
    /// The constructor's name as Agda reads it.
    pub open spec fn token(self) -> Seq<char> {
        match self {
            UseForce::WithForce => "WithForce"@,
            UseForce::WithoutForce => "WithoutForce"@,
        }
    }

    pub fn as_str(self) -> (r: &'static str)
        ensures
            r@ == self.token(),
    {
        match self {
            UseForce::WithForce => "WithForce",
            UseForce::WithoutForce => "WithoutForce",
        }
    }
}

impl Remove {
    /// The constructor's name as Agda reads it.
    pub open spec fn token(self) -> Seq<char> {
        match self {
            Remove::Remove => "Remove"@,
            Remove::Keep => "Keep"@,
        }
    }

    pub fn as_str(self) -> (r: &'static str)
        ensures
            r@ == self.token(),
    {
        match self {
            Remove::Remove => "Remove",
            Remove::Keep => "Keep",
        }
    }
}

} // verus!
