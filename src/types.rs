use vstd::prelude::*;

verus! {

/// The value category a caller intends a uniform to hold, independent of its arity.
#[derive(Clone, Copy, Debug, PartialEq, Eq, Structural)]
pub enum Type {
    Integral,
    Unsigned,
    Floating,
    Boolean,
}

/// The arity of a uniform: a scalar, a vector of two to four components, or a
/// square matrix (floating-point only).
#[derive(Clone, Copy, Debug, PartialEq, Eq, Structural)]
pub enum Dim {
    Dim1,
    Dim2,
    Dim3,
    Dim4,
    Dim22,
    Dim33,
    Dim44,
}

/// A non-fatal diagnostic produced while resolving a uniform.
#[derive(Clone, Debug)]
pub enum UniformWarning {
    /// The driver reports no active uniform under this name.
    Inactive(String),
    /// The uniform exists but its reported type disagrees with the declared one.
    TypeMismatch(String),
}

/// The mathematical value of a [`UniformWarning`].
pub ghost enum WarningSpec {
    Inactive(Seq<char>),
    TypeMismatch(Seq<char>),
}

impl View for UniformWarning {
    type V = WarningSpec;

    open spec fn view(&self) -> WarningSpec {
        match self {
            UniformWarning::Inactive(n) => WarningSpec::Inactive(n@),
            UniformWarning::TypeMismatch(d) => WarningSpec::TypeMismatch(d@),
        }
    }
}

/// The view of an optional warning.
pub open spec fn warning_view(w: Option<UniformWarning>) -> Option<WarningSpec> {
    match w {
        Some(w) => Some(w@),
        None => None,
    }
}

/// A fatal error of the link operation.
#[derive(Clone, Debug)]
pub enum ProgramError {
    /// The driver refused to link; carries its diagnostic log verbatim.
    LinkFailed(String),
}

/// The mathematical value of a [`ProgramError`].
pub ghost enum ProgramErrorSpec {
    LinkFailed(Seq<char>),
}

impl View for ProgramError {
    type V = ProgramErrorSpec;

    open spec fn view(&self) -> ProgramErrorSpec {
        match self {
            ProgramError::LinkFailed(log) => ProgramErrorSpec::LinkFailed(log@),
        }
    }
}

} // verus!
