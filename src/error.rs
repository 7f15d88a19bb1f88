//! The ways a declaration can fail to transform, each anchored at a source
//! span. A span is an identifier that the caller chose when it built the
//! declaration; this library only carries it back.
use vstd::prelude::*;

verus! {

/// A failure to transform one declaration.
#[derive(Clone, Debug, PartialEq, Eq)]
pub enum SealError {
    /// The declaration is neither an interface nor an implementation block.
    StructuralMismatch,
    /// An implementation block names no interface.
    MissingTarget { span: usize },
    /// A configuration argument that is not recognised.
    UnknownArgument { name: String, span: usize },
    /// A configuration argument list that does not have the expected shape.
    MalformedArgumentList { span: usize },
    /// The marker module was asked to be visible everywhere.
    UnsafeVisibility { span: usize },
    /// `partial` was asked for, but every method is sealed.
    RedundantFullSeal { span: usize },
    /// `partial` was asked for, but no method is sealed.
    VacuousPartialSeal { span: usize },
    /// Some methods are sealed and others not, without `partial`.
    InconsistentPartialSeal { span: usize },
    /// A sealed method of a partially sealed interface has no default body.
    SealedWithoutDefault { span: usize },
}

/// The text shown to the author for an error.
pub open spec fn message_of(e: SealError) -> Seq<char> {
    match e {
        SealError::StructuralMismatch => "expected impl or trait"@,
        SealError::MissingTarget { .. } => "missing implementation trait"@,
        SealError::UnknownArgument { name, .. } => "unknown `"@ + name@ + "` attribute argument"@,
        SealError::MalformedArgumentList { .. } => "expected followed by `,`"@,
        SealError::UnsafeVisibility { .. } =>
            "`pub` visibility breaks the seal as allows to use it outside its crate.\nConsider tightening the visibility (e.g. `pub(crate)`) if you actually need sealing."@,
        SealError::RedundantFullSeal { .. } =>
            "This trait is partially sealed, however none of its methods are implementable, so the `partial` argument does nothing."@,
        SealError::VacuousPartialSeal { .. } =>
            "This trait is partially sealed, however none of its methods are sealed, so it does nothing. Either seal a function or remove `partial` from the `sealed` attribute."@,
        SealError::InconsistentPartialSeal { .. } =>
            "Sealing a function from implementation but allowing it to be called is already done by sealing the trait itself. If you want to seal this function, but not others, consider adding `partial` to the `sealed` attr on the trait: `#[sealed(partial)]`"@,
        SealError::SealedWithoutDefault { .. } =>
            "This function is sealed from implementation, but it does not have a default implementation. This effectively seals the entire trait, which would be clearer to do by not having the trait seal be partial."@,
    }
}

/// The span an error is anchored at; `None` for the place of the attribute
/// itself.
pub open spec fn span_of_error(e: SealError) -> Option<usize> {
    match e {
        SealError::StructuralMismatch => None,
        SealError::MissingTarget { span } => Some(span),
        SealError::UnknownArgument { span, .. } => Some(span),
        SealError::MalformedArgumentList { span } => Some(span),
        SealError::UnsafeVisibility { span } => Some(span),
        SealError::RedundantFullSeal { span } => Some(span),
        SealError::VacuousPartialSeal { span } => Some(span),
        SealError::InconsistentPartialSeal { span } => Some(span),
        SealError::SealedWithoutDefault { span } => Some(span),
    }
}

impl SealError {
    /// The text shown to the author.
    pub fn message(&self) -> (r: String)
        ensures
            r@ == message_of(*self),
    {
        match self {
            SealError::StructuralMismatch => String::from_str("expected impl or trait"),
            SealError::MissingTarget { .. } => String::from_str("missing implementation trait"),
            SealError::UnknownArgument { name, .. } => {
                let mut r = String::from_str("unknown `");
                r.append(name.as_str());
                r.append("` attribute argument");
                r
            },
            SealError::MalformedArgumentList { .. } => String::from_str(
                "expected followed by `,`",
            ),
            SealError::UnsafeVisibility { .. } => String::from_str(
                "`pub` visibility breaks the seal as allows to use it outside its crate.\nConsider tightening the visibility (e.g. `pub(crate)`) if you actually need sealing.",
            ),
            SealError::RedundantFullSeal { .. } => String::from_str(
                "This trait is partially sealed, however none of its methods are implementable, so the `partial` argument does nothing.",
            ),
            SealError::VacuousPartialSeal { .. } => String::from_str(
                "This trait is partially sealed, however none of its methods are sealed, so it does nothing. Either seal a function or remove `partial` from the `sealed` attribute.",
            ),
            SealError::InconsistentPartialSeal { .. } => String::from_str(
                "Sealing a function from implementation but allowing it to be called is already done by sealing the trait itself. If you want to seal this function, but not others, consider adding `partial` to the `sealed` attr on the trait: `#[sealed(partial)]`",
            ),
            SealError::SealedWithoutDefault { .. } => String::from_str(
                "This function is sealed from implementation, but it does not have a default implementation. This effectively seals the entire trait, which would be clearer to do by not having the trait seal be partial.",
            ),
        }
    }

    /// The span the error is anchored at; `None` for the attribute itself.
    pub fn span(&self) -> (r: Option<usize>)
        ensures
            r == span_of_error(*self),
    {
        match self {
            SealError::StructuralMismatch => None,
            SealError::MissingTarget { span } => Some(*span),
            SealError::UnknownArgument { span, .. } => Some(*span),
            SealError::MalformedArgumentList { span } => Some(*span),
            SealError::UnsafeVisibility { span } => Some(*span),
            SealError::RedundantFullSeal { span } => Some(*span),
            SealError::VacuousPartialSeal { span } => Some(*span),
            SealError::InconsistentPartialSeal { span } => Some(*span),
            SealError::SealedWithoutDefault { span } => Some(*span),
        }
    }
}

} // verus!
