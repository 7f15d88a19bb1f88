//! The entry point: one declaration and the arguments of its seal in, the
//! sealed declaration or an error out.
use vstd::prelude::*;
use crate::args::{
    apply_arg, default_args, is_word, parse_trait_arguments, restricts_next, token_span, trait_args_from,
    trait_args_of, ArgToken,
};
use crate::error::SealError;
use crate::implementation::{parse_sealed_impl, sealed_impl_of, ImplBlock, SealedImpl, SealedImplModel};
use crate::interface::{parse_sealed_trait, sealed_trait_of, SealedTrait, SealedTraitModel};
use crate::model::InterfaceDecl;

verus! {

/// A declaration handed to the transformation.
#[derive(Debug, PartialEq, Eq)]
pub enum Item {
    Trait(InterfaceDecl),
    Impl(ImplBlock),
    /// Anything else, which cannot be sealed.
    Other,
}

/// What a declaration becomes.
#[derive(Debug, PartialEq, Eq)]
pub enum Expansion {
    Trait(SealedTrait),
    Impl(SealedImpl),
}

pub enum ExpansionModel {
    Trait(SealedTraitModel),
    Impl(SealedImplModel),
}

impl DeepView for Expansion {
    type V = ExpansionModel;

    open spec fn deep_view(&self) -> ExpansionModel {
        match self {
            Expansion::Trait(t) => ExpansionModel::Trait(t.deep_view()),
            Expansion::Impl(i) => ExpansionModel::Impl(i.deep_view()),
        }
    }
}

pub open spec fn expansion_result(r: Result<Expansion, SealError>) -> Result<ExpansionModel, SealError> {
    match r {
        Ok(x) => Ok(x.deep_view()),
        Err(e) => Err(e),
    }
}

/// Sealing `item` under the arguments `toks`. An implementation block does not
/// read them.
pub open spec fn expansion_of(toks: Seq<ArgToken>, item: Item) -> Result<ExpansionModel, SealError> {
    match item {
        Item::Trait(t) => match trait_args_of(toks) {
            Err(e) => Err(e),
            Ok(a) => match sealed_trait_of(t, a) {
                Ok(s) => Ok(ExpansionModel::Trait(s)),
                Err(e) => Err(e),
            },
        },
        Item::Impl(b) => match sealed_impl_of(b) {
            Ok(s) => Ok(ExpansionModel::Impl(s)),
            Err(e) => Err(e),
        },
        Item::Other => Err(SealError::StructuralMismatch),
    }
}

/// Seals one declaration: an interface under the arguments `args`, or an
/// implementation block of a sealed interface.
pub fn sealed(args: &Vec<ArgToken>, item: Item) -> (r: Result<Expansion, SealError>)
    ensures
        expansion_result(r) == expansion_of(args@, item),
{
    match item {
        Item::Trait(t) => {
            let a = match parse_trait_arguments(args) {
                Ok(a) => a,
                Err(e) => {
                    return Err(e);
                },
            };
            match parse_sealed_trait(t, a) {
                Ok(s) => Ok(Expansion::Trait(s)),
                Err(e) => Err(e),
            }
        },
        Item::Impl(b) => match parse_sealed_impl(b) {
            Ok(s) => Ok(Expansion::Impl(s)),
            Err(e) => Err(e),
        },
        Item::Other => Err(SealError::StructuralMismatch),
    }
}

/// A bare `pub` leading the arguments refuses the seal of any interface,
/// whatever follows it: a marker module visible everywhere would let any
/// code implement the marker.
pub proof fn lemma_bare_pub_refused(toks: Seq<ArgToken>, t: InterfaceDecl)
    requires
        toks.len() > 0,
        is_word(toks[0], "pub"@),
        !restricts_next(toks, 0),
    ensures
        expansion_of(toks, Item::Trait(t)) == Err::<ExpansionModel, SealError>(
            SealError::UnsafeVisibility { span: token_span(toks[0]) },
        ),
{
    reveal_strlit("erase");
    reveal_strlit("partial");
    reveal_strlit("pub");
    assert("erase"@.len() == 5 && "partial"@.len() == 7 && "pub"@.len() == 3);
    assert(apply_arg(toks, 0, default_args()) == Err::<crate::args::ArgsModel, SealError>(
        SealError::UnsafeVisibility { span: token_span(toks[0]) },
    ));
    assert(trait_args_from(toks, 0, default_args()) == Err::<crate::args::ArgsModel, SealError>(
        SealError::UnsafeVisibility { span: token_span(toks[0]) },
    ));
}

} // verus!
