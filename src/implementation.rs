//! Sealing an implementation block: the grant of the interface's marker to
//! the implementing type, and the rewrite of its sealed methods.
use vstd::prelude::*;
use crate::args::parse_function_arguments;
use crate::error::SealError;
use crate::ident::{seal_function_name, seal_name, seal_name_of};
use crate::interface::{method_error_from, methods_valid, rewritten_method, sealed_method, check_sealed_methods};
use crate::model::{
    copy_strings, FnParam, FnParamModel, GenericParam, Method, MethodModel, ParamKind, ParamModel,
};

verus! {

/// The path of an interface, as an implementation block names it:
/// `prefix::name<args>`.
#[derive(Clone, Debug, PartialEq, Eq)]
pub struct TraitPath {
    pub leading_colon: bool,
    /// The segments before the last, each as written.
    pub prefix: Vec<String>,
    pub name: String,
    /// The generic arguments of the last segment, each as written.
    pub args: Vec<String>,
}

pub struct TraitPathModel {
    pub leading_colon: bool,
    pub prefix: Seq<Seq<char>>,
    pub name: Seq<char>,
    pub args: Seq<Seq<char>>,
}

impl DeepView for TraitPath {
    type V = TraitPathModel;

    open spec fn deep_view(&self) -> TraitPathModel {
        TraitPathModel {
            leading_colon: self.leading_colon,
            prefix: self.prefix.deep_view(),
            name: self.name@,
            args: self.args.deep_view(),
        }
    }
}

/// An implementation block.
#[derive(Debug, PartialEq, Eq)]
pub struct ImplBlock {
    /// Where an error about the block as a whole is anchored.
    pub span: usize,
    pub generics: Vec<GenericParam>,
    pub where_preds: Vec<String>,
    /// The interface implemented; `None` for an inherent block.
    pub target: Option<TraitPath>,
    /// The implementing type, as written.
    pub self_ty: String,
    pub methods: Vec<Method>,
}

pub struct ImplModel {
    pub span: usize,
    pub generics: Seq<ParamModel>,
    pub where_preds: Seq<Seq<char>>,
    pub target: Option<TraitPathModel>,
    pub self_ty: Seq<char>,
    pub methods: Seq<MethodModel>,
}

pub open spec fn target_model(t: Option<TraitPath>) -> Option<TraitPathModel> {
    match t {
        Some(p) => Some(p.deep_view()),
        None => None,
    }
}

impl DeepView for ImplBlock {
    type V = ImplModel;

    open spec fn deep_view(&self) -> ImplModel {
        ImplModel {
            span: self.span,
            generics: self.generics.deep_view(),
            where_preds: self.where_preds.deep_view(),
            target: target_model(self.target),
            self_ty: self.self_ty@,
            methods: self.methods.deep_view(),
        }
    }
}

/// The grant `impl<params> prefix::module::Sealed<args> for self_ty {}`.
#[derive(Clone, Debug, PartialEq, Eq)]
pub struct Grant {
    pub params: Vec<GenericParam>,
    pub target: TraitPath,
    pub self_ty: String,
}

pub struct GrantModel {
    pub params: Seq<ParamModel>,
    pub target: TraitPathModel,
    pub self_ty: Seq<char>,
}

impl DeepView for Grant {
    type V = GrantModel;

    open spec fn deep_view(&self) -> GrantModel {
        GrantModel { params: self.params.deep_view(), target: self.target.deep_view(), self_ty: self.self_ty@ }
    }
}

/// A sealed implementation block: the grant, and the block rewritten.
#[derive(Debug, PartialEq, Eq)]
pub struct SealedImpl {
    pub grant: Grant,
    pub block: ImplBlock,
}

pub struct SealedImplModel {
    pub grant: GrantModel,
    pub block: ImplModel,
}

impl DeepView for SealedImpl {
    type V = SealedImplModel;

    open spec fn deep_view(&self) -> SealedImplModel {
        SealedImplModel { grant: self.grant.deep_view(), block: self.block.deep_view() }
    }
}

/// The bounds a parameter keeps in the grant: none, but that a type may stay
/// relaxed.
pub open spec fn grant_bounds(p: ParamModel) -> Seq<Seq<char>> {
    if p.kind == ParamKind::Type && p.bounds.contains("?Sized"@) {
        seq!["?Sized"@]
    } else {
        Seq::empty()
    }
}

pub open spec fn grant_param(p: ParamModel) -> ParamModel {
    ParamModel { kind: p.kind, name: p.name, bounds: grant_bounds(p), ty: p.ty }
}

/// The path of the marker of the interface at `t`: its module takes the place
/// of the interface's last segment, and the arguments stay.
pub open spec fn marker_path(t: TraitPathModel) -> TraitPathModel {
    TraitPathModel {
        leading_colon: t.leading_colon,
        prefix: t.prefix.push(seal_name_of(t.name)),
        name: "Sealed"@,
        args: t.args,
    }
}

/// The grant of the marker of the interface at `t` to `self_ty`, with the
/// block's own parameters.
pub open spec fn grant_of(generics: Seq<ParamModel>, t: TraitPathModel, self_ty: Seq<char>) -> GrantModel {
    GrantModel {
        params: Seq::new(generics.len(), |i: int| grant_param(generics[i])),
        target: marker_path(t),
        self_ty,
    }
}

/// Sealing the implementation block `b`.
pub open spec fn sealed_impl_of(b: ImplBlock) -> Result<SealedImplModel, SealError> {
    match b.target {
        None => Err(SealError::MissingTarget { span: b.span }),
        Some(t) => match method_error_from(b.methods@, 0, false) {
            Some(e) => Err(e),
            None => {
                let v = b.deep_view();
                let module = seal_name_of(t.name@);
                Ok(
                    SealedImplModel {
                        grant: grant_of(v.generics, t.deep_view(), v.self_ty),
                        block: ImplModel {
                            methods: Seq::new(b.methods@.len(), |k: int| rewritten_method(b.methods@[k], module)),
                            ..v
                        },
                    },
                )
            },
        },
    }
}

pub open spec fn impl_result(r: Result<SealedImpl, SealError>) -> Result<SealedImplModel, SealError> {
    match r {
        Ok(s) => Ok(s.deep_view()),
        Err(e) => Err(e),
    }
}

/// Seals one method of an implementation block, mirroring what the interface
/// did to it: the token of the marker module `module` as last parameter, no
/// seal attribute, and the inner name if it is callable.
pub fn parse_function_implementation(module: &String, callable: bool, function: &mut Method)
    ensures
        final(function).deep_view() == sealed_method(old(function).deep_view(), module@, callable),
{
    let ghost before = function.deep_view();
    function.params.push(FnParam::Token { module: module.clone() });
    function.seal = None;
    if callable {
        function.name = seal_function_name(function.name.as_str());
    }
    assert(function.params.deep_view() =~= before.params.push(FnParamModel::Token { module: module@ }));
}

/// A parameter of the grant.
fn grant_parameter(p: &GenericParam) -> (r: GenericParam)
    ensures
        r.deep_view() == grant_param(p.deep_view()),
{
    let mut relaxed = false;
    if matches!(p.kind, ParamKind::Type) {
        let mut i: usize = 0;
        while i < p.bounds.len()
            invariant
                i <= p.bounds@.len(),
                relaxed <==> exists|j: int| 0 <= j < i && (#[trigger] p.bounds@[j])@ == "?Sized"@,
            decreases p.bounds@.len() - i,
        {
            if p.bounds[i] == String::from_str("?Sized") {
                relaxed = true;
            }
            i = i + 1;
        }
        proof {
            if relaxed {
                let j = choose|j: int| 0 <= j < i && (#[trigger] p.bounds@[j])@ == "?Sized"@;
                assert(p.bounds.deep_view()[j] == "?Sized"@);
            } else {
                assert forall|j: int| 0 <= j < p.bounds.deep_view().len() implies p.bounds.deep_view()[j]
                    != "?Sized"@ by {
                    assert(p.bounds.deep_view()[j] == p.bounds@[j]@);
                }
            }
        }
    }
    let mut bounds: Vec<String> = Vec::new();
    if relaxed {
        bounds.push(String::from_str("?Sized"));
    }
    assert(bounds.deep_view() =~= grant_bounds(p.deep_view()));
    GenericParam { kind: p.kind, name: p.name.clone(), bounds, ty: p.ty.clone() }
}

/// The marker path of the interface at `t`.
fn marker_path_of(t: &TraitPath) -> (r: TraitPath)
    ensures
        r.deep_view() == marker_path(t.deep_view()),
{
    let mut prefix = copy_strings(&t.prefix);
    let ghost before = prefix.deep_view();
    prefix.push(seal_name(t.name.as_str()));
    assert(prefix.deep_view() =~= before.push(seal_name_of(t.name@)));
    TraitPath {
        leading_colon: t.leading_colon,
        prefix,
        name: String::from_str("Sealed"),
        args: copy_strings(&t.args),
    }
}

/// Seals an implementation block: grants the marker of its interface to its
/// type, with the same generic arguments, and rewrites its sealed methods.
pub fn parse_sealed_impl(item: ImplBlock) -> (r: Result<SealedImpl, SealError>)
    ensures
        impl_result(r) == sealed_impl_of(item),
        r matches Ok(s) ==> item.target matches Some(t) && s.grant.target.args.deep_view()
            == t.args.deep_view(),
{
    let target = match &item.target {
        Some(t) => t,
        None => {
            return Err(SealError::MissingTarget { span: item.span });
        },
    };
    match check_sealed_methods(&item.methods, false) {
        Ok(()) => {},
        Err(e) => {
            return Err(e);
        },
    }
    let ghost orig = item.methods@;
    let ghost v = item.deep_view();
    let module = seal_name(target.name.as_str());
    let mut params: Vec<GenericParam> = Vec::new();
    let mut i: usize = 0;
    while i < item.generics.len()
        invariant
            i <= item.generics@.len(),
            params@.len() == i,
            forall|j: int| 0 <= j < i ==> params@[j].deep_view() == grant_param(item.generics@[j].deep_view()),
        decreases item.generics@.len() - i,
    {
        params.push(grant_parameter(&item.generics[i]));
        i = i + 1;
    }
    let grant = Grant { params, target: marker_path_of(target), self_ty: item.self_ty.clone() };
    assert(grant.deep_view() == grant_of(v.generics, target.deep_view(), v.self_ty)) by {
        assert(grant.params.deep_view() =~= Seq::new(
            v.generics.len(),
            |j: int| grant_param(v.generics[j]),
        ));
    }
    let ImplBlock { span, generics, where_preds, target, self_ty, methods } = item;
    let mut methods = methods;
    let mut k: usize = 0;
    while k < methods.len()
        invariant
            k <= orig.len(),
            methods@.len() == orig.len(),
            methods_valid(orig, false),
            forall|j: int|
                0 <= j < k ==> (#[trigger] methods@[j]).deep_view() == rewritten_method(orig[j], module@),
            forall|j: int| k <= j < orig.len() ==> #[trigger] methods@[j] == orig[j],
        decreases orig.len() - k,
    {
        let found = match &methods[k].seal {
            Some(a) => match parse_function_arguments(a) {
                Ok(fa) => Some(fa),
                Err(_) => None,
            },
            None => None,
        };
        if let Some(fa) = found {
            parse_function_implementation(&module, fa.callable, &mut methods[k]);
        }
        k = k + 1;
    }
    let block = ImplBlock { span, generics, where_preds, target, self_ty, methods };
    assert(block.methods.deep_view() =~= Seq::new(orig.len(), |j: int| rewritten_method(orig[j], module@)));
    Ok(SealedImpl { grant, block })
}

} // verus!
