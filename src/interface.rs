//! Sealing an interface: the hidden marker module, the supertrait bound on
//! its marker, the partial-seal rules, and the rewrite of sealed methods.
use vstd::prelude::*;
use crate::args::{
    function_args_of, parse_function_arguments, ArgsModel, FunctionArguments, TraitArguments,
    Visibility, VisibilityModel,
};
use crate::error::SealError;
use crate::ident::{seal_function_name, seal_function_name_of, seal_name, seal_name_of};
use crate::model::{
    copy_fn_params, copy_params, copy_strings, Bound, BoundModel, FnParam, FnParamModel,
    GenericParam, InterfaceDecl, InterfaceModel, Method, MethodModel, ParamKind, ParamModel,
};

verus! {

/// The hidden module that holds the marker capability `Sealed` of one
/// interface and, when a method is sealed, its authorization `Token`.
#[derive(Clone, Debug, PartialEq, Eq)]
pub struct MarkerModule {
    pub name: String,
    pub visibility: Visibility,
    /// Whether the marker's parameters had their bounds erased; if not, the
    /// module sees the items of its parent so that the bounds resolve.
    pub erased: bool,
    /// The generic parameters of the marker.
    pub params: Vec<GenericParam>,
    /// The `where` predicates of the marker.
    pub where_preds: Vec<String>,
    /// Whether the module declares the authorization token.
    pub has_token: bool,
}

pub struct MarkerModuleModel {
    pub name: Seq<char>,
    pub visibility: VisibilityModel,
    pub erased: bool,
    pub params: Seq<ParamModel>,
    pub where_preds: Seq<Seq<char>>,
    pub has_token: bool,
}

impl DeepView for MarkerModule {
    type V = MarkerModuleModel;

    open spec fn deep_view(&self) -> MarkerModuleModel {
        MarkerModuleModel {
            name: self.name@,
            visibility: self.visibility.deep_view(),
            erased: self.erased,
            params: self.params.deep_view(),
            where_preds: self.where_preds.deep_view(),
            has_token: self.has_token,
        }
    }
}

/// The public method that stands in for a callable sealed method: same name
/// and parameters, its body a call of the renamed method with a new token,
/// `<Self as interface>::inner(args.., module::Token)`.
#[derive(Clone, Debug, PartialEq, Eq)]
pub struct Wrapper {
    /// The position of the sealed method among the interface's methods.
    pub method: usize,
    pub name: String,
    pub params: Vec<FnParam>,
    pub interface: String,
    pub inner: String,
    /// The expressions handed on, one for each parameter.
    pub args: Vec<String>,
    pub module: String,
}

pub struct WrapperModel {
    pub method: int,
    pub name: Seq<char>,
    pub params: Seq<FnParamModel>,
    pub interface: Seq<char>,
    pub inner: Seq<char>,
    pub args: Seq<Seq<char>>,
    pub module: Seq<char>,
}

impl DeepView for Wrapper {
    type V = WrapperModel;

    open spec fn deep_view(&self) -> WrapperModel {
        WrapperModel {
            method: self.method as int,
            name: self.name@,
            params: self.params.deep_view(),
            interface: self.interface@,
            inner: self.inner@,
            args: self.args.deep_view(),
            module: self.module@,
        }
    }
}

/// A sealed interface: its marker module, the interface rewritten, and the
/// wrappers to add to it.
#[derive(Debug, PartialEq, Eq)]
pub struct SealedTrait {
    pub module: MarkerModule,
    pub interface: InterfaceDecl,
    pub wrappers: Vec<Wrapper>,
}

pub struct SealedTraitModel {
    pub module: MarkerModuleModel,
    pub interface: InterfaceModel,
    pub wrappers: Seq<WrapperModel>,
}

impl DeepView for SealedTrait {
    type V = SealedTraitModel;

    open spec fn deep_view(&self) -> SealedTraitModel {
        SealedTraitModel {
            module: self.module.deep_view(),
            interface: self.interface.deep_view(),
            wrappers: self.wrappers.deep_view(),
        }
    }
}

/// Which of an interface's methods carry a seal.
#[derive(Clone, Copy, Debug, PartialEq, Eq)]
pub enum SealState {
    /// None of them (also when there are none).
    NoneSealed,
    /// Every one of them.
    AllSealed,
    /// Some, not all.
    SomeSealed,
}

pub open spec fn seal_state(ms: Seq<Method>) -> SealState {
    if forall|k: int| 0 <= k < ms.len() ==> (#[trigger] ms[k]).seal is None {
        SealState::NoneSealed
    } else if forall|k: int| 0 <= k < ms.len() ==> (#[trigger] ms[k]).seal is Some {
        SealState::AllSealed
    } else {
        SealState::SomeSealed
    }
}

/// The span of the first seal attribute from position `k` on.
pub open spec fn first_seal_span_from(ms: Seq<Method>, k: int) -> usize
    decreases ms.len() - k,
{
    if k < 0 || k >= ms.len() {
        0
    } else {
        match ms[k].seal {
            Some(a) => a.span,
            None => first_seal_span_from(ms, k + 1),
        }
    }
}

/// The error, if any, that the set of sealed methods makes with `partial`.
pub open spec fn state_error(ms: Seq<Method>, partial: bool, name_span: usize) -> Option<SealError> {
    match seal_state(ms) {
        SealState::NoneSealed => if partial {
            Some(SealError::VacuousPartialSeal { span: name_span })
        } else {
            None
        },
        SealState::AllSealed => if partial {
            Some(SealError::RedundantFullSeal { span: name_span })
        } else {
            None
        },
        SealState::SomeSealed => if partial {
            None
        } else {
            Some(SealError::InconsistentPartialSeal { span: first_seal_span_from(ms, 0) })
        },
    }
}

/// The first error of a single sealed method from position `k` on: arguments
/// that do not parse, or no default body under `partial`.
pub open spec fn method_error_from(ms: Seq<Method>, k: int, partial: bool) -> Option<SealError>
    decreases ms.len() - k,
{
    if k < 0 || k >= ms.len() {
        None
    } else {
        match ms[k].seal {
            None => method_error_from(ms, k + 1, partial),
            Some(a) => match function_args_of(a) {
                Err(e) => Some(e),
                Ok(_) => if partial && !ms[k].has_default {
                    Some(SealError::SealedWithoutDefault { span: a.span })
                } else {
                    method_error_from(ms, k + 1, partial)
                },
            },
        }
    }
}

/// Every sealed method has arguments that parse, and a default body under
/// `partial`.
pub open spec fn methods_valid(ms: Seq<Method>, partial: bool) -> bool {
    forall|k: int|
        0 <= k < ms.len() ==> match (#[trigger] ms[k]).seal {
            None => true,
            Some(a) => function_args_of(a) is Ok && (partial ==> ms[k].has_default),
        }
}

/// The bounds a parameter of the marker keeps once bounds are erased: none,
/// but for a type, which may then be unsized.
pub open spec fn erased_bounds(kind: ParamKind) -> Seq<Seq<char>> {
    if kind == ParamKind::Type {
        seq!["?Sized"@]
    } else {
        Seq::empty()
    }
}

pub open spec fn erase_param(p: ParamModel) -> ParamModel {
    ParamModel { kind: p.kind, name: p.name, bounds: erased_bounds(p.kind), ty: p.ty }
}

/// The marker's parameters: the interface's own, with their bounds erased if
/// asked for.
pub open spec fn marker_params(g: Seq<ParamModel>, erased: bool) -> Seq<ParamModel> {
    if erased {
        Seq::new(g.len(), |i: int| erase_param(g[i]))
    } else {
        g
    }
}

/// The names of the parameters, which instantiate the marker in the bound.
pub open spec fn param_names(g: Seq<ParamModel>) -> Seq<Seq<char>> {
    Seq::new(g.len(), |i: int| g[i].name)
}

/// The bound on the marker that the interface gains.
pub open spec fn marker_bound(name: Seq<char>, g: Seq<ParamModel>) -> BoundModel {
    BoundModel::Marker { module: seal_name_of(name), args: param_names(g) }
}

/// A sealed method keeps a callable public wrapper.
pub open spec fn is_callable(m: Method) -> bool {
    m.seal matches Some(a) && function_args_of(a) matches Ok(fa) && fa.callable
}

/// A sealed method takes the token as its last parameter, and is renamed when
/// a wrapper takes its name.
pub open spec fn sealed_method(m: MethodModel, module: Seq<char>, callable: bool) -> MethodModel {
    MethodModel {
        name: if callable {
            seal_function_name_of(m.name)
        } else {
            m.name
        },
        params: m.params.push(FnParamModel::Token { module }),
        has_default: m.has_default,
        sealed: false,
    }
}

/// A method as it stands in the rewritten interface.
pub open spec fn rewritten_method(m: Method, module: Seq<char>) -> MethodModel {
    match m.seal {
        None => m.deep_view(),
        Some(_) => sealed_method(m.deep_view(), module, is_callable(m)),
    }
}

/// The expression that hands a parameter on.
pub open spec fn forward_arg(p: FnParamModel) -> Seq<char> {
    match p {
        FnParamModel::Receiver { .. } => "self"@,
        FnParamModel::Typed { pat, .. } => pat,
        FnParamModel::Token { .. } => "_token"@,
    }
}

pub open spec fn forward_args(ps: Seq<FnParamModel>) -> Seq<Seq<char>> {
    Seq::new(ps.len(), |i: int| forward_arg(ps[i]))
}

/// The wrapper of the callable sealed method `m`, at position `k`.
pub open spec fn wrapper_of(m: MethodModel, k: int, interface: Seq<char>, module: Seq<char>) -> WrapperModel {
    WrapperModel {
        method: k,
        name: m.name,
        params: m.params,
        interface,
        inner: seal_function_name_of(m.name),
        args: forward_args(m.params),
        module,
    }
}

/// The wrappers of the callable sealed methods among the first `n`, in order.
pub open spec fn wrappers_upto(ms: Seq<Method>, n: int, interface: Seq<char>, module: Seq<char>) -> Seq<
    WrapperModel,
>
    decreases n,
{
    if n <= 0 {
        Seq::empty()
    } else {
        let before = wrappers_upto(ms, n - 1, interface, module);
        if is_callable(ms[n - 1]) {
            before.push(wrapper_of(ms[n - 1].deep_view(), n - 1, interface, module))
        } else {
            before
        }
    }
}

/// What sealing the interface `t` with the arguments `args` produces, once
/// the checks have passed.
pub open spec fn sealed_trait_model(t: InterfaceDecl, args: ArgsModel) -> SealedTraitModel {
    let v = t.deep_view();
    let module = seal_name_of(t.name@);
    SealedTraitModel {
        module: MarkerModuleModel {
            name: module,
            visibility: args.visibility,
            erased: args.erased,
            params: marker_params(v.generics, args.erased),
            where_preds: if args.erased {
                Seq::empty()
            } else {
                v.where_preds
            },
            has_token: !(seal_state(t.methods@) is NoneSealed),
        },
        interface: InterfaceModel {
            name: v.name,
            name_span: v.name_span,
            generics: v.generics,
            where_preds: v.where_preds,
            supertraits: v.supertraits.push(marker_bound(t.name@, v.generics)),
            methods: Seq::new(t.methods@.len(), |k: int| rewritten_method(t.methods@[k], module)),
        },
        wrappers: wrappers_upto(t.methods@, t.methods@.len() as int, t.name@, module),
    }
}

/// Sealing the interface `t` with the arguments `args`: the single methods
/// first, then the partial-seal rules, then the rewrite.
pub open spec fn sealed_trait_of(t: InterfaceDecl, args: ArgsModel) -> Result<SealedTraitModel, SealError> {
    match method_error_from(t.methods@, 0, args.partial) {
        Some(e) => Err(e),
        None => match state_error(t.methods@, args.partial, t.name_span) {
            Some(e) => Err(e),
            None => Ok(sealed_trait_model(t, args)),
        },
    }
}

pub open spec fn trait_result(r: Result<SealedTrait, SealError>) -> Result<SealedTraitModel, SealError> {
    match r {
        Ok(s) => Ok(s.deep_view()),
        Err(e) => Err(e),
    }
}

/// A wrapper agrees with the method it stands for: same name and parameters
/// as the method was declared with, and the renamed method takes exactly
/// those parameters and then the token.
pub open spec fn wrapper_agrees(w: WrapperModel, rewritten: Seq<MethodModel>, declared: Seq<MethodModel>) -> bool {
    &&& 0 <= w.method < declared.len()
    &&& rewritten.len() == declared.len()
    &&& w.name == declared[w.method].name
    &&& w.params == declared[w.method].params
    &&& rewritten[w.method].name == w.inner
    &&& rewritten[w.method].params == w.params.push(FnParamModel::Token { module: w.module })
}

proof fn lemma_wrappers_upto(ms: Seq<Method>, n: int, interface: Seq<char>, module: Seq<char>)
    requires
        0 <= n <= ms.len(),
    ensures
        forall|i: int|
            0 <= i < wrappers_upto(ms, n, interface, module).len() ==> {
                let w = #[trigger] wrappers_upto(ms, n, interface, module)[i];
                &&& 0 <= w.method < n
                &&& is_callable(ms[w.method])
                &&& w == wrapper_of(ms[w.method].deep_view(), w.method, interface, module)
            },
    decreases n,
{
    if n > 0 {
        lemma_wrappers_upto(ms, n - 1, interface, module);
        let before = wrappers_upto(ms, n - 1, interface, module);
        let all = wrappers_upto(ms, n, interface, module);
        assert forall|i: int| 0 <= i < all.len() implies {
            let w = #[trigger] all[i];
            &&& 0 <= w.method < n
            &&& is_callable(ms[w.method])
            &&& w == wrapper_of(ms[w.method].deep_view(), w.method, interface, module)
        } by {
            if i < before.len() {
                assert(all[i] == before[i]);
            }
        }
    }
}

/// Each wrapper of a sealed interface is publicly reachable under the name of
/// its callable sealed method and takes the same parameters, in the same
/// order, as that method was declared with; the method it calls takes those
/// parameters followed by the authorization token alone.
pub proof fn lemma_wrappers_agree(t: InterfaceDecl, args: ArgsModel)
    ensures
        forall|i: int|
            0 <= i < sealed_trait_model(t, args).wrappers.len() ==> wrapper_agrees(
                #[trigger] sealed_trait_model(t, args).wrappers[i],
                sealed_trait_model(t, args).interface.methods,
                t.methods.deep_view(),
            ),
{
    let m = sealed_trait_model(t, args);
    let module = seal_name_of(t.name@);
    lemma_wrappers_upto(t.methods@, t.methods@.len() as int, t.name@, module);
    assert forall|i: int| 0 <= i < m.wrappers.len() implies wrapper_agrees(
        #[trigger] m.wrappers[i],
        m.interface.methods,
        t.methods.deep_view(),
    ) by {
        let w = m.wrappers[i];
        let k = w.method;
        assert(t.methods.deep_view()[k] == t.methods@[k].deep_view());
        assert(m.interface.methods[k] == rewritten_method(t.methods@[k], module));
    }
}

proof fn lemma_valid_methods_pass(ms: Seq<Method>, k: int, partial: bool)
    requires
        0 <= k,
        methods_valid(ms, partial),
    ensures
        method_error_from(ms, k, partial) is None,
    decreases ms.len() - k,
{
    if k < ms.len() {
        assert(match ms[k].seal {
            None => true,
            Some(a) => function_args_of(a) is Ok && (partial ==> ms[k].has_default),
        });
        lemma_valid_methods_pass(ms, k + 1, partial);
    }
}

/// The partial-seal rules, once every sealed method has arguments that parse
/// and, under `partial`, a default body: with `partial`, an interface whose
/// methods are all sealed is refused as a redundant full seal, and one with
/// no sealed method as a vacuous partial seal; without `partial`, an
/// interface with sealed and unsealed methods is refused as inconsistent.
pub proof fn lemma_partial_seal_rules(t: InterfaceDecl, args: ArgsModel)
    ensures
        args.partial && methods_valid(t.methods@, true) && t.methods@.len() > 0 && (forall|k: int|
            0 <= k < t.methods@.len() ==> (#[trigger] t.methods@[k]).seal is Some) ==> sealed_trait_of(
            t,
            args,
        ) == Err::<SealedTraitModel, SealError>(SealError::RedundantFullSeal { span: t.name_span }),
        args.partial && (forall|k: int| 0 <= k < t.methods@.len() ==> (#[trigger] t.methods@[k]).seal is None)
            ==> sealed_trait_of(t, args) == Err::<SealedTraitModel, SealError>(
            SealError::VacuousPartialSeal { span: t.name_span },
        ),
        !args.partial && methods_valid(t.methods@, false) && (exists|k: int|
            0 <= k < t.methods@.len() && (#[trigger] t.methods@[k]).seal is Some) && (exists|k: int|
            0 <= k < t.methods@.len() && (#[trigger] t.methods@[k]).seal is None) ==> sealed_trait_of(
            t,
            args,
        ) matches Err(SealError::InconsistentPartialSeal { .. }),
{
    let ms = t.methods@;
    if args.partial && methods_valid(ms, true) {
        lemma_valid_methods_pass(ms, 0, true);
        if ms.len() > 0 && (forall|k: int| 0 <= k < ms.len() ==> (#[trigger] ms[k]).seal is Some) {
            assert(ms[0].seal is Some);
        }
    }
    if args.partial && (forall|k: int| 0 <= k < ms.len() ==> (#[trigger] ms[k]).seal is None) {
        assert(methods_valid(ms, true));
        lemma_valid_methods_pass(ms, 0, true);
    }
    if !args.partial && methods_valid(ms, false) {
        lemma_valid_methods_pass(ms, 0, false);
    }
}

/// Decides which of the methods are sealed, and whether that agrees with
/// `partial`: with `partial` some but not all must be; without it, either
/// none or all.
pub fn validate_partial_seal(methods: &Vec<Method>, partial: bool, name_span: usize) -> (r: Result<
    SealState,
    SealError,
>)
    ensures
        match state_error(methods@, partial, name_span) {
            Some(e) => r == Err::<SealState, SealError>(e),
            None => r == Ok::<SealState, SealError>(seal_state(methods@)),
        },
{
    let ghost ms = methods@;
    let mut any_sealed = false;
    let mut any_open = false;
    let mut first: usize = 0;
    let mut i: usize = 0;
    while i < methods.len()
        invariant
            i <= ms.len(),
            ms == methods@,
            any_sealed <==> exists|j: int| 0 <= j < i && (#[trigger] ms[j]).seal is Some,
            any_open <==> exists|j: int| 0 <= j < i && (#[trigger] ms[j]).seal is None,
            !any_sealed ==> first_seal_span_from(ms, 0) == first_seal_span_from(ms, i as int),
            any_sealed ==> first == first_seal_span_from(ms, 0),
        decreases ms.len() - i,
    {
        match &methods[i] {
            Method { seal: Some(a), .. } => {
                if !any_sealed {
                    first = a.span;
                }
                any_sealed = true;
            },
            _ => {
                any_open = true;
            },
        }
        i = i + 1;
    }
    let state = if !any_sealed {
        SealState::NoneSealed
    } else if !any_open {
        SealState::AllSealed
    } else {
        SealState::SomeSealed
    };
    proof {
        if !any_sealed {
            assert forall|k: int| 0 <= k < ms.len() implies (#[trigger] ms[k]).seal is None by {}
        } else if !any_open {
            assert forall|k: int| 0 <= k < ms.len() implies (#[trigger] ms[k]).seal is Some by {}
        }
    }
    match state {
        SealState::NoneSealed => if partial {
            return Err(SealError::VacuousPartialSeal { span: name_span });
        },
        SealState::AllSealed => if partial {
            return Err(SealError::RedundantFullSeal { span: name_span });
        },
        SealState::SomeSealed => if !partial {
            return Err(SealError::InconsistentPartialSeal { span: first });
        },
    }
    Ok(state)
}

/// Checks each sealed method in turn: its seal's arguments must parse, and
/// under `partial` it must have a default body.
pub fn check_sealed_methods(methods: &Vec<Method>, partial: bool) -> (r: Result<(), SealError>)
    ensures
        match r {
            Ok(()) => method_error_from(methods@, 0, partial) is None && methods_valid(methods@, partial),
            Err(e) => method_error_from(methods@, 0, partial) == Some(e),
        },
{
    let ghost ms = methods@;
    let mut i: usize = 0;
    while i < methods.len()
        invariant
            i <= ms.len(),
            ms == methods@,
            method_error_from(ms, 0, partial) == method_error_from(ms, i as int, partial),
            forall|k: int|
                0 <= k < i ==> match (#[trigger] ms[k]).seal {
                    None => true,
                    Some(a) => function_args_of(a) is Ok && (partial ==> ms[k].has_default),
                },
        decreases ms.len() - i,
    {
        if let Some(a) = &methods[i].seal {
            match parse_function_arguments(a) {
                Err(e) => {
                    return Err(e);
                },
                Ok(_) => {
                    if partial && !methods[i].has_default {
                        return Err(SealError::SealedWithoutDefault { span: a.span });
                    }
                },
            }
        }
        i = i + 1;
    }
    Ok(())
}

/// The marker's parameters with their bounds erased.
fn erase_params(g: &Vec<GenericParam>) -> (r: Vec<GenericParam>)
    ensures
        r.deep_view() == marker_params(g.deep_view(), true),
{
    let mut r: Vec<GenericParam> = Vec::new();
    let mut i: usize = 0;
    while i < g.len()
        invariant
            i <= g@.len(),
            r@.len() == i,
            forall|j: int| 0 <= j < i ==> r@[j].deep_view() == erase_param(g@[j].deep_view()),
        decreases g@.len() - i,
    {
        let p = &g[i];
        let mut bounds: Vec<String> = Vec::new();
        if matches!(p.kind, ParamKind::Type) {
            bounds.push(String::from_str("?Sized"));
        }
        assert(bounds.deep_view() =~= erased_bounds(p.kind));
        r.push(GenericParam { kind: p.kind, name: p.name.clone(), bounds, ty: p.ty.clone() });
        i = i + 1;
    }
    assert(r.deep_view() =~= marker_params(g.deep_view(), true));
    r
}

/// The names of the parameters.
fn names_of(g: &Vec<GenericParam>) -> (r: Vec<String>)
    ensures
        r.deep_view() == param_names(g.deep_view()),
{
    let mut r: Vec<String> = Vec::new();
    let mut i: usize = 0;
    while i < g.len()
        invariant
            i <= g@.len(),
            r@.len() == i,
            forall|j: int| 0 <= j < i ==> r@[j]@ == g@[j].name@,
        decreases g@.len() - i,
    {
        r.push(g[i].name.clone());
        i = i + 1;
    }
    assert(r.deep_view() =~= param_names(g.deep_view()));
    r
}

/// The expressions that hand the parameters on: `self` for the receiver, the
/// pattern for the others.
fn forward_arguments(ps: &Vec<FnParam>) -> (r: Vec<String>)
    ensures
        r.deep_view() == forward_args(ps.deep_view()),
{
    let mut r: Vec<String> = Vec::new();
    let mut i: usize = 0;
    while i < ps.len()
        invariant
            i <= ps@.len(),
            r@.len() == i,
            forall|j: int| 0 <= j < i ==> r@[j]@ == forward_arg(ps@[j].deep_view()),
        decreases ps@.len() - i,
    {
        let a = match &ps[i] {
            FnParam::Receiver { .. } => String::from_str("self"),
            FnParam::Typed { pat, .. } => pat.clone(),
            FnParam::Token { .. } => String::from_str("_token"),
        };
        r.push(a);
        i = i + 1;
    }
    assert(r.deep_view() =~= forward_args(ps.deep_view()));
    r
}

/// Seals one method of the interface `interface`, whose marker module is
/// `module`: it takes the token as its last parameter and loses its seal
/// attribute. A callable one is renamed, and its wrapper is returned.
pub fn parse_function_definition(
    interface: &String,
    module: &String,
    args: FunctionArguments,
    index: usize,
    function: &mut Method,
) -> (r: Option<Wrapper>)
    ensures
        final(function).deep_view() == sealed_method(old(function).deep_view(), module@, args.callable),
        r is Some <==> args.callable,
        r matches Some(w) ==> w.deep_view() == wrapper_of(
            old(function).deep_view(),
            index as int,
            interface@,
            module@,
        ),
{
    let ghost before = function.deep_view();
    let mut wrapper = None;
    if args.callable {
        let inner = seal_function_name(function.name.as_str());
        wrapper = Some(
            Wrapper {
                method: index,
                name: function.name.clone(),
                params: copy_fn_params(&function.params),
                interface: interface.clone(),
                inner: inner.clone(),
                args: forward_arguments(&function.params),
                module: module.clone(),
            },
        );
        function.name = inner;
    }
    function.params.push(FnParam::Token { module: module.clone() });
    function.seal = None;
    assert(function.params.deep_view() =~= before.params.push(FnParamModel::Token { module: module@ }));
    wrapper
}

/// Seals an interface: checks the partial-seal rules and each sealed method,
/// then declares the marker module, binds the interface to its marker, and
/// rewrites the sealed methods.
pub fn parse_sealed_trait(item: InterfaceDecl, args: TraitArguments) -> (r: Result<SealedTrait, SealError>)
    ensures
        trait_result(r) == sealed_trait_of(item, args.deep_view()),
        r matches Ok(s) ==> s.interface.supertraits.deep_view().last() == (BoundModel::Marker {
            module: s.module.name@,
            args: param_names(item.generics.deep_view()),
        }),
        r matches Ok(s) ==> args.erased ==> {
            &&& s.module.params@.len() == item.generics@.len()
            &&& forall|i: int|
                0 <= i < item.generics@.len() ==> {
                    let p = #[trigger] s.module.params.deep_view()[i];
                    let q = item.generics.deep_view()[i];
                    p.kind == q.kind && p.name == q.name && p.ty == q.ty && p.bounds == erased_bounds(q.kind)
                }
            &&& s.module.where_preds@.len() == 0
        },
        r matches Ok(s) ==> forall|i: int|
            0 <= i < s.wrappers@.len() ==> wrapper_agrees(
                #[trigger] s.wrappers.deep_view()[i],
                s.interface.methods.deep_view(),
                item.methods.deep_view(),
            ),
{
    match check_sealed_methods(&item.methods, args.partial) {
        Ok(()) => {},
        Err(e) => {
            return Err(e);
        },
    }
    let state = match validate_partial_seal(&item.methods, args.partial, item.name_span) {
        Ok(s) => s,
        Err(e) => {
            return Err(e);
        },
    };
    let ghost orig = item.methods@;
    let ghost v = item.deep_view();
    let module = seal_name(item.name.as_str());
    let params = if args.erased {
        erase_params(&item.generics)
    } else {
        copy_params(&item.generics)
    };
    let where_preds = if args.erased {
        Vec::new()
    } else {
        copy_strings(&item.where_preds)
    };
    assert(where_preds.deep_view() =~= (if args.erased {
        Seq::empty()
    } else {
        v.where_preds
    }));
    let marker = MarkerModule {
        name: module.clone(),
        visibility: args.visibility,
        erased: args.erased,
        params,
        where_preds,
        has_token: !matches!(state, SealState::NoneSealed),
    };
    let InterfaceDecl { name, name_span, generics, where_preds, supertraits, methods } = item;
    let mut supertraits = supertraits;
    let ghost written = supertraits.deep_view();
    supertraits.push(Bound::Marker { module: module.clone(), args: names_of(&generics) });
    assert(supertraits.deep_view() =~= written.push(marker_bound(name@, v.generics)));
    let mut methods = methods;
    let mut wrappers: Vec<Wrapper> = Vec::new();
    let mut k: usize = 0;
    while k < methods.len()
        invariant
            k <= orig.len(),
            methods@.len() == orig.len(),
            methods_valid(orig, args.partial),
            forall|j: int|
                0 <= j < k ==> (#[trigger] methods@[j]).deep_view() == rewritten_method(orig[j], module@),
            forall|j: int| k <= j < orig.len() ==> #[trigger] methods@[j] == orig[j],
            wrappers.deep_view() == wrappers_upto(orig, k as int, name@, module@),
        decreases orig.len() - k,
    {
        let ghost dv = wrappers.deep_view();
        let found = match &methods[k].seal {
            Some(a) => match parse_function_arguments(a) {
                Ok(fa) => Some(fa),
                Err(_) => None,
            },
            None => None,
        };
        if let Some(fa) = found {
            let w = parse_function_definition(&name, &module, fa, k, &mut methods[k]);
            if let Some(w) = w {
                wrappers.push(w);
            }
        }
        assert(wrappers.deep_view() =~= wrappers_upto(orig, k + 1, name@, module@));
        k = k + 1;
    }
    let interface = InterfaceDecl { name, name_span, generics, where_preds, supertraits, methods };
    assert(interface.methods.deep_view() =~= Seq::new(orig.len(), |j: int| rewritten_method(orig[j], module@)));
    let sealed = SealedTrait { module: marker, interface, wrappers };
    proof {
        lemma_wrappers_agree(item, args.deep_view());
        if args.erased {
            assert(sealed.module.params.deep_view() == marker_params(v.generics, true));
            assert(sealed.module.params.deep_view().len() == sealed.module.params@.len());
        }
        assert(sealed.wrappers.deep_view() == sealed_trait_model(item, args.deep_view()).wrappers);
    }
    Ok(sealed)
}

} // verus!
