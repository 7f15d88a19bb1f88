//! The declarations this library reads and writes, as plain data, and their
//! mathematical models. Text that the transformation only carries along (a
//! bound, a type, a pattern) stays as the host printer wrote it.
use vstd::prelude::*;
use crate::args::SealAttr;

verus! {

/// The three kinds of generic parameter.
#[derive(Clone, Copy, Debug, PartialEq, Eq)]
pub enum ParamKind {
    /// A lifetime, such as `'a`.
    Lifetime,
    /// A type, such as `T`.
    Type,
    /// A constant, such as `const N: usize`.
    Const,
}

/// One generic parameter of a declaration.
#[derive(Clone, Debug, PartialEq, Eq)]
pub struct GenericParam {
    pub kind: ParamKind,
    /// Its name, with the leading `'` for a lifetime.
    pub name: String,
    /// Its bounds, each as written.
    pub bounds: Vec<String>,
    /// The type of a constant; empty for the other kinds.
    pub ty: String,
}

pub struct ParamModel {
    pub kind: ParamKind,
    pub name: Seq<char>,
    pub bounds: Seq<Seq<char>>,
    pub ty: Seq<char>,
}

impl DeepView for GenericParam {
    type V = ParamModel;

    open spec fn deep_view(&self) -> ParamModel {
        ParamModel { kind: self.kind, name: self.name@, bounds: self.bounds.deep_view(), ty: self.ty@ }
    }
}

/// One parameter of a method.
#[derive(Clone, Debug, PartialEq, Eq)]
pub enum FnParam {
    /// The receiver, as written (`&self`, `self: Box<Self>`).
    Receiver { text: String },
    /// A typed parameter: its pattern and its type, as written.
    Typed { pat: String, ty: String },
    /// The authorization token of the marker module named `module`.
    Token { module: String },
}

pub enum FnParamModel {
    Receiver { text: Seq<char> },
    Typed { pat: Seq<char>, ty: Seq<char> },
    Token { module: Seq<char> },
}

impl DeepView for FnParam {
    type V = FnParamModel;

    open spec fn deep_view(&self) -> FnParamModel {
        match self {
            FnParam::Receiver { text } => FnParamModel::Receiver { text: text@ },
            FnParam::Typed { pat, ty } => FnParamModel::Typed { pat: pat@, ty: ty@ },
            FnParam::Token { module } => FnParamModel::Token { module: module@ },
        }
    }
}

/// A method of an interface or of an implementation block.
#[derive(Debug, PartialEq, Eq)]
pub struct Method {
    pub name: String,
    pub params: Vec<FnParam>,
    /// Whether it has a body (in an interface: a default).
    pub has_default: bool,
    /// Its seal attribute, if it carries one.
    pub seal: Option<SealAttr>,
}

pub struct MethodModel {
    pub name: Seq<char>,
    pub params: Seq<FnParamModel>,
    pub has_default: bool,
    pub sealed: bool,
}

impl DeepView for Method {
    type V = MethodModel;

    open spec fn deep_view(&self) -> MethodModel {
        MethodModel {
            name: self.name@,
            params: self.params.deep_view(),
            has_default: self.has_default,
            sealed: self.seal is Some,
        }
    }
}

/// A supertrait bound of an interface.
#[derive(Clone, Debug, PartialEq, Eq)]
pub enum Bound {
    /// One the author wrote.
    Written { text: String },
    /// The marker capability `module::Sealed<args>`.
    Marker { module: String, args: Vec<String> },
}

pub enum BoundModel {
    Written { text: Seq<char> },
    Marker { module: Seq<char>, args: Seq<Seq<char>> },
}

impl DeepView for Bound {
    type V = BoundModel;

    open spec fn deep_view(&self) -> BoundModel {
        match self {
            Bound::Written { text } => BoundModel::Written { text: text@ },
            Bound::Marker { module, args } => BoundModel::Marker { module: module@, args: args.deep_view() },
        }
    }
}

/// An interface declaration.
#[derive(Debug, PartialEq, Eq)]
pub struct InterfaceDecl {
    pub name: String,
    /// Where errors about the interface as a whole are anchored.
    pub name_span: usize,
    pub generics: Vec<GenericParam>,
    /// The predicates of its `where` clause, each as written.
    pub where_preds: Vec<String>,
    pub supertraits: Vec<Bound>,
    /// Its methods, in order; its other items are left alone.
    pub methods: Vec<Method>,
}

pub struct InterfaceModel {
    pub name: Seq<char>,
    pub name_span: usize,
    pub generics: Seq<ParamModel>,
    pub where_preds: Seq<Seq<char>>,
    pub supertraits: Seq<BoundModel>,
    pub methods: Seq<MethodModel>,
}

impl DeepView for InterfaceDecl {
    type V = InterfaceModel;

    open spec fn deep_view(&self) -> InterfaceModel {
        InterfaceModel {
            name: self.name@,
            name_span: self.name_span,
            generics: self.generics.deep_view(),
            where_preds: self.where_preds.deep_view(),
            supertraits: self.supertraits.deep_view(),
            methods: self.methods.deep_view(),
        }
    }
}

/// A copy of a list of strings.
pub fn copy_strings(v: &Vec<String>) -> (r: Vec<String>)
    ensures
        r.deep_view() == v.deep_view(),
{
    let mut r: Vec<String> = Vec::new();
    let mut i: usize = 0;
    while i < v.len()
        invariant
            i <= v@.len(),
            r@.len() == i,
            forall|j: int| 0 <= j < i ==> r@[j]@ == v@[j]@,
        decreases v@.len() - i,
    {
        r.push(v[i].clone());
        i = i + 1;
    }
    assert(r.deep_view() =~= v.deep_view());
    r
}

/// A copy of a generic parameter.
pub fn copy_param(p: &GenericParam) -> (r: GenericParam)
    ensures
        r.deep_view() == p.deep_view(),
{
    GenericParam { kind: p.kind, name: p.name.clone(), bounds: copy_strings(&p.bounds), ty: p.ty.clone() }
}

/// A copy of a list of generic parameters.
pub fn copy_params(v: &Vec<GenericParam>) -> (r: Vec<GenericParam>)
    ensures
        r.deep_view() == v.deep_view(),
{
    let mut r: Vec<GenericParam> = Vec::new();
    let mut i: usize = 0;
    while i < v.len()
        invariant
            i <= v@.len(),
            r@.len() == i,
            forall|j: int| 0 <= j < i ==> r@[j].deep_view() == v@[j].deep_view(),
        decreases v@.len() - i,
    {
        r.push(copy_param(&v[i]));
        i = i + 1;
    }
    assert(r.deep_view() =~= v.deep_view());
    r
}

/// A copy of a method parameter.
pub fn copy_fn_param(p: &FnParam) -> (r: FnParam)
    ensures
        r.deep_view() == p.deep_view(),
{
    match p {
        FnParam::Receiver { text } => FnParam::Receiver { text: text.clone() },
        FnParam::Typed { pat, ty } => FnParam::Typed { pat: pat.clone(), ty: ty.clone() },
        FnParam::Token { module } => FnParam::Token { module: module.clone() },
    }
}

/// A copy of a list of method parameters.
pub fn copy_fn_params(v: &Vec<FnParam>) -> (r: Vec<FnParam>)
    ensures
        r.deep_view() == v.deep_view(),
{
    let mut r: Vec<FnParam> = Vec::new();
    let mut i: usize = 0;
    while i < v.len()
        invariant
            i <= v@.len(),
            r@.len() == i,
            forall|j: int| 0 <= j < i ==> r@[j].deep_view() == v@[j].deep_view(),
        decreases v@.len() - i,
    {
        r.push(copy_fn_param(&v[i]));
        i = i + 1;
    }
    assert(r.deep_view() =~= v.deep_view());
    r
}

} // verus!
