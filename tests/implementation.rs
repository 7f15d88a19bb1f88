use sealed::args::{ArgToken, SealAttr};
use sealed::error::SealError;
use sealed::implementation::{parse_sealed_impl, ImplBlock, TraitPath};
use sealed::model::{FnParam, GenericParam, Method, ParamKind};

fn param(kind: ParamKind, name: &str, bounds: &[&str], ty: &str) -> GenericParam {
    GenericParam {
        kind,
        name: name.to_string(),
        bounds: bounds.iter().map(|b| b.to_string()).collect(),
        ty: ty.to_string(),
    }
}

fn strings(v: &[&str]) -> Vec<String> {
    v.iter().map(|s| s.to_string()).collect()
}

fn block(target: Option<TraitPath>, generics: Vec<GenericParam>, methods: Vec<Method>) -> ImplBlock {
    ImplBlock {
        span: 42,
        generics,
        where_preds: strings(&["T: Copy"]),
        target,
        self_ty: "Vec<T>".to_string(),
        methods,
    }
}

#[test]
fn grant_uses_the_same_arguments() {
    let target = TraitPath {
        leading_colon: true,
        prefix: strings(&["lets", "nesting"]),
        name: "Set".to_string(),
        args: strings(&["Option<T>", "'a", "N"]),
    };
    let generics = vec![
        param(ParamKind::Lifetime, "'a", &[], ""),
        param(ParamKind::Type, "T", &["Clone", "?Sized"], ""),
        param(ParamKind::Const, "N", &[], "usize"),
    ];
    let s = parse_sealed_impl(block(Some(target), generics.clone(), vec![])).unwrap();
    assert!(s.grant.target.leading_colon);
    assert_eq!(s.grant.target.prefix, strings(&["lets", "nesting", "__seal_set"]));
    assert_eq!(s.grant.target.name, "Sealed");
    assert_eq!(s.grant.target.args, strings(&["Option<T>", "'a", "N"]));
    assert_eq!(s.grant.self_ty, "Vec<T>");
    assert_eq!(
        s.grant.params,
        vec![
            param(ParamKind::Lifetime, "'a", &[], ""),
            param(ParamKind::Type, "T", &["?Sized"], ""),
            param(ParamKind::Const, "N", &[], "usize"),
        ]
    );
    assert_eq!(s.block.generics, generics);
    assert_eq!(s.block.where_preds, strings(&["T: Copy"]));
    assert_eq!(s.block.target.unwrap().name, "Set");
}

#[test]
fn grant_drops_plain_bounds() {
    let target = TraitPath { leading_colon: false, prefix: vec![], name: "AsRef".to_string(), args: strings(&["str"]) };
    let generics = vec![param(ParamKind::Type, "T", &["Copy"], "")];
    let s = parse_sealed_impl(block(Some(target), generics, vec![])).unwrap();
    assert_eq!(s.grant.params, vec![param(ParamKind::Type, "T", &[], "")]);
    assert_eq!(s.grant.target.prefix, strings(&["__seal_as_ref"]));
}

#[test]
fn inherent_block_has_no_target() {
    let r = parse_sealed_impl(block(None, vec![], vec![]));
    assert_eq!(r.err(), Some(SealError::MissingTarget { span: 42 }));
}

#[test]
fn sealed_methods_mirror_the_interface() {
    let target = TraitPath { leading_colon: false, prefix: vec![], name: "r#Counter".to_string(), args: vec![] };
    let callable = SealAttr {
        args: Some(vec![ArgToken::Ident { name: "callable".to_string(), span: 2 }]),
        span: 1,
    };
    let methods = vec![
        Method { name: "get".to_string(), params: vec![FnParam::Receiver { text: "&self".to_string() }], has_default: true, seal: Some(callable) },
        Method { name: "put".to_string(), params: vec![], has_default: true, seal: Some(SealAttr { args: None, span: 3 }) },
        Method { name: "open".to_string(), params: vec![], has_default: true, seal: None },
    ];
    let s = parse_sealed_impl(block(Some(target), vec![], methods)).unwrap();
    let token = FnParam::Token { module: "__seal_counter".to_string() };
    let m = &s.block.methods;
    assert_eq!(m[0].name, "_get");
    assert_eq!(m[0].params, vec![FnParam::Receiver { text: "&self".to_string() }, token.clone()]);
    assert_eq!(m[0].seal, None);
    assert_eq!(m[1].name, "put");
    assert_eq!(m[1].params, vec![token]);
    assert_eq!(m[2].name, "open");
    assert!(m[2].params.is_empty());
}

#[test]
fn impl_method_with_unknown_argument() {
    let target = TraitPath { leading_colon: false, prefix: vec![], name: "T".to_string(), args: vec![] };
    let attr = SealAttr { args: Some(vec![ArgToken::Ident { name: "erase".to_string(), span: 6 }]), span: 5 };
    let methods = vec![Method { name: "f".to_string(), params: vec![], has_default: true, seal: Some(attr) }];
    let r = parse_sealed_impl(block(Some(target), vec![], methods));
    assert_eq!(r.err(), Some(SealError::UnknownArgument { name: "erase".to_string(), span: 6 }));
}
