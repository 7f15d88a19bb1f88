use sealed::args::{
    parse_function_arguments, parse_restriction, parse_trait_arguments, ArgToken, Restriction,
    SealAttr, Visibility,
};
use sealed::error::SealError;

fn ident(name: &str, span: usize) -> ArgToken {
    ArgToken::Ident { name: name.to_string(), span }
}

fn punct(ch: char, span: usize) -> ArgToken {
    ArgToken::Punct { ch, span }
}

fn paren(inner: Vec<ArgToken>, span: usize) -> ArgToken {
    ArgToken::Group { parenthesized: true, inner, span }
}

#[test]
fn empty_arguments_keep_defaults() {
    let a = parse_trait_arguments(&vec![]).unwrap();
    assert!(!a.erased);
    assert!(!a.partial);
    assert_eq!(a.visibility, Visibility::Inherited);
}

#[test]
fn erase_and_partial_are_read() {
    let toks = vec![ident("erase", 1), punct(',', 2), ident("partial", 3)];
    let a = parse_trait_arguments(&toks).unwrap();
    assert!(a.erased);
    assert!(a.partial);
    assert_eq!(a.visibility, Visibility::Inherited);
}

#[test]
fn trailing_comma_is_accepted() {
    let toks = vec![ident("erase", 1), punct(',', 2)];
    let a = parse_trait_arguments(&toks).unwrap();
    assert!(a.erased);
    assert!(!a.partial);
}

#[test]
fn pub_crate_restricts_visibility() {
    let toks = vec![ident("pub", 1), paren(vec![ident("crate", 3)], 2), punct(',', 4), ident("erase", 5)];
    let a = parse_trait_arguments(&toks).unwrap();
    assert!(a.erased);
    assert_eq!(
        a.visibility,
        Visibility::Restricted { in_token: false, leading_colon: false, path: vec!["crate".to_string()] }
    );
}

#[test]
fn pub_in_path_restricts_visibility() {
    let inner = vec![
        ident("in", 3),
        ident("super", 4),
        punct(':', 5),
        punct(':', 6),
        ident("super", 7),
    ];
    let a = parse_trait_arguments(&vec![ident("pub", 1), paren(inner, 2)]).unwrap();
    assert_eq!(
        a.visibility,
        Visibility::Restricted {
            in_token: true,
            leading_colon: false,
            path: vec!["super".to_string(), "super".to_string()],
        }
    );
    let rooted = vec![ident("in", 3), punct(':', 4), punct(':', 5), ident("a", 6)];
    match parse_restriction(&rooted) {
        Restriction::Scoped(Visibility::Restricted { in_token, leading_colon, path }) => {
            assert!(in_token);
            assert!(leading_colon);
            assert_eq!(path, vec!["a".to_string()]);
        }
        other => panic!("unexpected {:?}", other),
    }
}

#[test]
fn bare_pub_is_unsafe() {
    let r = parse_trait_arguments(&vec![ident("pub", 7)]);
    assert_eq!(r, Err(SealError::UnsafeVisibility { span: 7 }));
    let r = parse_trait_arguments(&vec![ident("erase", 1), punct(',', 2), ident("pub", 9)]);
    assert_eq!(r, Err(SealError::UnsafeVisibility { span: 9 }));
}

#[test]
fn pub_with_other_scope_is_unsafe() {
    let r = parse_trait_arguments(&vec![ident("pub", 7), paren(vec![ident("foo", 9)], 8)]);
    assert_eq!(r, Err(SealError::UnsafeVisibility { span: 7 }));
    let r = parse_trait_arguments(&vec![ident("pub", 7), paren(vec![ident("crate", 9), ident("x", 10)], 8)]);
    assert_eq!(r, Err(SealError::UnsafeVisibility { span: 7 }));
}

#[test]
fn pub_in_without_path_is_malformed() {
    let r = parse_trait_arguments(&vec![ident("pub", 1), paren(vec![ident("in", 3)], 2)]);
    assert_eq!(r, Err(SealError::MalformedArgumentList { span: 2 }));
    let r = parse_trait_arguments(&vec![
        ident("pub", 1),
        paren(vec![ident("in", 3), ident("a", 4), ident("b", 5)], 2),
    ]);
    assert_eq!(r, Err(SealError::MalformedArgumentList { span: 2 }));
}

#[test]
fn missing_comma_is_malformed() {
    let r = parse_trait_arguments(&vec![ident("erase", 1), ident("partial", 2)]);
    assert_eq!(r, Err(SealError::MalformedArgumentList { span: 1 }));
}

#[test]
fn unknown_trait_argument_names_token() {
    let r = parse_trait_arguments(&vec![ident("erase", 1), punct(',', 2), ident("sealed", 3)]);
    assert_eq!(r, Err(SealError::UnknownArgument { name: "sealed".to_string(), span: 3 }));
}

#[test]
fn literal_argument_is_malformed() {
    let r = parse_trait_arguments(&vec![ArgToken::Literal { text: "\"x\"".to_string(), span: 4 }]);
    assert_eq!(r, Err(SealError::MalformedArgumentList { span: 4 }));
    let r = parse_trait_arguments(&vec![ident("erase", 1), punct(',', 2), punct(',', 3)]);
    assert_eq!(r, Err(SealError::MalformedArgumentList { span: 3 }));
}

#[test]
fn function_arguments_default_to_uncallable() {
    let a = parse_function_arguments(&SealAttr { args: None, span: 1 }).unwrap();
    assert!(!a.callable);
    let a = parse_function_arguments(&SealAttr { args: Some(vec![ident("uncallable", 2)]), span: 1 }).unwrap();
    assert!(!a.callable);
}

#[test]
fn function_arguments_read_callable() {
    let a = parse_function_arguments(&SealAttr { args: Some(vec![ident("callable", 2)]), span: 1 }).unwrap();
    assert!(a.callable);
}

#[test]
fn function_arguments_refuse_others() {
    let r = parse_function_arguments(&SealAttr { args: Some(vec![ident("public", 2)]), span: 1 });
    assert_eq!(r, Err(SealError::UnknownArgument { name: "public".to_string(), span: 2 }));
    let r = parse_function_arguments(&SealAttr { args: Some(vec![]), span: 1 });
    assert_eq!(r, Err(SealError::MalformedArgumentList { span: 1 }));
    let r = parse_function_arguments(&SealAttr {
        args: Some(vec![ident("callable", 2), punct(',', 3), ident("x", 4)]),
        span: 1,
    });
    assert_eq!(r, Err(SealError::MalformedArgumentList { span: 3 }));
    let r = parse_function_arguments(&SealAttr { args: Some(vec![punct('=', 5)]), span: 1 });
    assert_eq!(r, Err(SealError::MalformedArgumentList { span: 5 }));
}
