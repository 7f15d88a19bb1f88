use sealed::args::{ArgToken, Visibility};
use sealed::error::SealError;
use sealed::expand::{sealed, Expansion, Item};
use sealed::implementation::{ImplBlock, TraitPath};
use sealed::model::{Bound, InterfaceDecl};

fn trait_t() -> InterfaceDecl {
    InterfaceDecl {
        name: "T".to_string(),
        name_span: 1,
        generics: vec![],
        where_preds: vec![],
        supertraits: vec![],
        methods: vec![],
    }
}

fn impl_t_for(ty: &str) -> ImplBlock {
    ImplBlock {
        span: 2,
        generics: vec![],
        where_preds: vec![],
        target: Some(TraitPath { leading_colon: false, prefix: vec![], name: "T".to_string(), args: vec![] }),
        self_ty: ty.to_string(),
        methods: vec![],
    }
}

#[test]
fn other_items_are_refused() {
    let r = sealed(&vec![], Item::Other);
    assert_eq!(r.err(), Some(SealError::StructuralMismatch));
}

#[test]
fn only_listed_types_receive_the_marker() {
    let t = match sealed(&vec![], Item::Trait(trait_t())).unwrap() {
        Expansion::Trait(t) => t,
        other => panic!("unexpected {:?}", other),
    };
    assert_eq!(t.module.name, "__seal_t");
    assert_eq!(t.module.visibility, Visibility::Inherited);
    assert_eq!(
        t.interface.supertraits,
        vec![Bound::Marker { module: "__seal_t".to_string(), args: vec![] }]
    );
    let mut granted = Vec::new();
    for ty in ["A", "B"] {
        match sealed(&vec![], Item::Impl(impl_t_for(ty))).unwrap() {
            Expansion::Impl(i) => {
                assert_eq!(i.grant.target.prefix, vec!["__seal_t".to_string()]);
                assert_eq!(i.grant.target.name, "Sealed");
                granted.push(i.grant.self_ty);
            }
            other => panic!("unexpected {:?}", other),
        }
    }
    // `C` goes through no sealed block, so nothing grants it the marker the
    // interface now requires.
    assert_eq!(granted, vec!["A".to_string(), "B".to_string()]);
    assert!(!granted.contains(&"C".to_string()));
}

#[test]
fn bare_pub_refused_on_any_interface() {
    let pub_only = vec![ArgToken::Ident { name: "pub".to_string(), span: 3 }];
    assert_eq!(sealed(&pub_only, Item::Trait(trait_t())).err(), Some(SealError::UnsafeVisibility { span: 3 }));
    let nested = InterfaceDecl { name: "Deep".to_string(), ..trait_t() };
    let with_more = vec![
        ArgToken::Ident { name: "pub".to_string(), span: 3 },
        ArgToken::Punct { ch: ',', span: 4 },
        ArgToken::Ident { name: "erase".to_string(), span: 5 },
    ];
    assert_eq!(sealed(&with_more, Item::Trait(nested)).err(), Some(SealError::UnsafeVisibility { span: 3 }));
}

#[test]
fn implementation_blocks_ignore_arguments() {
    let args = vec![ArgToken::Ident { name: "bogus".to_string(), span: 3 }];
    assert!(matches!(sealed(&args, Item::Impl(impl_t_for("A"))), Ok(Expansion::Impl(_))));
    assert_eq!(
        sealed(&args, Item::Trait(trait_t())).err(),
        Some(SealError::UnknownArgument { name: "bogus".to_string(), span: 3 })
    );
}

#[test]
fn errors_render_messages_and_spans() {
    let e = SealError::UnknownArgument { name: "bogus".to_string(), span: 3 };
    assert_eq!(e.message(), "unknown `bogus` attribute argument");
    assert_eq!(e.span(), Some(3));
    assert_eq!(SealError::StructuralMismatch.message(), "expected impl or trait");
    assert_eq!(SealError::StructuralMismatch.span(), None);
    assert_eq!(SealError::MissingTarget { span: 9 }.message(), "missing implementation trait");
    assert!(SealError::UnsafeVisibility { span: 1 }.message().starts_with("`pub` visibility breaks the seal"));
    assert!(SealError::RedundantFullSeal { span: 1 }.message().contains("none of its methods are implementable"));
    assert!(SealError::VacuousPartialSeal { span: 1 }.message().contains("none of its methods are sealed"));
    assert!(SealError::InconsistentPartialSeal { span: 1 }.message().contains("#[sealed(partial)]"));
    assert!(SealError::SealedWithoutDefault { span: 1 }.message().contains("default implementation"));
    assert_eq!(SealError::MalformedArgumentList { span: 1 }.message(), "expected followed by `,`");
    assert_eq!(
        SealError::UnsafeVisibility { span: 1 }.message(),
        "`pub` visibility breaks the seal as allows to use it outside its crate.\nConsider tightening the visibility (e.g. `pub(crate)`) if you actually need sealing."
    );
}
