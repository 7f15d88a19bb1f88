use sealed::ident::{seal_function_name, seal_name, unraw};

#[test]
fn seal_name_folds_camel_case() {
    assert_eq!(seal_name("DroneState"), "__seal_drone_state");
    assert_eq!(seal_name("T"), "__seal_t");
    assert_eq!(seal_name("PartialSealed"), "__seal_partial_sealed");
}

#[test]
fn seal_name_drops_raw_marker() {
    assert_eq!(seal_name("r#Type"), "__seal_type");
    assert_eq!(unraw("r#type"), "type");
    assert_eq!(unraw("rtype"), "rtype");
    assert_eq!(unraw("r"), "r");
}

#[test]
fn seal_name_is_deterministic_and_injective() {
    assert_eq!(seal_name("AsRef"), seal_name("AsRef"));
    assert_ne!(seal_name("Foo"), seal_name("Bar"));
    assert_ne!(seal_name("FooBar"), seal_name("Foo"));
    // Names with one snake case form share one marker module name.
    assert_eq!(seal_name("FooBar"), seal_name("foo_bar"));
}

#[test]
fn seal_function_name_prefixes_underscore() {
    assert_eq!(seal_function_name("call"), "_call");
    assert_eq!(seal_function_name("_x"), "__x");
}
