use dirty_static::frozen;
use dirty_static::mutable;

#[test]
fn create_value() {
    let text = "Hello".to_string();
    let c = mutable::DirtyStatic::new(text);

    assert_eq!(c.read(), "Hello");
}

#[test]
fn refresh_value() {
    let text = "Hello".to_string();
    let mut c = mutable::DirtyStatic::new(text);

    c.replace("Replacement value".to_string());
    assert_eq!(c.read(), "Replacement value");
}

#[test]
fn lib_create_value() {
    let text = "Hello".to_string();
    let c = frozen::DirtyStatic::new(text);

    assert_eq!(c.read(), "Hello");
}

#[test]
fn refresh_value_does_nothing() {
    let text = "Hello".to_string();
    let mut c = frozen::DirtyStatic::new(text);

    c.replace("Replacement value".to_string());
    assert_eq!(c.read(), "Hello");
}

#[test]
fn fresh_cell_has_no_warnings() {
    let c = frozen::DirtyStatic::new(5u32);
    assert_eq!(c.warnings(), 0);
}

#[test]
fn each_ignored_replace_warns_once() {
    let mut c = frozen::DirtyStatic::new(5u32);
    c.replace(6);
    assert_eq!(c.warnings(), 1);
    c.replace(7);
    assert_eq!(c.warnings(), 2);
    assert_eq!(*c.read(), 5);
}

#[test]
fn mutable_cell_never_warns_and_keeps_last_value() {
    let mut c = mutable::DirtyStatic::new(1i64);
    c.replace(2);
    c.replace(3);
    assert_eq!(*c.read(), 3);
}
