use rush_interpreter::{FnRef, Ref, RefSource};

#[test]
fn fresh_refs_count_up_from_zero() {
    let mut source = RefSource::new();
    assert_eq!(source.fresh(), Ref::new(0));
    assert_eq!(source.fresh(), Ref::new(1));
    assert_eq!(FnRef::new(Ref::new(7)).inner(), Ref::new(7));
}

#[test]
fn fresh_refs_wrap_around() {
    let mut source = RefSource { next: usize::MAX };
    assert_eq!(source.fresh(), Ref::new(usize::MAX));
    assert_eq!(source.fresh(), Ref::new(0));
}

#[test]
fn refs_compare_by_their_integer() {
    assert_eq!(Ref::new(3), Ref::new(3));
    assert_ne!(Ref::new(3), Ref::new(4));
    assert!(Ref::new(3) < Ref::new(4));
    assert_eq!(FnRef::new(Ref::new(3)), FnRef::new(Ref::new(3)));
    assert_ne!(FnRef::new(Ref::new(3)), FnRef::new(Ref::new(4)));
}

#[test]
fn refs_render_with_their_number() {
    assert_eq!(Ref::new(0).to_text(), "Ref(0)");
    assert_eq!(Ref::new(1234567890).to_text(), "Ref(1234567890)");
    assert_eq!(FnRef::new(Ref::new(42)).to_text(), "FnRef(Ref(42))");
}
