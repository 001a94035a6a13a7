use interned_label::label::{ConstLabel, Label};
use interned_label::registry::Registry;

#[derive(Debug)]
struct Tag;

#[test]
fn static_label() {
    let mut reg = Registry::<Tag>::new();
    let l1 = ConstLabel::<Tag>::new("1");
    let l2 = ConstLabel::<Tag>::new("2");
    let l3 = ConstLabel::<Tag>::new("1");
    assert_ne!(l1.label(&mut reg), l2.label(&mut reg));
    assert_ne!(l1.id(), l2.id());
    assert_ne!(l1.name(), l2.name());
    assert_eq!(l1.label(&mut reg), l3.label(&mut reg));
    assert_eq!(l1.id(), l3.id());
    assert_eq!(l1.name(), l3.name());
}

#[test]
fn dynamic_label() {
    let mut reg = Registry::<Tag>::new();
    let c1 = ConstLabel::<Tag>::new("1");

    let l1 = Label::<Tag>::new_owned(&mut reg, String::from("1"));
    let l2 = Label::new(&mut reg, "2");
    let l3 = Label::new(&mut reg, "1");
    assert_eq!(c1.label(&mut reg), l1);
    assert_eq!(c1.id(), l1.id());
    assert_eq!(c1.name(), l1.name());
    assert_ne!(l1, l2);
    assert_ne!(l1.id(), l2.id());
    assert_ne!(l1.name(), l2.name());
    assert_eq!(l1, l3);
    assert_eq!(l1.id(), l3.id());
    assert_eq!(l1.name(), l3.name());
}

// Equal-content strings give equal labels, hashes and names, whether the
// contents arrive borrowed or owned.
#[test]
fn equal_content_equal_labels() {
    let mut reg = Registry::<Tag>::new();
    let a = Label::<Tag>::new(&mut reg, "alpha");
    let b = Label::<Tag>::new_owned(&mut reg, String::from("alpha"));
    assert_eq!(a, b);
    assert_eq!(a.id(), b.id());
    assert_eq!(a.name(), b.name());
}

// A constant label upgraded to a runtime label equals a runtime label built
// directly from the same string.
#[test]
fn upgrade_equals_direct() {
    let mut reg = Registry::<Tag>::new();
    let upgraded = ConstLabel::<Tag>::new("1").label(&mut reg);
    let direct = Label::<Tag>::new(&mut reg, "1");
    assert_eq!(upgraded, direct);
    assert_eq!(upgraded.id(), direct.id());
    assert_eq!(upgraded.name(), direct.name());
}

// Repeated construction from independent call sites hands out names that are
// content-equal and backed by the very same canonical storage.
#[test]
fn repeated_construction_shares_storage() {
    let mut reg = Registry::<Tag>::new();
    let first = Label::<Tag>::new(&mut reg, "1");
    let again = Label::<Tag>::new(&mut reg, "1");
    let owned = Label::<Tag>::new_owned(&mut reg, String::from("1"));
    assert_eq!(reg.len(), 1);
    assert_eq!(first.name(), again.name());
    assert_eq!(first.name(), owned.name());
    assert!(std::ptr::eq(first.name(), again.name()));
    assert!(std::ptr::eq(first.name(), owned.name()));
}

// Duplicating a label copies the hash and the name reference and performs no
// registry work: the registry has not grown afterwards.
#[test]
fn duplication_is_registry_free() {
    let mut reg = Registry::<Tag>::new();
    let l = Label::<Tag>::new(&mut reg, "once");
    let copied = l;
    let cloned = l.clone();
    assert_eq!(reg.len(), 1);
    assert_eq!(copied, l);
    assert_eq!(cloned, l);
    assert_eq!(copied.id(), l.id());
    assert!(std::ptr::eq(cloned.name(), l.name()));
}

// An eager upgrade consults the registry: if the constant label's hash is
// already bound to different contents, the upgrade is refused.
#[test]
fn upgrade_detects_collision() {
    let mut reg = Registry::<Tag>::new();
    let c = ConstLabel::<Tag>::new("1");
    assert!(reg.try_intern(c.id(), "other").is_ok());
    match c.try_label(&mut reg) {
        Ok(_) => panic!("upgrade across a collision was accepted"),
        Err(collision) => {
            assert_eq!(collision.id, c.id());
            assert_eq!(collision.existing, "other");
            assert_eq!(collision.rejected, "1");
        }
    }
    assert_eq!(reg.len(), 1);
}

// Direct construction consults the registry likewise, for borrowed and for
// owned names.
#[test]
fn construction_detects_collision() {
    let mut reg = Registry::<Tag>::new();
    let hash = ConstLabel::<Tag>::new("1").id();
    assert!(reg.try_intern(hash, "other").is_ok());
    assert!(Label::<Tag>::try_new(&mut reg, "1").is_err());
    assert!(Label::<Tag>::try_new_owned(&mut reg, String::from("1")).is_err());
    assert_eq!(reg.len(), 1);
}

// Registries of distinct namespaces are independent: one hash may carry
// different names in different namespaces without colliding.
#[derive(Debug)]
struct OtherTag;

#[test]
fn namespaces_are_separate() {
    let mut reg_a = Registry::<Tag>::new();
    let mut reg_b = Registry::<OtherTag>::new();
    assert!(reg_a.try_intern(77, "left").is_ok());
    assert!(reg_b.try_intern(77, "right").is_ok());
    let a = Label::<Tag>::new(&mut reg_a, "shared");
    let b = Label::<OtherTag>::new(&mut reg_b, "shared");
    assert_eq!(a.id(), b.id());
    assert_eq!(a.name(), b.name());
}

// The hash of the empty string is the FNV-1a offset basis.
#[test]
fn empty_name_hash_is_offset_basis() {
    let mut reg = Registry::<Tag>::new();
    let l = Label::<Tag>::new(&mut reg, "");
    assert_eq!(l.id(), 0xcbf29ce484222325);
    assert_eq!(l.name(), "");
}
