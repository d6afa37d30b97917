use jscore::prelude::{JsClassAttributes, JsPropertyAttributes};

#[test]
fn property_attribute_bits() {
    assert_eq!(JsPropertyAttributes::none().bits(), 0);
    assert_eq!(JsPropertyAttributes::read_only().bits(), 2);
    assert_eq!(JsPropertyAttributes::dont_enum().bits(), 4);
    assert_eq!(JsPropertyAttributes::dont_delete().bits(), 8);
    assert_eq!(JsPropertyAttributes::all().bits(), 14);
    assert_eq!(JsPropertyAttributes::empty().bits(), 0);
}

#[test]
fn class_attribute_bits() {
    assert_eq!(JsClassAttributes::none().bits(), 0);
    assert_eq!(JsClassAttributes::no_automatic_prototype().bits(), 2);
    assert_eq!(JsClassAttributes::all().bits(), 2);
    assert!(JsClassAttributes::empty().is_empty());
    assert!(JsClassAttributes::all().is_all());
}

#[test]
fn from_bits_rejects_unknown_bits() {
    assert_eq!(JsPropertyAttributes::from_bits(6).map(|f| f.bits()), Some(6));
    assert!(JsPropertyAttributes::from_bits(1).is_none());
    assert!(JsPropertyAttributes::from_bits(16).is_none());
    assert_eq!(JsPropertyAttributes::from_bits_truncate(0xFF).bits(), 14);
    assert_eq!(JsPropertyAttributes::from_bits_retain(0xFF).bits(), 0xFF);
    assert!(JsClassAttributes::from_bits(4).is_none());
    assert_eq!(JsClassAttributes::from_bits_truncate(7).bits(), 2);
}

#[test]
fn set_operations() {
    let ro = JsPropertyAttributes::read_only();
    let dd = JsPropertyAttributes::dont_delete();
    let both = ro.union(dd);
    assert_eq!(both.bits(), 10);
    assert!(both.contains(ro));
    assert!(both.intersects(dd));
    assert!(!ro.intersects(dd));
    assert_eq!(both.intersection(ro).bits(), 2);
    assert_eq!(both.difference(ro).bits(), 8);
    assert_eq!(both.symmetric_difference(JsPropertyAttributes::dont_enum()).bits(), 14);
    assert_eq!(both.complement().bits(), 4);
    assert_eq!(ro.union(dd), dd.union(ro));
}

#[test]
fn mutation_laws() {
    let mut f = JsPropertyAttributes::empty();
    f.insert(JsPropertyAttributes::dont_enum());
    assert!(f.contains(JsPropertyAttributes::dont_enum()));
    f.remove(JsPropertyAttributes::dont_enum());
    assert!(!f.intersects(JsPropertyAttributes::dont_enum()));
    f.toggle(JsPropertyAttributes::read_only());
    assert_eq!(f.bits(), 2);
    f.toggle(JsPropertyAttributes::read_only());
    assert_eq!(f.bits(), 0);
    f.set(JsPropertyAttributes::dont_delete(), true);
    assert_eq!(f.bits(), 8);
    f.set(JsPropertyAttributes::dont_delete(), false);
    assert_eq!(f.bits(), 0);
    let mut c = JsClassAttributes::none();
    c.insert(JsClassAttributes::no_automatic_prototype());
    assert!(c.is_all());
    assert_eq!(c.complement().complement(), c);
}
