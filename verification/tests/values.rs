use std::cmp::Ordering;

use jscore::prelude::{Error, JsContext, JsObject, JsType, JsValue};
use jscore::value::{RELATION_EQUAL, RELATION_GREATER_THAN, RELATION_LESS_THAN, RELATION_UNDEFINED};

#[test]
fn type_codes_map_in_engine_order() {
    let expected = [
        JsType::Undefined,
        JsType::Null,
        JsType::Boolean,
        JsType::Number,
        JsType::String,
        JsType::Object,
        JsType::Symbol,
        JsType::BigInt,
    ];
    for (code, t) in expected.iter().enumerate() {
        assert_eq!(JsType::from_ffi(code as u32), *t);
    }
}

#[test]
fn null_reference_means_exception() {
    let exception = JsValue::from_rf(99);
    let err = JsValue::from_rf_or_exception(0, exception).err().unwrap();
    assert_eq!(err.rf(), 99);
    let ok = JsValue::from_rf_or_exception(42, exception).ok().unwrap();
    assert_eq!(ok.rf(), 42);
}

#[test]
fn json_null_reference_is_none() {
    assert!(JsValue::from_nullable_rf(0).is_none());
    assert_eq!(JsValue::from_nullable_rf(5).unwrap().rf(), 5);
}

#[test]
fn as_object_follows_engine_answer() {
    let v = JsValue::from_rf(17);
    assert!(v.as_object_if(false).is_none());
    assert_eq!(v.as_object_if(true).unwrap().rf(), 17);
    assert_eq!(v.as_object_unchecked().rf(), 17);
    assert_eq!(v.extend_lifetime_unchecked().rf(), 17);
}

#[test]
fn integer_conversion_fails_only_on_zero_with_exception() {
    let exception = JsValue::from_rf(3);
    assert_eq!(JsValue::i32_outcome(0, exception, false).err().unwrap().rf(), 3);
    assert_eq!(JsValue::i32_outcome(0, exception, true).ok(), Some(0));
    assert_eq!(JsValue::i32_outcome(-5, exception, false).ok(), Some(-5));
    assert_eq!(JsValue::i64_outcome(0, exception, false).err().unwrap().rf(), 3);
    assert_eq!(JsValue::i64_outcome(7, exception, false).ok(), Some(7));
    assert_eq!(JsValue::u32_outcome(0, exception, false).err().unwrap().rf(), 3);
    assert_eq!(JsValue::u32_outcome(9, exception, true).ok(), Some(9));
    assert_eq!(JsValue::u64_outcome(0, exception, false).err().unwrap().rf(), 3);
    assert_eq!(JsValue::u64_outcome(0, exception, true).ok(), Some(0));
}

#[test]
fn relation_codes_become_orderings() {
    let exception = JsValue::from_rf(8);
    assert_eq!(JsValue::relation_outcome(RELATION_UNDEFINED, exception).err().unwrap().rf(), 8);
    assert_eq!(JsValue::relation_outcome(RELATION_EQUAL, exception).ok(), Some(Ordering::Equal));
    assert_eq!(
        JsValue::relation_outcome(RELATION_GREATER_THAN, exception).ok(),
        Some(Ordering::Greater)
    );
    assert_eq!(JsValue::relation_outcome(RELATION_LESS_THAN, exception).ok(), Some(Ordering::Less));
}

#[test]
fn objects_and_values_share_references() {
    let o = JsObject::from_rf(21);
    assert_eq!(o.as_value().rf(), 21);
    assert_eq!(o.extend_lifetime_unchecked().rf(), 21);
    let exception = JsValue::from_rf(4);
    assert_eq!(JsObject::from_rf_or_exception(0, exception).err().unwrap().rf(), 4);
    assert_eq!(JsObject::from_rf_or_exception(6, exception).ok().unwrap().rf(), 6);
    assert!(JsObject::delete_outcome(true, exception).is_ok());
    assert_eq!(JsObject::delete_outcome(false, exception).err().unwrap().rf(), 4);
}

#[test]
fn context_keeps_its_reference() {
    let c = JsContext::from_rf(1234);
    assert_eq!(c.rf(), 1234);
    assert_eq!(c.extend_lifetime_unchecked().rf(), 1234);
}

#[test]
fn argument_list_takes_the_counted_values() {
    let args = [JsValue::from_rf(4), JsValue::from_rf(5), JsValue::from_rf(6)];
    assert_eq!(JsValue::argument_refs(&args, 3), vec![4, 5, 6]);
    assert_eq!(JsValue::argument_refs(&args, 2), vec![4, 5]);
    assert!(JsValue::argument_refs(&args, 0).is_empty());
}

#[test]
fn callback_arguments_become_objects() {
    let objects = JsObject::objects_from_refs(&[7, 8]);
    assert_eq!(objects.len(), 2);
    assert_eq!(objects[0].rf(), 7);
    assert_eq!(objects[1].rf(), 8);
    assert!(JsObject::objects_from_refs(&[]).is_empty());
}

#[test]
fn object_into_value_keeps_reference() {
    let v: JsValue = JsObject::from_rf(31).into();
    assert_eq!(v.rf(), 31);
}

#[test]
fn error_interface_views_its_object() {
    let e = Error::from_object(JsObject::from_rf(77));
    assert_eq!(e.as_value().rf(), 77);
}
