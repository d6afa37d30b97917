use jscore::class::{bool_callback_outcome, value_callback_outcome};
use jscore::prelude::{
    JsClass, JsClassAttributes, JsClassDefinitionBuilder, JsObject, JsPropertyAttributes,
    JsStaticFunctionBuilder, JsStaticValueBuilder, JsString, JsValue, Script, ScriptParts,
};

#[test]
fn script_new_defaults() {
    let text = JsString::from_rf(10);
    let s = Script::new(&text, None, None, None);
    assert_eq!(s.parts(), ScriptParts { script: 10, this: 0, source: 0, starting_lineno: 0 });
}

#[test]
fn script_new_with_every_part() {
    let text = JsString::from_rf(10);
    let this = JsObject::from_rf(20);
    let url = JsString::from_rf(30);
    let s = Script::new(&text, Some(&this), Some(&url), Some(-4));
    assert_eq!(s.parts(), ScriptParts { script: 10, this: 20, source: 30, starting_lineno: -4 });
}

#[test]
fn script_builder_matches_new() {
    let text = JsString::from_rf(10);
    let this = JsObject::from_rf(20);
    let url = JsString::from_rf(30);
    assert_eq!(
        Script::builder().build().parts(),
        ScriptParts { script: 0, this: 0, source: 0, starting_lineno: 0 }
    );
    let built = Script::builder()
        .script(&text)
        .this(&this)
        .source_url(&url)
        .starting_line_number(12)
        .build();
    let made = Script::new(&text, Some(&this), Some(&url), Some(12));
    assert_eq!(built.parts(), made.parts());
    let only_text = Script::builder().script(&text).build();
    assert_eq!(only_text.parts(), Script::new(&text, None, None, None).parts());
}

#[test]
fn static_value_builder_sets_each_part() {
    let v = JsStaticValueBuilder::new("count")
        .with_get_callback(100)
        .with_set_callback(200)
        .with_attributes(JsPropertyAttributes::read_only().union(JsPropertyAttributes::dont_delete()))
        .build();
    assert_eq!(v.name(), "count");
    assert_eq!(v.get_property(), Some(100));
    assert_eq!(v.set_property(), Some(200));
    assert_eq!(v.attributes(), 10);
    let plain = JsStaticValueBuilder::new("x").build();
    assert_eq!(plain.get_property(), None);
    assert_eq!(plain.set_property(), None);
    assert_eq!(plain.attributes(), 0);
}

#[test]
fn static_function_builder_sets_each_part() {
    let f = JsStaticFunctionBuilder::new("run")
        .with_call_as_function_callback(300)
        .with_attributes(JsPropertyAttributes::read_only().union(JsPropertyAttributes::dont_enum()))
        .build();
    assert_eq!(f.name(), "run");
    assert_eq!(f.call_as_function(), Some(300));
    assert_eq!(f.attributes(), 6);
    let plain = JsStaticFunctionBuilder::new("idle").build();
    assert_eq!(plain.call_as_function(), None);
    assert_eq!(plain.attributes(), 0);
}

#[test]
fn class_definition_builder_sets_each_part() {
    let parent = JsClass::from_rf(55);
    let value = JsStaticValueBuilder::new("v").build();
    let value2 = JsStaticValueBuilder::new("w").with_get_callback(1).build();
    let function = JsStaticFunctionBuilder::new("f").build();
    let def = JsClassDefinitionBuilder::new(3)
        .with_parent_class(&parent)
        .with_class_name("Widget")
        .with_attributes(JsClassAttributes::no_automatic_prototype())
        .with_static_values([value, value2])
        .with_static_functions(function)
        .build();
    assert_eq!(def.parent_class(), 55);
    assert_eq!(def.class_name(), Some("Widget"));
    assert_eq!(def.version(), 3);
    assert_eq!(def.attributes(), 2);
    assert_eq!(def.static_functions().unwrap().name(), "f");
    let kept = def.static_values().unwrap();
    assert_eq!(kept.len(), 2);
    assert_eq!(kept[0].name(), "v");
    assert_eq!(kept[1].name(), "w");
    assert_eq!(kept[1].get_property(), Some(1));
}

#[test]
fn class_definition_defaults() {
    let def = JsClassDefinitionBuilder::new(0).build();
    assert_eq!(def.parent_class(), 0);
    assert_eq!(def.class_name(), None);
    assert_eq!(def.version(), 0);
    assert_eq!(def.attributes(), 0);
    assert!(def.static_functions().is_none());
    assert!(def.static_values().is_none());
}

#[test]
fn class_reference_or_default_class() {
    let c = JsClass::from_rf(9);
    assert_eq!(c.as_ptr(), 9);
    assert_eq!(JsClass::optional_ref(Some(&c)), 9);
    assert_eq!(JsClass::optional_ref(None), 0);
}

#[test]
fn callbacks_write_exceptions_on_failure() {
    assert_eq!(value_callback_outcome(Ok(JsValue::from_rf(5))), (5, None));
    assert_eq!(value_callback_outcome(Err(JsValue::from_rf(6))), (0, Some(6)));
    assert_eq!(bool_callback_outcome(Ok(true)), (true, None));
    assert_eq!(bool_callback_outcome(Err(JsValue::from_rf(7))), (false, Some(7)));
}
