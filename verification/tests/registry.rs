use phper::registry::{
    required_count, ArgumentDescriptor, ClassBuilder, FunctionDescriptor, Registry, Visibility,
};
use phper::values::Value;

fn arg(name: &str, by_ref: bool, optional: bool) -> ArgumentDescriptor {
    ArgumentDescriptor { name: String::from(name), by_ref, optional }
}

#[test]
fn duplicate_property_fails_at_build_time() {
    let mut b = ClassBuilder::new(String::from("App\\Counter"));
    b.add_property(String::from("count"), Visibility::Private, Value::Long(0)).unwrap();
    let e = b
        .add_property(String::from("count"), Visibility::Public, Value::Null)
        .unwrap_err();
    assert_eq!(e.name, "count");
    assert_eq!(b.properties.len(), 1);
    assert!(matches!(b.properties[0].visibility, Visibility::Private));
}

#[test]
fn distinct_properties_register_in_insertion_order() {
    let mut b = ClassBuilder::new(String::from("App\\Counter"));
    b.add_property(String::from("count"), Visibility::Private, Value::Long(0)).unwrap();
    b.add_property(String::from("label"), Visibility::Public, Value::Null).unwrap();
    let c = b.build();
    assert_eq!(c.properties.len(), 2);
    assert_eq!(c.properties[0].name, "count");
    assert_eq!(c.properties[1].name, "label");
}

#[test]
fn duplicate_method_fails_at_build_time() {
    let mut b = ClassBuilder::new(String::from("App\\Counter"));
    b.add_method(String::from("incr"), Visibility::Public, vec![arg("by", false, true)])
        .unwrap();
    let e = b
        .add_method(String::from("incr"), Visibility::Public, Vec::new())
        .unwrap_err();
    assert_eq!(e.name, "incr");
    assert_eq!(b.methods.len(), 1);
}

#[test]
fn duplicate_argument_names_fail_at_build_time() {
    let mut b = ClassBuilder::new(String::from("App\\Counter"));
    let e = b
        .add_method(
            String::from("set"),
            Visibility::Public,
            vec![arg("x", false, false), arg("x", true, false)],
        )
        .unwrap_err();
    assert_eq!(e.name, "set");
    assert_eq!(b.methods.len(), 0);
}

#[test]
fn state_type_is_carried_into_the_descriptor() {
    let mut b = ClassBuilder::new(String::from("App\\Listener"));
    b.with_state_type(7);
    let c = b.build();
    assert_eq!(c.state_type, Some(7));
    assert_eq!(c.name, "App\\Listener");
}

#[test]
fn duplicate_class_names_are_refused() {
    let mut r = Registry::new();
    r.add_class(ClassBuilder::new(String::from("A")).build()).unwrap();
    r.add_class(ClassBuilder::new(String::from("B")).build()).unwrap();
    let e = r.add_class(ClassBuilder::new(String::from("A")).build()).unwrap_err();
    assert_eq!(e.name, "A");
    assert_eq!(r.classes.len(), 2);
    assert_eq!(r.classes[0].name, "A");
    assert_eq!(r.classes[1].name, "B");
}

#[test]
fn duplicate_function_names_are_refused() {
    let mut r = Registry::new();
    r.add_function(FunctionDescriptor { name: String::from("f"), arguments: Vec::new() })
        .unwrap();
    let e = r
        .add_function(FunctionDescriptor {
            name: String::from("f"),
            arguments: vec![arg("x", false, false)],
        })
        .unwrap_err();
    assert_eq!(e.name, "f");
    assert_eq!(r.functions.len(), 1);
}

#[test]
fn freeze_keeps_the_registered_shape() {
    let mut r = Registry::new();
    r.add_class(ClassBuilder::new(String::from("A")).build()).unwrap();
    r.freeze();
    assert!(r.frozen);
    assert_eq!(r.classes.len(), 1);
}

#[test]
fn find_class_returns_the_registration_index() {
    let mut r = Registry::new();
    r.add_class(ClassBuilder::new(String::from("A")).build()).unwrap();
    r.add_class(ClassBuilder::new(String::from("B")).build()).unwrap();
    assert_eq!(r.find_class(&String::from("B")), Some(1));
    assert_eq!(r.find_class(&String::from("C")), None);
}

#[test]
fn required_count_ignores_optional_arguments() {
    let decl = vec![arg("a", false, false), arg("b", true, false), arg("c", false, true)];
    assert_eq!(required_count(&decl), 2);
    assert_eq!(required_count(&Vec::new()), 0);
    let all_optional = vec![arg("a", false, true), arg("b", false, true)];
    assert_eq!(required_count(&all_optional), 0);
}
