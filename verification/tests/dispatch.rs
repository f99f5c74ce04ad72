use phper::dispatch::{
    call_function, call_method, prepare_exception, resolve_exception_class,
    translate_to_exception, validate_argument_count, write_back,
};
use phper::errors::{Error, TypeError};
use phper::registry::{ArgumentDescriptor, FunctionDescriptor, MethodDescriptor, Visibility};
use phper::state::StateBox;
use phper::values::Value;

fn arg(name: &str, by_ref: bool, optional: bool) -> ArgumentDescriptor {
    ArgumentDescriptor { name: String::from(name), by_ref, optional }
}

fn two_required(name: &str) -> FunctionDescriptor {
    FunctionDescriptor {
        name: String::from(name),
        arguments: vec![arg("a", false, false), arg("b", false, false), arg("c", false, true)],
    }
}

#[test]
fn shortfall_raises_argument_count_error() {
    let f = two_required("f");
    let r = call_function(&f, |_args| Ok(Value::Null), Vec::new());
    match r.unwrap_err() {
        Error::ArgumentCount(e) => {
            assert_eq!(e.function_name, "f");
            assert_eq!(e.expect_count, 2);
            assert_eq!(e.given_count, 0);
        }
        _ => panic!("expected an argument count error"),
    }
}

#[test]
fn shortfall_message_is_exact() {
    let f = two_required("f");
    let r = call_function(&f, |_args| Ok(Value::Null), vec![Value::Long(1)]);
    let x = translate_to_exception(&r.unwrap_err());
    assert_eq!(x.class_name, "ArgumentCountError");
    assert_eq!(x.code, 0);
    assert_eq!(x.message, "f(): expects at least 2 parameter(s), 1 given");
}

#[test]
fn trailing_optional_arguments_may_be_absent() {
    let f = two_required("f");
    let r = call_function(
        &f,
        |args| Ok(Value::Long(args.len() as i64)),
        vec![Value::Long(1), Value::Long(2)],
    );
    assert!(matches!(r, Ok(Value::Long(2))));
}

#[test]
fn handler_result_is_returned_unchanged() {
    let f = FunctionDescriptor { name: String::from("g"), arguments: Vec::new() };
    let r = call_function(&f, |_args| Ok(Value::Bool(true)), Vec::new());
    assert!(matches!(r, Ok(Value::Bool(true))));
}

#[test]
fn handler_error_becomes_the_mapped_host_exception() {
    let f = FunctionDescriptor { name: String::from("g"), arguments: Vec::new() };
    let r = call_function(
        &f,
        |_args| Err(Error::Type(TypeError::new(String::from("bad")))),
        Vec::new(),
    );
    let x = translate_to_exception(&r.unwrap_err());
    assert_eq!(x.class_name, "TypeError");
    assert_eq!(x.code, 0);
    assert_eq!(x.message, "type error: bad");
}

#[test]
fn method_dispatch_hands_the_receiver_through() {
    let m = MethodDescriptor {
        name: String::from("incr"),
        visibility: Visibility::Public,
        arguments: vec![arg("by", false, false)],
    };
    let mut receiver: StateBox<i64> = StateBox::new(Some(5));
    receiver.bind(5, 10).unwrap();
    let (receiver, r) = call_method(
        &m,
        |mut b: StateBox<i64>, args| {
            let by = match args.into_iter().next().unwrap() {
                Value::Long(n) => n,
                _ => return (b, Err(Error::Type(TypeError::new(String::from("bad"))))),
            };
            let prev = *b.get(5).unwrap();
            b.replace(5, prev + by).unwrap();
            (b, Ok(Value::Long(prev + by)))
        },
        receiver,
        vec![Value::Long(32)],
    );
    assert!(matches!(r, Ok(Value::Long(42))));
    assert_eq!(*receiver.get(5).unwrap(), 42);
}

#[test]
fn method_shortfall_keeps_the_receiver_untouched() {
    let m = MethodDescriptor {
        name: String::from("incr"),
        visibility: Visibility::Public,
        arguments: vec![arg("by", false, false)],
    };
    let mut receiver: StateBox<i64> = StateBox::new(Some(5));
    receiver.bind(5, 10).unwrap();
    let (receiver, r) = call_method(&m, |b: StateBox<i64>, _args| (b, Ok(Value::Null)), receiver, Vec::new());
    match r.unwrap_err() {
        Error::ArgumentCount(e) => {
            assert_eq!(e.function_name, "incr");
            assert_eq!(e.expect_count, 1);
            assert_eq!(e.given_count, 0);
        }
        _ => panic!("expected an argument count error"),
    }
    assert_eq!(*receiver.get(5).unwrap(), 10);
}

#[test]
fn validate_argument_count_accepts_enough_arguments() {
    let decl = vec![arg("a", false, false)];
    assert!(validate_argument_count(&String::from("f"), &decl, 1).is_ok());
    assert!(validate_argument_count(&String::from("f"), &decl, 5).is_ok());
    assert!(validate_argument_count(&String::from("f"), &decl, 0).is_err());
}

#[test]
fn write_back_updates_only_by_ref_slots() {
    let decl = vec![arg("a", true, false), arg("b", false, false), arg("c", true, true)];
    let before = vec![Value::Long(1), Value::Long(2), Value::Long(3)];
    let after = vec![Value::Long(10), Value::Long(20), Value::Long(30)];
    let r = write_back(&decl, before, after);
    assert_eq!(r.len(), 3);
    assert!(matches!(r[0], Value::Long(10)));
    assert!(matches!(r[1], Value::Long(2)));
    assert!(matches!(r[2], Value::Long(30)));
}

#[test]
fn write_back_with_absent_trailing_arguments() {
    let decl = vec![arg("a", true, false), arg("b", false, true)];
    let r = write_back(&decl, vec![Value::Long(1)], vec![Value::Long(9)]);
    assert_eq!(r.len(), 1);
    assert!(matches!(r[0], Value::Long(9)));
}

#[test]
fn preparing_an_exception_finds_its_class_and_triple() {
    let table = vec![String::from("Error"), String::from("TypeError")];
    let e = Error::Type(TypeError::new(String::from("bad")));
    let (i, x) = prepare_exception(&e, &table).unwrap();
    assert_eq!(i, 1);
    assert_eq!(x.class_name, "TypeError");
    assert_eq!(x.code, 0);
    assert_eq!(x.message, "type error: bad");
}

#[test]
fn preparing_an_exception_with_an_unregistered_class_is_fatal() {
    let table = vec![String::from("Error")];
    let e = Error::Type(TypeError::new(String::from("bad")));
    let fatal = prepare_exception(&e, &table).unwrap_err();
    assert!(matches!(&fatal, Error::ClassNotFound(c) if c.class_name == "TypeError"));
}

#[test]
fn resolving_a_registered_exception_class_succeeds() {
    let table = vec![
        String::from("Error"),
        String::from("TypeError"),
        String::from("ArgumentCountError"),
    ];
    assert_eq!(resolve_exception_class(&table, &String::from("TypeError")).unwrap(), 1);
}

#[test]
fn resolving_a_missing_exception_class_is_class_not_found() {
    let table = vec![String::from("Error")];
    let e = resolve_exception_class(&table, &String::from("Foo")).unwrap_err();
    match e {
        Error::ClassNotFound(c) => assert_eq!(c.class_name, "Foo"),
        _ => panic!("expected a class-not-found error"),
    }
    let x = translate_to_exception(&Error::ClassNotFound(
        phper::errors::ClassNotFoundError::new(String::from("Foo")),
    ));
    assert_eq!(x.class_name, "Error");
    assert_eq!(x.code, 0);
    assert_eq!(x.message, "Class 'Foo' not found");
}
