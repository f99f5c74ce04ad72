use phper::types::{
    get_base_type_by_raw, Type, IS_ARRAY, IS_ARRAY_EX, IS_DOUBLE, IS_FALSE, IS_INDIRECT, IS_LONG,
    IS_NULL, IS_OBJECT, IS_OBJECT_EX, IS_STRING, IS_STRING_EX, IS_TRUE, IS_UNDEF,
};

#[test]
fn raw_round_trip() {
    assert_eq!(Type::from_raw(IS_LONG).into_raw(), IS_LONG);
    assert_eq!(Type::from_raw(IS_ARRAY_EX).into_raw(), IS_ARRAY_EX);
}

#[test]
fn constructors_carry_their_tags() {
    assert_eq!(Type::undef().into_raw(), IS_UNDEF);
    assert_eq!(Type::null().into_raw(), IS_NULL);
    assert_eq!(Type::bool(true).into_raw(), IS_TRUE);
    assert_eq!(Type::bool(false).into_raw(), IS_FALSE);
    assert_eq!(Type::long().into_raw(), IS_LONG);
    assert_eq!(Type::double().into_raw(), IS_DOUBLE);
    assert_eq!(Type::array().into_raw(), IS_ARRAY);
    assert_eq!(Type::array_ex().into_raw(), IS_ARRAY_EX);
    assert_eq!(Type::object().into_raw(), IS_OBJECT);
    assert_eq!(Type::object_ex().into_raw(), IS_OBJECT_EX);
}

#[test]
fn base_type_of_extended_variants() {
    assert_eq!(Type::array_ex().get_base_type(), Type::array());
    assert_eq!(Type::object_ex().get_base_type(), Type::object());
    assert_eq!(Type::from_raw(IS_STRING_EX).get_base_type(), Type::from_raw(IS_STRING));
    assert_eq!(get_base_type_by_raw(IS_ARRAY_EX), IS_ARRAY);
    assert_eq!(get_base_type_by_raw(IS_OBJECT_EX), IS_OBJECT);
    assert_eq!(get_base_type_by_raw(IS_STRING_EX), IS_STRING);
}

#[test]
fn base_type_of_bare_tags_is_identity() {
    for t in 0u32..13u32 {
        assert_eq!(get_base_type_by_raw(t), t);
    }
}

#[test]
fn predicates_see_through_extension_flags() {
    assert!(Type::array_ex().is_array());
    assert!(!Type::array_ex().is_object());
    assert!(Type::object_ex().is_object());
    assert!(Type::from_raw(IS_STRING_EX).is_string());
    assert!(Type::bool(true).is_true());
    assert!(Type::bool(true).is_bool());
    assert!(Type::bool(false).is_false());
    assert!(Type::bool(false).is_bool());
    assert!(!Type::bool(true).is_false());
    assert!(Type::long().is_long());
    assert!(Type::double().is_double());
    assert!(Type::undef().is_undef());
    assert!(Type::null().is_null());
    assert!(Type::from_raw(IS_INDIRECT).is_indirect());
    assert!(!Type::null().is_undef());
}

#[test]
fn base_type_names() {
    assert_eq!(Type::undef().base_type_name(), "undefined");
    assert_eq!(Type::null().base_type_name(), "null");
    assert_eq!(Type::bool(true).base_type_name(), "bool");
    assert_eq!(Type::bool(false).base_type_name(), "bool");
    assert_eq!(Type::long().base_type_name(), "int");
    assert_eq!(Type::double().base_type_name(), "float");
    assert_eq!(Type::array_ex().base_type_name(), "array");
    assert_eq!(Type::object_ex().base_type_name(), "object");
    assert_eq!(Type::from_raw(IS_STRING_EX).base_type_name(), "string");
    assert_eq!(Type::from_raw(200).base_type_name(), "unknown");
}

#[test]
fn from_raw_tag_conversion() {
    assert_eq!(Type::from(IS_LONG), Type::long());
    let t: Type = IS_ARRAY_EX.into();
    assert_eq!(t.into_raw(), IS_ARRAY_EX);
}

#[test]
fn fallible_name_lookup_is_always_ok() {
    assert_eq!(Type::long().get_base_type_name().unwrap(), "int");
    assert_eq!(Type::array_ex().get_base_type_name().unwrap(), "array");
}
