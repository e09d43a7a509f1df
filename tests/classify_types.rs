use glue_v8::codegen::{
    classify, generate_arg_extractions, generate_call_and_return, generate_state_extraction,
    v8_local_extraction, ArgExtraction, ArgOutcome, ArgProbe, CallArg, Completion, Effect,
    HandleKind, ReturnMode, StateExtraction, TypeClass,
};
use glue_v8::fast::{get_fast_api_return_type, get_fast_api_type, FastApiType};
use glue_v8::parse::{AttrItem, AttrValue, ConfigError, MethodAttrs};
use glue_v8::text::decimal_text;
use glue_v8::types::{
    get_option_inner_type, get_rc_inner_type, get_v8_local_inner_type, is_result_type, GenericArg,
    Param, PathSegment, TypeDesc,
};

fn seg(ident: &str, args: Vec<GenericArg>) -> PathSegment {
    PathSegment { ident: ident.to_string(), args }
}

fn simple(name: &str) -> TypeDesc {
    TypeDesc::Path { segments: vec![seg(name, vec![])], text: name.to_string() }
}

fn qualified(first: &str, last: &str) -> TypeDesc {
    TypeDesc::Path {
        segments: vec![seg(first, vec![]), seg(last, vec![])],
        text: format!("{} :: {}", first, last),
    }
}

fn wrapper_of(wrapper: &str, inner: TypeDesc) -> TypeDesc {
    let text = format!("{} < {} >", wrapper, inner.text());
    TypeDesc::Path { segments: vec![seg(wrapper, vec![GenericArg::Type(inner)])], text }
}

fn short_local(inner: TypeDesc) -> TypeDesc {
    wrapper_of("Local", inner)
}

fn unit() -> TypeDesc {
    TypeDesc::Tuple { elems: vec![], text: "()".to_string() }
}

#[test]
fn classify_option_handle_primitive_opaque() {
    assert_eq!(classify(&wrapper_of("Option", simple("f64"))), TypeClass::Optional);
    assert_eq!(
        classify(&short_local(qualified("v8", "Object"))),
        TypeClass::Handle(HandleKind::Object)
    );
    assert_eq!(classify(&simple("u64")), TypeClass::Primitive(FastApiType::U64));
    assert_eq!(classify(&qualified("std", "f32")), TypeClass::Primitive(FastApiType::F32));
    assert_eq!(classify(&unit()), TypeClass::Primitive(FastApiType::Void));
    assert_eq!(classify(&simple("String")), TypeClass::Opaque);
    assert_eq!(classify(&simple("usize")), TypeClass::Opaque);
}

#[test]
fn classify_option_without_argument_is_opaque() {
    assert_eq!(classify(&simple("Option")), TypeClass::Opaque);
}

#[test]
fn classify_local_with_lifetime_first_is_not_a_handle() {
    let ty = TypeDesc::Path {
        segments: vec![seg(
            "Local",
            vec![GenericArg::Lifetime("'s".to_string()), GenericArg::Type(simple("Function"))],
        )],
        text: "Local < 's , Function >".to_string(),
    };
    assert_eq!(get_v8_local_inner_type(&ty), None);
    assert_eq!(classify(&ty), TypeClass::Opaque);
}

#[test]
fn classify_three_segment_local_is_not_a_handle() {
    let ty = TypeDesc::Path {
        segments: vec![
            seg("rusty", vec![]),
            seg("v8", vec![]),
            seg("Local", vec![GenericArg::Type(simple("Function"))]),
        ],
        text: "rusty :: v8 :: Local < Function >".to_string(),
    };
    assert_eq!(get_v8_local_inner_type(&ty), None);
}

#[test]
fn local_inner_type_names() {
    assert_eq!(
        get_v8_local_inner_type(&short_local(qualified("v8", "Function"))),
        Some("Function".to_string())
    );
    assert_eq!(get_v8_local_inner_type(&simple("Local")), None);
    assert_eq!(get_v8_local_inner_type(&simple("f64")), None);
}

#[test]
fn value_handle_takes_any_value() {
    let params = vec![Param { name: "v".to_string(), ty: short_local(qualified("v8", "Value")) }];
    let xs = generate_arg_extractions(&params);
    assert!(matches!(&xs[0], ArgExtraction::AnyValue { index: 0, .. }));
    let p = ArgProbe { undefined: true, null: false, is_kind: false, convert_error: None };
    assert!(matches!(xs[0].outcome(&p), ArgOutcome::Bound));
}

#[test]
fn unknown_handle_goes_through_conversion() {
    let ty = short_local(qualified("v8", "Promise"));
    assert_eq!(classify(&ty), TypeClass::Handle(HandleKind::Generic));
    let params = vec![Param { name: "p".to_string(), ty }];
    let xs = generate_arg_extractions(&params);
    match &xs[0] {
        ArgExtraction::Convert { message, ty, .. } => {
            assert_eq!(message, "argument 0: expected Local < v8 :: Promise >");
            assert_eq!(ty, "Local < v8 :: Promise >");
        }
        _ => panic!("expected a conversion"),
    }
    let p = ArgProbe {
        undefined: false,
        null: false,
        is_kind: false,
        convert_error: Some("wrong".to_string()),
    };
    match xs[0].outcome(&p) {
        ArgOutcome::TypeError(m) => assert_eq!(m, "argument 0: expected Local < v8 :: Promise >"),
        _ => panic!("expected a type error"),
    }
}

#[test]
fn every_checked_kind_has_its_predicate() {
    let cases = [
        ("Function", HandleKind::Function, "is_function"),
        ("Object", HandleKind::Object, "is_object"),
        ("Array", HandleKind::Array, "is_array"),
        ("Uint8Array", HandleKind::Uint8Array, "is_uint8_array"),
        ("ArrayBuffer", HandleKind::ArrayBuffer, "is_array_buffer"),
        ("String", HandleKind::StringValue, "is_string"),
        ("Number", HandleKind::Number, "is_number"),
    ];
    for (name, kind, check) in cases {
        assert_eq!(classify(&short_local(qualified("v8", name))), TypeClass::Handle(kind));
        assert_eq!(kind.check_method(), check);
        assert_eq!(kind.engine_name(), name);
    }
}

#[test]
fn checked_extraction_message_counts_from_zero() {
    let x = v8_local_extraction(&"arr".to_string(), 3, HandleKind::Array);
    match x {
        ArgExtraction::Checked { name, index, kind, message } => {
            assert_eq!(name, "arr");
            assert_eq!(index, 3);
            assert_eq!(kind, HandleKind::Array);
            assert_eq!(message, "argument 3 must be a Array");
        }
        _ => panic!("expected a checked handle"),
    }
}

#[test]
fn argument_index_with_two_digits() {
    let params: Vec<Param> =
        (0..12).map(|i| Param { name: format!("p{}", i), ty: simple("f64") }).collect();
    let xs = generate_arg_extractions(&params);
    assert_eq!(xs.len(), 12);
    match &xs[11] {
        ArgExtraction::Deserialize { name, index, error_prefix, .. } => {
            assert_eq!(name, "p11");
            assert_eq!(*index, 11);
            assert_eq!(error_prefix, "argument 11: expected f64");
        }
        _ => panic!("expected generic deserialization"),
    }
}

#[test]
fn decimal_text_values() {
    assert_eq!(decimal_text(0), "0");
    assert_eq!(decimal_text(7), "7");
    assert_eq!(decimal_text(10), "10");
    assert_eq!(decimal_text(4096), "4096");
    assert_eq!(decimal_text(usize::MAX), usize::MAX.to_string());
}

#[test]
fn result_option_rc_helpers() {
    let res = wrapper_of("Result", simple("f64"));
    assert!(is_result_type(&res));
    assert!(!is_result_type(&simple("f64")));
    assert!(!is_result_type(&unit()));
    let opt = wrapper_of("Option", simple("String"));
    assert_eq!(get_option_inner_type(&opt).map(|t| t.text().clone()), Some("String".to_string()));
    assert!(get_option_inner_type(&simple("String")).is_none());
    let rc = wrapper_of("Rc", simple("State"));
    assert_eq!(get_rc_inner_type(&rc).map(|t| t.text().clone()), Some("State".to_string()));
    assert!(get_rc_inner_type(&opt).is_none());
}

#[test]
fn fast_type_mapping() {
    let cases = [
        ("bool", FastApiType::Bool, "Bool", "bool"),
        ("i32", FastApiType::I32, "Int32", "i32"),
        ("u32", FastApiType::U32, "Uint32", "u32"),
        ("i64", FastApiType::I64, "Int64", "i64"),
        ("u64", FastApiType::U64, "Uint64", "u64"),
        ("f32", FastApiType::F32, "Float32", "f32"),
        ("f64", FastApiType::F64, "Float64", "f64"),
    ];
    for (name, t, ctype, rust) in cases {
        assert_eq!(get_fast_api_type(&simple(name)), Some(t));
        assert_eq!(t.quote_ctype(), ctype);
        assert_eq!(t.quote_rust_type(), rust);
    }
    assert_eq!(get_fast_api_type(&unit()), Some(FastApiType::Void));
    assert_eq!(FastApiType::Void.quote_ctype(), "Void");
    assert_eq!(FastApiType::Void.quote_rust_type(), "()");
    assert_eq!(get_fast_api_type(&simple("usize")), None);
    let pair = TypeDesc::Tuple { elems: vec![simple("i32")], text: "(i32 ,)".to_string() };
    assert_eq!(get_fast_api_type(&pair), None);
    assert_eq!(get_fast_api_type(&TypeDesc::Other { text: "& str".to_string() }), None);
}

#[test]
fn fast_return_type_defaults_to_void() {
    assert_eq!(get_fast_api_return_type(&None), Some(FastApiType::Void));
    assert_eq!(get_fast_api_return_type(&Some(simple("i64"))), Some(FastApiType::I64));
    assert_eq!(get_fast_api_return_type(&Some(simple("String"))), None);
}

#[test]
fn state_extraction_cases() {
    assert!(matches!(generate_state_extraction(false, &None), Ok(StateExtraction::NoState)));
    assert!(matches!(generate_state_extraction(true, &None), Err(ConfigError::MissingStateType)));
    match generate_state_extraction(true, &Some(simple("Plain"))) {
        Ok(StateExtraction::Slot { slot_type, state_type, .. }) => {
            assert_eq!(slot_type, "Plain");
            assert_eq!(state_type, "Plain");
        }
        _ => panic!("expected the context slot"),
    }
}

#[test]
fn return_modes_by_precedence() {
    let f = "f".to_string();
    let m = |has_return, returns_result, is_promise| {
        generate_call_and_return(&f, vec![], has_return, returns_result, is_promise).mode
    };
    assert_eq!(m(true, true, true), ReturnMode::PromiseFallible);
    assert_eq!(m(true, false, true), ReturnMode::PromiseValue);
    assert_eq!(m(false, false, true), ReturnMode::PromiseUnit);
    assert_eq!(m(true, true, false), ReturnMode::Fallible);
    assert_eq!(m(true, false, false), ReturnMode::Value);
    assert_eq!(m(false, false, false), ReturnMode::Unit);
    let plan = generate_call_and_return(&f, vec![CallArg::Scope], true, false, false);
    assert_eq!(plan.fn_name, "f");
    assert_eq!(plan.args.len(), 1);
}

#[test]
fn unconvertible_values_are_dropped() {
    let c = Completion::Success { converts: false };
    assert!(matches!(ReturnMode::Value.effects(&c).as_slice(), [Effect::Invoke]));
}

#[test]
fn unconvertible_promise_values_reject() {
    let c = Completion::Success { converts: false };
    assert!(matches!(
        ReturnMode::PromiseValue.effects(&c).as_slice(),
        [Effect::ReturnDeferred, Effect::Invoke, Effect::RejectUnconvertible]
    ));
    assert!(matches!(
        ReturnMode::PromiseFallible.effects(&c).as_slice(),
        [Effect::ReturnDeferred, Effect::Invoke, Effect::RejectUnconvertible]
    ));
    assert!(matches!(
        ReturnMode::PromiseUnit.effects(&c).as_slice(),
        [Effect::ReturnDeferred, Effect::Invoke, Effect::ResolveUndefined]
    ));
}

#[test]
fn promise_without_value_resolves_undefined() {
    let c = Completion::Success { converts: true };
    assert!(matches!(
        ReturnMode::PromiseUnit.effects(&c).as_slice(),
        [Effect::ReturnDeferred, Effect::Invoke, Effect::ResolveUndefined]
    ));
}

#[test]
fn parse_collects_flags_and_types() {
    let items = vec![
        AttrItem::Meta { key: "fast".to_string(), value: AttrValue::Absent },
        AttrItem::Meta { key: "state".to_string(), value: AttrValue::Type(simple("A")) },
        AttrItem::Meta { key: "state".to_string(), value: AttrValue::Type(simple("B")) },
    ];
    match MethodAttrs::parse(items) {
        Ok(a) => {
            assert!(a.fast);
            assert!(!a.promise);
            assert_eq!(a.js_name, None);
            assert_eq!(a.state_type.map(|t| t.text().clone()), Some("B".to_string()));
        }
        Err(e) => panic!("unexpected error: {}", e.message()),
    }
}

#[test]
fn parse_reports_first_fault() {
    let items = vec![
        AttrItem::Meta { key: "promise".to_string(), value: AttrValue::Other },
        AttrItem::Meta { key: "wat".to_string(), value: AttrValue::Absent },
    ];
    match MethodAttrs::parse(items) {
        Err(ConfigError::BadValue(k)) => assert_eq!(k, "promise"),
        _ => panic!("expected the first fault"),
    }
    match MethodAttrs::parse(vec![]) {
        Ok(a) => assert!(!a.fast && !a.promise && a.js_name.is_none() && a.state_type.is_none()),
        Err(_) => panic!("an empty configuration is valid"),
    }
}

#[test]
fn unknown_key_message() {
    let e = ConfigError::UnknownKey("foo".to_string());
    assert_eq!(
        e.message(),
        "expected `state = Type`, `name = \"jsName\"`, `promise`, or `fast`, found foo"
    );
}
