use doc_params::convert::{
    assign_pat_to_param_def, ident_to_param_def, pat_to_param_def, prop_name_to_string,
    ts_fn_param_to_param_def, ParamDefError,
};
use doc_params::params::{ObjectPatPropDef, ParamDef, TsTypeDef};
use doc_params::pattern::{
    ArrayPat, AssignPat, BindingIdent, ObjectPat, ObjectPatProp, Pat, PropName, RestPat, TsFnParam,
};

fn ty(s: &str) -> Option<TsTypeDef> {
    Some(TsTypeDef { repr: s.to_string() })
}

fn ident(name: &str) -> BindingIdent {
    BindingIdent { name: name.to_string(), optional: false, type_ann: None }
}

fn id_pat(name: &str) -> Pat {
    Pat::Ident(ident(name))
}

fn rest(arg: Pat) -> Pat {
    Pat::Rest(RestPat { arg: Box::new(arg), type_ann: None })
}

fn array(elems: Vec<Option<Pat>>) -> Pat {
    Pat::Array(ArrayPat { elems, optional: false, type_ann: None })
}

fn object(props: Vec<ObjectPatProp>) -> Pat {
    Pat::Object(ObjectPat { props, optional: false, type_ann: None })
}

fn key_value(key: &str, value: Pat) -> ObjectPatProp {
    ObjectPatProp::KeyValue { key: PropName::Ident(key.to_string()), value: Box::new(value) }
}

fn render(pat: &Pat, src: Option<&str>) -> String {
    pat_to_param_def(src, pat).ok().unwrap().to_string()
}

#[test]
fn nested_depth_is_preserved() {
    let pat = object(vec![key_value(
        "a",
        array(vec![Some(id_pat("b")), Some(rest(id_pat("c")))]),
    )]);
    let d = pat_to_param_def(None, &pat).ok().unwrap();
    match &d {
        ParamDef::Object { props, optional, ts_type } => {
            assert!(!optional);
            assert!(ts_type.is_none());
            assert_eq!(props.len(), 1);
            match &props[0] {
                ObjectPatPropDef::KeyValue { key, value } => {
                    assert_eq!(key, "a");
                    match &**value {
                        ParamDef::Array { elements, .. } => {
                            assert_eq!(elements.len(), 2);
                            assert!(matches!(
                                &elements[0],
                                Some(ParamDef::Identifier { name, optional: false, ts_type: None })
                                    if name == "b"
                            ));
                            match &elements[1] {
                                Some(ParamDef::Rest { arg, ts_type: None }) => {
                                    assert!(matches!(
                                        &**arg,
                                        ParamDef::Identifier { name, .. } if name == "c"
                                    ));
                                }
                                _ => panic!("expected a rest element"),
                            }
                        }
                        _ => panic!("expected an array"),
                    }
                }
                _ => panic!("expected a key-value property"),
            }
        }
        _ => panic!("expected an object"),
    }
    assert_eq!(d.to_string(), "{a}");
}

#[test]
fn optional_name_has_one_marker() {
    let b = BindingIdent { name: "x".to_string(), optional: true, type_ann: None };
    let d = ident_to_param_def(None, &b);
    let s = d.to_string();
    assert_eq!(s, "x?");
    assert_eq!(s.matches('?').count(), 1);
    assert!(!s.contains("..."));
    assert!(!s.contains('='));
    let typed = BindingIdent { name: "x".to_string(), optional: true, type_ann: ty("string") };
    assert_eq!(ident_to_param_def(None, &typed).to_string(), "x?: string");
}

#[test]
fn elided_slot_is_kept_in_place() {
    let pat = array(vec![None, Some(id_pat("b"))]);
    let d = pat_to_param_def(None, &pat).ok().unwrap();
    match &d {
        ParamDef::Array { elements, .. } => {
            assert_eq!(elements.len(), 2);
            assert!(elements[0].is_none());
            assert!(elements[1].is_some());
        }
        _ => panic!("expected an array"),
    }
    assert_eq!(d.to_string(), "[, b]");
    assert_eq!(render(&array(vec![Some(id_pat("a")), None, None]), None), "[a, , ]");
}

#[test]
fn object_props_keep_declaration_order() {
    let pat = object(vec![
        ObjectPatProp::Assign { key: "z".to_string(), has_value: true },
        key_value("a", id_pat("renamed")),
        ObjectPatProp::Assign { key: "m".to_string(), has_value: false },
        ObjectPatProp::Rest { arg: Box::new(id_pat("others")) },
    ]);
    let d = pat_to_param_def(None, &pat).ok().unwrap();
    match &d {
        ParamDef::Object { props, .. } => {
            assert_eq!(props.len(), 4);
            assert!(matches!(&props[0], ObjectPatPropDef::Assign { key, value: Some(v) }
                if key == "z" && v == "[UNSUPPORTED]"));
            assert!(matches!(&props[1], ObjectPatPropDef::KeyValue { key, .. } if key == "a"));
            assert!(matches!(&props[2], ObjectPatPropDef::Assign { key, value: None } if key == "m"));
            assert!(matches!(&props[3], ObjectPatPropDef::Rest { .. }));
        }
        _ => panic!("expected an object"),
    }
    assert_eq!(d.to_string(), "{z, a, m, ...others}");
}

#[test]
fn computed_key_shows_source_text() {
    let src = "function f({ [1+1]: x }) {}";
    let lo = src.find("1+1").unwrap();
    let key = PropName::Computed { lo, hi: lo + 3 };
    assert_eq!(prop_name_to_string(Some(src), &key), "1+1");
    let pat = object(vec![ObjectPatProp::KeyValue { key, value: Box::new(id_pat("x")) }]);
    assert_eq!(render(&pat, Some(src)), "{1+1}");
}

#[test]
fn computed_key_counts_characters_not_bytes() {
    let src = "é[k]";
    let key = PropName::Computed { lo: 2, hi: 3 };
    assert_eq!(prop_name_to_string(Some(src), &key), "k");
}

#[test]
fn computed_key_without_source_is_unavailable() {
    let key = PropName::Computed { lo: 0, hi: 3 };
    assert_eq!(prop_name_to_string(None, &key), "<UNAVAILABLE>");
    let pat = object(vec![ObjectPatProp::KeyValue { key, value: Box::new(id_pat("x")) }]);
    assert_eq!(render(&pat, None), "{<UNAVAILABLE>}");
}

#[test]
fn computed_key_outside_source_is_unavailable() {
    let key = PropName::Computed { lo: 2, hi: 9 };
    assert_eq!(prop_name_to_string(Some("abc"), &key), "<UNAVAILABLE>");
}

#[test]
fn literal_keys_give_their_text() {
    assert_eq!(prop_name_to_string(None, &PropName::Ident("foo".to_string())), "foo");
    assert_eq!(prop_name_to_string(None, &PropName::Str("a b".to_string())), "a b");
    assert_eq!(prop_name_to_string(None, &PropName::Num("1.5".to_string())), "1.5");
    assert_eq!(prop_name_to_string(None, &PropName::BigInt("10".to_string())), "10");
}

#[test]
fn default_value_is_not_shown() {
    let a = AssignPat { left: Box::new(id_pat("x")), type_ann: None };
    let d = assign_pat_to_param_def(None, &a).ok().unwrap();
    match &d {
        ParamDef::Assign { right, .. } => assert_eq!(right, "[UNSUPPORTED]"),
        _ => panic!("expected an assignment"),
    }
    assert_eq!(d.to_string(), "x");
    assert!(!d.to_string().contains("compute()"));
    let typed = AssignPat { left: Box::new(id_pat("x")), type_ann: ty("number") };
    assert_eq!(assign_pat_to_param_def(None, &typed).ok().unwrap().to_string(), "x: number");
}

#[test]
fn suffixes_of_each_kind() {
    let arr = Pat::Array(ArrayPat {
        elems: vec![Some(id_pat("a")), Some(id_pat("b"))],
        optional: true,
        type_ann: ty("[number, number]"),
    });
    assert_eq!(render(&arr, None), "[a, b]?: [number, number]");
    let obj = Pat::Object(ObjectPat {
        props: vec![key_value("k", id_pat("v"))],
        optional: true,
        type_ann: ty("T"),
    });
    assert_eq!(render(&obj, None), "{k}?: T");
    let r = Pat::Rest(RestPat { arg: Box::new(id_pat("xs")), type_ann: ty("string[]") });
    assert_eq!(render(&r, None), "...xs: string[]");
    assert_eq!(render(&array(vec![]), None), "[]");
    assert_eq!(render(&object(vec![]), None), "{}");
}

#[test]
fn unsupported_node_is_reported_by_span() {
    let pat = array(vec![Some(id_pat("a")), Some(Pat::Other { lo: 4, hi: 9 })]);
    match pat_to_param_def(None, &pat) {
        Err(ParamDefError::UnsupportedPattern { lo, hi }) => {
            assert_eq!((lo, hi), (4, 9));
        }
        Ok(_) => panic!("expected an error"),
    }
    let nested = object(vec![key_value("k", rest(Pat::Other { lo: 1, hi: 2 }))]);
    assert!(pat_to_param_def(None, &nested).is_err());
}

#[test]
fn function_type_params_convert() {
    let p = TsFnParam::Rest(RestPat { arg: Box::new(id_pat("args")), type_ann: ty("any[]") });
    assert_eq!(ts_fn_param_to_param_def(None, &p).ok().unwrap().to_string(), "...args: any[]");
    let q = TsFnParam::Ident(ident("n"));
    assert_eq!(ts_fn_param_to_param_def(None, &q).ok().unwrap().to_string(), "n");
    let o = TsFnParam::Object(ObjectPat { props: vec![], optional: false, type_ann: None });
    assert_eq!(ts_fn_param_to_param_def(None, &o).ok().unwrap().to_string(), "{}");
}
