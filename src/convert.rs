//! Conversion of binding patterns into parameter descriptors.
use vstd::prelude::*;
use vstd::string::StrSliceExecFns;
use vstd::string::StringExecFns;

use crate::params::{ObjectPatPropDef, ParamDef, TsTypeDef};
use crate::pattern::{
    ArrayPat, AssignPat, BindingIdent, ObjectPat, ObjectPatProp, Pat, PropName, RestPat, TsFnParam,
};

verus! {

broadcast use vstd::std_specs::vec::axiom_vec_index_decreases;

/// The placeholder recorded in place of a default-value expression.
pub open spec fn unsupported_text() -> Seq<char> {
    "[UNSUPPORTED]"@
}

/// The placeholder for a computed key whose source text cannot be had.
pub open spec fn unavailable_text() -> Seq<char> {
    "<UNAVAILABLE>"@
}

/// The characters of the source text handle, if one was supplied.
pub open spec fn source_view(parsed_source: Option<&str>) -> Option<Seq<char>> {
    match parsed_source {
        Some(s) => Some(s@),
        None => None,
    }
}

/// A pattern met where the grammar allows no such kind.
#[derive(Debug, Clone)]
pub enum ParamDefError {
    /// The offending node, by the character span it covers.
    UnsupportedPattern { lo: usize, hi: usize },
}

/// The visible text of a property key. A computed key gives the source text
/// of its span when the source is at hand and the span lies within it.
pub open spec fn prop_name_text(src: Option<Seq<char>>, key: PropName) -> Seq<char> {
    match key {
        PropName::Ident(s) => s@,
        PropName::Str(s) => s@,
        PropName::Num(s) => s@,
        PropName::BigInt(s) => s@,
        PropName::Computed { lo, hi } => match src {
            Some(t) => if lo <= hi <= t.len() {
                t.subrange(lo as int, hi as int)
            } else {
                unavailable_text()
            },
            None => unavailable_text(),
        },
    }
}

/// Every entry holds.
pub open spec fn all_true(s: Seq<bool>) -> bool {
    forall|i: int| 0 <= i < s.len() ==> #[trigger] s[i]
}

/// Some entry holds.
pub open spec fn any_true(s: Seq<bool>) -> bool {
    exists|i: int| 0 <= i < s.len() && #[trigger] s[i]
}

/// Every node of the pattern is of a kind that a binding pattern may hold.
pub open spec fn pat_supported(p: Pat) -> bool
    decreases p,
{
    match p {
        Pat::Ident(_) => true,
        Pat::Array(a) => all_true(slots_supported(a.elems)),
        Pat::Rest(r) => pat_supported(*r.arg),
        Pat::Object(o) => all_true(props_supported(o.props)),
        Pat::Assign(a) => pat_supported(*a.left),
        Pat::Other { .. } => false,
    }
}

/// An array slot is supported when elided or when its pattern is.
pub open spec fn slot_supported(slot: Option<Pat>) -> bool
    decreases slot,
{
    match slot {
        Some(p) => pat_supported(p),
        None => true,
    }
}

/// Slot by slot, whether each slot of an array pattern is supported.
pub open spec fn slots_supported(elems: Vec<Option<Pat>>) -> Seq<bool>
    decreases elems,
{
    Seq::new(
        elems.len() as nat,
        |i: int|
            if 0 <= i < elems.len() {
                slot_supported(elems[i])
            } else {
                true
            },
    )
}

/// A property is supported when the patterns it holds are.
pub open spec fn prop_supported(prop: ObjectPatProp) -> bool
    decreases prop,
{
    match prop {
        ObjectPatProp::Assign { .. } => true,
        ObjectPatProp::KeyValue { key, value } => pat_supported(*value),
        ObjectPatProp::Rest { arg } => pat_supported(*arg),
    }
}

/// Property by property, whether each is supported.
pub open spec fn props_supported(props: Vec<ObjectPatProp>) -> Seq<bool>
    decreases props,
{
    Seq::new(
        props.len() as nat,
        |i: int|
            if 0 <= i < props.len() {
                prop_supported(props[i])
            } else {
                true
            },
    )
}

/// The pattern holds a node of another kind that covers `lo..hi`.
pub open spec fn unsupported_at(p: Pat, lo: usize, hi: usize) -> bool
    decreases p,
{
    match p {
        Pat::Ident(_) => false,
        Pat::Array(a) => any_true(slots_unsupported_at(a.elems, lo, hi)),
        Pat::Rest(r) => unsupported_at(*r.arg, lo, hi),
        Pat::Object(o) => any_true(props_unsupported_at(o.props, lo, hi)),
        Pat::Assign(a) => unsupported_at(*a.left, lo, hi),
        Pat::Other { lo: l, hi: h } => l == lo && h == hi,
    }
}

/// The slot's pattern holds an unsupported node that covers `lo..hi`.
pub open spec fn slot_unsupported_at(slot: Option<Pat>, lo: usize, hi: usize) -> bool
    decreases slot,
{
    match slot {
        Some(p) => unsupported_at(p, lo, hi),
        None => false,
    }
}

/// Slot by slot, whether it holds an unsupported node that covers `lo..hi`.
pub open spec fn slots_unsupported_at(elems: Vec<Option<Pat>>, lo: usize, hi: usize) -> Seq<bool>
    decreases elems,
{
    Seq::new(
        elems.len() as nat,
        |i: int|
            if 0 <= i < elems.len() {
                slot_unsupported_at(elems[i], lo, hi)
            } else {
                false
            },
    )
}

/// The property's pattern holds an unsupported node that covers `lo..hi`.
pub open spec fn prop_unsupported_at(prop: ObjectPatProp, lo: usize, hi: usize) -> bool
    decreases prop,
{
    match prop {
        ObjectPatProp::Assign { .. } => false,
        ObjectPatProp::KeyValue { key, value } => unsupported_at(*value, lo, hi),
        ObjectPatProp::Rest { arg } => unsupported_at(*arg, lo, hi),
    }
}

/// Property by property, whether it holds an unsupported node that covers `lo..hi`.
pub open spec fn props_unsupported_at(props: Vec<ObjectPatProp>, lo: usize, hi: usize) -> Seq<bool>
    decreases props,
{
    Seq::new(
        props.len() as nat,
        |i: int|
            if 0 <= i < props.len() {
                prop_unsupported_at(props[i], lo, hi)
            } else {
                false
            },
    )
}

/// What a conversion that fails reports: the pattern is not supported, and
/// the error names the span of one of its offending nodes.
pub open spec fn reports(p: Pat, e: ParamDefError) -> bool {
    match e {
        ParamDefError::UnsupportedPattern { lo, hi } => !pat_supported(p) && unsupported_at(p, lo, hi),
    }
}

/// The descriptor of a simple name.
pub open spec fn ident_def(b: BindingIdent) -> ParamDef {
    ParamDef::Identifier { name: b.name, optional: b.optional, ts_type: b.type_ann }
}

/// `d` is the descriptor of pattern `p`, with `src` the source text at hand.
pub open spec fn param_def_of(src: Option<Seq<char>>, p: Pat, d: ParamDef) -> bool
    decreases p,
{
    match p {
        Pat::Ident(b) => d == ident_def(b),
        Pat::Array(a) => match d {
            ParamDef::Array { elements, optional, ts_type } => {
                &&& optional == a.optional
                &&& ts_type == a.type_ann
                &&& elements.len() == a.elems.len()
                &&& all_true(slots_def_of(src, a.elems, elements))
            },
            _ => false,
        },
        Pat::Rest(r) => match d {
            ParamDef::Rest { arg, ts_type } => ts_type == r.type_ann && param_def_of(src, *r.arg, *arg),
            _ => false,
        },
        Pat::Object(o) => match d {
            ParamDef::Object { props, optional, ts_type } => {
                &&& optional == o.optional
                &&& ts_type == o.type_ann
                &&& props.len() == o.props.len()
                &&& all_true(props_def_of(src, o.props, props))
            },
            _ => false,
        },
        Pat::Assign(a) => match d {
            ParamDef::Assign { left, right, ts_type } => {
                &&& ts_type == a.type_ann
                &&& right@ == unsupported_text()
                &&& param_def_of(src, *a.left, *left)
            },
            _ => false,
        },
        Pat::Other { .. } => false,
    }
}

/// `d` is the descriptor of an array slot: elided slots stay elided.
pub open spec fn slot_def_of(src: Option<Seq<char>>, slot: Option<Pat>, d: Option<ParamDef>) -> bool
    decreases slot,
{
    match slot {
        Some(p) => d is Some && param_def_of(src, p, d->0),
        None => d is None,
    }
}

/// Slot by slot, whether `elements` describes `elems`.
pub open spec fn slots_def_of(
    src: Option<Seq<char>>,
    elems: Vec<Option<Pat>>,
    elements: Vec<Option<ParamDef>>,
) -> Seq<bool>
    decreases elems,
{
    Seq::new(
        elems.len() as nat,
        |i: int|
            if 0 <= i < elems.len() {
                slot_def_of(src, elems[i], elements[i])
            } else {
                false
            },
    )
}

/// `d` is the descriptor of an object pattern's property.
pub open spec fn prop_def_of(src: Option<Seq<char>>, prop: ObjectPatProp, d: ObjectPatPropDef) -> bool
    decreases prop,
{
    match prop {
        ObjectPatProp::Assign { key, has_value } => match d {
            ObjectPatPropDef::Assign { key: k, value } => {
                &&& k == key
                &&& value is Some == has_value
                &&& value is Some ==> value->0@ == unsupported_text()
            },
            _ => false,
        },
        ObjectPatProp::KeyValue { key, value } => match d {
            ObjectPatPropDef::KeyValue { key: k, value: v } => {
                &&& k@ == prop_name_text(src, key)
                &&& param_def_of(src, *value, *v)
            },
            _ => false,
        },
        ObjectPatProp::Rest { arg } => match d {
            ObjectPatPropDef::Rest { arg: a } => param_def_of(src, *arg, *a),
            _ => false,
        },
    }
}

/// Property by property, whether `defs` describes `props`.
pub open spec fn props_def_of(
    src: Option<Seq<char>>,
    props: Vec<ObjectPatProp>,
    defs: Vec<ObjectPatPropDef>,
) -> Seq<bool>
    decreases props,
{
    Seq::new(
        props.len() as nat,
        |i: int|
            if 0 <= i < props.len() {
                prop_def_of(src, props[i], defs[i])
            } else {
                false
            },
    )
}

/// A copy of a type annotation.
fn copy_type(ts_type: &Option<TsTypeDef>) -> (r: Option<TsTypeDef>)
    ensures
        r == *ts_type,
{
    match ts_type {
        Some(t) => Some(TsTypeDef { repr: t.repr.clone() }),
        None => None,
    }
}

/// The placeholder recorded in place of a default-value expression.
fn unsupported_placeholder() -> (r: String)
    ensures
        r@ == unsupported_text(),
{
    proof {
        reveal_strlit("[UNSUPPORTED]");
    }
    String::from_str("[UNSUPPORTED]")
}

/// The descriptor of a simple name.
pub fn ident_to_param_def(parsed_source: Option<&str>, ident: &BindingIdent) -> (r: ParamDef)
    ensures
        r == ident_def(*ident),
        param_def_of(source_view(parsed_source), Pat::Ident(*ident), r),
{
    ParamDef::Identifier {
        name: ident.name.clone(),
        optional: ident.optional,
        ts_type: copy_type(&ident.type_ann),
    }
}

/// The descriptor of a rest pattern.
fn rest_pat_to_param_def(parsed_source: Option<&str>, rest_pat: &RestPat) -> (r: Result<
    ParamDef,
    ParamDefError,
>)
    ensures
        match r {
            Ok(d) => pat_supported(Pat::Rest(*rest_pat)) && param_def_of(
                source_view(parsed_source),
                Pat::Rest(*rest_pat),
                d,
            ),
            Err(e) => reports(Pat::Rest(*rest_pat), e),
        },
    decreases rest_pat, 0nat,
{
    match pat_to_param_def(parsed_source, &rest_pat.arg) {
        Ok(arg) => Ok(ParamDef::Rest { arg: Box::new(arg), ts_type: copy_type(&rest_pat.type_ann) }),
        Err(e) => Err(e),
    }
}

/// The descriptor of a default-value pattern; the default's expression is
/// recorded by a placeholder only.
pub fn assign_pat_to_param_def(parsed_source: Option<&str>, assign_pat: &AssignPat) -> (r: Result<
    ParamDef,
    ParamDefError,
>)
    ensures
        match r {
            Ok(d) => pat_supported(Pat::Assign(*assign_pat)) && param_def_of(
                source_view(parsed_source),
                Pat::Assign(*assign_pat),
                d,
            ),
            Err(e) => reports(Pat::Assign(*assign_pat), e),
        },
    decreases assign_pat, 0nat,
{
    match pat_to_param_def(parsed_source, &assign_pat.left) {
        Ok(left) => Ok(
            ParamDef::Assign {
                left: Box::new(left),
                right: unsupported_placeholder(),
                ts_type: copy_type(&assign_pat.type_ann),
            },
        ),
        Err(e) => Err(e),
    }
}

/// The descriptor of a binding pattern, converting every nested pattern.
/// A node of a kind that no binding pattern holds is reported by its span.
pub fn pat_to_param_def(parsed_source: Option<&str>, pat: &Pat) -> (r: Result<
    ParamDef,
    ParamDefError,
>)
    ensures
        match r {
            Ok(d) => pat_supported(*pat) && param_def_of(source_view(parsed_source), *pat, d),
            Err(e) => reports(*pat, e),
        },
    decreases pat, 1nat,
{
    match pat {
        Pat::Ident(ident) => Ok(ident_to_param_def(parsed_source, ident)),
        Pat::Array(array_pat) => array_pat_to_param_def(parsed_source, array_pat),
        Pat::Rest(rest_pat) => rest_pat_to_param_def(parsed_source, rest_pat),
        Pat::Object(object_pat) => object_pat_to_param_def(parsed_source, object_pat),
        Pat::Assign(assign_pat) => assign_pat_to_param_def(parsed_source, assign_pat),
        Pat::Other { lo, hi } => Err(ParamDefError::UnsupportedPattern { lo: *lo, hi: *hi }),
    }
}

/// What a property conversion that fails reports.
pub open spec fn prop_reports(prop: ObjectPatProp, e: ParamDefError) -> bool {
    match e {
        ParamDefError::UnsupportedPattern { lo, hi } => !prop_supported(prop) && prop_unsupported_at(
            prop,
            lo,
            hi,
        ),
    }
}

/// The descriptor of one property of an object pattern.
fn object_pat_prop_to_def(parsed_source: Option<&str>, object_pat_prop: &ObjectPatProp) -> (r:
    Result<ObjectPatPropDef, ParamDefError>)
    ensures
        match r {
            Ok(d) => prop_supported(*object_pat_prop) && prop_def_of(
                source_view(parsed_source),
                *object_pat_prop,
                d,
            ),
            Err(e) => prop_reports(*object_pat_prop, e),
        },
    decreases object_pat_prop, 0nat,
{
    match object_pat_prop {
        ObjectPatProp::Assign { key, has_value } => {
            let value = if *has_value {
                Some(unsupported_placeholder())
            } else {
                None
            };
            Ok(ObjectPatPropDef::Assign { key: key.clone(), value })
        },
        ObjectPatProp::KeyValue { key, value } => match pat_to_param_def(parsed_source, value) {
            Ok(v) => Ok(
                ObjectPatPropDef::KeyValue {
                    key: prop_name_to_string(parsed_source, key),
                    value: Box::new(v),
                },
            ),
            Err(e) => Err(e),
        },
        ObjectPatProp::Rest { arg } => match pat_to_param_def(parsed_source, arg) {
            Ok(a) => Ok(ObjectPatPropDef::Rest { arg: Box::new(a) }),
            Err(e) => Err(e),
        },
    }
}

/// The descriptor of an object pattern, its properties in declaration order.
fn object_pat_to_param_def(parsed_source: Option<&str>, object_pat: &ObjectPat) -> (r: Result<
    ParamDef,
    ParamDefError,
>)
    ensures
        match r {
            Ok(d) => pat_supported(Pat::Object(*object_pat)) && param_def_of(
                source_view(parsed_source),
                Pat::Object(*object_pat),
                d,
            ),
            Err(e) => reports(Pat::Object(*object_pat), e),
        },
    decreases object_pat, 0nat,
{
    let ghost src = source_view(parsed_source);
    let mut props: Vec<ObjectPatPropDef> = Vec::new();
    let mut i: usize = 0;
    while i < object_pat.props.len()
        invariant
            0 <= i <= object_pat.props.len(),
            src == source_view(parsed_source),
            props.len() == i,
            forall|j: int|
                0 <= j < i ==> #[trigger] prop_supported(object_pat.props[j]) && prop_def_of(
                    src,
                    object_pat.props[j],
                    props[j],
                ),
        decreases object_pat.props.len() - i,
    {
        proof {
            assert(decreases_to!(object_pat.props => object_pat.props[i as int]));
        }
        match object_pat_prop_to_def(parsed_source, &object_pat.props[i]) {
            Ok(d) => props.push(d),
            Err(e) => {
                proof {
                    let j = i as int;
                    let ParamDefError::UnsupportedPattern { lo, hi } = e;
                    assert(!props_supported(object_pat.props)[j]);
                    assert(props_unsupported_at(object_pat.props, lo, hi)[j]);
                }
                return Err(e);
            },
        }
        i = i + 1;
    }
    proof {
        assert forall|k: int| 0 <= k < object_pat.props.len() implies #[trigger] props_supported(
            object_pat.props,
        )[k] by {
            assert(prop_supported(object_pat.props[k]));
        }
        assert forall|k: int| 0 <= k < object_pat.props.len() implies #[trigger] props_def_of(
            src,
            object_pat.props,
            props,
        )[k] by {
            assert(prop_supported(object_pat.props[k]));
            assert(prop_def_of(src, object_pat.props[k], props[k]));
        }
    }
    let ts_type = copy_type(&object_pat.type_ann);
    let r = ParamDef::Object { props, optional: object_pat.optional, ts_type };
    assert(all_true(props_supported(object_pat.props)));
    assert(pat_supported(Pat::Object(*object_pat)));
    assert(all_true(props_def_of(src, object_pat.props, r->props)));
    assert(param_def_of(src, Pat::Object(*object_pat), r));
    Ok(r)
}

/// The descriptor of an array pattern, elided slots kept in place.
fn array_pat_to_param_def(parsed_source: Option<&str>, array_pat: &ArrayPat) -> (r: Result<
    ParamDef,
    ParamDefError,
>)
    ensures
        match r {
            Ok(d) => pat_supported(Pat::Array(*array_pat)) && param_def_of(
                source_view(parsed_source),
                Pat::Array(*array_pat),
                d,
            ),
            Err(e) => reports(Pat::Array(*array_pat), e),
        },
    decreases array_pat, 0nat,
{
    let ghost src = source_view(parsed_source);
    let mut elements: Vec<Option<ParamDef>> = Vec::new();
    let mut i: usize = 0;
    while i < array_pat.elems.len()
        invariant
            0 <= i <= array_pat.elems.len(),
            src == source_view(parsed_source),
            elements.len() == i,
            forall|j: int|
                0 <= j < i ==> #[trigger] slot_supported(array_pat.elems[j]) && slot_def_of(
                    src,
                    array_pat.elems[j],
                    elements[j],
                ),
        decreases array_pat.elems.len() - i,
    {
        match &array_pat.elems[i] {
            Some(p) => {
                proof {
                    assert(decreases_to!(array_pat.elems => array_pat.elems[i as int]));
                    assert(decreases_to!(array_pat.elems[i as int] => *p));
                }
                match pat_to_param_def(parsed_source, p) {
                    Ok(d) => elements.push(Some(d)),
                    Err(e) => {
                        proof {
                            let j = i as int;
                            let ParamDefError::UnsupportedPattern { lo, hi } = e;
                            assert(!slots_supported(array_pat.elems)[j]);
                            assert(slots_unsupported_at(array_pat.elems, lo, hi)[j]);
                        }
                        return Err(e);
                    },
                }
            },
            None => elements.push(None),
        }
        i = i + 1;
    }
    proof {
        assert forall|k: int| 0 <= k < array_pat.elems.len() implies #[trigger] slots_supported(
            array_pat.elems,
        )[k] by {
            assert(slot_supported(array_pat.elems[k]));
        }
        assert forall|k: int| 0 <= k < array_pat.elems.len() implies #[trigger] slots_def_of(
            src,
            array_pat.elems,
            elements,
        )[k] by {
            assert(slot_supported(array_pat.elems[k]));
            assert(slot_def_of(src, array_pat.elems[k], elements[k]));
        }
    }
    let ts_type = copy_type(&array_pat.type_ann);
    let r = ParamDef::Array { elements, optional: array_pat.optional, ts_type };
    assert(all_true(slots_supported(array_pat.elems)));
    assert(pat_supported(Pat::Array(*array_pat)));
    assert(all_true(slots_def_of(src, array_pat.elems, r->elements)));
    assert(param_def_of(src, Pat::Array(*array_pat), r));
    Ok(r)
}

/// The descriptor of a function type's parameter.
pub fn ts_fn_param_to_param_def(parsed_source: Option<&str>, ts_fn_param: &TsFnParam) -> (r:
    Result<ParamDef, ParamDefError>)
    ensures
        match r {
            Ok(d) => pat_supported(fn_param_pat(*ts_fn_param)) && param_def_of(
                source_view(parsed_source),
                fn_param_pat(*ts_fn_param),
                d,
            ),
            Err(e) => reports(fn_param_pat(*ts_fn_param), e),
        },
{
    match ts_fn_param {
        TsFnParam::Ident(ident) => Ok(ident_to_param_def(parsed_source, ident)),
        TsFnParam::Array(array_pat) => array_pat_to_param_def(parsed_source, array_pat),
        TsFnParam::Rest(rest_pat) => rest_pat_to_param_def(parsed_source, rest_pat),
        TsFnParam::Object(object_pat) => object_pat_to_param_def(parsed_source, object_pat),
    }
}

/// The binding pattern that a function type's parameter is.
pub open spec fn fn_param_pat(p: TsFnParam) -> Pat {
    match p {
        TsFnParam::Ident(b) => Pat::Ident(b),
        TsFnParam::Array(a) => Pat::Array(a),
        TsFnParam::Rest(r) => Pat::Rest(r),
        TsFnParam::Object(o) => Pat::Object(o),
    }
}

/// The visible text of a property key; never fails.
pub fn prop_name_to_string(parsed_source: Option<&str>, prop_name: &PropName) -> (r: String)
    ensures
        r@ == prop_name_text(source_view(parsed_source), *prop_name),
{
    match prop_name {
        PropName::Ident(s) => s.clone(),
        PropName::Str(s) => s.clone(),
        PropName::Num(s) => s.clone(),
        PropName::BigInt(s) => s.clone(),
        PropName::Computed { lo, hi } => {
            proof {
                reveal_strlit("<UNAVAILABLE>");
            }
            match parsed_source {
                Some(text) => {
                    let n = text.unicode_len();
                    if *lo <= *hi && *hi <= n {
                        String::from_str(text.substring_char(*lo, *hi))
                    } else {
                        String::from_str("<UNAVAILABLE>")
                    }
                },
                None => String::from_str("<UNAVAILABLE>"),
            }
        },
    }
}

} // verus!
