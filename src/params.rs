//! Parameter descriptors and their canonical rendering.
use vstd::prelude::*;
use vstd::string::StringExecFns;

verus! {

broadcast use vstd::std_specs::vec::axiom_vec_index_decreases;

/// A type annotation, already rendered by the type-descriptor collaborator.
#[derive(Debug, Clone)]
pub struct TsTypeDef {
    pub repr: String,
}

/// The canonical descriptor of one binding pattern.
#[derive(Debug)]
pub enum ParamDef {
    Array { elements: Vec<Option<ParamDef>>, optional: bool, ts_type: Option<TsTypeDef> },
    Assign { left: Box<ParamDef>, right: String, ts_type: Option<TsTypeDef> },
    Identifier { name: String, optional: bool, ts_type: Option<TsTypeDef> },
    Object { props: Vec<ObjectPatPropDef>, optional: bool, ts_type: Option<TsTypeDef> },
    Rest { arg: Box<ParamDef>, ts_type: Option<TsTypeDef> },
}

/// The descriptor of one property of an object pattern.
#[derive(Debug)]
pub enum ObjectPatPropDef {
    Assign { key: String, value: Option<String> },
    KeyValue { key: String, value: Box<ParamDef> },
    Rest { arg: Box<ParamDef> },
}

/// `?` when the slot may be omitted, nothing otherwise.
pub open spec fn optional_text(optional: bool) -> Seq<char> {
    if optional {
        seq!['?']
    } else {
        seq![]
    }
}

/// `: T` for an annotation of type `T`, nothing without one.
pub open spec fn type_suffix(ts_type: Option<TsTypeDef>) -> Seq<char> {
    match ts_type {
        Some(t) => seq![':', ' '] + t.repr@,
        None => seq![],
    }
}

/// The parts joined, with `, ` between neighbours.
pub open spec fn join(parts: Seq<Seq<char>>) -> Seq<char>
    decreases parts.len(),
{
    if parts.len() == 0 {
        seq![]
    } else if parts.len() == 1 {
        parts[0]
    } else {
        join(parts.drop_last()) + seq![',', ' '] + parts.last()
    }
}

/// The rendering of a descriptor.
pub open spec fn param_text(d: ParamDef) -> Seq<char>
    decreases d,
{
    match d {
        ParamDef::Array { elements, optional, ts_type } => seq!['['] + join(slots_texts(elements))
            + seq![']'] + optional_text(optional) + type_suffix(ts_type),
        ParamDef::Assign { left, right, ts_type } => param_text(*left) + type_suffix(ts_type),
        ParamDef::Identifier { name, optional, ts_type } => name@ + optional_text(optional)
            + type_suffix(ts_type),
        ParamDef::Object { props, optional, ts_type } => seq!['{'] + join(props_texts(props))
            + seq!['}'] + optional_text(optional) + type_suffix(ts_type),
        ParamDef::Rest { arg, ts_type } => seq!['.', '.', '.'] + param_text(*arg) + type_suffix(
            ts_type,
        ),
    }
}

/// The rendering of an array slot: empty for an elided one.
pub open spec fn slot_text(slot: Option<ParamDef>) -> Seq<char>
    decreases slot,
{
    match slot {
        Some(d) => param_text(d),
        None => seq![],
    }
}

/// The renderings of the slots of an array pattern, in order.
pub open spec fn slots_texts(elements: Vec<Option<ParamDef>>) -> Seq<Seq<char>>
    decreases elements,
{
    Seq::new(
        elements.len() as nat,
        |i: int|
            if 0 <= i < elements.len() {
                slot_text(elements[i])
            } else {
                seq![]
            },
    )
}

/// The rendering of a property: its key, or `...` and the rest target.
pub open spec fn prop_text(p: ObjectPatPropDef) -> Seq<char>
    decreases p,
{
    match p {
        ObjectPatPropDef::Assign { key, value } => key@,
        ObjectPatPropDef::KeyValue { key, value } => key@,
        ObjectPatPropDef::Rest { arg } => seq!['.', '.', '.'] + param_text(*arg),
    }
}

/// The renderings of the properties of an object pattern, in order.
pub open spec fn props_texts(props: Vec<ObjectPatPropDef>) -> Seq<Seq<char>>
    decreases props,
{
    Seq::new(
        props.len() as nat,
        |i: int|
            if 0 <= i < props.len() {
                prop_text(props[i])
            } else {
                seq![]
            },
    )
}


/// Appends `: T` when an annotation is present.
fn push_type_suffix(out: &mut String, ts_type: &Option<TsTypeDef>)
    ensures
        final(out)@ == old(out)@ + type_suffix(*ts_type),
{
    match ts_type {
        Some(t) => {
            proof { reveal_strlit(": "); }
 out.append(": ");
            out.append(t.repr.as_str());
        },
        None => {},
    }
}

/// Appends `?` when the slot may be omitted.
fn push_optional(out: &mut String, optional: bool)
    ensures
        final(out)@ == old(out)@ + optional_text(optional),
{
    if optional {
        proof { reveal_strlit("?"); }
 out.append("?");
    }
}

impl ParamDef {
    /// The signature text of this descriptor.
    pub fn to_string(&self) -> (r: String)
        ensures
            r@ == param_text(*self),
        decreases self,
    {
        match self {
            ParamDef::Array { elements, optional, ts_type } => {
                let mut out = String::from_str("[");
 proof { reveal_strlit("["); }
                let ghost texts = slots_texts(*elements);
                let mut i: usize = 0;
                while i < elements.len()
                    invariant
                        0 <= i <= elements.len(),
                        texts == slots_texts(*elements),
                        self is Array,
                        self->elements == *elements,
                        out@ == seq!['['] + join(texts.take(i as int)),
                    decreases elements.len() - i,
                {
                    if i > 0 {
                        proof { reveal_strlit(", "); }
 out.append(", ");
                    }
                    match &elements[i] {
                        Some(v) => {
                            proof {
                                 assert(decreases_to!(*self => self->elements));
                                assert(decreases_to!(*elements => elements[i as int]));
                                assert(decreases_to!(elements[i as int] => *v));
                            }
                            let t = v.to_string();
                            out.append(t.as_str());
                        },
                        None => {},
                    }
                    proof {
                        assert(texts.take(i + 1).drop_last() =~= texts.take(i as int));
                    }
                    i = i + 1;
                }
                assert(texts.take(i as int) =~= texts);
                proof { reveal_strlit("]"); }
 out.append("]");
                push_optional(&mut out, *optional);
                push_type_suffix(&mut out, ts_type);
                out
            },
            ParamDef::Assign { left, right, ts_type } => {
                let mut out = left.to_string();
                push_type_suffix(&mut out, ts_type);
                out
            },
            ParamDef::Identifier { name, optional, ts_type } => {
                let mut out = name.clone();
                push_optional(&mut out, *optional);
                push_type_suffix(&mut out, ts_type);
                out
            },
            ParamDef::Object { props, optional, ts_type } => {
                let mut out = String::from_str("{");
 proof { reveal_strlit("{"); }
                let ghost texts = props_texts(*props);
                let mut i: usize = 0;
                while i < props.len()
                    invariant
                        0 <= i <= props.len(),
                        texts == props_texts(*props),
                        self is Object,
                        self->props == *props,
                        out@ == seq!['{'] + join(texts.take(i as int)),
                    decreases props.len() - i,
                {
                    if i > 0 {
                        proof { reveal_strlit(", "); }
 out.append(", ");
                    }
                    proof {
                         assert(decreases_to!(*self => self->props));
                        assert(decreases_to!(*props => props[i as int]));
                    }
                    let t = props[i].to_string();
                    out.append(t.as_str());
                    proof {
                        assert(texts.take(i + 1).drop_last() =~= texts.take(i as int));
                    }
                    i = i + 1;
                }
                assert(texts.take(i as int) =~= texts);
                proof { reveal_strlit("}"); }
 out.append("}");
                push_optional(&mut out, *optional);
                push_type_suffix(&mut out, ts_type);
                out
            },
            ParamDef::Rest { arg, ts_type } => {
                let mut out = String::from_str("...");
 proof { reveal_strlit("..."); }
                let t = arg.to_string();
                out.append(t.as_str());
                push_type_suffix(&mut out, ts_type);
                out
            },
        }
    }
}

impl ObjectPatPropDef {
    /// The signature text of this property.
    pub fn to_string(&self) -> (r: String)
        ensures
            r@ == prop_text(*self),
        decreases self,
    {
        match self {
            ObjectPatPropDef::Assign { key, value } => key.clone(),
            ObjectPatPropDef::KeyValue { key, value } => key.clone(),
            ObjectPatPropDef::Rest { arg } => {
                let mut out = String::from_str("...");
 proof { reveal_strlit("..."); }
                let t = arg.to_string();
                out.append(t.as_str());
                out
            },
        }
    }
}

} // verus!
