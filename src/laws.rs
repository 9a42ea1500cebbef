//! General facts about conversion and rendering, proved from the contracts
//! of the converter and the renderer.
use vstd::prelude::*;

use crate::convert::{
    param_def_of, prop_def_of, prop_name_text, props_def_of, slots_def_of,
};
use crate::params::{
    join, optional_text, param_text, prop_text, props_texts, slots_texts, type_suffix,
    ObjectPatPropDef, ParamDef,
};
use crate::pattern::{ArrayPat, AssignPat, BindingIdent, ObjectPat, ObjectPatProp, Pat};

verus! {

/// A simple name renders as its name, then `?` exactly when it is optional,
/// then its type; no default or rest marker appears.
pub proof fn lemma_ident_rendering(src: Option<Seq<char>>, b: BindingIdent, d: ParamDef)
    requires
        param_def_of(src, Pat::Ident(b), d),
    ensures
        param_text(d) == b.name@ + optional_text(b.optional) + type_suffix(b.type_ann),
        b.optional ==> param_text(d) == b.name@ + seq!['?'] + type_suffix(b.type_ann),
{
}

/// Array slots keep their places: the descriptor has one slot per slot of
/// the pattern, elided exactly where the pattern's slot is elided.
pub proof fn lemma_array_slots_in_place(src: Option<Seq<char>>, a: ArrayPat, d: ParamDef)
    requires
        param_def_of(src, Pat::Array(a), d),
    ensures
        d is Array,
        d->elements.len() == a.elems.len(),
        forall|i: int|
            0 <= i < a.elems.len() ==> (#[trigger] d->elements[i] is None <==> a.elems[i] is None),
        forall|i: int|
            0 <= i < a.elems.len() && a.elems[i] is None ==> #[trigger] slots_texts(d->elements)[i]
                == Seq::<char>::empty(),
{
    assert forall|i: int| 0 <= i < a.elems.len() implies (#[trigger] d->elements[i] is None
        <==> a.elems[i] is None) by {
        assert(slots_def_of(src, a.elems, d->elements)[i]);
    }
    assert forall|i: int| 0 <= i < a.elems.len() && a.elems[i] is None implies #[trigger] slots_texts(
        d->elements,
    )[i] == Seq::<char>::empty() by {
        assert(slots_def_of(src, a.elems, d->elements)[i]);
    }
}

/// Object properties keep their declaration order: the i-th descriptor
/// describes the i-th property, and the rendering lists them in that order.
pub proof fn lemma_object_props_in_order(src: Option<Seq<char>>, o: ObjectPat, d: ParamDef)
    requires
        param_def_of(src, Pat::Object(o), d),
    ensures
        d is Object,
        d->props.len() == o.props.len(),
        forall|i: int|
            0 <= i < o.props.len() ==> #[trigger] prop_def_of(src, o.props[i], d->props[i]),
        param_text(d) == seq!['{'] + join(props_texts(d->props)) + seq!['}'] + optional_text(
            o.optional,
        ) + type_suffix(o.type_ann),
        forall|i: int|
            0 <= i < o.props.len() ==> #[trigger] props_texts(d->props)[i] == prop_text(d->props[i]),
{
    assert forall|i: int| 0 <= i < o.props.len() implies #[trigger] prop_def_of(
        src,
        o.props[i],
        d->props[i],
    ) by {
        assert(props_def_of(src, o.props, d->props)[i]);
    }
}

/// A property renders as its visible key: the key's text for `key: value`
/// (the source text of a computed key, or the placeholder without it), the
/// name for the shorthand whether or not it has a default, and `...` with the
/// target for a rest property.
pub proof fn lemma_prop_rendering(src: Option<Seq<char>>, prop: ObjectPatProp, d: ObjectPatPropDef)
    requires
        prop_def_of(src, prop, d),
    ensures
        match prop {
            ObjectPatProp::Assign { key, has_value } => prop_text(d) == key@,
            ObjectPatProp::KeyValue { key, value } => prop_text(d) == prop_name_text(src, key),
            ObjectPatProp::Rest { arg } => d is Rest && prop_text(d) == seq!['.', '.', '.']
                + param_text(*d->arg),
        },
{
}

/// A default value never shows: a pattern with a default renders as its
/// target and its type, whatever the default expression was.
pub proof fn lemma_default_hidden(src: Option<Seq<char>>, a: AssignPat, d: ParamDef)
    requires
        param_def_of(src, Pat::Assign(a), d),
    ensures
        d is Assign,
        param_def_of(src, *a.left, *d->left),
        param_text(d) == param_text(*d->left) + type_suffix(a.type_ann),
{
}

} // verus!
