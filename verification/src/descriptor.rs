//! Type descriptors: the shape of a typed value without its contents.

use crate::value::{TypedValue, ValueModel};
use vstd::prelude::*;

verus! {

/// The type of a value crossing a component boundary.
#[derive(Debug, PartialEq, Eq)]
pub enum TypeDescriptor {
    Bool,
    U8,
    U16,
    U32,
    U64,
    S8,
    S16,
    S32,
    S64,
    Float32,
    Float64,
    Char,
    Str,
    List(Box<TypeDescriptor>),
    Tuple(Vec<TypeDescriptor>),
    Record(Vec<(String, TypeDescriptor)>),
    Variant(Vec<(String, Option<TypeDescriptor>)>),
    Opt(Box<TypeDescriptor>),
    Res(Box<TypeDescriptor>, Box<TypeDescriptor>),
    Handle,
}

/// What a `TypeDescriptor` denotes.
pub ghost enum DescriptorModel {
    Bool,
    U8,
    U16,
    U32,
    U64,
    S8,
    S16,
    S32,
    S64,
    Float32,
    Float64,
    Char,
    Str,
    List(Box<DescriptorModel>),
    Tuple(Seq<DescriptorModel>),
    Record(Seq<(Seq<char>, DescriptorModel)>),
    Variant(Seq<(Seq<char>, Option<DescriptorModel>)>),
    Opt(Box<DescriptorModel>),
    Res(Box<DescriptorModel>, Box<DescriptorModel>),
    Handle,
}

impl TypeDescriptor {
    /// The denotation of this descriptor.
    pub open spec fn model(&self) -> DescriptorModel
        decreases self,
    {
        match self {
            TypeDescriptor::Bool => DescriptorModel::Bool,
            TypeDescriptor::U8 => DescriptorModel::U8,
            TypeDescriptor::U16 => DescriptorModel::U16,
            TypeDescriptor::U32 => DescriptorModel::U32,
            TypeDescriptor::U64 => DescriptorModel::U64,
            TypeDescriptor::S8 => DescriptorModel::S8,
            TypeDescriptor::S16 => DescriptorModel::S16,
            TypeDescriptor::S32 => DescriptorModel::S32,
            TypeDescriptor::S64 => DescriptorModel::S64,
            TypeDescriptor::Float32 => DescriptorModel::Float32,
            TypeDescriptor::Float64 => DescriptorModel::Float64,
            TypeDescriptor::Char => DescriptorModel::Char,
            TypeDescriptor::Str => DescriptorModel::Str,
            TypeDescriptor::List(item) => DescriptorModel::List(Box::new(item.model())),
            TypeDescriptor::Tuple(items) => DescriptorModel::Tuple(
                Seq::new(
                    items.len() as nat,
                    |i: int|
                        if 0 <= i < items.len() {
                            items[i].model()
                        } else {
                            DescriptorModel::Bool
                        },
                ),
            ),
            TypeDescriptor::Record(fields) => DescriptorModel::Record(
                Seq::new(
                    fields.len() as nat,
                    |i: int|
                        if 0 <= i < fields.len() {
                            (fields[i].0@, fields[i].1.model())
                        } else {
                            (Seq::empty(), DescriptorModel::Bool)
                        },
                ),
            ),
            TypeDescriptor::Variant(cases) => DescriptorModel::Variant(
                Seq::new(
                    cases.len() as nat,
                    |i: int|
                        if 0 <= i < cases.len() {
                            (
                                cases[i].0@,
                                match cases[i].1 {
                                    Some(payload) => Some(payload.model()),
                                    None => None,
                                },
                            )
                        } else {
                            (Seq::empty(), None)
                        },
                ),
            ),
            TypeDescriptor::Opt(item) => DescriptorModel::Opt(Box::new(item.model())),
            TypeDescriptor::Res(ok, err) => DescriptorModel::Res(
                Box::new(ok.model()),
                Box::new(err.model()),
            ),
            TypeDescriptor::Handle => DescriptorModel::Handle,
        }
    }
}

impl View for TypeDescriptor {
    type V = DescriptorModel;

    open spec fn view(&self) -> DescriptorModel {
        self.model()
    }
}

/// The denotations of a list of descriptors, in order.
pub open spec fn descriptor_models(items: Seq<TypeDescriptor>) -> Seq<DescriptorModel> {
    Seq::new(items.len(), |i: int| items[i]@)
}

/// The denotations of a list of named descriptors, in order.
pub open spec fn field_descriptor_models(fields: Seq<(String, TypeDescriptor)>) -> Seq<
    (Seq<char>, DescriptorModel),
> {
    Seq::new(fields.len(), |i: int| (fields[i].0@, fields[i].1@))
}

/// The denotation of an optional payload descriptor.
pub open spec fn payload_model(payload: Option<TypeDescriptor>) -> Option<DescriptorModel> {
    match payload {
        Some(d) => Some(d@),
        None => None,
    }
}

/// The denotations of the cases of a variant, in order.
pub open spec fn case_models(cases: Seq<(String, Option<TypeDescriptor>)>) -> Seq<
    (Seq<char>, Option<DescriptorModel>),
> {
    Seq::new(cases.len(), |i: int| (cases[i].0@, payload_model(cases[i].1)))
}

/// The model of a tuple, record or variant descriptor is the list of the
/// models of its parts.
pub proof fn lemma_model_of_parts(d: TypeDescriptor)
    ensures
        d matches TypeDescriptor::Tuple(items) ==> d@ == DescriptorModel::Tuple(
            descriptor_models(items@),
        ),
        d matches TypeDescriptor::Record(fields) ==> d@ == DescriptorModel::Record(
            field_descriptor_models(fields@),
        ),
        d matches TypeDescriptor::Variant(cases) ==> d@ == DescriptorModel::Variant(
            case_models(cases@),
        ),
{
    match d {
        TypeDescriptor::Tuple(items) => {
            assert(d@->Tuple_0 =~= descriptor_models(items@));
        },
        TypeDescriptor::Record(fields) => {
            assert(d@->Record_0 =~= field_descriptor_models(fields@));
        },
        TypeDescriptor::Variant(cases) => {
            assert(d@->Variant_0 =~= case_models(cases@));
        },
        _ => {},
    }
}

/// Whether the value `v` has the type `d`.
///
/// Records are matched by position: a record value has a record type when
/// both have the same number of fields and each field value has the type
/// declared at its position. A variant value names a case of the type by its
/// index, which must be in range, and carries a payload exactly when the
/// case declares one.
pub open spec fn has_type(v: ValueModel, d: DescriptorModel) -> bool
    decreases v,
{
    match (v, d) {
        (ValueModel::Bool(_), DescriptorModel::Bool) => true,
        (ValueModel::U8(_), DescriptorModel::U8) => true,
        (ValueModel::U16(_), DescriptorModel::U16) => true,
        (ValueModel::U32(_), DescriptorModel::U32) => true,
        (ValueModel::U64(_), DescriptorModel::U64) => true,
        (ValueModel::S8(_), DescriptorModel::S8) => true,
        (ValueModel::S16(_), DescriptorModel::S16) => true,
        (ValueModel::S32(_), DescriptorModel::S32) => true,
        (ValueModel::S64(_), DescriptorModel::S64) => true,
        (ValueModel::Float32(_), DescriptorModel::Float32) => true,
        (ValueModel::Float64(_), DescriptorModel::Float64) => true,
        (ValueModel::Char(_), DescriptorModel::Char) => true,
        (ValueModel::Str(_), DescriptorModel::Str) => true,
        (ValueModel::List(items), DescriptorModel::List(item_type)) => {
            let of = *item_type;
            forall|i: int| 0 <= i < items.len() ==> has_type(#[trigger] items[i], of)
        },
        (ValueModel::Tuple(items), DescriptorModel::Tuple(types)) => items.len() == types.len()
            && forall|i: int| 0 <= i < items.len() ==> has_type(#[trigger] items[i], types[i]),
        (ValueModel::Record(fields), DescriptorModel::Record(types)) => fields.len()
            == types.len() && forall|i: int|
            0 <= i < fields.len() ==> has_type((#[trigger] fields[i]).1, types[i].1),
        (ValueModel::Variant { case_idx, case_value }, DescriptorModel::Variant(cases)) => {
            case_idx < cases.len() && match (case_value, cases[case_idx as int].1) {
                (None, None) => true,
                (Some(payload), Some(payload_type)) => has_type(*payload, payload_type),
                _ => false,
            }
        },
        (ValueModel::Opt(None), DescriptorModel::Opt(_)) => true,
        (ValueModel::Opt(Some(inner)), DescriptorModel::Opt(item_type)) => has_type(
            *inner,
            *item_type,
        ),
        (ValueModel::Res(Ok(inner)), DescriptorModel::Res(ok_type, _)) => has_type(
            *inner,
            *ok_type,
        ),
        (ValueModel::Res(Err(inner)), DescriptorModel::Res(_, err_type)) => has_type(
            *inner,
            *err_type,
        ),
        (ValueModel::Handle { .. }, DescriptorModel::Handle) => true,
        _ => false,
    }
}

/// A list has a list type exactly when each of its items has the item type.
pub proof fn lemma_list_has_type(items: Seq<ValueModel>, item_type: DescriptorModel)
    ensures
        has_type(ValueModel::List(items), DescriptorModel::List(Box::new(item_type))) == (forall|
            i: int,
        |
            0 <= i < items.len() ==> has_type(#[trigger] items[i], item_type)),
{
    assert(ValueModel::List(items)->List_0 == items);
    assert(*(DescriptorModel::List(Box::new(item_type))->List_0) == item_type);
}

/// Checks a value against a type.
pub fn conforms(value: &TypedValue, descriptor: &TypeDescriptor) -> (r: bool)
    ensures
        r == has_type(value@, descriptor@),
    decreases value, 1nat,
{
    proof {
        crate::value::lemma_model_of_items(*value);
        lemma_model_of_parts(*descriptor);
    }
    match (value, descriptor) {
        (TypedValue::Bool(_), TypeDescriptor::Bool) => true,
        (TypedValue::U8(_), TypeDescriptor::U8) => true,
        (TypedValue::U16(_), TypeDescriptor::U16) => true,
        (TypedValue::U32(_), TypeDescriptor::U32) => true,
        (TypedValue::U64(_), TypeDescriptor::U64) => true,
        (TypedValue::S8(_), TypeDescriptor::S8) => true,
        (TypedValue::S16(_), TypeDescriptor::S16) => true,
        (TypedValue::S32(_), TypeDescriptor::S32) => true,
        (TypedValue::S64(_), TypeDescriptor::S64) => true,
        (TypedValue::Float32(_), TypeDescriptor::Float32) => true,
        (TypedValue::Float64(_), TypeDescriptor::Float64) => true,
        (TypedValue::Char(_), TypeDescriptor::Char) => true,
        (TypedValue::Str(_), TypeDescriptor::Str) => true,
        (TypedValue::List(items), TypeDescriptor::List(item_type)) => {
            let r = each_conforms(items, item_type);
            proof {
                let ms = crate::value::models(items@);
                let of = (**item_type).model();
                lemma_list_has_type(ms, of);
                if r {
                    assert forall|i: int| 0 <= i < ms.len() implies has_type(
                        #[trigger] ms[i],
                        of,
                    ) by {
                        assert(ms[i] == items[i]@);
                    }
                } else {
                    let i = choose|i: int|
                        0 <= i < items.len() && !has_type(#[trigger] items[i]@, of);
                    assert(ms[i] == items[i]@);
                }
            }
            assert(r == has_type(value@, descriptor@));
            r
        },
        (TypedValue::Tuple(items), TypeDescriptor::Tuple(types)) => {
            let r = all_conform(items, types);
            proof {
                let ms = crate::value::models(items@);
                let ts = descriptor_models(types@);
                if r {
                    assert forall|i: int| 0 <= i < ms.len() implies has_type(
                        #[trigger] ms[i],
                        ts[i],
                    ) by {
                        assert(ms[i] == items[i]@);
                    }
                } else if items.len() == types.len() {
                    let i = choose|i: int|
                        0 <= i < items.len() && !has_type(#[trigger] items[i]@, types[i]@);
                    assert(ms[i] == items[i]@);
                }
            }
            assert(r == has_type(value@, descriptor@));
            r
        },
        (TypedValue::Record(fields), TypeDescriptor::Record(types)) => {
            let r = fields_conform(fields, types);
            proof {
                let ms = crate::value::field_models(fields@);
                let ts = field_descriptor_models(types@);
                if r {
                    assert forall|i: int| 0 <= i < ms.len() implies has_type(
                        (#[trigger] ms[i]).1,
                        ts[i].1,
                    ) by {
                        assert(ms[i].1 == fields[i].1@);
                    }
                } else if fields.len() == types.len() {
                    let i = choose|i: int|
                        0 <= i < fields.len() && !has_type(
                            (#[trigger] fields[i]).1@,
                            types[i].1@,
                        );
                    assert(ms[i].1 == fields[i].1@);
                }
            }
            assert(r == has_type(value@, descriptor@));
            r
        },
        (TypedValue::Variant { case_idx, case_value }, TypeDescriptor::Variant(cases)) => {
            let idx = *case_idx as usize;
            if idx >= cases.len() {
                false
            } else {
                proof {
                    let cs = case_models(cases@);
                    assert(cs[idx as int].1 == payload_model(cases[idx as int].1));
                }
                match (case_value, &cases[idx].1) {
                    (None, None) => true,
                    (Some(payload), Some(payload_type)) => conforms(payload, payload_type),
                    _ => false,
                }
            }
        },
        (TypedValue::Opt(None), TypeDescriptor::Opt(_)) => true,
        (TypedValue::Opt(Some(inner)), TypeDescriptor::Opt(item_type)) => conforms(
            inner,
            item_type,
        ),
        (TypedValue::Res(Ok(inner)), TypeDescriptor::Res(ok_type, _)) => conforms(
            inner,
            ok_type,
        ),
        (TypedValue::Res(Err(inner)), TypeDescriptor::Res(_, err_type)) => conforms(
            inner,
            err_type,
        ),
        (TypedValue::Handle { .. }, TypeDescriptor::Handle) => true,
        _ => false,
    }
}

/// Checks every value of a list against one type.
pub fn each_conforms(values: &Vec<TypedValue>, descriptor: &TypeDescriptor) -> (r: bool)
    ensures
        r == forall|i: int| 0 <= i < values.len() ==> has_type(#[trigger] values[i]@, descriptor@),
    decreases values, 0nat,
{
    let mut i: usize = 0;
    while i < values.len()
        invariant
            i <= values.len(),
            forall|j: int| 0 <= j < i ==> has_type(#[trigger] values[j]@, descriptor@),
        decreases values.len() - i,
    {
        assert(decreases_to!(*values => values[i as int]));
        if !conforms(&values[i], descriptor) {
            return false;
        }
        i = i + 1;
    }
    true
}

/// Checks the values of a tuple against the types at their positions.
pub fn all_conform(values: &Vec<TypedValue>, types: &Vec<TypeDescriptor>) -> (r: bool)
    ensures
        r == (values.len() == types.len() && forall|i: int|
            0 <= i < values.len() ==> has_type(#[trigger] values[i]@, types[i]@)),
    decreases values, 0nat,
{
    if values.len() != types.len() {
        return false;
    }
    let mut i: usize = 0;
    while i < values.len()
        invariant
            i <= values.len(),
            values.len() == types.len(),
            forall|j: int| 0 <= j < i ==> has_type(#[trigger] values[j]@, types[j]@),
        decreases values.len() - i,
    {
        assert(decreases_to!(*values => values[i as int]));
        if !conforms(&values[i], &types[i]) {
            return false;
        }
        i = i + 1;
    }
    true
}

/// Checks the fields of a record, by position, against the declared fields.
pub fn fields_conform(
    fields: &Vec<(String, TypedValue)>,
    types: &Vec<(String, TypeDescriptor)>,
) -> (r: bool)
    ensures
        r == (fields.len() == types.len() && forall|i: int|
            0 <= i < fields.len() ==> has_type((#[trigger] fields[i]).1@, types[i].1@)),
    decreases fields, 0nat,
{
    if fields.len() != types.len() {
        return false;
    }
    let mut i: usize = 0;
    while i < fields.len()
        invariant
            i <= fields.len(),
            fields.len() == types.len(),
            forall|j: int| 0 <= j < i ==> has_type((#[trigger] fields[j]).1@, types[j].1@),
        decreases fields.len() - i,
    {
        assert(decreases_to!(*fields => fields[i as int]));
        assert(decreases_to!(fields[i as int] => fields[i as int].1));
        if !conforms(&fields[i].1, &types[i].1) {
            return false;
        }
        i = i + 1;
    }
    true
}

impl TypeDescriptor {
    /// A deep copy of this descriptor.
    pub fn duplicate(&self) -> (r: TypeDescriptor)
        ensures
            r@ == self@,
        decreases self, 1nat,
    {
        match self {
            TypeDescriptor::Bool => TypeDescriptor::Bool,
            TypeDescriptor::U8 => TypeDescriptor::U8,
            TypeDescriptor::U16 => TypeDescriptor::U16,
            TypeDescriptor::U32 => TypeDescriptor::U32,
            TypeDescriptor::U64 => TypeDescriptor::U64,
            TypeDescriptor::S8 => TypeDescriptor::S8,
            TypeDescriptor::S16 => TypeDescriptor::S16,
            TypeDescriptor::S32 => TypeDescriptor::S32,
            TypeDescriptor::S64 => TypeDescriptor::S64,
            TypeDescriptor::Float32 => TypeDescriptor::Float32,
            TypeDescriptor::Float64 => TypeDescriptor::Float64,
            TypeDescriptor::Char => TypeDescriptor::Char,
            TypeDescriptor::Str => TypeDescriptor::Str,
            TypeDescriptor::List(item) => TypeDescriptor::List(Box::new(item.duplicate())),
            TypeDescriptor::Tuple(items) => {
                let copy = duplicate_descriptors(items);
                let r = TypeDescriptor::Tuple(copy);
                proof {
                    lemma_model_of_parts(r);
                    lemma_model_of_parts(*self);
                }
                r
            },
            TypeDescriptor::Record(fields) => {
                let mut copy: Vec<(String, TypeDescriptor)> = Vec::new();
                let mut i: usize = 0;
                while i < fields.len()
                    invariant
                        i <= fields.len(),
                        copy.len() == i,
                        *self is Record,
                        self->Record_0 == *fields,
                        forall|j: int|
                            0 <= j < i ==> copy[j].0@ == fields[j].0@ && copy[j].1@ == fields[j].1@,
                    decreases fields.len() - i,
                {
                    assert(decreases_to!(*self => self->Record_0));
                    assert(decreases_to!(*fields => fields[i as int]));
                    assert(decreases_to!(fields[i as int] => fields[i as int].1));
                    let field_type = fields[i].1.duplicate();
                    copy.push((fields[i].0.clone(), field_type));
                    i = i + 1;
                }
                let r = TypeDescriptor::Record(copy);
                proof {
                    lemma_model_of_parts(r);
                    lemma_model_of_parts(*self);
                    assert(field_descriptor_models(copy@) =~= field_descriptor_models(fields@));
                }
                r
            },
            TypeDescriptor::Variant(cases) => {
                let mut copy: Vec<(String, Option<TypeDescriptor>)> = Vec::new();
                let mut i: usize = 0;
                while i < cases.len()
                    invariant
                        i <= cases.len(),
                        copy.len() == i,
                        *self is Variant,
                        self->Variant_0 == *cases,
                        forall|j: int|
                            0 <= j < i ==> copy[j].0@ == cases[j].0@ && payload_model(copy[j].1)
                                == payload_model(cases[j].1),
                    decreases cases.len() - i,
                {
                    assert(decreases_to!(*self => self->Variant_0));
                    assert(decreases_to!(*cases => cases[i as int]));
                    assert(decreases_to!(cases[i as int] => cases[i as int].1));
                    let payload = match &cases[i].1 {
                        Some(payload_type) => {
                            assert(decreases_to!(cases[i as int].1 => cases[i as int].1->Some_0));
                            Some(payload_type.duplicate())
                        },
                        None => None,
                    };
                    copy.push((cases[i].0.clone(), payload));
                    i = i + 1;
                }
                let r = TypeDescriptor::Variant(copy);
                proof {
                    lemma_model_of_parts(r);
                    lemma_model_of_parts(*self);
                    assert(case_models(copy@) =~= case_models(cases@));
                }
                r
            },
            TypeDescriptor::Opt(item) => TypeDescriptor::Opt(Box::new(item.duplicate())),
            TypeDescriptor::Res(ok, err) => TypeDescriptor::Res(
                Box::new(ok.duplicate()),
                Box::new(err.duplicate()),
            ),
            TypeDescriptor::Handle => TypeDescriptor::Handle,
        }
    }
}

impl Clone for TypeDescriptor {
    fn clone(&self) -> (r: Self)
        ensures
            r@ == self@,
    {
        self.duplicate()
    }
}

/// Deep copies of the given descriptors, in order.
pub fn duplicate_descriptors(items: &Vec<TypeDescriptor>) -> (r: Vec<TypeDescriptor>)
    ensures
        descriptor_models(r@) == descriptor_models(items@),
    decreases items, 0nat,
{
    let mut copy: Vec<TypeDescriptor> = Vec::new();
    let mut i: usize = 0;
    while i < items.len()
        invariant
            i <= items.len(),
            copy.len() == i,
            forall|j: int| 0 <= j < i ==> copy[j]@ == items[j]@,
        decreases items.len() - i,
    {
        assert(decreases_to!(*items => items[i as int]));
        let item = items[i].duplicate();
        copy.push(item);
        i = i + 1;
    }
    assert(descriptor_models(copy@) =~= descriptor_models(items@));
    copy
}

} // verus!
