//! Typed values: the tagged, self-describing data that crosses a component
//! boundary.

use vstd::prelude::*;

verus! {

/// A value crossing a component boundary.
///
/// The two floating-point cases carry the IEEE 754 bit pattern of the
/// number. The fields of a record are ordered, and the order is part of the
/// value.
#[derive(Debug, PartialEq, Eq)]
pub enum TypedValue {
    Bool(bool),
    U8(u8),
    U16(u16),
    U32(u32),
    U64(u64),
    S8(i8),
    S16(i16),
    S32(i32),
    S64(i64),
    Float32(u32),
    Float64(u64),
    Char(char),
    Str(String),
    List(Vec<TypedValue>),
    Tuple(Vec<TypedValue>),
    Record(Vec<(String, TypedValue)>),
    Variant { case_idx: u32, case_value: Option<Box<TypedValue>> },
    Opt(Option<Box<TypedValue>>),
    Res(Result<Box<TypedValue>, Box<TypedValue>>),
    Handle { resource_id: u64, uri: String },
}

/// What a `TypedValue` denotes.
pub ghost enum ValueModel {
    Bool(bool),
    U8(u8),
    U16(u16),
    U32(u32),
    U64(u64),
    S8(i8),
    S16(i16),
    S32(i32),
    S64(i64),
    Float32(u32),
    Float64(u64),
    Char(char),
    Str(Seq<char>),
    List(Seq<ValueModel>),
    Tuple(Seq<ValueModel>),
    Record(Seq<(Seq<char>, ValueModel)>),
    Variant { case_idx: u32, case_value: Option<Box<ValueModel>> },
    Opt(Option<Box<ValueModel>>),
    Res(Result<Box<ValueModel>, Box<ValueModel>>),
    Handle { resource_id: u64, uri: Seq<char> },
}

impl TypedValue {
    /// The denotation of this value.
    pub open spec fn model(&self) -> ValueModel
        decreases self,
    {
        match self {
            TypedValue::Bool(b) => ValueModel::Bool(*b),
            TypedValue::U8(n) => ValueModel::U8(*n),
            TypedValue::U16(n) => ValueModel::U16(*n),
            TypedValue::U32(n) => ValueModel::U32(*n),
            TypedValue::U64(n) => ValueModel::U64(*n),
            TypedValue::S8(n) => ValueModel::S8(*n),
            TypedValue::S16(n) => ValueModel::S16(*n),
            TypedValue::S32(n) => ValueModel::S32(*n),
            TypedValue::S64(n) => ValueModel::S64(*n),
            TypedValue::Float32(bits) => ValueModel::Float32(*bits),
            TypedValue::Float64(bits) => ValueModel::Float64(*bits),
            TypedValue::Char(c) => ValueModel::Char(*c),
            TypedValue::Str(s) => ValueModel::Str(s@),
            TypedValue::List(items) => ValueModel::List(
                Seq::new(
                    items.len() as nat,
                    |i: int|
                        if 0 <= i < items.len() {
                            items[i].model()
                        } else {
                            ValueModel::Bool(false)
                        },
                ),
            ),
            TypedValue::Tuple(items) => ValueModel::Tuple(
                Seq::new(
                    items.len() as nat,
                    |i: int|
                        if 0 <= i < items.len() {
                            items[i].model()
                        } else {
                            ValueModel::Bool(false)
                        },
                ),
            ),
            TypedValue::Record(fields) => ValueModel::Record(
                Seq::new(
                    fields.len() as nat,
                    |i: int|
                        if 0 <= i < fields.len() {
                            (fields[i].0@, fields[i].1.model())
                        } else {
                            (Seq::empty(), ValueModel::Bool(false))
                        },
                ),
            ),
            TypedValue::Variant { case_idx, case_value } => ValueModel::Variant {
                case_idx: *case_idx,
                case_value: match case_value {
                    Some(payload) => Some(Box::new(payload.model())),
                    None => None,
                },
            },
            TypedValue::Opt(inner) => ValueModel::Opt(
                match inner {
                    Some(v) => Some(Box::new(v.model())),
                    None => None,
                },
            ),
            TypedValue::Res(inner) => ValueModel::Res(
                match inner {
                    Ok(v) => Ok(Box::new(v.model())),
                    Err(e) => Err(Box::new(e.model())),
                },
            ),
            TypedValue::Handle { resource_id, uri } => ValueModel::Handle {
                resource_id: *resource_id,
                uri: uri@,
            },
        }
    }
}

impl View for TypedValue {
    type V = ValueModel;

    open spec fn view(&self) -> ValueModel {
        self.model()
    }
}

/// The denotations of a list of values, in order.
pub open spec fn models(values: Seq<TypedValue>) -> Seq<ValueModel> {
    Seq::new(values.len(), |i: int| values[i]@)
}

/// The denotations of a list of named values, in order.
pub open spec fn field_models(fields: Seq<(String, TypedValue)>) -> Seq<(Seq<char>, ValueModel)> {
    Seq::new(fields.len(), |i: int| (fields[i].0@, fields[i].1@))
}

/// The model of a list, a tuple or a record is the list of the models of its
/// items.
pub proof fn lemma_model_of_items(value: TypedValue)
    ensures
        value matches TypedValue::List(items) ==> value@ == ValueModel::List(models(items@)),
        value matches TypedValue::Tuple(items) ==> value@ == ValueModel::Tuple(models(items@)),
        value matches TypedValue::Record(fields) ==> value@ == ValueModel::Record(
            field_models(fields@),
        ),
{
    match value {
        TypedValue::List(items) => {
            assert(value@->List_0 =~= models(items@));
        },
        TypedValue::Tuple(items) => {
            assert(value@->Tuple_0 =~= models(items@));
        },
        TypedValue::Record(fields) => {
            assert(value@->Record_0 =~= field_models(fields@));
        },
        _ => {},
    }
}

impl TypedValue {
    /// A deep copy of this value.
    pub fn duplicate(&self) -> (r: TypedValue)
        ensures
            r@ == self@,
        decreases self, 1nat,
    {
        match self {
            TypedValue::Bool(b) => TypedValue::Bool(*b),
            TypedValue::U8(n) => TypedValue::U8(*n),
            TypedValue::U16(n) => TypedValue::U16(*n),
            TypedValue::U32(n) => TypedValue::U32(*n),
            TypedValue::U64(n) => TypedValue::U64(*n),
            TypedValue::S8(n) => TypedValue::S8(*n),
            TypedValue::S16(n) => TypedValue::S16(*n),
            TypedValue::S32(n) => TypedValue::S32(*n),
            TypedValue::S64(n) => TypedValue::S64(*n),
            TypedValue::Float32(bits) => TypedValue::Float32(*bits),
            TypedValue::Float64(bits) => TypedValue::Float64(*bits),
            TypedValue::Char(c) => TypedValue::Char(*c),
            TypedValue::Str(s) => TypedValue::Str(s.clone()),
            TypedValue::List(items) => {
                let copy = duplicate_values(items);
                let r = TypedValue::List(copy);
                proof {
                    lemma_model_of_items(r);
                    lemma_model_of_items(*self);
                }
                r
            },
            TypedValue::Tuple(items) => {
                let copy = duplicate_values(items);
                let r = TypedValue::Tuple(copy);
                proof {
                    lemma_model_of_items(r);
                    lemma_model_of_items(*self);
                }
                r
            },
            TypedValue::Record(fields) => {
                let mut copy: Vec<(String, TypedValue)> = Vec::new();
                let mut i: usize = 0;
                while i < fields.len()
                    invariant
                        i <= fields.len(),
                        copy.len() == i,
                        *self is Record,
                        self->Record_0 == *fields,
                        forall|j: int|
                            0 <= j < i ==> copy[j].0@ == fields[j].0@ && copy[j].1@ == fields[j].1@,
                    decreases fields.len() - i,
                {
                    assert(decreases_to!(*self => self->Record_0));
                    assert(decreases_to!(*fields => fields[i as int]));
                    assert(decreases_to!(fields[i as int] => fields[i as int].1));
                    let value = fields[i].1.duplicate();
                    copy.push((fields[i].0.clone(), value));
                    i = i + 1;
                }
                let r = TypedValue::Record(copy);
                proof {
                    lemma_model_of_items(r);
                    lemma_model_of_items(*self);
                    assert(field_models(copy@) =~= field_models(fields@));
                }
                r
            },
            TypedValue::Variant { case_idx, case_value } => TypedValue::Variant {
                case_idx: *case_idx,
                case_value: match case_value {
                    Some(payload) => Some(Box::new(payload.duplicate())),
                    None => None,
                },
            },
            TypedValue::Opt(inner) => TypedValue::Opt(
                match inner {
                    Some(v) => Some(Box::new(v.duplicate())),
                    None => None,
                },
            ),
            TypedValue::Res(inner) => TypedValue::Res(
                match inner {
                    Ok(v) => Ok(Box::new(v.duplicate())),
                    Err(e) => Err(Box::new(e.duplicate())),
                },
            ),
            TypedValue::Handle { resource_id, uri } => TypedValue::Handle {
                resource_id: *resource_id,
                uri: uri.clone(),
            },
        }
    }
}

impl Clone for TypedValue {
    fn clone(&self) -> (r: Self)
        ensures
            r@ == self@,
    {
        self.duplicate()
    }
}

/// Deep copies of the given values, in order.
pub fn duplicate_values(values: &Vec<TypedValue>) -> (r: Vec<TypedValue>)
    ensures
        models(r@) == models(values@),
    decreases values, 0nat,
{
    let mut copy: Vec<TypedValue> = Vec::new();
    let mut i: usize = 0;
    while i < values.len()
        invariant
            i <= values.len(),
            copy.len() == i,
            forall|j: int| 0 <= j < i ==> copy[j]@ == values[j]@,
        decreases values.len() - i,
    {
        assert(decreases_to!(*values => values[i as int]));
        let value = values[i].duplicate();
        copy.push(value);
        i = i + 1;
    }
    assert(models(copy@) =~= models(values@));
    copy
}

} // verus!
