//! Conversions between native values and typed values.

use crate::descriptor::{has_type, lemma_list_has_type, DescriptorModel, TypeDescriptor};
use crate::value::{lemma_model_of_items, models, TypedValue, ValueModel};
use crate::text::{decimal, decimal_string};
use vstd::prelude::*;
use vstd::string::StringExecFns;

verus! {

/// Why a typed value could not be decoded.
#[derive(Debug, PartialEq, Eq)]
pub enum ConversionError {
    /// The tag of the value is not the one the target type is encoded with.
    TagMismatch,
    /// A record has another number of fields than the target has.
    FieldCountMismatch { expected: usize, actual: usize },
    /// The value of the named field could not be decoded.
    FieldConversionFailure { field: String },
}

/// What a `ConversionError` denotes.
pub ghost enum ConversionFailure {
    TagMismatch,
    FieldCountMismatch { expected: nat, actual: nat },
    FieldConversionFailure { field: Seq<char> },
}

impl View for ConversionError {
    type V = ConversionFailure;

    open spec fn view(&self) -> ConversionFailure {
        match self {
            ConversionError::TagMismatch => ConversionFailure::TagMismatch,
            ConversionError::FieldCountMismatch { expected, actual } => {
                ConversionFailure::FieldCountMismatch {
                    expected: *expected as nat,
                    actual: *actual as nat,
                }
            },
            ConversionError::FieldConversionFailure { field } => {
                ConversionFailure::FieldConversionFailure { field: field@ }
            },
        }
    }
}

impl ConversionError {
    /// The message of the error.
    pub open spec fn message_text(&self) -> Seq<char> {
        match self {
            ConversionError::TagMismatch => "Value does not have the expected tag"@,
            ConversionError::FieldCountMismatch { expected, actual } => {
                "Expected "@ + decimal(*expected as nat) + " fields, found "@ + decimal(
                    *actual as nat,
                )
            },
            ConversionError::FieldConversionFailure { field } => {
                "Failed to parse field '"@ + field@ + "'"@
            },
        }
    }

    /// Builds the message of the error.
    pub fn message(&self) -> (r: String)
        ensures
            r@ == self.message_text(),
    {
        match self {
            ConversionError::TagMismatch => String::from_str(
                "Value does not have the expected tag",
            ),
            ConversionError::FieldCountMismatch { expected, actual } => {
                let mut m = String::from_str("Expected ");
                m.append(decimal_string(*expected as u64).as_str());
                m.append(" fields, found ");
                m.append(decimal_string(*actual as u64).as_str());
                m
            },
            ConversionError::FieldConversionFailure { field } => {
                let mut m = String::from_str("Failed to parse field '");
                m.append(field.as_str());
                m.append("'");
                m
            },
        }
    }
}

/// Native types that can be encoded as typed values.
pub trait ToValue {
    /// The typed value that stands for `self`. An implementation that does
    /// not say leaves it open.
    open spec fn encoded(&self) -> ValueModel {
        arbitrary()
    }

    /// Encodes `self`. Encoding never fails.
    fn to_value(&self) -> (r: TypedValue)
        ensures
            r@ == self.encoded(),
    ;
}

/// Native types that can be decoded from typed values.
pub trait FromValue: Sized {
    /// The error with which `value` is refused, or `None` where it decodes.
    /// An implementation that does not say leaves it open.
    open spec fn refusal(value: ValueModel) -> Option<ConversionFailure> {
        arbitrary()
    }

    /// Whether `out` is what `value` decodes to. An implementation that does
    /// not say leaves it open.
    open spec fn decodes(value: ValueModel, out: Self) -> bool {
        arbitrary()
    }

    /// Decodes `value`.
    fn from_value(value: TypedValue) -> (r: Result<Self, ConversionError>)
        ensures
            match r {
                Ok(out) => Self::refusal(value@) is None && Self::decodes(value@, out),
                Err(e) => Self::refusal(value@) == Some(e@),
            },
    ;
}

/// Native types that survive a round trip through their encoding.
pub trait AgentArg: ToValue + FromValue {
    /// Decoding the encoding of a value succeeds, and whatever it gives has
    /// the same encoding as the value.
    proof fn round_trip(&self)
        ensures
            Self::refusal(self.encoded()) is None,
            forall|out: Self|
                Self::decodes(self.encoded(), out) ==> out.encoded() == self.encoded(),
    ;
}

/// Native types whose encodings are described by a type descriptor.
pub trait ToWitType: AgentArg {
    /// The type of the encodings of the values of this type. An
    /// implementation that does not say leaves it open.
    open spec fn shape() -> DescriptorModel {
        arbitrary()
    }

    /// The descriptor of this type.
    fn get_wit_type() -> (d: TypeDescriptor)
        ensures
            d@ == Self::shape(),
    ;

    /// The encoding of every value of this type has the type that the
    /// descriptor states.
    proof fn encoding_has_shape(&self)
        ensures
            has_type(self.encoded(), Self::shape()),
    ;

    /// Every typed value of the type that the descriptor states decodes.
    proof fn shaped_values_decode(value: ValueModel)
        requires
            has_type(value, Self::shape()),
        ensures
            Self::refusal(value) is None,
    ;
}

impl ToValue for String {
    open spec fn encoded(&self) -> ValueModel {
        ValueModel::Str(self@)
    }

    fn to_value(&self) -> (r: TypedValue) {
        TypedValue::Str(self.clone())
    }
}

impl FromValue for String {
    open spec fn refusal(value: ValueModel) -> Option<ConversionFailure> {
        if value is Str {
            None
        } else {
            Some(ConversionFailure::TagMismatch)
        }
    }

    open spec fn decodes(value: ValueModel, out: Self) -> bool {
        value == ValueModel::Str(out@)
    }

    fn from_value(value: TypedValue) -> (r: Result<Self, ConversionError>) {
        match value {
            TypedValue::Str(s) => Ok(s),
            _ => Err(ConversionError::TagMismatch),
        }
    }
}

impl AgentArg for String {
    proof fn round_trip(&self) {
    }
}

impl ToWitType for String {
    open spec fn shape() -> DescriptorModel {
        DescriptorModel::Str
    }

    fn get_wit_type() -> (d: TypeDescriptor) {
        TypeDescriptor::Str
    }

    proof fn encoding_has_shape(&self) {
    }

    proof fn shaped_values_decode(value: ValueModel) {
    }
}

/// The refusal of the first value that `T` refuses, or `None` where it
/// decodes them all.
pub open spec fn first_refusal<T: FromValue>(values: Seq<ValueModel>) -> Option<ConversionFailure>
    decreases values.len(),
{
    if values.len() == 0 {
        None
    } else if T::refusal(values[0]) is Some {
        T::refusal(values[0])
    } else {
        first_refusal::<T>(values.skip(1))
    }
}

/// The first refusal is that of the first value that is refused.
pub proof fn lemma_first_refusal_at<T: FromValue>(values: Seq<ValueModel>, i: int)
    requires
        0 <= i < values.len(),
        forall|j: int| 0 <= j < i ==> T::refusal(#[trigger] values[j]) is None,
        T::refusal(values[i]) is Some,
    ensures
        first_refusal::<T>(values) == T::refusal(values[i]),
    decreases i,
{
    if i > 0 {
        let rest = values.skip(1);
        assert forall|j: int| 0 <= j < i - 1 implies T::refusal(#[trigger] rest[j]) is None by {
            assert(rest[j] == values[j + 1]);
        }
        assert(rest[i - 1] == values[i]);
        assert(T::refusal(values[0]) is None);
        lemma_first_refusal_at::<T>(rest, i - 1);
    }
}

/// Nothing is refused where every value decodes.
pub proof fn lemma_first_refusal_none<T: FromValue>(values: Seq<ValueModel>)
    requires
        forall|j: int| 0 <= j < values.len() ==> T::refusal(#[trigger] values[j]) is None,
    ensures
        first_refusal::<T>(values) is None,
    decreases values.len(),
{
    if values.len() > 0 {
        let rest = values.skip(1);
        assert forall|j: int| 0 <= j < rest.len() implies T::refusal(
            #[trigger] rest[j],
        ) is None by {
            assert(rest[j] == values[j + 1]);
        }
        assert(T::refusal(values[0]) is None);
        lemma_first_refusal_none::<T>(rest);
    }
}

impl<T: ToValue> ToValue for Vec<T> {
    open spec fn encoded(&self) -> ValueModel {
        ValueModel::List(Seq::new(self.len() as nat, |i: int| self[i].encoded()))
    }

    fn to_value(&self) -> (r: TypedValue) {
        let mut items: Vec<TypedValue> = Vec::new();
        let mut i: usize = 0;
        while i < self.len()
            invariant
                i <= self.len(),
                items.len() == i,
                forall|j: int| 0 <= j < i ==> items[j]@ == self[j].encoded(),
            decreases self.len() - i,
        {
            items.push(self[i].to_value());
            i = i + 1;
        }
        let r = TypedValue::List(items);
        proof {
            lemma_model_of_items(r);
            assert(models(items@) =~= Seq::new(self.len() as nat, |i: int| self[i].encoded()));
        }
        r
    }
}

impl<T: FromValue> FromValue for Vec<T> {
    open spec fn refusal(value: ValueModel) -> Option<ConversionFailure> {
        match value {
            ValueModel::List(items) => first_refusal::<T>(items),
            _ => Some(ConversionFailure::TagMismatch),
        }
    }

    open spec fn decodes(value: ValueModel, out: Self) -> bool {
        match value {
            ValueModel::List(items) => items.len() == out.len() && forall|i: int|
                0 <= i < items.len() ==> T::decodes(#[trigger] items[i], out[i]),
            _ => false,
        }
    }

    fn from_value(value: TypedValue) -> (r: Result<Self, ConversionError>) {
        proof {
            lemma_model_of_items(value);
        }
        let ghost whole = value@;
        match value {
            TypedValue::List(items) => {
                let ghost all = models(items@);
                let mut out: Vec<T> = Vec::new();
                for item in it: items
                    invariant
                        out.len() == it.index(),
                        it.seq() == items@,
                        all == models(items@),
                        whole == ValueModel::List(all),
                        whole == value@,
                        forall|j: int|
                            0 <= j < out.len() ==> T::refusal(#[trigger] all[j]) is None
                                && T::decodes(all[j], out[j]),
                {
                    assert(item@ == all[it.index() as int]);
                    match T::from_value(item) {
                        Ok(x) => {
                            out.push(x);
                        },
                        Err(e) => {
                            proof {
                                lemma_first_refusal_at::<T>(all, it.index() as int);
                            }
                            return Err(e);
                        },
                    }
                }
                proof {
                    lemma_first_refusal_none::<T>(all);
                }
                Ok(out)
            },
            _ => Err(ConversionError::TagMismatch),
        }
    }
}

impl<T: AgentArg> AgentArg for Vec<T> {
    proof fn round_trip(&self) {
        let items = Seq::new(self.len() as nat, |i: int| self[i].encoded());
        assert forall|j: int| 0 <= j < items.len() implies T::refusal(#[trigger] items[j])
            is None by {
            self[j].round_trip();
        }
        lemma_first_refusal_none::<T>(items);
        assert forall|out: Self| Self::decodes(self.encoded(), out) implies out.encoded()
            == self.encoded() by {
            let theirs = Seq::new(out.len() as nat, |i: int| out[i].encoded());
            assert forall|j: int| 0 <= j < items.len() implies theirs[j] == items[j] by {
                self[j].round_trip();
                assert(T::decodes(items[j], out[j]));
            }
            assert(theirs =~= items);
        }
    }
}

impl<T: ToWitType> ToWitType for Vec<T> {
    open spec fn shape() -> DescriptorModel {
        DescriptorModel::List(Box::new(T::shape()))
    }

    fn get_wit_type() -> (d: TypeDescriptor) {
        TypeDescriptor::List(Box::new(T::get_wit_type()))
    }

    proof fn encoding_has_shape(&self) {
        let items = Seq::new(self.len() as nat, |i: int| self[i].encoded());
        lemma_list_has_type(items, T::shape());
        assert forall|i: int| 0 <= i < items.len() implies has_type(
            #[trigger] items[i],
            T::shape(),
        ) by {
            self[i].encoding_has_shape();
        }
    }

    proof fn shaped_values_decode(value: ValueModel) {
        match value {
            ValueModel::List(items) => {
                lemma_list_has_type(items, T::shape());
                assert forall|j: int| 0 <= j < items.len() implies T::refusal(
                    #[trigger] items[j],
                ) is None by {
                    T::shaped_values_decode(items[j]);
                }
                lemma_first_refusal_none::<T>(items);
            },
            _ => {},
        }
    }
}

impl<T: ToValue> ToValue for Option<T> {
    open spec fn encoded(&self) -> ValueModel {
        match self {
            Some(inner) => ValueModel::Opt(Some(Box::new(inner.encoded()))),
            None => ValueModel::Opt(None),
        }
    }

    fn to_value(&self) -> (r: TypedValue) {
        match self {
            Some(inner) => TypedValue::Opt(Some(Box::new(inner.to_value()))),
            None => TypedValue::Opt(None),
        }
    }
}

impl<T: FromValue> FromValue for Option<T> {
    open spec fn refusal(value: ValueModel) -> Option<ConversionFailure> {
        match value {
            ValueModel::Opt(Some(inner)) => T::refusal(*inner),
            ValueModel::Opt(None) => None,
            _ => Some(ConversionFailure::TagMismatch),
        }
    }

    open spec fn decodes(value: ValueModel, out: Self) -> bool {
        match (value, out) {
            (ValueModel::Opt(Some(inner)), Some(x)) => T::decodes(*inner, x),
            (ValueModel::Opt(None), None) => true,
            _ => false,
        }
    }

    fn from_value(value: TypedValue) -> (r: Result<Self, ConversionError>) {
        match value {
            TypedValue::Opt(Some(inner)) => {
                match T::from_value(*inner) {
                    Ok(x) => Ok(Some(x)),
                    Err(e) => Err(e),
                }
            },
            TypedValue::Opt(None) => Ok(None),
            _ => Err(ConversionError::TagMismatch),
        }
    }
}

impl<T: AgentArg> AgentArg for Option<T> {
    proof fn round_trip(&self) {
        match self {
            Some(inner) => {
                inner.round_trip();
            },
            None => {},
        }
    }
}

impl<T: ToWitType> ToWitType for Option<T> {
    open spec fn shape() -> DescriptorModel {
        DescriptorModel::Opt(Box::new(T::shape()))
    }

    fn get_wit_type() -> (d: TypeDescriptor) {
        TypeDescriptor::Opt(Box::new(T::get_wit_type()))
    }

    proof fn encoding_has_shape(&self) {
        match self {
            Some(inner) => {
                inner.encoding_has_shape();
            },
            None => {},
        }
    }

    proof fn shaped_values_decode(value: ValueModel) {
        match value {
            ValueModel::Opt(Some(inner)) => {
                T::shaped_values_decode(*inner);
            },
            _ => {},
        }
    }
}

impl<T: ToValue, E: ToValue> ToValue for Result<T, E> {
    open spec fn encoded(&self) -> ValueModel {
        match self {
            Ok(inner) => ValueModel::Res(Ok(Box::new(inner.encoded()))),
            Err(inner) => ValueModel::Res(Err(Box::new(inner.encoded()))),
        }
    }

    fn to_value(&self) -> (r: TypedValue) {
        match self {
            Ok(inner) => TypedValue::Res(Ok(Box::new(inner.to_value()))),
            Err(inner) => TypedValue::Res(Err(Box::new(inner.to_value()))),
        }
    }
}

impl<T: FromValue, E: FromValue> FromValue for Result<T, E> {
    open spec fn refusal(value: ValueModel) -> Option<ConversionFailure> {
        match value {
            ValueModel::Res(Ok(inner)) => T::refusal(*inner),
            ValueModel::Res(Err(inner)) => E::refusal(*inner),
            _ => Some(ConversionFailure::TagMismatch),
        }
    }

    open spec fn decodes(value: ValueModel, out: Self) -> bool {
        match (value, out) {
            (ValueModel::Res(Ok(inner)), Ok(x)) => T::decodes(*inner, x),
            (ValueModel::Res(Err(inner)), Err(x)) => E::decodes(*inner, x),
            _ => false,
        }
    }

    fn from_value(value: TypedValue) -> (r: Result<Self, ConversionError>) {
        match value {
            TypedValue::Res(Ok(inner)) => {
                match T::from_value(*inner) {
                    Ok(x) => Ok(Ok(x)),
                    Err(e) => Err(e),
                }
            },
            TypedValue::Res(Err(inner)) => {
                match E::from_value(*inner) {
                    Ok(x) => Ok(Err(x)),
                    Err(e) => Err(e),
                }
            },
            _ => Err(ConversionError::TagMismatch),
        }
    }
}

impl<T: AgentArg, E: AgentArg> AgentArg for Result<T, E> {
    proof fn round_trip(&self) {
        match self {
            Ok(inner) => {
                inner.round_trip();
            },
            Err(inner) => {
                inner.round_trip();
            },
        }
    }
}

impl<T: ToWitType, E: ToWitType> ToWitType for Result<T, E> {
    open spec fn shape() -> DescriptorModel {
        DescriptorModel::Res(Box::new(T::shape()), Box::new(E::shape()))
    }

    fn get_wit_type() -> (d: TypeDescriptor) {
        TypeDescriptor::Res(Box::new(T::get_wit_type()), Box::new(E::get_wit_type()))
    }

    proof fn encoding_has_shape(&self) {
        match self {
            Ok(inner) => {
                inner.encoding_has_shape();
            },
            Err(inner) => {
                inner.encoding_has_shape();
            },
        }
    }

    proof fn shaped_values_decode(value: ValueModel) {
        match value {
            ValueModel::Res(Ok(inner)) => {
                T::shaped_values_decode(*inner);
            },
            ValueModel::Res(Err(inner)) => {
                E::shaped_values_decode(*inner);
            },
            _ => {},
        }
    }
}

impl ToValue for TypedValue {
    open spec fn encoded(&self) -> ValueModel {
        self@
    }

    fn to_value(&self) -> (r: TypedValue) {
        self.duplicate()
    }
}

impl FromValue for TypedValue {
    open spec fn refusal(value: ValueModel) -> Option<ConversionFailure> {
        None
    }

    open spec fn decodes(value: ValueModel, out: Self) -> bool {
        out@ == value
    }

    fn from_value(value: TypedValue) -> (r: Result<Self, ConversionError>) {
        Ok(value)
    }
}

impl AgentArg for TypedValue {
    proof fn round_trip(&self) {
    }
}

impl ToValue for bool {
    open spec fn encoded(&self) -> ValueModel {
        ValueModel::Bool(*self)
    }

    fn to_value(&self) -> (r: TypedValue) {
        TypedValue::Bool(*self)
    }
}

impl FromValue for bool {
    open spec fn refusal(value: ValueModel) -> Option<ConversionFailure> {
        if value is Bool {
            None
        } else {
            Some(ConversionFailure::TagMismatch)
        }
    }

    open spec fn decodes(value: ValueModel, out: Self) -> bool {
        value == ValueModel::Bool(out)
    }

    fn from_value(value: TypedValue) -> (r: Result<Self, ConversionError>) {
        match value {
            TypedValue::Bool(x) => Ok(x),
            _ => Err(ConversionError::TagMismatch),
        }
    }
}

impl AgentArg for bool {
    proof fn round_trip(&self) {
    }
}

impl ToWitType for bool {
    open spec fn shape() -> DescriptorModel {
        DescriptorModel::Bool
    }

    fn get_wit_type() -> (d: TypeDescriptor) {
        TypeDescriptor::Bool
    }

    proof fn encoding_has_shape(&self) {
    }

    proof fn shaped_values_decode(value: ValueModel) {
    }
}

impl ToValue for u8 {
    open spec fn encoded(&self) -> ValueModel {
        ValueModel::U8(*self)
    }

    fn to_value(&self) -> (r: TypedValue) {
        TypedValue::U8(*self)
    }
}

impl FromValue for u8 {
    open spec fn refusal(value: ValueModel) -> Option<ConversionFailure> {
        if value is U8 {
            None
        } else {
            Some(ConversionFailure::TagMismatch)
        }
    }

    open spec fn decodes(value: ValueModel, out: Self) -> bool {
        value == ValueModel::U8(out)
    }

    fn from_value(value: TypedValue) -> (r: Result<Self, ConversionError>) {
        match value {
            TypedValue::U8(x) => Ok(x),
            _ => Err(ConversionError::TagMismatch),
        }
    }
}

impl AgentArg for u8 {
    proof fn round_trip(&self) {
    }
}

impl ToWitType for u8 {
    open spec fn shape() -> DescriptorModel {
        DescriptorModel::U8
    }

    fn get_wit_type() -> (d: TypeDescriptor) {
        TypeDescriptor::U8
    }

    proof fn encoding_has_shape(&self) {
    }

    proof fn shaped_values_decode(value: ValueModel) {
    }
}

impl ToValue for u16 {
    open spec fn encoded(&self) -> ValueModel {
        ValueModel::U16(*self)
    }

    fn to_value(&self) -> (r: TypedValue) {
        TypedValue::U16(*self)
    }
}

impl FromValue for u16 {
    open spec fn refusal(value: ValueModel) -> Option<ConversionFailure> {
        if value is U16 {
            None
        } else {
            Some(ConversionFailure::TagMismatch)
        }
    }

    open spec fn decodes(value: ValueModel, out: Self) -> bool {
        value == ValueModel::U16(out)
    }

    fn from_value(value: TypedValue) -> (r: Result<Self, ConversionError>) {
        match value {
            TypedValue::U16(x) => Ok(x),
            _ => Err(ConversionError::TagMismatch),
        }
    }
}

impl AgentArg for u16 {
    proof fn round_trip(&self) {
    }
}

impl ToWitType for u16 {
    open spec fn shape() -> DescriptorModel {
        DescriptorModel::U16
    }

    fn get_wit_type() -> (d: TypeDescriptor) {
        TypeDescriptor::U16
    }

    proof fn encoding_has_shape(&self) {
    }

    proof fn shaped_values_decode(value: ValueModel) {
    }
}

impl ToValue for u32 {
    open spec fn encoded(&self) -> ValueModel {
        ValueModel::U32(*self)
    }

    fn to_value(&self) -> (r: TypedValue) {
        TypedValue::U32(*self)
    }
}

impl FromValue for u32 {
    open spec fn refusal(value: ValueModel) -> Option<ConversionFailure> {
        if value is U32 {
            None
        } else {
            Some(ConversionFailure::TagMismatch)
        }
    }

    open spec fn decodes(value: ValueModel, out: Self) -> bool {
        value == ValueModel::U32(out)
    }

    fn from_value(value: TypedValue) -> (r: Result<Self, ConversionError>) {
        match value {
            TypedValue::U32(x) => Ok(x),
            _ => Err(ConversionError::TagMismatch),
        }
    }
}

impl AgentArg for u32 {
    proof fn round_trip(&self) {
    }
}

impl ToWitType for u32 {
    open spec fn shape() -> DescriptorModel {
        DescriptorModel::U32
    }

    fn get_wit_type() -> (d: TypeDescriptor) {
        TypeDescriptor::U32
    }

    proof fn encoding_has_shape(&self) {
    }

    proof fn shaped_values_decode(value: ValueModel) {
    }
}

impl ToValue for u64 {
    open spec fn encoded(&self) -> ValueModel {
        ValueModel::U64(*self)
    }

    fn to_value(&self) -> (r: TypedValue) {
        TypedValue::U64(*self)
    }
}

impl FromValue for u64 {
    open spec fn refusal(value: ValueModel) -> Option<ConversionFailure> {
        if value is U64 {
            None
        } else {
            Some(ConversionFailure::TagMismatch)
        }
    }

    open spec fn decodes(value: ValueModel, out: Self) -> bool {
        value == ValueModel::U64(out)
    }

    fn from_value(value: TypedValue) -> (r: Result<Self, ConversionError>) {
        match value {
            TypedValue::U64(x) => Ok(x),
            _ => Err(ConversionError::TagMismatch),
        }
    }
}

impl AgentArg for u64 {
    proof fn round_trip(&self) {
    }
}

impl ToWitType for u64 {
    open spec fn shape() -> DescriptorModel {
        DescriptorModel::U64
    }

    fn get_wit_type() -> (d: TypeDescriptor) {
        TypeDescriptor::U64
    }

    proof fn encoding_has_shape(&self) {
    }

    proof fn shaped_values_decode(value: ValueModel) {
    }
}

impl ToValue for i8 {
    open spec fn encoded(&self) -> ValueModel {
        ValueModel::S8(*self)
    }

    fn to_value(&self) -> (r: TypedValue) {
        TypedValue::S8(*self)
    }
}

impl FromValue for i8 {
    open spec fn refusal(value: ValueModel) -> Option<ConversionFailure> {
        if value is S8 {
            None
        } else {
            Some(ConversionFailure::TagMismatch)
        }
    }

    open spec fn decodes(value: ValueModel, out: Self) -> bool {
        value == ValueModel::S8(out)
    }

    fn from_value(value: TypedValue) -> (r: Result<Self, ConversionError>) {
        match value {
            TypedValue::S8(x) => Ok(x),
            _ => Err(ConversionError::TagMismatch),
        }
    }
}

impl AgentArg for i8 {
    proof fn round_trip(&self) {
    }
}

impl ToWitType for i8 {
    open spec fn shape() -> DescriptorModel {
        DescriptorModel::S8
    }

    fn get_wit_type() -> (d: TypeDescriptor) {
        TypeDescriptor::S8
    }

    proof fn encoding_has_shape(&self) {
    }

    proof fn shaped_values_decode(value: ValueModel) {
    }
}

impl ToValue for i16 {
    open spec fn encoded(&self) -> ValueModel {
        ValueModel::S16(*self)
    }

    fn to_value(&self) -> (r: TypedValue) {
        TypedValue::S16(*self)
    }
}

impl FromValue for i16 {
    open spec fn refusal(value: ValueModel) -> Option<ConversionFailure> {
        if value is S16 {
            None
        } else {
            Some(ConversionFailure::TagMismatch)
        }
    }

    open spec fn decodes(value: ValueModel, out: Self) -> bool {
        value == ValueModel::S16(out)
    }

    fn from_value(value: TypedValue) -> (r: Result<Self, ConversionError>) {
        match value {
            TypedValue::S16(x) => Ok(x),
            _ => Err(ConversionError::TagMismatch),
        }
    }
}

impl AgentArg for i16 {
    proof fn round_trip(&self) {
    }
}

impl ToWitType for i16 {
    open spec fn shape() -> DescriptorModel {
        DescriptorModel::S16
    }

    fn get_wit_type() -> (d: TypeDescriptor) {
        TypeDescriptor::S16
    }

    proof fn encoding_has_shape(&self) {
    }

    proof fn shaped_values_decode(value: ValueModel) {
    }
}

impl ToValue for i32 {
    open spec fn encoded(&self) -> ValueModel {
        ValueModel::S32(*self)
    }

    fn to_value(&self) -> (r: TypedValue) {
        TypedValue::S32(*self)
    }
}

impl FromValue for i32 {
    open spec fn refusal(value: ValueModel) -> Option<ConversionFailure> {
        if value is S32 {
            None
        } else {
            Some(ConversionFailure::TagMismatch)
        }
    }

    open spec fn decodes(value: ValueModel, out: Self) -> bool {
        value == ValueModel::S32(out)
    }

    fn from_value(value: TypedValue) -> (r: Result<Self, ConversionError>) {
        match value {
            TypedValue::S32(x) => Ok(x),
            _ => Err(ConversionError::TagMismatch),
        }
    }
}

impl AgentArg for i32 {
    proof fn round_trip(&self) {
    }
}

impl ToWitType for i32 {
    open spec fn shape() -> DescriptorModel {
        DescriptorModel::S32
    }

    fn get_wit_type() -> (d: TypeDescriptor) {
        TypeDescriptor::S32
    }

    proof fn encoding_has_shape(&self) {
    }

    proof fn shaped_values_decode(value: ValueModel) {
    }
}

impl ToValue for i64 {
    open spec fn encoded(&self) -> ValueModel {
        ValueModel::S64(*self)
    }

    fn to_value(&self) -> (r: TypedValue) {
        TypedValue::S64(*self)
    }
}

impl FromValue for i64 {
    open spec fn refusal(value: ValueModel) -> Option<ConversionFailure> {
        if value is S64 {
            None
        } else {
            Some(ConversionFailure::TagMismatch)
        }
    }

    open spec fn decodes(value: ValueModel, out: Self) -> bool {
        value == ValueModel::S64(out)
    }

    fn from_value(value: TypedValue) -> (r: Result<Self, ConversionError>) {
        match value {
            TypedValue::S64(x) => Ok(x),
            _ => Err(ConversionError::TagMismatch),
        }
    }
}

impl AgentArg for i64 {
    proof fn round_trip(&self) {
    }
}

impl ToWitType for i64 {
    open spec fn shape() -> DescriptorModel {
        DescriptorModel::S64
    }

    fn get_wit_type() -> (d: TypeDescriptor) {
        TypeDescriptor::S64
    }

    proof fn encoding_has_shape(&self) {
    }

    proof fn shaped_values_decode(value: ValueModel) {
    }
}

fn char_value(c: char) -> (r: TypedValue)
    ensures
        r@ == ValueModel::Char(c),
{
    TypedValue::Char(c)
}

impl ToValue for char {
    open spec fn encoded(&self) -> ValueModel {
        ValueModel::Char(*self)
    }

    fn to_value(&self) -> (r: TypedValue) {
        char_value(*self)
    }
}

impl FromValue for char {
    open spec fn refusal(value: ValueModel) -> Option<ConversionFailure> {
        if value is Char {
            None
        } else {
            Some(ConversionFailure::TagMismatch)
        }
    }

    open spec fn decodes(value: ValueModel, out: Self) -> bool {
        value == ValueModel::Char(out)
    }

    fn from_value(value: TypedValue) -> (r: Result<Self, ConversionError>) {
        match value {
            TypedValue::Char(x) => Ok(x),
            _ => Err(ConversionError::TagMismatch),
        }
    }
}

impl AgentArg for char {
    proof fn round_trip(&self) {
    }
}

impl ToWitType for char {
    open spec fn shape() -> DescriptorModel {
        DescriptorModel::Char
    }

    fn get_wit_type() -> (d: TypeDescriptor) {
        TypeDescriptor::Char
    }

    proof fn encoding_has_shape(&self) {
    }

    proof fn shaped_values_decode(value: ValueModel) {
    }
}

/// The error with which a value is refused as a record of `expected`
/// fields, or `None` where it is one.
pub open spec fn record_refusal(value: ValueModel, expected: nat) -> Option<ConversionFailure> {
    match value {
        ValueModel::Record(fields) => if fields.len() == expected {
            None
        } else {
            Some(ConversionFailure::FieldCountMismatch { expected, actual: fields.len() })
        },
        _ => Some(ConversionFailure::TagMismatch),
    }
}

/// The values of the fields of a record, in order, without their names.
pub open spec fn field_values(fields: Seq<(Seq<char>, ValueModel)>) -> Seq<ValueModel> {
    Seq::new(fields.len(), |i: int| fields[i].1)
}

/// Opens a record for a target with `expected` fields: checks the tag and
/// the number of fields, and hands out the field values in their order.
///
/// The names that the record carries are not consulted: a record is decoded
/// by position.
pub fn record_fields(value: TypedValue, expected: usize) -> (r: Result<
    Vec<TypedValue>,
    ConversionError,
>)
    ensures
        match r {
            Ok(values) => record_refusal(value@, expected as nat) is None && models(values@)
                == field_values(value@->Record_0),
            Err(e) => record_refusal(value@, expected as nat) == Some(e@),
        },
{
    proof {
        lemma_model_of_items(value);
    }
    match value {
        TypedValue::Record(fields) => {
            if fields.len() != expected {
                return Err(
                    ConversionError::FieldCountMismatch { expected, actual: fields.len() },
                );
            }
            let ghost all = crate::value::field_models(fields@);
            let mut values: Vec<TypedValue> = Vec::new();
            for field in it: fields
                invariant
                    values.len() == it.index(),
                    it.seq() == fields@,
                    all == crate::value::field_models(fields@),
                    forall|j: int| 0 <= j < values.len() ==> values[j]@ == all[j].1,
            {
                assert(field.1@ == all[it.index() as int].1);
                values.push(field.1);
            }
            assert(models(values@) =~= field_values(all));
            Ok(values)
        },
        _ => Err(ConversionError::TagMismatch),
    }
}

/// Decodes the value of the field `field` of a record. A failure is
/// reported under the name of the field.
pub fn field_from_value<T: FromValue>(value: TypedValue, field: &str) -> (r: Result<
    T,
    ConversionError,
>)
    ensures
        match r {
            Ok(out) => T::refusal(value@) is None && T::decodes(value@, out),
            Err(e) => T::refusal(value@) is Some && e@
                == (ConversionFailure::FieldConversionFailure { field: field@ }),
        },
{
    match T::from_value(value) {
        Ok(out) => Ok(out),
        Err(_) => Err(ConversionError::FieldConversionFailure { field: field.to_owned() }),
    }
}

} // verus!
