//! Typed messages: an id bound to the type of value that goes with it.

use vstd::prelude::*;
use crate::packet::{Message, MessageNumber, Value, WrongValueKind};

verus! {

/// A wire value of one kind: a byte, a 16-bit or a 32-bit number.
pub trait ValueRepr: Sized + Copy {
    /// The value that carries this number.
    spec fn value_of(self) -> Value;

    /// The number that `value` carries, where it is of this kind.
    spec fn of_value(value: Value) -> Option<Self>;

    fn try_from_value(value: Value) -> (r: Result<Self, WrongValueKind>)
        ensures
            r is Ok <==> Self::of_value(value) is Some,
            r matches Ok(repr) ==> Self::of_value(value) == Some(repr),
    ;

    fn to_value(&self) -> (value: Value)
        ensures
            value == self.value_of(),
    ;
}

impl ValueRepr for u8 {
    open spec fn value_of(self) -> Value {
        Value::Enum(self)
    }

    open spec fn of_value(value: Value) -> Option<u8> {
        match value {
            Value::Enum(v) => Some(v),
            _ => None,
        }
    }

    fn try_from_value(value: Value) -> (r: Result<u8, WrongValueKind>) {
        value.expect_u8()
    }

    fn to_value(&self) -> (value: Value) {
        Value::Enum(*self)
    }
}

impl ValueRepr for u16 {
    open spec fn value_of(self) -> Value {
        Value::Variable(self)
    }

    open spec fn of_value(value: Value) -> Option<u16> {
        match value {
            Value::Variable(v) => Some(v),
            _ => None,
        }
    }

    fn try_from_value(value: Value) -> (r: Result<u16, WrongValueKind>) {
        value.expect_u16()
    }

    fn to_value(&self) -> (value: Value) {
        Value::Variable(*self)
    }
}

impl ValueRepr for u32 {
    open spec fn value_of(self) -> Value {
        Value::LongVariable(self)
    }

    open spec fn of_value(value: Value) -> Option<u32> {
        match value {
            Value::LongVariable(v) => Some(v),
            _ => None,
        }
    }

    fn try_from_value(value: Value) -> (r: Result<u32, WrongValueKind>) {
        value.expect_u32()
    }

    fn to_value(&self) -> (value: Value) {
        Value::LongVariable(*self)
    }
}

/// A type whose values travel as a wire value of one kind.
pub trait ValueType: Sized {
    type Err: Sized;

    type Repr: ValueRepr;

    /// The number that stands for this value on the wire.
    spec fn repr_of(&self) -> Self::Repr;

    /// The value that `repr` stands for, where it stands for one.
    spec fn of_repr(repr: Self::Repr) -> Option<Self>;

    fn try_from_repr(repr: Self::Repr) -> (r: Result<Self, Self::Err>)
        ensures
            r is Ok <==> Self::of_repr(repr) is Some,
            r matches Ok(value) ==> Self::of_repr(repr) == Some(value),
    ;

    fn to_repr(&self) -> (repr: Self::Repr)
        ensures
            repr == self.repr_of(),
    ;

    fn try_from_value(value: Value) -> (r: Option<Self>)
        ensures
            r == match Self::Repr::of_value(value) {
                Some(repr) => Self::of_repr(repr),
                None => None,
            },
    {
        let repr = match Self::Repr::try_from_value(value) {
            Ok(repr) => repr,
            Err(_) => {
                return None;
            },
        };
        match Self::try_from_repr(repr) {
            Ok(value) => Some(value),
            Err(_) => None,
        }
    }

    fn to_value(&self) -> (value: Value)
        ensures
            value == self.repr_of().value_of(),
    {
        self.to_repr().to_value()
    }
}

/// The typed value that a wire value stands for: none where the wire value
/// is of another kind, or where its number stands for no value of the type.
pub open spec fn decode<T: ValueType>(value: Value) -> Option<T> {
    match T::Repr::of_value(value) {
        Some(repr) => T::of_repr(repr),
        None => None,
    }
}

/// An id and the type of value that goes with it.
pub trait IsMessage: Sized {
    type Value: Sized + ValueType;

    /// The id of the message.
    spec fn spec_number() -> MessageNumber;

    /// The value that the message holds.
    spec fn value(&self) -> Self::Value;

    fn number() -> (number: MessageNumber)
        ensures
            number == Self::spec_number(),
    ;

    /// The typed value of `msg`, where `msg` has this id and its value
    /// stands for one.
    fn get(msg: &Message) -> (r: Option<Self::Value>)
        ensures
            r == if msg.number == Self::spec_number() {
                decode::<Self::Value>(msg.value)
            } else {
                None
            },
    ;

    fn new(value: Self::Value) -> (typed: Self)
        ensures
            typed.value() == value,
    ;

    fn to_message(&self) -> (msg: Message)
        ensures
            msg.number == Self::spec_number(),
            msg.value == self.value().repr_of().value_of(),
    ;
}

/// What `get` of the typed message `M` finds in `msg`.
pub open spec fn typed_value<M: IsMessage>(msg: Message) -> Option<M::Value> {
    if msg.number == M::spec_number() {
        decode::<M::Value>(msg.value)
    } else {
        None
    }
}

/// A value of type `T` under the id `N`.
pub struct TypedMessage<const N: u16, T>(pub T);

impl<const N: u16, T: ValueType> IsMessage for TypedMessage<N, T> {
    type Value = T;

    open spec fn spec_number() -> MessageNumber {
        MessageNumber(N)
    }

    open spec fn value(&self) -> T {
        self.0
    }

    fn number() -> (number: MessageNumber) {
        MessageNumber(N)
    }

    fn get(msg: &Message) -> (r: Option<T>) {
        if msg.number.0 == N {
            T::try_from_value(msg.value)
        } else {
            None
        }
    }

    fn new(value: T) -> (typed: Self) {
        TypedMessage(value)
    }

    fn to_message(&self) -> (msg: Message) {
        Message { number: MessageNumber(N), value: self.0.to_value() }
    }
}

} // verus!
