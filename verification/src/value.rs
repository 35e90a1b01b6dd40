//! MessagePack values and their mathematical model.

use vstd::prelude::*;

verus! {

/// A MessagePack integer. The wire format has an unsigned and a signed family
/// of encodings; the variant records which one a number came in, and `==`
/// tells the two apart.
#[derive(Clone, Copy, Debug, PartialEq, Eq, Structural)]
pub enum Integer {
    U64(u64),
    I64(i64),
}

impl Integer {
    /// The number this integer stands for, whichever way it is encoded.
    pub open spec fn value(self) -> int {
        match self {
            Integer::U64(n) => n as int,
            Integer::I64(n) => n as int,
        }
    }

    /// Whether two integers stand for the same number. An unsigned and a
    /// signed encoding of one number are the same value.
    pub fn same_value(&self, other: &Integer) -> (same: bool)
        ensures
            same == (self.value() == other.value()),
    {
        match (*self, *other) {
            (Integer::U64(a), Integer::U64(b)) => a == b,
            (Integer::I64(a), Integer::I64(b)) => a == b,
            (Integer::U64(a), Integer::I64(b)) => b >= 0 && a == b as u64,
            (Integer::I64(a), Integer::U64(b)) => a >= 0 && a as u64 == b,
        }
    }
}

/// A MessagePack floating-point number, held as its IEEE 754 bit pattern.
#[derive(Clone, Copy, Debug, PartialEq, Eq, Structural)]
pub enum Float {
    /// The bits of a number of single precision.
    F32(u32),
    /// The bits of a number of double precision.
    F64(u64),
}

/// Any MessagePack value.
#[derive(Debug, PartialEq, Eq)]
pub enum Value {
    Nil,
    Boolean(bool),
    Integer(Integer),
    Float(Float),
    String(String),
    Binary(Vec<u8>),
    Array(Vec<Value>),
    /// A map, as the pairs of a key and a value in the order of the wire. A
    /// key may occur more than once.
    Mapping(Vec<(Value, Value)>),
    /// An extension: the type that the application gave it, and its bytes.
    Ext(i8, Vec<u8>),
}

/// The mathematical model of a [`Value`]: the same tree, with sequences in
/// place of strings and vectors.
pub enum ValueView {
    Nil,
    Boolean(bool),
    Integer(Integer),
    Float(Float),
    String(Seq<char>),
    Binary(Seq<u8>),
    Array(Seq<ValueView>),
    Mapping(Seq<(ValueView, ValueView)>),
    Ext(i8, Seq<u8>),
}

impl View for Value {
    type V = ValueView;

    /// The model of a value. An array is modelled by the models of its
    /// elements and a map by those of its keys and values; the test of the
    /// index in both is there for the proof of termination alone.
    open spec fn view(&self) -> ValueView
        decreases self,
    {
        match self {
            Value::Nil => ValueView::Nil,
            Value::Boolean(b) => ValueView::Boolean(*b),
            Value::Integer(n) => ValueView::Integer(*n),
            Value::Float(x) => ValueView::Float(*x),
            Value::String(s) => ValueView::String(s@),
            Value::Binary(bytes) => ValueView::Binary(bytes@),
            Value::Array(items) => ValueView::Array(
                Seq::new(
                    items@.len(),
                    |i: int|
                        if 0 <= i < items@.len() {
                            items@[i].view()
                        } else {
                            ValueView::Nil
                        },
                ),
            ),
            Value::Mapping(pairs) => ValueView::Mapping(
                Seq::new(
                    pairs@.len(),
                    |i: int|
                        if 0 <= i < pairs@.len() {
                            (pairs@[i].0.view(), pairs@[i].1.view())
                        } else {
                            (ValueView::Nil, ValueView::Nil)
                        },
                ),
            ),
            Value::Ext(ty, bytes) => ValueView::Ext(*ty, bytes@),
        }
    }
}

/// The models of the values of a sequence, element by element.
pub open spec fn views(values: Seq<Value>) -> Seq<ValueView> {
    Seq::new(values.len(), |i: int| values[i]@)
}

/// An array is modelled by the models of its elements.
pub proof fn lemma_array_view(items: Vec<Value>)
    ensures
        Value::Array(items)@ == ValueView::Array(views(items@)),
{
    reveal_with_fuel(<Value as View>::view, 2);
    assert(Value::Array(items)@->Array_0 =~= views(items@));
}

} // verus!
