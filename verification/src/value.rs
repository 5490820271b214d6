//! The closed schema of record shapes the traversal protocol walks: scalars,
//! fixed-capacity text buffers, nullable wrappers, tuples and records.

use vstd::prelude::*;
use crate::bind_types::{spec_kind_size, ScalarKind};
use crate::nullable::Nullable;
use crate::text::Text;

verus! {

/// Byte size of a native length/NULL indicator slot.
pub const IND_SIZE: usize = 8;

/// A primitive value of one of the supported scalar kinds.
#[derive(PartialEq, Eq, Structural)]
#[derive(Clone, Copy, Debug)]
pub enum Scalar {
    I8(i8),
    I16(i16),
    I32(i32),
    I64(i64),
    U8(u8),
    U16(u16),
    U32(u32),
    U64(u64),
    Bool(bool),
}

impl Scalar {
    /// The kind this value belongs to.
    pub open spec fn spec_kind(&self) -> ScalarKind {
        match *self {
            Scalar::I8(_) => ScalarKind::I8,
            Scalar::I16(_) => ScalarKind::I16,
            Scalar::I32(_) => ScalarKind::I32,
            Scalar::I64(_) => ScalarKind::I64,
            Scalar::U8(_) => ScalarKind::U8,
            Scalar::U16(_) => ScalarKind::U16,
            Scalar::U32(_) => ScalarKind::U32,
            Scalar::U64(_) => ScalarKind::U64,
            Scalar::Bool(_) => ScalarKind::Bool,
        }
    }

    /// The kind this value belongs to.
    pub fn kind(&self) -> (k: ScalarKind)
        ensures
            k == self.spec_kind(),
    {
        match *self {
            Scalar::I8(_) => ScalarKind::I8,
            Scalar::I16(_) => ScalarKind::I16,
            Scalar::I32(_) => ScalarKind::I32,
            Scalar::I64(_) => ScalarKind::I64,
            Scalar::U8(_) => ScalarKind::U8,
            Scalar::U16(_) => ScalarKind::U16,
            Scalar::U32(_) => ScalarKind::U32,
            Scalar::U64(_) => ScalarKind::U64,
            Scalar::Bool(_) => ScalarKind::Bool,
        }
    }
}

/// A value of a statically declared record shape.
#[derive(Debug, PartialEq, Eq)]
pub enum Value {
    /// A primitive scalar field.
    Scalar(Scalar),
    /// A fixed-capacity text buffer.
    Text(Text),
    /// A nullable wrapper around a single primitive.
    Nullable(Nullable),
    /// An ordered tuple of elements.
    Tuple(Vec<Value>),
    /// An ordered record of fields.
    Record(Vec<Value>),
}

/// In-memory byte size of a value: scalars take their kind's size, text
/// buffers and nullable wrappers an indicator slot plus their payload, and
/// composites the sum of their parts.
pub open spec fn value_size(v: Value) -> nat
    decreases v,
{
    match v {
        Value::Scalar(s) => spec_kind_size(s.spec_kind()),
        Value::Text(t) => (IND_SIZE + t.spec_capacity()) as nat,
        Value::Nullable(n) => (IND_SIZE + value_size(*n.value)) as nat,
        Value::Tuple(vs) => seq_size(vs@),
        Value::Record(vs) => seq_size(vs@),
    }
}

/// Sum of the byte sizes of a sequence of values.
pub open spec fn seq_size(s: Seq<Value>) -> nat
    decreases s,
{
    if s.len() == 0 {
        0
    } else {
        value_size(s[0]) + seq_size(s.drop_first())
    }
}

/// True of the shapes the traversal protocol accepts: a nullable wrapper
/// must hold a single scalar; everything else in the closed schema is
/// supported as it stands.
pub open spec fn supported(v: Value) -> bool
    decreases v,
{
    match v {
        Value::Scalar(_) => true,
        Value::Text(_) => true,
        Value::Nullable(n) => *n.value is Scalar,
        Value::Tuple(vs) => supported_seq(vs@),
        Value::Record(vs) => supported_seq(vs@),
    }
}

/// All values of the sequence are supported.
pub open spec fn supported_seq(s: Seq<Value>) -> bool
    decreases s,
{
    forall|i: int| 0 <= i < s.len() ==> supported(#[trigger] s[i])
}

/// Two values have the same declared shape: same kinds, same declared text
/// capacities, same structure.  Current text contents and field values may
/// differ.
pub open spec fn same_shape(a: Value, b: Value) -> bool
    decreases a,
{
    match (a, b) {
        (Value::Scalar(x), Value::Scalar(y)) => x.spec_kind() == y.spec_kind(),
        (Value::Text(x), Value::Text(y)) => x.spec_capacity() == y.spec_capacity(),
        (Value::Nullable(x), Value::Nullable(y)) => same_shape(*x.value, *y.value),
        (Value::Tuple(x), Value::Tuple(y)) => same_shape_seq(x@, y@),
        (Value::Record(x), Value::Record(y)) => same_shape_seq(x@, y@),
        _ => false,
    }
}

/// Elementwise shape equality of two sequences of values.
pub open spec fn same_shape_seq(a: Seq<Value>, b: Seq<Value>) -> bool
    decreases a,
{
    a.len() == b.len() && forall|i: int|
        0 <= i < a.len() ==> same_shape(#[trigger] a[i], b[i])
}

/// Deep equality of two values: same shape and same contents.
pub open spec fn veq(a: Value, b: Value) -> bool
    decreases a,
{
    match (a, b) {
        (Value::Scalar(x), Value::Scalar(y)) => x == y,
        (Value::Text(x), Value::Text(y)) => x@ == y@ && x.spec_capacity() == y.spec_capacity(),
        (Value::Nullable(x), Value::Nullable(y)) => x.indicator == y.indicator && veq(
            *x.value,
            *y.value,
        ),
        (Value::Tuple(x), Value::Tuple(y)) => veq_seq(x@, y@),
        (Value::Record(x), Value::Record(y)) => veq_seq(x@, y@),
        _ => false,
    }
}

/// Elementwise deep equality of two sequences of values.
pub open spec fn veq_seq(a: Seq<Value>, b: Seq<Value>) -> bool
    decreases a,
{
    a.len() == b.len() && forall|i: int| 0 <= i < a.len() ==> veq(#[trigger] a[i], b[i])
}

impl Value {
    /// A deep copy of the value.
    pub fn duplicate(&self) -> (r: Value)
        ensures
            veq(r, *self),
        decreases *self,
    {
        match self {
            Value::Scalar(s) => Value::Scalar(*s),
            Value::Text(t) => Value::Text(t.duplicate()),
            Value::Nullable(n) => Value::Nullable(
                Nullable { indicator: n.indicator, value: Box::new((&*n.value).duplicate()) },
            ),
            Value::Tuple(vs) => Value::Tuple(duplicate_all(vs)),
            Value::Record(vs) => Value::Record(duplicate_all(vs)),
        }
    }
}

/// A deep copy of each value of the sequence, in order.
fn duplicate_all(vs: &Vec<Value>) -> (r: Vec<Value>)
    ensures
        veq_seq(r@, vs@),
    decreases vs@,
{
    let mut out: Vec<Value> = Vec::new();
    let mut i: usize = 0;
    while i < vs.len()
        invariant
            i <= vs@.len(),
            out@.len() == i,
            forall|j: int| 0 <= j < i ==> veq(#[trigger] out@[j], vs@[j]),
        decreases vs@.len() - i,
    {
        out.push(vs[i].duplicate());
        i = i + 1;
    }
    out
}

/// Deep equality is reflexive.
pub proof fn lemma_veq_refl(v: Value)
    ensures
        veq(v, v),
    decreases v,
{
    match v {
        Value::Nullable(n) => lemma_veq_refl(*n.value),
        Value::Tuple(vs) => lemma_veq_seq_refl(vs@),
        Value::Record(vs) => lemma_veq_seq_refl(vs@),
        _ => (),
    }
}

/// Elementwise deep equality is reflexive.
pub proof fn lemma_veq_seq_refl(s: Seq<Value>)
    ensures
        veq_seq(s, s),
    decreases s,
{
    assert forall|i: int| 0 <= i < s.len() implies veq(#[trigger] s[i], s[i]) by {
        lemma_veq_refl(s[i]);
    }
}

/// Taking one more value adds exactly its size to a prefix sum.
pub proof fn lemma_seq_size_take_succ(s: Seq<Value>, i: int)
    requires
        0 <= i < s.len(),
    ensures
        seq_size(s.take(i + 1)) == seq_size(s.take(i)) + value_size(s[i]),
    decreases s,
{
    if i == 0 {
        assert(s.take(1)[0] == s[0]);
        assert(s.take(1).drop_first() =~= s.take(0));
        assert(seq_size(s.take(0)) == 0);
    } else {
        lemma_seq_size_take_succ(s.drop_first(), i - 1);
        assert(s.take(i + 1).drop_first() =~= s.drop_first().take(i));
        assert(s.take(i).drop_first() =~= s.drop_first().take(i - 1));
        assert(s.take(i + 1)[0] == s[0]);
        assert(s.take(i)[0] == s[0]);
        assert(s.drop_first()[i - 1] == s[i]);
    }
}

/// A prefix never outweighs the whole sequence.
pub proof fn lemma_seq_size_take_le(s: Seq<Value>, i: int)
    requires
        0 <= i <= s.len(),
    ensures
        seq_size(s.take(i)) <= seq_size(s),
    decreases s.len() - i,
{
    if i == s.len() {
        assert(s.take(i) =~= s);
    } else {
        lemma_seq_size_take_succ(s, i);
        lemma_seq_size_take_le(s, i + 1);
    }
}

/// Deeply equal values have the same shape.
pub proof fn lemma_veq_same_shape(a: Value, b: Value)
    requires
        veq(a, b),
    ensures
        same_shape(a, b),
    decreases a,
{
    match (a, b) {
        (Value::Nullable(x), Value::Nullable(y)) => lemma_veq_same_shape(*x.value, *y.value),
        (Value::Tuple(x), Value::Tuple(y)) => lemma_veq_seq_same_shape(x@, y@),
        (Value::Record(x), Value::Record(y)) => lemma_veq_seq_same_shape(x@, y@),
        _ => (),
    }
}

/// Elementwise deeply equal sequences have elementwise equal shapes.
pub proof fn lemma_veq_seq_same_shape(a: Seq<Value>, b: Seq<Value>)
    requires
        veq_seq(a, b),
    ensures
        same_shape_seq(a, b),
    decreases a,
{
    assert forall|i: int| 0 <= i < a.len() implies same_shape(#[trigger] a[i], b[i]) by {
        lemma_veq_same_shape(a[i], b[i]);
    }
}

/// Shape equality is reflexive.
pub proof fn lemma_same_shape_refl(v: Value)
    ensures
        same_shape(v, v),
    decreases v,
{
    match v {
        Value::Nullable(n) => lemma_same_shape_refl(*n.value),
        Value::Tuple(vs) => lemma_same_shape_seq_refl(vs@),
        Value::Record(vs) => lemma_same_shape_seq_refl(vs@),
        _ => (),
    }
}

/// Elementwise shape equality is reflexive.
pub proof fn lemma_same_shape_seq_refl(s: Seq<Value>)
    ensures
        same_shape_seq(s, s),
    decreases s,
{
    assert forall|i: int| 0 <= i < s.len() implies same_shape(#[trigger] s[i], s[i]) by {
        lemma_same_shape_refl(s[i]);
    }
}

/// Shape equality is transitive.
pub proof fn lemma_same_shape_trans(a: Value, b: Value, c: Value)
    requires
        same_shape(a, b),
        same_shape(b, c),
    ensures
        same_shape(a, c),
    decreases a,
{
    match (a, b, c) {
        (Value::Nullable(x), Value::Nullable(y), Value::Nullable(z)) => {
            lemma_same_shape_trans(*x.value, *y.value, *z.value);
        },
        (Value::Tuple(x), Value::Tuple(y), Value::Tuple(z)) => {
            lemma_same_shape_seq_trans(x@, y@, z@);
        },
        (Value::Record(x), Value::Record(y), Value::Record(z)) => {
            lemma_same_shape_seq_trans(x@, y@, z@);
        },
        _ => (),
    }
}

/// Elementwise shape equality is transitive.
pub proof fn lemma_same_shape_seq_trans(a: Seq<Value>, b: Seq<Value>, c: Seq<Value>)
    requires
        same_shape_seq(a, b),
        same_shape_seq(b, c),
    ensures
        same_shape_seq(a, c),
    decreases a,
{
    assert forall|i: int| 0 <= i < a.len() implies same_shape(#[trigger] a[i], c[i]) by {
        assert(same_shape(a[i], b[i]));
        assert(same_shape(b[i], c[i]));
        lemma_same_shape_trans(a[i], b[i], c[i]);
    }
}

/// Values of the same shape have the same byte size.
pub proof fn lemma_same_shape_size(a: Value, b: Value)
    requires
        same_shape(a, b),
    ensures
        value_size(a) == value_size(b),
    decreases a,
{
    match (a, b) {
        (Value::Nullable(x), Value::Nullable(y)) => lemma_same_shape_size(*x.value, *y.value),
        (Value::Tuple(x), Value::Tuple(y)) => lemma_same_shape_seq_size(x@, y@),
        (Value::Record(x), Value::Record(y)) => lemma_same_shape_seq_size(x@, y@),
        _ => (),
    }
}

/// Sequences of elementwise equal shapes have the same total byte size.
pub proof fn lemma_same_shape_seq_size(a: Seq<Value>, b: Seq<Value>)
    requires
        same_shape_seq(a, b),
    ensures
        seq_size(a) == seq_size(b),
    decreases a,
{
    if a.len() > 0 {
        lemma_same_shape_size(a[0], b[0]);
        lemma_same_shape_seq_size(a.drop_first(), b.drop_first());
    }
}

/// Values of the same shape are accepted or rejected alike by the traversal
/// protocol.
pub proof fn lemma_same_shape_supported(a: Value, b: Value)
    requires
        same_shape(a, b),
    ensures
        supported(a) == supported(b),
    decreases a,
{
    match (a, b) {
        (Value::Nullable(x), Value::Nullable(y)) => {
            assert(same_shape(*x.value, *y.value));
        },
        (Value::Tuple(x), Value::Tuple(y)) => lemma_same_shape_seq_supported(x@, y@),
        (Value::Record(x), Value::Record(y)) => lemma_same_shape_seq_supported(x@, y@),
        _ => (),
    }
}

/// Sequences of elementwise equal shapes are accepted or rejected alike.
pub proof fn lemma_same_shape_seq_supported(a: Seq<Value>, b: Seq<Value>)
    requires
        same_shape_seq(a, b),
    ensures
        supported_seq(a) == supported_seq(b),
    decreases a,
{
    if supported_seq(a) {
        assert forall|i: int| 0 <= i < b.len() implies supported(#[trigger] b[i]) by {
            assert(supported(a[i]));
            lemma_same_shape_supported(a[i], b[i]);
        }
    }
    if supported_seq(b) {
        assert forall|i: int| 0 <= i < a.len() implies supported(#[trigger] a[i]) by {
            assert(supported(b[i]));
            lemma_same_shape_supported(a[i], b[i]);
        }
    }
}

} // verus!
