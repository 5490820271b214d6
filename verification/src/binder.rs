//! Structural traversal protocol: walks a value's declared shape and emits
//! one bind descriptor per primitive field, in declaration order.

use vstd::prelude::*;
use crate::bind_types::{spec_kind_size, ScalarKind};
use crate::error::Error;
use crate::value::{seq_size, supported, supported_seq, value_size, Value, IND_SIZE};

verus! {

/// One unit emitted by the traversal: the association of one primitive field
/// with a region of the record's storage, as byte offsets from the record's
/// start.
#[derive(Clone, Copy, Debug, PartialEq, Eq)]
pub enum Descriptor {
    /// A scalar field: its kind, the offset of its storage, and the offset
    /// of its indicator when it sits inside a nullable wrapper.
    Scalar { kind: ScalarKind, offset: usize, indicator: Option<usize> },
    /// A text field: its current length, its declared capacity, the offset
    /// of its byte storage, and the offset of its indicator.
    Text { len: usize, capacity: usize, offset: usize, indicator: usize },
}

/// The descriptors a supported value yields, in declaration order, with
/// offsets starting at `off`.
pub open spec fn descs_of(v: Value, off: int) -> Seq<Descriptor>
    decreases v,
{
    match v {
        Value::Scalar(s) => seq![
            Descriptor::Scalar { kind: s.spec_kind(), offset: off as usize, indicator: None },
        ],
        Value::Text(t) => seq![
            Descriptor::Text {
                len: t@.len() as usize,
                capacity: t.spec_capacity() as usize,
                offset: (off + IND_SIZE) as usize,
                indicator: off as usize,
            },
        ],
        Value::Nullable(n) => match *n.value {
            Value::Scalar(s) => seq![
                Descriptor::Scalar {
                    kind: s.spec_kind(),
                    offset: (off + IND_SIZE) as usize,
                    indicator: Some(off as usize),
                },
            ],
            _ => Seq::empty(),
        },
        Value::Tuple(vs) => descs_of_seq(vs@, off),
        Value::Record(vs) => descs_of_seq(vs@, off),
    }
}

/// The descriptors of a sequence of values laid out one after another.
pub open spec fn descs_of_seq(s: Seq<Value>, off: int) -> Seq<Descriptor>
    decreases s,
{
    if s.len() == 0 {
        Seq::empty()
    } else {
        descs_of(s[0], off) + descs_of_seq(s.drop_first(), off + value_size(s[0]))
    }
}

/// Bounds the traversal guarantees of every descriptor it emits: the
/// described region fits in the address space, a text's current length never
/// exceeds its declared capacity, and a text's storage sits one indicator
/// slot past its indicator.
pub open spec fn desc_fits(d: Descriptor) -> bool {
    match d {
        Descriptor::Scalar { kind, offset, indicator } => offset + spec_kind_size(kind)
            <= usize::MAX && (indicator is Some ==> indicator->0 + IND_SIZE <= usize::MAX),
        Descriptor::Text { len, capacity, offset, indicator } => len <= capacity && indicator
            + IND_SIZE + capacity <= usize::MAX && offset == indicator + IND_SIZE,
    }
}

/// Taking one more value appends exactly its descriptors to a prefix.
pub proof fn lemma_descs_of_seq_take_succ(s: Seq<Value>, i: int, off: int)
    requires
        0 <= i < s.len(),
    ensures
        descs_of_seq(s.take(i + 1), off) == descs_of_seq(s.take(i), off) + descs_of(
            s[i],
            off + seq_size(s.take(i)),
        ),
    decreases s,
{
    if i == 0 {
        assert(s.take(1)[0] == s[0]);
        assert(s.take(1).drop_first() =~= s.take(0));
        assert(s.take(0).len() == 0);
        assert(descs_of_seq(s.take(0), off) == Seq::<Descriptor>::empty());
        assert(descs_of_seq(s.take(0), off + value_size(s[0])) == Seq::<Descriptor>::empty());
        assert(descs_of_seq(s.take(1), off) == descs_of(s.take(1)[0], off) + descs_of_seq(
            s.take(1).drop_first(),
            off + value_size(s.take(1)[0]),
        ));
        assert(descs_of_seq(s.take(1), off) =~= descs_of(s[0], off));
        assert(seq_size(s.take(0)) == 0);
        assert(descs_of_seq(s.take(0), off) + descs_of(s[0], off) =~= descs_of(s[0], off));
    } else {
        lemma_descs_of_seq_take_succ(s.drop_first(), i - 1, off + value_size(s[0]));
        assert(s.take(i + 1).drop_first() =~= s.drop_first().take(i));
        assert(s.take(i).drop_first() =~= s.drop_first().take(i - 1));
        assert(s.take(i + 1)[0] == s[0]);
        assert(s.take(i)[0] == s[0]);
        assert(s.drop_first()[i - 1] == s[i]);
        crate::value::lemma_seq_size_take_succ(s, i);
        assert(seq_size(s.take(i)) == seq_size(s.take(i - 1)) + value_size(s[i - 1])) by {
            crate::value::lemma_seq_size_take_succ(s, i - 1);
        }
        assert(s.drop_first().take(i - 1) =~= s.take(i).drop_first());
        crate::value::lemma_seq_size_take_succ(s.drop_first(), i - 1);
        assert(descs_of_seq(s.take(i + 1), off) == descs_of(s[0], off) + descs_of_seq(
            s.drop_first().take(i),
            off + value_size(s[0]),
        ));
        assert(descs_of_seq(s.take(i), off) == descs_of(s[0], off) + descs_of_seq(
            s.drop_first().take(i - 1),
            off + value_size(s[0]),
        ));
        assert(seq_size(s.drop_first().take(i - 1)) == seq_size(s.take(i)) - value_size(s[0]));
        assert(descs_of_seq(s.take(i + 1), off) =~= descs_of_seq(s.take(i), off) + descs_of(
            s[i],
            off + seq_size(s.take(i)),
        ));
    }
}

/// Values of the same shape emit the same number of descriptors, wherever
/// they are laid out.
pub proof fn lemma_same_shape_descs_len(a: Value, b: Value, off_a: int, off_b: int)
    requires
        crate::value::same_shape(a, b),
    ensures
        descs_of(a, off_a).len() == descs_of(b, off_b).len(),
    decreases a,
{
    match (a, b) {
        (Value::Nullable(x), Value::Nullable(y)) => {
            assert(crate::value::same_shape(*x.value, *y.value));
        },
        (Value::Tuple(x), Value::Tuple(y)) => lemma_same_shape_descs_len_seq(x@, y@, off_a, off_b),
        (Value::Record(x), Value::Record(y)) => lemma_same_shape_descs_len_seq(
            x@,
            y@,
            off_a,
            off_b,
        ),
        _ => (),
    }
}

/// Sequences of elementwise equal shapes emit the same number of
/// descriptors.
pub proof fn lemma_same_shape_descs_len_seq(a: Seq<Value>, b: Seq<Value>, off_a: int, off_b: int)
    requires
        crate::value::same_shape_seq(a, b),
    ensures
        descs_of_seq(a, off_a).len() == descs_of_seq(b, off_b).len(),
    decreases a,
{
    if a.len() > 0 {
        lemma_same_shape_descs_len(a[0], b[0], off_a, off_b);
        assert(crate::value::same_shape_seq(a.drop_first(), b.drop_first())) by {
            assert forall|i: int|
                0 <= i < a.drop_first().len() implies crate::value::same_shape(
                #[trigger] a.drop_first()[i],
                b.drop_first()[i],
            ) by {
                assert(a.drop_first()[i] == a[i + 1]);
                assert(b.drop_first()[i] == b[i + 1]);
            }
        }
        lemma_same_shape_descs_len_seq(
            a.drop_first(),
            b.drop_first(),
            off_a + value_size(a[0]),
            off_b + value_size(b[0]),
        );
    }
}

/// A prefix emits no more descriptors than the whole sequence.
pub proof fn lemma_descs_len_take_le(s: Seq<Value>, i: int, off: int)
    requires
        0 <= i <= s.len(),
    ensures
        descs_of_seq(s.take(i), off).len() <= descs_of_seq(s, off).len(),
    decreases s.len() - i,
{
    if i == s.len() {
        assert(s.take(i) =~= s);
    } else {
        lemma_descs_of_seq_take_succ(s, i, off);
        lemma_descs_len_take_le(s, i + 1, off);
    }
}

/// Byte size of a value, or nothing where it exceeds the address space.
/// Where it returns a size, the value meets the size bound the binding
/// strategies demand.
pub fn try_byte_size(v: &Value) -> (r: Option<usize>)
    ensures
        r is Some <==> value_size(*v) <= usize::MAX,
        r is Some ==> r->0 == value_size(*v),
    decreases *v,
{
    match v {
        Value::Scalar(s) => Some(s.kind().size()),
        Value::Text(t) => {
            let cap = t.capacity();
            if cap <= usize::MAX - IND_SIZE {
                Some(IND_SIZE + cap)
            } else {
                None
            }
        },
        Value::Nullable(n) => match try_byte_size(&*n.value) {
            Some(inner) => if inner <= usize::MAX - IND_SIZE {
                Some(IND_SIZE + inner)
            } else {
                None
            },
            None => None,
        },
        Value::Tuple(vs) => try_seq_byte_size(vs),
        Value::Record(vs) => try_seq_byte_size(vs),
    }
}

/// Total byte size of a sequence of values, or nothing on overflow.
fn try_seq_byte_size(vs: &Vec<Value>) -> (r: Option<usize>)
    ensures
        r is Some <==> seq_size(vs@) <= usize::MAX,
        r is Some ==> r->0 == seq_size(vs@),
    decreases vs@,
{
    let mut total: usize = 0;
    let mut i: usize = 0;
    while i < vs.len()
        invariant
            i <= vs@.len(),
            total == seq_size(vs@.take(i as int)),
        decreases vs@.len() - i,
    {
        proof {
            crate::value::lemma_seq_size_take_succ(vs@, i as int);
            crate::value::lemma_seq_size_take_le(vs@, i + 1);
        }
        match try_byte_size(&vs[i]) {
            Some(c) => {
                if c <= usize::MAX - total {
                    total = total + c;
                } else {
                    return None;
                }
            },
            None => {
                return None;
            },
        }
        i = i + 1;
    }
    proof {
        assert(vs@.take(vs@.len() as int) =~= vs@);
    }
    Some(total)
}

/// Number of bind descriptors the value emits, or nothing where it exceeds
/// the native ordinal range.  Where it returns a count, the value meets the
/// ordinal bound the binding strategies demand.
pub fn try_ordinal_count(v: &Value) -> (r: Option<u16>)
    ensures
        r is Some <==> descs_of(*v, 0).len() <= u16::MAX,
        r is Some ==> r->0 == descs_of(*v, 0).len(),
    decreases *v,
{
    match v {
        Value::Scalar(_) => Some(1),
        Value::Text(_) => Some(1),
        Value::Nullable(n) => match &*n.value {
            Value::Scalar(_) => Some(1),
            _ => Some(0),
        },
        Value::Tuple(vs) => try_seq_ordinal_count(vs),
        Value::Record(vs) => try_seq_ordinal_count(vs),
    }
}

/// Number of bind descriptors a sequence of values emits, or nothing where
/// it exceeds the native ordinal range.
fn try_seq_ordinal_count(vs: &Vec<Value>) -> (r: Option<u16>)
    ensures
        r is Some <==> descs_of_seq(vs@, 0).len() <= u16::MAX,
        r is Some ==> r->0 == descs_of_seq(vs@, 0).len(),
    decreases vs@,
{
    let mut count: u16 = 0;
    let mut i: usize = 0;
    while i < vs.len()
        invariant
            i <= vs@.len(),
            count == descs_of_seq(vs@.take(i as int), 0).len(),
        decreases vs@.len() - i,
    {
        proof {
            lemma_descs_of_seq_take_succ(vs@, i as int, 0);
            lemma_descs_len_take_le(vs@, i + 1, 0);
            crate::value::lemma_same_shape_refl(vs@[i as int]);
            lemma_same_shape_descs_len(
                vs@[i as int],
                vs@[i as int],
                0,
                seq_size(vs@.take(i as int)) as int,
            );
        }
        match try_ordinal_count(&vs[i]) {
            Some(c) => {
                if (c as usize) <= u16::MAX as usize - count as usize {
                    count = count + c;
                } else {
                    return None;
                }
            },
            None => {
                return None;
            },
        }
        i = i + 1;
    }
    proof {
        assert(vs@.take(vs@.len() as int) =~= vs@);
    }
    Some(count)
}

/// In-memory byte size of a value.
pub fn byte_size(v: &Value) -> (r: usize)
    requires
        value_size(*v) <= usize::MAX,
    ensures
        r == value_size(*v),
    decreases *v,
{
    match v {
        Value::Scalar(s) => s.kind().size(),
        Value::Text(t) => IND_SIZE + t.capacity(),
        Value::Nullable(n) => IND_SIZE + byte_size(&*n.value),
        Value::Tuple(vs) => seq_byte_size(vs),
        Value::Record(vs) => seq_byte_size(vs),
    }
}

/// Total byte size of a sequence of values.
fn seq_byte_size(vs: &Vec<Value>) -> (r: usize)
    requires
        seq_size(vs@) <= usize::MAX,
    ensures
        r == seq_size(vs@),
    decreases vs@,
{
    let mut total: usize = 0;
    let mut i: usize = 0;
    while i < vs.len()
        invariant
            i <= vs@.len(),
            seq_size(vs@) <= usize::MAX,
            total == seq_size(vs@.take(i as int)),
        decreases vs@.len() - i,
    {
        proof {
            crate::value::lemma_seq_size_take_succ(vs@, i as int);
            crate::value::lemma_seq_size_take_le(vs@, i + 1);
        }
        total = total + byte_size(&vs[i]);
        i = i + 1;
    }
    proof {
        assert(vs@.take(vs@.len() as int) =~= vs@);
    }
    total
}

/// Walks the value's shape and emits one descriptor per primitive field, in
/// declaration order, with offsets starting at `base`.  A shape outside the
/// traversal protocol is a structural error, detected here and never
/// retried.
pub fn traverse(v: &Value, base: usize) -> (r: Result<Vec<Descriptor>, Error>)
    requires
        base + value_size(*v) <= usize::MAX,
    ensures
        r is Ok <==> supported(*v),
        r is Ok ==> r->Ok_0@ == descs_of(*v, base as int),
        r is Ok ==> forall|j: int| 0 <= j < r->Ok_0@.len() ==> desc_fits(#[trigger] r->Ok_0@[j]),
        r is Err ==> r->Err_0 == Error::StructuralError,
{
    let mut out: Vec<Descriptor> = Vec::new();
    match traverse_into(v, base, &mut out) {
        Ok(()) => Ok(out),
        Err(e) => Err(e),
    }
}

/// Appends the descriptors of `v` at offset `off` to `out`.
fn traverse_into(v: &Value, off: usize, out: &mut Vec<Descriptor>) -> (r: Result<(), Error>)
    requires
        off + value_size(*v) <= usize::MAX,
    ensures
        r is Ok <==> supported(*v),
        r is Ok ==> final(out)@ == old(out)@ + descs_of(*v, off as int),
        r is Ok ==> forall|j: int|
            old(out)@.len() <= j < final(out)@.len() ==> desc_fits(#[trigger] final(out)@[j]),
        r is Err ==> r->Err_0 == Error::StructuralError,
    decreases *v,
{
    match v {
        Value::Scalar(s) => {
            proof {
                assert(value_size(*v) == spec_kind_size(s.spec_kind()));
            }
            out.push(Descriptor::Scalar { kind: s.kind(), offset: off, indicator: None });
            Ok(())
        },
        Value::Text(t) => {
            proof {
                assert(value_size(*v) == IND_SIZE + t.spec_capacity());
            }
            let len = t.len();
            let capacity = t.capacity();
            out.push(
                Descriptor::Text { len, capacity, offset: off + IND_SIZE, indicator: off },
            );
            Ok(())
        },
        Value::Nullable(n) => match &*n.value {
            Value::Scalar(s) => {
                proof {
                    assert(value_size(*v) == IND_SIZE + value_size(*n.value));
                    assert(value_size(*n.value) == spec_kind_size(s.spec_kind()));
                }
                out.push(
                    Descriptor::Scalar {
                        kind: s.kind(),
                        offset: off + IND_SIZE,
                        indicator: Some(off),
                    },
                );
                Ok(())
            },
            _ => Err(Error::StructuralError),
        },
        Value::Tuple(vs) => traverse_children(vs, off, out),
        Value::Record(vs) => traverse_children(vs, off, out),
    }
}

/// Appends the descriptors of each child in declaration order, laying the
/// children out one after another starting at `off`.
fn traverse_children(vs: &Vec<Value>, off: usize, out: &mut Vec<Descriptor>) -> (r: Result<
    (),
    Error,
>)
    requires
        off + seq_size(vs@) <= usize::MAX,
    ensures
        r is Ok <==> supported_seq(vs@),
        r is Ok ==> final(out)@ == old(out)@ + descs_of_seq(vs@, off as int),
        r is Ok ==> forall|j: int|
            old(out)@.len() <= j < final(out)@.len() ==> desc_fits(#[trigger] final(out)@[j]),
        r is Err ==> r->Err_0 == Error::StructuralError,
    decreases vs@,
{
    let mut cur: usize = off;
    let mut i: usize = 0;
    while i < vs.len()
        invariant
            i <= vs@.len(),
            off + seq_size(vs@) <= usize::MAX,
            cur == off + seq_size(vs@.take(i as int)),
            out@ == old(out)@ + descs_of_seq(vs@.take(i as int), off as int),
            supported_seq(vs@.take(i as int)),
            forall|j: int|
                old(out)@.len() <= j < out@.len() ==> desc_fits(#[trigger] out@[j]),
        decreases vs@.len() - i,
    {
        proof {
            crate::value::lemma_seq_size_take_succ(vs@, i as int);
            crate::value::lemma_seq_size_take_le(vs@, i + 1);
        }
        match traverse_into(&vs[i], cur, out) {
            Ok(()) => {},
            Err(e) => {
                proof {
                    assert(!supported(vs@[i as int]));
                    assert(!supported_seq(vs@));
                }
                return Err(e);
            },
        }
        proof {
            lemma_descs_of_seq_take_succ(vs@, i as int, off as int);
            assert(vs@.take(i + 1)[i as int] == vs@[i as int]);
            assert forall|k: int| 0 <= k < i + 1 implies supported(#[trigger] vs@.take(i + 1)[k]) by {
                if k < i {
                    assert(vs@.take(i as int)[k] == vs@.take(i + 1)[k]);
                }
            }
        }
        cur = cur + byte_size(&vs[i]);
        i = i + 1;
    }
    proof {
        assert(vs@.take(vs@.len() as int) =~= vs@);
    }
    Ok(())
}

} // verus!
