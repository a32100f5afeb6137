use vstd::prelude::*;
use crate::embeddings::EmbeddingInput;
use crate::envelope::MaybeBatched;

verus! {

/// A value in the shape the transport carries it, as far as the request
/// envelopes read it: a text, an unsigned integer, an array, or anything else.
#[derive(Debug)]
pub enum WireValue {
    Text(String),
    Integer(u64),
    Array(Vec<WireValue>),
    Other,
}

/// Whether `v` is an array of integers that fit in a `u32`: a token list.
pub open spec fn is_token_list(v: WireValue) -> bool {
    v is Array && forall|i: int|
        0 <= i < v->Array_0@.len() ==> (#[trigger] v->Array_0@[i]) is Integer
            && v->Array_0@[i]->Integer_0 <= u32::MAX
}

/// Whether `v` reads as one embedding input: a text or a token list.
pub open spec fn is_input(v: WireValue) -> bool {
    v is Text || is_token_list(v)
}

/// Whether `v` reads as inputs: one input, or an array of inputs.
pub open spec fn is_inputs(v: WireValue) -> bool {
    is_input(v) || (v is Array && forall|i: int|
        0 <= i < v->Array_0@.len() ==> is_input(#[trigger] v->Array_0@[i]))
}

/// Whether `v` is how the wire writes the input `x`.
pub open spec fn encodes_input(v: WireValue, x: EmbeddingInput) -> bool {
    match x {
        EmbeddingInput::Text(t) => v is Text && v->Text_0@ == t@,
        EmbeddingInput::Tokens(ts) => v is Array && v->Array_0@.len() == ts@.len() && forall|i: int|
            0 <= i < ts@.len() ==> (#[trigger] v->Array_0@[i]) == WireValue::Integer(ts@[i] as u64),
    }
}

/// Whether `v` is how the wire writes `m`, untagged: a single input as
/// itself, a batch as the array of its inputs.
pub open spec fn encodes_inputs(v: WireValue, m: MaybeBatched<EmbeddingInput>) -> bool {
    match m {
        MaybeBatched::Single(x) => encodes_input(v, x),
        MaybeBatched::Batched(xs) => v is Array && v->Array_0@.len() == xs@.len() && forall|i: int|
            0 <= i < xs@.len() ==> encodes_input(#[trigger] v->Array_0@[i], xs@[i]),
    }
}

/// Whether `m` is what decoding `v` gives: a value that `v` encodes, read as
/// a single input wherever `v` reads as one.
pub open spec fn decodes_to(v: WireValue, m: MaybeBatched<EmbeddingInput>) -> bool {
    encodes_inputs(v, m) && (is_input(v) ==> m is Single)
}

/// Two inputs with the same content.
pub open spec fn same_input(a: EmbeddingInput, b: EmbeddingInput) -> bool {
    match (a, b) {
        (EmbeddingInput::Text(s), EmbeddingInput::Text(t)) => s@ == t@,
        (EmbeddingInput::Tokens(s), EmbeddingInput::Tokens(t)) => s@ == t@,
        _ => false,
    }
}

/// Two envelopes of the same arm with the same inputs.
pub open spec fn same_inputs(a: MaybeBatched<EmbeddingInput>, b: MaybeBatched<EmbeddingInput>) -> bool {
    match (a, b) {
        (MaybeBatched::Single(x), MaybeBatched::Single(y)) => same_input(x, y),
        (MaybeBatched::Batched(xs), MaybeBatched::Batched(ys)) => xs@.len() == ys@.len() && forall|i: int|
            0 <= i < xs@.len() ==> same_input(#[trigger] xs@[i], ys@[i]),
        _ => false,
    }
}

/// Writes one input: a text as text, tokens as an array of integers.
pub fn encode_input(x: &EmbeddingInput) -> (r: WireValue)
    ensures
        encodes_input(r, *x),
{
    match x {
        EmbeddingInput::Text(t) => WireValue::Text(t.clone()),
        EmbeddingInput::Tokens(ts) => {
            let mut items: Vec<WireValue> = Vec::new();
            let mut i: usize = 0;
            while i < ts.len()
                invariant
                    i <= ts@.len(),
                    items@.len() == i,
                    forall|k: int| 0 <= k < i ==> (#[trigger] items@[k]) == WireValue::Integer(ts@[k] as u64),
                decreases ts@.len() - i,
            {
                items.push(WireValue::Integer(ts[i] as u64));
                i = i + 1;
            }
            WireValue::Array(items)
        },
    }
}

/// Writes inputs untagged: a single input as itself, a batch as an array.
pub fn encode_inputs(m: &MaybeBatched<EmbeddingInput>) -> (r: WireValue)
    ensures
        encodes_inputs(r, *m),
{
    match m {
        MaybeBatched::Single(x) => encode_input(x),
        MaybeBatched::Batched(xs) => {
            let mut items: Vec<WireValue> = Vec::new();
            let mut i: usize = 0;
            while i < xs.len()
                invariant
                    i <= xs@.len(),
                    items@.len() == i,
                    forall|k: int| 0 <= k < i ==> encodes_input(#[trigger] items@[k], xs@[k]),
                decreases xs@.len() - i,
            {
                items.push(encode_input(&xs[i]));
                i = i + 1;
            }
            WireValue::Array(items)
        },
    }
}

/// Reads one input: a text, or an array of integers that fit in a `u32`.
pub fn decode_input(v: &WireValue) -> (r: Option<EmbeddingInput>)
    ensures
        r is Some <==> is_input(*v),
        r is Some ==> encodes_input(*v, r->Some_0),
{
    match v {
        WireValue::Text(t) => Some(EmbeddingInput::Text(t.clone())),
        WireValue::Array(items) => {
            let mut tokens: Vec<u32> = Vec::new();
            let mut i: usize = 0;
            while i < items.len()
                invariant
                    *v is Array,
                    v->Array_0 == *items,
                    i <= items@.len(),
                    tokens@.len() == i,
                    forall|k: int|
                        0 <= k < i ==> (#[trigger] items@[k]) == WireValue::Integer(tokens@[k] as u64),
                decreases items@.len() - i,
            {
                match &items[i] {
                    WireValue::Integer(n) => {
                        if *n > u32::MAX as u64 {
                            assert(!((items@[i as int]) is Integer && items@[i as int]->Integer_0 <= u32::MAX));
                            return None;
                        }
                        tokens.push(*n as u32);
                    },
                    _ => {
                        assert(!((items@[i as int]) is Integer));
                        return None;
                    },
                }
                i = i + 1;
            }
            Some(EmbeddingInput::Tokens(tokens))
        },
        _ => None,
    }
}

/// Reads inputs untagged: as one input wherever the value reads as one, else
/// as a batch where it is an array of inputs; `None` where it is neither.
pub fn decode_inputs(v: &WireValue) -> (r: Option<MaybeBatched<EmbeddingInput>>)
    ensures
        r is Some <==> is_inputs(*v),
        r is Some ==> decodes_to(*v, r->Some_0),
{
    match decode_input(v) {
        Some(x) => Some(MaybeBatched::Single(x)),
        None => match v {
            WireValue::Array(items) => {
                let mut xs: Vec<EmbeddingInput> = Vec::new();
                let mut i: usize = 0;
                while i < items.len()
                    invariant
                        *v is Array,
                        v->Array_0 == *items,
                        !is_input(*v),
                        i <= items@.len(),
                        xs@.len() == i,
                        forall|k: int| 0 <= k < i ==> is_input(#[trigger] items@[k]),
                        forall|k: int| 0 <= k < i ==> encodes_input(#[trigger] items@[k], xs@[k]),
                    decreases items@.len() - i,
                {
                    match decode_input(&items[i]) {
                        Some(x) => xs.push(x),
                        None => {
                            assert(!is_input(items@[i as int]));
                            return None;
                        },
                    }
                    i = i + 1;
                }
                Some(MaybeBatched::Batched(xs))
            },
            _ => None,
        },
    }
}

proof fn lemma_input_encoding_reads_back(v: WireValue, x: EmbeddingInput, y: EmbeddingInput)
    requires
        encodes_input(v, x),
        encodes_input(v, y),
    ensures
        same_input(x, y),
{
    if let (EmbeddingInput::Tokens(s), EmbeddingInput::Tokens(t)) = (x, y) {
        assert forall|i: int| 0 <= i < s@.len() implies s@[i] == t@[i] by {
            assert(v->Array_0@[i] == WireValue::Integer(s@[i] as u64));
        }
        assert(s@ =~= t@);
    }
}

/// Whatever the wire writes for one input reads as one input.
proof fn lemma_encoded_input_is_input(v: WireValue, x: EmbeddingInput)
    requires
        encodes_input(v, x),
    ensures
        is_input(v),
{
    if let EmbeddingInput::Tokens(ts) = x {
        assert forall|i: int| 0 <= i < v->Array_0@.len() implies (#[trigger] v->Array_0@[i]) is Integer
            && v->Array_0@[i]->Integer_0 <= u32::MAX by {
            assert(v->Array_0@[i] == WireValue::Integer(ts@[i] as u64));
        }
    }
}

/// Untagged inputs round-trip: what `m` encodes to reads back as inputs, and
/// whatever it reads back as is `m`, of the same arm with the same content
/// (`Single("x")` comes back as `Single("x")`, never as `Batched(["x"])`).
/// The one exception is the empty batch, which is written `[]` like the empty
/// token list, and so reads back as that single input.
pub proof fn lemma_inputs_round_trip(
    m: MaybeBatched<EmbeddingInput>,
    v: WireValue,
    d: MaybeBatched<EmbeddingInput>,
)
    requires
        encodes_inputs(v, m),
        decodes_to(v, d),
        !(m is Batched && m->Batched_0@.len() == 0),
    ensures
        is_inputs(v),
        same_inputs(m, d),
{
    match m {
        MaybeBatched::Single(x) => {
            lemma_encoded_input_is_input(v, x);
            lemma_input_encoding_reads_back(v, x, d->Single_0);
        },
        MaybeBatched::Batched(xs) => {
            assert forall|i: int| 0 <= i < v->Array_0@.len() implies is_input(#[trigger] v->Array_0@[i]) by {
                lemma_encoded_input_is_input(v->Array_0@[i], xs@[i]);
            }
            assert(encodes_input(v->Array_0@[0], xs@[0]));
            assert(!(v->Array_0@[0] is Integer));
            assert(!is_input(v));
            let ys = d->Batched_0;
            assert forall|i: int| 0 <= i < xs@.len() implies same_input(#[trigger] xs@[i], ys@[i]) by {
                lemma_input_encoding_reads_back(v->Array_0@[i], xs@[i], ys@[i]);
            }
        },
    }
}

/// The empty batch is the one envelope that does not round-trip: it reads
/// back as the single empty token list.
pub proof fn lemma_empty_batch_reads_as_single(v: WireValue, d: MaybeBatched<EmbeddingInput>)
    requires
        v is Array && v->Array_0@.len() == 0,
        decodes_to(v, d),
    ensures
        d is Single && d->Single_0 is Tokens && d->Single_0->Tokens_0@.len() == 0,
{
}

} // verus!
