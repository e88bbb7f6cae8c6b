//! Tagged-field encoding for frame bodies.
//!
//! A body is a run of self-describing fields: a 32-bit tag, a type byte,
//! then a payload whose length follows from the type byte alone. A reader
//! can therefore skip a field whose tag it does not know without failing
//! the rest of the body, which is what keeps old readers compatible with
//! newer writers.

use vstd::prelude::*;
use crate::bytes::push_all;
use crate::packet::{be32, u32_be, lemma_be32_round_trip, FramingError};

verus! {

/// Type byte of an unsigned 32-bit field.
pub const FIELD_TYPE_UINT: u8 = 0x00;

/// Type byte of a boolean field.
pub const FIELD_TYPE_BOOL: u8 = 0x01;

/// Type byte of a group field: a length-prefixed blob holding nested
/// fields.
pub const FIELD_TYPE_GROUP: u8 = 0x02;

/// Type byte of a union field: a one-byte discriminant key, then a
/// length-prefixed blob holding the chosen arm.
pub const FIELD_TYPE_UNION: u8 = 0x03;

/// Hard cap on a group or union payload, matching the frame-body cap.
pub const MAX_FIELD_LEN: u32 = 0xFF_FFFF;

/// Payload of one field.
#[derive(Debug)]
pub enum FieldValue {
    UInt(u32),
    Boolean(bool),
    Group(Vec<u8>),
    Union(u8, Vec<u8>),
}

/// One tagged field.
#[derive(Debug)]
pub struct Field {
    pub tag: u32,
    pub value: FieldValue,
}

/// Mathematical model of a field payload.
pub enum FieldValueModel {
    UInt(u32),
    Boolean(bool),
    Group(Seq<u8>),
    Union(u8, Seq<u8>),
}

/// Mathematical model of one tagged field.
pub struct FieldModel {
    pub tag: u32,
    pub value: FieldValueModel,
}

impl View for FieldValue {
    type V = FieldValueModel;

    open spec fn view(&self) -> FieldValueModel {
        match self {
            FieldValue::UInt(x) => FieldValueModel::UInt(*x),
            FieldValue::Boolean(b) => FieldValueModel::Boolean(*b),
            FieldValue::Group(p) => FieldValueModel::Group(p@),
            FieldValue::Union(k, p) => FieldValueModel::Union(*k, p@),
        }
    }
}

impl View for Field {
    type V = FieldModel;

    open spec fn view(&self) -> FieldModel {
        FieldModel { tag: self.tag, value: self.value@ }
    }
}

/// Model sequence of a run of fields.
pub open spec fn fields_view(s: Seq<Field>) -> Seq<FieldModel> {
    s.map_values(|f: Field| f@)
}

/// A field whose payload fits under the length cap.
pub open spec fn valid_field(f: FieldModel) -> bool {
    match f.value {
        FieldValueModel::UInt(_) => true,
        FieldValueModel::Boolean(_) => true,
        FieldValueModel::Group(p) => p.len() <= MAX_FIELD_LEN,
        FieldValueModel::Union(_, p) => p.len() <= MAX_FIELD_LEN,
    }
}

/// All fields of a run fit under the cap.
pub open spec fn valid_fields(fs: Seq<FieldModel>) -> bool {
    forall|i: int| 0 <= i < fs.len() ==> valid_field(#[trigger] fs[i])
}

/// Wire bytes of a field payload: the type byte, then the type-specific
/// payload.
pub open spec fn spec_encode_value(v: FieldValueModel) -> Seq<u8> {
    match v {
        FieldValueModel::UInt(x) => seq![FIELD_TYPE_UINT] + u32_be(x),
        FieldValueModel::Boolean(b) => seq![FIELD_TYPE_BOOL, if b { 1u8 } else { 0u8 }],
        FieldValueModel::Group(p) => seq![FIELD_TYPE_GROUP] + u32_be(p.len() as u32) + p,
        FieldValueModel::Union(k, p) => seq![FIELD_TYPE_UNION, k] + u32_be(p.len() as u32) + p,
    }
}

/// Wire bytes of one field: big-endian tag, then the payload bytes.
pub open spec fn spec_encode_field(f: FieldModel) -> Seq<u8> {
    u32_be(f.tag) + spec_encode_value(f.value)
}

/// Wire bytes of a run of fields, in order.
pub open spec fn spec_encode_fields(fs: Seq<FieldModel>) -> Seq<u8>
    decreases fs.len(),
{
    if fs.len() == 0 {
        Seq::empty()
    } else {
        spec_encode_field(fs[0]) + spec_encode_fields(fs.skip(1))
    }
}

/// Parsing one field off the front of a buffer: the field and the number
/// of bytes it occupies, or nothing if the buffer is truncated, oversized
/// or of an unknown type byte.
pub open spec fn spec_parse_field(b: Seq<u8>) -> Option<(FieldModel, int)> {
    if b.len() < 5 {
        Option::None
    } else {
        let tag = be32(b[0], b[1], b[2], b[3]);
        let ty = b[4];
        if ty == FIELD_TYPE_UINT {
            if b.len() < 9 {
                Option::None
            } else {
                Option::Some((
                    FieldModel { tag, value: FieldValueModel::UInt(be32(b[5], b[6], b[7], b[8])) },
                    9int,
                ))
            }
        } else if ty == FIELD_TYPE_BOOL {
            if b.len() < 6 {
                Option::None
            } else {
                Option::Some((
                    FieldModel { tag, value: FieldValueModel::Boolean(b[5] != 0) },
                    6int,
                ))
            }
        } else if ty == FIELD_TYPE_GROUP {
            if b.len() < 9 {
                Option::None
            } else {
                let n = be32(b[5], b[6], b[7], b[8]);
                if n > MAX_FIELD_LEN || b.len() < 9 + n {
                    Option::None
                } else {
                    Option::Some((
                        FieldModel { tag, value: FieldValueModel::Group(b.subrange(9, 9 + n)) },
                        9 + n as int,
                    ))
                }
            }
        } else if ty == FIELD_TYPE_UNION {
            if b.len() < 10 {
                Option::None
            } else {
                let k = b[5];
                let n = be32(b[6], b[7], b[8], b[9]);
                if n > MAX_FIELD_LEN || b.len() < 10 + n {
                    Option::None
                } else {
                    Option::Some((
                        FieldModel { tag, value: FieldValueModel::Union(k, b.subrange(10, 10 + n)) },
                        10 + n as int,
                    ))
                }
            }
        } else {
            Option::None
        }
    }
}

/// Parsing a whole buffer as a run of fields, front to back.
pub open spec fn spec_decode_fields(b: Seq<u8>) -> Option<Seq<FieldModel>>
    decreases b.len(),
{
    if b.len() == 0 {
        Option::Some(Seq::empty())
    } else {
        match spec_parse_field(b) {
            Option::None => Option::None,
            Option::Some((f, n)) => if 0 < n <= b.len() {
                match spec_decode_fields(b.skip(n)) {
                    Option::None => Option::None,
                    Option::Some(rest) => Option::Some(seq![f] + rest),
                }
            } else {
                Option::None
            },
        }
    }
}

/// Appends the big-endian bytes of `x` to `out`.
fn push_u32_be(out: &mut Vec<u8>, x: u32)
    ensures
        final(out)@ == old(out)@ + u32_be(x),
{
    out.push((x >> 24) as u8);
    out.push((x >> 16) as u8);
    out.push((x >> 8) as u8);
    out.push(x as u8);
    assert(out@ =~= old(out)@ + u32_be(x));
}

/// Appends the wire bytes of one field to `out`.
pub fn encode_field(out: &mut Vec<u8>, f: &Field)
    requires
        valid_field(f@),
    ensures
        final(out)@ == old(out)@ + spec_encode_field(f@),
{
    push_u32_be(out, f.tag);
    match &f.value {
        FieldValue::UInt(x) => {
            out.push(FIELD_TYPE_UINT);
            push_u32_be(out, *x);
        }
        FieldValue::Boolean(b) => {
            out.push(FIELD_TYPE_BOOL);
            out.push(if *b { 1 } else { 0 });
        }
        FieldValue::Group(p) => {
            out.push(FIELD_TYPE_GROUP);
            push_u32_be(out, p.len() as u32);
            push_all(out, p);
        }
        FieldValue::Union(k, p) => {
            out.push(FIELD_TYPE_UNION);
            out.push(*k);
            push_u32_be(out, p.len() as u32);
            push_all(out, p);
        }
    }
    assert(out@ =~= old(out)@ + spec_encode_field(f@));
}

/// Encodes the fields from index `i` on, in order.
fn encode_fields_from(fields: &Vec<Field>, i: usize) -> (r: Vec<u8>)
    requires
        i <= fields.len(),
        valid_fields(fields_view(fields@)),
    ensures
        r@ == spec_encode_fields(fields_view(fields@).skip(i as int)),
    decreases fields.len() - i,
{
    let ghost fv = fields_view(fields@);
    if i == fields.len() {
        let r: Vec<u8> = Vec::new();
        assert(fv.skip(i as int) =~= Seq::<FieldModel>::empty());
        r
    } else {
        let mut out: Vec<u8> = Vec::new();
        assert(valid_field(fv[i as int]));
        assert(fv[i as int] == fields[i as int]@);
        encode_field(&mut out, &fields[i]);
        let tail = encode_fields_from(fields, i + 1);
        push_all(&mut out, &tail);
        proof {
            assert(fv.skip(i as int)[0] == fv[i as int]);
            assert(fv.skip(i as int).skip(1) =~= fv.skip(i as int + 1));
        }
        out
    }
}

/// Encodes a run of fields to wire bytes, in order.
pub fn encode_fields(fields: &Vec<Field>) -> (r: Vec<u8>)
    requires
        valid_fields(fields_view(fields@)),
    ensures
        r@ == spec_encode_fields(fields_view(fields@)),
{
    let r = encode_fields_from(fields, 0);
    proof {
        assert(fields_view(fields@).skip(0) =~= fields_view(fields@));
    }
    r
}

/// Reads one field starting at `pos`, returning it with the number of
/// bytes it occupied.
pub fn parse_field(buf: &Vec<u8>, pos: usize) -> (r: Result<(Field, usize), FramingError>)
    requires
        pos <= buf.len(),
    ensures
        match r {
            Ok(pair) => {
                &&& spec_parse_field(buf@.skip(pos as int)) == Some((pair.0@, pair.1 as int))
                &&& 0 < pair.1
                &&& pos + pair.1 <= buf.len()
                &&& valid_field(pair.0@)
            },
            Err(e) => {
                &&& spec_parse_field(buf@.skip(pos as int)) is None
                &&& e == FramingError::MalformedBody
            },
        },
{
    let ghost b = buf@.skip(pos as int);
    let rem = buf.len() - pos;
    if rem < 5 {
        return Err(FramingError::MalformedBody);
    }
    assert(b[0] == buf@[pos as int]);
    assert(b[1] == buf@[pos + 1]);
    assert(b[2] == buf@[pos + 2]);
    assert(b[3] == buf@[pos + 3]);
    assert(b[4] == buf@[pos + 4]);
    let tag: u32 = ((buf[pos] as u32) << 24) | ((buf[pos + 1] as u32) << 16)
        | ((buf[pos + 2] as u32) << 8) | (buf[pos + 3] as u32);
    let ty: u8 = buf[pos + 4];
    if ty == FIELD_TYPE_UINT {
        if rem < 9 {
            return Err(FramingError::MalformedBody);
        }
        assert(b[5] == buf@[pos + 5]);
        assert(b[6] == buf@[pos + 6]);
        assert(b[7] == buf@[pos + 7]);
        assert(b[8] == buf@[pos + 8]);
        let x: u32 = ((buf[pos + 5] as u32) << 24) | ((buf[pos + 6] as u32) << 16)
            | ((buf[pos + 7] as u32) << 8) | (buf[pos + 8] as u32);
        Ok((Field { tag, value: FieldValue::UInt(x) }, 9))
    } else if ty == FIELD_TYPE_BOOL {
        if rem < 6 {
            return Err(FramingError::MalformedBody);
        }
        assert(b[5] == buf@[pos + 5]);
        let v: bool = buf[pos + 5] != 0;
        Ok((Field { tag, value: FieldValue::Boolean(v) }, 6))
    } else if ty == FIELD_TYPE_GROUP {
        if rem < 9 {
            return Err(FramingError::MalformedBody);
        }
        assert(b[5] == buf@[pos + 5]);
        assert(b[6] == buf@[pos + 6]);
        assert(b[7] == buf@[pos + 7]);
        assert(b[8] == buf@[pos + 8]);
        let n: u32 = ((buf[pos + 5] as u32) << 24) | ((buf[pos + 6] as u32) << 16)
            | ((buf[pos + 7] as u32) << 8) | (buf[pos + 8] as u32);
        if n > MAX_FIELD_LEN || (n as usize) > rem - 9 {
            return Err(FramingError::MalformedBody);
        }
        let mut payload: Vec<u8> = Vec::new();
        let stop: usize = pos + 9 + n as usize;
        let mut j: usize = pos + 9;
        while j < stop
            invariant
                pos + 9 <= j <= stop,
                stop <= buf.len(),
                payload@ == buf@.subrange(pos + 9, j as int),
            decreases stop - j,
        {
            payload.push(buf[j]);
            j = j + 1;
            assert(payload@ =~= buf@.subrange(pos + 9, j as int));
        }
        assert(payload@ =~= b.subrange(9, 9 + n as int));
        Ok((Field { tag, value: FieldValue::Group(payload) }, 9 + n as usize))
    } else if ty == FIELD_TYPE_UNION {
        if rem < 10 {
            return Err(FramingError::MalformedBody);
        }
        assert(b[5] == buf@[pos + 5]);
        assert(b[6] == buf@[pos + 6]);
        assert(b[7] == buf@[pos + 7]);
        assert(b[8] == buf@[pos + 8]);
        assert(b[9] == buf@[pos + 9]);
        let k: u8 = buf[pos + 5];
        let n: u32 = ((buf[pos + 6] as u32) << 24) | ((buf[pos + 7] as u32) << 16)
            | ((buf[pos + 8] as u32) << 8) | (buf[pos + 9] as u32);
        if n > MAX_FIELD_LEN || (n as usize) > rem - 10 {
            return Err(FramingError::MalformedBody);
        }
        let mut payload: Vec<u8> = Vec::new();
        let stop: usize = pos + 10 + n as usize;
        let mut j: usize = pos + 10;
        while j < stop
            invariant
                pos + 10 <= j <= stop,
                stop <= buf.len(),
                payload@ == buf@.subrange(pos + 10, j as int),
            decreases stop - j,
        {
            payload.push(buf[j]);
            j = j + 1;
            assert(payload@ =~= buf@.subrange(pos + 10, j as int));
        }
        assert(payload@ =~= b.subrange(10, 10 + n as int));
        Ok((Field { tag, value: FieldValue::Union(k, payload) }, 10 + n as usize))
    } else {
        Err(FramingError::MalformedBody)
    }
}

/// Reads the run of fields from `pos` to the end of the buffer.
fn decode_fields_from(buf: &Vec<u8>, pos: usize) -> (r: Result<Vec<Field>, FramingError>)
    requires
        pos <= buf.len(),
    ensures
        match r {
            Ok(fs) => spec_decode_fields(buf@.skip(pos as int)) == Some(fields_view(fs@)),
            Err(e) => {
                &&& spec_decode_fields(buf@.skip(pos as int)) is None
                &&& e == FramingError::MalformedBody
            },
        },
    decreases buf.len() - pos,
{
    let ghost b = buf@.skip(pos as int);
    if pos == buf.len() {
        let r: Vec<Field> = Vec::new();
        assert(b =~= Seq::<u8>::empty());
        assert(fields_view(r@) =~= Seq::<FieldModel>::empty());
        return Ok(r);
    }
    let (field, used) = match parse_field(buf, pos) {
        Ok(pair) => pair,
        Err(e) => {
            return Err(e);
        }
    };
    assert(b.skip(used as int) =~= buf@.skip(pos + used));
    let mut rest = match decode_fields_from(buf, pos + used) {
        Ok(fs) => fs,
        Err(e) => {
            return Err(e);
        }
    };
    let ghost rest_view = fields_view(rest@);
    rest.insert(0, field);
    assert(fields_view(rest@) =~= seq![field@] + rest_view);
    Ok(rest)
}

/// Reads a whole body as a run of tagged fields. A field with an
/// unrecognised tag is returned like any other — tags are never
/// interpreted here — so unknown fields are skipped by length and the
/// rest of the body still decodes.
pub fn decode_fields(body: &Vec<u8>) -> (r: Result<Vec<Field>, FramingError>)
    ensures
        match r {
            Ok(fs) => spec_decode_fields(body@) == Some(fields_view(fs@)),
            Err(e) => {
                &&& spec_decode_fields(body@) is None
                &&& e == FramingError::MalformedBody
            },
        },
{
    let r = decode_fields_from(body, 0);
    proof {
        assert(body@.skip(0) =~= body@);
    }
    r
}

/// Parsing the encoding of one valid field, whatever follows it, yields
/// that field back and consumes exactly its encoded length.
pub proof fn lemma_parse_encoded_field(f: FieldModel, tail: Seq<u8>)
    requires
        valid_field(f),
    ensures
        spec_parse_field(spec_encode_field(f) + tail) == Some((
            f,
            spec_encode_field(f).len() as int,
        )),
        5 <= spec_encode_field(f).len(),
{
    let e = spec_encode_field(f);
    let b = e + tail;
    assert(b[0] == (f.tag >> 24) as u8);
    assert(b[1] == (f.tag >> 16) as u8);
    assert(b[2] == (f.tag >> 8) as u8);
    assert(b[3] == f.tag as u8);
    lemma_be32_round_trip(f.tag);
    match f.value {
        FieldValueModel::UInt(x) => {
            assert(b[4] == FIELD_TYPE_UINT);
            assert(b[5] == (x >> 24) as u8);
            assert(b[6] == (x >> 16) as u8);
            assert(b[7] == (x >> 8) as u8);
            assert(b[8] == x as u8);
            lemma_be32_round_trip(x);
            assert(e.len() == 9);
        }
        FieldValueModel::Boolean(v) => {
            assert(b[4] == FIELD_TYPE_BOOL);
            assert(b[5] == if v { 1u8 } else { 0u8 });
            assert(e.len() == 6);
        }
        FieldValueModel::Group(p) => {
            let n = p.len() as u32;
            assert(b[4] == FIELD_TYPE_GROUP);
            assert(b[5] == (n >> 24) as u8);
            assert(b[6] == (n >> 16) as u8);
            assert(b[7] == (n >> 8) as u8);
            assert(b[8] == n as u8);
            lemma_be32_round_trip(n);
            assert(e.len() == 9 + p.len());
            assert(b.subrange(9, 9 + n as int) =~= p);
        }
        FieldValueModel::Union(k, p) => {
            let n = p.len() as u32;
            assert(b[4] == FIELD_TYPE_UNION);
            assert(b[5] == k);
            assert(b[6] == (n >> 24) as u8);
            assert(b[7] == (n >> 16) as u8);
            assert(b[8] == (n >> 8) as u8);
            assert(b[9] == n as u8);
            lemma_be32_round_trip(n);
            assert(e.len() == 10 + p.len());
            assert(b.subrange(10, 10 + n as int) =~= p);
        }
    }
}

/// Round-trip law for bodies: decoding the encoding of any run of valid
/// fields yields exactly that run, in order.
pub proof fn lemma_fields_round_trip(fs: Seq<FieldModel>)
    requires
        valid_fields(fs),
    ensures
        spec_decode_fields(spec_encode_fields(fs)) == Some(fs),
    decreases fs.len(),
{
    if fs.len() == 0 {
        assert(spec_encode_fields(fs).len() == 0);
    } else {
        assert(valid_field(fs[0]));
        let e0 = spec_encode_field(fs[0]);
        let rest = spec_encode_fields(fs.skip(1));
        let b = spec_encode_fields(fs);
        assert(b == e0 + rest);
        lemma_parse_encoded_field(fs[0], rest);
        assert(b.len() >= 5);
        assert(b.skip(e0.len() as int) =~= rest);
        assert forall|i: int| 0 <= i < fs.skip(1).len() implies valid_field(#[trigger] fs.skip(1)[i]) by {
            assert(fs.skip(1)[i] == fs[i + 1]);
            assert(valid_field(fs[i + 1]));
        }
        lemma_fields_round_trip(fs.skip(1));
        assert(seq![fs[0]] + fs.skip(1) =~= fs);
    }
}

} // verus!
