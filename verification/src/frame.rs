//! The length-prefixed frame shared by the runtime control and runtime secret
//! protocols: a four-byte magic, an operation byte, a field-count byte, then
//! each field as a big-endian `u32` length followed by its bytes.
use vstd::prelude::*;

verus! {

pub const HEADER_LENGTH: usize = 6;

/// Why a received frame could not be read.
#[derive(Debug, Clone, Copy, PartialEq, Eq, Structural)]
pub enum FrameError {
    /// The bytes ended before the frame did.
    Truncated,
    /// The bytes are not a well-formed frame.
    Invalid,
}

/// The four big-endian bytes of `n`.
pub open spec fn be32(n: int) -> Seq<u8> {
    seq![
        ((n / 16777216) % 256) as u8,
        ((n / 65536) % 256) as u8,
        ((n / 256) % 256) as u8,
        (n % 256) as u8,
    ]
}

/// The number held by four big-endian bytes.
pub open spec fn be32_value(b: Seq<u8>) -> int {
    b[0] as int * 16777216 + b[1] as int * 65536 + b[2] as int * 256 + b[3] as int
}

pub proof fn lemma_be32_roundtrip(n: int)
    requires
        0 <= n < 4294967296,
    ensures
        be32_value(be32(n)) == n,
        be32(n).len() == 4,
{
    let a = (n / 16777216) % 256;
    let b = (n / 65536) % 256;
    let c = (n / 256) % 256;
    let d = n % 256;
    assert(n / 16777216 < 256);
    assert(a == n / 16777216);
    assert(a * 16777216 + b * 65536 + c * 256 + d == n) by (nonlinear_arith)
        requires
            0 <= n < 4294967296,
            a == n / 16777216,
            b == (n / 65536) % 256,
            c == (n / 256) % 256,
            d == n % 256,
    ;
}

/// Each field as its big-endian length followed by its bytes.
pub open spec fn encode_fields(fields: Seq<Seq<u8>>) -> Seq<u8>
    decreases fields.len(),
{
    if fields.len() == 0 {
        Seq::empty()
    } else {
        be32(fields[0].len() as int) + fields[0] + encode_fields(fields.drop_first())
    }
}

/// A complete frame.
pub open spec fn frame(magic: Seq<u8>, operation: u8, fields: Seq<Seq<u8>>) -> Seq<u8> {
    magic + seq![operation, fields.len() as u8] + encode_fields(fields)
}

/// Reads `remaining` fields of `b` starting at `pos`, where `pos` is also the
/// number of bytes read so far. Each field must be 1 to `max_field` bytes
/// long, the frame may not grow past `max_total` bytes, and no byte may
/// follow the last field.
pub open spec fn decode_fields(
    b: Seq<u8>,
    pos: int,
    remaining: nat,
    max_field: int,
    max_total: int,
) -> Result<Seq<Seq<u8>>, FrameError>
    decreases remaining,
{
    if remaining == 0 {
        if pos < b.len() {
            Err(FrameError::Invalid)
        } else {
            Ok(Seq::empty())
        }
    } else if pos + 4 > b.len() {
        Err(FrameError::Truncated)
    } else {
        let len = be32_value(b.subrange(pos, pos + 4));
        let end = pos + 4 + len;
        if len == 0 || len > max_field || end > max_total {
            Err(FrameError::Invalid)
        } else if end > b.len() {
            Err(FrameError::Truncated)
        } else {
            match decode_fields(b, end, (remaining - 1) as nat, max_field, max_total) {
                Ok(rest) => Ok(seq![b.subrange(pos + 4, end)] + rest),
                Err(e) => Err(e),
            }
        }
    }
}

/// The total length of the encoded fields.
pub open spec fn encoded_length(fields: Seq<Seq<u8>>) -> int
    decreases fields.len(),
{
    if fields.len() == 0 {
        0
    } else {
        4 + fields[0].len() + encoded_length(fields.drop_first())
    }
}

pub proof fn lemma_encoded_length(fields: Seq<Seq<u8>>)
    ensures
        encode_fields(fields).len() == encoded_length(fields),
    decreases fields.len(),
{
    if fields.len() > 0 {
        lemma_encoded_length(fields.drop_first());
    }
}

/// Every field is 1 to `max_field` bytes long.
pub open spec fn fields_within(fields: Seq<Seq<u8>>, max_field: int) -> bool {
    forall|i: int| 0 <= i < fields.len() ==> 0 < (#[trigger] fields[i]).len() <= max_field
}

/// Reading back encoded fields gives the fields, provided each fits the
/// limits and the frame ends with them.
pub proof fn lemma_decode_encode_fields(
    prefix: Seq<u8>,
    fields: Seq<Seq<u8>>,
    max_field: int,
    max_total: int,
)
    requires
        fields_within(fields, max_field),
        max_field < 4294967296,
        prefix.len() + encoded_length(fields) <= max_total,
    ensures
        decode_fields(
            prefix + encode_fields(fields),
            prefix.len() as int,
            fields.len(),
            max_field,
            max_total,
        ) == Ok::<Seq<Seq<u8>>, FrameError>(fields),
    decreases fields.len(),
{
    let b = prefix + encode_fields(fields);
    lemma_encoded_length(fields);
    if fields.len() == 0 {
        assert(b =~= prefix);
        assert(fields =~= Seq::<Seq<u8>>::empty());
    } else {
        let f = fields[0];
        let rest = fields.drop_first();
        let pos = prefix.len() as int;
        lemma_be32_roundtrip(f.len() as int);
        let prefix2 = prefix + be32(f.len() as int) + f;
        assert(b =~= prefix2 + encode_fields(rest));
        assert(b.subrange(pos, pos + 4) =~= be32(f.len() as int));
        assert(b.subrange(pos + 4, pos + 4 + f.len()) =~= f);
        assert(fields_within(rest, max_field)) by {
            assert forall|i: int| 0 <= i < rest.len() implies 0 < (#[trigger] rest[i]).len()
                <= max_field by {
                assert(rest[i] == fields[i + 1]);
            }
        }
        lemma_encoded_length(rest);
        lemma_decode_encode_fields(prefix2, rest, max_field, max_total);
        assert(seq![f] + rest =~= fields);
    }
}

/// Appends the big-endian bytes of `n`.
pub fn push_be32(out: &mut Vec<u8>, n: u32)
    ensures
        final(out)@ == old(out)@ + be32(n as int),
{
    out.push((n / 16777216) as u8);
    out.push(((n / 65536) % 256) as u8);
    out.push(((n / 256) % 256) as u8);
    out.push((n % 256) as u8);
    assert(final(out)@ =~= old(out)@ + be32(n as int));
}

pub proof fn lemma_encode_fields_push(fields: Seq<Seq<u8>>, f: Seq<u8>)
    ensures
        encode_fields(fields.push(f)) == encode_fields(fields) + be32(f.len() as int) + f,
    decreases fields.len(),
{
    if fields.len() == 0 {
        let pushed = fields.push(f);
        assert(pushed.drop_first() =~= Seq::<Seq<u8>>::empty());
        assert(pushed[0] == f);
        assert(encode_fields(pushed.drop_first()) =~= Seq::<u8>::empty());
        assert(encode_fields(fields) =~= Seq::<u8>::empty());
        assert(encode_fields(pushed) =~= encode_fields(fields) + be32(f.len() as int) + f);
    } else {
        lemma_encode_fields_push(fields.drop_first(), f);
        assert(fields.push(f).drop_first() =~= fields.drop_first().push(f));
        assert(encode_fields(fields.push(f)) =~= encode_fields(fields) + be32(f.len() as int) + f);
    }
}

/// The value of four big-endian bytes of `b` at `pos`.
pub fn read_be32(b: &[u8], pos: usize) -> (r: u32)
    requires
        pos + 4 <= b@.len(),
    ensures
        r == be32_value(b@.subrange(pos as int, pos + 4)),
{
    let v = (b[pos] as u32) * 16777216 + (b[pos + 1] as u32) * 65536 + (b[pos + 2] as u32) * 256
        + (b[pos + 3] as u32);
    v
}

/// Reads the fields of a frame whose header ends at `pos`; see
/// [`decode_fields`].
pub fn read_fields(b: &[u8], pos: usize, count: u8, max_field: usize, max_total: usize) -> (r:
    Result<Vec<Vec<u8>>, FrameError>)
    requires
        pos <= b@.len(),
        max_total <= usize::MAX - 4,
        max_field <= max_total,
        pos <= max_total,
    ensures
        match r {
            Ok(fields) => decode_fields(
                b@,
                pos as int,
                count as nat,
                max_field as int,
                max_total as int,
            ) == Ok::<Seq<Seq<u8>>, FrameError>(fields@.map_values(|f: Vec<u8>| f@)),
            Err(e) => decode_fields(b@, pos as int, count as nat, max_field as int, max_total as int)
                == Err::<Seq<Seq<u8>>, FrameError>(e),
        },
{
    let mut fields: Vec<Vec<u8>> = Vec::new();
    let mut p: usize = pos;
    let mut k: u8 = 0;
    while k < count
        invariant
            pos <= p <= b@.len(),
            p <= max_total,
            max_total <= usize::MAX - 4,
            max_field <= max_total,
            k <= count,
            fields@.len() == k,
            decode_fields(b@, pos as int, count as nat, max_field as int, max_total as int) == (
            match decode_fields(
                b@,
                p as int,
                (count - k) as nat,
                max_field as int,
                max_total as int,
            ) {
                Ok(rest) => Ok(fields@.map_values(|f: Vec<u8>| f@) + rest),
                Err(e) => Err(e),
            }),
        decreases count - k,
    {
        if p + 4 > b.len() {
            return Err(FrameError::Truncated);
        }
        let len = read_be32(b, p) as usize;
        let header_end = p + 4;
        if len == 0 || len > max_field || header_end > max_total || len > max_total - header_end {
            return Err(FrameError::Invalid);
        }
        let end = p + 4 + len;
        if end > b.len() {
            return Err(FrameError::Truncated);
        }
        let field = vstd::slice::slice_to_vec(vstd::slice::slice_subrange(b, p + 4, end));
        let ghost old_fields = fields@.map_values(|f: Vec<u8>| f@);
        fields.push(field);
        proof {
            assert(fields@.map_values(|f: Vec<u8>| f@) =~= old_fields.push(
                b@.subrange(p + 4, end as int),
            ));
            let tail = decode_fields(
                b@,
                end as int,
                (count - k - 1) as nat,
                max_field as int,
                max_total as int,
            );
            match tail {
                Ok(rest) => {
                    assert(old_fields + (seq![b@.subrange(p + 4, end as int)] + rest) =~= old_fields.push(
                        b@.subrange(p + 4, end as int),
                    ) + rest);
                },
                Err(e) => {},
            }
        }
        p = end;
        k = k + 1;
    }
    if p < b.len() {
        return Err(FrameError::Invalid);
    }
    assert(fields@.map_values(|f: Vec<u8>| f@) + Seq::<Seq<u8>>::empty() =~= fields@.map_values(
        |f: Vec<u8>| f@,
    ));
    Ok(fields)
}

} // verus!
