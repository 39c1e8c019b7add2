//! The bytes of the index buffer that is uploaded to the GPU.

use vstd::prelude::*;

verus! {

/// Byte `n` (0 to 3), counted from the least significant, of `x`.
pub open spec fn u32_byte(x: u32, n: int) -> u8 {
    if n == 0 {
        (x % 256) as u8
    } else if n == 1 {
        ((x / 256) % 256) as u8
    } else if n == 2 {
        ((x / 65536) % 256) as u8
    } else {
        (x / 16777216) as u8
    }
}

/// The little-endian encoding of `s`, four bytes per entry.
pub open spec fn le_bytes(s: Seq<u32>) -> Seq<u8> {
    Seq::new(4 * s.len(), |k: int| u32_byte(s[k / 4], k % 4))
}

/// The big-endian encoding of `s`, four bytes per entry.
pub open spec fn be_bytes(s: Seq<u32>) -> Seq<u8> {
    Seq::new(4 * s.len(), |k: int| u32_byte(s[k / 4], 3 - k % 4))
}

/// The in-memory bytes of `s` on a machine of either byte order.
pub open spec fn native_bytes(s: Seq<u32>, bytes: Seq<u8>) -> bool {
    bytes == le_bytes(s) || bytes == be_bytes(s)
}

/// Calls `bytemuck::cast_slice::<u32, u8>` and copies the result.
/// `cast_slice` reinterprets the memory of the slice, so the bytes are the
/// entries in the machine's own byte order, little- or big-endian; this
/// contract does not say which. For `u32` to `u8` the cast cannot fail
/// (the target alignment is 1 and the length divides), so it does not panic.
#[verifier::external_body]
fn cast_to_bytes(values: &[u32]) -> (bytes: Vec<u8>)
    ensures
        native_bytes(values@, bytes@),
{
    bytemuck::cast_slice::<u32, u8>(values).to_vec()
}

/// The value that the four bytes `b0` (least significant) to `b3` encode.
pub open spec fn le_value(b0: u8, b1: u8, b2: u8, b3: u8) -> int {
    b0 + 256 * b1 + 65536 * b2 + 16777216 * b3
}

/// The contents of the index buffer for `indices`: each index as four
/// bytes, least significant first, the layout in which the GPU reads an
/// index buffer of 32-bit indices. The bytes come from
/// `bytemuck::cast_slice`; a marker entry `1` appended to the list shows
/// which byte order the machine gave, and on a big-endian machine each
/// group of four is reversed.
pub fn index_buffer_bytes(indices: &Vec<u32>) -> (bytes: Vec<u8>)
    ensures
        native_bytes(indices@, bytes@),
        bytes@ == le_bytes(indices@),
        bytes@.len() == 4 * indices@.len(),
{
    let n = indices.len();
    let mut probed: Vec<u32> = Vec::new();
    let mut i: usize = 0;
    while i < n
        invariant
            n == indices@.len(),
            i <= n,
            probed@ == indices@.subrange(0, i as int),
        decreases n - i,
    {
        probed.push(indices[i]);
        i += 1;
    }
    probed.push(1);
    let ghost s = probed@;
    assert(s.subrange(0, n as int) == indices@);
    let raw = cast_to_bytes(probed.as_slice());
    assert(raw@.len() == 4 * (n + 1)) by {
        assert(le_bytes(s).len() == 4 * (n + 1));
        assert(be_bytes(s).len() == 4 * (n + 1));
    }
    let end = raw.len() - 4;
    assert(end == 4 * n);
    let little = raw[end] == 1;
    proof {
        assert(s[n as int] == 1);
        assert(end / 4 == n && end % 4 == 0);
        assert(le_bytes(s)[end as int] == u32_byte(1, 0));
        assert(be_bytes(s)[end as int] == u32_byte(1, 3));
        assert(u32_byte(1, 0) == 1);
        assert(u32_byte(1, 3) == 0);
    }
    let mut bytes: Vec<u8> = Vec::new();
    let mut j: usize = 0;
    while j < end
        invariant
            n == indices@.len(),
            s.len() == n + 1,
            forall|k: int| 0 <= k < n ==> s[k] == indices@[k],
            end == 4 * n,
            raw@.len() == 4 * (n + 1),
            little ==> raw@ == le_bytes(s),
            !little ==> raw@ == be_bytes(s),
            j % 4 == 0,
            j <= end,
            bytes@.len() == j,
            forall|k: int| 0 <= k < j ==> bytes@[k] == #[trigger] le_bytes(indices@)[k],
        decreases end - j,
    {
        let ghost q: int = j as int / 4;
        if little {
            bytes.push(raw[j]);
            bytes.push(raw[j + 1]);
            bytes.push(raw[j + 2]);
            bytes.push(raw[j + 3]);
        } else {
            bytes.push(raw[j + 3]);
            bytes.push(raw[j + 2]);
            bytes.push(raw[j + 1]);
            bytes.push(raw[j]);
        }
        proof {
            assert forall|k: int| 0 <= k < j + 4 implies bytes@[k] == #[trigger] le_bytes(
                indices@,
            )[k] by {
                if k >= j {
                    let m = k - j;
                    assert(k / 4 == q && k % 4 == m);
                    assert((j + 3 - m) / 4 == q && (j + 3 - m) % 4 == 3 - m);
                    assert(s[q] == indices@[q]);
                }
            }
        }
        j += 4;
    }
    assert(bytes@ =~= le_bytes(indices@));
    bytes
}

/// Law: reading the index buffer back as 32-bit little-endian indices, as
/// the GPU does, gives the indices that were uploaded, in order.
pub proof fn lemma_index_bytes_read_back(indices: Seq<u32>, bytes: Seq<u8>)
    requires
        bytes == le_bytes(indices),
    ensures
        bytes.len() == 4 * indices.len(),
        forall|k: int|
            0 <= k < indices.len() ==> le_value(
                bytes[4 * k],
                bytes[4 * k + 1],
                bytes[4 * k + 2],
                bytes[4 * k + 3],
            ) == #[trigger] indices[k],
{
    assert forall|k: int| 0 <= k < indices.len() implies le_value(
        bytes[4 * k],
        bytes[4 * k + 1],
        bytes[4 * k + 2],
        bytes[4 * k + 3],
    ) == #[trigger] indices[k] by {
        assert((4 * k) / 4 == k && (4 * k) % 4 == 0);
        assert((4 * k + 1) / 4 == k && (4 * k + 1) % 4 == 1);
        assert((4 * k + 2) / 4 == k && (4 * k + 2) % 4 == 2);
        assert((4 * k + 3) / 4 == k && (4 * k + 3) % 4 == 3);
        lemma_u32_bytes_recombine(indices[k]);
    }
}

/// The four bytes of `x` encode `x`.
proof fn lemma_u32_bytes_recombine(x: u32)
    ensures
        le_value(u32_byte(x, 0), u32_byte(x, 1), u32_byte(x, 2), u32_byte(x, 3)) == x,
{
    assert(x % 256 + 256 * ((x / 256) % 256) + 65536 * ((x / 65536) % 256) + 16777216 * (x
        / 16777216) == x) by (nonlinear_arith);
}

} // verus!
