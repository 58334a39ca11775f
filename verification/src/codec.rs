//! The binary layout of the fields of a record: integers little-endian, an
//! enum as the index of its variant, a flag as one byte, an optional value as
//! a flag byte and then the value, an address as its 32 bytes.

use vstd::prelude::*;
use vstd::bytes::{
    spec_u16_from_le_bytes,
    spec_u16_to_le_bytes,
    spec_u64_from_le_bytes,
    spec_u64_to_le_bytes,
    u16_from_le_bytes,
    u16_to_le_bytes,
    u64_from_le_bytes,
    u64_to_le_bytes,
};
use vstd::slice::slice_subrange;
use crate::address::Address;

verus! {

/// The array that holds the first `n` of the given bytes, and zeros after
/// them.
pub open spec fn spec_array_of(bytes: Seq<u8>, n: nat) -> [u8; 32]
    decreases n,
{
    if n == 0 {
        vstd::array::spec_array_fill_for_copy_type(0u8)
    } else {
        vstd::array::spec_array_update(
            spec_array_of(bytes, (n - 1) as nat),
            n - 1,
            bytes[n - 1],
        )
    }
}

/// The address with the given 32 bytes.
pub open spec fn spec_address_of(bytes: Seq<u8>) -> Address {
    Address { bytes: spec_array_of(bytes, 32) }
}

proof fn lemma_array_of(bytes: Seq<u8>, n: nat)
    requires
        n <= 32,
        n <= bytes.len(),
    ensures
        spec_array_of(bytes, n)@.len() == 32,
        forall|i: int| 0 <= i < n ==> spec_array_of(bytes, n)@[i] == bytes[i],
    decreases n,
{
    broadcast use vstd::array::group_array_axioms;

    if n > 0 {
        lemma_array_of(bytes, (n - 1) as nat);
    }
}

/// The address made of 32 bytes has those bytes.
pub proof fn lemma_address_of(bytes: Seq<u8>)
    requires
        bytes.len() == 32,
    ensures
        spec_address_of(bytes)@ == bytes,
{
    lemma_array_of(bytes, 32);
    assert(spec_address_of(bytes)@ =~= bytes);
}

/// An address is the address made of its bytes.
pub proof fn lemma_address_of_view(a: Address)
    ensures
        spec_address_of(a@) == a,
        a@.len() == 32,
{
    lemma_address_of(a@);
    crate::address::lemma_address_ext(spec_address_of(a@), a);
}

/// The 16-bit integer at an offset.
pub open spec fn spec_u16_at(data: Seq<u8>, at: int) -> u16 {
    spec_u16_from_le_bytes(data.subrange(at, at + 2))
}

/// The 64-bit integer at an offset.
pub open spec fn spec_u64_at(data: Seq<u8>, at: int) -> u64 {
    spec_u64_from_le_bytes(data.subrange(at, at + 8))
}

/// The address at an offset.
pub open spec fn spec_address_at(data: Seq<u8>, at: int) -> Address {
    spec_address_of(data.subrange(at, at + 32))
}

/// The layout of a flag.
pub open spec fn spec_bool_bytes(flag: bool) -> Seq<u8> {
    seq![if flag { 1u8 } else { 0u8 }]
}

/// The layout of an optional 64-bit integer.
pub open spec fn spec_option_u64_bytes(value: Option<u64>) -> Seq<u8> {
    match value {
        None => seq![0u8],
        Some(x) => seq![1u8] + spec_u64_to_le_bytes(x),
    }
}

/// The layout of an optional address.
pub open spec fn spec_option_address_bytes(value: Option<Address>) -> Seq<u8> {
    match value {
        None => seq![0u8],
        Some(a) => seq![1u8] + a@,
    }
}

/// Where `front + piece` stands at the front of the data, so does `front`,
/// and `piece` stands right behind it.
pub proof fn lemma_split(front: Seq<u8>, piece: Seq<u8>, data: Seq<u8>)
    requires
        (front + piece).is_prefix_of(data),
    ensures
        front.is_prefix_of(data),
        data.subrange(front.len() as int, (front.len() + piece.len()) as int) == piece,
        piece.len() > 0 ==> data[front.len() as int] == piece[0],
        (front + piece).len() == front.len() + piece.len(),
{
    let whole = front + piece;
    assert(data.subrange(0, whole.len() as int) == whole);
    assert(front =~= data.subrange(0, front.len() as int)) by {
        assert forall|i: int| 0 <= i < front.len() implies front[i] == data[i] by {
            assert(whole[i] == data.subrange(0, whole.len() as int)[i]);
        }
    }
    assert(data.subrange(front.len() as int, (front.len() + piece.len()) as int) =~= piece) by {
        assert forall|i: int| 0 <= i < piece.len() implies piece[i] == data[front.len() + i] by {
            assert(whole[front.len() + i] == data.subrange(0, whole.len() as int)[front.len() + i]);
        }
    }
    if piece.len() > 0 {
        assert(whole[front.len() as int] == data.subrange(0, whole.len() as int)[front.len() as int]);
    }
}

/// A stretch of the data, put behind all that stands before it, is the data
/// up to the end of the stretch.
pub proof fn lemma_join(data: Seq<u8>, from: int, to: int)
    requires
        0 <= from <= to <= data.len(),
    ensures
        data.subrange(0, from) + data.subrange(from, to) == data.subrange(0, to),
{
    assert(data.subrange(0, from) + data.subrange(from, to) =~= data.subrange(0, to));
}

/// Data starts with whatever it was put together from.
pub proof fn lemma_front(front: Seq<u8>, rest: Seq<u8>)
    ensures
        front.is_prefix_of(front + rest),
{
    assert((front + rest).subrange(0, front.len() as int) =~= front);
}

/// Reads the 16-bit integer at an offset.
pub fn read_u16(data: &[u8], at: usize) -> (x: u16)
    requires
        at + 2 <= data@.len(),
    ensures
        x == spec_u16_at(data@, at as int),
{
    let len = data.len();
    u16_from_le_bytes(slice_subrange(data, at, at + 2))
}

/// Reads the 64-bit integer at an offset.
pub fn read_u64(data: &[u8], at: usize) -> (x: u64)
    requires
        at + 8 <= data@.len(),
    ensures
        x == spec_u64_at(data@, at as int),
{
    let len = data.len();
    u64_from_le_bytes(slice_subrange(data, at, at + 8))
}

/// Reads the address at an offset.
pub fn read_address(data: &[u8], at: usize) -> (a: Address)
    requires
        at + 32 <= data@.len(),
    ensures
        a == spec_address_at(data@, at as int),
        a@ == data@.subrange(at as int, at + 32),
{
    let len = data.len();
    let mut bytes = [0u8; 32];
    let mut i: usize = 0;
    while i < 32
        invariant
            i <= 32,
            at + 32 <= data@.len() <= usize::MAX,
            forall|j: int| 0 <= j < i ==> bytes@[j] == data@[at + j],
        decreases 32 - i,
    {
        bytes[i] = data[at + i];
        i = i + 1;
    }
    let a = Address { bytes };
    proof {
        assert(a@ =~= data@.subrange(at as int, at + 32));
        lemma_address_of_view(a);
    }
    a
}

/// Appends the layout of a 16-bit integer.
pub fn write_u16(out: &mut Vec<u8>, x: u16)
    ensures
        final(out)@ == old(out)@ + spec_u16_to_le_bytes(x),
{
    let bytes = u16_to_le_bytes(x);
    append(out, bytes.as_slice());
}

/// Appends the layout of a 64-bit integer.
pub fn write_u64(out: &mut Vec<u8>, x: u64)
    ensures
        final(out)@ == old(out)@ + spec_u64_to_le_bytes(x),
{
    let bytes = u64_to_le_bytes(x);
    append(out, bytes.as_slice());
}

/// Appends the bytes of an address.
pub fn write_address(out: &mut Vec<u8>, a: &Address)
    ensures
        final(out)@ == old(out)@ + a@,
{
    let mut i: usize = 0;
    while i < 32
        invariant
            i <= 32,
            out@ == old(out)@ + a@.subrange(0, i as int),
        decreases 32 - i,
    {
        out.push(a.bytes[i]);
        i = i + 1;
        assert(out@ =~= old(out)@ + a@.subrange(0, i as int));
    }
    assert(a@.subrange(0, 32) =~= a@);
}

/// Appends the layout of a flag.
pub fn write_bool(out: &mut Vec<u8>, flag: bool)
    ensures
        final(out)@ == old(out)@ + spec_bool_bytes(flag),
{
    out.push(if flag { 1 } else { 0 });
    assert(out@ =~= old(out)@ + spec_bool_bytes(flag));
}

/// Appends the layout of an optional 64-bit integer.
pub fn write_option_u64(out: &mut Vec<u8>, value: Option<u64>)
    ensures
        final(out)@ == old(out)@ + spec_option_u64_bytes(value),
{
    match value {
        None => {
            out.push(0);
            assert(out@ =~= old(out)@ + spec_option_u64_bytes(value));
        },
        Some(x) => {
            out.push(1);
            write_u64(out, x);
            assert(out@ =~= old(out)@ + spec_option_u64_bytes(value));
        },
    }
}

/// Appends the layout of an optional address.
pub fn write_option_address(out: &mut Vec<u8>, value: &Option<Address>)
    ensures
        final(out)@ == old(out)@ + spec_option_address_bytes(*value),
{
    match value {
        None => {
            out.push(0);
            assert(out@ =~= old(out)@ + spec_option_address_bytes(*value));
        },
        Some(a) => {
            out.push(1);
            write_address(out, a);
            assert(out@ =~= old(out)@ + spec_option_address_bytes(*value));
        },
    }
}

/// Appends bytes.
pub fn append(out: &mut Vec<u8>, bytes: &[u8])
    ensures
        final(out)@ == old(out)@ + bytes@,
{
    let mut i: usize = 0;
    while i < bytes.len()
        invariant
            i <= bytes@.len(),
            out@ == old(out)@ + bytes@.subrange(0, i as int),
        decreases bytes@.len() - i,
    {
        out.push(bytes[i]);
        i = i + 1;
        assert(out@ =~= old(out)@ + bytes@.subrange(0, i as int));
    }
    assert(bytes@.subrange(0, bytes@.len() as int) =~= bytes@);
}

/// Writes bytes over the front of a buffer that is long enough for them. What
/// follows them in the buffer stays.
pub fn overwrite(dst: &mut [u8], bytes: &[u8])
    requires
        bytes@.len() <= old(dst)@.len(),
    ensures
        final(dst)@ == bytes@ + old(dst)@.skip(bytes@.len() as int),
{
    let mut i: usize = 0;
    while i < bytes.len()
        invariant
            i <= bytes@.len(),
            bytes@.len() <= dst@.len(),
            dst@.len() == old(dst)@.len(),
            dst@ == bytes@.subrange(0, i as int) + old(dst)@.skip(i as int),
        decreases bytes@.len() - i,
    {
        dst[i] = bytes[i];
        i = i + 1;
        assert(dst@ =~= bytes@.subrange(0, i as int) + old(dst)@.skip(i as int));
    }
    assert(bytes@.subrange(0, bytes@.len() as int) =~= bytes@);
}

/// The layout of an optional byte.
pub open spec fn spec_option_u8_bytes(value: Option<u8>) -> Seq<u8> {
    match value {
        None => seq![0u8],
        Some(x) => seq![1u8, x],
    }
}

/// The layout of an optional flag.
pub open spec fn spec_option_bool_bytes(value: Option<bool>) -> Seq<u8> {
    match value {
        None => seq![0u8],
        Some(flag) => seq![1u8] + spec_bool_bytes(flag),
    }
}

/// The layout of a text: its length in bytes as a 32-bit integer, and its
/// bytes in UTF-8.
pub open spec fn spec_string_bytes(text: Seq<char>) -> Seq<u8> {
    vstd::bytes::spec_u32_to_le_bytes(vstd::utf8::encode_utf8(text).len() as u32)
        + vstd::utf8::encode_utf8(text)
}

/// The layout of an optional text.
pub open spec fn spec_option_string_bytes(value: Option<String>) -> Seq<u8> {
    match value {
        None => seq![0u8],
        Some(text) => seq![1u8] + spec_string_bytes(text@),
    }
}

/// Appends the layout of an optional byte.
pub fn write_option_u8(out: &mut Vec<u8>, value: Option<u8>)
    ensures
        final(out)@ == old(out)@ + spec_option_u8_bytes(value),
{
    match value {
        None => {
            out.push(0);
        },
        Some(x) => {
            out.push(1);
            out.push(x);
        },
    }
    assert(out@ =~= old(out)@ + spec_option_u8_bytes(value));
}

/// Appends the layout of an optional flag.
pub fn write_option_bool(out: &mut Vec<u8>, value: Option<bool>)
    ensures
        final(out)@ == old(out)@ + spec_option_bool_bytes(value),
{
    match value {
        None => {
            out.push(0);
        },
        Some(flag) => {
            out.push(1);
            write_bool(out, flag);
        },
    }
    assert(out@ =~= old(out)@ + spec_option_bool_bytes(value));
}

/// Appends the layout of an optional text, which must be shorter than 4 GiB.
pub fn write_option_string(out: &mut Vec<u8>, value: &Option<String>)
    requires
        value matches Some(text) ==> vstd::utf8::encode_utf8(text@).len() <= u32::MAX,
    ensures
        final(out)@ == old(out)@ + spec_option_string_bytes(*value),
{
    match value {
        None => {
            out.push(0);
        },
        Some(text) => {
            out.push(1);
            let bytes = text.as_str().as_bytes();
            let len = bytes.len();
            let size = vstd::bytes::u32_to_le_bytes(len as u32);
            append(out, size.as_slice());
            append(out, bytes);
        },
    }
    assert(out@ =~= old(out)@ + spec_option_string_bytes(*value));
}

} // verus!
