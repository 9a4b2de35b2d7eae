//! Byte-level helpers: the word-wise byte-order conversion used in front of
//! the constrained verifier, and stand-ins for the host's curve primitives.

use vstd::prelude::*;

verus! {

/// Four bytes read as a little-endian word; `b0` is the least significant.
pub open spec fn word_from_le(b0: u8, b1: u8, b2: u8, b3: u8) -> u32 {
    (b0 as u32) | ((b1 as u32) << 8) | ((b2 as u32) << 16) | ((b3 as u32) << 24)
}

/// Byte `k` of `v`, counted from the least significant.
pub open spec fn word_byte(v: u32, k: u32) -> u8 {
    ((v >> (8 * k)) & 0xff) as u8
}

/// The place in the input of the byte that the conversion writes at place
/// `i`: the same word, the opposite end.
pub open spec fn mirrored(i: int) -> int {
    4 * (i / 4) + 3 - i % 4
}

/// What `convert_endianness` writes into a buffer of `out_len` bytes: each
/// whole four-byte word that both buffers have room for with its bytes in
/// the opposite order, and zeros after them.
pub open spec fn converted_bytes(input: Seq<u8>, out_len: nat) -> Seq<u8> {
    let shorter = if input.len() <= out_len {
        input.len()
    } else {
        out_len
    };
    let copied = 4 * (shorter / 4);
    Seq::new(
        out_len,
        |i: int|
            if i < copied {
                input[mirrored(i)]
            } else {
                0u8
            },
    )
}

/// Reads four bytes as a little-endian word.
pub fn u32_from_le_bytes(bytes: [u8; 4]) -> (v: u32)
    ensures
        v == word_from_le(bytes@[0], bytes@[1], bytes@[2], bytes@[3]),
{
    (bytes[0] as u32) | ((bytes[1] as u32) << 8) | ((bytes[2] as u32) << 16) | ((bytes[3] as u32)
        << 24)
}

/// Writes a word as four bytes, most significant first.
pub fn u32_to_be_bytes(v: u32) -> (r: [u8; 4])
    ensures
        r@[0] == word_byte(v, 3),
        r@[1] == word_byte(v, 2),
        r@[2] == word_byte(v, 1),
        r@[3] == word_byte(v, 0),
{
    assert(((v >> 24) & 0xff) < 256 && ((v >> 24) & 0xff) == ((v >> (8 * 3u32)) & 0xff))
        by (bit_vector);
    assert(((v >> 16) & 0xff) < 256 && ((v >> 16) & 0xff) == ((v >> (8 * 2u32)) & 0xff))
        by (bit_vector);
    assert(((v >> 8) & 0xff) < 256 && ((v >> 8) & 0xff) == ((v >> (8 * 1u32)) & 0xff))
        by (bit_vector);
    assert((v & 0xff) < 256 && (v & 0xff) == ((v >> (8 * 0u32)) & 0xff)) by (bit_vector);
    [
        ((v >> 24) & 0xff) as u8,
        ((v >> 16) & 0xff) as u8,
        ((v >> 8) & 0xff) as u8,
        (v & 0xff) as u8,
    ]
}

/// Byte `k` of a word read little-endian is the byte that was read at place
/// `k`.
pub proof fn lemma_word_bytes(b0: u8, b1: u8, b2: u8, b3: u8)
    ensures
        word_byte(word_from_le(b0, b1, b2, b3), 0) == b0,
        word_byte(word_from_le(b0, b1, b2, b3), 1) == b1,
        word_byte(word_from_le(b0, b1, b2, b3), 2) == b2,
        word_byte(word_from_le(b0, b1, b2, b3), 3) == b3,
{
    assert({
        let v = (b0 as u32) | ((b1 as u32) << 8) | ((b2 as u32) << 16) | ((b3 as u32) << 24);
        &&& ((v >> (8 * 0u32)) & 0xff) as u8 == b0
        &&& ((v >> (8 * 1u32)) & 0xff) as u8 == b1
        &&& ((v >> (8 * 2u32)) & 0xff) as u8 == b2
        &&& ((v >> (8 * 3u32)) & 0xff) as u8 == b3
    }) by (bit_vector);
}

/// Converts the byte order of a buffer word by word into a buffer of
/// `OUTPUT_SIZE` bytes.
///
/// Each four-byte word of the input is read little-endian and written
/// big-endian, so its bytes come out in the opposite order, the words staying
/// in place. Input beyond the output's length is dropped and output beyond
/// the input's length stays zero. Both sizes must be multiples of four.
pub fn convert_endianness<const INPUT_SIZE: usize, const OUTPUT_SIZE: usize>(
    input: &[u8; INPUT_SIZE],
) -> (r: Result<[u8; OUTPUT_SIZE], &'static str>)
    ensures
        (INPUT_SIZE % 4 != 0 || OUTPUT_SIZE % 4 != 0) ==> r is Err && r->Err_0@
            == "Input and output sizes must be multiples of 4 bytes"@,
        (INPUT_SIZE % 4 == 0 && OUTPUT_SIZE % 4 == 0) ==> r is Ok && r->Ok_0@ == converted_bytes(
            input@,
            OUTPUT_SIZE as nat,
        ),
{
    if INPUT_SIZE % 4 != 0 || OUTPUT_SIZE % 4 != 0 {
        return Err("Input and output sizes must be multiples of 4 bytes");
    }
    let mut output = [0u8; OUTPUT_SIZE];
    let copy_size: usize = if INPUT_SIZE <= OUTPUT_SIZE {
        INPUT_SIZE
    } else {
        OUTPUT_SIZE
    };
    let chunks: usize = copy_size / 4;
    let mut chunk: usize = 0;
    while chunk < chunks
        invariant
            chunks == copy_size / 4,
            copy_size % 4 == 0,
            copy_size <= INPUT_SIZE,
            copy_size <= OUTPUT_SIZE,
            0 <= chunk <= chunks,
            forall|i: int| 0 <= i < 4 * chunk ==> output@[i] == input@[mirrored(i)],
            forall|i: int| 4 * chunk <= i < OUTPUT_SIZE ==> output@[i] == 0u8,
        decreases chunks - chunk,
    {
        let start: usize = chunk * 4;
        let word = [input[start], input[start + 1], input[start + 2], input[start + 3]];
        let bytes = u32_to_be_bytes(u32_from_le_bytes(word));
        proof {
            lemma_word_bytes(word@[0], word@[1], word@[2], word@[3]);
            assert(mirrored(start as int) == start + 3);
            assert(mirrored(start + 1) == start + 2);
            assert(mirrored(start + 2) == start + 1);
            assert(mirrored(start + 3) == start as int);
        }
        output[start] = bytes[0];
        output[start + 1] = bytes[1];
        output[start + 2] = bytes[2];
        output[start + 3] = bytes[3];
        chunk += 1;
    }
    assert(output@ =~= converted_bytes(input@, OUTPUT_SIZE as nat));
    Ok(output)
}

/// Converting twice between buffers of one size gives back the bytes that
/// were put in.
pub proof fn lemma_convert_endianness_twice(b: Seq<u8>)
    requires
        b.len() % 4 == 0,
    ensures
        converted_bytes(converted_bytes(b, b.len()), b.len()) == b,
{
    let once = converted_bytes(b, b.len());
    let twice = converted_bytes(once, b.len());
    assert forall|i: int| 0 <= i < b.len() implies twice[i] == b[i] by {
        let j = mirrored(i);
        assert(0 <= j < b.len());
        assert(mirrored(j) == i);
        assert(twice[i] == once[j]);
        assert(once[j] == b[mirrored(j)]);
    }
    assert(twice =~= b);
}

/// The conversion reverses the bytes of each word: byte `j` of word `k` of
/// the output is byte `3 - j` of word `k` of the input.
pub proof fn lemma_convert_endianness_reverses(b: Seq<u8>, out_len: nat, k: int, j: int)
    requires
        0 <= k,
        0 <= j < 4,
        4 * k + 4 <= b.len(),
        4 * k + 4 <= out_len,
    ensures
        converted_bytes(b, out_len)[4 * k + j] == b[4 * k + 3 - j],
{
    assert(mirrored(4 * k + j) == 4 * k + 3 - j);
}

/// Stand-in for the host's pairing primitive: it looks at nothing and always
/// answers with the 32-byte big-endian encoding of one, the host's "pairing
/// holds".
pub fn alt_bn128_pairing(_input: &[u8]) -> (r: Result<[u8; 32], u32>)
    ensures
        r is Ok,
        r->Ok_0@ == Seq::new(
            32,
            |i: int|
                if i == 31 {
                    1u8
                } else {
                    0u8
                },
        ),
{
    let mut result = [0u8; 32];
    result[31] = 1;
    assert(result@ =~= Seq::new(
        32,
        |i: int|
            if i == 31 {
                1u8
            } else {
                0u8
            },
    ));
    Ok(result)
}

/// Stand-in for the host's scalar multiplication: hands the input back.
pub fn alt_bn128_multiplication(input: &[u8]) -> (r: Result<Vec<u8>, u32>)
    ensures
        r is Ok,
        r->Ok_0@ == input@,
{
    Ok(vstd::slice::slice_to_vec(input))
}

/// Stand-in for the host's point addition: hands the input back.
pub fn alt_bn128_addition(input: &[u8]) -> (r: Result<Vec<u8>, u32>)
    ensures
        r is Ok,
        r->Ok_0@ == input@,
{
    Ok(vstd::slice::slice_to_vec(input))
}

} // verus!
