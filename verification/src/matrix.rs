use vstd::prelude::*;
use vstd::arithmetic::div_mod::lemma_fundamental_div_mod_converse;
use xorshift::{Rng, SeedableRng, Xorshift128};
use crate::error::ComputeError;

verus! {

/// Number of bytes that one element occupies.
pub const ELEMENT_SIZE: usize = 4;

/// Bit pattern of the number one. The patterns below it are exactly the
/// non-negative numbers below one.
pub const UNIT_BITS: u32 = 0x3F80_0000;

/// Byte `k` (0 is the least significant) of the word `w`.
pub open spec fn byte_of(w: u32, k: int) -> u8 {
    if k == 0 {
        (w & 0xff) as u8
    } else if k == 1 {
        ((w >> 8) & 0xff) as u8
    } else if k == 2 {
        ((w >> 16) & 0xff) as u8
    } else {
        ((w >> 24) & 0xff) as u8
    }
}

/// The word whose little-endian bytes are `b0`, `b1`, `b2`, `b3`.
pub open spec fn word_of(b0: u8, b1: u8, b2: u8, b3: u8) -> u32 {
    (b0 as u32) | ((b1 as u32) << 8) | ((b2 as u32) << 16) | ((b3 as u32) << 24)
}

/// The little-endian byte image of a sequence of words: four bytes per
/// word, in the order of the words.
pub open spec fn encode(words: Seq<u32>) -> Seq<u8> {
    Seq::new(4 * words.len(), |i: int| byte_of(words[i / 4], i % 4))
}

/// The words that a byte sequence holds, four bytes to a word,
/// little-endian. Trailing bytes that fill no word are not read.
pub open spec fn decode(bytes: Seq<u8>) -> Seq<u32> {
    Seq::new(
        bytes.len() / 4,
        |k: int| word_of(bytes[4 * k], bytes[4 * k + 1], bytes[4 * k + 2], bytes[4 * k + 3]),
    )
}

/// A dimension from which a square matrix can be made: at least one, and
/// with a byte size that a `usize` can hold.
pub open spec fn valid_dimension(dim_size: usize) -> bool {
    dim_size >= 1 && dim_size * dim_size * 4 <= usize::MAX
}

/// Splitting a word into its four bytes and joining them gives the word.
pub proof fn lemma_word_of_bytes(w: u32)
    ensures
        word_of(byte_of(w, 0), byte_of(w, 1), byte_of(w, 2), byte_of(w, 3)) == w,
{
    assert((((w & 0xff) as u8) as u32) | ((((w >> 8) & 0xff) as u8) as u32) << 8 | ((((w >> 16)
        & 0xff) as u8) as u32) << 16 | ((((w >> 24) & 0xff) as u8) as u32) << 24 == w)
        by (bit_vector);
}

/// Joining four bytes into a word and splitting it gives the bytes.
pub proof fn lemma_bytes_of_word(b0: u8, b1: u8, b2: u8, b3: u8)
    ensures
        byte_of(word_of(b0, b1, b2, b3), 0) == b0,
        byte_of(word_of(b0, b1, b2, b3), 1) == b1,
        byte_of(word_of(b0, b1, b2, b3), 2) == b2,
        byte_of(word_of(b0, b1, b2, b3), 3) == b3,
{
    let w = word_of(b0, b1, b2, b3);
    assert(w == (b0 as u32) | ((b1 as u32) << 8) | ((b2 as u32) << 16) | ((b3 as u32) << 24));
    assert(w == (b0 as u32) | ((b1 as u32) << 8) | ((b2 as u32) << 16) | ((b3 as u32) << 24) ==> (
    w & 0xff) as u8 == b0 && ((w >> 8) & 0xff) as u8 == b1 && ((w >> 16) & 0xff) as u8 == b2 && ((w
        >> 24) & 0xff) as u8 == b3) by (bit_vector);
}

/// Round trip, words first: decoding the byte image of a sequence of
/// words gives back exactly those words, and the image holds a whole
/// number of elements.
pub proof fn lemma_decode_encode(words: Seq<u32>)
    ensures
        encode(words).len() == 4 * words.len(),
        encode(words).len() % 4 == 0,
        decode(encode(words)) == words,
{
    let bytes = encode(words);
    assert(bytes.len() / 4 == words.len());
    assert forall|k: int| 0 <= k < words.len() implies decode(bytes)[k] == words[k] by {
        assert((4 * k) / 4 == k && (4 * k + 1) / 4 == k && (4 * k + 2) / 4 == k && (4 * k + 3) / 4
            == k);
        assert((4 * k) % 4 == 0 && (4 * k + 1) % 4 == 1 && (4 * k + 2) % 4 == 2 && (4 * k + 3) % 4
            == 3);
        lemma_word_of_bytes(words[k]);
    }
    assert(decode(bytes) =~= words);
}

/// Round trip, bytes first: encoding the words decoded from a byte
/// sequence that holds a whole number of elements gives back exactly
/// those bytes.
pub proof fn lemma_encode_decode(bytes: Seq<u8>)
    requires
        bytes.len() % 4 == 0,
    ensures
        decode(bytes).len() * 4 == bytes.len(),
        encode(decode(bytes)) == bytes,
{
    let words = decode(bytes);
    assert forall|i: int| 0 <= i < bytes.len() implies encode(words)[i] == bytes[i] by {
        let k = i / 4;
        lemma_bytes_of_word(bytes[4 * k], bytes[4 * k + 1], bytes[4 * k + 2], bytes[4 * k + 3]);
        assert(i == 4 * k + i % 4);
    }
    assert(encode(words) =~= bytes);
}

/// Round trip through the byte image: reading the byte image of any
/// sequence of elements succeeds and gives back exactly those elements.
pub proof fn lemma_round_trip(words: Seq<u32>)
    ensures
        Matrix::from_bytes_spec(encode(words)) == Some(words),
{
    lemma_decode_encode(words);
}

/// A flat, row-major array of single-precision numbers, each held by its
/// IEEE-754 bit pattern.
#[derive(Debug)]
pub struct Matrix {
    pub val: Vec<u32>,
}

impl View for Matrix {
    type V = Seq<u32>;

    open spec fn view(&self) -> Seq<u32> {
        self.val@
    }
}

impl PartialEq for Matrix {
    /// Two matrices are equal when they hold the same bit patterns in the
    /// same order. This is equality of patterns, not of numbers: a
    /// not-a-number equals itself, and zero differs from minus zero.
    fn eq(&self, other: &Self) -> (equal: bool) {
        let len: usize = self.val.len();
        if other.val.len() != len {
            return false;
        }
        let mut i: usize = 0;
        while i < len
            invariant
                i <= len,
                len == self@.len(),
                len == other@.len(),
                forall|j: int| 0 <= j < i ==> self@[j] == other@[j],
            decreases len - i,
        {
            if self.val[i] != other.val[i] {
                return false;
            }
            i += 1;
        }
        assert(self@ =~= other@);
        true
    }
}

impl vstd::std_specs::cmp::PartialEqSpecImpl for Matrix {
    open spec fn obeys_eq_spec() -> bool {
        true
    }

    open spec fn eq_spec(&self, other: &Self) -> bool {
        self@ == other@
    }
}

/// Joins four bytes, least significant first, into one word.
pub fn word_from_le(b0: u8, b1: u8, b2: u8, b3: u8) -> (w: u32)
    ensures
        w == word_of(b0, b1, b2, b3),
{
    (b0 as u32) | ((b1 as u32) << 8) | ((b2 as u32) << 16) | ((b3 as u32) << 24)
}

/// The generator of `xorshift`, kept opaque: the library only carries it
/// from its seeding to the draws.
#[verifier::external_type_specification]
#[verifier::external_body]
pub struct ExXorshift128(xorshift::Xorshift128);

/// Reads the clock through `clock_ticks::precise_time_ns`: nanoseconds
/// since an epoch that the crate leaves open. Nothing is claimed of the
/// number.
#[verifier::external_body]
fn current_ticks() -> (now: u64) {
    clock_ticks::precise_time_ns()
}

/// Makes a generator through `Xorshift128::from_seed`, with `seed` as both
/// words of its state. The slice handed over has two words, which is all
/// that `from_seed` asks for. Nothing is claimed of the generator.
#[verifier::external_body]
fn seeded_generator(seed: u64) -> (rng: Xorshift128) {
    let state: [u64; 2] = [seed, seed];
    SeedableRng::from_seed(&state[..])
}

/// Draws through `Rng::next_f32` and hands the number on as its bit
/// pattern. The trait promises a number of the half-open interval from
/// zero to one; the default body, which `Xorshift128` keeps, takes a
/// number between one and two and subtracts one. The patterns of those
/// numbers are the ones below `UNIT_BITS`.
#[verifier::external_body]
fn next_unit_sample(rng: &mut Xorshift128) -> (bits: u32)
    ensures
        bits < UNIT_BITS,
{
    rng.next_f32().to_bits()
}

/// Where the element of row `row` and column `col` stands in a row-major
/// square matrix of `size` rows.
pub open spec fn spec_cell_index(row: int, col: int, size: int) -> int {
    row * size + col
}

/// Rows do not overlap: every cell of a square matrix has an index inside
/// the matrix, and that index gives back the row as its quotient by the
/// size and the column as the remainder.
pub proof fn lemma_cell_index_splits(row: int, col: int, size: int)
    requires
        0 <= row < size,
        0 <= col < size,
    ensures
        0 <= spec_cell_index(row, col, size) < size * size,
        spec_cell_index(row, col, size) / size == row,
        spec_cell_index(row, col, size) % size == col,
{
    assert(0 <= row * size && row * size + col < size * size) by (nonlinear_arith)
        requires
            0 <= row < size,
            0 <= col < size,
    ;
    lemma_fundamental_div_mod_converse(row * size + col, size, row, col);
}

/// Index of the element of row `row` and column `col` in a row-major
/// square matrix of `size` rows.
pub fn cell_index(row: usize, col: usize, size: usize) -> (index: usize)
    requires
        row < size,
        col < size,
        size * size <= usize::MAX,
    ensures
        index == spec_cell_index(row as int, col as int, size as int),
        index < size * size,
{
    proof {
        lemma_cell_index_splits(row as int, col as int, size as int);
    }
    assert(row * size <= size * size) by (nonlinear_arith)
        requires
            row < size,
    ;
    row * size + col
}

impl Matrix {
    /// The byte size fits in a `usize`.
    pub open spec fn wf(&self) -> bool {
        self@.len() * 4 <= usize::MAX
    }

    /// Number of bytes that the elements occupy.
    pub open spec fn spec_data_size(&self) -> nat {
        self@.len() * 4
    }

    /// Every element is the bit pattern of a number that is at least zero
    /// and less than one.
    pub open spec fn in_unit_range(&self) -> bool {
        forall|i: int| 0 <= i < self@.len() ==> #[trigger] self@[i] < UNIT_BITS
    }

    /// A square matrix of `dim_size` rows and columns, filled with numbers
    /// drawn from the half-open interval from zero to one by a generator
    /// that is seeded with `seed`.
    ///
    /// Fails with `ConfigError` exactly when the dimension is zero or the
    /// byte size of the matrix does not fit in a `usize`.
    pub fn new_seeded(dim_size: usize, seed: u64) -> (res: Result<Matrix, ComputeError>)
        ensures
            res is Ok <==> valid_dimension(dim_size),
            res matches Ok(m) ==> {
                &&& m@.len() == dim_size * dim_size
                &&& m.spec_data_size() == dim_size * dim_size * 4
                &&& m.wf()
                &&& m.in_unit_range()
            },
            res matches Err(e) ==> e == ComputeError::ConfigError,
    {
        if dim_size == 0 {
            return Err(ComputeError::ConfigError);
        }
        let num_of_el: usize = match dim_size.checked_mul(dim_size) {
            Some(n) => n,
            None => {
                assert(dim_size * dim_size * 4 > usize::MAX) by (nonlinear_arith)
                    requires
                        dim_size * dim_size > usize::MAX,
                ;
                return Err(ComputeError::ConfigError);
            },
        };
        if num_of_el > usize::MAX / ELEMENT_SIZE {
            return Err(ComputeError::ConfigError);
        }
        let mut rng = seeded_generator(seed);
        let mut val: Vec<u32> = Vec::new();
        let mut i: usize = 0;
        while i < num_of_el
            invariant
                i <= num_of_el,
                val@.len() == i,
                forall|j: int| 0 <= j < i ==> #[trigger] val@[j] < UNIT_BITS,
            decreases num_of_el - i,
        {
            let sample = next_unit_sample(&mut rng);
            val.push(sample);
            i += 1;
        }
        Ok(Matrix { val })
    }

    /// A square matrix of `dim_size` rows and columns, filled with numbers
    /// drawn from the half-open interval from zero to one by a generator
    /// that is seeded with the current time.
    ///
    /// Fails with `ConfigError` exactly when the dimension is zero or the
    /// byte size of the matrix does not fit in a `usize`.
    pub fn new_rand(dim_size: usize) -> (res: Result<Matrix, ComputeError>)
        ensures
            res is Ok <==> valid_dimension(dim_size),
            res matches Ok(m) ==> {
                &&& m@.len() == dim_size * dim_size
                &&& m.spec_data_size() == dim_size * dim_size * 4
                &&& m.wf()
                &&& m.in_unit_range()
            },
            res matches Err(e) ==> e == ComputeError::ConfigError,
    {
        let now = current_ticks();
        Matrix::new_seeded(dim_size, now)
    }

    /// Number of bytes that the elements occupy: four for each.
    pub fn data_size(&self) -> (size: usize)
        requires
            self.wf(),
        ensures
            size == self.spec_data_size(),
            size == self@.len() * 4,
    {
        self.val.len() * ELEMENT_SIZE
    }

    /// Reads a matrix from its little-endian byte image, keeping the order
    /// of the elements, so that writing it out again gives the same bytes.
    ///
    /// Fails with `DeserializationError` exactly when the number of bytes
    /// is not a multiple of four.
    pub fn from_bytes(bytes: &[u8]) -> (res: Result<Matrix, ComputeError>)
        ensures
            res is Ok <==> bytes@.len() % 4 == 0,
            res matches Ok(m) ==> {
                &&& Some(m@) == Matrix::from_bytes_spec(bytes@)
                &&& m@ == decode(bytes@)
                &&& encode(m@) == bytes@
                &&& m.spec_data_size() == bytes@.len()
                &&& m.wf()
            },
            res matches Err(e) ==> e == ComputeError::DeserializationError,
    {
        let n: usize = bytes.len();
        if n % ELEMENT_SIZE != 0 {
            return Err(ComputeError::DeserializationError);
        }
        let count: usize = n / ELEMENT_SIZE;
        let mut val: Vec<u32> = Vec::with_capacity(count);
        let mut k: usize = 0;
        while k < count
            invariant
                k <= count,
                n == bytes@.len(),
                n % 4 == 0,
                count == n / 4,
                val@.len() == k,
                forall|j: int| 0 <= j < k ==> #[trigger] val@[j] == decode(bytes@)[j],
            decreases count - k,
        {
            let base: usize = 4 * k;
            let w = word_from_le(bytes[base], bytes[base + 1], bytes[base + 2], bytes[base + 3]);
            val.push(w);
            k += 1;
        }
        proof {
            assert(val@ =~= decode(bytes@));
            lemma_encode_decode(bytes@);
        }
        Ok(Matrix { val })
    }

    /// The little-endian byte image of the matrix: four bytes for each
    /// element, in the order of the elements.
    pub fn to_bytes(&self) -> (out: Vec<u8>)
        ensures
            out@ == encode(self@),
            Matrix::from_bytes_spec(out@) == Some(self@),
    {
        let count: usize = self.val.len();
        let mut out: Vec<u8> = Vec::new();
        let mut i: usize = 0;
        while i < count
            invariant
                i <= count,
                count == self@.len(),
                out@.len() == 4 * i,
                forall|j: int| 0 <= j < 4 * i ==> #[trigger] out@[j] == byte_of(self@[j / 4], j % 4),
            decreases count - i,
        {
            let w: u32 = self.val[i];
            out.push((w & 0xff) as u8);
            out.push(((w >> 8) & 0xff) as u8);
            out.push(((w >> 16) & 0xff) as u8);
            out.push(((w >> 24) & 0xff) as u8);
            i += 1;
        }
        proof {
            assert(out@ =~= encode(self@));
            lemma_decode_encode(self@);
        }
        out
    }

    /// What [`Matrix::from_bytes`] makes of a byte sequence: the decoded
    /// elements, or nothing where it fails.
    pub open spec fn from_bytes_spec(bytes: Seq<u8>) -> Option<Seq<u32>> {
        if bytes.len() % 4 == 0 {
            Some(decode(bytes))
        } else {
            None
        }
    }
}

/// Two operands that can be multiplied as square matrices of `size` rows:
/// the dimension is valid and each of them has `size * size` elements.
pub open spec fn operands_match(a: Seq<u32>, b: Seq<u32>, size: usize) -> bool {
    &&& valid_dimension(size)
    &&& a.len() == size * size
    &&& b.len() == size * size
}

/// Tells whether two operands can be multiplied as square matrices of
/// `size` rows and columns, and then how many elements the product has.
///
/// Fails with `ConfigError` exactly when the dimension is zero, is too
/// large for the byte size to fit in a `usize`, or is not the one of
/// both operands.
pub fn check_operands(a: &Matrix, b: &Matrix, size: usize) -> (res: Result<usize, ComputeError>)
    ensures
        res is Ok <==> operands_match(a@, b@, size),
        res matches Ok(count) ==> count == size * size && count * 4 <= usize::MAX,
        res matches Err(e) ==> e == ComputeError::ConfigError,
{
    if size == 0 {
        return Err(ComputeError::ConfigError);
    }
    let count: usize = match size.checked_mul(size) {
        Some(n) => n,
        None => {
            assert(size * size * 4 > usize::MAX) by (nonlinear_arith)
                requires
                    size * size > usize::MAX,
            ;
            return Err(ComputeError::ConfigError);
        },
    };
    if count > usize::MAX / 4 {
        return Err(ComputeError::ConfigError);
    }
    if a.val.len() != count || b.val.len() != count {
        return Err(ComputeError::ConfigError);
    }
    Ok(count)
}

} // verus!
