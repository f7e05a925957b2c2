use vstd::prelude::*;

verus! {

/// The big-endian word made of bytes `hi` and `lo`.
pub open spec fn be_word(hi: u8, lo: u8) -> u16 {
    (hi as int * 256 + lo as int) as u16
}

/// The words that `bytes` holds, two big-endian bytes each (a trailing odd
/// byte is left out).
pub open spec fn words_of(bytes: Seq<u8>) -> Seq<u16> {
    Seq::new(bytes.len() / 2, |i: int| be_word(bytes[2 * i], bytes[2 * i + 1]))
}

/// Why a program image cannot be loaded.
#[derive(Debug, Clone, Copy, PartialEq, Eq, Structural)]
pub enum ImageError {
    /// The image has an odd number of bytes.
    OddLength,
    /// The image holds no word, so no base address.
    Empty,
}

/// A program: the address it loads at and its words.
#[derive(Debug)]
pub struct Program {
    pub base: u16,
    pub code: Vec<u16>,
}

/// Reads a program image: a sequence of big-endian words, the first the
/// base address and the rest the code loaded from it.
pub fn load_executable(bytes: &[u8]) -> (r: Result<Program, ImageError>)
    ensures
        bytes@.len() % 2 == 1 <==> r == Err::<Program, ImageError>(ImageError::OddLength),
        bytes@.len() == 0 <==> r == Err::<Program, ImageError>(ImageError::Empty),
        r is Ok <==> bytes@.len() >= 2 && bytes@.len() % 2 == 0,
        r matches Ok(p) ==> {
            &&& p.base == be_word(bytes@[0], bytes@[1])
            &&& p.code@ == words_of(bytes@).drop_first()
        },
{
    let len = bytes.len();
    if len % 2 == 1 {
        return Err(ImageError::OddLength);
    }
    if len == 0 {
        return Err(ImageError::Empty);
    }
    let base = word_from(bytes[0], bytes[1]);
    let mut code: Vec<u16> = Vec::new();
    let mut i: usize = 2;
    while i < len
        invariant
            len == bytes@.len(),
            len % 2 == 0,
            2 <= i <= len,
            i % 2 == 0,
            code@ == words_of(bytes@.take(i as int)).drop_first(),
        decreases len - i,
    {
        let w = word_from(bytes[i], bytes[i + 1]);
        code.push(w);
        proof {
            assert(words_of(bytes@.take(i + 2)).drop_first() =~= words_of(
                bytes@.take(i as int),
            ).drop_first().push(w));
        }
        i = i + 2;
    }
    assert(bytes@.take(i as int) =~= bytes@);
    Ok(Program { base, code })
}

/// The big-endian word made of `hi` and `lo`.
fn word_from(hi: u8, lo: u8) -> (w: u16)
    ensures
        w == be_word(hi, lo),
{
    let w = ((hi as u16) << 8u16) | (lo as u16);
    assert(w == (hi as int * 256 + lo as int) as u16) by (bit_vector)
        requires
            w == ((hi as u16) << 8u16) | (lo as u16),
    ;
    w
}

} // verus!
