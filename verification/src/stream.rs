//! The output stream: every coordinate as four bytes in the byte order of
//! the machine, the coordinates of a point one after the other, point after
//! point.

use vstd::prelude::*;
use crate::bits::{guard, guarded, is_finite};
use crate::config::COORDINATE_BYTES;

verus! {

/// The four bytes of a word, least significant first.
pub open spec fn le_bytes(word: u32) -> Seq<u8> {
    seq![
        (word % 256) as u8,
        (word / 256 % 256) as u8,
        (word / 65536 % 256) as u8,
        (word / 16777216) as u8,
    ]
}

/// The four bytes of a word, most significant first.
pub open spec fn be_bytes(word: u32) -> Seq<u8> {
    seq![
        (word / 16777216) as u8,
        (word / 65536 % 256) as u8,
        (word / 256 % 256) as u8,
        (word % 256) as u8,
    ]
}

/// `bytes` are the bytes of `word` in one of the two orders a machine can
/// hold them in.
pub open spec fn holds(bytes: Seq<u8>, word: u32) -> bool {
    bytes == le_bytes(word) || bytes == be_bytes(word)
}

/// `bytes` is the stream of `words`: four bytes for every word, in the order
/// of the words, and each word guarded before it was laid down.
pub open spec fn streams(bytes: Seq<u8>, words: Seq<u32>) -> bool {
    &&& bytes.len() == COORDINATE_BYTES * words.len()
    &&& forall|i: int|
        0 <= i < words.len() ==> holds(
            #[trigger] bytes.subrange(COORDINATE_BYTES * i, COORDINATE_BYTES * i + COORDINATE_BYTES),
            guarded(words[i]),
        )
}

/// Batches do not mix in the stream: the bytes of one batch followed by the
/// bytes of the next are the stream of the first batch's coordinates
/// followed by the second's.
pub proof fn lemma_streams_follow(
    first: Seq<u8>,
    first_words: Seq<u32>,
    second: Seq<u8>,
    second_words: Seq<u32>,
)
    requires
        streams(first, first_words),
        streams(second, second_words),
    ensures
        streams(first + second, first_words + second_words),
{
    let bytes = first + second;
    let words = first_words + second_words;
    let size = COORDINATE_BYTES as int;
    assert forall|i: int| 0 <= i < words.len() implies holds(
        #[trigger] bytes.subrange(size * i, size * i + size),
        guarded(words[i]),
    ) by {
        if i < first_words.len() {
            assert(bytes.subrange(size * i, size * i + size) == first.subrange(
                size * i,
                size * i + size,
            ));
        } else {
            let k = i - first_words.len();
            assert(bytes.subrange(size * i, size * i + size) == second.subrange(
                size * k,
                size * k + size,
            ));
            assert(words[i] == second_words[k]);
        }
    }
}

/// The stream of a batch is as long as its coordinates call for, and every
/// four bytes of it are the bytes of a finite number.
pub proof fn lemma_stream_is_clean(bytes: Seq<u8>, words: Seq<u32>, i: int)
    requires
        streams(bytes, words),
        0 <= i < words.len(),
    ensures
        bytes.len() == COORDINATE_BYTES * words.len(),
        exists|word: u32|
            is_finite(word) && holds(
                bytes.subrange(COORDINATE_BYTES * i, COORDINATE_BYTES * i + COORDINATE_BYTES),
                word,
            ),
{
    let word = guarded(words[i]);
    assert(is_finite(word) && holds(
        bytes.subrange(COORDINATE_BYTES * i, COORDINATE_BYTES * i + COORDINATE_BYTES),
        word,
    ));
}

/// `u32::to_ne_bytes`: the bytes of the word as the machine holds them in
/// memory. Claimed: they are the word's four bytes, least significant first or
/// most significant first. Which of the two is the machine's to say.
#[verifier::external_body]
fn native_bytes(word: u32) -> (bytes: [u8; 4])
    ensures
        holds(bytes@, word),
{
    word.to_ne_bytes()
}

/// Lays a batch of coordinates down as bytes. Nothing that is not finite
/// reaches the stream: such a coordinate is laid down as zero.
pub fn encode_batch(words: &Vec<u32>) -> (bytes: Vec<u8>)
    ensures
        streams(bytes@, words@),
{
    let mut bytes: Vec<u8> = Vec::new();
    let mut i: usize = 0;
    while i < words.len()
        invariant
            i <= words.len(),
            streams(bytes@, words@.take(i as int)),
        decreases words.len() - i,
    {
        let ghost before = bytes@;
        let four = native_bytes(guard(words[i]));
        bytes.push(four[0]);
        bytes.push(four[1]);
        bytes.push(four[2]);
        bytes.push(four[3]);
        proof {
            let now = words@.take(i + 1);
            assert(bytes@ == before + four@);
            assert forall|k: int| 0 <= k < now.len() implies holds(
                #[trigger] bytes@.subrange(
                    COORDINATE_BYTES * k,
                    COORDINATE_BYTES * k + COORDINATE_BYTES,
                ),
                guarded(now[k]),
            ) by {
                if k < i {
                    assert(bytes@.subrange(
                        COORDINATE_BYTES * k,
                        COORDINATE_BYTES * k + COORDINATE_BYTES,
                    ) == before.subrange(
                        COORDINATE_BYTES * k,
                        COORDINATE_BYTES * k + COORDINATE_BYTES,
                    ));
                    assert(words@.take(i as int)[k] == now[k]);
                } else {
                    assert(bytes@.subrange(
                        COORDINATE_BYTES * k,
                        COORDINATE_BYTES * k + COORDINATE_BYTES,
                    ) == four@);
                }
            }
        }
        i = i + 1;
    }
    proof {
        assert(words@.take(words.len() as int) == words@);
    }
    bytes
}

} // verus!
