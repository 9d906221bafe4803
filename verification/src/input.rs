//! Input values for the guest's input channel.
//!
//! A guest reads either a byte vector or a word vector from its input
//! channel; both are serialized with the zkVM's codec before they are
//! written. The codec frames each vector with a u32 length word, so a
//! vector within that range always encodes, and one beyond it is rejected
//! here before the codec would panic on it.

use vstd::prelude::*;

use crate::backend::{bytes_encoding, encode_bytes, encode_words, words_encoding};
use crate::Error;

verus! {

/// A serializable value destined for the guest's input channel: the two
/// shapes this harness's guests read. A value of another shape, serialized
/// elsewhere with the same codec, can still be fed through the raw-bytes
/// path or a custom environment, so nothing is out of reach.
#[derive(Debug)]
pub enum InputValue {
    /// A byte vector, read by the guest as a byte vector.
    Bytes(Vec<u8>),
    /// A word vector, read by the guest as a word vector.
    Words(Vec<u32>),
}

/// The mathematical content of an input value.
pub enum InputValueView {
    Bytes(Seq<u8>),
    Words(Seq<u32>),
}

impl View for InputValue {
    type V = InputValueView;

    open spec fn view(&self) -> InputValueView {
        match self {
            InputValue::Bytes(b) => InputValueView::Bytes(b@),
            InputValue::Words(w) => InputValueView::Words(w@),
        }
    }
}

/// The words the zkVM codec produces for an input value.
pub open spec fn input_encoding(v: InputValueView) -> Seq<u32> {
    match v {
        InputValueView::Bytes(b) => bytes_encoding(b),
        InputValueView::Words(w) => words_encoding(w),
    }
}

/// The number of elements an input value holds; the codec's length framing
/// bounds it by u32::MAX.
pub open spec fn input_len(v: InputValueView) -> nat {
    match v {
        InputValueView::Bytes(b) => b.len(),
        InputValueView::Words(w) => w.len(),
    }
}

impl InputValue {
    /// Serializes the value with the zkVM codec. A value within the range
    /// of the codec's u32 length framing always encodes, to exactly its
    /// encoding; one too long for the framing — on which the codec itself
    /// would panic — is rejected before the codec sees it, as the
    /// environment-write kind and nothing else.
    pub fn encode(&self) -> (r: Result<Vec<u32>, Error>)
        ensures
            input_len(self@) <= u32::MAX ==> (r matches Ok(words) && words@ == input_encoding(
                self@,
            )),
            input_len(self@) > u32::MAX ==> (r matches Err(e) && e
                matches Error::FailedToWriteInputToProverEnv(_)),
    {
        match self {
            InputValue::Bytes(b) => {
                if b.len() > u32::MAX as usize {
                    return Err(Error::FailedToWriteInputToProverEnv(
                        "the value is too long for the codec's length framing".to_owned(),
                    ));
                }
                crate::env_write_outcome(encode_bytes(b))
            },
            InputValue::Words(w) => {
                if w.len() > u32::MAX as usize {
                    return Err(Error::FailedToWriteInputToProverEnv(
                        "the value is too long for the codec's length framing".to_owned(),
                    ));
                }
                crate::env_write_outcome(encode_words(w))
            },
        }
    }

    /// A copy of the value with the same content.
    pub fn duplicate(&self) -> (r: InputValue)
        ensures
            r@ == self@,
    {
        match self {
            InputValue::Bytes(b) => {
                let c = b.clone();
                proof {
                    assert(c@ =~= b@);
                }
                InputValue::Bytes(c)
            },
            InputValue::Words(w) => {
                let c = w.clone();
                proof {
                    assert(c@ =~= w@);
                }
                InputValue::Words(c)
            },
        }
    }
}

/// The little-endian bytes of one word.
pub open spec fn word_le_bytes(w: u32) -> Seq<u8> {
    seq![
        (w & 0xff) as u8,
        ((w >> 8) & 0xff) as u8,
        ((w >> 16) & 0xff) as u8,
        ((w >> 24) & 0xff) as u8,
    ]
}

/// The little-endian bytes of a word sequence, in order.
pub open spec fn bytes_of_words(words: Seq<u32>) -> Seq<u8>
    decreases words.len(),
{
    if words.len() == 0 {
        Seq::empty()
    } else {
        word_le_bytes(words[0]) + bytes_of_words(words.drop_first())
    }
}

proof fn lemma_bytes_of_words_push(words: Seq<u32>, w: u32)
    ensures
        bytes_of_words(words.push(w)) == bytes_of_words(words) + word_le_bytes(w),
    decreases words.len(),
{
    if words.len() == 0 {
        assert(words.push(w)[0] == w);
        assert(words.push(w).drop_first() =~= Seq::<u32>::empty());
        assert(bytes_of_words(words.push(w)) == word_le_bytes(w) + bytes_of_words(
            Seq::<u32>::empty(),
        ));
        assert(bytes_of_words(words.push(w)) =~= bytes_of_words(words) + word_le_bytes(w));
    } else {
        assert(words.push(w)[0] == words[0]);
        assert(words.push(w).drop_first() =~= words.drop_first().push(w));
        lemma_bytes_of_words_push(words.drop_first(), w);
        assert(bytes_of_words(words.push(w)) == word_le_bytes(words[0]) + (bytes_of_words(
            words.drop_first(),
        ) + word_le_bytes(w)));
        assert(word_le_bytes(words[0]) + (bytes_of_words(words.drop_first()) + word_le_bytes(w))
            =~= (word_le_bytes(words[0]) + bytes_of_words(words.drop_first())) + word_le_bytes(w));
        assert(bytes_of_words(words.push(w)) =~= bytes_of_words(words) + word_le_bytes(w));
    }
}

/// Flattens words into their little-endian bytes, as the input channel
/// carries them.
pub fn words_to_bytes(words: &Vec<u32>) -> (r: Vec<u8>)
    ensures
        r@ == bytes_of_words(words@),
{
    let mut out: Vec<u8> = Vec::new();
    let mut i: usize = 0;
    while i < words.len()
        invariant
            i <= words.len(),
            out@ == bytes_of_words(words@.take(i as int)),
        decreases words.len() - i,
    {
        let w = words[i];
        out.push((w & 0xff) as u8);
        out.push(((w >> 8) & 0xff) as u8);
        out.push(((w >> 16) & 0xff) as u8);
        out.push(((w >> 24) & 0xff) as u8);
        proof {
            assert(words@.take(i + 1 as int) =~= words@.take(i as int).push(words@[i as int]));
            lemma_bytes_of_words_push(words@.take(i as int), words@[i as int]);
            assert(out@ =~= bytes_of_words(words@.take(i as int)) + word_le_bytes(
                words@[i as int],
            ));
        }
        i = i + 1;
    }
    proof {
        assert(words@.take(words@.len() as int) =~= words@);
    }
    out
}

} // verus!
