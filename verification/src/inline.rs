use vstd::prelude::*;

use crate::meta::{meta_byte, meta_last, meta_len, meta_of_last, meta_of_len};
use crate::meta::{spec_meta_byte, spec_meta_last, spec_meta_len};
use crate::meta::Meta;
use crate::MAX_SIZE;
use vstd::utf8::{decode_utf8, decode_utf8_encode_utf8, encode_utf8, encode_utf8_valid_utf8};
use vstd::utf8::{is_continuation_byte, is_leading_byte_width_1, valid_utf8, valid_utf8_last};

verus! {

broadcast use vstd::array::group_array_axioms;

/// A buffer stored on the stack whose size equals the stack size of `String`:
/// 23 raw content bytes followed by the packed final byte. A buffer of full
/// capacity keeps its final content byte inside [`Meta`]; a shorter one keeps
/// its length there.
#[derive(Clone, Copy, Debug, PartialEq, Eq, PartialOrd, Ord, Hash)]
pub struct InlineBuffer {
    pub data: [u8; 23],
    pub meta: Meta,
}

/// Relies on `String::from_utf8`: it succeeds exactly on input that is valid
/// UTF-8, and the returned text is the decoding of the input bytes.
#[verifier::external_body]
fn string_from_bytes(bytes: Vec<u8>) -> (text: Option<String>)
    ensures
        text is Some <==> valid_utf8(bytes@),
        text matches Some(t) ==> t@ == decode_utf8(bytes@),
{
    String::from_utf8(bytes).ok()
}

/// A buffer never claims more content than its capacity, and its stored bytes
/// are exactly as many as its packed length says.
pub proof fn lemma_buffer_len(buffer: InlineBuffer)
    ensures
        buffer.spec_len() <= MAX_SIZE,
        buffer.spec_bytes().len() == buffer.spec_len(),
{
    assert(spec_meta_len(buffer.meta) <= 24);
}

impl InlineBuffer {
    /// Number of content bytes the buffer holds.
    pub open spec fn spec_len(self) -> nat {
        spec_meta_len(self.meta)
    }

    /// The content bytes themselves, final byte included when the buffer is
    /// full.
    pub open spec fn spec_bytes(self) -> Seq<u8> {
        if self.spec_len() < MAX_SIZE {
            self.data@.take(self.spec_len() as int)
        } else {
            self.data@ + seq![spec_meta_last(self.meta)]
        }
    }

    /// A well-formed buffer holds the UTF-8 encoding of some text; the
    /// encoder is the sole writer and establishes this.
    pub open spec fn wf(self) -> bool {
        valid_utf8(self.spec_bytes())
    }

    /// Packs `text` into a fresh buffer. Text longer than the capacity is a
    /// precondition violation, never a truncation; the full-capacity boundary
    /// stores the final content byte in place of the length.
    pub fn new_const(text: &str) -> (buffer: InlineBuffer)
        requires
            encode_utf8(text@).len() <= MAX_SIZE,
        ensures
            buffer.wf(),
            buffer.spec_bytes() == encode_utf8(text@),
            buffer.spec_len() == encode_utf8(text@).len(),
    {
        let bytes: &[u8] = text.as_bytes();
        let n: usize = bytes.len();
        let mut data: [u8; 23] = [0u8; 23];
        let mut i: usize = 0;
        while i < n && i < 23
            invariant
                i <= 23,
                i <= n,
                n == bytes@.len(),
                n <= MAX_SIZE,
                data@.len() == 23,
                forall|j: int| 0 <= j < i ==> data@[j] == bytes@[j],
            decreases n - i,
        {
            data[i] = bytes[i];
            i += 1;
        }
        proof {
            encode_utf8_valid_utf8(text@);
        }
        let meta: Meta = if n < MAX_SIZE {
            meta_of_len(n as u8)
        } else {
            proof {
                valid_utf8_last(bytes@);
                assert(is_continuation_byte(bytes@.last()) || is_leading_byte_width_1(
                    bytes@.last(),
                ));
            }
            meta_of_last(bytes[23])
        };
        let buffer = InlineBuffer { data, meta };
        proof {
            assert(buffer.spec_bytes() =~= bytes@);
        }
        buffer
    }

    /// Returns an empty buffer.
    pub fn empty() -> (buffer: InlineBuffer)
        ensures
            buffer.wf(),
            buffer.spec_len() == 0,
            buffer.spec_bytes() == Seq::<u8>::empty(),
    {
        proof {
            reveal_strlit("");
            assert(encode_utf8(""@) =~= Seq::<u8>::empty());
        }
        Self::new_const("")
    }

    /// Reads the content length out of the packed final byte, which handles
    /// the full-capacity boundary.
    pub fn get_len(&self) -> (len: usize)
        ensures
            len == self.spec_len(),
    {
        meta_len(self.meta)
    }

    /// The packed final byte, as the flat layout stores it at the buffer's
    /// last position: the content length with the two mask bits set, or — at
    /// full capacity — the final content byte, which ends a UTF-8 encoded
    /// text and so never has both mask bits set.
    pub fn last_byte(&self) -> (b: u8)
        ensures
            b == spec_meta_byte(self.meta),
    {
        meta_byte(self.meta)
    }

    /// Shrinks the content length to `len` by restamping the packed final
    /// byte; the caller must guarantee that the kept prefix is itself valid
    /// UTF-8, and full capacity is left as it stands.
    pub fn set_len(&mut self, len: usize)
        requires
            len <= old(self).spec_len(),
            valid_utf8(old(self).spec_bytes().take(len as int)),
        ensures
            final(self).spec_len() == len,
            final(self).spec_bytes() == old(self).spec_bytes().take(len as int),
            final(self).wf(),
            final(self).data == old(self).data,
    {
        proof {
            lemma_buffer_len(*old(self));
        }
        if len < MAX_SIZE {
            self.meta = meta_of_len(len as u8);
            proof {
                assert(self.spec_bytes() =~= old(self).spec_bytes().take(len as int));
            }
        } else {
            proof {
                assert(self.spec_bytes() =~= old(self).spec_bytes().take(len as int));
            }
        }
    }

    /// An explicit copy of the buffer.
    pub fn copy(&self) -> (buffer: InlineBuffer)
        ensures
            buffer == *self,
    {
        *self
    }

    /// Decodes the stored content back into owned text; only the encoder
    /// writes buffers, so the content is always valid UTF-8.
    pub fn as_str(&self) -> (text: String)
        requires
            self.wf(),
        ensures
            text@ == decode_utf8(self.spec_bytes()),
            encode_utf8(text@) == self.spec_bytes(),
    {
        let len: usize = meta_len(self.meta);
        let stop: usize = if len < MAX_SIZE {
            len
        } else {
            23
        };
        let mut bytes: Vec<u8> = Vec::new();
        let mut i: usize = 0;
        while i < stop
            invariant
                i <= stop,
                stop <= 23,
                bytes@ == self.data@.take(i as int),
            decreases stop - i,
        {
            bytes.push(self.data[i]);
            i += 1;
        }
        if len == MAX_SIZE {
            bytes.push(meta_last(self.meta));
        }
        proof {
            assert(bytes@ =~= self.spec_bytes());
            decode_utf8_encode_utf8(self.spec_bytes());
        }
        match string_from_bytes(bytes) {
            Some(text) => text,
            None => {
                proof {
                    assert(false);
                }
                String::new()
            },
        }
    }
}

} // verus!
