//! Cutting a long answer into messages that Telegram takes.

use crate::text::texts;
use vstd::prelude::*;
use vstd::string::*;
use vstd::utf8::encode_utf8;

verus! {

/// The most bytes one message may have.
pub const MESSAGE_LIMIT: usize = 4096;

/// The number of bytes of `s` in UTF-8, as `usize` holds it.
pub open spec fn byte_len(s: Seq<char>) -> usize {
    encode_utf8(s).len() as usize
}

/// Whether `chunk`, with the two line breaks before it, no longer fits into
/// the message `current`.
pub open spec fn overflows(current: Seq<char>, chunk: Seq<char>) -> bool {
    byte_len(current) + byte_len(chunk) + 2 > MESSAGE_LIMIT
}

/// The messages for `chunks`, where `current` is the message being filled
/// and `sent` are those that are full.
///
/// A chunk that fits is added to the message after two line breaks. One that
/// does not fit closes the message and begins the next one. What is left at
/// the end is the last message, unless it is empty.
pub open spec fn pack(chunks: Seq<Seq<char>>, current: Seq<char>, sent: Seq<Seq<char>>) -> Seq<
    Seq<char>,
>
    decreases chunks.len(),
{
    if chunks.len() == 0 {
        if current.len() == 0 {
            sent
        } else {
            sent.push(current)
        }
    } else if overflows(current, chunks[0]) {
        pack(chunks.drop_first(), chunks[0], sent.push(current))
    } else {
        pack(chunks.drop_first(), current + "\n\n"@ + chunks[0], sent)
    }
}

/// The messages for an answer that was cut into `chunks`.
pub open spec fn paginate_spec(chunks: Seq<Seq<char>>) -> Seq<Seq<char>> {
    pack(chunks, Seq::empty(), Seq::empty())
}

/// The chunks of `text` between each two blank lines. This is what std's
/// `str::split` gives for the separator of two line breaks.
pub uninterp spec fn blocks_of(text: Seq<char>) -> Seq<Seq<char>>;

/// std's `str::split`, with two line breaks as the separator, and each
/// piece copied into a `String`. The pieces are named `blocks_of` the text;
/// nothing more is claimed of them.
#[verifier::external_body]
fn split_blocks(text: &str) -> (blocks: Vec<String>)
    ensures
        texts(blocks@) == blocks_of(text@),
{
    text.split("\n\n").map(|block| block.to_owned()).collect()
}

/// Whether a chunk of `chunk` bytes, with the two line breaks before it, no
/// longer fits into a message of `current` bytes. Nothing is added that may
/// not fit into a `usize`.
fn too_long(current: usize, chunk: usize) -> (yes: bool)
    ensures
        yes == (current + chunk + 2 > MESSAGE_LIMIT),
{
    current > MESSAGE_LIMIT || chunk > MESSAGE_LIMIT || current + chunk + 2 > MESSAGE_LIMIT
}

/// Packs `chunks` into messages, in their order.
pub fn paginate(chunks: &Vec<String>) -> (messages: Vec<String>)
    ensures
        texts(messages@) == paginate_spec(texts(chunks@)),
{
    let mut messages: Vec<String> = Vec::new();
    let mut message = String::new();
    let mut i: usize = 0;
    proof {
        assert(texts(chunks@).subrange(0, chunks@.len() as int) =~= texts(chunks@));
        assert(texts(messages@) =~= Seq::<Seq<char>>::empty());
    }
    while i < chunks.len()
        invariant
            i <= chunks.len(),
            pack(
                texts(chunks@).subrange(i as int, chunks@.len() as int),
                message@,
                texts(messages@),
            ) == paginate_spec(texts(chunks@)),
        decreases chunks.len() - i,
    {
        let ghost rest = texts(chunks@).subrange(i as int, chunks@.len() as int);
        let ghost sent = texts(messages@);
        proof {
            assert(rest[0] == chunks@[i as int]@);
            assert(rest.drop_first() =~= texts(chunks@).subrange(i + 1, chunks@.len() as int));
        }
        let chunk = &chunks[i];
        if too_long(message.as_str().len(), chunk.as_str().len()) {
            let mut full = chunk.clone();
            std::mem::swap(&mut message, &mut full);
            messages.push(full);
            proof {
                assert(texts(messages@) =~= sent.push(full@));
            }
        } else {
            message.append("\n\n");
            message.append(chunk.as_str());
        }
        i = i + 1;
    }
    proof {
        assert(texts(chunks@).subrange(i as int, chunks@.len() as int) =~= Seq::<
            Seq<char>,
        >::empty());
    }
    if !message.as_str().is_empty() {
        let ghost sent = texts(messages@);
        messages.push(message);
        proof {
            assert(texts(messages@) =~= sent.push(message@));
        }
    }
    messages
}

/// The messages in which the answer `response` is sent: its chunks between
/// blank lines, packed in their order.
pub fn paginate_response(response: &str) -> (messages: Vec<String>)
    ensures
        texts(messages@) == paginate_spec(blocks_of(response@)),
{
    let blocks = split_blocks(response);
    paginate(&blocks)
}

} // verus!
