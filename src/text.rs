//! Decoding of chunks read from a file, and the text that a sequence of
//! chunks yields when each one is decoded on its own.
use vstd::prelude::*;
use vstd::utf8::*;
use crate::policy::CHUNK_SIZE;

verus! {

broadcast use {vstd::utf8::encode_utf8_decode_utf8, vstd::utf8::decode_utf8_encode_utf8};

/// The bytes that survive decoding: each chunk that is valid UTF-8 on its
/// own, in order; a chunk that is not is dropped whole.
pub open spec fn kept_bytes(chunks: Seq<Seq<u8>>) -> Seq<u8>
    decreases chunks.len(),
{
    if chunks.len() == 0 {
        Seq::empty()
    } else {
        let last = chunks.last();
        kept_bytes(chunks.drop_last()) + if valid_utf8(last) {
            last
        } else {
            Seq::empty()
        }
    }
}

/// The text that the chunks yield: each valid chunk decoded and appended.
pub open spec fn kept_text(chunks: Seq<Seq<u8>>) -> Seq<char>
    decreases chunks.len(),
{
    if chunks.len() == 0 {
        Seq::empty()
    } else {
        let last = chunks.last();
        kept_text(chunks.drop_last()) + if valid_utf8(last) {
            decode_utf8(last)
        } else {
            Seq::empty()
        }
    }
}

/// All the bytes of the chunks, in order.
pub open spec fn all_bytes(chunks: Seq<Seq<u8>>) -> Seq<u8>
    decreases chunks.len(),
{
    if chunks.len() == 0 {
        Seq::empty()
    } else {
        all_bytes(chunks.drop_last()) + chunks.last()
    }
}

/// Length in bytes of the UTF-8 encoding of a text.
pub open spec fn utf8_len(text: Seq<char>) -> nat {
    encode_utf8(text).len()
}

/// Encoding distributes over concatenation.
pub proof fn lemma_encode_concat(a: Seq<char>, b: Seq<char>)
    ensures
        encode_utf8(a + b) == encode_utf8(a) + encode_utf8(b),
    decreases a.len(),
{
    if a.len() == 0 {
        assert(a + b =~= b);
        assert(encode_utf8(a) =~= Seq::<u8>::empty());
        assert(Seq::<u8>::empty() + encode_utf8(b) =~= encode_utf8(b));
    } else {
        assert((a + b).drop_first() =~= a.drop_first() + b);
        assert((a + b)[0] == a[0]);
        lemma_encode_concat(a.drop_first(), b);
        assert(encode_utf8(a + b) =~= encode_utf8(a) + encode_utf8(b));
    }
}

/// The kept text encodes to exactly the kept bytes; when every chunk is
/// valid, nothing is dropped.
pub proof fn lemma_kept_text_encodes(chunks: Seq<Seq<u8>>)
    ensures
        encode_utf8(kept_text(chunks)) == kept_bytes(chunks),
        (forall|i: int| 0 <= i < chunks.len() ==> valid_utf8(#[trigger] chunks[i]))
            ==> kept_bytes(chunks) == all_bytes(chunks),
    decreases chunks.len(),
{
    if chunks.len() == 0 {
        assert(encode_utf8(Seq::<char>::empty()) =~= Seq::<u8>::empty());
    } else {
        let init = chunks.drop_last();
        let last = chunks.last();
        lemma_kept_text_encodes(init);
        let piece = if valid_utf8(last) {
            decode_utf8(last)
        } else {
            Seq::empty()
        };
        lemma_encode_concat(kept_text(init), piece);
        if !valid_utf8(last) {
            assert(encode_utf8(Seq::<char>::empty()) =~= Seq::<u8>::empty());
        }
        if forall|i: int| 0 <= i < chunks.len() ==> valid_utf8(#[trigger] chunks[i]) {
            assert forall|i: int| 0 <= i < init.len() implies valid_utf8(#[trigger] init[i]) by {
                assert(init[i] == chunks[i]);
            }
            assert(valid_utf8(chunks[chunks.len() - 1]));
        }
    }
}

/// Relies on `std::str::from_utf8`: `Ok` exactly when the bytes are valid
/// UTF-8, and then the text they encode.
#[verifier::external_body]
pub(crate) fn decode_chunk(bytes: &[u8]) -> (r: Option<String>)
    ensures
        r.is_some() == valid_utf8(bytes@),
        r.is_some() ==> r->0@ == decode_utf8(bytes@),
{
    match std::str::from_utf8(bytes) {
        Ok(s) => Some(s.to_string()),
        Err(_) => None,
    }
}

/// The consecutive `CHUNK_SIZE`-byte pieces of a file, the last one
/// possibly shorter: the chunks a worker hands in when each read is full.
pub open spec fn chunks_of(file: Seq<u8>) -> Seq<Seq<u8>>
    decreases file.len(),
{
    if file.len() == 0 {
        Seq::empty()
    } else if file.len() <= CHUNK_SIZE {
        seq![file]
    } else {
        seq![file.take(CHUNK_SIZE as int)] + chunks_of(file.skip(CHUNK_SIZE as int))
    }
}

/// Handing in one more chunk adds it to the bytes handed in.
pub proof fn lemma_all_bytes_push(chunks: Seq<Seq<u8>>, chunk: Seq<u8>)
    ensures
        all_bytes(chunks.push(chunk)) == all_bytes(chunks) + chunk,
        kept_bytes(chunks.push(chunk)).len() >= kept_bytes(chunks).len(),
{
    assert(chunks.push(chunk).drop_last() =~= chunks);
}

/// A chunk in front comes first in the bytes.
proof fn lemma_all_bytes_prepend(first: Seq<u8>, rest: Seq<Seq<u8>>)
    ensures
        all_bytes(seq![first] + rest) == first + all_bytes(rest),
    decreases rest.len(),
{
    let whole = seq![first] + rest;
    if rest.len() == 0 {
        assert(whole =~= seq![first]);
        assert(whole.drop_last() =~= Seq::<Seq<u8>>::empty());
        assert(all_bytes(Seq::<Seq<u8>>::empty()) == Seq::<u8>::empty());
        assert(all_bytes(whole) == all_bytes(whole.drop_last()) + whole.last());
        assert(Seq::<u8>::empty() + first =~= first);
        assert(first + Seq::<u8>::empty() =~= first);
    } else {
        assert(whole.drop_last() =~= seq![first] + rest.drop_last());
        assert(whole.last() == rest.last());
        lemma_all_bytes_prepend(first, rest.drop_last());
        assert(all_bytes(whole) == all_bytes(whole.drop_last()) + whole.last());
        assert(all_bytes(rest) == all_bytes(rest.drop_last()) + rest.last());
        assert(first + all_bytes(rest.drop_last()) + rest.last() =~= first + (all_bytes(
            rest.drop_last(),
        ) + rest.last()));
    }
}

/// The pieces of a file put back together are the file.
pub proof fn lemma_chunks_of_rebuild(file: Seq<u8>)
    ensures
        all_bytes(chunks_of(file)) == file,
    decreases file.len(),
{
    if file.len() == 0 {
    } else if file.len() <= CHUNK_SIZE {
        lemma_all_bytes_prepend(file, Seq::empty());
        assert(seq![file] + Seq::<Seq<u8>>::empty() =~= seq![file]);
        assert(file + Seq::<u8>::empty() =~= file);
    } else {
        let head = file.take(CHUNK_SIZE as int);
        let tail = file.skip(CHUNK_SIZE as int);
        lemma_chunks_of_rebuild(tail);
        lemma_all_bytes_prepend(head, chunks_of(tail));
        assert(head + tail =~= file);
    }
}

/// No more bytes are kept than were handed in.
pub proof fn lemma_kept_within_all(chunks: Seq<Seq<u8>>)
    ensures
        kept_bytes(chunks).len() <= all_bytes(chunks).len(),
    decreases chunks.len(),
{
    if chunks.len() > 0 {
        let init = chunks.drop_last();
        let last = chunks.last();
        lemma_kept_within_all(init);
        assert(all_bytes(chunks).len() == all_bytes(init).len() + last.len());
        if valid_utf8(last) {
            assert(kept_bytes(chunks).len() == kept_bytes(init).len() + last.len());
        } else {
            assert(kept_bytes(chunks) =~= kept_bytes(init));
        }
    }
}

} // verus!
