//! Receiving datagrams: the receive buffer, the framing that strips its filler, and which
//! receive errors are not errors.
//!
//! A datagram is read into a buffer prefilled with a filler byte; after the read, every
//! filler byte is taken out of the buffer and what remains is decoded as one event.

use vstd::prelude::*;

verus! {

/// The filler byte of the receive buffer.
pub const BYTE_MAGIC_NUMBER: u8 = 0x2u8;

/// The size of the receive buffer, the longest datagram that is read whole.
pub const RECEIVE_BUFFER_LEN: usize = 128usize;

/// The OS error number (`WSAECONNRESET`) that reports a peer gone away.
pub const CONNECTION_RESET_ERROR: i32 = 10054i32;

/// `s` with every filler byte taken out.
pub open spec fn cleaned(s: Seq<u8>) -> Seq<u8> {
    s.filter(|b: u8| b != BYTE_MAGIC_NUMBER)
}

/// A receive buffer: `RECEIVE_BUFFER_LEN` filler bytes.
pub fn new_receive_buffer() -> (r: Vec<u8>)
    ensures
        r@.len() == RECEIVE_BUFFER_LEN,
        forall|i: int| 0 <= i < r@.len() ==> r@[i] == BYTE_MAGIC_NUMBER,
{
    let mut r: Vec<u8> = Vec::new();
    while r.len() < RECEIVE_BUFFER_LEN
        invariant
            r@.len() <= RECEIVE_BUFFER_LEN,
            forall|i: int| 0 <= i < r@.len() ==> r@[i] == BYTE_MAGIC_NUMBER,
        decreases RECEIVE_BUFFER_LEN - r@.len(),
    {
        r.push(BYTE_MAGIC_NUMBER);
    }
    r
}

/// The bytes of `buf` with every filler byte taken out, in order. (Filler bytes inside the
/// datagram itself are taken out too.)
pub fn clean_datagram(buf: &Vec<u8>) -> (r: Vec<u8>)
    ensures
        r@ == cleaned(buf@),
{
    let mut r: Vec<u8> = Vec::new();
    let mut i: usize = 0;
    while i < buf.len()
        invariant
            0 <= i <= buf@.len(),
            r@ == cleaned(buf@.take(i as int)),
        decreases buf@.len() - i,
    {
        let b = buf[i];
        proof {
            assert(buf@.take(i + 1) == buf@.take(i as int).push(b));
            buf@.take(i as int).lemma_filter_push(b, |b: u8| b != BYTE_MAGIC_NUMBER);
        }
        if b != BYTE_MAGIC_NUMBER {
            r.push(b);
        }
        i = i + 1;
    }
    assert(buf@.take(i as int) == buf@);
    r
}

/// A failed receive that is no failure: there was nothing to read, or the OS reports a
/// peer gone away.
pub fn is_ignorable_receive_error(raw_os_error: Option<i32>, would_block: bool) -> (r: bool)
    ensures
        r == (raw_os_error == Some(CONNECTION_RESET_ERROR) || would_block),
{
    let reset = match raw_os_error {
        Some(err) => err == CONNECTION_RESET_ERROR,
        None => false,
    };
    reset || would_block
}

/// A cleaned datagram holds no filler byte.
pub proof fn lemma_cleaned_has_no_filler(s: Seq<u8>)
    ensures
        forall|i: int| 0 <= i < cleaned(s).len() ==> cleaned(s)[i] != BYTE_MAGIC_NUMBER,
{
    assert forall|i: int| 0 <= i < cleaned(s).len() implies cleaned(s)[i] != BYTE_MAGIC_NUMBER by {
        s.lemma_filter_pred(|b: u8| b != BYTE_MAGIC_NUMBER, i);
    }
}

/// Cleaning twice is cleaning once.
pub proof fn lemma_clean_idempotent(s: Seq<u8>)
    ensures
        cleaned(cleaned(s)) == cleaned(s),
    decreases s.len(),
{
    if s.len() > 0 {
        let t = s.drop_last();
        let e = s.last();
        lemma_clean_idempotent(t);
        assert(s == t.push(e));
        t.lemma_filter_push(e, |b: u8| b != BYTE_MAGIC_NUMBER);
        if e != BYTE_MAGIC_NUMBER {
            cleaned(t).lemma_filter_push(e, |b: u8| b != BYTE_MAGIC_NUMBER);
        }
    } else {
        reveal(Seq::filter);
    }
}

/// A datagram without filler bytes, read into a fresh receive buffer, comes out of cleaning
/// as it went in.
pub proof fn lemma_clean_recovers_datagram(datagram: Seq<u8>, filler: Seq<u8>)
    requires
        forall|i: int| 0 <= i < datagram.len() ==> datagram[i] != BYTE_MAGIC_NUMBER,
        forall|i: int| 0 <= i < filler.len() ==> filler[i] == BYTE_MAGIC_NUMBER,
    ensures
        cleaned(datagram + filler) == datagram,
    decreases filler.len() + datagram.len(),
{
    if filler.len() > 0 {
        let f = filler.drop_last();
        lemma_clean_recovers_datagram(datagram, f);
        assert(datagram + filler == (datagram + f).push(filler.last()));
        (datagram + f).lemma_filter_push(filler.last(), |b: u8| b != BYTE_MAGIC_NUMBER);
    } else if datagram.len() > 0 {
        let d = datagram.drop_last();
        lemma_clean_recovers_datagram(d, filler);
        assert(datagram + filler == datagram);
        assert(d + filler == d);
        assert(datagram =~= d.push(datagram.last())) by {
            assert(d.len() + 1 == datagram.len());
            assert forall|i: int| 0 <= i < datagram.len() implies #[trigger] datagram[i] == d.push(
                datagram.last(),
            )[i] by {
                if i < d.len() {
                    assert(d[i] == datagram[i]);
                }
            }
        }
        d.lemma_filter_push(datagram.last(), |b: u8| b != BYTE_MAGIC_NUMBER);
    } else {
        assert(datagram + filler == datagram);
        reveal(Seq::filter);
    }
}

} // verus!
