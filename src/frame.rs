//! Framing on the control channel: each message's encoding followed by a
//! single zero byte.
use vstd::prelude::*;

verus! {

/// The byte that ends each frame.
pub const TERMINATOR: u8 = 0;

/// Why a payload cannot be framed.
#[derive(Debug, PartialEq, Eq, Structural)]
pub enum FrameError {
    /// The payload holds the terminator byte, which would cut the frame short.
    ContainsTerminator,
}

/// Whether `p` holds the terminator byte.
pub open spec fn has_terminator(p: Seq<u8>) -> bool {
    exists|i: int| 0 <= i < p.len() && p[i] == TERMINATOR
}

/// The frame for payload `p`.
pub open spec fn framed(p: Seq<u8>) -> Seq<u8> {
    p.push(TERMINATOR)
}

/// What a read up to and including the next terminator yields: nothing at
/// end of stream (no byte read), else the bytes with one trailing
/// terminator removed.
pub open spec fn unframed(b: Seq<u8>) -> Option<Seq<u8>> {
    if b.len() == 0 {
        None
    } else if b.last() == TERMINATOR {
        Some(b.drop_last())
    } else {
        Some(b)
    }
}

/// Builds the frame for `payload`: the payload, then the terminator.
pub fn encode_frame(payload: &Vec<u8>) -> (r: Result<Vec<u8>, FrameError>)
    requires
        payload@.len() < usize::MAX,
    ensures
        r is Err <==> has_terminator(payload@),
        r is Ok ==> r.unwrap()@ == framed(payload@),
{
    let mut out: Vec<u8> = Vec::new();
    let mut i: usize = 0;
    while i < payload.len()
        invariant
            i <= payload@.len(),
            out@ == payload@.subrange(0, i as int),
            forall|j: int| 0 <= j < i ==> payload@[j] != TERMINATOR,
        decreases payload@.len() - i,
    {
        let b = payload[i];
        if b == TERMINATOR {
            return Err(FrameError::ContainsTerminator);
        }
        out.push(b);
        i = i + 1;
    }
    assert(out@ == payload@);
    out.push(TERMINATOR);
    Ok(out)
}

/// Recovers the payload from the bytes that one read up to the next
/// terminator produced. Returns `None` at end of stream.
pub fn decode_frame(buf: &Vec<u8>) -> (r: Option<Vec<u8>>)
    ensures
        r is None <==> unframed(buf@) is None,
        r is Some ==> unframed(buf@) == Some(r.unwrap()@),
{
    let n = buf.len();
    if n == 0 {
        return None;
    }
    let end: usize = if buf[n - 1] == TERMINATOR { n - 1 } else { n };
    let mut out: Vec<u8> = Vec::new();
    let mut i: usize = 0;
    while i < end
        invariant
            end <= buf@.len(),
            i <= end,
            out@ == buf@.subrange(0, i as int),
        decreases end - i,
    {
        out.push(buf[i]);
        i = i + 1;
    }
    assert(out@ == buf@.subrange(0, end as int));
    assert(buf@.drop_last() == buf@.subrange(0, buf@.len() - 1));
    assert(buf@ == buf@.subrange(0, buf@.len() as int));
    Some(out)
}

/// Decoding a frame gives back the payload it was built from, and the frame
/// holds no terminator but its last byte, so a reader stops exactly there.
pub proof fn lemma_frame_round_trip(p: Seq<u8>)
    requires
        !has_terminator(p),
    ensures
        unframed(framed(p)) == Some(p),
        forall|i: int| 0 <= i < framed(p).len() - 1 ==> framed(p)[i] != TERMINATOR,
        framed(p).last() == TERMINATOR,
{
    assert(framed(p).drop_last() =~= p);
}

} // verus!
