//! Length framing of the byte streams that the parent and child processes
//! exchange: each message goes out as its length (a big-endian `u32`)
//! followed by its bytes. Empty messages are never sent, and the sender ends
//! its stream with a zero length.
use vstd::prelude::*;

verus! {

/// The big-endian bytes of `n`.
pub open spec fn be_bytes(n: u32) -> Seq<u8> {
    seq![
        (n / 0x1000000) as u8,
        ((n / 0x10000) % 0x100) as u8,
        ((n / 0x100) % 0x100) as u8,
        (n % 0x100) as u8,
    ]
}

/// The number whose big-endian bytes are `b[0..4]`.
pub open spec fn be_value(b: Seq<u8>) -> int {
    b[0] * 0x1000000 + b[1] * 0x10000 + b[2] * 0x100 + b[3]
}

/// One frame: the length of `msg`, then `msg`.
pub open spec fn frame(msg: Seq<u8>) -> Seq<u8> {
    be_bytes(msg.len() as u32) + msg
}

/// The frames of the non-empty messages of `msgs`, in order.
pub open spec fn frames(msgs: Seq<Seq<u8>>) -> Seq<u8>
    decreases msgs.len(),
{
    if msgs.len() == 0 {
        Seq::empty()
    } else if msgs[0].len() == 0 {
        frames(msgs.drop_first())
    } else {
        frame(msgs[0]) + frames(msgs.drop_first())
    }
}

/// The non-empty messages of `msgs`, in order.
pub open spec fn non_empty(msgs: Seq<Seq<u8>>) -> Seq<Seq<u8>>
    decreases msgs.len(),
{
    if msgs.len() == 0 {
        Seq::empty()
    } else if msgs[0].len() == 0 {
        non_empty(msgs.drop_first())
    } else {
        seq![msgs[0]] + non_empty(msgs.drop_first())
    }
}

/// Everything a sender writes for `msgs`: their frames, then the zero
/// length that ends the stream.
pub open spec fn stream_bytes(msgs: Seq<Seq<u8>>) -> Seq<u8> {
    frames(msgs) + be_bytes(0)
}

/// Every message fits a `u32` length.
pub open spec fn all_fit(msgs: Seq<Seq<u8>>) -> bool {
    forall|i: int| 0 <= i < msgs.len() ==> #[trigger] msgs[i].len() <= u32::MAX
}

/// The messages a receiver reads from `buf`: frame after frame, from the
/// front, until fewer bytes remain than a length or its message needs.
/// A zero length yields an empty message.
pub open spec fn received(buf: Seq<u8>) -> Seq<Seq<u8>>
    decreases buf.len(),
{
    if buf.len() < 4 {
        Seq::empty()
    } else {
        let n = be_value(buf);
        if buf.len() - 4 < n {
            Seq::empty()
        } else {
            seq![buf.subrange(4, 4 + n)] + received(buf.subrange(4 + n, buf.len() as int))
        }
    }
}

proof fn lemma_be_roundtrip(n: u32)
    ensures
        be_value(be_bytes(n)) == n,
        be_bytes(n).len() == 4,
{
    let b = be_bytes(n);
    assert(b[0] == n / 0x1000000);
    assert(b[1] == (n / 0x10000) % 0x100);
    assert(b[2] == (n / 0x100) % 0x100);
    assert(b[3] == n % 0x100);
    assert(n as int == (n / 0x1000000) * 0x1000000 + ((n / 0x10000) % 0x100) * 0x10000 + ((n
        / 0x100) % 0x100) * 0x100 + n % 0x100) by (nonlinear_arith);
}

proof fn lemma_received_frame(m: Seq<u8>, rest: Seq<u8>)
    requires
        m.len() <= u32::MAX,
    ensures
        received(frame(m) + rest) == seq![m] + received(rest),
{
    lemma_be_roundtrip(m.len() as u32);
    let buf = frame(m) + rest;
    assert(be_value(buf) == be_value(be_bytes(m.len() as u32)));
    assert(buf.subrange(4, 4 + m.len() as int) == m);
    assert(buf.subrange(4 + m.len() as int, buf.len() as int) == rest);
}

/// What a receiver reads from everything a sender writes: the non-empty
/// messages, in order, and then the empty message of the end marker.
pub proof fn lemma_stream_roundtrip(msgs: Seq<Seq<u8>>)
    requires
        all_fit(msgs),
    ensures
        received(stream_bytes(msgs)) == non_empty(msgs) + seq![Seq::<u8>::empty()],
    decreases msgs.len(),
{
    if msgs.len() == 0 {
        lemma_be_roundtrip(0);
        let b = be_bytes(0);
        assert(frames(msgs) + b == b);
        assert(b.subrange(4, 4) == Seq::<u8>::empty());
        assert(b.subrange(4, 4 + 0int) == Seq::<u8>::empty());
        assert(received(b.subrange(4, b.len() as int)) == Seq::<Seq<u8>>::empty());
        assert(received(b) == seq![Seq::<u8>::empty()]);
    } else {
        let tail = msgs.drop_first();
        assert(all_fit(tail)) by {
            assert forall|i: int| 0 <= i < tail.len() implies #[trigger] tail[i].len()
                <= u32::MAX by {
                assert(tail[i] == msgs[i + 1]);
            }
        }
        lemma_stream_roundtrip(tail);
        if msgs[0].len() == 0 {
            assert(stream_bytes(msgs) == stream_bytes(tail));
        } else {
            assert(msgs[0].len() <= u32::MAX);
            assert(stream_bytes(msgs) == frame(msgs[0]) + stream_bytes(tail));
            lemma_received_frame(msgs[0], stream_bytes(tail));
        }
    }
}

/// The length header of `n` is `n` written in base 256, most significant
/// digit first: its four bytes, weighted 2^24, 2^16, 2^8 and 1, add up to
/// `n`. (Digits below 256 make this writing unique.)
pub proof fn lemma_length_header_is_base_256(n: u32)
    ensures
        be_bytes(n).len() == 4,
        be_bytes(n)[0] * 0x1000000 + be_bytes(n)[1] * 0x10000 + be_bytes(n)[2] * 0x100 + be_bytes(
            n,
        )[3] == n,
{
    assert(n as int == (n / 0x1000000) * 0x1000000 + ((n / 0x10000) % 0x100) * 0x10000 + ((n
        / 0x100) % 0x100) * 0x100 + n % 0x100) by (nonlinear_arith);
}

/// Any four bytes are the header of exactly one length: reading them and
/// writing that length back gives the same four bytes.
pub proof fn lemma_length_header_decodes(b: Seq<u8>)
    requires
        b.len() == 4,
    ensures
        0 <= be_value(b) <= u32::MAX,
        be_bytes(be_value(b) as u32) == b,
{
    let b0 = b[0] as int;
    let b1 = b[1] as int;
    let b2 = b[2] as int;
    let b3 = b[3] as int;
    let v = b0 * 0x1000000 + b1 * 0x10000 + b2 * 0x100 + b3;
    assert(v == be_value(b));
    assert(0 <= v <= u32::MAX);
    assert(v / 0x1000000 == b0 && (v / 0x10000) % 0x100 == b1 && (v / 0x100) % 0x100 == b2 && v
        % 0x100 == b3) by (nonlinear_arith)
        requires
            0 <= b0 < 0x100,
            0 <= b1 < 0x100,
            0 <= b2 < 0x100,
            0 <= b3 < 0x100,
            v == b0 * 0x1000000 + b1 * 0x10000 + b2 * 0x100 + b3,
    ;
    let n = v as u32;
    assert(be_bytes(n) =~= b);
}

/// The big-endian bytes of `n`.
pub fn encode_len(n: u32) -> (b: [u8; 4])
    ensures
        b@ == be_bytes(n),
        b[0] * 0x1000000 + b[1] * 0x10000 + b[2] * 0x100 + b[3] == n,
        b[0] == n / 0x1000000,
        b[1] == (n / 0x10000) % 0x100,
        b[2] == (n / 0x100) % 0x100,
        b[3] == n % 0x100,
{
    proof {
        lemma_length_header_is_base_256(n);
    }
    let b = [
        (n / 0x1000000) as u8,
        ((n / 0x10000) % 0x100) as u8,
        ((n / 0x100) % 0x100) as u8,
        (n % 0x100) as u8,
    ];
    assert(b@ =~= be_bytes(n));
    b
}

/// The length that the big-endian bytes `b` hold.
pub fn decode_len(b: [u8; 4]) -> (n: u32)
    ensures
        n == be_value(b@),
        n == b[0] * 0x1000000 + b[1] * 0x10000 + b[2] * 0x100 + b[3],
        be_bytes(n) == b@,
{
    proof {
        lemma_length_header_decodes(b@);
    }
    (b[0] as u32) * 0x1000000 + (b[1] as u32) * 0x10000 + (b[2] as u32) * 0x100 + (b[3] as u32)
}

/// Appends the frame of `msg` to `out`.
pub fn push_frame(out: &mut Vec<u8>, msg: &[u8])
    requires
        msg@.len() <= u32::MAX,
    ensures
        final(out)@ == old(out)@ + frame(msg@),
{
    let len = encode_len(msg.len() as u32);
    out.push(len[0]);
    out.push(len[1]);
    out.push(len[2]);
    out.push(len[3]);
    let mut i: usize = 0;
    while i < msg.len()
        invariant
            0 <= i <= msg@.len(),
            out@ == old(out)@ + be_bytes(msg@.len() as u32) + msg@.subrange(0, i as int),
        decreases msg@.len() - i,
    {
        out.push(msg[i]);
        assert(msg@.subrange(0, i + 1) == msg@.subrange(0, i as int).push(msg@[i as int]));
        i = i + 1;
    }
    assert(msg@.subrange(0, msg@.len() as int) == msg@);
}

/// The frame of one message.
pub fn encode_frame(msg: &[u8]) -> (out: Vec<u8>)
    requires
        msg@.len() <= u32::MAX,
    ensures
        out@ == frame(msg@),
{
    let mut out = Vec::new();
    push_frame(&mut out, msg);
    assert(out@ =~= frame(msg@));
    out
}

/// The end-of-stream marker: a zero length.
pub fn encode_end() -> (out: Vec<u8>)
    ensures
        out@ == be_bytes(0),
{
    let b = encode_len(0);
    let mut out = Vec::new();
    out.push(b[0]);
    out.push(b[1]);
    out.push(b[2]);
    out.push(b[3]);
    assert(out@ =~= be_bytes(0));
    out
}

proof fn lemma_frames_push(msgs: Seq<Seq<u8>>, m: Seq<u8>)
    ensures
        frames(msgs.push(m)) == frames(msgs) + (if m.len() == 0 {
            Seq::empty()
        } else {
            frame(m)
        }),
    decreases msgs.len(),
{
    let x: Seq<u8> = if m.len() == 0 {
        Seq::empty()
    } else {
        frame(m)
    };
    if msgs.len() == 0 {
        assert(msgs.push(m).drop_first() == Seq::<Seq<u8>>::empty());
        assert(msgs.push(m)[0] == m);
        assert(frames(msgs.push(m).drop_first()) == Seq::<u8>::empty());
        assert(frames(msgs.push(m)) =~= x);
        assert(frames(msgs) + x =~= x);
    } else {
        assert(msgs.push(m).drop_first() == msgs.drop_first().push(m));
        assert(msgs.push(m)[0] == msgs[0]);
        lemma_frames_push(msgs.drop_first(), m);
        if msgs[0].len() == 0 {
        } else {
            assert(frame(msgs[0]) + (frames(msgs.drop_first()) + x) =~= (frame(msgs[0]) + frames(
                msgs.drop_first(),
            )) + x);
        }
    }
}

/// Everything a sender writes for `msgs`: the frame of each non-empty
/// message, then the end marker.
pub fn encode_messages(msgs: &Vec<Vec<u8>>) -> (out: Vec<u8>)
    requires
        all_fit(msgs.deep_view()),
    ensures
        out@ == stream_bytes(msgs.deep_view()),
{
    let ghost ms = msgs.deep_view();
    let mut out: Vec<u8> = Vec::new();
    let mut i: usize = 0;
    while i < msgs.len()
        invariant
            ms == msgs.deep_view(),
            all_fit(ms),
            0 <= i <= msgs.len(),
            out@ == frames(ms.take(i as int)),
        decreases msgs.len() - i,
    {
        proof {
            assert(ms.take(i + 1) == ms.take(i as int).push(ms[i as int]));
            lemma_frames_push(ms.take(i as int), ms[i as int]);
            assert(ms[i as int] == msgs[i as int]@);
        }
        if msgs[i].len() != 0 {
            assert(msgs[i as int]@.len() <= u32::MAX);
            push_frame(&mut out, msgs[i].as_slice());
        }
        i = i + 1;
    }
    assert(ms.take(msgs.len() as int) == ms);
    let end = encode_len(0);
    out.push(end[0]);
    out.push(end[1]);
    out.push(end[2]);
    out.push(end[3]);
    assert(out@ =~= stream_bytes(ms));
    out
}

/// The messages a receiver reads from `buf`, in order. Reading stops where
/// fewer bytes remain than a length or its message needs; the receiver
/// reports an error there.
pub fn decode_messages(buf: &[u8]) -> (msgs: Vec<Vec<u8>>)
    ensures
        msgs.deep_view() == received(buf@),
{
    let mut msgs: Vec<Vec<u8>> = Vec::new();
    let mut pos: usize = 0;
    assert(buf@.subrange(0, buf@.len() as int) == buf@);
    assert(msgs.deep_view() + received(buf@) =~= received(buf@));
    loop
        invariant
            0 <= pos <= buf@.len(),
            msgs.deep_view() + received(buf@.subrange(pos as int, buf@.len() as int)) == received(
                buf@,
            ),
        decreases buf@.len() - pos,
    {
        let ghost rest = buf@.subrange(pos as int, buf@.len() as int);
        if buf.len() - pos < 4 {
            assert(received(rest) == Seq::<Seq<u8>>::empty());
            assert(msgs.deep_view() + received(rest) == msgs.deep_view());
            return msgs;
        }
        let n = decode_len([buf[pos], buf[pos + 1], buf[pos + 2], buf[pos + 3]]);
        assert(be_value(rest) == n);
        if buf.len() - pos - 4 < n as usize {
            assert(received(rest) == Seq::<Seq<u8>>::empty());
            assert(msgs.deep_view() + received(rest) == msgs.deep_view());
            return msgs;
        }
        let start = pos + 4;
        let end = start + n as usize;
        let mut m: Vec<u8> = Vec::new();
        let mut j = start;
        while j < end
            invariant
                start <= j <= end <= buf@.len(),
                m@ == buf@.subrange(start as int, j as int),
            decreases end - j,
        {
            m.push(buf[j]);
            assert(buf@.subrange(start as int, j + 1) == buf@.subrange(start as int, j as int).push(
                buf@[j as int],
            ));
            j = j + 1;
        }
        proof {
            assert(rest.subrange(4, 4 + n) == m@);
            assert(rest.subrange(4 + n, rest.len() as int) == buf@.subrange(
                end as int,
                buf@.len() as int,
            ));
            assert(received(rest) == seq![m@] + received(
                buf@.subrange(end as int, buf@.len() as int),
            ));
        }
        let ghost before = msgs.deep_view();
        msgs.push(m);
        assert(msgs.deep_view() =~~= before.push(m@));
        assert(msgs.deep_view() + received(buf@.subrange(end as int, buf@.len() as int)) =~= before
            + received(rest));
        pos = end;
    }
}

} // verus!
