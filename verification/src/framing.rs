use vstd::prelude::*;

verus! {

/// The frames of full size that a byte stream gives: the stream cut into
/// pieces of `limit` bytes from its start, without the rest that is shorter.
pub open spec fn full_frames(stream: Seq<u8>, limit: nat) -> Seq<Seq<u8>>
    decreases stream.len(),
{
    if limit == 0 || stream.len() < limit {
        Seq::empty()
    } else {
        seq![stream.take(limit as int)] + full_frames(stream.skip(limit as int), limit)
    }
}

/// The bytes at the end of a stream that do not fill a frame.
pub open spec fn remainder(stream: Seq<u8>, limit: nat) -> Seq<u8>
    decreases stream.len(),
{
    if limit == 0 || stream.len() < limit {
        stream
    } else {
        remainder(stream.skip(limit as int), limit)
    }
}

/// The frames that a burst gives when an idle gap follows it: the frames of
/// full size, then the rest as a last frame where there is one.
pub open spec fn burst_frames(burst: Seq<u8>, limit: nat) -> Seq<Seq<u8>> {
    if remainder(burst, limit).len() > 0 {
        full_frames(burst, limit).push(remainder(burst, limit))
    } else {
        full_frames(burst, limit)
    }
}

/// The number of frames of at most `limit` bytes that `length` bytes need:
/// `length / limit`, rounded up.
pub open spec fn frames_needed(length: nat, limit: nat) -> int {
    (length + limit - 1) / (limit as int)
}

/// Every frame of full size holds `limit` bytes; there are `length / limit`
/// of them, and `length % limit` bytes are left over.
pub proof fn lemma_full_frames_sizes(stream: Seq<u8>, limit: nat)
    requires
        limit > 0,
    ensures
        full_frames(stream, limit).len() == stream.len() / limit,
        remainder(stream, limit).len() == stream.len() % limit,
        forall|i: int|
            0 <= i < full_frames(stream, limit).len() ==> (#[trigger] full_frames(
                stream,
                limit,
            )[i]).len() == limit,
    decreases stream.len(),
{
    let length = stream.len() as int;
    let d = limit as int;
    if stream.len() < limit {
        vstd::arithmetic::div_mod::lemma_basic_div(length, d);
        vstd::arithmetic::div_mod::lemma_small_mod(stream.len(), limit);
    } else {
        let rest = stream.skip(d);
        lemma_full_frames_sizes(rest, limit);
        vstd::arithmetic::div_mod::lemma_div_plus_one(length - d, d);
        vstd::arithmetic::div_mod::lemma_mod_add_multiples_vanish(length - d, d);
        assert(d + (length - d) == length);
    }
}

/// The frames of full size, joined in order and followed by the bytes left
/// over, are the stream again.
pub proof fn lemma_full_frames_rejoin(stream: Seq<u8>, limit: nat)
    requires
        limit > 0,
    ensures
        full_frames(stream, limit).flatten() + remainder(stream, limit) == stream,
    decreases stream.len(),
{
    if stream.len() < limit {
        assert(full_frames(stream, limit).flatten() == Seq::<u8>::empty());
        assert(Seq::<u8>::empty() + stream == stream);
    } else {
        let head = stream.take(limit as int);
        let rest = stream.skip(limit as int);
        lemma_full_frames_rejoin(rest, limit);
        let frames = full_frames(stream, limit);
        assert(frames.first() == head);
        assert(frames.drop_first() == full_frames(rest, limit));
        assert(frames.flatten() == head + full_frames(rest, limit).flatten());
        assert(head + full_frames(rest, limit).flatten() + remainder(rest, limit) == head + (
            full_frames(rest, limit).flatten() + remainder(rest, limit)));
        assert(head + rest == stream);
    }
}

/// Where the bytes of a stream come in two reads, the frames are the same:
/// those of the first read, then those of what it left over followed by the
/// second read.
pub proof fn lemma_split_reads(first: Seq<u8>, second: Seq<u8>, limit: nat)
    requires
        limit > 0,
    ensures
        full_frames(first + second, limit) == full_frames(first, limit) + full_frames(
            remainder(first, limit) + second,
            limit,
        ),
        remainder(first + second, limit) == remainder(remainder(first, limit) + second, limit),
    decreases first.len(),
{
    if first.len() >= limit {
        let whole = first + second;
        let rest = first.skip(limit as int);
        assert(whole.take(limit as int) == first.take(limit as int));
        assert(whole.skip(limit as int) == rest + second);
        lemma_split_reads(rest, second, limit);
        assert(seq![first.take(limit as int)] + (full_frames(rest, limit) + full_frames(
            remainder(rest, limit) + second,
            limit,
        )) == seq![first.take(limit as int)] + full_frames(rest, limit) + full_frames(
            remainder(rest, limit) + second,
            limit,
        ));
    } else {
        assert(Seq::<Seq<u8>>::empty() + full_frames(first + second, limit) == full_frames(
            first + second,
            limit,
        ));
    }
}

/// A burst that is not empty and shorter than the largest frame, followed by
/// an idle gap, gives exactly one frame, which holds the burst unchanged.
pub proof fn lemma_short_burst_is_one_frame(burst: Seq<u8>, limit: nat)
    requires
        0 < burst.len() < limit,
    ensures
        full_frames(burst, limit) == Seq::<Seq<u8>>::empty(),
        remainder(burst, limit) == burst,
        burst_frames(burst, limit) == seq![burst],
{
    assert(Seq::<Seq<u8>>::empty().push(burst) == seq![burst]);
}

/// A burst of any length, followed by an idle gap, gives as many frames as
/// its length divided by the largest frame size, rounded up. No frame is
/// empty or longer than that size, and the frames joined in order are the
/// burst again.
pub proof fn lemma_burst_is_cut_into_frames(burst: Seq<u8>, limit: nat)
    requires
        limit > 0,
    ensures
        burst_frames(burst, limit).len() == frames_needed(burst.len(), limit),
        forall|i: int|
            0 <= i < burst_frames(burst, limit).len() ==> 0 < (#[trigger] burst_frames(
                burst,
                limit,
            )[i]).len() <= limit,
        burst_frames(burst, limit).flatten() == burst,
{
    let full = full_frames(burst, limit);
    let rest = remainder(burst, limit);
    let length = burst.len() as int;
    let d = limit as int;
    lemma_full_frames_sizes(burst, limit);
    lemma_full_frames_rejoin(burst, limit);
    vstd::arithmetic::div_mod::lemma_fundamental_div_mod(length, d);
    let q = length / d;
    let r = length % d;
    assert(0 <= r < d) by {
        vstd::arithmetic::div_mod::lemma_mod_bound(length, d);
    }
    if rest.len() > 0 {
        assert((length + d - 1) / d == q + 1) by {
            assert(length + d - 1 == (q + 1) * d + (r - 1)) by (nonlinear_arith)
                requires
                    length == d * q + r,
            ;
            vstd::arithmetic::div_mod::lemma_fundamental_div_mod_converse(
                length + d - 1,
                d,
                q + 1,
                r - 1,
            );
        }
        assert forall|i: int| 0 <= i < burst_frames(burst, limit).len() implies 0 < (
        #[trigger] burst_frames(burst, limit)[i]).len() <= limit by {
            if i < full.len() {
                assert(burst_frames(burst, limit)[i] == full[i]);
            }
        }
        full.lemma_flatten_push(rest);
    } else {
        assert((length + d - 1) / d == q) by {
            assert(length + d - 1 == q * d + (d - 1)) by (nonlinear_arith)
                requires
                    length == d * q + r,
                    r == 0,
            ;
            vstd::arithmetic::div_mod::lemma_fundamental_div_mod_converse(
                length + d - 1,
                d,
                q,
                d - 1,
            );
        }
        assert(full.flatten() + rest == full.flatten());
    }
}

/// The byte sequences that a list of frames holds.
pub open spec fn payloads(frames: Seq<Vec<u8>>) -> Seq<Seq<u8>> {
    frames.map_values(|frame: Vec<u8>| frame@)
}

/// The two states of the assembler.
#[derive(Debug, Clone, Copy, PartialEq, Eq, Structural)]
pub enum AssemblerState {
    /// No byte is waiting.
    Idle,
    /// Bytes are waiting for the end of their frame.
    Accumulating,
}

/// Cuts a byte stream without delimiters into frames: a frame ends where the
/// line falls idle, or where it has reached the largest size allowed.
pub struct FrameAssembler {
    max_frame_size: usize,
    pending: Vec<u8>,
}

impl FrameAssembler {
    #[verifier::type_invariant]
    spec fn well_formed(self) -> bool {
        0 < self.max_frame_size && self.pending@.len() < self.max_frame_size
    }

    /// The largest size of a frame.
    pub closed spec fn limit(self) -> nat {
        self.max_frame_size as nat
    }

    /// The bytes that wait for the end of their frame.
    pub closed spec fn pending(self) -> Seq<u8> {
        self.pending@
    }

    /// An idle assembler for frames of at most `max_frame_size` bytes; none
    /// for a size of zero, which no byte fits.
    pub fn new(max_frame_size: usize) -> (assembler: Option<Self>)
        ensures
            max_frame_size == 0 ==> assembler is None,
            max_frame_size > 0 ==> assembler is Some && assembler->Some_0.limit() == max_frame_size
                && assembler->Some_0.pending() == Seq::<u8>::empty(),
    {
        if max_frame_size == 0 {
            None
        } else {
            Some(FrameAssembler { max_frame_size, pending: Vec::new() })
        }
    }

    /// The largest size of a frame.
    pub fn max_frame_size(&self) -> (size: usize)
        ensures
            size == self.limit(),
            size > 0,
    {
        proof {
            use_type_invariant(self);
        }
        self.max_frame_size
    }

    /// The number of bytes that still fit the frame under way: what the next
    /// read may take at most. It is never zero.
    pub fn room(&self) -> (room: usize)
        ensures
            room == self.limit() - self.pending().len(),
            room > 0,
    {
        proof {
            use_type_invariant(self);
        }
        self.max_frame_size - self.pending.len()
    }

    /// The state: idle exactly when no byte is waiting.
    pub fn state(&self) -> (state: AssemblerState)
        ensures
            state == if self.pending().len() == 0 {
                AssemblerState::Idle
            } else {
                AssemblerState::Accumulating
            },
    {
        if self.pending.is_empty() {
            AssemblerState::Idle
        } else {
            AssemblerState::Accumulating
        }
    }

    /// Takes the bytes of one read. Every frame that they fill is closed at
    /// once and returned, in order; the rest waits.
    pub fn push_bytes(&mut self, chunk: &[u8]) -> (frames: Vec<Vec<u8>>)
        ensures
            final(self).limit() == old(self).limit(),
            payloads(frames@) == full_frames(old(self).pending() + chunk@, old(self).limit()),
            final(self).pending() == remainder(old(self).pending() + chunk@, old(self).limit()),
            forall|i: int| 0 <= i < frames@.len() ==> (#[trigger] frames@[i])@.len() == old(
                self,
            ).limit(),
            final(self).pending().len() < old(self).limit(),
    {
        proof {
            use_type_invariant(&*self);
            lemma_full_frames_sizes(self.pending@ + chunk@, self.max_frame_size as nat);
            vstd::arithmetic::div_mod::lemma_mod_bound(
                (self.pending@ + chunk@).len() as int,
                self.max_frame_size as int,
            );
        }
        let limit = self.max_frame_size;
        let ghost stream = self.pending@ + chunk@;
        let mut frames: Vec<Vec<u8>> = Vec::new();
        let mut frame: Vec<u8> = Vec::new();
        core::mem::swap(&mut frame, &mut self.pending);
        let mut at: usize = 0;
        assert(frame@ + chunk@.skip(0) == stream);
        while chunk.len() - at >= limit - frame.len()
            invariant
                0 < limit,
                at <= chunk@.len(),
                frame@.len() < limit,
                full_frames(stream, limit as nat) == payloads(frames@) + full_frames(
                    frame@ + chunk@.skip(at as int),
                    limit as nat,
                ),
                remainder(stream, limit as nat) == remainder(
                    frame@ + chunk@.skip(at as int),
                    limit as nat,
                ),
            decreases chunk@.len() - at,
        {
            let room = limit - frame.len();
            let ghost rest = frame@ + chunk@.skip(at as int);
            let ghost closed = payloads(frames@);
            frame.extend_from_slice(&chunk[at..at + room]);
            at = at + room;
            assert(frame@ == rest.take(limit as int));
            frames.push(frame);
            assert(payloads(frames@) == closed.push(rest.take(limit as int)));
            frame = Vec::new();
            assert(frame@ + chunk@.skip(at as int) == rest.skip(limit as int));
            assert(closed + (seq![rest.take(limit as int)] + full_frames(
                rest.skip(limit as int),
                limit as nat,
            )) == closed.push(rest.take(limit as int)) + full_frames(
                rest.skip(limit as int),
                limit as nat,
            ));
        }
        frame.extend_from_slice(&chunk[at..chunk.len()]);
        self.pending = frame;
        assert forall|i: int| 0 <= i < frames@.len() implies (#[trigger] frames@[i])@.len()
            == limit by {
            assert(payloads(frames@)[i] == frames@[i]@);
        }
        frames
    }

    /// Takes an idle gap, or the end of the stream: the bytes that were
    /// waiting are closed as a frame. No frame where none was waiting.
    pub fn on_timeout(&mut self) -> (frame: Option<Vec<u8>>)
        ensures
            final(self).limit() == old(self).limit(),
            final(self).pending() == Seq::<u8>::empty(),
            old(self).pending().len() == 0 ==> frame is None,
            old(self).pending().len() > 0 ==> frame is Some
                && frame->Some_0@ == old(self).pending(),
            frame is Some ==> 0 < frame->Some_0@.len() < old(self).limit(),
    {
        proof {
            use_type_invariant(&*self);
        }
        if self.pending.is_empty() {
            None
        } else {
            let mut frame: Vec<u8> = Vec::new();
            core::mem::swap(&mut frame, &mut self.pending);
            Some(frame)
        }
    }
}

} // verus!
