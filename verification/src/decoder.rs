//! Line-feed frame decoder for the line-oriented transport.
//!
//! Incoming bytes accumulate in a buffer; every `\n` completes one line.
//! Lines consisting only of whitespace are suppressed; all other lines are
//! handed out exactly as received (a trailing `\r` from a `\r\n` terminator is
//! kept). The unterminated suffix is retained for the next read, with no
//! upper bound on its length.
//!
//! The decoder works on raw bytes, whatever their encoding, so whitespace is
//! read at the byte level: a line blanks out only if every byte is ASCII
//! whitespace. A line made of multi-byte Unicode whitespace (say the two
//! bytes 0xC2 0xA0, a no-break space) is not blank here and is emitted — a
//! deliberate deviation, kept so that the decoder treats every byte sequence
//! alike and never inspects encodings.
use vstd::prelude::*;

verus! {

/// The sole line delimiter, `\n`.
pub const LINE_FEED: u8 = 10;

/// ASCII whitespace: the bytes that `char::is_whitespace` accepts below
/// 0x80. Multi-byte Unicode whitespace is deliberately not recognized (see
/// the module notes).
pub open spec fn is_space_byte(b: u8) -> bool {
    b == 32 || (9 <= b && b <= 13)
}

/// A line that is empty after trimming whitespace; such lines are suppressed.
pub open spec fn is_blank(l: Seq<u8>) -> bool {
    forall|i: int| 0 <= i < l.len() ==> is_space_byte(#[trigger] l[i])
}

/// Complete lines and retained remainder of a byte stream, folding the stream
/// from the left: each `\n` closes the line accumulated so far (the delimiter
/// itself belongs to no line), every other byte extends the open line.
pub open spec fn split_stream(s: Seq<u8>) -> (Seq<Seq<u8>>, Seq<u8>)
    decreases s.len(),
{
    if s.len() == 0 {
        (Seq::<Seq<u8>>::empty(), Seq::<u8>::empty())
    } else {
        let prev = split_stream(s.drop_last());
        if s.last() == LINE_FEED {
            (prev.0.push(prev.1), Seq::<u8>::empty())
        } else {
            (prev.0, prev.1.push(s.last()))
        }
    }
}

/// The complete lines of `s` that survive blank-line suppression, in order.
pub open spec fn emitted_lines(s: Seq<u8>) -> Seq<Seq<u8>> {
    split_stream(s).0.filter(|l: Seq<u8>| !is_blank(l))
}

/// No byte of `s` is the line delimiter.
pub open spec fn has_no_newline(s: Seq<u8>) -> bool {
    forall|i: int| 0 <= i < s.len() ==> s[i] != LINE_FEED
}

/// The views of a sequence of byte vectors.
pub open spec fn views_of(v: Seq<Vec<u8>>) -> Seq<Seq<u8>> {
    v.map_values(|l: Vec<u8>| l@)
}

/// Splits a byte stream on `\n`, buffering the unterminated suffix between
/// reads.
pub struct FrameDecoder {
    buf: Vec<u8>,
}

impl FrameDecoder {
    /// The bytes received so far that no delimiter has completed yet.
    pub closed spec fn pending(self) -> Seq<u8> {
        self.buf@
    }

    /// The retained remainder never contains a delimiter.
    pub open spec fn wf(self) -> bool {
        has_no_newline(self.pending())
    }

    /// A fresh decoder with an empty buffer.
    pub fn new() -> (d: FrameDecoder)
        ensures
            d.wf(),
            d.pending() == Seq::<u8>::empty(),
    {
        FrameDecoder { buf: Vec::new() }
    }

    /// Drop any buffered remainder; called at the start of each new
    /// connection attempt so that no backlog crosses connections.
    pub fn clear(&mut self)
        ensures
            final(self).wf(),
            final(self).pending() == Seq::<u8>::empty(),
    {
        self.buf.clear();
    }

    /// Consume one read's worth of bytes; returns the newly completed,
    /// non-blank lines in order and retains the unterminated suffix.
    pub fn feed(&mut self, chunk: &[u8]) -> (lines: Vec<Vec<u8>>)
        requires
            old(self).wf(),
        ensures
            final(self).wf(),
            final(self).pending() == split_stream(old(self).pending() + chunk@).1,
            views_of(lines@) == emitted_lines(old(self).pending() + chunk@),
    {
        let ghost pend0: Seq<u8> = self.buf@;
        proof {
            lemma_split_no_newline(pend0);
        }
        let mut out: Vec<Vec<u8>> = Vec::new();
        let mut acc: Vec<u8> = Vec::new();
        acc.append(&mut self.buf);
        proof {
            reveal(Seq::filter);
            assert(pend0 + chunk@.take(0) =~= pend0);
            assert(views_of(out@) =~= emitted_lines(pend0 + chunk@.take(0)));
        }
        let mut i: usize = 0;
        while i < chunk.len()
            invariant
                0 <= i <= chunk@.len(),
                acc@ == split_stream(pend0 + chunk@.take(i as int)).1,
                views_of(out@) == emitted_lines(pend0 + chunk@.take(i as int)),
                self.buf@ == Seq::<u8>::empty(),
            decreases chunk@.len() - i,
        {
            let ghost processed: Seq<u8> = pend0 + chunk@.take(i as int);
            let b = chunk[i];
            proof {
                assert(pend0 + chunk@.take(i + 1) =~= processed.push(b));
                assert(processed.push(b).drop_last() =~= processed);
            }
            if b == LINE_FEED {
                proof {
                    reveal(Seq::filter);
                    assert(split_stream(processed.push(b)).0 =~= split_stream(processed).0.push(
                        acc@,
                    ));
                    assert(split_stream(processed).0.push(acc@).drop_last() =~= split_stream(
                        processed,
                    ).0);
                }
                let blank = is_blank_bytes(&acc);
                if !blank {
                    let ghost out0: Seq<Vec<u8>> = out@;
                    out.push(acc);
                    proof {
                        assert(views_of(out@) =~= views_of(out0).push(acc@));
                    }
                }
                acc = Vec::new();
            } else {
                proof {
                    assert(split_stream(processed.push(b)).0 =~= split_stream(processed).0);
                    assert(split_stream(processed.push(b)).1 =~= split_stream(processed).1.push(
                        b,
                    ));
                }
                acc.push(b);
            }
            i = i + 1;
        }
        proof {
            assert(chunk@.take(chunk@.len() as int) =~= chunk@);
            lemma_remainder_no_newline(pend0 + chunk@);
        }
        self.buf = acc;
        out
    }
}

/// Decides whether a line is whitespace-only.
pub fn is_blank_bytes(l: &Vec<u8>) -> (r: bool)
    ensures
        r == is_blank(l@),
{
    let mut i: usize = 0;
    while i < l.len()
        invariant
            0 <= i <= l@.len(),
            forall|j: int| 0 <= j < i ==> is_space_byte(#[trigger] l@[j]),
        decreases l@.len() - i,
    {
        let b = l[i];
        if !(b == 32 || (9 <= b && b <= 13)) {
            return false;
        }
        i = i + 1;
    }
    true
}

/// A stream without a delimiter has no complete line and is retained whole.
pub proof fn lemma_split_no_newline(s: Seq<u8>)
    requires
        has_no_newline(s),
    ensures
        split_stream(s) == (Seq::<Seq<u8>>::empty(), s),
    decreases s.len(),
{
    if s.len() == 0 {
        assert(s =~= Seq::<u8>::empty());
    } else {
        lemma_split_no_newline(s.drop_last());
        assert(split_stream(s).1 =~= s);
    }
}

/// The retained remainder never contains a delimiter.
pub proof fn lemma_remainder_no_newline(s: Seq<u8>)
    ensures
        has_no_newline(split_stream(s).1),
    decreases s.len(),
{
    if s.len() > 0 {
        lemma_remainder_no_newline(s.drop_last());
        if s.last() != LINE_FEED {
            let prev = split_stream(s.drop_last()).1;
            assert forall|i: int| 0 <= i < split_stream(s).1.len() implies split_stream(s).1[i]
                != LINE_FEED by {
                if i < prev.len() {
                    assert(split_stream(s).1[i] == prev[i]);
                }
            }
        }
    }
}

/// Every element of `s` satisfies `pred`: filtering keeps `s` whole.
proof fn lemma_filter_all<A>(s: Seq<A>, pred: spec_fn(A) -> bool)
    requires
        forall|i: int| 0 <= i < s.len() ==> pred(#[trigger] s[i]),
    ensures
        s.filter(pred) == s,
    decreases s.len(),
{
    reveal(Seq::filter);
    if s.len() == 0 {
        assert(s.filter(pred) =~= s);
    } else {
        lemma_filter_all(s.drop_last(), pred);
        assert(s.filter(pred) =~= s);
    }
}

/// Feeding a stream in two pieces equals feeding the concatenation: the
/// complete lines of `s + t` are those of `s` followed by those completed
/// once the remainder retained from `s` is extended by `t`, and the final
/// remainders agree. With this, any incremental feeding schedule reduces to
/// one decoding of the whole input.
pub proof fn lemma_split_incremental(s: Seq<u8>, t: Seq<u8>)
    ensures
        split_stream(s + t).0 == split_stream(s).0 + split_stream(split_stream(s).1 + t).0,
        split_stream(s + t).1 == split_stream(split_stream(s).1 + t).1,
    decreases t.len(),
{
    let rem = split_stream(s).1;
    if t.len() == 0 {
        assert(s + t =~= s);
        assert(rem + t =~= rem);
        lemma_remainder_no_newline(s);
        lemma_split_no_newline(rem);
        assert(split_stream(s).0 + split_stream(rem).0 =~= split_stream(s).0);
    } else {
        lemma_split_incremental(s, t.drop_last());
        let u = t.drop_last();
        let b = t.last();
        assert(s + t =~= (s + u).push(b));
        assert((s + u).push(b).drop_last() =~= s + u);
        assert(rem + t =~= (rem + u).push(b));
        assert((rem + u).push(b).drop_last() =~= rem + u);
        assert(split_stream(s + t).0 =~= split_stream(s).0 + split_stream(rem + t).0);
    }
}

/// The emitted (non-blank) lines are incremental in the same way; this is
/// exactly how two successive `feed` calls compose, since the second starts
/// from the retained remainder of the first.
pub proof fn lemma_emitted_incremental(s: Seq<u8>, t: Seq<u8>)
    ensures
        emitted_lines(s + t) == emitted_lines(s) + emitted_lines(split_stream(s).1 + t),
{
    lemma_split_incremental(s, t);
    Seq::<Seq<u8>>::filter_distributes_over_add(
        split_stream(s).0,
        split_stream(split_stream(s).1 + t).0,
        |l: Seq<u8>| !is_blank(l),
    );
}

/// Nothing is lost and nothing is invented: the complete lines of a stream,
/// concatenated in order, followed by the retained remainder, are exactly the
/// stream with its `\n` delimiters removed. The lines a decoder emits are the
/// complete lines that are not whitespace-only, in the same order
/// (`emitted_lines`), so an emitted stream differs from the input only by the
/// removed delimiters and the suppressed blank lines.
pub proof fn lemma_stream_reassembly(s: Seq<u8>)
    ensures
        split_stream(s).0.flatten() + split_stream(s).1 == s.filter(|b: u8| b != LINE_FEED),
    decreases s.len(),
{
    reveal(Seq::filter);
    let p = |b: u8| b != LINE_FEED;
    if s.len() == 0 {
        assert(split_stream(s).0.flatten() + split_stream(s).1 =~= s.filter(p));
    } else {
        let t = s.drop_last();
        let b = s.last();
        lemma_stream_reassembly(t);
        let lines = split_stream(t).0;
        let rem = split_stream(t).1;
        if b == LINE_FEED {
            lines.lemma_flatten_push(rem);
            assert(split_stream(s).0.flatten() + split_stream(s).1 =~= s.filter(p));
        } else {
            assert(lines.flatten() + rem.push(b) =~= (lines.flatten() + rem).push(b));
            assert(split_stream(s).0.flatten() + split_stream(s).1 =~= s.filter(p));
        }
    }
}

/// The reassembly statement over what is actually emitted: when no complete
/// line of the stream is whitespace-only — so suppression removes nothing —
/// the emitted lines concatenated in order, followed by the retained
/// remainder, are exactly the stream with its `\n` delimiters removed.
pub proof fn lemma_emitted_reassembly(s: Seq<u8>)
    requires
        forall|i: int|
            0 <= i < split_stream(s).0.len() ==> !is_blank(#[trigger] split_stream(s).0[i]),
    ensures
        emitted_lines(s).flatten() + split_stream(s).1 == s.filter(|b: u8| b != LINE_FEED),
{
    lemma_filter_all(split_stream(s).0, |l: Seq<u8>| !is_blank(l));
    lemma_stream_reassembly(s);
}

} // verus!
