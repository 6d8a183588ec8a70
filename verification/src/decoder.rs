//! The output line decoder: raw byte chunks in, complete text lines out.
//!
//! A process writes its output in chunks that end wherever the pipe happened
//! to be cut. The decoder keeps what follows the last line feed until the
//! rest of the line arrives, and hands out each line once it is complete.
//! Bytes that are not UTF-8 are replaced, never refused. When the output ends,
//! what is still held goes out as a last line.

use crate::boundary::{decode_lossy, lossy_text};
use vstd::prelude::*;
use vstd::utf8::{decode_utf8, valid_utf8};

verus! {

/// The byte that ends a line.
pub const LINE_FEED: u8 = 10;

/// What follows the last line feed of `bytes`: the beginning of a line that
/// is not complete yet.
pub open spec fn trailing(bytes: Seq<u8>) -> Seq<u8>
    decreases bytes.len(),
{
    if bytes.len() == 0 {
        Seq::empty()
    } else if bytes.last() == LINE_FEED {
        Seq::empty()
    } else {
        trailing(bytes.drop_last()).push(bytes.last())
    }
}

/// The lines of `bytes` that are closed by a line feed, in order and without
/// the line feed.
pub open spec fn complete_lines(bytes: Seq<u8>) -> Seq<Seq<u8>>
    decreases bytes.len(),
{
    if bytes.len() == 0 {
        Seq::empty()
    } else if bytes.last() == LINE_FEED {
        complete_lines(bytes.drop_last()).push(trailing(bytes.drop_last()))
    } else {
        complete_lines(bytes.drop_last())
    }
}

/// The text of a line: its plain UTF-8 reading where the bytes are valid
/// UTF-8, and the lossy reading, with replacements, where they are not.
pub open spec fn line_text(line: Seq<u8>) -> Seq<char> {
    if valid_utf8(line) {
        decode_utf8(line)
    } else {
        lossy_text(line)
    }
}

/// Each line decoded to text.
pub open spec fn decoded(lines: Seq<Seq<u8>>) -> Seq<Seq<char>> {
    lines.map_values(|line: Seq<u8>| line_text(line))
}

/// What is published of the bytes that are still held when the output ends:
/// nothing where none are held, else their text as one last line.
pub open spec fn remainder_text(held: Seq<u8>) -> Option<Seq<char>> {
    if held.len() == 0 {
        None
    } else {
        Some(line_text(held))
    }
}

/// Whether each text is the plain UTF-8 reading of its line wherever the line
/// is valid UTF-8: nothing is replaced in a line that needs no replacement.
pub open spec fn reads_valid_lines_exactly(lines: Seq<Seq<u8>>, texts: Seq<Seq<char>>) -> bool {
    forall|i: int|
        0 <= i < lines.len() && i < texts.len() && valid_utf8(#[trigger] lines[i]) ==> texts[i]
            == decode_utf8(lines[i])
}

/// Whether `bytes` holds no line feed.
pub open spec fn has_no_line_feed(bytes: Seq<u8>) -> bool {
    forall|i: int| 0 <= i < bytes.len() ==> bytes[i] != LINE_FEED
}

/// The lines written out again, each followed by a line feed.
pub open spec fn rejoined(lines: Seq<Seq<u8>>) -> Seq<u8>
    decreases lines.len(),
{
    if lines.len() == 0 {
        Seq::empty()
    } else {
        rejoined(lines.drop_last()) + lines.last() + seq![LINE_FEED]
    }
}

/// Bytes without a line feed hold no complete line and are all trailing.
pub proof fn lemma_no_line_feed(bytes: Seq<u8>)
    requires
        has_no_line_feed(bytes),
    ensures
        trailing(bytes) == bytes,
        complete_lines(bytes) == Seq::<Seq<u8>>::empty(),
    decreases bytes.len(),
{
    if bytes.len() > 0 {
        lemma_no_line_feed(bytes.drop_last());
        assert(bytes.drop_last().push(bytes.last()) =~= bytes);
    }
}

/// Splitting loses nothing and cuts at line feeds only: the complete lines,
/// written out with their line feeds and followed by the trailing bytes, are
/// the input again, and neither a line nor the trailing bytes hold a line
/// feed.
pub proof fn lemma_split_rebuilds_input(bytes: Seq<u8>)
    ensures
        rejoined(complete_lines(bytes)) + trailing(bytes) == bytes,
        has_no_line_feed(trailing(bytes)),
        forall|i: int|
            0 <= i < complete_lines(bytes).len() ==> has_no_line_feed(
                #[trigger] complete_lines(bytes)[i],
            ),
    decreases bytes.len(),
{
    if bytes.len() == 0 {
        assert(rejoined(complete_lines(bytes)) + trailing(bytes) =~= bytes);
    } else {
        let front = bytes.drop_last();
        lemma_split_rebuilds_input(front);
        assert(front.push(bytes.last()) =~= bytes);
        if bytes.last() == LINE_FEED {
            let lines = complete_lines(bytes);
            assert(lines.drop_last() =~= complete_lines(front));
            assert(lines.last() == trailing(front));
            assert(rejoined(lines) + trailing(bytes) =~= (rejoined(complete_lines(front))
                + trailing(front)).push(LINE_FEED));
        } else {
            assert(rejoined(complete_lines(bytes)) + trailing(bytes) =~= (rejoined(
                complete_lines(front),
            ) + trailing(front)).push(bytes.last()));
        }
    }
}

/// Where a chunk is cut makes no difference: feeding `first` and then
/// `second` gives the lines, and leaves the trailing bytes, that feeding both
/// at once would.
pub proof fn lemma_chunking_is_invisible(first: Seq<u8>, second: Seq<u8>)
    ensures
        complete_lines(first + second) == complete_lines(first) + complete_lines(
            trailing(first) + second,
        ),
        trailing(first + second) == trailing(trailing(first) + second),
    decreases second.len(),
{
    if second.len() == 0 {
        assert(first + second =~= first);
        assert(trailing(first) + second =~= trailing(first));
        lemma_split_rebuilds_input(first);
        lemma_no_line_feed(trailing(first));
        assert(complete_lines(first) + Seq::<Seq<u8>>::empty() =~= complete_lines(first));
    } else {
        let front = second.drop_last();
        lemma_chunking_is_invisible(first, front);
        assert((first + second).drop_last() =~= first + front);
        assert((trailing(first) + second).drop_last() =~= trailing(first) + front);
        if second.last() == LINE_FEED {
            assert(complete_lines(first + second) =~= complete_lines(first) + complete_lines(
                trailing(first) + second,
            ));
        }
    }
}

/// There is one way only to split at line feeds: whenever lines without a
/// line feed, written out with their line feeds and followed by a rest
/// without a line feed, give `bytes`, the lines are the complete lines of
/// `bytes` and the rest is its trailing part.
pub proof fn lemma_split_is_determined(bytes: Seq<u8>, lines: Seq<Seq<u8>>, rest: Seq<u8>)
    requires
        rejoined(lines) + rest == bytes,
        has_no_line_feed(rest),
        forall|i: int| 0 <= i < lines.len() ==> has_no_line_feed(#[trigger] lines[i]),
    ensures
        complete_lines(bytes) == lines,
        trailing(bytes) == rest,
    decreases lines.len(),
{
    lemma_no_line_feed(rest);
    if lines.len() == 0 {
        assert(rejoined(lines) + rest =~= rest);
    } else {
        let body = rejoined(lines.drop_last()) + lines.last();
        let closed = body.push(LINE_FEED);
        assert(rejoined(lines) =~= closed);
        assert(closed.drop_last() =~= body);
        lemma_split_is_determined(body, lines.drop_last(), lines.last());
        assert(complete_lines(closed) =~= lines);
        lemma_chunking_is_invisible(closed, rest);
        assert(trailing(closed) + rest =~= rest);
        assert(lines + Seq::<Seq<u8>>::empty() =~= lines);
    }
}

/// A line that arrives in two pieces comes out as one line: with no line
/// feed in `head` or `tail`, feeding `head` completes nothing, and feeding
/// `tail` and a line feed after it completes exactly the line `head + tail`.
pub proof fn lemma_split_line_is_reassembled(head: Seq<u8>, tail: Seq<u8>)
    requires
        has_no_line_feed(head),
        has_no_line_feed(tail),
    ensures
        complete_lines(head) == Seq::<Seq<u8>>::empty(),
        trailing(head) == head,
        complete_lines(trailing(head) + tail.push(LINE_FEED)) == seq![head + tail],
        trailing(trailing(head) + tail.push(LINE_FEED)) == Seq::<u8>::empty(),
{
    lemma_no_line_feed(head);
    lemma_no_line_feed(head + tail);
    let all = head + tail.push(LINE_FEED);
    assert(all.drop_last() =~= head + tail);
    assert(complete_lines(all) =~= seq![head + tail]);
}

/// The decoder of one output channel. It holds the bytes of the line that is
/// still incomplete.
#[derive(Debug)]
pub struct LineDecoder {
    pending: Vec<u8>,
}

impl View for LineDecoder {
    type V = Seq<u8>;

    /// The bytes received since the last line feed.
    closed spec fn view(&self) -> Seq<u8> {
        self.pending@
    }
}

impl LineDecoder {
    #[verifier::type_invariant]
    spec fn holds_one_partial_line(&self) -> bool {
        has_no_line_feed(self.pending@)
    }

    /// A decoder that has received nothing.
    pub fn new() -> (decoder: LineDecoder)
        ensures
            decoder@ == Seq::<u8>::empty(),
    {
        LineDecoder { pending: Vec::new() }
    }

    /// Feeds one chunk of output. Returns the lines that the chunk completes,
    /// decoded, and keeps what follows the last line feed for the next chunk.
    pub fn push(&mut self, chunk: &[u8]) -> (lines: Vec<String>)
        ensures
            lines.deep_view() == decoded(complete_lines(old(self)@ + chunk@)),
            reads_valid_lines_exactly(complete_lines(old(self)@ + chunk@), lines.deep_view()),
            final(self)@ == trailing(old(self)@ + chunk@),
    {
        let ghost held = self.pending@;
        proof {
            use_type_invariant(&*self);
            lemma_no_line_feed(held);
            assert(held + chunk@.take(0) =~= held);
        }
        let mut pending: Vec<u8> = Vec::new();
        std::mem::swap(&mut self.pending, &mut pending);
        let mut lines: Vec<String> = Vec::new();
        let mut i: usize = 0;
        while i < chunk.len()
            invariant
                i <= chunk.len(),
                has_no_line_feed(pending@),
                pending@ == trailing(held + chunk@.take(i as int)),
                lines.deep_view() == decoded(complete_lines(held + chunk@.take(i as int))),
            decreases chunk.len() - i,
        {
            let byte: u8 = chunk[i];
            let ghost seen = held + chunk@.take(i as int);
            let ghost emitted = lines.deep_view();
            proof {
                assert((held + chunk@.take(i as int + 1)).drop_last() =~= seen);
                assert((held + chunk@.take(i as int + 1)).last() == byte);
            }
            if byte == LINE_FEED {
                let line = decode_lossy(pending.as_slice());
                lines.push(line);
                pending.clear();
                proof {
                    assert(lines.deep_view() =~= emitted.push(line_text(trailing(seen))));
                    assert(decoded(complete_lines(seen).push(trailing(seen))) =~= decoded(
                        complete_lines(seen),
                    ).push(line_text(trailing(seen))));
                }
            } else {
                pending.push(byte);
            }
            i += 1;
        }
        proof {
            assert(chunk@.take(chunk.len() as int) =~= chunk@);
        }
        self.pending = pending;
        lines
    }

    /// Ends the channel: hands out what is still held as one last line, if
    /// anything is held, and holds nothing afterwards.
    pub fn finish(&mut self) -> (last: Option<String>)
        ensures
            last.deep_view() == remainder_text(old(self)@),
            final(self)@ == Seq::<u8>::empty(),
    {
        let mut pending: Vec<u8> = Vec::new();
        std::mem::swap(&mut self.pending, &mut pending);
        if pending.len() == 0 {
            None
        } else {
            Some(decode_lossy(pending.as_slice()))
        }
    }
}

} // verus!
