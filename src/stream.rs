use vstd::prelude::*;
use crate::wire::GenerationFrame;

verus! {

/// The lines of a stream written one after the other, each ended by a line
/// feed.
pub open spec fn joined(lines: Seq<Vec<u8>>) -> Seq<u8>
    decreases lines.len(),
{
    if lines.len() == 0 {
        Seq::empty()
    } else {
        joined(lines.drop_last()) + lines.last()@ + seq![10u8]
    }
}

pub open spec fn no_newline(b: Seq<u8>) -> bool {
    forall|i: int| 0 <= i < b.len() ==> b[i] != 10u8
}

/// Whether a frame arriving in this state is taken: a decoded frame, before
/// any frame has said that the answer is complete.
pub open spec fn takes(done: bool, frame: Option<GenerationFrame>) -> bool {
    !done && frame is Some
}

/// The accumulated text after a frame.
pub open spec fn next_text(text: Seq<char>, done: bool, frame: Option<GenerationFrame>) -> Seq<
    char,
> {
    if takes(done, frame) {
        text + frame->Some_0.response@
    } else {
        text
    }
}

/// Whether the answer is complete after a frame.
pub open spec fn next_done(done: bool, frame: Option<GenerationFrame>) -> bool {
    if takes(done, frame) {
        frame->Some_0.done
    } else {
        done
    }
}

/// The fragments handed to the consumer for a frame: its text, or nothing.
pub open spec fn emitted(done: bool, frame: Option<GenerationFrame>) -> Seq<Seq<char>> {
    if takes(done, frame) {
        seq![frame->Some_0.response@]
    } else {
        Seq::empty()
    }
}

/// Accumulated text and completion after a run of frames from the start.
pub open spec fn run(frames: Seq<Option<GenerationFrame>>) -> (Seq<char>, bool)
    decreases frames.len(),
{
    if frames.len() == 0 {
        (Seq::empty(), false)
    } else {
        let p = run(frames.drop_last());
        (next_text(p.0, p.1, frames.last()), next_done(p.1, frames.last()))
    }
}

/// The fragments handed to the consumer over a run of frames, in order.
pub open spec fn run_emitted(frames: Seq<Option<GenerationFrame>>) -> Seq<Seq<char>>
    decreases frames.len(),
{
    if frames.len() == 0 {
        Seq::empty()
    } else {
        run_emitted(frames.drop_last()) + emitted(run(frames.drop_last()).1, frames.last())
    }
}

pub open spec fn concat(parts: Seq<Seq<char>>) -> Seq<char>
    decreases parts.len(),
{
    if parts.len() == 0 {
        Seq::empty()
    } else {
        concat(parts.drop_last()) + parts.last()
    }
}

/// Whatever frames arrive, the fragments handed to the consumer, joined,
/// are exactly the text the decoder accumulates.
pub proof fn lemma_forwarded_text_is_accumulated(frames: Seq<Option<GenerationFrame>>)
    ensures
        concat(run_emitted(frames)) == run(frames).0,
    decreases frames.len(),
{
    if frames.len() > 0 {
        let prev = frames.drop_last();
        lemma_forwarded_text_is_accumulated(prev);
        let e = emitted(run(prev).1, frames.last());
        let all = run_emitted(prev) + e;
        if takes(run(prev).1, frames.last()) {
            assert(all.drop_last() =~= run_emitted(prev));
        } else {
            assert(all =~= run_emitted(prev));
        }
    }
}

/// How the body of a streamed answer stopped coming.
#[derive(Debug, Clone, PartialEq, Eq)]
pub enum StreamEnd {
    /// The request could not be sent; the reason.
    ConnectFailed(String),
    /// The service refused the request; the body of its answer.
    Refused(String),
    /// The service refused the request and its answer could not be read; why.
    RefusedUnreadable(String),
    /// The body failed part-way; the reason.
    Interrupted(String),
    /// The body ended, or a frame said that the answer is complete.
    Ended,
}

/// What the producer does once the body has stopped coming.
#[derive(Debug)]
pub struct StreamStop {
    /// A diagnostic to hand to the consumer in place of a fragment.
    pub notice: Option<String>,
    /// Bytes after the last line feed, still to be decoded as a last line.
    pub rest: Option<Vec<u8>>,
}

/// The diagnostic that a stream stopping this way hands to the consumer.
pub open spec fn notice_of(end: StreamEnd) -> Option<Seq<char>> {
    match end {
        StreamEnd::ConnectFailed(m) => Some("Error: "@ + m@),
        StreamEnd::Refused(b) => Some("API Error: "@ + b@),
        StreamEnd::RefusedUnreadable(m) => Some(
            "API Error: "@ + "Failed to read error response: "@ + m@,
        ),
        StreamEnd::Interrupted(m) => Some("Stream error: "@ + m@),
        StreamEnd::Ended => None,
    }
}

/// Whether the bytes after the last line feed are still to be decoded: only
/// when the body ended normally before any frame completed the answer.
pub open spec fn decodes_rest(end: StreamEnd, done: bool, pending: Seq<u8>) -> bool {
    end is Ended && !done && pending.len() > 0
}

fn prefixed(prefix: &str, m: &str) -> (r: String)
    ensures
        r@ == prefix@ + m@,
{
    let mut r = String::from_str(prefix);
    r.append(m);
    r
}

/// Decodes a streamed answer: cuts the incoming bytes into lines, and folds
/// the decoded frames of those lines into the text handed out so far.
#[derive(Debug)]
pub struct StreamDecoder {
    pending: Vec<u8>,
    text: String,
    done: bool,
}

impl StreamDecoder {
    /// Bytes received after the last line feed.
    pub closed spec fn pending(&self) -> Seq<u8> {
        self.pending@
    }

    /// The text of the fragments taken so far.
    pub closed spec fn text(&self) -> Seq<char> {
        self.text@
    }

    /// Whether a frame has said that the answer is complete.
    pub closed spec fn finished(&self) -> bool {
        self.done
    }

    pub closed spec fn wf(&self) -> bool {
        no_newline(self.pending@)
    }

    pub fn new() -> (r: Self)
        ensures
            r.wf(),
            r.pending() == Seq::<u8>::empty(),
            r.text() == Seq::<char>::empty(),
            !r.finished(),
    {
        StreamDecoder { pending: Vec::new(), text: String::new(), done: false }
    }

    /// Appends `chunk` to the bytes not yet cut and returns the lines it
    /// completes, without their line feeds; the bytes after the last line
    /// feed wait for the next chunk.
    pub fn split_lines(&mut self, chunk: &[u8]) -> (lines: Vec<Vec<u8>>)
        requires
            old(self).wf(),
        ensures
            final(self).wf(),
            old(self).pending() + chunk@ == joined(lines@) + final(self).pending(),
            forall|k: int| 0 <= k < lines@.len() ==> no_newline(#[trigger] lines@[k]@),
            final(self).text() == old(self).text(),
            final(self).finished() == old(self).finished(),
    {
        let mut cur: Vec<u8> = Vec::new();
        std::mem::swap(&mut cur, &mut self.pending);
        let mut lines: Vec<Vec<u8>> = Vec::new();
        let mut i: usize = 0;
        while i < chunk.len()
            invariant
                i <= chunk@.len(),
                old(self).pending@ + chunk@.subrange(0, i as int) == joined(lines@) + cur@,
                no_newline(cur@),
                forall|k: int| 0 <= k < lines@.len() ==> no_newline(#[trigger] lines@[k]@),
                self.text == old(self).text,
                self.done == old(self).done,
            decreases chunk@.len() - i,
        {
            let b = chunk[i];
            assert(chunk@.subrange(0, i + 1) =~= chunk@.subrange(0, i as int).push(b));
            assert(old(self).pending@ + chunk@.subrange(0, i + 1) =~= (old(self).pending@
                + chunk@.subrange(0, i as int)).push(b));
            if b == 10u8 {
                let ghost old_lines = lines@;
                let ghost line = cur@;
                lines.push(cur);
                cur = Vec::new();
                assert(lines@.drop_last() =~= old_lines);
                assert(joined(lines@) == joined(old_lines) + line + seq![10u8]);
                assert(old(self).pending@ + chunk@.subrange(0, i + 1) =~= joined(old_lines) + line
                    + seq![10u8]);
                assert(joined(lines@) + cur@ =~= joined(lines@));
            } else {
                let ghost prev = cur@;
                cur.push(b);
                assert(joined(lines@) + cur@ =~= (joined(lines@) + prev).push(b));
            }
            i = i + 1;
        }
        assert(chunk@.subrange(0, chunk@.len() as int) =~= chunk@);
        self.pending = cur;
        lines
    }

    /// Hands out the bytes after the last line feed: the final line of a
    /// stream that does not end with one.
    pub fn take_rest(&mut self) -> (r: Vec<u8>)
        requires
            old(self).wf(),
        ensures
            final(self).wf(),
            r@ == old(self).pending(),
            final(self).pending() == Seq::<u8>::empty(),
            final(self).text() == old(self).text(),
            final(self).finished() == old(self).finished(),
    {
        let mut rest: Vec<u8> = Vec::new();
        std::mem::swap(&mut rest, &mut self.pending);
        rest
    }

    /// Takes the frame decoded from one line (`None` when the line did not
    /// decode, which is skipped). Returns the fragment to hand to the
    /// consumer, which is also added to the accumulated text.
    pub fn accept(&mut self, frame: Option<GenerationFrame>) -> (r: Option<String>)
        requires
            old(self).wf(),
        ensures
            final(self).wf(),
            final(self).text() == next_text(old(self).text(), old(self).finished(), frame),
            final(self).finished() == next_done(old(self).finished(), frame),
            final(self).pending() == old(self).pending(),
            match r {
                Some(s) => emitted(old(self).finished(), frame) == seq![s@],
                None => emitted(old(self).finished(), frame) == Seq::<Seq<char>>::empty(),
            },
    {
        if self.done {
            return None;
        }
        match frame {
            None => None,
            Some(f) => {
                self.text.append(f.response.as_str());
                self.done = f.done;
                Some(f.response)
            },
        }
    }

    /// Stops the decoding when the body stops coming: says what diagnostic,
    /// if any, the consumer gets, and hands out the trailing bytes when they
    /// are still to be decoded. The accumulated text is kept.
    pub fn stop(&mut self, end: StreamEnd) -> (r: StreamStop)
        requires
            old(self).wf(),
        ensures
            final(self).wf(),
            final(self).pending() == Seq::<u8>::empty(),
            final(self).text() == old(self).text(),
            final(self).finished() == old(self).finished(),
            match notice_of(end) {
                Some(t) => r.notice matches Some(n) && n@ == t,
                None => r.notice is None,
            },
            match r.rest {
                Some(b) => decodes_rest(end, old(self).finished(), old(self).pending()) && b@
                    == old(self).pending(),
                None => !decodes_rest(end, old(self).finished(), old(self).pending()),
            },
    {
        let rest = self.take_rest();
        match end {
            StreamEnd::ConnectFailed(m) => StreamStop {
                notice: Some(prefixed("Error: ", m.as_str())),
                rest: None,
            },
            StreamEnd::Refused(b) => StreamStop {
                notice: Some(prefixed("API Error: ", b.as_str())),
                rest: None,
            },
            StreamEnd::RefusedUnreadable(m) => {
                let mut n = String::from_str("API Error: ");
                n.append("Failed to read error response: ");
                n.append(m.as_str());
                StreamStop { notice: Some(n), rest: None }
            },
            StreamEnd::Interrupted(m) => StreamStop {
                notice: Some(prefixed("Stream error: ", m.as_str())),
                rest: None,
            },
            StreamEnd::Ended => if !self.done && rest.len() > 0 {
                StreamStop { notice: None, rest: Some(rest) }
            } else {
                StreamStop { notice: None, rest: None }
            },
        }
    }

    pub fn is_done(&self) -> (r: bool)
        ensures
            r == self.finished(),
    {
        self.done
    }

    /// The accumulated text.
    pub fn into_text(self) -> (r: String)
        ensures
            r@ == self.text(),
    {
        self.text
    }
}

} // verus!
