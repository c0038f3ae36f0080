//! The per-connection processor: a script of read outcomes becomes status
//! lines, one per non-empty read, until the peer closes or the transport
//! fails.
//!
//! The driver that owns the socket performs the reads and hands each outcome
//! in as a [`ReadEvent`]; everything decided about a connection — framing,
//! classification, partial-failure recovery, termination — is here and
//! verified.

use vstd::prelude::*;

use crate::classify::classify_message;
use crate::classify::spec_classify;
use crate::render::render_error;
use crate::render::render_message;
use crate::render::spec_render_error;
use crate::render::spec_render_message;
use crate::wire::decode_lossy;
use crate::wire::lossy_text;
use crate::wire::trim_text;
use crate::wire::trimmed;

verus! {

/// One read's outcome, as the connection driver hands it in: the bytes a
/// successful read produced (zero bytes meaning the peer closed the stream),
/// or a transport failure.
#[derive(Debug)]
pub enum ReadEvent {
    Chunk(Vec<u8>),
    Failed,
}

/// Mathematical model of a [`ReadEvent`].
pub enum ReadEventModel {
    Chunk(Seq<u8>),
    Failed,
}

impl View for ReadEvent {
    type V = ReadEventModel;

    open spec fn view(&self) -> ReadEventModel {
        match self {
            ReadEvent::Chunk(b) => ReadEventModel::Chunk(b@),
            ReadEvent::Failed => ReadEventModel::Failed,
        }
    }
}

/// A transport-level read failure. It ends a connection's processing and
/// discards the status lines accumulated so far.
#[derive(Clone, Copy, Debug, PartialEq, Eq, Structural)]
pub struct ReadError;

/// The status line recorded for one non-empty read: the buffer decoded as
/// UTF-8 (lossily), trimmed, classified, and rendered — as a success line on
/// a classified message, as a failure line on a classification error.
pub open spec fn spec_status_line(b: Seq<u8>) -> Seq<char> {
    match spec_classify(trimmed(lossy_text(b))) {
        Ok(m) => spec_render_message(m),
        Err(e) => spec_render_error(e),
    }
}

/// Turn one read's bytes into its status line.
pub fn status_line(buf: &[u8]) -> (line: String)
    ensures
        line@ == spec_status_line(buf@),
{
    let text = decode_lossy(buf);
    let trimmed_text = trim_text(text.as_str());
    match classify_message(trimmed_text) {
        Ok(m) => render_message(&m),
        Err(e) => render_error(&e),
    }
}

/// What processing a connection yields, given the outcomes its reads would
/// deliver in order: one status line per non-empty read, stopping cleanly at
/// the first zero-byte read (or the script's end), and failing at the first
/// transport error. A message that fails classification only contributes a
/// failure line; it never ends the connection.
pub open spec fn spec_process(events: Seq<ReadEventModel>) -> Result<Seq<Seq<char>>, ReadError>
    decreases events.len(),
{
    if events.len() == 0 {
        Ok(Seq::empty())
    } else {
        match events[0] {
            ReadEventModel::Failed => Err(ReadError),
            ReadEventModel::Chunk(b) => if b.len() == 0 {
                Ok(Seq::empty())
            } else {
                match spec_process(events.drop_first()) {
                    Ok(rest) => Ok(seq![spec_status_line(b)] + rest),
                    Err(e) => Err(e),
                }
            },
        }
    }
}

/// The model of a processing outcome.
pub open spec fn process_model(r: Result<Vec<String>, ReadError>) -> Result<
    Seq<Seq<char>>,
    ReadError,
> {
    match r {
        Ok(lines) => Ok(lines@.map_values(|l: String| l@)),
        Err(e) => Err(e),
    }
}

/// Process one connection, its reads' outcomes given in order. Returns the
/// accumulated status lines on a clean end of stream, and the transport error
/// on a failed read.
pub fn process(reads: &Vec<ReadEvent>) -> (r: Result<Vec<String>, ReadError>)
    ensures
        process_model(r) == spec_process(reads@.map_values(|e: ReadEvent| e@)),
{
    let ghost script = reads@.map_values(|e: ReadEvent| e@);
    let mut lines: Vec<String> = Vec::new();
    let mut i: usize = 0;
    proof {
        assert(script.skip(0) =~= script);
        assert(lines@.map_values(|l: String| l@) =~= Seq::<Seq<char>>::empty());
    }
    while i < reads.len()
        invariant
            i <= reads.len(),
            script == reads@.map_values(|e: ReadEvent| e@),
            spec_process(script) == match spec_process(script.skip(i as int)) {
                Ok(rest) => Ok::<Seq<Seq<char>>, ReadError>(
                    lines@.map_values(|l: String| l@) + rest,
                ),
                Err(e) => Err(e),
            },
        decreases reads.len() - i,
    {
        let ghost done = lines@.map_values(|l: String| l@);
        match &reads[i] {
            ReadEvent::Failed => {
                return Err(ReadError);
            },
            ReadEvent::Chunk(b) => {
                if b.len() == 0 {
                    proof {
                        assert(done + Seq::<Seq<char>>::empty() =~= done);
                    }
                    return Ok(lines);
                }
                let line = status_line(b.as_slice());
                lines.push(line);
                proof {
                    assert(script.skip(i as int).drop_first() =~= script.skip(i + 1));
                    let tail = spec_process(script.skip(i + 1));
                    if tail is Ok {
                        assert(done + (seq![spec_status_line(b@)] + tail->Ok_0) =~= lines@.map_values(
                            |l: String| l@,
                        ) + tail->Ok_0);
                    }
                }
            },
        }
        i = i + 1;
    }
    proof {
        assert(script.skip(reads@.len() as int) =~= Seq::<ReadEventModel>::empty());
        assert(lines@.map_values(|l: String| l@) + Seq::<Seq<char>>::empty() =~= lines@.map_values(
            |l: String| l@,
        ));
    }
    Ok(lines)
}

/// One classification failure never ends a connection: a malformed read
/// followed by a valid one yields exactly a failure line, then a success
/// line, and the connection completes cleanly.
pub proof fn lemma_process_recovers(b1: Seq<u8>, b2: Seq<u8>)
    requires
        b1.len() > 0,
        b2.len() > 0,
        spec_classify(trimmed(lossy_text(b1))) is Err,
        spec_classify(trimmed(lossy_text(b2))) is Ok,
    ensures
        spec_process(seq![ReadEventModel::Chunk(b1), ReadEventModel::Chunk(b2)]) == Ok::<
            Seq<Seq<char>>,
            ReadError,
        >(
            seq![
                spec_render_error(spec_classify(trimmed(lossy_text(b1)))->Err_0),
                spec_render_message(spec_classify(trimmed(lossy_text(b2)))->Ok_0),
            ],
        ),
{
    reveal_with_fuel(spec_process, 3);
    let script = seq![ReadEventModel::Chunk(b1), ReadEventModel::Chunk(b2)];
    assert(script.drop_first() =~= seq![ReadEventModel::Chunk(b2)]);
    assert(script.drop_first().drop_first() =~= Seq::<ReadEventModel>::empty());
    assert(seq![spec_status_line(b1)] + (seq![spec_status_line(b2)]
        + Seq::<Seq<char>>::empty()) =~= seq![spec_status_line(b1), spec_status_line(b2)]);
}

/// A zero-byte read is a clean end of stream: on an otherwise empty
/// connection it yields no status lines and success.
pub proof fn lemma_process_empty_read()
    ensures
        spec_process(seq![ReadEventModel::Chunk(Seq::empty())]) == Ok::<
            Seq<Seq<char>>,
            ReadError,
        >(Seq::empty()),
{
}

/// Processing fails only on a transport error: a script without a failed
/// read always completes cleanly.
pub proof fn lemma_process_resilient(events: Seq<ReadEventModel>)
    requires
        forall|i: int| 0 <= i < events.len() ==> !(#[trigger] events[i] is Failed),
    ensures
        spec_process(events) is Ok,
    decreases events.len(),
{
    if events.len() > 0 {
        match events[0] {
            ReadEventModel::Failed => {
                assert(events[0] is Failed);
            },
            ReadEventModel::Chunk(b) => {
                if b.len() > 0 {
                    let rest = events.drop_first();
                    assert forall|i: int| 0 <= i < rest.len() implies !(#[trigger] rest[i]
                        is Failed) by {
                        assert(rest[i] == events[i + 1]);
                    }
                    lemma_process_resilient(rest);
                }
            },
        }
    }
}

} // verus!
