//! Feeding a process through a named pipe.
//!
//! The pipe is created before anything is started. A producer then writes
//! the payload into it, either at once or as chunks with a pause between
//! them, while the process under test reads the pipe as its only file
//! operand. Only the bytes that come out are judged, not their timing.

use crate::runner::{beats, Beat, Producer, ProducerStep};
use vstd::prelude::*;
use vstd::slice::slice_to_vec;

verus! {

/// The chunks, joined end to end in order.
pub open spec fn concatenated(chunks: Seq<Seq<u8>>) -> Seq<u8>
    decreases chunks.len(),
{
    if chunks.len() == 0 {
        Seq::empty()
    } else {
        concatenated(chunks.drop_last()) + chunks.last()
    }
}

/// The views of a list of buffers, in order.
pub open spec fn chunk_views(chunks: Seq<Vec<u8>>) -> Seq<Seq<u8>> {
    Seq::new(chunks.len(), |i: int| chunks[i]@)
}

/// The steps that deliver `chunks` in order: one write per chunk, and a
/// pause of `delay` milliseconds between each two writes and nowhere else.
pub open spec fn script(chunks: Seq<Seq<u8>>, delay: u64) -> Seq<Beat>
    decreases chunks.len(),
{
    if chunks.len() == 0 {
        Seq::empty()
    } else if chunks.len() == 1 {
        seq![Beat::Write(chunks[0])]
    } else {
        script(chunks.drop_last(), delay) + seq![Beat::Sleep(delay), Beat::Write(chunks.last())]
    }
}

/// Everything the steps write, in order.
pub open spec fn written(steps: Seq<Beat>) -> Seq<u8>
    decreases steps.len(),
{
    if steps.len() == 0 {
        Seq::empty()
    } else {
        written(steps.drop_last()) + match steps.last() {
            Beat::Write(bytes) => bytes,
            Beat::Sleep(_) => Seq::empty(),
        }
    }
}

/// The steps of a producer that delivers `chunks` in order, pausing for
/// `delay` milliseconds between chunks where there is more than one.
pub fn producer_script(chunks: &Vec<Vec<u8>>, delay: u64) -> (steps: Vec<ProducerStep>)
    ensures
        beats(steps@) == script(chunk_views(chunks@), delay),
{
    let ghost all = chunk_views(chunks@);
    let mut steps: Vec<ProducerStep> = Vec::new();
    let mut i: usize = 0;
    assert(all.take(0) =~= Seq::<Seq<u8>>::empty());
    assert(beats(steps@) =~= script(all.take(0), delay));
    while i < chunks.len()
        invariant
            i <= chunks.len(),
            all == chunk_views(chunks@),
            beats(steps@) == script(all.take(i as int), delay),
        decreases chunks.len() - i,
    {
        let ghost before = beats(steps@);
        if i > 0 {
            steps.push(ProducerStep::Sleep(delay));
        }
        steps.push(ProducerStep::Write(chunks[i].clone()));
        proof {
            let now = all.take(i + 1);
            assert(now.drop_last() =~= all.take(i as int));
            assert(now.last() == all[i as int]);
            if i > 0 {
                let tail = seq![Beat::Sleep(delay), Beat::Write(all[i as int])];
                assert(beats(steps@) =~= before + tail);
            } else {
                assert(now[0] == all[0]);
                assert(beats(steps@) =~= seq![Beat::Write(all[0])]);
            }
        }
        i += 1;
    }
    assert(all.take(chunks.len() as int) =~= all);
    steps
}

/// A producer that writes `data` into the pipe at `fifo` in one piece.
pub fn single_write(fifo: &str, data: &[u8]) -> (producer: Producer)
    ensures
        producer@.fifo == fifo@,
        producer@.beats == seq![Beat::Write(data@)],
{
    let mut chunks: Vec<Vec<u8>> = Vec::new();
    chunks.push(slice_to_vec(data));
    assert(chunk_views(chunks@) =~= seq![data@]);
    let steps = producer_script(&chunks, 0);
    Producer { fifo: fifo.to_owned(), steps }
}

/// A producer that writes `chunks` into the pipe at `fifo` one after the
/// other, pausing for `delay` milliseconds between them.
pub fn streaming(fifo: &str, chunks: &Vec<Vec<u8>>, delay: u64) -> (producer: Producer)
    ensures
        producer@.fifo == fifo@,
        producer@.beats == script(chunk_views(chunks@), delay),
{
    Producer { fifo: fifo.to_owned(), steps: producer_script(chunks, delay) }
}

/// What a faithful reader of the pipe passes on: the chunks in the order
/// in which they were written, joined end to end.
pub fn expected_stream(chunks: &Vec<Vec<u8>>) -> (bytes: Vec<u8>)
    ensures
        bytes@ == concatenated(chunk_views(chunks@)),
{
    let ghost all = chunk_views(chunks@);
    let mut bytes: Vec<u8> = Vec::new();
    let mut i: usize = 0;
    assert(all.take(0) =~= Seq::<Seq<u8>>::empty());
    while i < chunks.len()
        invariant
            i <= chunks.len(),
            all == chunk_views(chunks@),
            bytes@ == concatenated(all.take(i as int)),
        decreases chunks.len() - i,
    {
        let chunk = &chunks[i];
        let ghost before = bytes@;
        let mut j: usize = 0;
        while j < chunk.len()
            invariant
                j <= chunk.len(),
                bytes@ == before + chunk@.take(j as int),
            decreases chunk.len() - j,
        {
            bytes.push(chunk[j]);
            assert(chunk@.take(j + 1) =~= chunk@.take(j as int).push(chunk@[j as int]));
            j += 1;
        }
        proof {
            assert(chunk@.take(chunk.len() as int) =~= chunk@);
            assert(all.take(i + 1).drop_last() =~= all.take(i as int));
            assert(all.take(i + 1).last() == chunk@);
        }
        i += 1;
    }
    assert(all.take(chunks.len() as int) =~= all);
    bytes
}

/// Writing after some steps adds to what they wrote.
pub proof fn lemma_written_concat(a: Seq<Beat>, b: Seq<Beat>)
    ensures
        written(a + b) == written(a) + written(b),
    decreases b.len(),
{
    if b.len() == 0 {
        assert(a + b =~= a);
        assert(written(a) + written(b) =~= written(a));
    } else {
        assert((a + b).drop_last() =~= a + b.drop_last());
        assert((a + b).last() == b.last());
        lemma_written_concat(a, b.drop_last());
        assert(written(a + b) =~= written(a) + written(b));
    }
}

/// Whatever the number of chunks and the pause, what a script writes is
/// the chunks joined end to end in the order given.
pub proof fn lemma_script_writes_all(chunks: Seq<Seq<u8>>, delay: u64)
    ensures
        written(script(chunks, delay)) == concatenated(chunks),
    decreases chunks.len(),
{
    reveal_with_fuel(written, 3);
    reveal_with_fuel(concatenated, 2);
    if chunks.len() == 1 {
        let only = seq![Beat::Write(chunks[0])];
        assert(only.drop_last() =~= Seq::<Beat>::empty());
        assert(chunks.drop_last() =~= Seq::<Seq<u8>>::empty());
        assert(written(only) =~= chunks[0]);
        assert(concatenated(chunks) =~= chunks[0]);
    } else if chunks.len() >= 2 {
        let tail = seq![Beat::Sleep(delay), Beat::Write(chunks.last())];
        lemma_script_writes_all(chunks.drop_last(), delay);
        lemma_written_concat(script(chunks.drop_last(), delay), tail);
        assert(tail.drop_last() =~= seq![Beat::Sleep(delay)]);
        assert(tail.drop_last().drop_last() =~= Seq::<Beat>::empty());
        assert(written(tail) =~= chunks.last());
    }
}

/// Two writes separated by a pause: the producer writes the first chunk,
/// pauses, writes the second, and the reader is owed the first chunk
/// followed by the second.
pub proof fn lemma_two_writes(first: Seq<u8>, second: Seq<u8>, delay: u64)
    ensures
        script(seq![first, second], delay) == seq![
            Beat::Write(first),
            Beat::Sleep(delay),
            Beat::Write(second),
        ],
        written(script(seq![first, second], delay)) == first + second,
        concatenated(seq![first, second]) == first + second,
{
    reveal_with_fuel(script, 3);
    reveal_with_fuel(concatenated, 3);
    let chunks = seq![first, second];
    assert(chunks.drop_last() =~= seq![first]);
    assert(seq![first].drop_last() =~= Seq::<Seq<u8>>::empty());
    assert(script(chunks, delay) =~= seq![
        Beat::Write(first),
        Beat::Sleep(delay),
        Beat::Write(second),
    ]);
    assert(concatenated(chunks) =~= first + second);
    lemma_script_writes_all(chunks, delay);
}

} // verus!
