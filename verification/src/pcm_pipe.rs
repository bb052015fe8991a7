//! The bounded queue between capture and sender. A full queue drops its oldest
//! chunk, so that the sender always gets the latest audio.

use crossbeam_queue::ArrayQueue;
use vstd::prelude::*;

verus! {

/// Most chunks that wait for the sender.
pub const PCM_QUEUE_CAPACITY: usize = 32;

/// One piece of captured stereo audio, interleaved.
pub enum AudioChunk {
    /// 16-bit samples.
    I16(Vec<i16>),
    /// Samples in single precision, each as its IEEE 754 bit pattern.
    F32(Vec<u32>),
}

/// The samples of a chunk.
pub enum ChunkView {
    I16(Seq<i16>),
    F32(Seq<u32>),
}

impl View for AudioChunk {
    type V = ChunkView;

    open spec fn view(&self) -> ChunkView {
        match self {
            AudioChunk::I16(samples) => ChunkView::I16(samples@),
            AudioChunk::F32(samples) => ChunkView::F32(samples@),
        }
    }
}

/// `crossbeam_queue::ArrayQueue`, a bounded queue.
#[verifier::external_type_specification]
#[verifier::external_body]
#[verifier::reject_recursive_types(T)]
pub struct ExArrayQueue<T>(ArrayQueue<T>);

/// The chunks in a queue, oldest first.
pub uninterp spec fn queue_contents(queue: ArrayQueue<AudioChunk>) -> Seq<AudioChunk>;

/// How many chunks a queue was made for.
pub uninterp spec fn queue_capacity(queue: ArrayQueue<AudioChunk>) -> nat;

/// `ArrayQueue::new`: an empty queue of the given capacity. It panics on a
/// capacity of zero and on one that is too large.
#[verifier::external_body]
fn queue_new(capacity: usize) -> (r: ArrayQueue<AudioChunk>)
    requires
        0 < capacity <= 0x1_0000,
    ensures
        queue_contents(r) == Seq::<AudioChunk>::empty(),
        queue_capacity(r) == capacity,
{
    ArrayQueue::new(capacity)
}

/// `ArrayQueue::push` while nobody else uses the queue: the chunk goes to the
/// end, or comes back unchanged where the queue is full.
#[verifier::external_body]
fn queue_push(queue: &mut ArrayQueue<AudioChunk>, chunk: AudioChunk) -> (r: Result<
    (),
    AudioChunk,
>)
    ensures
        queue_capacity(*final(queue)) == queue_capacity(*old(queue)),
        if queue_contents(*old(queue)).len() < queue_capacity(*old(queue)) {
            &&& r == Ok::<(), AudioChunk>(())
            &&& queue_contents(*final(queue)) == queue_contents(*old(queue)).push(chunk)
        } else {
            &&& r == Err::<(), AudioChunk>(chunk)
            &&& queue_contents(*final(queue)) == queue_contents(*old(queue))
        },
{
    queue.push(chunk)
}

/// `ArrayQueue::pop` while nobody else uses the queue: the oldest chunk leaves,
/// none where the queue is empty.
#[verifier::external_body]
fn queue_pop(queue: &mut ArrayQueue<AudioChunk>) -> (r: Option<AudioChunk>)
    ensures
        queue_capacity(*final(queue)) == queue_capacity(*old(queue)),
        if queue_contents(*old(queue)).len() == 0 {
            &&& r == None::<AudioChunk>
            &&& queue_contents(*final(queue)) == queue_contents(*old(queue))
        } else {
            &&& r == Some(queue_contents(*old(queue))[0])
            &&& queue_contents(*final(queue)) == queue_contents(*old(queue)).drop_first()
        },
{
    queue.pop()
}

/// The last `limit` elements of `chunks`.
pub open spec fn latest<T>(chunks: Seq<T>, limit: nat) -> Seq<T> {
    if chunks.len() <= limit {
        chunks
    } else {
        chunks.skip(chunks.len() - limit)
    }
}

/// The oldest element, where there is one, and what then waits.
pub open spec fn after_receive<T>(chunks: Seq<T>) -> (Option<T>, Seq<T>) {
    if chunks.len() > 0 {
        (Some(chunks[0]), chunks.drop_first())
    } else {
        (None, chunks)
    }
}

/// The queue, and whether capture still runs.
pub struct PcmPipe {
    queue: ArrayQueue<AudioChunk>,
    producer_alive: bool,
}

/// What the sender finds when it looks into the pipe.
pub enum PipePoll {
    /// The oldest chunk.
    Chunk(AudioChunk),
    /// Nothing now; wait to be woken.
    Empty,
    /// Nothing now or later.
    Closed,
}

impl PcmPipe {
    /// The waiting chunks, oldest first.
    pub closed spec fn chunks(self) -> Seq<AudioChunk> {
        queue_contents(self.queue)
    }

    /// The samples of the waiting chunks, oldest first.
    pub open spec fn contents(self) -> Seq<ChunkView> {
        self.chunks().map_values(|chunk: AudioChunk| chunk@)
    }

    pub closed spec fn alive(self) -> bool {
        self.producer_alive
    }

    pub closed spec fn wf(self) -> bool {
        &&& queue_capacity(self.queue) == PCM_QUEUE_CAPACITY
        &&& self.chunks().len() <= PCM_QUEUE_CAPACITY
    }

    /// An empty pipe with a running producer.
    pub fn new() -> (r: PcmPipe)
        ensures
            r.wf(),
            r.chunks() == Seq::<AudioChunk>::empty(),
            r.alive(),
    {
        PcmPipe { queue: queue_new(PCM_QUEUE_CAPACITY), producer_alive: true }
    }

    /// The producer has ended. What waits can still be taken.
    pub fn close(&mut self)
        requires
            old(self).wf(),
        ensures
            final(self).wf(),
            final(self).chunks() == old(self).chunks(),
            !final(self).alive(),
    {
        self.producer_alive = false;
    }

    /// Takes the oldest chunk. The pipe counts as closed only once it is empty.
    pub fn recv_pcm(&mut self) -> (r: PipePoll)
        requires
            old(self).wf(),
        ensures
            final(self).wf(),
            final(self).alive() == old(self).alive(),
            if old(self).chunks().len() > 0 {
                &&& r == PipePoll::Chunk(old(self).chunks()[0])
                &&& final(self).chunks() == old(self).chunks().drop_first()
            } else {
                &&& r == (if old(self).alive() {
                    PipePoll::Empty
                } else {
                    PipePoll::Closed
                })
                &&& final(self).chunks() == old(self).chunks()
            },
            final(self).chunks() == after_receive(old(self).chunks()).1,
            after_receive(old(self).chunks()).0 == match r {
                PipePoll::Chunk(chunk) => Some(chunk),
                _ => None,
            },
    {
        match queue_pop(&mut self.queue) {
            Some(chunk) => PipePoll::Chunk(chunk),
            None => if self.producer_alive {
                PipePoll::Empty
            } else {
                PipePoll::Closed
            },
        }
    }
}

/// Puts `chunk` at the end of the pipe; the oldest chunk makes room where it is full.
pub fn push_latest_pcm(pipe: &mut PcmPipe, chunk: AudioChunk)
    requires
        old(pipe).wf(),
    ensures
        final(pipe).wf(),
        final(pipe).alive() == old(pipe).alive(),
        final(pipe).chunks() == latest(
            old(pipe).chunks().push(chunk),
            PCM_QUEUE_CAPACITY as nat,
        ),
{
    let ghost given = chunk;
    let ghost all = pipe.chunks().push(given);
    let mut waiting: AudioChunk = chunk;
    loop
        invariant
            pipe.wf(),
            pipe.alive() == old(pipe).alive(),
            waiting == given,
            given == chunk,
            all == old(pipe).chunks().push(given),
            latest(pipe.chunks().push(given), PCM_QUEUE_CAPACITY as nat) == latest(
                all,
                PCM_QUEUE_CAPACITY as nat,
            ),
        decreases pipe.chunks().len(),
    {
        let ghost before = pipe.chunks();
        match queue_push(&mut pipe.queue, waiting) {
            Ok(()) => {
                return ;
            },
            Err(returned) => {
                waiting = returned;
                let _ = queue_pop(&mut pipe.queue);
                assert(latest(pipe.chunks().push(given), PCM_QUEUE_CAPACITY as nat) =~= latest(
                    before.push(given),
                    PCM_QUEUE_CAPACITY as nat,
                ));
            },
        }
    }
}

/// The pipe after `pushed` was put into it, chunk by chunk, from `start`.
pub open spec fn after_pushes<T>(start: Seq<T>, pushed: Seq<T>, limit: nat) -> Seq<T>
    decreases pushed.len(),
{
    if pushed.len() == 0 {
        start
    } else {
        latest(after_pushes(start, pushed.drop_last(), limit).push(pushed.last()), limit)
    }
}

/// Whatever is pushed while the sender does not read, the pipe holds the latest
/// chunks of all that went in, in their order.
pub proof fn pipe_keeps_latest<T>(start: Seq<T>, pushed: Seq<T>, limit: nat)
    requires
        start.len() <= limit,
        limit > 0,
    ensures
        after_pushes(start, pushed, limit) == latest(start + pushed, limit),
    decreases pushed.len(),
{
    if pushed.len() == 0 {
        assert(start + pushed =~= start);
    } else {
        let init = pushed.drop_last();
        pipe_keeps_latest(start, init, limit);
        assert(latest(latest(start + init, limit).push(pushed.last()), limit) =~= latest(
            start + pushed,
            limit,
        ));
    }
}

} // verus!
