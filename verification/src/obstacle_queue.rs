use vstd::prelude::*;
use heapless::spsc::Queue;

verus! {

/// Number of slots in the backing ring buffer. A `heapless::spsc::Queue`
/// with `BUFF_SIZE` slots holds at most `BUFF_SIZE - 1` items.
pub const BUFF_SIZE: usize = 4;

/// The number of items the obstacle buffer can hold.
pub const QUEUE_CAPACITY: usize = BUFF_SIZE - 1;

/// A fixed-capacity FIFO of queued obstacles, each held as plain data: the
/// sprite kind index and the x coordinate of the obstacle's left edge.
/// Backed by `heapless::spsc::Queue`, which Verus does not read; the
/// functions below state what its methods do.
#[verifier::external_body]
pub struct ObstacleBuffer {
    queue: Queue<(u32, i32), 4>,
}

/// The items held by the buffer, front (next to leave) first.
pub uninterp spec fn buffer_contents(q: ObstacleBuffer) -> Seq<(u32, i32)>;

/// Relies on heapless::spsc::Queue::new: creates an empty queue.
#[verifier::external_body]
pub fn buffer_new() -> (q: ObstacleBuffer)
    ensures
        buffer_contents(q) == Seq::<(u32, i32)>::empty(),
{
    ObstacleBuffer { queue: Queue::new() }
}

/// Relies on heapless::spsc::Queue::enqueue: appends the item at the back,
/// or returns it (here: `false`) when all `QUEUE_CAPACITY` slots are taken.
#[verifier::external_body]
pub fn buffer_enqueue(q: &mut ObstacleBuffer, item: (u32, i32)) -> (ok: bool)
    ensures
        buffer_contents(*old(q)).len() < QUEUE_CAPACITY ==> ok && buffer_contents(*final(q))
            == buffer_contents(*old(q)).push(item),
        buffer_contents(*old(q)).len() >= QUEUE_CAPACITY ==> !ok && buffer_contents(*final(q))
            == buffer_contents(*old(q)),
{
    q.queue.enqueue(item).is_ok()
}

/// Relies on heapless::spsc::Queue::dequeue: removes and returns the front
/// item, or `None` when the queue is empty.
#[verifier::external_body]
pub fn buffer_dequeue(q: &mut ObstacleBuffer) -> (r: Option<(u32, i32)>)
    ensures
        buffer_contents(*old(q)).len() == 0 ==> r == None::<(u32, i32)> && buffer_contents(
            *final(q),
        ) == buffer_contents(*old(q)),
        buffer_contents(*old(q)).len() > 0 ==> r == Some(buffer_contents(*old(q))[0])
            && buffer_contents(*final(q)) == buffer_contents(*old(q)).drop_first(),
{
    q.queue.dequeue()
}

/// Relies on heapless::spsc::Queue::peek: the front item, not removed, or
/// `None` when the queue is empty.
#[verifier::external_body]
pub fn buffer_peek(q: &ObstacleBuffer) -> (r: Option<(u32, i32)>)
    ensures
        buffer_contents(*q).len() == 0 ==> r == None::<(u32, i32)>,
        buffer_contents(*q).len() > 0 ==> r == Some(buffer_contents(*q)[0]),
{
    q.queue.peek().copied()
}

/// Relies on heapless::spsc::Queue::iter: yields the items from the front
/// of the queue to the back.
#[verifier::external_body]
pub fn buffer_items(q: &ObstacleBuffer) -> (v: Vec<(u32, i32)>)
    ensures
        v@ == buffer_contents(*q),
{
    q.queue.iter().copied().collect()
}

} // verus!
