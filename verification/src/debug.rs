//! A short log of debug strings that keeps the latest and drops the oldest.
use crate::protocol::texts_of;
use circular_buffer::CircularBuffer;
use vstd::prelude::*;

verus! {

/// The number of strings that a [`DebugLog`] keeps.
pub const DEBUG_LOG_CAPACITY: usize = 10;

#[verifier::external_type_specification]
#[verifier::external_body]
#[verifier::reject_recursive_types(T)]
pub struct ExCircularBuffer<const N: usize, T>(CircularBuffer<N, T>);

/// The texts of the strings that a buffer holds, from its front to its back.
pub uninterp spec fn buffer_texts(buffer: CircularBuffer<10, String>) -> Seq<Seq<char>>;

/// The last `count` items of `items`, or all of them where they are fewer.
pub open spec fn latest<A>(items: Seq<A>, count: nat) -> Seq<A> {
    if items.len() <= count {
        items
    } else {
        items.subrange(items.len() - count, items.len() as int)
    }
}

/// An empty buffer, by `CircularBuffer::new`.
#[verifier::external_body]
fn buffer_new() -> (buffer: CircularBuffer<10, String>)
    ensures
        buffer_texts(buffer) == Seq::<Seq<char>>::empty(),
{
    CircularBuffer::new()
}

/// `CircularBuffer::push_back`: the string goes to the back of the buffer. A
/// buffer that holds fewer than ten strings keeps them all; a full one drops
/// the string at its front. The call does not panic.
#[verifier::external_body]
fn buffer_push_back(buffer: &mut CircularBuffer<10, String>, text: String)
    ensures
        buffer_texts(*final(buffer)) == if buffer_texts(*old(buffer)).len() < 10 {
            buffer_texts(*old(buffer)).push(text@)
        } else {
            buffer_texts(*old(buffer)).drop_first().push(text@)
        },
    no_unwind
{
    buffer.push_back(text);
}

/// `CircularBuffer::clear`: the buffer holds nothing after it. The call does
/// not panic.
#[verifier::external_body]
fn buffer_clear(buffer: &mut CircularBuffer<10, String>)
    ensures
        buffer_texts(*final(buffer)) == Seq::<Seq<char>>::empty(),
    no_unwind
{
    buffer.clear();
}

/// Copies of the strings of the buffer, from its front to its back, by
/// `CircularBuffer::iter`.
#[verifier::external_body]
fn buffer_strings(buffer: &CircularBuffer<10, String>) -> (strings: Vec<String>)
    ensures
        texts_of(strings@) == buffer_texts(*buffer),
{
    buffer.iter().cloned().collect()
}

/// A log of debug strings that holds the latest [`DEBUG_LOG_CAPACITY`] of them.
pub struct DebugLog {
    buffer: CircularBuffer<10, String>,
}

impl View for DebugLog {
    type V = Seq<Seq<char>>;

    closed spec fn view(&self) -> Seq<Seq<char>> {
        buffer_texts(self.buffer)
    }
}

impl DebugLog {
    #[verifier::type_invariant]
    spec fn within_capacity(self) -> bool {
        buffer_texts(self.buffer).len() <= 10
    }

    /// An empty log.
    pub fn new() -> (log: DebugLog)
        ensures
            log@ == Seq::<Seq<char>>::empty(),
    {
        DebugLog { buffer: buffer_new() }
    }
}

/// Adds a string to the log. Where the log is full, its oldest string leaves.
pub fn debug_string(log: &mut DebugLog, s: String)
    ensures
        final(log)@ == latest(old(log)@.push(s@), DEBUG_LOG_CAPACITY as nat),
{
    proof {
        use_type_invariant(&*log);
    }
    buffer_push_back(&mut log.buffer, s);
    assert(log@ =~= latest(old(log)@.push(s@), DEBUG_LOG_CAPACITY as nat));
}

/// Copies of the strings of the log, the oldest first. They are never more
/// than [`DEBUG_LOG_CAPACITY`].
pub fn get_debug_strings(log: &DebugLog) -> (strings: Vec<String>)
    ensures
        texts_of(strings@) == log@,
        strings@.len() <= DEBUG_LOG_CAPACITY,
{
    proof {
        use_type_invariant(log);
    }
    buffer_strings(&log.buffer)
}

/// Empties the log.
pub fn clear_debug_strings(log: &mut DebugLog)
    ensures
        final(log)@ == Seq::<Seq<char>>::empty(),
{
    buffer_clear(&mut log.buffer);
}

/// What the log holds after the strings of `added` went into it one by one.
pub open spec fn logged(before: Seq<Seq<char>>, added: Seq<Seq<char>>) -> Seq<Seq<char>>
    decreases added.len(),
{
    if added.len() == 0 {
        before
    } else {
        latest(logged(before, added.drop_last()).push(added.last()), DEBUG_LOG_CAPACITY as nat)
    }
}

/// The log forgets nothing but the oldest: after any number of strings went
/// into a log, it holds the latest ten of all that it held and all that went
/// in, in their order.
pub proof fn law_log_holds_the_latest(before: Seq<Seq<char>>, added: Seq<Seq<char>>)
    requires
        before.len() <= DEBUG_LOG_CAPACITY,
    ensures
        logged(before, added) == latest(before + added, DEBUG_LOG_CAPACITY as nat),
    decreases added.len(),
{
    if added.len() == 0 {
        assert(before + added =~= before);
    } else {
        law_log_holds_the_latest(before, added.drop_last());
        let all = before + added;
        let earlier = before + added.drop_last();
        assert(all =~= earlier.push(added.last()));
        assert(latest(latest(earlier, 10).push(added.last()), 10) =~= latest(all, 10));
    }
}

} // verus!
