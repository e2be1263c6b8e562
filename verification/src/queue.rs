//! The play queue as saved between sessions.
use vstd::prelude::*;

use crate::models::Child;

verus! {

/// Persisted queue state.
#[derive(Debug, Clone, Default)]
pub struct QueuePersist {
    /// Play queue (songs)
    pub queue: Vec<Child>,
    /// Current position in queue
    pub queue_position: Option<usize>,
}

/// The queue row to select after restoring a saved queue of `len` songs
/// whose saved position is `position`: that position when it is in the
/// queue, the last song when it lies beyond, the first song when there is
/// none; nothing for an empty queue (which is not restored).
pub open spec fn restored_row(position: Option<usize>, len: nat) -> Option<usize> {
    if len == 0 {
        None
    } else {
        match position {
            Some(pos) => if pos < len {
                Some(pos)
            } else {
                Some((len - 1) as usize)
            },
            None => Some(0usize),
        }
    }
}

impl QueuePersist {
    /// The queue selection to restore with this saved queue.
    pub fn restored_selection(&self) -> (r: Option<usize>)
        ensures
            r == restored_row(self.queue_position, self.queue@.len()),
            r matches Some(i) ==> i < self.queue@.len(),
    {
        let len = self.queue.len();
        if len == 0 {
            return None;
        }
        match self.queue_position {
            Some(pos) => if pos < len {
                Some(pos)
            } else {
                Some(len - 1)
            },
            None => Some(0),
        }
    }
}

/// The song at the queue position, if the position lies in the queue.
pub fn song_at(queue: &Vec<Child>, position: Option<usize>) -> (r: Option<&Child>)
    ensures
        r == match position {
            Some(p) => if p < queue@.len() {
                Some(&queue@[p as int])
            } else {
                None
            },
            None => None,
        },
{
    match position {
        Some(p) => if p < queue.len() {
            Some(&queue[p])
        } else {
            None
        },
        None => None,
    }
}

} // verus!
