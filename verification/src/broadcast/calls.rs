//! What each call on a medium comes to, said of its arguments and its answer
//! alone, and how one call bears on the next.
//!
//! `call_ensures(f, (a, b), r)` is read "`f`, called with `a` and `b`,
//! answered `r`". A medium behind a `&mut` is `old` before the call and
//! `final` after it.

use super::{pause, Medium, Node, Reception, TransmitError, POLL};
use vstd::prelude::*;

verus! {

/// A new medium has the name it was given and no node; it has carried nothing
/// and is told to lose nothing.
pub proof fn a_new_medium_is_empty<F: Clone + Send>(name: &str, medium: Medium<F>)
    requires
        call_ensures(Medium::<F>::new, (name,), medium),
    ensures
        medium@.name == name@,
        medium@.inboxes.len() == 0,
        medium@.lose_every is None,
        medium@.carried == 0,
        medium@.wf(),
{
}

/// A node that joins gets the place after all others and the medium's name,
/// with nothing to read; nothing else about the medium changes.
pub proof fn a_node_joins_behind_the_others<F: Clone + Send>(
    medium: &mut Medium<F>,
    node: Node<F>,
)
    requires
        call_ensures(Medium::<F>::node, (medium,), node),
    ensures
        node@.index == old(medium)@.inboxes.len(),
        node@.name == old(medium)@.name,
        final(medium)@.inboxes.len() == old(medium)@.inboxes.len() + 1,
        final(medium)@.inboxes[node@.index as int].len() == 0,
        forall|other: int|
            0 <= other < old(medium)@.inboxes.len() ==> #[trigger] final(medium)@.inboxes[other]
                == old(medium)@.inboxes[other],
        final(medium)@.name == old(medium)@.name,
        final(medium)@.lose_every == old(medium)@.lose_every,
        final(medium)@.carried == old(medium)@.carried,
{
}

/// A node's name is the name of the medium that made it.
pub proof fn a_node_is_called_as_its_medium<F: Clone + Send>(
    medium: &mut Medium<F>,
    node: Node<F>,
    name: &str,
)
    requires
        call_ensures(Medium::<F>::node, (medium,), node),
        call_ensures(Node::<F>::name, (&node,), name),
    ensures
        name@ == old(medium)@.name,
{
}

/// A medium told to lose every `every`th frame is told just that, every frame
/// where `every` is zero, and nothing else about it changes: neither what its
/// nodes have to read nor the count of what it carried.
pub proof fn a_medium_is_told_what_to_lose<F: Clone + Send>(medium: &mut Medium<F>, every: u32)
    requires
        call_ensures(Medium::<F>::lose_every, (medium, every), ()),
    ensures
        every >= 1 ==> final(medium)@.lose_every == Some(every),
        every == 0 ==> final(medium)@.lose_every == Some(1u32),
        final(medium)@.inboxes == old(medium)@.inboxes,
        final(medium)@.name == old(medium)@.name,
        final(medium)@.carried == old(medium)@.carried,
{
}

/// Of a medium told to lose every `every`th frame, the next frame is lost
/// exactly when its place in all the medium ever carried is a multiple of that
/// same `every`.
pub proof fn a_medium_loses_what_it_was_told_to<F: Clone + Send>(
    told: &mut Medium<F>,
    every: u32,
    node: &Node<F>,
    medium: &mut Medium<F>,
    frame: &F,
    answer: Result<(), TransmitError>,
)
    requires
        every >= 1,
        call_ensures(Medium::<F>::lose_every, (told, every), ()),
        *old(medium) == *final(told),
        call_ensures(Node::<F>::transmit, (node, medium, frame), answer),
    ensures
        answer == Err::<(), _>(TransmitError::Lost) <==> (old(told)@.carried + 1) % (every as nat)
            == 0,
{
}

/// Of a medium that has lose-every set to `every`, the next frame is refused
/// as lost exactly when its place in all the medium ever carried is a multiple
/// of `every`, and otherwise as unheard exactly when its sender is alone.
pub proof fn a_refusal_has_its_reason<F: Clone + Send>(
    node: &Node<F>,
    medium: &mut Medium<F>,
    frame: &F,
    answer: Result<(), TransmitError>,
    every: u32,
)
    requires
        call_ensures(Node::<F>::transmit, (node, medium, frame), answer),
        node@.index < old(medium)@.inboxes.len(),
        old(medium)@.lose_every == Some(every),
        every >= 1,
    ensures
        answer == Err::<(), _>(TransmitError::Lost) <==> (old(medium)@.carried + 1) % (
        every as nat) == 0,
        answer == Err::<(), _>(TransmitError::Unheard) <==> (old(medium)@.carried + 1) % (
        every as nat) != 0 && old(medium)@.inboxes.len() == 1,
        answer is Ok <==> (old(medium)@.carried + 1) % (every as nat) != 0
            && old(medium)@.inboxes.len() >= 2,
{
}

/// A medium that was never told to lose frames loses none: a frame is refused
/// only where its sender is alone.
pub proof fn a_medium_told_nothing_loses_nothing<F: Clone + Send>(
    node: &Node<F>,
    medium: &mut Medium<F>,
    frame: &F,
    answer: Result<(), TransmitError>,
)
    requires
        call_ensures(Node::<F>::transmit, (node, medium, frame), answer),
        node@.index < old(medium)@.inboxes.len(),
        old(medium)@.lose_every is None,
    ensures
        old(medium)@.inboxes.len() >= 2 ==> answer is Ok,
        old(medium)@.inboxes.len() == 1 ==> answer == Err::<(), _>(TransmitError::Unheard),
        final(medium)@.lose_every is None,
{
}

/// An acknowledged frame is heard by every other node: behind all it had yet
/// to read each holds one frame more, a copy of the one sent.
pub proof fn every_other_node_hears_a_copy<F: Clone + Send>(
    node: &Node<F>,
    medium: &mut Medium<F>,
    frame: &F,
    answer: Result<(), TransmitError>,
    other: int,
)
    requires
        call_ensures(Node::<F>::transmit, (node, medium, frame), answer),
        node@.index < old(medium)@.inboxes.len(),
        0 <= other < old(medium)@.inboxes.len(),
        other != node@.index,
        answer is Ok,
    ensures
        final(medium)@.inboxes[other].len() == old(medium)@.inboxes[other].len() + 1,
        forall|k: int|
            0 <= k < old(medium)@.inboxes[other].len()
                ==> #[trigger] final(medium)@.inboxes[other][k] == old(medium)@.inboxes[other][k],
        vstd::pervasive::strictly_cloned(
            *frame,
            final(medium)@.inboxes[other][old(medium)@.inboxes[other].len() as int],
        ),
{
    let before = old(medium)@.inboxes[other];
    let after = final(medium)@.inboxes[other];
    assert(super::heard_one(before, after, *frame));
    assert forall|k: int| 0 <= k < before.len() implies #[trigger] after[k] == before[k] by {
        assert(after.drop_last()[k] == after[k]);
    }
}

/// A refused frame is heard by nobody, and the sender never hears its own.
/// Whatever the answer, one frame more has been carried, no node comes or
/// goes, and the medium stays what it was called and told.
pub proof fn nobody_else_hears_anything<F: Clone + Send>(
    node: &Node<F>,
    medium: &mut Medium<F>,
    frame: &F,
    answer: Result<(), TransmitError>,
)
    requires
        call_ensures(Node::<F>::transmit, (node, medium, frame), answer),
        node@.index < old(medium)@.inboxes.len(),
    ensures
        answer is Err ==> final(medium)@.inboxes == old(medium)@.inboxes,
        final(medium)@.inboxes[node@.index as int] == old(medium)@.inboxes[node@.index as int],
        final(medium)@.inboxes.len() == old(medium)@.inboxes.len(),
        final(medium)@.carried == old(medium)@.carried + 1,
        final(medium)@.lose_every == old(medium)@.lose_every,
        final(medium)@.name == old(medium)@.name,
{
}

/// Whatever a refusal says, the sender may try again.
pub proof fn every_refusal_may_be_retried(refused: TransmitError, retry: bool)
    requires
        call_ensures(TransmitError::retryable, (&refused,), retry),
    ensures
        retry,
{
}

/// What the sender is told says which refusal it is.
pub proof fn refusals_are_told_apart(
    lost: &'static str,
    unheard: &'static str,
)
    requires
        call_ensures(TransmitError::message, (&TransmitError::Lost,), lost),
        call_ensures(TransmitError::message, (&TransmitError::Unheard,), unheard),
    ensures
        lost@ == "the frame was lost on the medium"@,
        unheard@ == "no other node acknowledged the frame"@,
        lost@ != unheard@,
{
    reveal_strlit("the frame was lost on the medium");
    reveal_strlit("no other node acknowledged the frame");
    assert(lost@.len() != unheard@.len());
}

/// The count answered moves by one with every frame sent, lost or not.
pub proof fn the_count_moves_with_every_frame<F: Clone + Send>(
    before: u32,
    node: &Node<F>,
    medium: &mut Medium<F>,
    frame: &F,
    answer: Result<(), TransmitError>,
    after: u32,
)
    requires
        call_ensures(Medium::<F>::carried, (&*old(medium),), before),
        call_ensures(Node::<F>::transmit, (node, medium, frame), answer),
        node@.index < old(medium)@.inboxes.len(),
        call_ensures(Medium::<F>::carried, (&*final(medium),), after),
    ensures
        after == before + 1,
{
}

/// A node that looks while something has arrived reads the oldest arrival,
/// however late it is, and keeps the rest in order.
pub proof fn a_node_reads_its_oldest_arrival<F: Clone + Send>(
    node: &Node<F>,
    medium: &mut Medium<F>,
    elapsed: u128,
    timeout: u128,
    reception: Reception<F>,
)
    requires
        call_ensures(Node::<F>::receive, (node, medium, elapsed, timeout), reception),
        node@.index < old(medium)@.inboxes.len(),
        old(medium)@.inboxes[node@.index as int].len() > 0,
    ensures
        reception == Reception::Done(Some(old(medium)@.inboxes[node@.index as int][0])),
        final(medium)@.inboxes[node@.index as int].len() + 1
            == old(medium)@.inboxes[node@.index as int].len(),
        forall|k: int|
            0 <= k < final(medium)@.inboxes[node@.index as int].len()
                ==> #[trigger] final(medium)@.inboxes[node@.index as int][k]
                == old(medium)@.inboxes[node@.index as int][k + 1],
{
}

/// A node that looks while nothing has arrived waits exactly while time is
/// left, and otherwise comes away with nothing.
pub proof fn a_node_waits_while_time_is_left<F: Clone + Send>(
    node: &Node<F>,
    medium: &mut Medium<F>,
    elapsed: u128,
    timeout: u128,
    reception: Reception<F>,
)
    requires
        call_ensures(Node::<F>::receive, (node, medium, elapsed, timeout), reception),
        node@.index < old(medium)@.inboxes.len(),
        old(medium)@.inboxes[node@.index as int].len() == 0,
    ensures
        elapsed < timeout ==> reception is Wait,
        elapsed >= timeout ==> reception == Reception::Done(None::<F>),
        final(medium)@ == old(medium)@,
{
}

/// A look changes nothing but what the looking node has yet to read.
pub proof fn a_look_leaves_the_others_alone<F: Clone + Send>(
    node: &Node<F>,
    medium: &mut Medium<F>,
    elapsed: u128,
    timeout: u128,
    reception: Reception<F>,
    other: int,
)
    requires
        call_ensures(Node::<F>::receive, (node, medium, elapsed, timeout), reception),
        node@.index < old(medium)@.inboxes.len(),
        0 <= other < old(medium)@.inboxes.len(),
        other != node@.index,
    ensures
        final(medium)@.inboxes[other] == old(medium)@.inboxes[other],
        final(medium)@.inboxes.len() == old(medium)@.inboxes.len(),
        final(medium)@.carried == old(medium)@.carried,
        final(medium)@.lose_every == old(medium)@.lose_every,
        final(medium)@.name == old(medium)@.name,
{
}

/// A frame that was acknowledged is what a node with nothing else to read
/// reads next, and then it has nothing to read again.
pub proof fn a_frame_sent_is_the_frame_read<F: Clone + Send>(
    sender: &Node<F>,
    sending: &mut Medium<F>,
    frame: &F,
    answer: Result<(), TransmitError>,
    reader: &Node<F>,
    reading: &mut Medium<F>,
    elapsed: u128,
    timeout: u128,
    reception: Reception<F>,
)
    requires
        call_ensures(Node::<F>::transmit, (sender, sending, frame), answer),
        answer is Ok,
        *old(reading) == *final(sending),
        call_ensures(Node::<F>::receive, (reader, reading, elapsed, timeout), reception),
        sender@.index < old(sending)@.inboxes.len(),
        reader@.index < old(sending)@.inboxes.len(),
        sender@.index != reader@.index,
        old(sending)@.inboxes[reader@.index as int].len() == 0,
    ensures
        reception matches Reception::Done(Some(copy)) && vstd::pervasive::strictly_cloned(
            *frame,
            copy,
        ),
        final(reading)@.inboxes[reader@.index as int].len() == 0,
{
    let before = old(sending)@.inboxes[reader@.index as int];
    let after = final(sending)@.inboxes[reader@.index as int];
    assert(super::heard_one(before, after, *frame));
}

/// A pause is none once the wait is over. While time is left it is some, at
/// most a poll and never past the end of the wait, and either it is a whole
/// poll or it ends the wait. A poll is a thousandth of a second.
pub proof fn a_pause_is_a_poll_or_ends_the_wait(elapsed: u128, timeout: u128, nanoseconds: u64)
    requires
        call_ensures(pause, (elapsed, timeout), nanoseconds),
    ensures
        elapsed >= timeout ==> nanoseconds == 0,
        elapsed < timeout ==> {
            &&& 0 < nanoseconds <= POLL
            &&& elapsed + nanoseconds <= timeout
            &&& nanoseconds == POLL || elapsed + nanoseconds == timeout
        },
        1000 * POLL == 1_000_000_000,
{
}

} // verus!
