//! What holds of a broadcast medium over more than one call.

use super::{Air, Station, TransmitError, POLL};
use vstd::prelude::*;

verus! {

/// The medium once it has carried `count` more frames.
pub open spec fn carrying<F>(air: Air<F>, count: nat) -> Air<F> {
    Air { carried: air.carried + count, ..air }
}

/// One thing that happens on a medium.
pub enum Event<F> {
    /// The node at `from` sends `frame`.
    Sent { from: int, frame: F },
    /// The node at `index` looks at its arrivals.
    Read { index: int },
    /// Another node joins.
    Joined,
    /// The medium is told to lose every `every`th frame.
    Losing { every: u32 },
}

/// `after` is `before` once `event` has happened.
pub open spec fn happened<F: Clone>(before: Air<F>, after: Air<F>, event: Event<F>) -> bool {
    match event {
        Event::Sent { from, frame } => {
            &&& 0 <= from < before.inboxes.len()
            &&& super::transmitted(before, after, from, frame)
        },
        Event::Read { index } => {
            &&& 0 <= index < before.inboxes.len()
            &&& after == before.taken(index)
        },
        Event::Joined => after == before.joined(),
        Event::Losing { every } => after == before.losing(every),
    }
}

/// `states` are the states a medium goes through while `events` happen one
/// after another.
pub open spec fn course<F: Clone>(states: Seq<Air<F>>, events: Seq<Event<F>>) -> bool {
    &&& states.len() == events.len() + 1
    &&& forall|step: int|
        0 <= step < events.len() ==> happened(
            states[step],
            states[step + 1],
            #[trigger] events[step],
        )
}

/// The frames of the first `count` events that the node at `index` is owed:
/// those that were acknowledged and that it did not send itself.
pub open spec fn owed<F: Clone>(
    states: Seq<Air<F>>,
    events: Seq<Event<F>>,
    index: int,
    count: nat,
) -> Seq<F>
    decreases count,
{
    if count == 0 {
        Seq::empty()
    } else {
        let earlier = owed(states, events, index, (count - 1) as nat);
        match events[count - 1] {
            Event::Sent { from, frame } => if states[count - 1].acknowledgement() is Ok && from
                != index {
                earlier.push(frame)
            } else {
                earlier
            },
            _ => earlier,
        }
    }
}

/// The frames the node at `index` reads in the first `count` events.
pub open spec fn read<F: Clone>(
    states: Seq<Air<F>>,
    events: Seq<Event<F>>,
    index: int,
    count: nat,
) -> Seq<F>
    decreases count,
{
    if count == 0 {
        Seq::empty()
    } else {
        let earlier = read(states, events, index, (count - 1) as nat);
        match events[count - 1] {
            Event::Read { index: reader } => match states[count - 1].next_for(reader) {
                Some(frame) => if reader == index {
                    earlier.push(frame)
                } else {
                    earlier
                },
                None => earlier,
            },
            _ => earlier,
        }
    }
}

/// How many frames are sent in the first `count` events.
pub open spec fn sends<F>(events: Seq<Event<F>>, count: nat) -> nat
    decreases count,
{
    if count == 0 {
        0
    } else {
        sends(events, (count - 1) as nat) + if events[count - 1] is Sent {
            1nat
        } else {
            0nat
        }
    }
}

/// A frame that is acknowledged is the frame a waiting listener reads next,
/// and reading it leaves the listener where it was before the frame was sent.
pub proof fn what_is_sent_is_received<F: Clone>(
    before: Air<F>,
    after: Air<F>,
    from: int,
    to: int,
    frame: F,
)
    requires
        0 <= from < before.inboxes.len(),
        0 <= to < before.inboxes.len(),
        from != to,
        before.acknowledgement() is Ok,
        super::transmitted(before, after, from, frame),
        before.next_for(to) is None,
    ensures
        after.next_for(to) matches Some(copy) && vstd::pervasive::strictly_cloned(frame, copy),
        after.taken(to).inboxes[to] == before.inboxes[to],
{
    assert(super::heard_one(before.inboxes[to], after.inboxes[to], frame));
    assert(after.inboxes[to].drop_first() =~= before.inboxes[to]);
}

/// No node hears its own frames, whatever became of them.
pub proof fn no_node_hears_itself<F: Clone>(before: Air<F>, after: Air<F>, from: int, frame: F)
    requires
        0 <= from < before.inboxes.len(),
        super::transmitted(before, after, from, frame),
    ensures
        after.inboxes[from] == before.inboxes[from],
        after.next_for(from) == before.next_for(from),
{
}

/// A frame the sender is told was not acknowledged was heard by nobody.
pub proof fn what_is_refused_is_heard_by_nobody<F: Clone>(
    before: Air<F>,
    after: Air<F>,
    from: int,
    frame: F,
)
    requires
        super::transmitted(before, after, from, frame),
        before.acknowledgement() is Err,
    ensures
        after.inboxes == before.inboxes,
{
}

/// A frame is acknowledged exactly when the medium does not lose it and some
/// node other than its sender is attached; a sender alone is never
/// acknowledged.
pub proof fn acknowledged_when_somebody_else_is_there<F>(air: Air<F>, from: int)
    requires
        0 <= from < air.inboxes.len(),
    ensures
        air.acknowledgement() is Ok <==> !air.loses_next() && exists|other: int|
            #![trigger air.inboxes[other]]
            0 <= other < air.inboxes.len() && other != from,
        air.inboxes.len() == 1 ==> air.acknowledgement() is Err,
{
    if air.inboxes.len() >= 2 {
        let other: int = if from == 0 {
            1
        } else {
            0
        };
        let inbox = air.inboxes[other];
        assert(0 <= other < air.inboxes.len() && other != from);
    }
}

/// Whatever happens on the medium and in whatever order, what a node has read
/// and what it has yet to read are together what it had at first, then a copy
/// of each frame another node sent and the medium carried, in the order they
/// were sent: nothing else, nothing twice and nothing left out.
pub proof fn a_node_reads_what_the_others_sent_in_order<F: Clone>(
    states: Seq<Air<F>>,
    events: Seq<Event<F>>,
    index: int,
    count: nat,
)
    requires
        course(states, events),
        0 <= index < states[0].inboxes.len(),
        count <= events.len(),
    ensures
        ({
            let first = states[0].inboxes[index];
            let owed = owed(states, events, index, count);
            let all = read(states, events, index, count) + states[count as int].inboxes[index];
            &&& states[0].inboxes.len() <= states[count as int].inboxes.len()
            &&& all.len() == first.len() + owed.len()
            &&& all.take(first.len() as int) == first
            &&& forall|k: int|
                0 <= k < owed.len() ==> vstd::pervasive::strictly_cloned(
                    #[trigger] owed[k],
                    all[first.len() + k],
                )
        }),
    decreases count,
{
    let first = states[0].inboxes[index];
    if count == 0 {
        assert(Seq::<F>::empty() + first =~= first);
        assert(first.take(first.len() as int) =~= first);
    } else {
        let prior = (count - 1) as nat;
        a_node_reads_what_the_others_sent_in_order(states, events, index, prior);
        let step = prior as int;
        let (before, after) = (states[step], states[step + 1]);
        assert(happened(before, after, events[step]));
        let earlier = owed(states, events, index, prior);
        let then = read(states, events, index, prior) + before.inboxes[index];
        let now = read(states, events, index, count) + after.inboxes[index];
        let due = owed(states, events, index, count);
        match events[step] {
            Event::Sent { from, frame } => {
                if before.acknowledgement() is Ok && from != index {
                    assert(super::heard_one(before.inboxes[index], after.inboxes[index], frame));
                    assert(now.drop_last() =~= then);
                    assert(now.take(first.len() as int) =~= then.take(first.len() as int));
                    assert forall|k: int|
                        0 <= k < due.len() implies vstd::pervasive::strictly_cloned(
                        #[trigger] due[k],
                        now[first.len() + k],
                    ) by {
                        if k < earlier.len() {
                            assert(due[k] == earlier[k]);
                            assert(now[first.len() + k] == now.drop_last()[first.len() + k]);
                        }
                    }
                } else {
                    assert(now =~= then);
                }
            },
            _ => {
                assert(now =~= then);
            },
        }
    }
}

/// Whatever happens on the medium, what every operation keeps is kept, the
/// medium keeps its name, and a node once attached stays attached.
pub proof fn a_medium_stays_well_formed<F: Clone>(
    states: Seq<Air<F>>,
    events: Seq<Event<F>>,
    station: Station,
    count: nat,
)
    requires
        course(states, events),
        count <= events.len(),
    ensures
        states[0].wf() ==> states[count as int].wf(),
        states[count as int].name == states[0].name,
        states[0].hosts(station) ==> states[count as int].hosts(station),
    decreases count,
{
    if count > 0 {
        a_medium_stays_well_formed(states, events, station, (count - 1) as nat);
        assert(happened(states[count - 1], states[count as int], events[count - 1]));
    }
}

/// Two listeners never compete: neither sees whether the other read first.
pub proof fn listeners_never_compete<F>(air: Air<F>, one: int, other: int)
    requires
        0 <= one < air.inboxes.len(),
        0 <= other < air.inboxes.len(),
        one != other,
    ensures
        air.taken(one).next_for(other) == air.next_for(other),
        air.taken(one).inboxes[other] == air.inboxes[other],
        air.taken(one).taken(other) == air.taken(other).taken(one),
{
    assert(air.taken(one).taken(other).inboxes =~= air.taken(other).taken(one).inboxes);
}

/// A node that joins hears nothing that was sent before, takes nothing from
/// the others, and hears what is sent from then on.
pub proof fn a_newcomer_hears_from_now_on<F: Clone>(
    air: Air<F>,
    after: Air<F>,
    from: int,
    frame: F,
)
    requires
        0 <= from < air.inboxes.len(),
        super::transmitted(air.joined(), after, from, frame),
    ensures
        air.joined().next_for(air.inboxes.len() as int) is None,
        forall|index: int|
            0 <= index < air.inboxes.len() ==> #[trigger] air.joined().inboxes[index]
                == air.inboxes[index],
        air.joined().loses_next() == air.loses_next(),
        !air.loses_next() ==> air.joined().acknowledgement() is Ok && (after.next_for(
            air.inboxes.len() as int,
        ) matches Some(copy) && vstd::pervasive::strictly_cloned(frame, copy)),
{
    let place = air.inboxes.len() as int;
    if !air.loses_next() {
        assert(super::heard(air.joined(), after, from, frame));
        assert(super::heard_one(air.joined().inboxes[place], after.inboxes[place], frame));
    }
}

/// Every frame sent counts, and counting is all that moves a medium towards
/// its next loss.
pub proof fn every_frame_counts<F: Clone>(before: Air<F>, after: Air<F>, from: int, frame: F)
    requires
        super::transmitted(before, after, from, frame),
    ensures
        after.carried == before.carried + 1,
        after.lose_every == before.lose_every,
        after.loses_next() == carrying(before, 1).loses_next(),
{
}

/// Whatever else happens, the frames a medium told to lose every `every`th
/// loses are exactly those whose place in all it ever carried is a multiple of
/// `every`, for as long as it is told nothing else.
pub proof fn losses_fall_on_every_multiple<F: Clone>(
    states: Seq<Air<F>>,
    events: Seq<Event<F>>,
    every: u32,
    count: nat,
)
    requires
        course(states, events),
        states[0].wf(),
        states[0].lose_every == Some(every),
        forall|step: int| 0 <= step < events.len() ==> (#[trigger] events[step]) !is Losing,
        count <= events.len(),
    ensures
        states[count as int].carried == states[0].carried + sends(events, count),
        states[count as int].lose_every == Some(every),
        states[count as int].loses_next() <==> (states[0].carried + sends(events, count) + 1) % (
        every as nat) == 0,
    decreases count,
{
    if count > 0 {
        losses_fall_on_every_multiple(states, events, every, (count - 1) as nat);
        assert(happened(states[count - 1], states[count as int], events[count - 1]));
    }
}

/// A medium told to lose every `every`th frame loses exactly one of any
/// `every` frames in a row.
pub proof fn one_frame_in_every_is_lost<F>(air: Air<F>, every: u32) -> (lost: nat)
    requires
        air.wf(),
        air.lose_every == Some(every),
    ensures
        lost < every,
        carrying(air, lost).loses_next(),
        forall|other: nat|
            other < every && #[trigger] carrying(air, other).loses_next() ==> other == lost,
{
    let n = every as int;
    let next: int = air.carried as int + 1;
    let lost = if next % n == 0 {
        0
    } else {
        n - next % n
    };
    assert(next == n * (next / n) + next % n) by (nonlinear_arith)
        requires
            n >= 1,
    ;
    assert((next + lost) % n == 0) by (nonlinear_arith)
        requires
            n >= 1,
            next == n * (next / n) + next % n,
            lost == 0 && next % n == 0 || lost == n - next % n,
    ;
    assert forall|other: nat|
        other < every && #[trigger] carrying(air, other).loses_next() implies other == lost by {
        assert((next + other) % n == 0);
        assert(other == lost) by (nonlinear_arith)
            requires
                n >= 1,
                0 <= other < n,
                0 <= lost < n,
                (next + other) % n == 0,
                (next + lost) % n == 0,
        ;
    }
    lost as nat
}

/// A lost frame sent again at once is carried, unless the medium loses every
/// frame.
pub proof fn a_retry_survives<F: Clone>(before: Air<F>, after: Air<F>, from: int, frame: F)
    requires
        super::transmitted(before, after, from, frame),
        before.acknowledgement() == Err::<(), _>(TransmitError::Lost),
        before.lose_every != Some(1u32),
    ensures
        !after.loses_next(),
        before.inboxes.len() >= 2 ==> after.acknowledgement() is Ok,
{
    let every = before.lose_every->0 as int;
    let next: int = before.carried as int + 1;
    assert((next + 1) % every != 0) by (nonlinear_arith)
        requires
            every >= 2,
            next % every == 0,
    ;
}

/// A medium that is told to lose nothing loses nothing, whatever it has
/// carried: in company every frame is acknowledged.
pub proof fn nothing_told_is_nothing_lost<F>(air: Air<F>)
    requires
        air.lose_every is None,
    ensures
        !air.loses_next(),
        air.inboxes.len() >= 2 ==> air.acknowledgement() is Ok,
        air.inboxes.len() < 2 ==> air.acknowledgement() == Err::<(), _>(TransmitError::Unheard),
{
}

/// A medium told to lose every `every`th frame loses its next frame exactly
/// when that frame's place in all it has carried is a multiple of that same
/// `every`, whatever it was told before.
pub proof fn what_is_told_is_what_is_lost<F>(air: Air<F>, earlier: u32, every: u32)
    requires
        every >= 1,
    ensures
        air.losing(every).loses_next() <==> (air.carried + 1) % (every as nat) == 0,
        air.losing(earlier).losing(every) == air.losing(every),
        air.losing(every).lose_every == Some(every),
        air.losing(every).inboxes == air.inboxes,
        air.losing(every).carried == air.carried,
        air.losing(every).name == air.name,
{
}

/// A medium told to lose every frame, by one or by zero, acknowledges none.
pub proof fn losing_every_frame_acknowledges_none<F>(air: Air<F>, every: u32)
    requires
        every <= 1,
    ensures
        air.losing(every).acknowledgement() == Err::<(), _>(TransmitError::Lost),
{
}

/// A pause is never empty while time is left, never longer than [`POLL`] and
/// never past the end of the wait.
pub proof fn a_pause_keeps_to_the_wait(elapsed: int, timeout: int)
    requires
        elapsed < timeout,
    ensures
        0 < super::paused(elapsed, timeout) <= POLL,
        elapsed + super::paused(elapsed, timeout) <= timeout,
{
}

/// A reader that pauses as it is told is through its wait once its pauses are
/// as many as the polls that cover the wait: `looks` are the times of its
/// looks, each at least a pause after the one before, and its `count`th pause
/// ends past the wait or `count` polls into it.
pub proof fn the_wait_ends(looks: Seq<int>, timeout: int, count: nat)
    requires
        count < looks.len(),
        looks[0] >= 0,
        forall|k: int|
            0 <= k < looks.len() - 1 ==> looks[k + 1] >= #[trigger] looks[k] + super::paused(
                looks[k],
                timeout,
            ),
    ensures
        looks[count as int] >= timeout || looks[count as int] >= count * POLL,
        count * POLL >= timeout ==> looks[count as int] >= timeout,
    decreases count,
{
    if count > 0 {
        the_wait_ends(looks, timeout, (count - 1) as nat);
        let k = count - 1;
        assert(looks[k + 1] >= looks[k] + super::paused(looks[k], timeout));
        assert(count * POLL == (count - 1) * POLL + POLL) by (nonlinear_arith);
    }
}

} // verus!
