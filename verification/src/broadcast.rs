//! A broadcast medium, in process: every node attached hears every frame
//! another node sends, and none hears its own.
//!
//! A CAN bus is one, so is an Ethernet segment and so is the air a radio
//! protocol speaks over. What a protocol on such a medium is proved against:
//!
//! - **Every other node hears it.** A frame goes to every node but the one
//!   that sent it; each node reads its own arrivals, in order, so two
//!   listeners never compete for one frame.
//! - **Nobody there is an error.** A frame no other node is attached to hear
//!   is not acknowledged, and the sender is told so, as a CAN controller is.
//! - **Frames are lost on demand**: every `n`th frame the medium carries, for
//!   the retries a protocol is supposed to survive.
//!
//! A [`Node`] names its place on a [`Medium`] and is handed the medium it
//! speaks over, so who shares the medium, and under which lock, is for the
//! program around it to say.

pub mod calls;
pub mod laws;

use std::collections::VecDeque;
use std::marker::PhantomData;
use vstd::prelude::*;

verus! {

/// How often a waiting reader looks again, in nanoseconds.
pub const POLL: u64 = 1_000_000;

/// Why a frame was not acknowledged.
#[derive(Clone, Copy, Debug, PartialEq, Eq, Structural)]
pub enum TransmitError {
    /// The medium lost the frame.
    Lost,
    /// No other node is attached to hear the frame.
    Unheard,
}

impl TransmitError {
    /// Whether the sender may try again: always, as a CAN controller retries
    /// an unacknowledged frame.
    pub fn retryable(&self) -> (retry: bool)
        ensures
            retry,
    {
        match self {
            TransmitError::Lost => true,
            TransmitError::Unheard => true,
        }
    }

    /// What the sender is told.
    pub fn message(&self) -> (told: &'static str)
        ensures
            told@ == match *self {
                TransmitError::Lost => "the frame was lost on the medium"@,
                TransmitError::Unheard => "no other node acknowledged the frame"@,
            },
    {
        match self {
            TransmitError::Lost => "the frame was lost on the medium",
            TransmitError::Unheard => "no other node acknowledged the frame",
        }
    }
}

/// What one look at a node's arrivals came to.
#[derive(Debug, PartialEq, Eq)]
pub enum Reception<F> {
    /// The wait is over: the next frame, or `None` when none came in time.
    Done(Option<F>),
    /// Nothing yet, and time is left: pause, then look again.
    Wait,
}

/// A medium as specifications see it: its name, the arrivals each node has yet
/// to read, oldest first, what it is told to lose, and how many frames it has
/// carried.
#[verifier::ext_equal]
pub struct Air<F> {
    pub name: Seq<char>,
    pub inboxes: Seq<Seq<F>>,
    pub lose_every: Option<u32>,
    pub carried: nat,
}

/// A node as specifications see it: its medium's name and its place on it.
pub struct Station {
    pub name: Seq<char>,
    pub index: nat,
}

impl<F> Air<F> {
    /// What every operation keeps: losing every zeroth frame means nothing,
    /// so a medium told to lose frames loses every `n`th for some positive
    /// `n`.
    pub open spec fn wf(self) -> bool {
        self.lose_every matches Some(every) ==> every >= 1
    }

    /// Whether `station` was attached to this medium.
    pub open spec fn hosts(self, station: Station) -> bool {
        &&& station.index < self.inboxes.len()
        &&& station.name == self.name
    }

    /// Whether the next frame sent is one the medium loses.
    pub open spec fn loses_next(self) -> bool {
        self.lose_every matches Some(every) && every >= 1 && (self.carried + 1) % (every as nat)
            == 0
    }

    /// What the sender of the next frame is told.
    pub open spec fn acknowledgement(self) -> Result<(), TransmitError> {
        if self.loses_next() {
            Err(TransmitError::Lost)
        } else if self.inboxes.len() < 2 {
            Err(TransmitError::Unheard)
        } else {
            Ok(())
        }
    }

    /// The medium once it has carried one more frame that nobody heard.
    pub open spec fn unheard(self) -> Self {
        Air { carried: self.carried + 1, ..self }
    }

    /// The medium with one more node, which has heard nothing.
    pub open spec fn joined(self) -> Self {
        Air { inboxes: self.inboxes.push(Seq::empty()), ..self }
    }

    /// The medium told to lose every `every`th frame.
    pub open spec fn losing(self, every: u32) -> Self {
        Air {
            lose_every: Some(
                if every >= 1 {
                    every
                } else {
                    1
                },
            ),
            ..self
        }
    }

    /// The frame the node at `index` reads next.
    pub open spec fn next_for(self, index: int) -> Option<F> {
        if self.inboxes[index].len() > 0 {
            Some(self.inboxes[index][0])
        } else {
            None
        }
    }

    /// The medium once the node at `index` has read its next frame, if any.
    pub open spec fn taken(self, index: int) -> Self {
        if self.inboxes[index].len() > 0 {
            Air {
                inboxes: self.inboxes.update(index, self.inboxes[index].drop_first()),
                ..self
            }
        } else {
            self
        }
    }
}

/// `after` is `before` once the node at `from` was heard by every other node:
/// each of those holds a copy of `frame` behind what it had yet to read, and
/// the sender holds what it held.
pub open spec fn heard<F: Clone>(before: Air<F>, after: Air<F>, from: int, frame: F) -> bool {
    &&& after.name == before.name
    &&& after.lose_every == before.lose_every
    &&& after.carried == before.carried + 1
    &&& after.inboxes.len() == before.inboxes.len()
    &&& after.inboxes[from] == before.inboxes[from]
    &&& forall|index: int|
        0 <= index < before.inboxes.len() && index != from ==> heard_one(
            before.inboxes[index],
            #[trigger] after.inboxes[index],
            frame,
        )
}

/// `after` is `before` with a copy of `frame` behind it.
pub open spec fn heard_one<F: Clone>(before: Seq<F>, after: Seq<F>, frame: F) -> bool {
    &&& after.len() == before.len() + 1
    &&& after.drop_last() == before
    &&& vstd::pervasive::strictly_cloned(frame, after.last())
}

/// What sending `frame` from the node at `from` does to the medium, whatever
/// the sender is told.
pub open spec fn transmitted<F: Clone>(
    before: Air<F>,
    after: Air<F>,
    from: int,
    frame: F,
) -> bool {
    if before.acknowledgement() is Ok {
        heard(before, after, from, frame)
    } else {
        after == before.unheard()
    }
}

/// A broadcast medium carrying frames of type `F`.
pub struct Medium<F> {
    name: String,
    inboxes: Vec<VecDeque<F>>,
    lose_every: Option<u32>,
    carried: u32,
}

/// One node on a [`Medium`]: it sends to every other node and reads what
/// they send it.
pub struct Node<F> {
    name: String,
    index: usize,
    frames: PhantomData<F>,
}

impl<F> View for Medium<F> {
    type V = Air<F>;

    closed spec fn view(&self) -> Air<F> {
        Air {
            name: self.name@,
            inboxes: self.inboxes@.map_values(|inbox: VecDeque<F>| inbox@),
            lose_every: self.lose_every,
            carried: self.carried as nat,
        }
    }
}

impl<F> View for Node<F> {
    type V = Station;

    closed spec fn view(&self) -> Station {
        Station { name: self.name@, index: self.index as nat }
    }
}

impl<F: Clone + Send> Medium<F> {
    /// An empty medium called `name`, which origin URIs carry.
    #[must_use]
    pub fn new(name: &str) -> (medium: Self)
        ensures
            medium@ == (Air {
                name: name@,
                inboxes: Seq::<Seq<F>>::empty(),
                lose_every: None,
                carried: 0,
            }),
            medium@.wf(),
    {
        let medium = Medium {
            name: name.to_string(),
            inboxes: Vec::new(),
            lose_every: None,
            carried: 0,
        };
        assert(medium@.inboxes =~= Seq::<Seq<F>>::empty());
        medium
    }

    /// A new node on the medium, hearing what is sent from now on.
    #[must_use]
    pub fn node(&mut self) -> (node: Node<F>)
        ensures
            final(self)@ == old(self)@.joined(),
            node@ == (Station { name: old(self)@.name, index: old(self)@.inboxes.len() }),
            final(self)@.hosts(node@),
            old(self)@.wf() ==> final(self)@.wf(),
    {
        let index: usize = self.inboxes.len();
        self.inboxes.push(VecDeque::new());
        assert(self@.inboxes =~= old(self)@.inboxes.push(Seq::empty()));
        Node { name: self.name.clone(), index, frames: PhantomData }
    }

    /// Lose every `every`th frame the medium carries: sent, acknowledged by
    /// nobody, heard by nobody. Zero stands for one.
    pub fn lose_every(&mut self, every: u32)
        ensures
            final(self)@ == old(self)@.losing(every),
            final(self)@.wf(),
    {
        let every: u32 = if every >= 1 {
            every
        } else {
            1
        };
        self.lose_every = Some(every);
    }

    /// How many frames the medium has carried, lost ones included.
    #[must_use]
    pub fn carried(&self) -> (carried: u32)
        ensures
            carried == self@.carried,
    {
        self.carried
    }
}

impl<F: Clone + Send> Node<F> {
    /// The medium's name.
    #[must_use]
    pub fn name(&self) -> (name: &str)
        ensures
            name@ == self@.name,
    {
        self.name.as_str()
    }

    /// Send `frame` to every other node on the medium.
    ///
    /// # Errors
    /// No other node is attached to acknowledge it, or the medium lost it;
    /// both may be retried. The count of frames carried moves on either way.
    pub fn transmit(&self, medium: &mut Medium<F>, frame: &F) -> (told: Result<(), TransmitError>)
        requires
            old(medium)@.hosts(self@),
            old(medium)@.carried < u32::MAX,
        ensures
            told == old(medium)@.acknowledgement(),
            transmitted(old(medium)@, final(medium)@, self@.index as int, *frame),
            old(medium)@.wf() ==> final(medium)@.wf(),
    {
        let ghost before = medium@;
        medium.carried = medium.carried + 1;
        let carried: u32 = medium.carried;
        if let Some(every) = medium.lose_every {
            if carried.is_multiple_of(every) {
                assert(medium@ =~= before.unheard());
                return Err(TransmitError::Lost);
            }
        }
        let count: usize = medium.inboxes.len();
        let mut heard: bool = false;
        let mut index: usize = 0;
        while index < count
            invariant
                count == before.inboxes.len(),
                medium.inboxes@.len() == count,
                index <= count,
                medium.name@ == before.name,
                medium.lose_every == before.lose_every,
                medium.carried == before.carried + 1,
                heard == (index >= 2 || (index == 1 && self.index != 0)),
                self.index < count,
                medium.inboxes@[self.index as int]@ == before.inboxes[self.index as int],
                forall|other: int|
                    0 <= other < index && other != self.index ==> heard_one(
                        before.inboxes[other],
                        #[trigger] medium.inboxes@[other]@,
                        *frame,
                    ),
                forall|other: int|
                    index <= other < count ==> #[trigger] medium.inboxes@[other]@
                        == before.inboxes[other],
            decreases count - index,
        {
            if index != self.index {
                let ghost waiting = medium.inboxes@[index as int]@;
                medium.inboxes[index].push_back(frame.clone());
                heard = true;
                assert(medium.inboxes@[index as int]@.drop_last() =~= waiting);
            }
            index = index + 1;
        }
        if heard {
            Ok(())
        } else {
            assert(medium@ =~= before.unheard());
            Err(TransmitError::Unheard)
        }
    }

    /// One look at the node's arrivals, `elapsed` nanoseconds into a wait of
    /// `timeout` nanoseconds: the next frame another node sent this one, or
    /// nothing once the time is up, or a reason to look again.
    pub fn receive(&self, medium: &mut Medium<F>, elapsed: u128, timeout: u128) -> (reception:
        Reception<F>)
        requires
            old(medium)@.hosts(self@),
        ensures
            final(medium)@ == old(medium)@.taken(self@.index as int),
            reception == match old(medium)@.next_for(self@.index as int) {
                Some(frame) => Reception::Done(Some(frame)),
                None => if elapsed >= timeout {
                    Reception::Done(None)
                } else {
                    Reception::Wait
                },
            },
            old(medium)@.wf() ==> final(medium)@.wf(),
    {
        let ghost before = medium@;
        let next = medium.inboxes[self.index].pop_front();
        match next {
            Some(frame) => {
                assert(medium@.inboxes =~= before.taken(self.index as int).inboxes);
                Reception::Done(Some(frame))
            },
            None => {
                assert(medium@.inboxes =~= before.inboxes);
                if elapsed >= timeout {
                    Reception::Done(None)
                } else {
                    Reception::Wait
                }
            },
        }
    }
}

/// What is left of a wait of `timeout` nanoseconds after `elapsed` of them,
/// but never more than [`POLL`].
pub open spec fn paused(elapsed: int, timeout: int) -> int {
    if elapsed >= timeout {
        0
    } else if timeout - elapsed < POLL {
        timeout - elapsed
    } else {
        POLL as int
    }
}

/// How long a reader `elapsed` nanoseconds into a wait of `timeout`
/// nanoseconds pauses before it looks again: [`POLL`], or what is left of the
/// wait when that is less.
#[must_use]
pub fn pause(elapsed: u128, timeout: u128) -> (nanoseconds: u64)
    ensures
        nanoseconds == paused(elapsed as int, timeout as int),
{
    if elapsed >= timeout {
        return 0;
    }
    let left: u128 = timeout - elapsed;
    if left < POLL as u128 {
        left as u64
    } else {
        POLL
    }
}

} // verus!
