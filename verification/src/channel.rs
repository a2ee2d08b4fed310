use vstd::prelude::*;

use crate::status::views_of;
use crate::status::Status;
use crate::status::StatusView;

verus! {

/// The broadcast status primitive: one writer-side state machine, many
/// readers. Its mathematical value is the whole publish history in order;
/// the entry at index 0 is the initial `Idle` value, and the last entry is
/// the current status that polling getters see.
///
/// A live subscriber is a cursor into that history: it observes every value
/// published after it attached, in publish order, and never sees history
/// from before it attached.
pub struct StatusChannel {
    log: Vec<Status>,
}

impl View for StatusChannel {
    type V = Seq<StatusView>;

    closed spec fn view(&self) -> Seq<StatusView> {
        views_of(self.log@)
    }
}

impl StatusChannel {
    /// A channel always carries at least its initial value, so the current
    /// status is defined even before the first publish.
    pub open spec fn wf(&self) -> bool {
        self@.len() >= 1
    }

    /// A fresh channel whose current status is `Idle` and which has no
    /// publishes yet.
    pub fn new() -> (r: StatusChannel)
        ensures
            r@ =~= seq![StatusView::Idle],
            r.wf(),
    {
        let mut log: Vec<Status> = Vec::new();
        log.push(Status::Idle);
        let r = StatusChannel { log };
        proof {
            assert(r@ =~= seq![StatusView::Idle]);
        }
        r
    }

    /// Publishes `new_status` as current: appends it to the history, so every
    /// attached subscriber will observe it after everything published before
    /// it. Publishing never fails and never blocks on slow readers.
    pub fn update(&mut self, new_status: Status)
        requires
            old(self).wf(),
        ensures
            final(self)@ =~= old(self)@.push(new_status@),
            final(self).wf(),
    {
        self.log.push(new_status);
        proof {
            assert(self@ =~= old(self)@.push(new_status@));
        }
    }

    /// Returns the current status synchronously, usable with zero
    /// subscribers; it is the most recent publish, or `Idle` if there has
    /// been none.
    pub fn get(&self) -> (r: Status)
        requires
            self.wf(),
        ensures
            r@ == self@.last(),
    {
        self.log[self.log.len() - 1].clone()
    }

    /// Attaches a new subscriber at the current end of the history: it will
    /// observe every publish issued after this call, in order, and nothing
    /// from before it.
    pub fn subscribe(&self) -> (r: Subscriber)
        ensures
            r@ == self@.len(),
    {
        Subscriber { cursor: self.log.len() }
    }
}

/// A read handle on a `StatusChannel`; its mathematical value is the index of
/// the next publish it will observe.
pub struct Subscriber {
    cursor: usize,
}

impl View for Subscriber {
    type V = int;

    closed spec fn view(&self) -> int {
        self.cursor as int
    }
}

impl Subscriber {
    /// Receives the next status this subscriber has not yet observed, or
    /// `None` once it has observed every publish. A `None` is the signal for
    /// a receive loop to stop rather than spin.
    pub fn recv(&mut self, ch: &StatusChannel) -> (r: Option<Status>)
        requires
            0 <= old(self)@ <= ch@.len(),
        ensures
            old(self)@ < ch@.len() ==> (r matches Some(s) && s@ == ch@[old(self)@]
                && final(self)@ == old(self)@ + 1),
            old(self)@ == ch@.len() ==> (r is None && final(self)@ == old(self)@),
    {
        if self.cursor < ch.log.len() {
            let s = ch.log[self.cursor].clone();
            self.cursor = self.cursor + 1;
            Some(s)
        } else {
            None
        }
    }

    /// Receives everything this subscriber has not yet observed, in publish
    /// order, leaving it at the end of the history.
    pub fn drain(&mut self, ch: &StatusChannel) -> (r: Vec<Status>)
        requires
            0 <= old(self)@ <= ch@.len(),
        ensures
            views_of(r@) =~= ch@.subrange(old(self)@, ch@.len() as int),
            final(self)@ == ch@.len(),
    {
        let ghost start: int = self@;
        let mut out: Vec<Status> = Vec::new();
        while self.cursor < ch.log.len()
            invariant
                0 <= start <= self.cursor as int <= ch.log@.len(),
                self@ == self.cursor as int,
                ch@ == views_of(ch.log@),
                out@.len() == self.cursor as int - start,
                views_of(out@) =~= ch@.subrange(start, self.cursor as int),
            decreases ch.log@.len() - self.cursor as int,
        {
            let s = ch.log[self.cursor].clone();
            let ghost prev_out = out@;
            out.push(s);
            self.cursor = self.cursor + 1;
            proof {
                assert(ch@.len() == ch.log@.len());
                assert(views_of(prev_out).len() == prev_out.len());
                assert(views_of(out@).len() == out@.len());
                assert forall|i: int| 0 <= i < out@.len() implies views_of(out@)[i] == ch@[start
                    + i] by {
                    assert(views_of(out@)[i] == out@[i]@);
                    if i < out@.len() - 1 {
                        assert(views_of(prev_out)[i] == prev_out[i]@);
                        assert(views_of(prev_out)[i] == ch@.subrange(start, self.cursor as int
                            - 1)[i]);
                    } else {
                        assert(s@ == ch.log@[self.cursor as int - 1]@);
                        assert(ch@[start + i] == views_of(ch.log@)[start + i]);
                    }
                }
                assert(views_of(out@) =~= ch@.subrange(start, self.cursor as int));
            }
        }
        out
    }
}

/// Ordering of observation: a subscriber attached when the history was
/// `before` and drained after a further run `published` observes exactly
/// `published`, in order — never reordered, never duplicated beyond exact
/// repeats already present in `published`.
pub proof fn lemma_subscriber_observes_in_order(before: Seq<StatusView>, published: Seq<StatusView>)
    ensures
        (before + published).subrange(before.len() as int, (before + published).len() as int)
            =~= published,
{
}

} // verus!
