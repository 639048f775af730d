use crate::filter::DataFilter;
use crate::message_cached::MessageCached;
use std::collections::VecDeque;
use vstd::prelude::*;

verus! {

/// A frozen data filter with the latest message that it accepted.
#[derive(Debug)]
pub struct PinnedFilter {
    /// The criteria as they were when the filter was pinned.
    pub filter: DataFilter,
    /// Time that the shown delta counts from: the arrival of the match
    /// before the latest, or the pin's creation while there is none.
    pub reference: u64,
    /// The latest message that the filter accepted.
    pub last: Option<MessageCached>,
}

/// The pinned filters, in the order in which they were pinned.
#[derive(Debug)]
pub struct PinnedFilters {
    data: Vec<PinnedFilter>,
}

/// Position of the first message from `from` on that `filter` accepts.
pub open spec fn first_accepted(filter: DataFilter, data: Seq<MessageCached>, from: int) -> Option<
    int,
>
    decreases data.len() - from,
{
    if from < 0 || from >= data.len() {
        None
    } else if !filter.excludes(&data[from]) {
        Some(from)
    } else {
        first_accepted(filter, data, from + 1)
    }
}

/// Every pin after `msg` has arrived.
pub open spec fn offered_all(pins: Seq<PinnedFilter>, msg: MessageCached) -> Seq<PinnedFilter> {
    Seq::new(pins.len(), |i: int| pins[i].offered(msg))
}

impl PinnedFilter {
    /// The pin that `filter` makes at time `now` over the messages `data`:
    /// it starts with the first message that the filter accepts.
    pub open spec fn pinned(filter: DataFilter, data: Seq<MessageCached>, now: u64) -> PinnedFilter {
        PinnedFilter {
            filter,
            reference: now,
            last: match first_accepted(filter, data, 0) {
                Some(at) => Some(data[at]),
                None => None,
            },
        }
    }

    /// The pin after `msg` has arrived. A message that the filter accepts
    /// becomes the latest match, and the reference moves to the arrival of
    /// the match before it; any other message changes nothing.
    pub open spec fn offered(self, msg: MessageCached) -> PinnedFilter {
        if self.filter.excludes(&msg) {
            self
        } else {
            PinnedFilter {
                filter: self.filter,
                reference: match self.last {
                    Some(previous) => previous.msg.msg.timestamp,
                    None => self.reference,
                },
                last: Some(msg),
            }
        }
    }

    /// Pins `filter` at time `now` over the messages `data`.
    pub fn new(filter: &DataFilter, data: &VecDeque<MessageCached>, now: u64) -> (pin:
        PinnedFilter)
        ensures
            pin == PinnedFilter::pinned(*filter, data@, now),
    {
        let mut last: Option<MessageCached> = None;
        let n: usize = data.len();
        let mut i: usize = 0;
        while i < n && last.is_none()
            invariant
                n == data@.len(),
                i <= n,
                last is None ==> first_accepted(*filter, data@, 0) == first_accepted(
                    *filter,
                    data@,
                    i as int,
                ),
                last is Some ==> exists|at: int|
                    first_accepted(*filter, data@, 0) == Some(at) && 0 <= at < n && last == Some(
                        data@[at],
                    ),
            decreases n - i + if last is None { 1int } else { 0int },
        {
            if !filter.filter(&data[i]) {
                last = Some(data[i].clone());
            } else {
                i += 1;
            }
        }
        PinnedFilter { filter: filter.clone(), reference: now, last }
    }

    /// Offers a newly arrived message to the pin.
    pub fn offer(&mut self, msg: &MessageCached)
        ensures
            *final(self) == old(self).offered(*msg),
    {
        if !self.filter.filter(msg) {
            match &self.last {
                Some(previous) => {
                    self.reference = previous.get_timestamp();
                },
                None => {},
            }
            self.last = Some(msg.clone());
        }
    }
}

impl View for PinnedFilters {
    type V = Seq<PinnedFilter>;

    closed spec fn view(&self) -> Seq<PinnedFilter> {
        self.data@
    }
}

impl Default for PinnedFilters {
    fn default() -> (p: PinnedFilters)
        ensures
            p@ == Seq::<PinnedFilter>::empty(),
    {
        PinnedFilters { data: Vec::new() }
    }
}

impl PinnedFilters {
    /// Pins a copy of `filt`, detached from later edits, and seeds it with
    /// the first message of `data` that it accepts.
    pub fn pin_filter(&mut self, filt: &DataFilter, data: &VecDeque<MessageCached>, now: u64)
        ensures
            final(self)@ == old(self)@.push(PinnedFilter::pinned(*filt, data@, now)),
    {
        let pin = PinnedFilter::new(filt, data, now);
        self.data.push(pin);
    }

    /// Offers a newly arrived message to every pin.
    pub fn push_data(&mut self, msg: &MessageCached)
        ensures
            final(self)@ == offered_all(old(self)@, *msg),
    {
        let n: usize = self.data.len();
        let mut i: usize = 0;
        while i < n
            invariant
                n == self.data@.len(),
                n == old(self).data@.len(),
                i <= n,
                forall|j: int|
                    0 <= j < i ==> (#[trigger] self.data@[j]) == old(self).data@[j].offered(*msg),
                forall|j: int| i <= j < n ==> (#[trigger] self.data@[j]) == old(self).data@[j],
            decreases n - i,
        {
            self.data[i].offer(msg);
            i += 1;
        }
        assert(self.data@ =~= offered_all(old(self).data@, *msg));
    }

    /// Number of pins.
    pub fn len(&self) -> (n: usize)
        ensures
            n == self@.len(),
    {
        self.data.len()
    }

    /// The pin at `index`.
    pub fn get(&self, index: usize) -> (pin: Option<&PinnedFilter>)
        ensures
            pin == if index < self@.len() {
                Some(&self@[index as int])
            } else {
                None
            },
    {
        if index < self.data.len() {
            Some(&self.data[index])
        } else {
            None
        }
    }

    /// Drops the pin at `index`; an index past the end drops nothing.
    pub fn remove(&mut self, index: usize)
        ensures
            final(self)@ == if index < old(self)@.len() {
                old(self)@.remove(index as int)
            } else {
                old(self)@
            },
    {
        if index < self.data.len() {
            self.data.remove(index);
        }
    }
}

/// A pin that starts without a match keeps the time of its creation as
/// reference when the first accepted message arrives; from then on every
/// accepted arrival becomes the latest match and moves the reference to the
/// arrival of the match before it. A message that the filter excludes
/// changes nothing.
pub proof fn lemma_pin_follows_matches(
    filter: DataFilter,
    data: Seq<MessageCached>,
    created: u64,
    first: MessageCached,
    second: MessageCached,
    other: MessageCached,
)
    requires
        forall|i: int| 0 <= i < data.len() ==> filter.excludes(&#[trigger] data[i]),
        !filter.excludes(&first),
        !filter.excludes(&second),
        filter.excludes(&other),
    ensures
        PinnedFilter::pinned(filter, data, created) == (PinnedFilter {
            filter,
            reference: created,
            last: None,
        }),
        PinnedFilter::pinned(filter, data, created).offered(first) == (PinnedFilter {
            filter,
            reference: created,
            last: Some(first),
        }),
        PinnedFilter::pinned(filter, data, created).offered(first).offered(second) == (PinnedFilter {
            filter,
            reference: first.msg.msg.timestamp,
            last: Some(second),
        }),
        PinnedFilter::pinned(filter, data, created).offered(other) == PinnedFilter::pinned(
            filter,
            data,
            created,
        ),
        PinnedFilter::pinned(filter, data, created).offered(first).offered(other)
            == PinnedFilter::pinned(filter, data, created).offered(first),
{
    lemma_none_accepted(filter, data, 0);
}

/// Where the filter excludes every message from `from` on, none is the
/// first accepted.
pub proof fn lemma_none_accepted(filter: DataFilter, data: Seq<MessageCached>, from: int)
    requires
        0 <= from,
        forall|i: int| from <= i < data.len() ==> filter.excludes(&#[trigger] data[i]),
    ensures
        first_accepted(filter, data, from) is None,
    decreases data.len() - from,
{
    if from < data.len() {
        lemma_none_accepted(filter, data, from + 1);
    }
}

} // verus!
