use crate::driver::{LinkInfo, State, StateView};
use crate::filter::{DataFilter, GlobalFilter};
use crate::message_cached::MessageCached;
use crate::pinned_filter::{offered_all, PinnedFilter, PinnedFilters};
use std::collections::VecDeque;
use vstd::prelude::*;

verus! {

/// Most messages that the reading side keeps.
pub const MESSAGES_COUNT: usize = 4096;

/// The reading side's store: the messages that passed the global filter
/// when they arrived, newest first, and the pinned filters.
#[derive(Debug)]
pub struct Inbox {
    data: VecDeque<MessageCached>,
    seen: Option<u64>,
    info: LinkInfo,
    pub pinned_filters: PinnedFilters,
    pub global_filter: GlobalFilter,
}

/// An inbox as plain values.
pub struct InboxView {
    /// Messages kept, newest first.
    pub data: Seq<MessageCached>,
    /// Highest sequence index taken over so far.
    pub seen: Option<u64>,
    pub info: LinkInfo,
    pub pins: Seq<PinnedFilter>,
    pub filter: GlobalFilter,
}

impl InboxView {
    /// Whether `msg` has not been taken over yet.
    pub open spec fn is_new(self, msg: MessageCached) -> bool {
        match self.seen {
            Some(highest) => msg.index > highest,
            None => true,
        }
    }

    /// The inbox after `msg` was met in a snapshot. A new message is
    /// offered to every pin and, unless the global filter excludes it, put
    /// in front of the kept messages; one seen before changes nothing.
    pub open spec fn took(self, msg: MessageCached) -> InboxView {
        if self.is_new(msg) {
            InboxView {
                data: if self.filter.excludes(&msg) {
                    self.data
                } else {
                    seq![msg] + self.data
                },
                seen: Some(msg.index),
                pins: offered_all(self.pins, msg),
                ..self
            }
        } else {
            self
        }
    }

    /// The inbox after the first `n` messages of a snapshot.
    pub open spec fn took_upto(self, msgs: Seq<MessageCached>, n: int) -> InboxView
        decreases n,
    {
        if n <= 0 {
            self
        } else {
            self.took_upto(msgs, n - 1).took(msgs[n - 1])
        }
    }

    /// The inbox after a whole snapshot: every message taken in order, the
    /// kept messages cut to the newest `MESSAGES_COUNT`, the link
    /// information copied.
    pub open spec fn received(self, state: StateView) -> InboxView {
        let taken = self.took_upto(state.data, state.data.len() as int);
        InboxView {
            data: if taken.data.len() > MESSAGES_COUNT {
                taken.data.take(MESSAGES_COUNT as int)
            } else {
                taken.data
            },
            info: state.info,
            ..taken
        }
    }
}

impl View for Inbox {
    type V = InboxView;

    closed spec fn view(&self) -> InboxView {
        InboxView {
            data: self.data@,
            seen: self.seen,
            info: self.info,
            pins: self.pinned_filters@,
            filter: self.global_filter,
        }
    }
}

impl Inbox {
    /// An empty inbox under the given filter.
    pub fn new(global_filter: GlobalFilter) -> (inbox: Inbox)
        ensures
            inbox@ == (InboxView {
                data: Seq::empty(),
                seen: None,
                info: LinkInfo { rx_bits: 0, transmitter_socket: false, receiver_socket: false },
                pins: Seq::empty(),
                filter: global_filter,
            }),
    {
        Inbox {
            data: VecDeque::new(),
            seen: None,
            info: LinkInfo::default(),
            pinned_filters: PinnedFilters::default(),
            global_filter,
        }
    }

    /// Takes over a published snapshot and tells whether the driver has
    /// ended.
    pub fn get_data_from_driver(&mut self, driver: &State) -> (exit: bool)
        ensures
            final(self)@ == old(self)@.received(driver@),
            final(self)@.data.len() <= MESSAGES_COUNT,
            exit == driver.exit_signal,
    {
        let n: usize = driver.data.len();
        let mut i: usize = 0;
        while i < n
            invariant
                n == driver.data@.len(),
                i <= n,
                self@ == old(self)@.took_upto(driver.data@, i as int),
            decreases n - i,
        {
            let msg = &driver.data[i];
            let fresh = match self.seen {
                Some(highest) => msg.index > highest,
                None => true,
            };
            if fresh {
                self.seen = Some(msg.index);
                self.pinned_filters.push_data(msg);
                if !self.global_filter.filter(msg) {
                    self.data.push_front(msg.clone());
                }
            }
            i += 1;
        }
        let ghost taken = self.data@;
        proof {
            lemma_filter_kept(old(self)@, driver.data@, n as int);
        }
        while self.data.len() > MESSAGES_COUNT
            invariant
                self.data@.len() <= taken.len(),
                self.data@.len() == taken.len() || self.data@.len() >= MESSAGES_COUNT,
                self.data@ == taken.take(self.data@.len() as int),
                self.seen == old(self)@.took_upto(driver.data@, n as int).seen,
                self.pinned_filters@ == old(self)@.took_upto(driver.data@, n as int).pins,
                self.global_filter == old(self).global_filter,
                self.info == old(self).info,
            decreases self.data@.len(),
        {
            self.data.pop_back();
        }
        self.info = driver.info;
        assert(self.data@ =~= old(self)@.received(driver@).data);
        driver.exit_signal
    }

    /// Pins a copy of `filt` over the messages kept: it starts with the
    /// newest of them that it accepts.
    pub fn pin_filter(&mut self, filt: &DataFilter, now: u64)
        ensures
            final(self)@ == (InboxView {
                pins: old(self)@.pins.push(PinnedFilter::pinned(*filt, old(self)@.data, now)),
                ..old(self)@
            }),
    {
        self.pinned_filters.pin_filter(filt, &self.data, now);
    }

    /// The messages kept, newest first.
    pub fn messages(&self) -> (data: &VecDeque<MessageCached>)
        ensures
            data@ == self@.data,
    {
        &self.data
    }

    /// The link information of the snapshot taken over last.
    pub fn link_info(&self) -> (info: LinkInfo)
        ensures
            info == self@.info,
    {
        self.info
    }
}

/// Taking messages over changes neither the global filter nor the link
/// information.
pub proof fn lemma_filter_kept(inbox: InboxView, msgs: Seq<MessageCached>, n: int)
    ensures
        inbox.took_upto(msgs, n).filter == inbox.filter,
        inbox.took_upto(msgs, n).info == inbox.info,
    decreases n,
{
    if n > 0 {
        lemma_filter_kept(inbox, msgs, n - 1);
    }
}

} // verus!
