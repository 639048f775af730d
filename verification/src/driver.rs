use crate::message_cached::{Frame, MessageCached};
use std::collections::VecDeque;
use vstd::prelude::*;

verus! {

/// Most messages that a published state holds.
pub const MAX_MESSAGES_IN_STATE: usize = 512;

/// Highest bit-rate that the operator may ask for.
pub const MAX_BITRATE: u32 = 1_000_000;

/// Instruction from the operator to the driver.
#[derive(Debug, Clone, Copy, PartialEq, Eq, Structural)]
pub enum ControlCommand {
    /// Keep the connection but consume no frames.
    Stop,
    /// End the driver. Once adopted it is never left.
    Kill,
    /// Normal operation.
    Process,
}

/// Which bus to open, and at what speed (`None`: as already configured).
#[derive(Debug)]
pub struct Connection {
    pub can_name: String,
    pub bitrate: Option<u32>,
}

/// Link status as the bus interface reports it.
#[derive(Debug, Clone, Copy, PartialEq, Eq, Structural)]
pub struct LinkInfo {
    pub rx_bits: u64,
    pub transmitter_socket: bool,
    pub receiver_socket: bool,
}

/// The command and the connection that the operator last set.
#[derive(Debug)]
pub struct Control {
    pub command: ControlCommand,
    pub connection: Connection,
}

/// What the driver publishes after every cycle.
#[derive(Debug)]
pub struct State {
    pub can_name: String,
    pub bitrate: Option<u32>,
    pub data: VecDeque<MessageCached>,
    pub info: LinkInfo,
    pub exit_signal: bool,
}

/// A published state as plain values.
pub struct StateView {
    pub can_name: Seq<char>,
    pub bitrate: Option<u32>,
    pub data: Seq<MessageCached>,
    pub info: LinkInfo,
    pub exit_signal: bool,
}

/// What the wait at the start of a cycle ended with.
#[derive(Debug, Clone, Copy)]
pub enum Event {
    /// A frame arrived.
    Frame(Frame),
    /// Nothing arrived within the timeout.
    Timeout,
    /// The operator asked for shutdown.
    Cancelled,
}

/// What one cycle starts from: how the wait ended, the control value if
/// the operator has set one since the last cycle, and the link information
/// read from the bus interface.
#[derive(Debug)]
pub struct Input {
    pub event: Event,
    pub update: Option<Control>,
    pub info: LinkInfo,
}

/// What one cycle hands back: the descriptor to pass on to the bus
/// interface, if a new control value changed it; the snapshot to publish;
/// and whether the loop ends after publishing it.
#[derive(Debug)]
pub struct Cycle {
    pub reconfigure: Option<Connection>,
    pub snapshot: State,
    pub finished: bool,
}

/// The control loop's state: the state to publish, the control value in
/// force and the next sequence index.
#[derive(Debug)]
pub struct Driver {
    state: State,
    control: Control,
    index: u64,
}

impl Connection {
    /// Both descriptors name the same bus at the same speed.
    pub open spec fn same_as(&self, other: &Connection) -> bool {
        self.can_name@ == other.can_name@ && self.bitrate == other.bitrate
    }

    /// Whether both descriptors name the same bus at the same speed.
    pub fn matches(&self, other: &Connection) -> (same: bool)
        ensures
            same == self.same_as(other),
    {
        let same_rate = match (self.bitrate, other.bitrate) {
            (Some(a), Some(b)) => a == b,
            (None, None) => true,
            _ => false,
        };
        same_rate && self.can_name == other.can_name
    }
}

impl Clone for Connection {
    fn clone(&self) -> (r: Self)
        ensures
            r == *self,
    {
        Connection { can_name: self.can_name.clone(), bitrate: self.bitrate }
    }
}

impl Clone for Control {
    fn clone(&self) -> (r: Self)
        ensures
            r == *self,
    {
        Control { command: self.command, connection: self.connection.clone() }
    }
}

impl LinkInfo {
    /// Whether the link shows any sign of life: a socket is open or bits
    /// have been received.
    pub fn connected(&self) -> (c: bool)
        ensures
            c == (self.receiver_socket || self.transmitter_socket || self.rx_bits > 0),
    {
        self.receiver_socket || self.transmitter_socket || self.rx_bits > 0
    }
}

impl Control {
    /// The control value that the operator's switches stand for: `Stop`
    /// while paused, else `Process`, on the given connection.
    pub fn for_operator(stopped: bool, connection: Connection) -> (c: Control)
        ensures
            c.command == if stopped {
                ControlCommand::Stop
            } else {
                ControlCommand::Process
            },
            c.connection == connection,
    {
        Control {
            command: if stopped {
                ControlCommand::Stop
            } else {
                ControlCommand::Process
            },
            connection,
        }
    }
}

/// Whether the operator's entries may be used to connect: a bus name, and
/// either no bit-rate text or a bit-rate from 1 to `MAX_BITRATE`.
pub fn connect_allowed(can_name: &str, bitrate_raw: &str, bitrate: Option<u32>) -> (allowed: bool)
    ensures
        allowed == (can_name@.len() > 0 && (bitrate_raw@.len() == 0 || match bitrate {
            Some(b) => 0 < b <= MAX_BITRATE,
            None => false,
        })),
{
    if can_name.is_empty() {
        return false;
    }
    match bitrate {
        Some(b) => (0 < b && b <= MAX_BITRATE) || bitrate_raw.is_empty(),
        None => bitrate_raw.is_empty(),
    }
}

impl Default for LinkInfo {
    fn default() -> (r: Self)
        ensures
            r == (LinkInfo { rx_bits: 0, transmitter_socket: false, receiver_socket: false }),
    {
        LinkInfo { rx_bits: 0, transmitter_socket: false, receiver_socket: false }
    }
}

impl View for State {
    type V = StateView;

    open spec fn view(&self) -> StateView {
        StateView {
            can_name: self.can_name@,
            bitrate: self.bitrate,
            data: self.data@,
            info: self.info,
            exit_signal: self.exit_signal,
        }
    }
}

impl Default for State {
    fn default() -> (r: Self)
        ensures
            r@ == State::initial(),
    {
        State {
            can_name: String::new(),
            bitrate: None,
            data: VecDeque::new(),
            info: LinkInfo::default(),
            exit_signal: false,
        }
    }
}

impl Clone for State {
    fn clone(&self) -> (r: Self)
        ensures
            r@ == self@,
    {
        let data = self.data.clone();
        assert(data@ =~= self.data@);
        State {
            can_name: self.can_name.clone(),
            bitrate: self.bitrate,
            data,
            info: self.info,
            exit_signal: self.exit_signal,
        }
    }
}

impl State {
    /// The state before the first cycle: no name, no messages, link closed.
    pub open spec fn initial() -> StateView {
        StateView {
            can_name: Seq::empty(),
            bitrate: None,
            data: Seq::empty(),
            info: LinkInfo { rx_bits: 0, transmitter_socket: false, receiver_socket: false },
            exit_signal: false,
        }
    }
}

/// The sequence indices rise by one from each message to the next.
pub open spec fn consecutive(cache: Seq<MessageCached>) -> bool {
    forall|i: int, j: int|
        0 <= i && j == i + 1 && j < cache.len() ==> (#[trigger] cache[j]).index == (
        #[trigger] cache[i]).index + 1
}

/// The newest message of `later` is the newest of `earlier` or the one
/// with the next sequence index.
pub open spec fn follows(earlier: Seq<MessageCached>, later: Seq<MessageCached>) -> bool {
    earlier.len() > 0 ==> later.len() > 0 && (later.last().index == earlier.last().index
        || later.last().index == earlier.last().index + 1)
}

/// `drivers` are the drivers after the first cycles of a loop that starts
/// in `start` and takes `inputs` in order: each is what a cycle makes of the
/// one before it, and none but the last is under `Kill`.
pub open spec fn ran(start: Driver, inputs: Seq<Input>, drivers: Seq<Driver>) -> bool {
    &&& drivers.len() <= inputs.len()
    &&& drivers.len() > 0 ==> start.cycled(&drivers[0], inputs[0])
    &&& forall|j: int, k: int|
        #![trigger drivers[j], drivers[k]]
        0 <= j && k == j + 1 && k < drivers.len() ==> drivers[j].cycled(&drivers[k], inputs[k])
            && drivers[j].command() != ControlCommand::Kill
}

/// The snapshots are the states of the drivers, one for one.
pub open spec fn published(drivers: Seq<Driver>, snapshots: Seq<State>) -> bool {
    &&& snapshots.len() == drivers.len()
    &&& forall|k: int| 0 <= k < drivers.len() ==> (#[trigger] snapshots[k])@ == drivers[k].state()
}

/// The last `MAX_MESSAGES_IN_STATE` messages of a cache, in their order.
pub open spec fn retained(cache: Seq<MessageCached>) -> Seq<MessageCached> {
    if cache.len() > MAX_MESSAGES_IN_STATE {
        cache.skip(cache.len() - MAX_MESSAGES_IN_STATE)
    } else {
        cache
    }
}

/// The messages of `cache` carry the `cache.len()` sequence indices that
/// end just below `next`, in rising order.
pub open spec fn latest_in_order(cache: Seq<MessageCached>, next: u64) -> bool {
    &&& cache.len() <= next
    &&& forall|i: int|
        0 <= i < cache.len() ==> (#[trigger] cache[i]).index == next - cache.len() + i
}

impl Driver {
    /// The state that the next publication will show.
    pub closed spec fn state(&self) -> StateView {
        self.state@
    }

    /// The command in force.
    pub closed spec fn command(&self) -> ControlCommand {
        self.control.command
    }

    /// The connection descriptor in force.
    pub closed spec fn connection(&self) -> Connection {
        self.control.connection
    }

    /// The sequence index that the next classified frame gets.
    pub closed spec fn next_index(&self) -> u64 {
        self.index
    }

    /// The cache holds the newest messages, as many as have been classified
    /// up to the capacity, and the exit signal is up only after `Kill`.
    pub open spec fn wf(&self) -> bool {
        &&& latest_in_order(self.state().data, self.next_index())
        &&& self.state().data.len() == if self.next_index() < MAX_MESSAGES_IN_STATE {
            self.next_index() as int
        } else {
            MAX_MESSAGES_IN_STATE as int
        }
        &&& self.state().exit_signal ==> self.command() == ControlCommand::Kill
    }

    /// A driver before its first cycle, under the given control value.
    pub fn new(control: Control) -> (d: Driver)
        ensures
            d.wf(),
            d.state() == State::initial(),
            d.next_index() == 0,
            d.command() == control.command,
            d.connection() == control.connection,
    {
        Driver { state: State::default(), control, index: 0 }
    }

    /// The sequence index that the next classified frame gets.
    pub fn sequence_index(&self) -> (index: u64)
        ensures
            index == self.next_index(),
    {
        self.index
    }

    /// Appends a classified message to the cache and evicts from the front
    /// until the cache is within capacity.
    pub fn store(&mut self, message: MessageCached)
        requires
            old(self).wf(),
            message.index == old(self).next_index(),
            old(self).next_index() < u64::MAX,
        ensures
            final(self).wf(),
            final(self).next_index() == old(self).next_index() + 1,
            final(self).state() == (StateView {
                data: retained(old(self).state().data.push(message)),
                ..old(self).state()
            }),
            final(self).command() == old(self).command(),
            final(self).connection() == old(self).connection(),
    {
        let ghost appended = self.state.data@.push(message);
        self.index += 1;
        self.state.data.push_back(message);
        while self.state.data.len() > MAX_MESSAGES_IN_STATE
            invariant
                self.state.data@.len() <= appended.len(),
                self.state.data@.len() == appended.len() || self.state.data@.len()
                    >= MAX_MESSAGES_IN_STATE,
                self.state.data@ == appended.skip(appended.len() - self.state.data@.len()),
                self.state.can_name == old(self).state.can_name,
                self.state.bitrate == old(self).state.bitrate,
                self.state.info == old(self).state.info,
                self.state.exit_signal == old(self).state.exit_signal,
                self.control == old(self).control,
                self.index == old(self).index + 1,
            decreases self.state.data@.len(),
        {
            self.state.data.pop_front();
        }
        assert(self.state.data@ =~= retained(appended));
    }

    /// The decisions of one cycle, up to publication.
    ///
    /// A cancellation forces `Kill` and ends the cycle at once. Otherwise a
    /// control value that the operator has set since the last cycle is
    /// adopted, and its connection descriptor, if it differs from the one
    /// in force, is handed back for the bus interface; the link information
    /// is refreshed; and, under `Process`,
    /// a frame that arrived is classified and stored. A driver that has
    /// published its exit signal has ended: it changes nothing.
    pub fn process(&mut self, event: Event, update: Option<Control>, info: LinkInfo) -> (reconfigure:
        Option<Connection>)
        requires
            old(self).wf(),
            old(self).next_index() < u64::MAX,
        ensures
            final(self).wf(),
            old(self).processed(final(self), event, update, info),
            reconfigure == old(self).reconfigured(event, update),
            final(self).state().exit_signal == old(self).state().exit_signal,
    {
        if self.state.exit_signal {
            return None;
        }
        let frame = match event {
            Event::Cancelled => {
                self.control.command = ControlCommand::Kill;
                return None;
            },
            Event::Frame(frame) => Some(frame),
            Event::Timeout => None,
        };
        let reconfigure = match update {
            Some(control) => {
                let changed = !control.connection.matches(&self.control.connection);
                let connection = control.connection.clone();
                self.control = control;
                if changed {
                    Some(connection)
                } else {
                    None
                }
            },
            None => None,
        };
        self.state.info = info;
        match self.control.command {
            ControlCommand::Stop | ControlCommand::Kill => {
                return reconfigure;
            },
            ControlCommand::Process => {},
        }
        match frame {
            Some(frame) => {
                let message = MessageCached::new(self.index, frame);
                self.store(message);
            },
            None => {},
        }
        reconfigure
    }

    /// What a cycle's decisions make of the driver, the exit signal aside:
    /// `next` is the driver after a cycle that began in `self`.
    pub open spec fn processed(
        &self,
        next: &Driver,
        event: Event,
        update: Option<Control>,
        info: LinkInfo,
    ) -> bool {
        &&& next.command() == self.command_after(event, update)
        &&& next.connection() == self.connection_after(event, update)
        &&& next.state().can_name == self.state().can_name
        &&& next.state().bitrate == self.state().bitrate
        &&& next.state().info == if self.refreshes(event) {
            info
        } else {
            self.state().info
        }
        &&& match event {
            Event::Frame(frame) if self.consumes(event, update) => {
                &&& next.next_index() == self.next_index() + 1
                &&& next.state().data.len() > 0
                &&& next.state().data.last().classifies(self.next_index(), frame)
                &&& next.state().data == retained(
                    self.state().data.push(next.state().data.last()),
                )
            },
            _ => {
                &&& next.next_index() == self.next_index()
                &&& next.state().data == self.state().data
            },
        }
    }

    /// Whether the driver has published its exit signal and so has ended.
    pub open spec fn ended(&self) -> bool {
        self.state().exit_signal
    }

    /// Whether the cycle gets as far as adopting control and refreshing the
    /// link information: the driver has not ended and was not cancelled.
    pub open spec fn refreshes(&self, event: Event) -> bool {
        !self.ended() && !(event is Cancelled)
    }

    /// The command in force after a cycle.
    pub open spec fn command_after(&self, event: Event, update: Option<Control>) -> ControlCommand {
        if self.ended() {
            self.command()
        } else if event is Cancelled {
            ControlCommand::Kill
        } else {
            match update {
                Some(control) => control.command,
                None => self.command(),
            }
        }
    }

    /// The connection descriptor in force after a cycle.
    pub open spec fn connection_after(&self, event: Event, update: Option<Control>) -> Connection {
        match update {
            Some(control) if self.refreshes(event) => control.connection,
            _ => self.connection(),
        }
    }

    /// The descriptor that a cycle hands to the bus interface: that of an
    /// adopted control value, if it differs from the one in force.
    pub open spec fn reconfigured(&self, event: Event, update: Option<Control>) -> Option<
        Connection,
    > {
        match update {
            Some(control) if self.refreshes(event) && !control.connection.same_as(
                &self.connection(),
            ) => Some(control.connection),
            _ => None,
        }
    }

    /// `next` is the driver that one whole cycle, publication included,
    /// makes of `self`.
    pub open spec fn cycled(&self, next: &Driver, input: Input) -> bool {
        &&& next.wf()
        &&& self.processed(next, input.event, input.update, input.info)
        &&& next.ended() == (next.command() == ControlCommand::Kill)
    }

    /// Whether a cycle consumes a frame that arrived: only under `Process`.
    pub open spec fn consumes(&self, event: Event, update: Option<Control>) -> bool {
        self.refreshes(event) && self.command_after(event, update) == ControlCommand::Process
    }

    /// Raises the exit signal if the command is `Kill`, and hands back the
    /// snapshot to publish and whether the loop ends with it.
    pub fn publish(&mut self) -> (out: (State, bool))
        requires
            old(self).wf(),
        ensures
            final(self).wf(),
            out.1 == (old(self).command() == ControlCommand::Kill),
            out.0@ == final(self).state(),
            final(self).state() == (StateView { exit_signal: out.1, ..old(self).state() }),
            final(self).command() == old(self).command(),
            final(self).connection() == old(self).connection(),
            final(self).next_index() == old(self).next_index(),
    {
        let finished = self.control.command == ControlCommand::Kill;
        if finished {
            self.state.exit_signal = true;
        }
        (self.state.clone(), finished)
    }

    /// One whole cycle: the decisions, then the publication.
    pub fn run_cycle(&mut self, event: Event, update: Option<Control>, info: LinkInfo) -> (cycle:
        Cycle)
        requires
            old(self).wf(),
            old(self).next_index() < u64::MAX,
        ensures
            final(self).wf(),
            old(self).processed(final(self), event, update, info),
            cycle.reconfigure == old(self).reconfigured(event, update),
            cycle.finished == (old(self).command_after(event, update) == ControlCommand::Kill),
            cycle.snapshot@ == final(self).state(),
            cycle.snapshot.exit_signal == cycle.finished,
    {
        let reconfigure = self.process(event, update, info);
        let (snapshot, finished) = self.publish();
        Cycle { reconfigure, snapshot, finished }
    }

    /// Runs the loop over the given inputs, one cycle each, until they are
    /// used up or a cycle ends the loop, and hands back the snapshots
    /// published, in order.
    ///
    /// Every snapshot is within capacity with consecutive sequence indices,
    /// and from each snapshot to the next the newest index stays or rises
    /// by one. The exit signal is up in the last snapshot of a loop that
    /// `Kill` ended, and in no other.
    pub fn run(&mut self, inputs: &Vec<Input>) -> (out: Vec<State>)
        requires
            old(self).wf(),
            old(self).next_index() + inputs@.len() <= u64::MAX,
        ensures
            final(self).wf(),
            exists|drivers: Seq<Driver>|
                {
                    &&& #[trigger] ran(*old(self), inputs@, drivers)
                    &&& published(drivers, out@)
                    &&& *final(self) == if drivers.len() > 0 {
                        drivers.last()
                    } else {
                        *old(self)
                    }
                },
            out@.len() <= inputs@.len(),
            out@.len() == inputs@.len() || final(self).command() == ControlCommand::Kill,
            final(self).command() == ControlCommand::Kill && inputs@.len() > 0 ==> out@.len() > 0,
            forall|i: int|
                0 <= i < out@.len() ==> (#[trigger] out@[i]).data@.len() <= MAX_MESSAGES_IN_STATE
                    && consecutive(out@[i].data@),
            forall|i: int|
                0 <= i < out@.len() ==> (#[trigger] out@[i]).exit_signal == (i == out@.len() - 1
                    && final(self).command() == ControlCommand::Kill),
            forall|i: int| 0 < i < out@.len() ==> follows(out@[i - 1].data@, (#[trigger] out@[i]).data@),
    {
        let mut out: Vec<State> = Vec::new();
        let n: usize = inputs.len();
        let mut i: usize = 0;
        let mut finished = false;
        let ghost mut drivers: Seq<Driver> = Seq::empty();
        while i < n && !finished
            invariant
                self.wf(),
                ran(*old(self), inputs@, drivers),
                published(drivers, out@),
                *self == if drivers.len() > 0 {
                    drivers.last()
                } else {
                    *old(self)
                },
                n == inputs@.len(),
                i <= n,
                out@.len() == i,
                old(self).next_index() + n <= u64::MAX,
                self.next_index() <= old(self).next_index() + i,
                finished ==> self.command() == ControlCommand::Kill && i > 0,
                !finished && i > 0 ==> self.command() != ControlCommand::Kill,
                i > 0 ==> out@[i - 1]@ == self.state(),
                forall|k: int|
                    0 <= k < i ==> (#[trigger] out@[k]).data@.len() <= MAX_MESSAGES_IN_STATE
                        && consecutive(out@[k].data@),
                forall|k: int|
                    0 <= k < i ==> (#[trigger] out@[k]).exit_signal == (finished && k == i - 1),
                forall|k: int| 0 < k < i ==> follows(out@[k - 1].data@, (#[trigger] out@[k]).data@),
            decreases n - i,
        {
            let input = &inputs[i];
            let ghost before = *self;
            let cycle = self.run_cycle(input.event, input.update.clone(), input.info);
            proof {
                lemma_cycle_follows(before, *self, input.event, input.update, input.info);
                assert(cycle.snapshot.data@ == self.state().data);
                assert(i > 0 ==> out@[i - 1].data@ == before.state().data);
            }
            finished = cycle.finished;
            out.push(cycle.snapshot);
            proof {
                lemma_ran_extends(*old(self), inputs@, drivers, *self);
                drivers = drivers.push(*self);
            }
            i += 1;
        }
        out
    }
}

/// The published cache never holds more than its capacity, and holds the
/// most recent messages in arrival order: their sequence indices rise by
/// one from each message to the next and end just below the next index to
/// be assigned.
pub proof fn lemma_cache_holds_latest(driver: Driver)
    requires
        driver.wf(),
    ensures
        driver.state().data.len() <= MAX_MESSAGES_IN_STATE,
        driver.state().data.len() == MAX_MESSAGES_IN_STATE || driver.state().data.len()
            == driver.next_index(),
        forall|i: int, j: int|
            0 <= i < j < driver.state().data.len() ==> (#[trigger] driver.state().data[i]).index < (
            #[trigger] driver.state().data[j]).index,
        consecutive(driver.state().data),
        driver.state().data.len() > 0 ==> driver.state().data.last().index + 1
            == driver.next_index(),
{
}

/// Sequence indices are assigned in order, without gaps or repeats: a cycle
/// either assigns none and leaves the next index as it is, or assigns
/// exactly the next index to the message it stores last, above every index
/// assigned before.
pub proof fn lemma_indices_consecutive(
    before: Driver,
    after: Driver,
    event: Event,
    update: Option<Control>,
    info: LinkInfo,
)
    requires
        before.wf(),
        after.wf(),
        before.processed(&after, event, update, info),
    ensures
        after.next_index() == before.next_index() || {
            &&& after.next_index() == before.next_index() + 1
            &&& after.state().data.len() > 0
            &&& after.state().data.last().index == before.next_index()
            &&& forall|i: int|
                0 <= i < before.state().data.len() ==> (#[trigger] before.state().data[i]).index
                    < before.next_index()
        },
{
}

/// The exit signal never comes down: a driver that has ended is still
/// ended after any further cycle.
pub proof fn lemma_exit_signal_stays(before: Driver, after: Driver, input: Input)
    requires
        before.wf(),
        before.cycled(&after, input),
        before.ended(),
    ensures
        after.ended(),
        after.state() == before.state(),
{
}

/// A loop that has not ended goes on by one cycle.
pub proof fn lemma_ran_extends(
    start: Driver,
    inputs: Seq<Input>,
    drivers: Seq<Driver>,
    next: Driver,
)
    requires
        ran(start, inputs, drivers),
        drivers.len() < inputs.len(),
        drivers.len() > 0 ==> drivers.last().command() != ControlCommand::Kill,
        (if drivers.len() > 0 {
            drivers.last()
        } else {
            start
        }).cycled(&next, inputs[drivers.len() as int]),
    ensures
        ran(start, inputs, drivers.push(next)),
{
    let longer = drivers.push(next);
    assert forall|j: int, k: int|
        #![trigger longer[j], longer[k]]
        0 <= j && k == j + 1 && k < longer.len() implies longer[j].cycled(&longer[k], inputs[k])
        && longer[j].command() != ControlCommand::Kill by {
        if k < drivers.len() {
            assert(drivers[j].cycled(&drivers[k], inputs[k]));
        }
    }
}

/// From one cycle to the next the cache stays within capacity with
/// consecutive sequence indices, and its newest index stays or rises by one.
pub proof fn lemma_cycle_follows(
    before: Driver,
    after: Driver,
    event: Event,
    update: Option<Control>,
    info: LinkInfo,
)
    requires
        before.wf(),
        after.wf(),
        before.processed(&after, event, update, info),
    ensures
        follows(before.state().data, after.state().data),
        consecutive(after.state().data),
        after.state().data.len() <= MAX_MESSAGES_IN_STATE,
        before.next_index() <= after.next_index() <= before.next_index() + 1,
{
}

/// `Kill` is terminal and always published: a cancellation forces it, a
/// cycle that ends under `Kill` raises the exit signal, and a driver that
/// has raised it stays under `Kill`, consumes nothing and keeps the signal
/// up.
pub proof fn lemma_kill_is_terminal(
    before: Driver,
    after: Driver,
    event: Event,
    update: Option<Control>,
    info: LinkInfo,
)
    requires
        before.wf(),
        after.wf(),
        before.processed(&after, event, update, info),
    ensures
        !before.ended() && event is Cancelled ==> after.command() == ControlCommand::Kill,
        before.ended() ==> after.command() == ControlCommand::Kill && !before.consumes(
            event,
            update,
        ) && after.state().data == before.state().data && after.state().info
            == before.state().info,
{
}

} // verus!
