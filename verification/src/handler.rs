//! The driver that serves the monotonic-time and system-time interfaces.
//!
//! The host polls the driver for its next event and delivers the messages that
//! processes send to the two interfaces. The driver first registers the two
//! interfaces, one event each, and then answers: clock requests at once, waits
//! when their deadline has come. Every request is answered with a success, or,
//! where it is malformed or waits for a time out of reach, never.
//!
//! Where a wait that is over and a request are both there, the wait is answered
//! first. Waits that are over are answered earliest deadline first.

use crate::clock::instant_now;
use crate::clock::max_duration_nanos;
use crate::clock::monotonic_clock;
use crate::clock::system_clock;
use crate::interface::InterfaceHash;
use crate::message::decode_system_time_spec;
use crate::message::decode_time_spec;
use crate::message::EncodedMessage;
use crate::message::Message;
use crate::message::MessageId;
use crate::message::NativeProgramEvent;
use crate::message::Pid;
use crate::message::Reply;
use crate::message::SystemTimeMessage;
use crate::message::TimeMessage;
use crate::timers::earliest_deadline;
use crate::timers::has_expired;
use crate::timers::schedule;
use crate::timers::sorted_by_deadline;
use crate::timers::Timer;
use crate::timers::TimerSet;
use std::collections::VecDeque;
use std::time::Instant;
use vstd::prelude::*;

verus! {

/// What becomes of a wait for a deadline, seen at some value of the clock.
#[derive(Clone, Copy, Debug, PartialEq, Eq, Structural)]
pub enum Wait {
    /// The deadline has come: the wait is answered at once.
    Over,
    /// The deadline comes after this many nanoseconds: a timer is set.
    For(u64),
    /// The deadline is further away than any timer can wait. The wait is dropped
    /// and never answered.
    Never,
}

/// What a poll of the driver gives.
#[derive(Clone, Copy, Debug, PartialEq, Eq)]
pub enum NextEvent {
    /// An event for the host.
    Ready(NativeProgramEvent),
    /// Nothing to hand out: no wait is over and no request is queued. The next
    /// event comes when a message is delivered or when the monotonic clock
    /// reaches `wake_at`, whichever is first; with `None`, no wait is pending.
    Pending { wake_at: Option<u128> },
}

/// The state of the driver as contracts see it.
pub struct HandlerState {
    /// Identifier of the monotonic-time interface.
    pub time_interface: InterfaceHash,
    /// Identifier of the system-time interface.
    pub system_time_interface: InterfaceHash,
    /// Whether the event that registers the monotonic-time interface was given.
    pub time_registered: bool,
    /// Whether the event that registers the system-time interface was given.
    pub system_time_registered: bool,
    /// The pending waits, earliest deadline first.
    pub timers: Seq<Timer>,
    /// The requests that were delivered and not looked at yet, oldest first.
    pub messages: Seq<(Message, MessageId)>,
}

/// What becomes of a wait for `deadline` at the clock value `now`.
pub open spec fn classify_wait_spec(deadline: u128, now: u128) -> Wait {
    if deadline <= now {
        Wait::Over
    } else if deadline - now <= u64::MAX {
        Wait::For((deadline - now) as u64)
    } else {
        Wait::Never
    }
}

/// The nanoseconds from the clock value `now` until `deadline`: nothing where the
/// deadline has come, and the longest time that a timer can wait where the
/// deadline is further away than that.
pub open spec fn sleep_nanos_spec(deadline: u128, now: u128) -> u64 {
    match classify_wait_spec(deadline, now) {
        Wait::Over => 0,
        Wait::For(nanos) => nanos,
        Wait::Never => u64::MAX,
    }
}

/// The answer that a request gets at once, at the given clock values; `None` for
/// a wait whose deadline has not come.
pub open spec fn reply_spec(message: Message, monotonic: u128, system: u128) -> Option<Reply> {
    match message {
        Message::Time(TimeMessage::GetMonotonic) => Some(Reply::Nanoseconds(monotonic)),
        Message::Time(TimeMessage::WaitMonotonic(deadline)) => if deadline <= monotonic {
            Some(Reply::Unit)
        } else {
            None
        },
        Message::SystemTime(SystemTimeMessage::GetSystem) => Some(Reply::Nanoseconds(system)),
    }
}

/// The pending waits once the request `message` was looked at: a wait whose
/// deadline has not come and is within reach adds a timer, nothing else does.
pub open spec fn timers_after(
    timers: Seq<Timer>,
    message: Message,
    message_id: MessageId,
    monotonic: u128,
) -> Seq<Timer> {
    match message {
        Message::Time(TimeMessage::WaitMonotonic(deadline)) => match classify_wait_spec(
            deadline,
            monotonic,
        ) {
            Wait::For(_) => schedule(timers, Timer { deadline, message_id }),
            _ => timers,
        },
        _ => timers,
    }
}

/// The request that a message delivered to `interface` holds: `bytes` decoded as
/// a request of the monotonic-time interface where `interface` is
/// `time_interface`, and as one of the system-time interface else; `None` where
/// they are malformed.
pub open spec fn decode_spec(
    time_interface: InterfaceHash,
    interface: InterfaceHash,
    bytes: Seq<u8>,
) -> Option<Message> {
    if interface == time_interface {
        match decode_time_spec(bytes) {
            Some(message) => Some(Message::Time(message)),
            None => None,
        }
    } else {
        match decode_system_time_spec(bytes) {
            Some(message) => Some(Message::SystemTime(message)),
            None => None,
        }
    }
}

impl HandlerState {
    /// The state of a driver that was just made.
    pub open spec fn initial(
        time_interface: InterfaceHash,
        system_time_interface: InterfaceHash,
    ) -> HandlerState {
        HandlerState {
            time_interface,
            system_time_interface,
            time_registered: false,
            system_time_registered: false,
            timers: Seq::empty(),
            messages: Seq::empty(),
        }
    }

    /// What holds of the state of every driver: the pending waits are ordered by
    /// deadline, and the system-time interface is not registered before the
    /// monotonic-time interface.
    pub open spec fn wf(self) -> bool {
        &&& sorted_by_deadline(self.timers)
        &&& self.system_time_registered ==> self.time_registered
    }

    /// Both interfaces are registered: the driver serves.
    pub open spec fn registered(self) -> bool {
        self.time_registered && self.system_time_registered
    }

    /// Whether `interface` is one of the two that the driver serves.
    pub open spec fn serves(self, interface: InterfaceHash) -> bool {
        interface == self.time_interface || interface == self.system_time_interface
    }

    /// The state after the message (`message`, `message_id`) was queued.
    pub open spec fn enqueue(self, message: Message, message_id: MessageId) -> HandlerState {
        HandlerState { messages: self.messages.push((message, message_id)), ..self }
    }

    /// The state after a message was delivered: a well-formed one is queued, a
    /// malformed one leaves no trace.
    pub open spec fn deliver(
        self,
        interface: InterfaceHash,
        message_id: Option<MessageId>,
        bytes: Seq<u8>,
    ) -> HandlerState {
        match (decode_spec(self.time_interface, interface, bytes), message_id) {
            (Some(message), Some(message_id)) => self.enqueue(message, message_id),
            _ => self,
        }
    }

    /// The registration step: the event that registers the first interface that
    /// is not registered yet, the monotonic-time interface before the
    /// system-time interface, and the state with that interface marked.
    pub open spec fn register(self) -> (HandlerState, Option<NativeProgramEvent>) {
        if !self.time_registered {
            (
                HandlerState { time_registered: true, ..self },
                Some(NativeProgramEvent::Emit { register: self.time_interface }),
            )
        } else if !self.system_time_registered {
            (
                HandlerState { system_time_registered: true, ..self },
                Some(NativeProgramEvent::Emit { register: self.system_time_interface }),
            )
        } else {
            (self, None)
        }
    }

    /// One pass of serving at the given clock values. A wait that is over is
    /// answered first. Else the queued requests are looked at, oldest first:
    /// the first that has an answer gets it; a wait whose deadline has not come
    /// adds a timer, or is dropped where it is out of reach, and the pass goes
    /// on. With the queue empty the pass ends without an event.
    pub open spec fn serve(self, monotonic: u128, system: u128) -> (HandlerState, NextEvent)
        decreases self.messages.len(),
    {
        if has_expired(self.timers, monotonic) {
            (
                HandlerState { timers: self.timers.drop_first(), ..self },
                NextEvent::Ready(
                    NativeProgramEvent::Answer {
                        message_id: self.timers[0].message_id,
                        answer: Reply::Unit,
                    },
                ),
            )
        } else if self.messages.len() == 0 {
            (self, NextEvent::Pending { wake_at: earliest_deadline(self.timers) })
        } else {
            let (message, message_id) = self.messages[0];
            match reply_spec(message, monotonic, system) {
                Some(answer) => (
                    HandlerState { messages: self.messages.drop_first(), ..self },
                    NextEvent::Ready(NativeProgramEvent::Answer { message_id, answer }),
                ),
                None => HandlerState {
                    messages: self.messages.drop_first(),
                    timers: timers_after(self.timers, message, message_id, monotonic),
                    ..self
                }.serve(monotonic, system),
            }
        }
    }

    /// One poll at the given clock values: the registration step while an
    /// interface is not registered, one pass of serving after that.
    pub open spec fn next_event(self, monotonic: u128, system: u128) -> (HandlerState, NextEvent) {
        match self.register() {
            (state, Some(event)) => (state, NextEvent::Ready(event)),
            (_, None) => self.serve(monotonic, system),
        }
    }
}

/// Decodes a message that was delivered to `interface`: as a request of the
/// monotonic-time interface where `interface` is `time_interface`, as one of the
/// system-time interface else. Gives `None` for a malformed message.
pub fn decode(
    time_interface: InterfaceHash,
    interface: InterfaceHash,
    message: &EncodedMessage,
) -> (decoded: Option<Message>)
    ensures
        decoded == decode_spec(time_interface, interface, message@),
{
    if interface == time_interface {
        match TimeMessage::decode(message) {
            Ok(decoded) => Some(Message::Time(decoded)),
            Err(_) => None,
        }
    } else {
        match SystemTimeMessage::decode(message) {
            Ok(decoded) => Some(Message::SystemTime(decoded)),
            Err(_) => None,
        }
    }
}

/// Decides what becomes of a wait for `deadline` at the clock value `now`.
pub fn classify_wait(deadline: u128, now: u128) -> (wait: Wait)
    ensures
        wait == classify_wait_spec(deadline, now),
{
    if deadline <= now {
        Wait::Over
    } else {
        let remaining: u128 = deadline - now;
        if remaining <= 0xffff_ffff_ffff_ffffu128 {
            Wait::For(remaining as u64)
        } else {
            Wait::Never
        }
    }
}

/// How long to sleep at the clock value `now` before the deadline `wake_at` of a
/// poll that gave nothing: the nanoseconds that are left, nothing where the
/// deadline has come meanwhile, and at most what a timer can wait.
pub fn sleep_nanos(wake_at: u128, now: u128) -> (nanos: u64)
    ensures
        nanos == sleep_nanos_spec(wake_at, now),
{
    match classify_wait(wake_at, now) {
        Wait::Over => 0,
        Wait::For(nanos) => nanos,
        Wait::Never => u64::MAX,
    }
}

/// The answer that a request gets at once, at the given clock values.
pub fn reply_to(message: Message, monotonic: u128, system: u128) -> (reply: Option<Reply>)
    ensures
        reply == reply_spec(message, monotonic, system),
{
    match message {
        Message::Time(TimeMessage::GetMonotonic) => Some(Reply::Nanoseconds(monotonic)),
        Message::Time(TimeMessage::WaitMonotonic(deadline)) => match classify_wait(
            deadline,
            monotonic,
        ) {
            Wait::Over => Some(Reply::Unit),
            _ => None,
        },
        Message::SystemTime(SystemTimeMessage::GetSystem) => Some(Reply::Nanoseconds(system)),
    }
}

/// State machine for `time` interface messages handling.
pub struct TimerHandler {
    /// Identifier of the monotonic-time interface.
    time_interface: InterfaceHash,
    /// Identifier of the system-time interface.
    system_time_interface: InterfaceHash,
    /// If true, the time interface registration event was given.
    time_registered: bool,
    /// If true, the system-time interface registration event was given.
    system_time_registered: bool,
    /// The pending waits.
    timers: TimerSet,
    /// The received interface messages that were not looked at yet.
    messages: VecDeque<(Message, MessageId)>,
    /// The instant from which the monotonic clock counts.
    clock_start: Instant,
}

impl View for TimerHandler {
    type V = HandlerState;

    closed spec fn view(&self) -> HandlerState {
        HandlerState {
            time_interface: self.time_interface,
            system_time_interface: self.system_time_interface,
            time_registered: self.time_registered,
            system_time_registered: self.system_time_registered,
            timers: self.timers@,
            messages: self.messages@,
        }
    }
}

impl TimerHandler {
    /// The invariant of the driver: that of its state.
    pub open spec fn wf(&self) -> bool {
        self@.wf()
    }

    /// Initializes the new state machine for timers. The monotonic clock counts
    /// from the moment of this call.
    pub fn new(
        time_interface: InterfaceHash,
        system_time_interface: InterfaceHash,
    ) -> (handler: TimerHandler)
        ensures
            handler.wf(),
            handler@ == HandlerState::initial(time_interface, system_time_interface),
    {
        TimerHandler {
            time_interface,
            system_time_interface,
            time_registered: false,
            system_time_registered: false,
            timers: TimerSet::new(),
            messages: VecDeque::new(),
            clock_start: instant_now(),
        }
    }

    /// Reads the monotonic clock of this driver: the nanoseconds since it was made.
    pub fn monotonic_clock(&self) -> (now: u128)
        ensures
            now <= max_duration_nanos(),
    {
        monotonic_clock(&self.clock_start)
    }

    /// The number of requests that were delivered and not looked at yet.
    pub fn queued(&self) -> (len: usize)
        ensures
            len == self@.messages.len(),
    {
        self.messages.len()
    }

    /// The number of pending waits.
    pub fn pending_timers(&self) -> (len: usize)
        ensures
            len == self@.timers.len(),
    {
        self.timers.len()
    }

    /// The identifier of the monotonic-time interface.
    pub fn time_interface(&self) -> (interface: InterfaceHash)
        ensures
            interface == self@.time_interface,
    {
        self.time_interface
    }

    /// The identifier of the system-time interface.
    pub fn system_time_interface(&self) -> (interface: InterfaceHash)
        ensures
            interface == self@.system_time_interface,
    {
        self.system_time_interface
    }

    /// Whether `interface` is one of the two that the driver serves.
    pub fn serves(&self, interface: InterfaceHash) -> (served: bool)
        ensures
            served == self@.serves(interface),
    {
        interface == self.time_interface || interface == self.system_time_interface
    }

    /// Queues a request behind those that came before it.
    pub fn enqueue(&mut self, message: Message, message_id: MessageId)
        requires
            old(self).wf(),
        ensures
            final(self).wf(),
            final(self)@ == old(self)@.enqueue(message, message_id),
    {
        self.messages.push_back((message, message_id));
    }

    /// Takes a message that a process sent to one of the two interfaces. A
    /// well-formed request is queued behind those that came before. A malformed
    /// one is dropped: the driver is left as it was, and the message is never
    /// answered. Never waits, and hands nothing out.
    ///
    /// The interface must be one of the two, and a well-formed request must come
    /// with the identifier to answer it by.
    pub fn interface_message(
        &mut self,
        interface: InterfaceHash,
        message_id: Option<MessageId>,
        emitter_pid: Pid,
        message: EncodedMessage,
    )
        requires
            old(self).wf(),
            old(self)@.serves(interface),
            decode_spec(old(self)@.time_interface, interface, message@) is Some
                ==> message_id is Some,
        ensures
            final(self).wf(),
            final(self)@ == old(self)@.deliver(interface, message_id, message@),
    {
        match decode(self.time_interface, interface, &message) {
            Some(decoded) => {
                self.enqueue(decoded, message_id.unwrap());
            },
            None => {},
        }
    }

    /// Takes notice that a process is gone. The driver keeps nothing by process,
    /// so nothing changes.
    pub fn process_destroyed(&self, pid: Pid) {
    }

    /// The registration step of a poll: gives the event that registers the
    /// monotonic-time interface on the first call, the event that registers the
    /// system-time interface on the second, and `None` ever after. Each call that
    /// gives an event marks its interface, so that no interface is registered
    /// twice.
    pub fn register(&mut self) -> (event: Option<NativeProgramEvent>)
        requires
            old(self).wf(),
        ensures
            final(self).wf(),
            (final(self)@, event) == old(self)@.register(),
    {
        if !self.time_registered {
            self.time_registered = true;
            Some(NativeProgramEvent::Emit { register: self.time_interface })
        } else if !self.system_time_registered {
            self.system_time_registered = true;
            Some(NativeProgramEvent::Emit { register: self.system_time_interface })
        } else {
            None
        }
    }

    /// One pass of serving at the given values of the monotonic clock and of the
    /// wall clock. Gives at most one event, and looks at no more requests than it
    /// takes to find it.
    pub fn serve(&mut self, monotonic: u128, system: u128) -> (event: NextEvent)
        requires
            old(self).wf(),
        ensures
            final(self).wf(),
            (final(self)@, event) == old(self)@.serve(monotonic, system),
    {
        loop
            invariant
                self.wf(),
                self@.serve(monotonic, system) == old(self)@.serve(monotonic, system),
            decreases self@.messages.len(),
        {
            match self.timers.pop_expired(monotonic) {
                Some(message_id) => {
                    return NextEvent::Ready(
                        NativeProgramEvent::Answer { message_id, answer: Reply::Unit },
                    );
                },
                None => {},
            }
            match self.messages.pop_front() {
                None => {
                    return NextEvent::Pending { wake_at: self.timers.next_deadline() };
                },
                Some((message, message_id)) => {
                    match reply_to(message, monotonic, system) {
                        Some(answer) => {
                            return NextEvent::Ready(
                                NativeProgramEvent::Answer { message_id, answer },
                            );
                        },
                        None => {
                            match message {
                                Message::Time(TimeMessage::WaitMonotonic(deadline)) => {
                                    match classify_wait(deadline, monotonic) {
                                        Wait::For(_) => {
                                            self.timers.insert(deadline, message_id);
                                        },
                                        _ => {},
                                    }
                                },
                                _ => {},
                            }
                        },
                    }
                },
            }
        }
    }

    /// One poll at the given values of the monotonic clock and of the wall clock:
    /// the registration step while an interface is not registered, one pass of
    /// serving after that.
    pub fn next_event_at(&mut self, monotonic: u128, system: u128) -> (event: NextEvent)
        requires
            old(self).wf(),
        ensures
            final(self).wf(),
            (final(self)@, event) == old(self)@.next_event(monotonic, system),
    {
        match self.register() {
            Some(event) => NextEvent::Ready(event),
            None => self.serve(monotonic, system),
        }
    }

    /// One poll at the present time. Reads the two clocks once the interfaces are
    /// registered. Gives `None`, and leaves the driver as it was, where the wall
    /// clock reads a time before the Unix epoch.
    pub fn next_event(&mut self) -> (event: Option<NextEvent>)
        requires
            old(self).wf(),
        ensures
            final(self).wf(),
            match event {
                Some(event) => exists|monotonic: u128, system: u128|
                    (final(self)@, event) == #[trigger] old(self)@.next_event(monotonic, system),
                None => final(self)@ == old(self)@ && old(self)@.registered(),
            },
    {
        match self.register() {
            Some(event) => {
                assert((self@, NextEvent::Ready(event)) == old(self)@.next_event(0, 0));
                Some(NextEvent::Ready(event))
            },
            None => {
                let monotonic: u128 = self.monotonic_clock();
                match system_clock() {
                    Some(system) => {
                        let event = self.serve(monotonic, system);
                        assert((self@, event) == old(self)@.next_event(monotonic, system));
                        Some(event)
                    },
                    None => None,
                }
            },
        }
    }
}

} // verus!
