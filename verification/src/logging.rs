//! The diagnostic logger: a slot that is filled once, a lock that admits one
//! writer, and the byte-by-byte write protocol.
//!
//! The transmitter itself is not here. A writer takes the handle out of the
//! slot, drives a `WriteJob` against the transmitter, and puts the handle
//! back; while it is out nobody else can write.

use vstd::prelude::*;

verus! {

/// What the slot holds.
#[derive(Debug)]
pub enum LogState<T> {
    /// No transmitter yet: writers have to wait.
    Empty,
    /// The transmitter, free to be taken.
    Ready(T),
    /// A writer has the transmitter.
    Held,
}

#[derive(Clone, Copy, Debug, PartialEq, Eq, Structural)]
pub enum LogError {
    /// `set_logger` has not run yet: try again later.
    NotInitialized,
    /// Another writer holds the lock.
    Busy,
}

/// The state after `set_logger`: the first transmitter stays, a later one is
/// dropped.
pub open spec fn after_set<T>(state: LogState<T>, serial: T) -> LogState<T> {
    match state {
        LogState::Empty => LogState::Ready(serial),
        _ => state,
    }
}

/// The state after an attempt to lock, and what the attempt returns.
pub open spec fn after_lock<T>(state: LogState<T>) -> (LogState<T>, Result<T, LogError>) {
    match state {
        LogState::Empty => (state, Err(LogError::NotInitialized)),
        LogState::Ready(serial) => (LogState::Held, Ok(serial)),
        LogState::Held => (state, Err(LogError::Busy)),
    }
}

/// The state after the writer gives the transmitter back.
pub open spec fn after_unlock<T>(state: LogState<T>, serial: T) -> LogState<T> {
    match state {
        LogState::Held => LogState::Ready(serial),
        _ => state,
    }
}

#[derive(Debug)]
pub struct Logger<T> {
    state: LogState<T>,
}

impl<T> Logger<T> {
    pub closed spec fn view(&self) -> LogState<T> {
        self.state
    }

    /// A logger without a transmitter.
    pub fn new() -> (logger: Logger<T>)
        ensures
            logger@ == LogState::<T>::Empty,
    {
        Logger { state: LogState::Empty }
    }

    pub fn is_initialized(&self) -> (yes: bool)
        ensures
            yes == !(self@ is Empty),
    {
        match &self.state {
            LogState::Empty => false,
            _ => true,
        }
    }

    /// Takes the transmitter for one write. Fails, and changes nothing,
    /// before initialisation and while another writer has it.
    pub fn lock(&mut self) -> (taken: Result<T, LogError>)
        ensures
            (final(self)@, taken) == after_lock(old(self)@),
    {
        let mut state = LogState::Held;
        std::mem::swap(&mut self.state, &mut state);
        match state {
            LogState::Empty => {
                self.state = LogState::Empty;
                Err(LogError::NotInitialized)
            },
            LogState::Ready(serial) => Ok(serial),
            LogState::Held => Err(LogError::Busy),
        }
    }

    /// Gives the transmitter back after a write. Returns whether the lock
    /// was held; if it was not, nothing changes.
    pub fn unlock(&mut self, serial: T) -> (released: bool)
        ensures
            final(self)@ == after_unlock(old(self)@, serial),
            released == (old(self)@ is Held),
    {
        match &self.state {
            LogState::Held => {
                self.state = LogState::Ready(serial);
                true
            },
            _ => false,
        }
    }
}

/// Installs the transmitter. Only the first call has an effect.
pub fn set_logger<T>(logger: &mut Logger<T>, serial: T)
    ensures
        final(logger)@ == after_set(old(logger)@, serial),
{
    match &logger.state {
        LogState::Empty => {
            logger.state = LogState::Ready(serial);
        },
        _ => {},
    }
}

/// What the transmitter answered to one request.
#[derive(Clone, Copy, Debug, PartialEq, Eq, Structural)]
pub enum TxReply {
    /// The byte was taken, or the flush is complete.
    Accepted,
    /// Not ready: ask again.
    NotReady,
    /// A hardware fault.
    Fault,
}

/// What the writer has to do next.
#[derive(Clone, Copy, Debug, PartialEq, Eq, Structural)]
pub enum WriteAction {
    Send(u8),
    Flush,
    /// Every byte was sent and flushed.
    Finished,
    /// The transmitter reported a fault: give the error to the caller.
    Failed,
}

/// How far a write has come.
pub struct WriteProgress {
    pub text: Seq<u8>,
    pub sent: nat,
    pub flushed: bool,
    pub failed: bool,
}

impl WriteProgress {
    pub open spec fn wf(self) -> bool {
        &&& self.sent <= self.text.len()
        &&& self.flushed ==> self.sent == self.text.len()
    }

    /// The bytes that the transmitter has taken so far.
    pub open spec fn transmitted(self) -> Seq<u8> {
        self.text.take(self.sent as int)
    }

    pub open spec fn next_action(self) -> WriteAction {
        if self.failed {
            WriteAction::Failed
        } else if self.sent < self.text.len() {
            WriteAction::Send(self.text[self.sent as int])
        } else if !self.flushed {
            WriteAction::Flush
        } else {
            WriteAction::Finished
        }
    }

    /// The progress after the transmitter's answer to `next_action`. Once
    /// the write has finished or failed, answers change nothing.
    pub open spec fn after_reply(self, reply: TxReply) -> WriteProgress {
        match (self.next_action(), reply) {
            (WriteAction::Send(_), TxReply::Accepted) => WriteProgress {
                sent: self.sent + 1,
                ..self
            },
            (WriteAction::Flush, TxReply::Accepted) => WriteProgress { flushed: true, ..self },
            (WriteAction::Send(_), TxReply::Fault) | (WriteAction::Flush, TxReply::Fault) => {
                WriteProgress { failed: true, ..self }
            },
            _ => self,
        }
    }

    /// The progress after a run of answers, each to the action then
    /// pending.
    pub open spec fn after_replies(self, replies: Seq<TxReply>) -> WriteProgress
        decreases replies.len(),
    {
        if replies.len() == 0 {
            self
        } else {
            self.after_reply(replies[0]).after_replies(replies.drop_first())
        }
    }

    /// How many requests the transmitter still has to accept: one for each
    /// byte not yet taken, and one for the flush.
    pub open spec fn remaining(self) -> nat {
        ((self.text.len() - self.sent) + if self.flushed {
            0int
        } else {
            1int
        }) as nat
    }
}

/// How many of the answers are `Accepted`.
pub open spec fn accepted(replies: Seq<TxReply>) -> nat
    decreases replies.len(),
{
    if replies.len() == 0 {
        0
    } else {
        accepted(replies.drop_first()) + if replies[0] == TxReply::Accepted {
            1nat
        } else {
            0nat
        }
    }
}

/// One write of a text fragment: each byte in order, then a flush.
#[derive(Debug)]
pub struct WriteJob {
    text: Vec<u8>,
    sent: usize,
    flushed: bool,
    failed: bool,
}

impl WriteJob {
    pub closed spec fn view(&self) -> WriteProgress {
        WriteProgress {
            text: self.text@,
            sent: self.sent as nat,
            flushed: self.flushed,
            failed: self.failed,
        }
    }

    /// A write of `text` of which nothing has been sent.
    pub fn new(text: Vec<u8>) -> (job: WriteJob)
        ensures
            job@.wf(),
            job@ == (WriteProgress { text: text@, sent: 0, flushed: false, failed: false }),
    {
        WriteJob { text, sent: 0, flushed: false, failed: false }
    }

    pub fn action(&self) -> (action: WriteAction)
        requires
            self@.wf(),
        ensures
            action == self@.next_action(),
    {
        if self.failed {
            WriteAction::Failed
        } else if self.sent < self.text.len() {
            WriteAction::Send(self.text[self.sent])
        } else if !self.flushed {
            WriteAction::Flush
        } else {
            WriteAction::Finished
        }
    }

    /// Takes the transmitter's answer to the pending action.
    pub fn reply(&mut self, reply: TxReply)
        requires
            old(self)@.wf(),
        ensures
            final(self)@.wf(),
            final(self)@ == old(self)@.after_reply(reply),
    {
        if self.failed {
            return ;
        }
        let sending: bool = self.sent < self.text.len();
        if !sending && self.flushed {
            return ;
        }
        match reply {
            TxReply::Accepted => {
                if sending {
                    self.sent = self.sent + 1;
                } else {
                    self.flushed = true;
                }
            },
            TxReply::NotReady => {},
            TxReply::Fault => {
                self.failed = true;
            },
        }
    }
}

/// The line terminator of the serial console.
pub open spec fn line_end() -> Seq<u8> {
    seq![13u8, 10u8]
}

/// The bytes of a line: the content, then carriage return and line feed.
pub fn line_bytes(content: &[u8]) -> (line: Vec<u8>)
    ensures
        line@ == content@ + line_end(),
{
    let mut line: Vec<u8> = Vec::new();
    let mut i: usize = 0;
    while i < content.len()
        invariant
            i <= content.len(),
            line@ == content@.take(i as int),
        decreases content.len() - i,
    {
        line.push(content[i]);
        i = i + 1;
        assert(line@ =~= content@.take(i as int));
    }
    line.push(13);
    line.push(10);
    assert(line@ =~= content@ + line_end());
    line
}

/// The first transmitter wins: after two calls of `set_logger` the slot
/// holds the first one, and a writer that locks gets the first one.
pub proof fn law_first_logger_wins<T>(first: T, second: T)
    ensures
        after_set(after_set(LogState::Empty, first), second) == LogState::Ready(first),
        after_lock(after_set(after_set(LogState::Empty, first), second)).1 == Ok::<
            T,
            LogError,
        >(first),
{
}

/// Once a transmitter is installed, no later `set_logger` changes the slot.
pub proof fn law_set_logger_once<T>(state: LogState<T>, serial: T)
    requires
        !(state is Empty),
    ensures
        after_set(state, serial) == state,
{
}

/// While a writer holds the lock, only its unlock changes the slot: every
/// other attempt to lock fails and a late `set_logger` is dropped, so no
/// second write can begin before the first has ended.
pub proof fn law_single_writer<T>(state: LogState<T>, late: T)
    requires
        after_lock(state).1 is Ok,
    ensures
        after_lock(state).0 == LogState::<T>::Held,
        after_lock(after_lock(state).0) == (LogState::<T>::Held, Err::<T, LogError>(LogError::Busy)),
        after_set(after_lock(state).0, late) == LogState::<T>::Held,
{
}

/// One step of one of several writers that share a logger.
pub enum WriterStep {
    /// The writer tries to lock.
    Lock { writer: nat },
    /// The writer sends a byte, which it can only do with the transmitter
    /// in its hands.
    Send { writer: nat, byte: u8 },
    /// The writer gives the transmitter back, if it has it.
    Unlock { writer: nat },
}

/// A logger shared by several writers, with a transmitter that records
/// every byte it takes together with the writer that sent it.
pub struct SharedLog {
    pub slot: LogState<Seq<(nat, u8)>>,
    /// The writer that holds the transmitter, and the transmitter.
    pub holder: Option<(nat, Seq<(nat, u8)>)>,
}

impl SharedLog {
    pub open spec fn wf(self) -> bool {
        self.holder is Some <==> self.slot is Held
    }

    /// Everything the transmitter has taken so far.
    pub open spec fn output(self) -> Seq<(nat, u8)> {
        match (self.holder, self.slot) {
            (Some(held), _) => held.1,
            (None, LogState::Ready(record)) => record,
            _ => Seq::empty(),
        }
    }

    /// The holder and the transmitter in its hands, when there is one.
    pub open spec fn held(self) -> (nat, Seq<(nat, u8)>) {
        self.holder->0
    }

    pub open spec fn holds(self, writer: nat) -> bool {
        self.holder is Some && self.held().0 == writer
    }

    pub open spec fn step(self, step: WriterStep) -> SharedLog {
        match step {
            WriterStep::Lock { writer } => match after_lock(self.slot) {
                (slot, Ok(record)) => SharedLog { slot, holder: Some((writer, record)) },
                _ => self,
            },
            WriterStep::Send { writer, byte } => if self.holds(writer) {
                SharedLog {
                    holder: Some((writer, self.held().1.push((writer, byte)))),
                    ..self
                }
            } else {
                self
            },
            WriterStep::Unlock { writer } => if self.holds(writer) {
                SharedLog { slot: after_unlock(self.slot, self.held().1), holder: None }
            } else {
                self
            },
        }
    }

    pub open spec fn run(self, steps: Seq<WriterStep>) -> SharedLog
        decreases steps.len(),
    {
        if steps.len() == 0 {
            self
        } else {
            self.step(steps[0]).run(steps.drop_first())
        }
    }
}

/// The bytes that `writer` sends in `steps`, in order, each with its name.
pub open spec fn sent_by(steps: Seq<WriterStep>, writer: nat) -> Seq<(nat, u8)>
    decreases steps.len(),
{
    if steps.len() == 0 {
        Seq::empty()
    } else {
        let rest = sent_by(steps.drop_first(), writer);
        match steps[0] {
            WriterStep::Send { writer: w, byte } => if w == writer {
                seq![(writer, byte)] + rest
            } else {
                rest
            },
            _ => rest,
        }
    }
}

/// No interleaving: from the moment a writer holds the lock until it
/// unlocks, whatever the other writers attempt in between, the output
/// grows by exactly that writer's bytes, in the order it sent them. Each
/// message is one unbroken run of the output.
pub proof fn law_no_interleaving(log: SharedLog, steps: Seq<WriterStep>, writer: nat)
    requires
        log.wf(),
        log.holds(writer),
        forall|i: int| 0 <= i < steps.len() ==> steps[i] != (WriterStep::Unlock { writer }),
    ensures
        log.run(steps).wf(),
        log.run(steps).holds(writer),
        log.run(steps).output() == log.output() + sent_by(steps, writer),
    decreases steps.len(),
{
    if steps.len() == 0 {
        assert(log.output() + sent_by(steps, writer) =~= log.output());
    } else {
        let next = log.step(steps[0]);
        let rest = steps.drop_first();
        assert(steps[0] != (WriterStep::Unlock { writer }));
        assert forall|i: int| 0 <= i < rest.len() implies rest[i] != (WriterStep::Unlock {
            writer,
        }) by {
            assert(rest[i] == steps[i + 1]);
        }
        law_no_interleaving(next, rest, writer);
        assert(next.output() + sent_by(rest, writer) =~= log.output() + sent_by(steps, writer));
    }
}

/// A write sends the bytes of its text in order: every answer leaves the
/// transmitted bytes a prefix of the text, grown by at most the next byte;
/// "not ready" changes nothing; a fault ends the write as failed; and the
/// write is finished only when the whole text was taken and flushed.
pub proof fn law_write_in_order(progress: WriteProgress, reply: TxReply)
    requires
        progress.wf(),
    ensures
        progress.after_reply(reply).wf(),
        progress.after_reply(reply).text == progress.text,
        progress.after_reply(reply).transmitted() == progress.transmitted()
            || progress.after_reply(reply).transmitted() == progress.transmitted().push(
            progress.text[progress.sent as int],
        ),
        reply == TxReply::NotReady ==> progress.after_reply(reply) == progress,
        reply == TxReply::Fault && !(progress.next_action() is Finished)
            ==> progress.after_reply(reply).next_action() == WriteAction::Failed,
        progress.next_action() is Finished ==> progress.transmitted() == progress.text
            && progress.flushed,
{
    let after = progress.after_reply(reply);
    if after.sent == progress.sent + 1 {
        assert(after.transmitted() =~= progress.transmitted().push(
            progress.text[progress.sent as int],
        ));
    }
    if progress.next_action() is Finished {
        assert(progress.transmitted() =~= progress.text);
    }
}

/// Retrying gets the text out: as long as the transmitter reports no fault,
/// every `Accepted` answer brings the write one request nearer to its end,
/// and "not ready" costs nothing. So the write finishes exactly when the
/// transmitter has accepted every byte and the flush, and then the whole
/// text has been transmitted.
pub proof fn law_retry_completes(progress: WriteProgress, replies: Seq<TxReply>)
    requires
        progress.wf(),
        !progress.failed,
        forall|i: int| 0 <= i < replies.len() ==> replies[i] != TxReply::Fault,
    ensures
        progress.after_replies(replies).wf(),
        !progress.after_replies(replies).failed,
        progress.after_replies(replies).text == progress.text,
        accepted(replies) <= progress.remaining() ==> progress.after_replies(replies).remaining()
            == progress.remaining() - accepted(replies),
        accepted(replies) >= progress.remaining() ==> progress.after_replies(
            replies,
        ).next_action() == WriteAction::Finished && progress.after_replies(
            replies,
        ).transmitted() == progress.text,
        progress.after_replies(replies).next_action() is Finished <==> accepted(replies)
            >= progress.remaining(),
    decreases replies.len(),
{
    if replies.len() == 0 {
        if progress.remaining() == 0 {
            assert(progress.transmitted() =~= progress.text);
        }
    } else {
        let next = progress.after_reply(replies[0]);
        let rest = replies.drop_first();
        assert(replies[0] != TxReply::Fault);
        assert forall|i: int| 0 <= i < rest.len() implies rest[i] != TxReply::Fault by {
            assert(rest[i] == replies[i + 1]);
        }
        law_retry_completes(next, rest);
    }
}

} // verus!
