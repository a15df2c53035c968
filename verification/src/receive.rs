//! The decisions of the `getUpdates` long-poll stream: continuation of the
//! sync cursor, buffering of received messages, error backoff and the pause
//! after a session expires. The stream's driver performs the polls and the
//! sleeps these decisions ask for.
use vstd::prelude::*;

use crate::client::{is_api_error, is_session_expired, opt_view, spec_is_api_error, spec_is_session_expired};
use vstd::string::StrSliceExecFns;

use crate::text::str_eq;
use crate::types::{GetUpdatesResponse, Message};

verus! {

/// Consecutive failures after which the stream backs off.
pub const MAX_CONSECUTIVE_FAILURES: u32 = 3;

/// Pause after `MAX_CONSECUTIVE_FAILURES` consecutive failures (ms).
pub const BACKOFF_DELAY_MS: u64 = 30_000;

/// Pause after a failure before that (ms).
pub const RETRY_DELAY_MS: u64 = 2_000;

/// Pause after the session expired (ms).
pub const SESSION_PAUSE_MS: u64 = 3_600_000;

/// Options for the updates stream.
#[derive(Debug, Clone)]
pub struct UpdatesStreamOptions {
    /// Initial `get_updates_buf` to resume from a previous session.
    pub initial_buf: String,
    /// Long-poll timeout per request (ms).
    pub poll_timeout_ms: Option<u64>,
}

impl Default for UpdatesStreamOptions {
    fn default() -> (r: Self)
        ensures
            r.initial_buf@ == Seq::<char>::empty(),
            r.poll_timeout_ms is None,
    {
        UpdatesStreamOptions { initial_buf: String::new(), poll_timeout_ms: None }
    }
}

/// An event from the updates stream.
#[derive(Debug)]
pub enum UpdateEvent {
    /// A new inbound message.
    Message(Message),
    /// The `get_updates_buf` was updated — persist this for resumption.
    BufUpdated(String),
    /// The session has expired; the stream will pause and retry.
    SessionExpired,
}

/// What the stream's driver does next.
#[derive(Debug, Clone, Copy, PartialEq, Eq, Structural)]
pub enum StreamAction {
    /// Start the next poll.
    Poll,
    /// Sleep this many milliseconds, then poll.
    Sleep(u64),
}

/// The outcome of one answer: an event to hand out, if any, and what to do
/// next.
#[derive(Debug)]
pub struct PollStep {
    pub event: Option<UpdateEvent>,
    pub next: StreamAction,
}

/// The state of the updates stream between polls.
#[derive(Debug)]
pub struct UpdatesCursor {
    buf: String,
    poll_timeout_ms: Option<u64>,
    /// Received messages not handed out yet, last first.
    pending: Vec<Message>,
    consecutive_failures: u32,
}

/// `s` backwards.
pub open spec fn backwards<A>(s: Seq<A>) -> Seq<A> {
    Seq::new(s.len(), |i: int| s[s.len() - 1 - i])
}

/// The state of the updates stream as the laws below speak of it.
pub ghost struct CursorState {
    /// The sync cursor the next poll sends.
    pub buf: Seq<char>,
    /// The long-poll timeout the next poll asks for (ms).
    pub timeout: Option<u64>,
    /// Messages waiting to be handed out, in order.
    pub queue: Seq<Message>,
    /// Consecutive failures counted so far.
    pub failures: nat,
}

/// What one poll came back with.
pub enum PollOutcome {
    /// The request failed.
    Failed,
    /// The server answered.
    Answered(GetUpdatesResponse),
}

/// An answer that neither reports an expired session nor an API error.
pub open spec fn is_good_answer(resp: GetUpdatesResponse) -> bool {
    !spec_is_session_expired(resp) && !spec_is_api_error(resp)
}

/// An outcome that counts as a failure: a failed request, or an API error
/// other than an expired session.
pub open spec fn counts_as_failure(o: PollOutcome) -> bool {
    match o {
        PollOutcome::Failed => true,
        PollOutcome::Answered(r) => !spec_is_session_expired(r) && spec_is_api_error(r),
    }
}

/// The messages an answer carries.
pub open spec fn answer_msgs(resp: GetUpdatesResponse) -> Seq<Message> {
    match resp.msgs {
        Some(m) => m@,
        None => Seq::empty(),
    }
}

/// The sync cursor after a good answer: the server's where it is non-empty.
pub open spec fn buf_after(buf: Seq<char>, resp: GetUpdatesResponse) -> Seq<char> {
    match resp.get_updates_buf {
        Some(nb) => if nb@.len() > 0 {
            nb@
        } else {
            buf
        },
        None => buf,
    }
}

/// The poll timeout after a good answer: the server's where it is positive.
pub open spec fn timeout_after(timeout: Option<u64>, resp: GetUpdatesResponse) -> Option<u64> {
    match resp.longpolling_timeout_ms {
        Some(t) if t > 0 => Some(t),
        _ => timeout,
    }
}

/// The state after a failure.
pub open spec fn after_failure(s: CursorState) -> CursorState {
    CursorState {
        failures: if s.failures + 1 >= MAX_CONSECUTIVE_FAILURES {
            0
        } else {
            s.failures + 1
        },
        ..s
    }
}

/// The pause after a failure (ms).
pub open spec fn failure_delay(s: CursorState) -> u64 {
    if s.failures + 1 >= MAX_CONSECUTIVE_FAILURES {
        BACKOFF_DELAY_MS
    } else {
        RETRY_DELAY_MS
    }
}

/// The state after an answer, the first message already handed out where the
/// cursor did not change.
pub open spec fn after_answer(s: CursorState, resp: GetUpdatesResponse) -> CursorState {
    if spec_is_session_expired(resp) {
        CursorState { failures: 0, ..s }
    } else if spec_is_api_error(resp) {
        after_failure(s)
    } else {
        let nb = buf_after(s.buf, resp);
        let msgs = answer_msgs(resp);
        CursorState {
            buf: nb,
            timeout: timeout_after(s.timeout, resp),
            queue: if nb != s.buf || msgs.len() == 0 {
                msgs
            } else {
                msgs.skip(1)
            },
            failures: 0,
        }
    }
}

/// The state after one outcome.
pub open spec fn after_outcome(s: CursorState, o: PollOutcome) -> CursorState {
    match o {
        PollOutcome::Failed => after_failure(s),
        PollOutcome::Answered(r) => after_answer(s, r),
    }
}

/// The state after a run of outcomes, in order.
pub open spec fn after_outcomes(s: CursorState, outs: Seq<PollOutcome>) -> CursorState
    decreases outs.len(),
{
    if outs.len() == 0 {
        s
    } else {
        after_outcome(after_outcomes(s, outs.drop_last()), outs.last())
    }
}

/// One step of the driver between polls: hand out the next queued message.
pub open spec fn after_delivery(s: CursorState) -> CursorState {
    if s.queue.len() > 0 {
        CursorState { queue: s.queue.skip(1), ..s }
    } else {
        s
    }
}

/// `n` steps of the driver.
pub open spec fn after_deliveries(s: CursorState, n: nat) -> CursorState
    decreases n,
{
    if n == 0 {
        s
    } else {
        after_delivery(after_deliveries(s, (n - 1) as nat))
    }
}

/// What the driver does next: hand out a message, or poll.
#[derive(Debug)]
pub enum NextStep {
    /// Hand out this message.
    Deliver(Message),
    /// Poll with this sync cursor and long-poll timeout (ms).
    Poll { buf: String, timeout_ms: Option<u64> },
}

impl UpdatesCursor {
    pub closed spec fn spec_buf(&self) -> Seq<char> {
        self.buf@
    }

    pub closed spec fn spec_poll_timeout_ms(&self) -> Option<u64> {
        self.poll_timeout_ms
    }

    /// Messages waiting to be handed out, in the order they will be.
    pub closed spec fn spec_queue(&self) -> Seq<Message> {
        backwards(self.pending@)
    }

    pub closed spec fn spec_failures(&self) -> nat {
        self.consecutive_failures as nat
    }

    /// The cursor as the laws speak of it.
    pub open spec fn state(&self) -> CursorState {
        CursorState {
            buf: self.spec_buf(),
            timeout: self.spec_poll_timeout_ms(),
            queue: self.spec_queue(),
            failures: self.spec_failures(),
        }
    }

    /// The stream never counts `MAX_CONSECUTIVE_FAILURES` failures without
    /// backing off.
    pub open spec fn wf(&self) -> bool {
        self.spec_failures() < MAX_CONSECUTIVE_FAILURES
    }

    pub fn new(opts: UpdatesStreamOptions) -> (r: Self)
        ensures
            r.wf(),
            r.spec_buf() == opts.initial_buf@,
            r.spec_poll_timeout_ms() == opts.poll_timeout_ms,
            r.spec_queue().len() == 0,
            r.spec_failures() == 0,
    {
        UpdatesCursor {
            buf: opts.initial_buf,
            poll_timeout_ms: opts.poll_timeout_ms,
            pending: Vec::new(),
            consecutive_failures: 0,
        }
    }

    /// Get the current `get_updates_buf` for persistence.
    pub fn current_buf(&self) -> (r: &str)
        ensures
            r@ == self.spec_buf(),
    {
        self.buf.as_str()
    }

    /// The long-poll timeout to ask for (ms).
    pub fn poll_timeout_ms(&self) -> (r: Option<u64>)
        ensures
            r == self.spec_poll_timeout_ms(),
    {
        self.poll_timeout_ms
    }

    /// Consecutive failures counted so far.
    pub fn consecutive_failures(&self) -> (r: u32)
        ensures
            r == self.spec_failures(),
    {
        self.consecutive_failures
    }

    /// Hand out the next buffered message, in the order received.
    pub fn next_pending(&mut self) -> (r: Option<Message>)
        ensures
            old(self).spec_queue().len() == 0 ==> r is None && final(self).spec_queue() == old(self).spec_queue(),
            old(self).spec_queue().len() > 0 ==> r == Some(old(self).spec_queue()[0]) && final(self).spec_queue()
                == old(self).spec_queue().skip(1),
            final(self).spec_buf() == old(self).spec_buf(),
            final(self).spec_poll_timeout_ms() == old(self).spec_poll_timeout_ms(),
            final(self).spec_failures() == old(self).spec_failures(),
    {
        let r = self.pending.pop();
        proof {
            assert(self.spec_queue() =~= old(self).spec_queue().skip(1) || old(self).spec_queue().len() == 0);
            if old(self).spec_queue().len() == 0 {
                assert(self.spec_queue() =~= old(self).spec_queue());
            }
        }
        r
    }

    /// What the driver does next: hand out the next queued message, in the
    /// order received, or, once none is left, poll with the current cursor
    /// and timeout.
    pub fn next_step(&mut self) -> (r: NextStep)
        ensures
            final(self).state() == after_delivery(old(self).state()),
            old(self).spec_queue().len() > 0 ==> r == NextStep::Deliver(old(self).spec_queue()[0]),
            old(self).spec_queue().len() == 0 ==> (r matches NextStep::Poll { buf, timeout_ms } && buf@
                == old(self).spec_buf() && timeout_ms == old(self).spec_poll_timeout_ms()),
    {
        match self.next_pending() {
            Some(m) => NextStep::Deliver(m),
            None => NextStep::Poll { buf: self.buf.clone(), timeout_ms: self.poll_timeout_ms },
        }
    }

    /// A failed poll: count it, and back off after `MAX_CONSECUTIVE_FAILURES`
    /// in a row (starting the count anew), else pause briefly. Returns the
    /// pause (ms).
    pub fn on_error(&mut self) -> (delay_ms: u64)
        requires
            old(self).wf(),
        ensures
            final(self).wf(),
            old(self).spec_failures() + 1 == MAX_CONSECUTIVE_FAILURES ==> delay_ms == BACKOFF_DELAY_MS
                && final(self).spec_failures() == 0,
            old(self).spec_failures() + 1 < MAX_CONSECUTIVE_FAILURES ==> delay_ms == RETRY_DELAY_MS
                && final(self).spec_failures() == old(self).spec_failures() + 1,
            final(self).spec_buf() == old(self).spec_buf(),
            final(self).spec_poll_timeout_ms() == old(self).spec_poll_timeout_ms(),
            final(self).spec_queue() == old(self).spec_queue(),
            final(self).state() == after_failure(old(self).state()),
            delay_ms == failure_delay(old(self).state()),
    {
        self.consecutive_failures = self.consecutive_failures + 1;
        if self.consecutive_failures >= MAX_CONSECUTIVE_FAILURES {
            self.consecutive_failures = 0;
            BACKOFF_DELAY_MS
        } else {
            RETRY_DELAY_MS
        }
    }

    /// The sync cursor after an answer: the server's where it is non-empty
    /// and new.
    pub open spec fn spec_next_buf(&self, resp: GetUpdatesResponse) -> Seq<char> {
        match resp.get_updates_buf {
            Some(nb) => if nb@.len() > 0 && nb@ != self.spec_buf() {
                nb@
            } else {
                self.spec_buf()
            },
            None => self.spec_buf(),
        }
    }

    /// The poll timeout after an answer: the server's suggestion where it is
    /// positive.
    pub open spec fn spec_next_timeout(&self, resp: GetUpdatesResponse) -> Option<u64> {
        match resp.longpolling_timeout_ms {
            Some(t) if t > 0 => Some(t),
            _ => self.spec_poll_timeout_ms(),
        }
    }

    /// A successful poll's answer.
    ///
    /// - Session expired: hand out `SessionExpired` and pause for an hour.
    /// - Other API error: count a failure as `on_error` does and pause.
    /// - Otherwise: reset the failure count, take the server's poll timeout
    ///   and cursor, buffer the messages; hand out `BufUpdated` where the
    ///   cursor changed, else the first message, else nothing; poll again.
    pub fn on_response(&mut self, resp: GetUpdatesResponse) -> (r: PollStep)
        requires
            old(self).wf(),
            old(self).spec_queue().len() == 0,
        ensures
            final(self).wf(),
            spec_is_session_expired(resp) ==> {
                &&& r.event matches Some(UpdateEvent::SessionExpired)
                &&& r.next == StreamAction::Sleep(SESSION_PAUSE_MS)
                &&& final(self).spec_failures() == 0
                &&& final(self).spec_buf() == old(self).spec_buf()
                &&& final(self).spec_poll_timeout_ms() == old(self).spec_poll_timeout_ms()
                &&& final(self).spec_queue().len() == 0
            },
            !spec_is_session_expired(resp) && spec_is_api_error(resp) ==> {
                &&& r.event is None
                &&& old(self).spec_failures() + 1 == MAX_CONSECUTIVE_FAILURES ==> r.next == StreamAction::Sleep(
                    BACKOFF_DELAY_MS,
                ) && final(self).spec_failures() == 0
                &&& old(self).spec_failures() + 1 < MAX_CONSECUTIVE_FAILURES ==> r.next == StreamAction::Sleep(
                    RETRY_DELAY_MS,
                ) && final(self).spec_failures() == old(self).spec_failures() + 1
                &&& final(self).spec_buf() == old(self).spec_buf()
                &&& final(self).spec_poll_timeout_ms() == old(self).spec_poll_timeout_ms()
                &&& final(self).spec_queue().len() == 0
            },
            !spec_is_session_expired(resp) && !spec_is_api_error(resp) ==> {
                let msgs: Seq<Message> = match resp.msgs {
                    Some(m) => m@,
                    None => Seq::empty(),
                };
                let buf_updated = final(self).spec_buf() != old(self).spec_buf();
                &&& r.next == StreamAction::Poll
                &&& final(self).spec_failures() == 0
                &&& final(self).spec_buf() == old(self).spec_next_buf(resp)
                &&& final(self).spec_poll_timeout_ms() == old(self).spec_next_timeout(resp)
                &&& buf_updated ==> (r.event matches Some(UpdateEvent::BufUpdated(b))
                    && b@ == final(self).spec_buf()) && final(self).spec_queue() == msgs
                &&& !buf_updated && msgs.len() > 0 ==> r.event == Some(UpdateEvent::Message(msgs[0]))
                    && final(self).spec_queue() == msgs.skip(1)
                &&& !buf_updated && msgs.len() == 0 ==> r.event is None && final(self).spec_queue().len() == 0
            },
            final(self).state() == after_answer(old(self).state(), resp),
            is_good_answer(resp) && resp.get_updates_buf is Some && resp.get_updates_buf.unwrap()@.len() > 0
                && resp.get_updates_buf.unwrap()@ != old(self).spec_buf() ==> final(self).spec_buf()
                == resp.get_updates_buf.unwrap()@ && (r.event matches Some(UpdateEvent::BufUpdated(b)) && b@
                == resp.get_updates_buf.unwrap()@),
            is_good_answer(resp) && (resp.get_updates_buf is None || resp.get_updates_buf.unwrap()@.len() == 0
                || resp.get_updates_buf.unwrap()@ == old(self).spec_buf()) ==> final(self).spec_buf() == old(
                self,
            ).spec_buf() && !(r.event matches Some(UpdateEvent::BufUpdated(_))),
    {
        if is_session_expired(&resp) {
            self.consecutive_failures = 0;
            proof {
                assert(self.spec_queue() =~= old(self).spec_queue());
            }
            return PollStep { event: Some(UpdateEvent::SessionExpired), next: StreamAction::Sleep(SESSION_PAUSE_MS) };
        }
        if is_api_error(&resp) {
            let delay = self.on_error();
            return PollStep { event: None, next: StreamAction::Sleep(delay) };
        }
        self.consecutive_failures = 0;
        if let Some(t) = resp.longpolling_timeout_ms {
            if t > 0 {
                self.poll_timeout_ms = Some(t);
            }
        }
        let mut buf_updated = false;
        if let Some(new_buf) = resp.get_updates_buf {
            if new_buf.as_str().unicode_len() > 0 && !str_eq(new_buf.as_str(), self.buf.as_str()) {
                self.buf = new_buf;
                buf_updated = true;
            }
        }
        if let Some(msgs) = resp.msgs {
            self.pending = reversed(msgs);
        }
        proof {
            assert(self.spec_buf() == buf_after(old(self).spec_buf(), resp));
            assert(self.spec_poll_timeout_ms() == timeout_after(old(self).spec_poll_timeout_ms(), resp));
            assert(buf_updated == (self.spec_buf() != old(self).spec_buf()));
            assert(self.spec_queue() =~= answer_msgs(resp));
        }
        if buf_updated {
            return PollStep { event: Some(UpdateEvent::BufUpdated(self.buf.clone())), next: StreamAction::Poll };
        }
        match self.next_pending() {
            Some(m) => PollStep { event: Some(UpdateEvent::Message(m)), next: StreamAction::Poll },
            None => PollStep { event: None, next: StreamAction::Poll },
        }
    }
}

// ── Laws of the stream ──────────────────────────────────────────────────────

proof fn lemma_deliveries(s: CursorState, n: nat)
    requires
        n <= s.queue.len(),
    ensures
        after_deliveries(s, n) == (CursorState { queue: s.queue.skip(n as int), ..s }),
    decreases n,
{
    if n == 0 {
        assert(s.queue.skip(0) =~= s.queue);
    } else {
        lemma_deliveries(s, (n - 1) as nat);
        assert(s.queue.skip(n - 1).skip(1) =~= s.queue.skip(n as int));
    }
}

/// Queued messages come out one per step, in the order queued, and only
/// once the queue is empty does the driver poll again, with the cursor and
/// timeout unchanged.
pub proof fn lemma_queue_drains_in_order(s: CursorState)
    ensures
        forall|i: int|
            0 <= i < s.queue.len() ==> (#[trigger] after_deliveries(s, i as nat)).queue.len() > 0
                && after_deliveries(s, i as nat).queue[0] == s.queue[i],
        after_deliveries(s, s.queue.len()).queue.len() == 0,
        after_deliveries(s, s.queue.len()).buf == s.buf,
        after_deliveries(s, s.queue.len()).timeout == s.timeout,
{
    assert forall|i: int| 0 <= i < s.queue.len() implies (#[trigger] after_deliveries(s, i as nat)).queue.len()
        > 0 && after_deliveries(s, i as nat).queue[0] == s.queue[i] by {
        lemma_deliveries(s, i as nat);
    }
    lemma_deliveries(s, s.queue.len());
}

/// After a good answer the stream hands out, in this order: the new cursor
/// where it changed (as `BufUpdated`), then every message of the answer in
/// the order the server sent them; only then does it poll again. Where the
/// cursor did not change, the first message is the answer's own event and
/// the rest follow from the queue.
pub proof fn lemma_answer_messages_in_order(s: CursorState, resp: GetUpdatesResponse)
    requires
        s.queue.len() == 0,
        is_good_answer(resp),
    ensures
        ({
            let t = after_answer(s, resp);
            let msgs = answer_msgs(resp);
            &&& t.buf == buf_after(s.buf, resp)
            &&& t.timeout == timeout_after(s.timeout, resp)
            &&& t.failures == 0
            &&& t.buf != s.buf ==> t.queue == msgs
            &&& t.buf == s.buf && msgs.len() > 0 ==> t.queue == msgs.skip(1)
            &&& t.buf == s.buf && msgs.len() == 0 ==> t.queue.len() == 0
            &&& forall|i: int|
                0 <= i < t.queue.len() ==> (#[trigger] after_deliveries(t, i as nat)).queue[0] == t.queue[i]
            &&& after_deliveries(t, t.queue.len()).queue.len() == 0
            &&& after_deliveries(t, t.queue.len()).buf == t.buf
            &&& after_deliveries(t, t.queue.len()).timeout == t.timeout
        }),
{
    lemma_queue_drains_in_order(after_answer(s, resp));
}

/// A good answer that carries a non-empty cursor different from the current
/// one moves the stream to that cursor, whatever messages the answer holds
/// (none included), and keeps all of its messages queued behind the
/// `BufUpdated` event; an absent, empty or unchanged cursor leaves the
/// cursor as it was.
pub proof fn lemma_new_cursor_taken(s: CursorState, resp: GetUpdatesResponse)
    requires
        is_good_answer(resp),
    ensures
        resp.get_updates_buf is Some && resp.get_updates_buf.unwrap()@.len() > 0 && resp.get_updates_buf.unwrap()@
            != s.buf ==> after_answer(s, resp).buf == resp.get_updates_buf.unwrap()@ && after_answer(s, resp).queue
            == answer_msgs(resp),
        resp.get_updates_buf is None || resp.get_updates_buf.unwrap()@.len() == 0 || resp.get_updates_buf.unwrap()@
            == s.buf ==> after_answer(s, resp).buf == s.buf,
{
}

/// `o` is a good answer that hands the stream the non-empty cursor `b`.
pub open spec fn gives_cursor(o: PollOutcome, b: Seq<char>) -> bool {
    match o {
        PollOutcome::Answered(r) => is_good_answer(r) && match r.get_updates_buf {
            Some(nb) => nb@.len() > 0 && nb@ == b,
            None => false,
        },
        PollOutcome::Failed => false,
    }
}

/// `o` is a good answer that suggests the positive timeout `t`.
pub open spec fn gives_timeout(o: PollOutcome, t: Option<u64>) -> bool {
    match o {
        PollOutcome::Answered(r) => is_good_answer(r) && match r.longpolling_timeout_ms {
            Some(x) => x > 0 && t == Some(x),
            None => false,
        },
        PollOutcome::Failed => false,
    }
}

/// The poll's sync cursor and timeout come from the server alone: after any
/// run of outcomes the cursor is the one the stream started with or the
/// non-empty cursor of a good answer, and the timeout is the starting one or
/// the positive timeout of a good answer.
pub proof fn lemma_cursor_follows_server(s: CursorState, outs: Seq<PollOutcome>)
    ensures
        after_outcomes(s, outs).buf == s.buf || exists|i: int|
            0 <= i < outs.len() && gives_cursor(#[trigger] outs[i], after_outcomes(s, outs).buf),
        after_outcomes(s, outs).timeout == s.timeout || exists|i: int|
            0 <= i < outs.len() && gives_timeout(#[trigger] outs[i], after_outcomes(s, outs).timeout),
    decreases outs.len(),
{
    if outs.len() > 0 {
        let p = outs.drop_last();
        lemma_cursor_follows_server(s, p);
        let u = after_outcomes(s, p);
        let t = after_outcomes(s, outs);
        let n = outs.len() - 1;
        assert(outs[n] == outs.last());
        if t.buf != u.buf {
            assert(gives_cursor(outs[n], t.buf));
        } else if t.buf != s.buf {
            let i = choose|i: int| 0 <= i < p.len() && gives_cursor(#[trigger] p[i], u.buf);
            assert(outs[i] == p[i]);
            assert(gives_cursor(outs[i], t.buf));
        }
        if t.timeout != u.timeout {
            assert(gives_timeout(outs[n], t.timeout));
        } else if t.timeout != s.timeout {
            let i = choose|i: int| 0 <= i < p.len() && gives_timeout(#[trigger] p[i], u.timeout);
            assert(outs[i] == p[i]);
            assert(gives_timeout(outs[i], t.timeout));
        }
    }
}

/// Failures at the end of a run, after its last answer that was good or
/// reported an expired session.
pub open spec fn trailing_failures(outs: Seq<PollOutcome>) -> nat
    decreases outs.len(),
{
    if outs.len() > 0 && counts_as_failure(outs.last()) {
        trailing_failures(outs.drop_last()) + 1
    } else {
        0
    }
}

/// Some outcome of the run was a good answer or an expired session.
pub open spec fn has_reset(outs: Seq<PollOutcome>) -> bool
    decreases outs.len(),
{
    outs.len() > 0 && (!counts_as_failure(outs.last()) || has_reset(outs.drop_last()))
}

/// Failures are counted modulo `MAX_CONSECUTIVE_FAILURES` since the last
/// good or expired answer (or from the starting count, where there is none),
/// and a failure pauses for the long backoff exactly when it completes such a
/// round, else for the short retry delay.
pub proof fn lemma_failure_count(s: CursorState, outs: Seq<PollOutcome>)
    requires
        s.failures < MAX_CONSECUTIVE_FAILURES,
    ensures
        ({
            let base: nat = if has_reset(outs) { 0 } else { s.failures };
            let t = after_outcomes(s, outs);
            &&& t.failures == (base + trailing_failures(outs)) % (MAX_CONSECUTIVE_FAILURES as nat)
            &&& failure_delay(t) == if (base + trailing_failures(outs) + 1) % (MAX_CONSECUTIVE_FAILURES as nat)
                == 0 {
                BACKOFF_DELAY_MS
            } else {
                RETRY_DELAY_MS
            }
        }),
    decreases outs.len(),
{
    if outs.len() > 0 {
        lemma_failure_count(s, outs.drop_last());
    }
}

/// A vector in the opposite order.
fn reversed(v: Vec<Message>) -> (r: Vec<Message>)
    ensures
        backwards(r@) == v@,
{
    let ghost start = v@;
    let n = v.len();
    let mut v = v;
    let mut out: Vec<Message> = Vec::new();
    while v.len() > 0
        invariant
            n == start.len(),
            v.len() <= n,
            v@ == start.take(v.len() as int),
            out@ == backwards(start.skip(v.len() as int)),
        decreases v.len(),
    {
        let ghost k = v.len() as int;
        let m = v.pop().unwrap();
        out.push(m);
        proof {
            assert(v@ =~= start.take(k - 1));
            assert(out@ =~= backwards(start.skip(k - 1)));
        }
    }
    proof {
        assert(start.skip(0) =~= start);
        assert(backwards(out@) =~= start);
    }
    out
}

} // verus!
