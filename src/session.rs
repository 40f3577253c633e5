//! The connection lifecycle: what the caller's operations and the background
//! listener decide, from the current state and the event at hand. Performing
//! the reads, writes and waits is left to the caller of these functions.
use vstd::prelude::*;
use vstd::utf8::encode_utf8;
use crate::activity::{Activity, ActivityModel};
use crate::framer::{encode_frame, frame_bytes};
use crate::json::{decimal, lemma_u64_decimal_len, push_decimal};
use crate::packet::{packet_json, Packet};

verus! {

/// Where a session stands: `Disconnected`, then `Connected` once the handshake
/// went out, then `Ready` once the peer acknowledged it.
#[derive(Debug, Clone, Copy, PartialEq, Eq, Structural, Default)]
pub enum ConnectionState {
    #[default]
    Disconnected,
    Connected,
    Ready,
}

/// A failure that a foreground operation reports.
#[derive(Debug, Clone, Copy, PartialEq, Eq, Structural)]
pub enum SessionError {
    /// The peer refused the client id; a fresh `connect` is needed.
    Rejected,
    /// The payload is longer than a frame header can state.
    Oversized,
    /// The listener ended before the peer acknowledged the handshake.
    Closed,
}

impl SessionError {
    /// A message for the caller.
    pub fn message(&self) -> (r: String)
        ensures
            r@ == match self {
                SessionError::Rejected => "Invalid Client ID"@,
                SessionError::Oversized => "payload too large for one frame"@,
                SessionError::Closed => "the stream closed before the handshake completed"@,
            },
    {
        match self {
            SessionError::Rejected => String::from_str("Invalid Client ID"),
            SessionError::Oversized => String::from_str("payload too large for one frame"),
            SessionError::Closed => String::from_str(
                "the stream closed before the handshake completed",
            ),
        }
    }
}

/// How the background listener ended.
#[derive(Debug, Clone, Copy, PartialEq, Eq, Structural)]
pub enum ListenerOutcome {
    /// It stopped without an error: the stream closed, or the session ended.
    Stopped,
    /// The peer refused the client id.
    Rejected,
}

/// Which of the caller's handlers to run.
#[derive(Debug, Clone, Copy, PartialEq, Eq, Structural)]
pub enum Notice {
    Ready,
    Update,
    Disconnect,
}

/// What the listener does with one inbound frame.
#[derive(Debug, Clone, Copy, PartialEq, Eq, Structural)]
pub struct ListenerStep {
    /// The state after the frame.
    pub state: ConnectionState,
    /// Release a caller that waits in a blocking `connect`.
    pub wake_waiter: bool,
    /// The handler to run, if any.
    pub notice: Option<Notice>,
    /// Send the close frame and release the transport.
    pub teardown: bool,
    /// The listener ends here, with this outcome.
    pub finished: Option<ListenerOutcome>,
}

/// The text by which the peer says that it refuses the client id.
pub open spec fn reject_marker() -> Seq<u8> {
    encode_utf8("Invalid Client ID"@)
}

/// Whether `needle` occurs in `hay` at some position.
pub open spec fn occurs_in(needle: Seq<u8>, hay: Seq<u8>) -> bool {
    exists|i: int| 0 <= i && i + needle.len() <= hay.len() && #[trigger] hay.subrange(i, i + needle.len()) == needle
}

/// Whether an inbound close payload says that the client id is refused.
pub open spec fn signals_reject(payload: Seq<u8>) -> bool {
    occurs_in(reject_marker(), payload)
}

/// The listener's decision for a frame with `opcode` that arrives in `state`.
pub open spec fn listener_step(state: ConnectionState, opcode: u32, rejected: bool) -> ListenerStep {
    if state == ConnectionState::Disconnected {
        ListenerStep {
            state,
            wake_waiter: false,
            notice: None,
            teardown: false,
            finished: Some(ListenerOutcome::Stopped),
        }
    } else if opcode == 1 {
        if state == ConnectionState::Connected {
            ListenerStep {
                state: ConnectionState::Ready,
                wake_waiter: true,
                notice: Some(Notice::Ready),
                teardown: false,
                finished: None,
            }
        } else {
            ListenerStep { state, wake_waiter: false, notice: Some(Notice::Update), teardown: false, finished: None }
        }
    } else if opcode == 2 {
        if rejected {
            ListenerStep {
                state: ConnectionState::Disconnected,
                wake_waiter: false,
                notice: Some(Notice::Disconnect),
                teardown: false,
                finished: Some(ListenerOutcome::Rejected),
            }
        } else {
            ListenerStep {
                state: ConnectionState::Disconnected,
                wake_waiter: true,
                notice: Some(Notice::Disconnect),
                teardown: true,
                finished: Some(ListenerOutcome::Stopped),
            }
        }
    } else {
        ListenerStep { state, wake_waiter: false, notice: None, teardown: false, finished: None }
    }
}

/// Whether `needle` occurs in `hay`, tried at each position in turn.
fn occurs(needle: &[u8], hay: &[u8]) -> (r: bool)
    ensures
        r == occurs_in(needle@, hay@),
{
    if needle.len() > hay.len() {
        return false;
    }
    let n = hay.len();
    let last = n - needle.len();
    let mut i: usize = 0;
    loop
        invariant
            needle@.len() <= hay@.len(),
            n == hay@.len(),
            last == hay@.len() - needle@.len(),
            i <= last,
            forall|k: int| 0 <= k < i ==> #[trigger] hay@.subrange(k, k + needle@.len()) != needle@,
        decreases last - i,
    {
        let mut j: usize = 0;
        let mut same = true;
        while j < needle.len()
            invariant
                needle@.len() <= hay@.len(),
                n == hay@.len(),
                i <= last,
                last == hay@.len() - needle@.len(),
                j <= needle@.len(),
                same == (forall|m: int| 0 <= m < j ==> hay@[i + m] == needle@[m]),
            decreases needle@.len() - j,
        {
            if hay[i + j] != needle[j] {
                same = false;
            }
            j = j + 1;
        }
        if same {
            assert(hay@.subrange(i as int, i + needle@.len()) =~= needle@);
            return true;
        }
        assert(hay@.subrange(i as int, i + needle@.len()) != needle@) by {
            let m = choose|m: int| 0 <= m < j && hay@[i + m] != needle@[m];
            assert(hay@.subrange(i as int, i + needle@.len())[m] == hay@[i + m]);
        }
        if i == last {
            return false;
        }
        i = i + 1;
    }
}

/// Decides what the listener does with one inbound frame.
pub fn on_frame(state: ConnectionState, opcode: u32, payload: &[u8]) -> (r: ListenerStep)
    ensures
        r == listener_step(state, opcode, signals_reject(payload@)),
{
    let rejected = opcode == 2 && occurs("Invalid Client ID".as_bytes(), payload);
    assert(opcode == 2 ==> rejected == signals_reject(payload@));
    if state == ConnectionState::Disconnected {
        ListenerStep {
            state,
            wake_waiter: false,
            notice: None,
            teardown: false,
            finished: Some(ListenerOutcome::Stopped),
        }
    } else if opcode == 1 {
        if state == ConnectionState::Connected {
            ListenerStep {
                state: ConnectionState::Ready,
                wake_waiter: true,
                notice: Some(Notice::Ready),
                teardown: false,
                finished: None,
            }
        } else {
            ListenerStep { state, wake_waiter: false, notice: Some(Notice::Update), teardown: false, finished: None }
        }
    } else if opcode == 2 {
        if rejected {
            ListenerStep {
                state: ConnectionState::Disconnected,
                wake_waiter: false,
                notice: Some(Notice::Disconnect),
                teardown: false,
                finished: Some(ListenerOutcome::Rejected),
            }
        } else {
            ListenerStep {
                state: ConnectionState::Disconnected,
                wake_waiter: true,
                notice: Some(Notice::Disconnect),
                teardown: true,
                finished: Some(ListenerOutcome::Stopped),
            }
        }
    } else {
        ListenerStep { state, wake_waiter: false, notice: None, teardown: false, finished: None }
    }
}

/// Whether the listener reads another frame: not once the session is
/// `Disconnected`.
pub fn keep_listening(state: ConnectionState) -> (r: bool)
    ensures
        r == (state != ConnectionState::Disconnected),
{
    state != ConnectionState::Disconnected
}

/// The listener's decision when a read fails: it ends without an error, as
/// after a close, and changes nothing else.
pub open spec fn read_error_step(state: ConnectionState) -> ListenerStep {
    ListenerStep {
        state,
        wake_waiter: false,
        notice: None,
        teardown: false,
        finished: Some(ListenerOutcome::Stopped),
    }
}

/// Decides what the listener does when reading a frame fails.
pub fn on_read_error(state: ConnectionState) -> (r: ListenerStep)
    ensures
        r == read_error_step(state),
{
    ListenerStep {
        state,
        wake_waiter: false,
        notice: None,
        teardown: false,
        finished: Some(ListenerOutcome::Stopped),
    }
}

/// The error of a blocking `connect` whose listener ended, with `outcome`,
/// before the handshake was acknowledged.
pub fn ready_wait_failed(outcome: Option<ListenerOutcome>) -> (r: SessionError)
    ensures
        r == match outcome {
            Some(ListenerOutcome::Rejected) => SessionError::Rejected,
            _ => SessionError::Closed,
        },
{
    match outcome {
        Some(ListenerOutcome::Rejected) => SessionError::Rejected,
        _ => SessionError::Closed,
    }
}

/// A frame with this opcode whose payload is `text` in UTF-8, or `Oversized`
/// where the payload's length does not fit the header.
pub open spec fn text_frame(opcode: u32, text: Seq<char>) -> Result<Seq<u8>, SessionError> {
    if encode_utf8(text).len() > u32::MAX {
        Err(SessionError::Oversized)
    } else {
        Ok(frame_bytes(opcode, encode_utf8(text)))
    }
}

/// The same result, with the frame seen as its bytes.
pub open spec fn frame_of(r: Result<Vec<u8>, SessionError>) -> Result<Seq<u8>, SessionError> {
    match r {
        Ok(v) => Ok(v@),
        Err(e) => Err(e),
    }
}

/// The same result, with a frame (where one is to be sent) seen as its bytes.
pub open spec fn maybe_frame_of(r: Result<Option<Vec<u8>>, SessionError>) -> Result<
    Option<Seq<u8>>,
    SessionError,
> {
    match r {
        Ok(Some(v)) => Ok(Some(v@)),
        Ok(None) => Ok(None),
        Err(e) => Err(e),
    }
}

/// A frame to send, as an optional one.
pub open spec fn some_frame(r: Result<Seq<u8>, SessionError>) -> Result<Option<Seq<u8>>, SessionError> {
    match r {
        Ok(f) => Ok(Some(f)),
        Err(e) => Err(e),
    }
}

/// The handshake payload: protocol version 1 and the client id as a string.
pub open spec fn handshake_text(client_id: u64) -> Seq<char> {
    "{\"v\":1,\"client_id\":\""@ + decimal(client_id as nat) + "\"}"@
}

/// The close payload: protocol version 1 and the client id as a number.
pub open spec fn close_text(client_id: u64) -> Seq<char> {
    "{\"v\":1,\"client_id\":"@ + decimal(client_id as nat) + "}"@
}

/// The error that a foreground call surfaces from a listener that has ended.
pub open spec fn surfaced(finished: Option<ListenerOutcome>) -> Option<SessionError> {
    match finished {
        Some(ListenerOutcome::Rejected) => Some(SessionError::Rejected),
        _ => None,
    }
}

/// What `update` sends: nothing where the value equals the last one sent, else
/// a message frame with the command that sets it.
pub open spec fn update_result(
    pid: u32,
    last: Option<ActivityModel>,
    finished: Option<ListenerOutcome>,
    a: ActivityModel,
) -> Result<Option<Seq<u8>>, SessionError> {
    match surfaced(finished) {
        Some(e) => Err(e),
        None => if last == Some(a) {
            Ok(None)
        } else {
            some_frame(text_frame(1, packet_json(pid, Some(a))))
        },
    }
}

/// What `clear` sends: a message frame with the command that sets no activity.
pub open spec fn clear_result(pid: u32, finished: Option<ListenerOutcome>) -> Result<
    Seq<u8>,
    SessionError,
> {
    match surfaced(finished) {
        Some(e) => Err(e),
        None => text_frame(1, packet_json(pid, None)),
    }
}

/// What `shutdown` sends: nothing once disconnected, else the close frame.
pub open spec fn shutdown_result(client_id: u64, state: ConnectionState) -> Result<
    Option<Seq<u8>>,
    SessionError,
> {
    if state == ConnectionState::Disconnected {
        Ok(None)
    } else {
        some_frame(text_frame(2, close_text(client_id)))
    }
}

fn frame_text(opcode: u32, text: &String) -> (r: Result<Vec<u8>, SessionError>)
    ensures
        frame_of(r) == text_frame(opcode, text@),
{
    let bytes = text.as_str().as_bytes();
    if bytes.len() > 0xffff_ffff {
        Err(SessionError::Oversized)
    } else {
        Ok(encode_frame(opcode, bytes))
    }
}

/// The close frame for `client_id`, which both a local shutdown and the
/// listener's teardown after a close from the peer send.
pub fn close_frame(client_id: u64) -> (r: Result<Vec<u8>, SessionError>)
    ensures
        r is Ok,
        frame_of(r) == text_frame(2, close_text(client_id)),
{
    proof {
        lemma_close_fits(client_id);
    }
    let mut text = String::from_str("{\"v\":1,\"client_id\":");
    push_decimal(&mut text, client_id as u128);
    text.append("}");
    assert(text@ =~= close_text(client_id));
    frame_text(2, &text)
}

/// The error that a foreground call reports for a listener that ended this way
/// (`None` while it still runs).
pub fn check_listener(finished: Option<ListenerOutcome>) -> (r: Result<(), SessionError>)
    ensures
        r == match surfaced(finished) {
            Some(e) => Err(e),
            None => Ok::<(), SessionError>(()),
        },
{
    match finished {
        Some(ListenerOutcome::Rejected) => Err(SessionError::Rejected),
        _ => Ok(()),
    }
}

/// The caller's side of a session: its ids and the last presence value sent.
pub struct Session<'a> {
    pub client_id: u64,
    pub pid: u32,
    pub(crate) last_activity: Option<Activity<'a>>,
}

/// A session as its ids and the last value sent.
pub struct SessionModel {
    pub client_id: u64,
    pub pid: u32,
    pub last: Option<ActivityModel>,
}

impl<'a> View for Session<'a> {
    type V = SessionModel;

    open(crate) spec fn view(&self) -> SessionModel {
        SessionModel {
            client_id: self.client_id,
            pid: self.pid,
            last: match self.last_activity {
                Some(a) => Some(a@),
                None => None,
            },
        }
    }
}

impl<'a> Session<'a> {
    /// A session for the application `client_id`, running as process `pid`,
    /// that has sent nothing yet.
    pub fn new(client_id: u64, pid: u32) -> (r: Session<'a>)
        ensures
            r@ == (SessionModel { client_id, pid, last: None }),
    {
        Session { client_id, pid, last_activity: None }
    }

    /// Whether `connect` has to open a transport. Where the session is already
    /// connected or ready, `connect` does nothing and succeeds.
    pub fn begin_connect(&self, state: ConnectionState) -> (r: bool)
        ensures
            r == (state == ConnectionState::Disconnected),
    {
        state == ConnectionState::Disconnected
    }

    /// Once a transport is open: the handshake frame to send. The session
    /// changes only once the frame is written (see `connected`).
    pub fn handshake(&self) -> (r: Vec<u8>)
        ensures
            r@ == frame_bytes(0, encode_utf8(handshake_text(self@.client_id))),
    {
        proof {
            lemma_handshake_fits(self.client_id);
        }
        let mut text = String::from_str("{\"v\":1,\"client_id\":\"");
        push_decimal(&mut text, self.client_id as u128);
        text.append("\"}");
        assert(text@ =~= handshake_text(self.client_id));
        match frame_text(0, &text) {
            Ok(f) => f,
            Err(_) => Vec::new(),
        }
    }

    /// Once the handshake frame is written: the session is `Connected`, and
    /// forgets the last value sent, which the new peer has not seen.
    pub fn connected(&mut self, state: &mut ConnectionState)
        ensures
            *final(state) == ConnectionState::Connected,
            final(self)@ == (SessionModel { last: None, ..old(self)@ }),
    {
        *state = ConnectionState::Connected;
        self.last_activity = None;
    }

    /// The frame that `update` sends for `activity`, or `None` where it equals
    /// the last value sent. An error of the ended listener comes first.
    pub fn plan_update(&self, finished: Option<ListenerOutcome>, activity: &Activity<'a>) -> (r:
        Result<Option<Vec<u8>>, SessionError>)
        ensures
            maybe_frame_of(r) == update_result(self@.pid, self@.last, finished, activity@),
    {
        check_listener(finished)?;
        let unchanged = match &self.last_activity {
            Some(last) => last.eq(activity),
            None => false,
        };
        if unchanged {
            return Ok(None);
        }
        let text = Packet::new(self.pid, Some(activity)).to_json();
        match text {
            Ok(t) => match frame_text(1, &t) {
                Ok(f) => Ok(Some(f)),
                Err(e) => Err(e),
            },
            Err(_) => Err(SessionError::Oversized),
        }
    }

    /// Records `activity` as the last value sent, once its frame is written.
    pub fn sent(&mut self, activity: Activity<'a>)
        ensures
            final(self)@ == (SessionModel { last: Some(activity@), ..old(self)@ }),
    {
        self.last_activity = Some(activity);
    }

    /// The frame that `clear` sends. It does not go through the check for an
    /// unchanged value.
    pub fn plan_clear(&self, finished: Option<ListenerOutcome>) -> (r: Result<Vec<u8>, SessionError>)
        ensures
            frame_of(r) == clear_result(self@.pid, finished),
    {
        check_listener(finished)?;
        let text = Packet::new(self.pid, None).to_json();
        match text {
            Ok(t) => frame_text(1, &t),
            Err(_) => Err(SessionError::Oversized),
        }
    }

    /// The close frame that `shutdown` sends, or `None` where the session is
    /// already disconnected.
    pub fn plan_shutdown(&self, state: ConnectionState) -> (r: Result<Option<Vec<u8>>, SessionError>)
        ensures
            maybe_frame_of(r) == shutdown_result(self@.client_id, state),
    {
        if state == ConnectionState::Disconnected {
            return Ok(None);
        }
        match close_frame(self.client_id) {
            Ok(f) => Ok(Some(f)),
            Err(e) => Err(e),
        }
    }

    /// Once the close frame is written and the transport released: the session
    /// is `Disconnected` and has no last value.
    pub fn shut_down(&mut self, state: &mut ConnectionState)
        ensures
            *final(state) == ConnectionState::Disconnected,
            final(self)@ == (SessionModel { last: None, ..old(self)@ }),
    {
        *state = ConnectionState::Disconnected;
        self.last_activity = None;
    }
}

/// An acknowledgment while `Connected` makes the session `Ready`, releases the
/// waiting `connect` and runs the ready handler once; the acknowledgment after
/// it runs the update handler and not the ready handler.
pub proof fn lemma_handshake_sequencing(first: Seq<u8>, second: Seq<u8>)
    ensures
        listener_step(ConnectionState::Connected, 1, signals_reject(first)) == (ListenerStep {
            state: ConnectionState::Ready,
            wake_waiter: true,
            notice: Some(Notice::Ready),
            teardown: false,
            finished: None,
        }),
        listener_step(
            listener_step(ConnectionState::Connected, 1, signals_reject(first)).state,
            1,
            signals_reject(second),
        ) == (ListenerStep {
            state: ConnectionState::Ready,
            wake_waiter: false,
            notice: Some(Notice::Update),
            teardown: false,
            finished: None,
        }),
{
}

/// A close frame that refuses the client id ends the listener with a
/// rejection, and the next `update` fails with that error instead of writing.
pub proof fn lemma_reject_surfaces(
    state: ConnectionState,
    payload: Seq<u8>,
    session: SessionModel,
    a: ActivityModel,
)
    requires
        state != ConnectionState::Disconnected,
        signals_reject(payload),
    ensures
        listener_step(state, 2, signals_reject(payload)).finished == Some(ListenerOutcome::Rejected),
        update_result(
            session.pid,
            session.last,
            listener_step(state, 2, signals_reject(payload)).finished,
            a,
        ) == Err::<Option<Seq<u8>>, SessionError>(SessionError::Rejected),
{
}

/// Sending a value and then asking to send an equal one writes one frame in all:
/// the second request sends nothing. A value that differs in any field is sent
/// as a second frame. Both values' commands must fit the frame header's length,
/// else `update` reports `Oversized` instead.
pub proof fn lemma_update_dedup(
    session: SessionModel,
    finished: Option<ListenerOutcome>,
    a: ActivityModel,
    b: ActivityModel,
)
    requires
        session.last != Some(a),
        surfaced(finished) is None,
        encode_utf8(packet_json(session.pid, Some(a))).len() <= u32::MAX,
        encode_utf8(packet_json(session.pid, Some(b))).len() <= u32::MAX,
    ensures
        update_result(session.pid, session.last, finished, a) == Ok::<Option<Seq<u8>>, SessionError>(
            Some(frame_bytes(1, encode_utf8(packet_json(session.pid, Some(a))))),
        ),
        update_result(session.pid, Some(a), finished, a) == Ok::<Option<Seq<u8>>, SessionError>(None),
        b != a ==> update_result(session.pid, Some(a), finished, b) == Ok::<
            Option<Seq<u8>>,
            SessionError,
        >(Some(frame_bytes(1, encode_utf8(packet_json(session.pid, Some(b)))))),
{
}

/// The first `shutdown` of a connected session sends the close frame; the one
/// after it, which finds the session `Disconnected`, sends nothing.
pub proof fn lemma_shutdown_once(client_id: u64, state: ConnectionState)
    requires
        state != ConnectionState::Disconnected,
    ensures
        shutdown_result(client_id, state) == Ok::<Option<Seq<u8>>, SessionError>(
            Some(frame_bytes(2, encode_utf8(close_text(client_id)))),
        ),
        shutdown_result(client_id, ConnectionState::Disconnected) == Ok::<
            Option<Seq<u8>>,
            SessionError,
        >(None),
{
    lemma_close_fits(client_id);
}

proof fn lemma_utf8_len(chars: Seq<char>)
    ensures
        encode_utf8(chars).len() <= 4 * chars.len(),
    decreases chars.len(),
{
    if chars.len() > 0 {
        lemma_utf8_len(chars.drop_first());
    }
}

/// The handshake payload always fits in one frame.
pub proof fn lemma_handshake_fits(client_id: u64)
    ensures
        text_frame(0, handshake_text(client_id)) == Ok::<Seq<u8>, SessionError>(
            frame_bytes(0, encode_utf8(handshake_text(client_id))),
        ),
{
    reveal_strlit("{\"v\":1,\"client_id\":\"");
    reveal_strlit("\"}");
    lemma_u64_decimal_len(client_id);
    lemma_utf8_len(handshake_text(client_id));
}

/// The close payload always fits in one frame.
pub proof fn lemma_close_fits(client_id: u64)
    ensures
        text_frame(2, close_text(client_id)) == Ok::<Seq<u8>, SessionError>(
            frame_bytes(2, encode_utf8(close_text(client_id))),
        ),
{
    reveal_strlit("{\"v\":1,\"client_id\":");
    reveal_strlit("}");
    lemma_u64_decimal_len(client_id);
    lemma_utf8_len(close_text(client_id));
}

} // verus!
