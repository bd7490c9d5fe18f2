use vstd::prelude::*;
use vstd::string::StringExecFns;

verus! {

/// One inbound frame of the streaming protocol, as the transport decoded it.
pub enum Frame {
    Ping(Vec<u8>),
    Text(String),
    Binary(Vec<u8>),
    /// Any other frame kind (pong, continuation): accepted, no reply.
    Other,
    /// The transport could not decode a frame; carries its description.
    Error(String),
}

pub enum FrameView {
    Ping(Seq<u8>),
    Text(Seq<char>),
    Binary(Seq<u8>),
    Other,
    Error(Seq<char>),
}

impl View for Frame {
    type V = FrameView;

    open spec fn view(&self) -> FrameView {
        match self {
            Frame::Ping(p) => FrameView::Ping(p@),
            Frame::Text(t) => FrameView::Text(t@),
            Frame::Binary(b) => FrameView::Binary(b@),
            Frame::Other => FrameView::Other,
            Frame::Error(m) => FrameView::Error(m@),
        }
    }
}

/// What a session asks its connection runner to do.
pub enum SessionAction {
    /// Start the fire-and-forget liveness probe against the store.
    SpawnProbe,
    SendPong(Vec<u8>),
    SendText(String),
}

pub enum SessionActionView {
    SpawnProbe,
    SendPong(Seq<u8>),
    SendText(Seq<char>),
}

impl View for SessionAction {
    type V = SessionActionView;

    open spec fn view(&self) -> SessionActionView {
        match self {
            SessionAction::SpawnProbe => SessionActionView::SpawnProbe,
            SessionAction::SendPong(p) => SessionActionView::SendPong(p@),
            SessionAction::SendText(t) => SessionActionView::SendText(t@),
        }
    }
}

pub open spec fn session_actions_view(a: Seq<SessionAction>) -> Seq<SessionActionView> {
    a.map_values(|x: SessionAction| x@)
}

/// Lifecycle of a session: `Created -> Active -> {Closed, Errored}`; the last
/// two are terminal.
#[derive(Clone, Copy, Debug, PartialEq, Eq, Structural)]
pub enum Phase {
    Created,
    Active,
    Closed,
    Errored,
}

/// How the session's liveness probe ended, as far as the session has heard.
#[derive(Clone, Copy, Debug, PartialEq, Eq, Structural)]
pub enum ProbeStatus {
    Pending,
    Healthy,
    Failed,
}

pub struct SessionView {
    pub phase: Phase,
    pub errors: Seq<Seq<char>>,
    pub probe: ProbeStatus,
}

/// One streaming connection's state. Sessions share nothing with each other.
pub struct Session {
    phase: Phase,
    errors: Vec<String>,
    probe: ProbeStatus,
}

impl View for Session {
    type V = SessionView;

    closed spec fn view(&self) -> SessionView {
        SessionView { phase: self.phase, errors: self.errors@.map_values(|s: String| s@), probe: self.probe }
    }
}

/// The greeting sent once when a session starts.
pub open spec fn greeting() -> Seq<char> {
    "welcome"@
}

/// The echo of a text frame.
pub open spec fn echo_text(t: Seq<char>) -> Seq<char> {
    "echoing the following: "@ + t
}

/// The frames an active session sends back for one inbound frame.
pub open spec fn reply_to(f: FrameView) -> Seq<SessionActionView> {
    match f {
        FrameView::Ping(p) => seq![SessionActionView::SendPong(p)],
        FrameView::Text(t) => seq![SessionActionView::SendText(echo_text(t))],
        _ => Seq::empty(),
    }
}

pub open spec fn start_step(v: SessionView) -> (SessionView, Seq<SessionActionView>) {
    if v.phase == Phase::Created {
        (
            SessionView { phase: Phase::Active, ..v },
            seq![SessionActionView::SpawnProbe, SessionActionView::SendText(greeting())],
        )
    } else {
        (v, Seq::empty())
    }
}

pub open spec fn frame_step(v: SessionView, f: FrameView) -> (SessionView, Seq<SessionActionView>) {
    if v.phase != Phase::Active {
        (v, Seq::empty())
    } else {
        match f {
            FrameView::Error(m) => (SessionView { errors: v.errors.push(m), ..v }, Seq::empty()),
            _ => (v, reply_to(f)),
        }
    }
}

pub open spec fn probe_step(v: SessionView, healthy: bool) -> SessionView {
    SessionView { probe: if healthy { ProbeStatus::Healthy } else { ProbeStatus::Failed }, ..v }
}

pub open spec fn close_step(v: SessionView, violation: bool) -> SessionView {
    if v.phase == Phase::Closed || v.phase == Phase::Errored {
        v
    } else {
        SessionView { phase: if violation { Phase::Errored } else { Phase::Closed }, ..v }
    }
}

/// The state after a run of inbound frames, and everything sent, in order.
pub open spec fn run_frames(v: SessionView, fs: Seq<FrameView>) -> (SessionView, Seq<SessionActionView>)
    decreases fs.len(),
{
    if fs.len() == 0 {
        (v, Seq::empty())
    } else {
        let (v1, a1) = run_frames(v, fs.drop_last());
        let (v2, a2) = frame_step(v1, fs.last());
        (v2, a1 + a2)
    }
}

/// The replies to each frame of `fs` in turn, concatenated.
pub open spec fn replies(fs: Seq<FrameView>) -> Seq<SessionActionView>
    decreases fs.len(),
{
    if fs.len() == 0 {
        Seq::empty()
    } else {
        replies(fs.drop_last()) + reply_to(fs.last())
    }
}

/// An active session answers a run of frames one by one: what it sends is the
/// reply to each frame in arrival order, and it stays active throughout.
pub proof fn lemma_replies_in_order(v: SessionView, fs: Seq<FrameView>)
    requires
        v.phase == Phase::Active,
    ensures
        run_frames(v, fs).1 == replies(fs),
        run_frames(v, fs).0.phase == Phase::Active,
    decreases fs.len(),
{
    if fs.len() > 0 {
        lemma_replies_in_order(v, fs.drop_last());
    }
}

/// Sending the same text twice to an active session yields two echoes of it,
/// one per frame, in order, and nothing else.
pub proof fn lemma_text_twice(v: SessionView, t: Seq<char>)
    requires
        v.phase == Phase::Active,
    ensures
        run_frames(v, seq![FrameView::Text(t), FrameView::Text(t)]).1 == seq![
            SessionActionView::SendText(echo_text(t)),
            SessionActionView::SendText(echo_text(t)),
        ],
{
    let fs = seq![FrameView::Text(t), FrameView::Text(t)];
    lemma_replies_in_order(v, fs);
    assert(fs.drop_last() =~= seq![FrameView::Text(t)]);
    assert(fs.drop_last().drop_last() =~= Seq::<FrameView>::empty());
    let one = seq![SessionActionView::SendText(echo_text(t))];
    assert(replies(fs.drop_last().drop_last()) =~= Seq::<SessionActionView>::empty());
    assert(replies(fs.drop_last()) =~= one);
    assert(replies(fs) == one + one);
    assert(replies(fs) =~= seq![
        SessionActionView::SendText(echo_text(t)),
        SessionActionView::SendText(echo_text(t)),
    ]);
}

/// Two sessions that differ only in what they heard from their probes handle
/// every run of frames alike.
pub proof fn lemma_frames_ignore_probe(v: SessionView, w: SessionView, fs: Seq<FrameView>)
    requires
        v.phase == w.phase,
        v.errors == w.errors,
    ensures
        run_frames(v, fs).1 == run_frames(w, fs).1,
        run_frames(v, fs).0.phase == run_frames(w, fs).0.phase,
        run_frames(v, fs).0.errors == run_frames(w, fs).0.errors,
    decreases fs.len(),
{
    if fs.len() > 0 {
        lemma_frames_ignore_probe(v, w, fs.drop_last());
    }
}

/// A failed liveness probe neither closes the session nor changes what it
/// records or sends: every later run of frames is handled exactly as if the
/// probe had not reported at all.
pub proof fn lemma_probe_failure_isolated(v: SessionView, fs: Seq<FrameView>)
    ensures
        probe_step(v, false).phase == v.phase,
        probe_step(v, false).errors == v.errors,
        run_frames(probe_step(v, false), fs).1 == run_frames(v, fs).1,
        run_frames(probe_step(v, false), fs).0.phase == run_frames(v, fs).0.phase,
        run_frames(probe_step(v, false), fs).0.errors == run_frames(v, fs).0.errors,
{
    lemma_frames_ignore_probe(probe_step(v, false), v, fs);
}

impl Session {
    pub fn new() -> (r: Session)
        ensures
            r@.phase == Phase::Created,
            r@.errors.len() == 0,
            r@.probe == ProbeStatus::Pending,
    {
        Session { phase: Phase::Created, errors: Vec::new(), probe: ProbeStatus::Pending }
    }

    pub fn phase(&self) -> (r: Phase)
        ensures
            r == self@.phase,
    {
        self.phase
    }

    pub fn probe_status(&self) -> (r: ProbeStatus)
        ensures
            r == self@.probe,
    {
        self.probe
    }

    /// The number of frame errors recorded so far.
    pub fn error_count(&self) -> (r: usize)
        ensures
            r == self@.errors.len(),
    {
        self.errors.len()
    }

    /// The connection was upgraded: the session becomes active, starts its
    /// liveness probe without waiting on it, and greets the client.
    pub fn start(&mut self) -> (r: Vec<SessionAction>)
        ensures
            (final(self)@, session_actions_view(r@)) == start_step(old(self)@),
    {
        if self.phase == Phase::Created {
            self.phase = Phase::Active;
            let r = vec![SessionAction::SpawnProbe, SessionAction::SendText(String::from_str("welcome"))];
            assert(session_actions_view(r@) =~= seq![SessionActionView::SpawnProbe, SessionActionView::SendText(greeting())]);
            r
        } else {
            let r: Vec<SessionAction> = Vec::new();
            assert(session_actions_view(r@) =~= Seq::<SessionActionView>::empty());
            r
        }
    }

    /// Handles one inbound frame: a ping is answered by a pong with the same
    /// payload, a text by its echo; a binary or other frame is accepted
    /// silently; a decoding error is recorded and the session carries on.
    /// A session that is not active ignores frames.
    pub fn on_frame(&mut self, frame: Frame) -> (r: Vec<SessionAction>)
        ensures
            (final(self)@, session_actions_view(r@)) == frame_step(old(self)@, frame@),
    {
        let ghost before = self@;
        let ghost fv = frame@;
        let r: Vec<SessionAction> = if self.phase != Phase::Active {
            Vec::new()
        } else {
            match frame {
                Frame::Ping(p) => vec![SessionAction::SendPong(p)],
                Frame::Text(t) => {
                    let echo = String::from_str("echoing the following: ").concat(t.as_str());
                    vec![SessionAction::SendText(echo)]
                },
                Frame::Error(m) => {
                    self.errors.push(m);
                    Vec::new()
                },
                _ => Vec::new(),
            }
        };
        assert(session_actions_view(r@) =~= frame_step(before, fv).1);
        assert(self@.errors =~= frame_step(before, fv).0.errors);
        r
    }

    /// The liveness probe reported back. Only the probe's status changes.
    pub fn probe_finished(&mut self, healthy: bool)
        ensures
            final(self)@ == probe_step(old(self)@, healthy),
    {
        self.probe = if healthy { ProbeStatus::Healthy } else { ProbeStatus::Failed };
    }

    /// The transport ended the connection, cleanly or (`violation`) on a
    /// protocol error. A session that already ended stays as it is.
    pub fn closed(&mut self, violation: bool)
        ensures
            final(self)@ == close_step(old(self)@, violation),
    {
        if self.phase != Phase::Closed && self.phase != Phase::Errored {
            self.phase = if violation { Phase::Errored } else { Phase::Closed };
        }
    }
}

} // verus!
