//! The call state machine.
//!
//! The engine decides; it does not talk to the media stack. Whoever owns
//! the peer connection asks the engine before each step, performs the step,
//! and reports how it went.

use super::audio::{
    is_best_choice, AudioError, AudioHandler, StreamChoice, SupportedRange, SILENCE,
};
use vstd::prelude::*;

verus! {

/// Milliseconds for which an ended call stays `Ended` before the engine is
/// idle again.
pub const ENDED_HOLD_MILLIS: u64 = 500;

/// Why the engine refused, or what went wrong in a call.
#[derive(Debug)]
pub enum CallEngineError {
    WebRTC(String),
    Audio(AudioError),
    NoActiveCall,
    AlreadyInCall,
    InvalidSdp(String),
}

/// Where a call stands.
#[derive(Debug, Clone, PartialEq, Eq)]
pub enum CallState {
    /// No call.
    Idle,
    /// We called and wait for the answer.
    Calling { peer_id: String },
    /// A peer calls and waits for our answer.
    Ringing { peer_id: String, username: String },
    /// We accepted; the connection is being made.
    Connecting { peer_id: String },
    /// Media flows.
    Connected { peer_id: String },
    /// The call is over; the engine is idle again shortly.
    Ended,
}

/// What the engine tells those who listen to it.
#[derive(Debug, Clone, PartialEq, Eq)]
pub enum CallEvent {
    StateChanged(CallState),
    IceCandidate { candidate: String },
    /// The input and output levels, as the bit patterns of two floats.
    AudioLevel { input: u32, output: u32 },
    Error(String),
}

/// The state of the peer connection, as the media stack reports it.
#[derive(Debug, Clone, Copy, PartialEq, Eq)]
pub enum RtcConnectionState {
    Unspecified,
    New,
    Connecting,
    Connected,
    Disconnected,
    Failed,
    Closed,
}

/// What went wrong in the media stack.
#[derive(Debug, Clone, PartialEq, Eq)]
pub enum RtcFailure {
    /// An operation on the peer connection failed.
    Operation(String),
    /// A session description could not be read.
    Sdp(String),
}

/// A server that helps to find a path between the peers.
#[derive(Debug, Clone, PartialEq, Eq)]
pub struct IceServer {
    pub urls: Vec<String>,
    pub username: String,
    pub credential: String,
}

/// The texts of a list of addresses.
pub open spec fn url_texts(urls: Seq<String>) -> Seq<Seq<char>> {
    urls.map_values(|s: String| s@)
}

impl View for IceServer {
    type V = (Seq<Seq<char>>, Seq<char>, Seq<char>);

    /// The addresses, the user name and the credential.
    open spec fn view(&self) -> Self::V {
        (url_texts(self.urls@), self.username@, self.credential@)
    }
}

/// The servers of a list, each as its addresses, user name and credential.
pub open spec fn server_views(servers: Seq<IceServer>) -> Seq<
    (Seq<Seq<char>>, Seq<char>, Seq<char>),
> {
    servers.map_values(|s: IceServer| s@)
}

/// The STUN servers that every engine starts with.
pub open spec fn default_servers() -> Seq<(Seq<Seq<char>>, Seq<char>, Seq<char>)> {
    seq![
        (
            seq![
                "stun:stun.nextcloud.com:443"@,
                "stun:stun.freeswitch.org:3478"@,
                "stun:stun.stunprotocol.org:3478"@,
            ],
            ""@,
            ""@,
        ),
        (
            seq![
                "stun:stun.l.google.com:19302"@,
                "stun:stun1.l.google.com:19302"@,
                "stun:stun2.l.google.com:19302"@,
            ],
            ""@,
            ""@,
        ),
    ]
}

/// A server without credentials at three addresses.
fn stun_server(first: &str, second: &str, third: &str) -> (r: IceServer)
    ensures
        r@ == (seq![first@, second@, third@], ""@, ""@),
{
    let mut urls: Vec<String> = Vec::new();
    urls.push(String::from_str(first));
    urls.push(String::from_str(second));
    urls.push(String::from_str(third));
    assert(url_texts(urls@) =~= seq![first@, second@, third@]);
    IceServer { urls, username: String::from_str(""), credential: String::from_str("") }
}

/// The STUN servers that every engine starts with.
pub fn default_ice_servers() -> (r: Vec<IceServer>)
    ensures
        server_views(r@) == default_servers(),
{
    let mut servers: Vec<IceServer> = Vec::new();
    servers.push(
        stun_server(
            "stun:stun.nextcloud.com:443",
            "stun:stun.freeswitch.org:3478",
            "stun:stun.stunprotocol.org:3478",
        ),
    );
    servers.push(
        stun_server(
            "stun:stun.l.google.com:19302",
            "stun:stun1.l.google.com:19302",
            "stun:stun2.l.google.com:19302",
        ),
    );
    assert(server_views(servers@) =~= default_servers());
    servers
}

impl CallState {
    /// The peer of the call, where there is a call.
    pub open spec fn peer(self) -> Option<String> {
        match self {
            CallState::Calling { peer_id } => Some(peer_id),
            CallState::Ringing { peer_id, username } => Some(peer_id),
            CallState::Connecting { peer_id } => Some(peer_id),
            CallState::Connected { peer_id } => Some(peer_id),
            _ => None,
        }
    }

    /// The state's name in lower case.
    pub open spec fn label(self) -> Seq<char> {
        match self {
            CallState::Idle => "idle"@,
            CallState::Calling { peer_id } => "calling"@,
            CallState::Ringing { peer_id, username } => "ringing"@,
            CallState::Connecting { peer_id } => "connecting"@,
            CallState::Connected { peer_id } => "connected"@,
            CallState::Ended => "ended"@,
        }
    }

    /// A copy of this state.
    pub fn duplicate(&self) -> (r: CallState)
        ensures
            r == *self,
    {
        match self {
            CallState::Idle => CallState::Idle,
            CallState::Calling { peer_id } => CallState::Calling { peer_id: peer_id.clone() },
            CallState::Ringing { peer_id, username } => CallState::Ringing {
                peer_id: peer_id.clone(),
                username: username.clone(),
            },
            CallState::Connecting { peer_id } => CallState::Connecting { peer_id: peer_id.clone() },
            CallState::Connected { peer_id } => CallState::Connected { peer_id: peer_id.clone() },
            CallState::Ended => CallState::Ended,
        }
    }

    /// The peer of the call, where there is a call.
    pub fn peer_id(&self) -> (r: Option<String>)
        ensures
            r == self.peer(),
    {
        match self {
            CallState::Calling { peer_id } => Some(peer_id.clone()),
            CallState::Ringing { peer_id, username } => Some(peer_id.clone()),
            CallState::Connecting { peer_id } => Some(peer_id.clone()),
            CallState::Connected { peer_id } => Some(peer_id.clone()),
            _ => None,
        }
    }

    /// The state's name in lower case.
    pub fn name(&self) -> (r: &'static str)
        ensures
            r@ == self.label(),
    {
        match self {
            CallState::Idle => "idle",
            CallState::Calling { peer_id } => "calling",
            CallState::Ringing { peer_id, username } => "ringing",
            CallState::Connecting { peer_id } => "connecting",
            CallState::Connected { peer_id } => "connected",
            CallState::Ended => "ended",
        }
    }
}

/// The state that follows `state` when the peer connection reports `rtc`,
/// where it is another one.
pub open spec fn state_on_connection(state: CallState, rtc: RtcConnectionState) -> Option<
    CallState,
> {
    match rtc {
        RtcConnectionState::Connected => match state {
            CallState::Calling { peer_id } => Some(CallState::Connected { peer_id }),
            CallState::Connecting { peer_id } => Some(CallState::Connected { peer_id }),
            _ => None,
        },
        RtcConnectionState::Disconnected => Some(CallState::Ended),
        RtcConnectionState::Failed => Some(CallState::Ended),
        RtcConnectionState::Closed => Some(CallState::Ended),
        _ => None,
    }
}

/// The error that a failure of the media stack is reported as.
pub open spec fn failure_matches(failure: RtcFailure, e: CallEngineError) -> bool {
    match failure {
        RtcFailure::Operation(detail) => e matches CallEngineError::WebRTC(d) && d == detail,
        RtcFailure::Sdp(detail) => e matches CallEngineError::InvalidSdp(d) && d == detail,
    }
}

/// The call engine.
pub struct CallEngine {
    state: CallState,
    has_connection: bool,
    audio: Option<AudioHandler>,
    ice_servers: Vec<IceServer>,
}

impl CallEngine {
    /// The audio handler, where there is one, is well formed.
    pub closed spec fn wf(&self) -> bool {
        self.audio matches Some(handler) ==> handler.wf()
    }

    /// Where the call stands.
    pub closed spec fn call_state(&self) -> CallState {
        self.state
    }

    /// Whether the engine holds a peer connection.
    pub closed spec fn has_connection(&self) -> bool {
        self.has_connection
    }

    /// The audio handler of the call, while audio runs.
    pub closed spec fn audio(&self) -> Option<AudioHandler> {
        self.audio
    }

    /// The servers to build a peer connection with, in order.
    pub closed spec fn servers(&self) -> Seq<(Seq<Seq<char>>, Seq<char>, Seq<char>)> {
        server_views(self.ice_servers@)
    }

    /// The state of the call, the peer connection and the servers are in
    /// `self` as in `before`.
    pub open spec fn same_call(&self, before: &Self) -> bool {
        &&& self.call_state() == before.call_state()
        &&& self.has_connection() == before.has_connection()
        &&& self.servers() == before.servers()
    }

    /// An idle engine with the default servers.
    pub fn new() -> (r: Self)
        ensures
            r.wf(),
            r.call_state() == CallState::Idle,
            !r.has_connection(),
            r.audio() is None,
            r.servers() == default_servers(),
    {
        CallEngine {
            state: CallState::Idle,
            has_connection: false,
            audio: None,
            ice_servers: default_ice_servers(),
        }
    }

    /// Adds a TURN server behind the servers that are there.
    pub fn set_turn_server(&mut self, url: String, username: String, credential: String)
        requires
            old(self).wf(),
        ensures
            final(self).wf(),
            final(self).servers() == old(self).servers().push((seq![url@], username@, credential@)),
            final(self).call_state() == old(self).call_state(),
            final(self).has_connection() == old(self).has_connection(),
            final(self).audio() == old(self).audio(),
    {
        let mut urls: Vec<String> = Vec::new();
        urls.push(url);
        assert(url_texts(urls@) =~= seq![url@]);
        let ghost before = self.ice_servers@;
        self.ice_servers.push(IceServer { urls, username, credential });
        assert(server_views(self.ice_servers@) =~= server_views(before).push(
            (seq![url@], username@, credential@),
        ));
    }

    /// The servers to build a peer connection with.
    pub fn ice_servers(&self) -> (r: &Vec<IceServer>)
        ensures
            server_views(r@) == self.servers(),
    {
        &self.ice_servers
    }

    /// Where the call stands.
    pub fn state(&self) -> (r: CallState)
        ensures
            r == self.call_state(),
    {
        self.state.duplicate()
    }

    /// Whether the engine holds a peer connection.
    pub fn is_connected(&self) -> (r: bool)
        ensures
            r == self.has_connection(),
    {
        self.has_connection
    }

    /// Starts a call to a peer. Only an idle engine starts one.
    pub fn start_call(&mut self, peer_id: String) -> (r: Result<CallEvent, CallEngineError>)
        requires
            old(self).wf(),
        ensures
            final(self).wf(),
            final(self).has_connection() == old(self).has_connection(),
            final(self).audio() == old(self).audio(),
            final(self).servers() == old(self).servers(),
            old(self).call_state() is Idle ==> final(self).call_state() == (CallState::Calling {
                peer_id,
            }) && r == Ok::<CallEvent, CallEngineError>(
                CallEvent::StateChanged(CallState::Calling { peer_id }),
            ),
            !(old(self).call_state() is Idle) ==> final(self).call_state() == old(
                self).call_state() && r == Err::<CallEvent, CallEngineError>(
                CallEngineError::AlreadyInCall,
            ),
    {
        match self.state {
            CallState::Idle => {
                self.state = CallState::Calling { peer_id: peer_id.clone() };
                Ok(CallEvent::StateChanged(CallState::Calling { peer_id }))
            },
            _ => Err(CallEngineError::AlreadyInCall),
        }
    }

    /// Accepts the call of a peer. Only an engine that is idle, or at which
    /// a call rings, accepts one.
    pub fn accept_call(&mut self, peer_id: String) -> (r: Result<CallEvent, CallEngineError>)
        requires
            old(self).wf(),
        ensures
            final(self).wf(),
            final(self).has_connection() == old(self).has_connection(),
            final(self).audio() == old(self).audio(),
            final(self).servers() == old(self).servers(),
            (old(self).call_state() is Idle || old(self).call_state() is Ringing) ==> final(
                self).call_state() == (CallState::Connecting { peer_id }) && r == Ok::<
                CallEvent,
                CallEngineError,
            >(CallEvent::StateChanged(CallState::Connecting { peer_id })),
            !(old(self).call_state() is Idle || old(self).call_state() is Ringing) ==> final(
                self).call_state() == old(self).call_state() && r == Err::<
                CallEvent,
                CallEngineError,
            >(CallEngineError::AlreadyInCall),
    {
        match self.state {
            CallState::Idle | CallState::Ringing { .. } => {
                self.state = CallState::Connecting { peer_id: peer_id.clone() };
                Ok(CallEvent::StateChanged(CallState::Connecting { peer_id }))
            },
            _ => Err(CallEngineError::AlreadyInCall),
        }
    }

    /// Takes in how the making of the local session description went. On
    /// success the engine holds the peer connection and hands the
    /// description on; on failure the call is over.
    pub fn negotiated(&mut self, outcome: Result<String, RtcFailure>) -> (r: Result<
        String,
        CallEngineError,
    >)
        requires
            old(self).wf(),
        ensures
            final(self).wf(),
            final(self).servers() == old(self).servers(),
            match outcome {
                Ok(sdp) => r == Ok::<String, CallEngineError>(sdp) && final(self).has_connection()
                    && final(self).call_state() == old(self).call_state() && final(self).audio()
                    == old(self).audio(),
                Err(failure) => (r matches Err(e)
                    && failure_matches(failure, e))
                    && !final(self).has_connection()
                    && final(self).call_state() == CallState::Ended
                    && final(self).audio() is None,
            },
    {
        match outcome {
            Ok(sdp) => {
                self.has_connection = true;
                Ok(sdp)
            },
            Err(failure) => Err(self.rtc_failed(failure)),
        }
    }

    /// Takes in a failure of the media stack: the call is over, and the
    /// failure comes back as the error to report.
    pub fn rtc_failed(&mut self, failure: RtcFailure) -> (e: CallEngineError)
        requires
            old(self).wf(),
        ensures
            final(self).wf(),
            final(self).servers() == old(self).servers(),
            failure_matches(failure, e),
            !final(self).has_connection(),
            final(self).call_state() == CallState::Ended,
            final(self).audio() is None,
    {
        let _ = self.end_call();
        match failure {
            RtcFailure::Operation(detail) => CallEngineError::WebRTC(detail),
            RtcFailure::Sdp(detail) => CallEngineError::InvalidSdp(detail),
        }
    }

    /// Opens the audio streams for the call: capture on the input device,
    /// then playback on the output device. Where either cannot be opened
    /// the call is over.
    pub fn init_audio(
        &mut self,
        input: Option<&Vec<SupportedRange>>,
        output: Option<&Vec<SupportedRange>>,
    ) -> (r: Result<(StreamChoice, StreamChoice), CallEngineError>)
        requires
            old(self).wf(),
        ensures
            final(self).wf(),
            final(self).servers() == old(self).servers(),
            r is Ok <==> (input is Some && input->Some_0@.len() > 0 && output is Some
                && output->Some_0@.len() > 0),
            match r {
                Ok(p) => {
                    &&& is_best_choice(input->Some_0@, p.0)
                    &&& is_best_choice(output->Some_0@, p.1)
                    &&& final(self).call_state() == old(self).call_state()
                    &&& final(self).has_connection() == old(self).has_connection()
                    &&& final(self).audio() matches Some(h) && h.capturing() && h.playing()
                        && !h.muted() && h.captured().len() == 0 && h.queued().len() == 0
                        && h.levels() == (SILENCE, SILENCE)
                },
                Err(e) => {
                    &&& final(self).call_state() == CallState::Ended
                    &&& !final(self).has_connection()
                    &&& final(self).audio() is None
                    &&& e matches CallEngineError::Audio(a) && match input {
                        None => a is NoInputDevice,
                        Some(i) => if i@.len() == 0 {
                            a is UnsupportedConfig
                        } else {
                            match output {
                                None => a is NoOutputDevice,
                                Some(o) => a is UnsupportedConfig,
                            }
                        },
                    }
                },
            },
    {
        let mut handler = match AudioHandler::new() {
            Ok(h) => h,
            Err(e) => {
                return Err(self.audio_failed(e));
            },
        };
        let capture = match handler.start_capture(input) {
            Ok(c) => c,
            Err(e) => {
                return Err(self.audio_failed(e));
            },
        };
        let playback = match handler.start_playback(output) {
            Ok(c) => c,
            Err(e) => {
                return Err(self.audio_failed(e));
            },
        };
        self.audio = Some(handler);
        Ok((capture, playback))
    }

    /// Takes in a failure of the sound devices: the call is over, and the
    /// failure comes back as the error to report.
    pub fn audio_failed(&mut self, failure: AudioError) -> (e: CallEngineError)
        requires
            old(self).wf(),
        ensures
            final(self).wf(),
            final(self).servers() == old(self).servers(),
            e == CallEngineError::Audio(failure),
            !final(self).has_connection(),
            final(self).call_state() == CallState::Ended,
            final(self).audio() is None,
    {
        let _ = self.end_call();
        CallEngineError::Audio(failure)
    }

    /// Whether a remote answer can be applied: only where the engine holds
    /// a peer connection. The description comes back for applying.
    pub fn handle_answer(&self, answer_sdp: String) -> (r: Result<String, CallEngineError>)
        ensures
            self.has_connection() ==> r == Ok::<String, CallEngineError>(answer_sdp),
            !self.has_connection() ==> r matches Err(CallEngineError::NoActiveCall),
    {
        if self.has_connection {
            Ok(answer_sdp)
        } else {
            Err(CallEngineError::NoActiveCall)
        }
    }

    /// Whether a candidate of the peer can be applied: only where the
    /// engine holds a peer connection. The candidate comes back for
    /// applying.
    pub fn add_ice_candidate(&self, candidate_json: String) -> (r: Result<String, CallEngineError>)
        ensures
            self.has_connection() ==> r == Ok::<String, CallEngineError>(candidate_json),
            !self.has_connection() ==> r matches Err(CallEngineError::NoActiveCall),
    {
        if self.has_connection {
            Ok(candidate_json)
        } else {
            Err(CallEngineError::NoActiveCall)
        }
    }

    /// Refuses the call that rings: the same as ending it.
    pub fn reject_call(&mut self) -> (event: CallEvent)
        requires
            old(self).wf(),
        ensures
            final(self).wf(),
            final(self).servers() == old(self).servers(),
            final(self).call_state() == CallState::Ended,
            !final(self).has_connection(),
            final(self).audio() is None,
            event == CallEvent::StateChanged(CallState::Ended),
    {
        self.end_call()
    }

    /// Ends the call: the audio streams are closed and dropped, the peer
    /// connection is given up, and the state is `Ended`.
    pub fn end_call(&mut self) -> (event: CallEvent)
        requires
            old(self).wf(),
        ensures
            final(self).wf(),
            final(self).servers() == old(self).servers(),
            final(self).call_state() == CallState::Ended,
            !final(self).has_connection(),
            final(self).audio() is None,
            event == CallEvent::StateChanged(CallState::Ended),
    {
        self.audio = None;
        self.has_connection = false;
        self.state = CallState::Ended;
        CallEvent::StateChanged(CallState::Ended)
    }

    /// What is due when an ended call has been shown for long enough: an
    /// engine that is still `Ended` becomes idle; any other stays as it is.
    pub fn settle(&mut self) -> (event: Option<CallEvent>)
        requires
            old(self).wf(),
        ensures
            final(self).wf(),
            final(self).servers() == old(self).servers(),
            final(self).has_connection() == old(self).has_connection(),
            final(self).audio() == old(self).audio(),
            old(self).call_state() is Ended ==> final(self).call_state() == CallState::Idle
                && event == Some(CallEvent::StateChanged(CallState::Idle)),
            !(old(self).call_state() is Ended) ==> final(self).call_state() == old(self).call_state()
                && event is None,
    {
        match self.state {
            CallState::Ended => {
                self.state = CallState::Idle;
                Some(CallEvent::StateChanged(CallState::Idle))
            },
            _ => None,
        }
    }

    /// Takes in the state that the peer connection reports.
    pub fn on_connection_state(&mut self, rtc: RtcConnectionState) -> (event: Option<CallEvent>)
        requires
            old(self).wf(),
        ensures
            final(self).wf(),
            final(self).servers() == old(self).servers(),
            final(self).has_connection() == old(self).has_connection(),
            final(self).audio() == old(self).audio(),
            match state_on_connection(old(self).call_state(), rtc) {
                Some(next) => final(self).call_state() == next && event == Some(
                    CallEvent::StateChanged(next),
                ),
                None => final(self).call_state() == old(self).call_state() && event is None,
            },
    {
        let next = match rtc {
            RtcConnectionState::Connected => match &self.state {
                CallState::Calling { peer_id } => Some(
                    CallState::Connected { peer_id: peer_id.clone() },
                ),
                CallState::Connecting { peer_id } => Some(
                    CallState::Connected { peer_id: peer_id.clone() },
                ),
                _ => None,
            },
            RtcConnectionState::Disconnected => Some(CallState::Ended),
            RtcConnectionState::Failed => Some(CallState::Ended),
            RtcConnectionState::Closed => Some(CallState::Ended),
            _ => None,
        };
        match next {
            Some(state) => {
                self.state = state.duplicate();
                Some(CallEvent::StateChanged(state))
            },
            None => None,
        }
    }

    /// Takes note of a call that comes in.
    pub fn register_incoming_call(&mut self, peer_id: String, username: String) -> (event:
        CallEvent)
        requires
            old(self).wf(),
        ensures
            final(self).wf(),
            final(self).servers() == old(self).servers(),
            final(self).has_connection() == old(self).has_connection(),
            final(self).audio() == old(self).audio(),
            final(self).call_state() == (CallState::Ringing { peer_id, username }),
            event == CallEvent::StateChanged(final(self).call_state()),
    {
        self.state = CallState::Ringing { peer_id: peer_id.clone(), username: username.clone() };
        CallEvent::StateChanged(CallState::Ringing { peer_id, username })
    }

    /// Mutes or unmutes the microphone, where audio runs.
    pub fn set_muted(&mut self, muted: bool)
        requires
            old(self).wf(),
        ensures
            final(self).wf(),
            final(self).servers() == old(self).servers(),
            final(self).has_connection() == old(self).has_connection(),
            final(self).call_state() == old(self).call_state(),
            match old(self).audio() {
                None => final(self).audio() is None,
                Some(before) => final(self).audio() matches Some(after) && after.muted() == muted
                    && after.same_buffers(&before) && after.levels() == before.levels()
                    && after.capturing() == before.capturing() && after.playing()
                    == before.playing(),
            },
    {
        match &mut self.audio {
            Some(handler) => handler.set_muted(muted),
            None => {},
        }
    }

    /// Takes in one block from the microphone, where audio runs.
    pub fn capture_block(&mut self, samples: &[u32], level: u32)
        requires
            old(self).wf(),
        ensures
            final(self).wf(),
            final(self).same_call(old(self)),
            match old(self).audio() {
                None => final(self).audio() is None,
                Some(before) => final(self).audio() matches Some(after) && after.after_capture(
                    &before,
                    samples@,
                    level,
                ),
            },
    {
        match &mut self.audio {
            Some(handler) => handler.capture_block(samples, level),
            None => {},
        }
    }

    /// Hands out the next `count` samples for the speakers; without audio,
    /// silence.
    pub fn playback_block(&mut self, count: usize) -> (out: Vec<u32>)
        requires
            old(self).wf(),
        ensures
            final(self).wf(),
            final(self).same_call(old(self)),
            match old(self).audio() {
                None => final(self).audio() is None && out@ == Seq::new(
                    count as nat,
                    |i: int| SILENCE,
                ),
                Some(before) => final(self).audio() matches Some(after) && after.after_playback(
                    &before,
                    count,
                    out@,
                ),
            },
    {
        match &mut self.audio {
            Some(handler) => handler.playback_block(count),
            None => {
                let mut out: Vec<u32> = Vec::new();
                let mut i: usize = 0;
                while i < count
                    invariant
                        i <= count,
                        out@ == Seq::new(i as nat, |j: int| SILENCE),
                    decreases count - i,
                {
                    out.push(SILENCE);
                    assert(out@ =~= Seq::new((i + 1) as nat, |j: int| SILENCE));
                    i += 1;
                }
                out
            },
        }
    }

    /// Shows `level` on the output level meter, where audio runs.
    pub fn set_output_level(&mut self, level: u32)
        requires
            old(self).wf(),
        ensures
            final(self).wf(),
            final(self).same_call(old(self)),
            match old(self).audio() {
                None => final(self).audio() is None,
                Some(before) => final(self).audio() matches Some(after) && after.levels() == (
                    before.levels().0,
                    level,
                ) && after.same_buffers(&before) && after.same_controls(&before),
            },
    {
        match &mut self.audio {
            Some(handler) => handler.set_output_level(level),
            None => {},
        }
    }

    /// Takes the oldest frame of captured samples, where audio runs and a
    /// whole frame is there.
    pub fn read_frame(&mut self) -> (r: Option<Vec<u32>>)
        requires
            old(self).wf(),
        ensures
            final(self).wf(),
            final(self).same_call(old(self)),
            match old(self).audio() {
                None => final(self).audio() is None && r is None,
                Some(before) => final(self).audio() matches Some(after) && after.after_read_frame(
                    &before,
                    r,
                ),
            },
    {
        match &mut self.audio {
            Some(handler) => handler.read_frame(),
            None => None,
        }
    }

    /// Appends samples for playback, where audio runs.
    pub fn write_samples(&mut self, samples: &[u32])
        requires
            old(self).wf(),
        ensures
            final(self).wf(),
            final(self).same_call(old(self)),
            match old(self).audio() {
                None => final(self).audio() is None,
                Some(before) => final(self).audio() matches Some(after) && after.after_write(
                    &before,
                    samples@,
                ),
            },
    {
        match &mut self.audio {
            Some(handler) => handler.write_samples(samples),
            None => {},
        }
    }

    /// Whether the microphone is muted; without audio it is not.
    pub fn is_muted(&self) -> (r: bool)
        ensures
            r == match self.audio() {
                Some(handler) => handler.muted(),
                None => false,
            },
    {
        match &self.audio {
            Some(handler) => handler.is_muted(),
            None => false,
        }
    }

    /// The input and output levels; without audio both are silence.
    pub fn audio_levels(&self) -> (r: (u32, u32))
        ensures
            r == match self.audio() {
                Some(handler) => handler.levels(),
                None => (SILENCE, SILENCE),
            },
    {
        match &self.audio {
            Some(handler) => handler.get_levels(),
            None => (SILENCE, SILENCE),
        }
    }
}

impl Default for CallEngine {
    /// An idle engine with the default servers.
    fn default() -> (r: Self)
        ensures
            r.wf(),
            r.call_state() == CallState::Idle,
            !r.has_connection(),
            r.audio() is None,
            r.servers() == default_servers(),
    {
        CallEngine::new()
    }
}

} // verus!
