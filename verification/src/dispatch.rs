//! The executable dispatcher.
//!
//! [`ActionHandler::run`] routes an action name to its handler and returns
//! the invocation's first [`Step`].  A step carries the outbound chat
//! messages produced so far (in order) and what the invocation needs next:
//! nothing, one port operation, or a delay.  The host performs the port
//! operation or waits, then hands the suspended [`PendingState`] back to
//! [`ActionHandler::resume`] or [`ActionHandler::elapsed`].  Every
//! transition is proved equal to its model in [`crate::model`].

use vstd::prelude::*;
use vstd::string::StrSliceExecFns;
use vstd::string::StringExecFns;

use crate::model::{
    accepts, awaits_delay, call_step, done_step, spec_elapsed, spec_resume, spec_start,
    ErrorKind, EventModel, MsgModel, NextModel, RequestModel, ResultModel, StateModel, StepModel,
};
use crate::text::{join_spaces, parse_u64, str_eq, strip_at, u64_to_dec};

verus! {

/// What one invocation returns to its caller.
#[derive(Debug, Clone, PartialEq, Eq)]
pub enum ActionResult {
    /// A text reply for the chat surface.
    Reply(String),
    /// The action finished and has nothing to say.
    NoReply,
    /// A hard failure, classified, with a detail text.
    Failure(ErrorKind, String),
}

impl View for ActionResult {
    type V = ResultModel;

    open spec fn view(&self) -> ResultModel {
        match self {
            ActionResult::Reply(text) => ResultModel::Reply(text@),
            ActionResult::NoReply => ResultModel::NoReply,
            ActionResult::Failure(kind, detail) => ResultModel::Failure(*kind, detail@),
        }
    }
}

/// An outbound chat operation, consumed elsewhere by the transport.
#[derive(Debug, Clone, PartialEq, Eq)]
pub enum OutboundMessage {
    /// An ordinary chat line.
    Say { channel: String, text: String },
    /// A privileged platform directive.
    Raw { channel: String, text: String },
}

impl View for OutboundMessage {
    type V = MsgModel;

    open spec fn view(&self) -> MsgModel {
        match self {
            OutboundMessage::Say { channel, text } => MsgModel::Say {
                channel: channel@,
                text: text@,
            },
            OutboundMessage::Raw { channel, text } => MsgModel::Raw {
                channel: channel@,
                text: text@,
            },
        }
    }
}

/// One port operation the host is asked to perform.
#[derive(Debug, Clone, PartialEq, Eq)]
pub enum PortRequest {
    MusicToken { channel: String },
    CurrentSong { token: String },
    CurrentPlaylist { token: String },
    RecentlyPlayed { token: String },
    HitmanArm { channel: String, user: String },
    HitmanProtected { channel: String, user: String },
    HitmanSetProtection { channel: String, user: String, protected: bool },
    CurrencyIncrement { user: String },
    CurrencyGet { user: String },
    AdTrigger { channel: String, duration: u64 },
    WeatherLookup { location: String },
    TranslateText { text: String },
}

impl View for PortRequest {
    type V = RequestModel;

    open spec fn view(&self) -> RequestModel {
        match self {
            PortRequest::MusicToken { channel } => RequestModel::MusicToken { channel: channel@ },
            PortRequest::CurrentSong { token } => RequestModel::CurrentSong { token: token@ },
            PortRequest::CurrentPlaylist { token } => RequestModel::CurrentPlaylist {
                token: token@,
            },
            PortRequest::RecentlyPlayed { token } => RequestModel::RecentlyPlayed {
                token: token@,
            },
            PortRequest::HitmanArm { channel, user } => RequestModel::HitmanArm {
                channel: channel@,
                user: user@,
            },
            PortRequest::HitmanProtected { channel, user } => RequestModel::HitmanProtected {
                channel: channel@,
                user: user@,
            },
            PortRequest::HitmanSetProtection { channel, user, protected } => {
                RequestModel::HitmanSetProtection {
                    channel: channel@,
                    user: user@,
                    protected: *protected,
                }
            }
            PortRequest::CurrencyIncrement { user } => RequestModel::CurrencyIncrement {
                user: user@,
            },
            PortRequest::CurrencyGet { user } => RequestModel::CurrencyGet { user: user@ },
            PortRequest::AdTrigger { channel, duration } => RequestModel::AdTrigger {
                channel: channel@,
                duration: *duration,
            },
            PortRequest::WeatherLookup { location } => RequestModel::WeatherLookup {
                location: location@,
            },
            PortRequest::TranslateText { text } => RequestModel::TranslateText { text: text@ },
        }
    }
}

/// The outcome of a port operation, handed back by the host.
#[derive(Debug, Clone, PartialEq, Eq)]
pub enum PortEvent {
    TokenFound(String),
    TokenMissing,
    PersistenceFailed(String),
    PersistenceDone,
    SongPlaying(String),
    NothingPlaying,
    RecentPlayed(String),
    ApiFailed(String),
    ProtectionFlag(bool),
    CurrencyValue(u64),
    AdStarted,
    WeatherReport { name: String, country: String, temp: String, description: String },
    LocationUnknown,
    Translation { src: String, dest: String, text: String },
}

impl View for PortEvent {
    type V = EventModel;

    open spec fn view(&self) -> EventModel {
        match self {
            PortEvent::TokenFound(token) => EventModel::TokenFound(token@),
            PortEvent::TokenMissing => EventModel::TokenMissing,
            PortEvent::PersistenceFailed(detail) => EventModel::PersistenceFailed(detail@),
            PortEvent::PersistenceDone => EventModel::PersistenceDone,
            PortEvent::SongPlaying(song) => EventModel::SongPlaying(song@),
            PortEvent::NothingPlaying => EventModel::NothingPlaying,
            PortEvent::RecentPlayed(song) => EventModel::RecentPlayed(song@),
            PortEvent::ApiFailed(detail) => EventModel::ApiFailed(detail@),
            PortEvent::ProtectionFlag(protected) => EventModel::ProtectionFlag(*protected),
            PortEvent::CurrencyValue(n) => EventModel::CurrencyValue(*n),
            PortEvent::AdStarted => EventModel::AdStarted,
            PortEvent::WeatherReport { name, country, temp, description } => {
                EventModel::WeatherReport {
                    name: name@,
                    country: country@,
                    temp: temp@,
                    description: description@,
                }
            }
            PortEvent::LocationUnknown => EventModel::LocationUnknown,
            PortEvent::Translation { src, dest, text } => EventModel::Translation {
                src: src@,
                dest: dest@,
                text: text@,
            },
        }
    }
}

/// A suspended invocation, to be resumed by [`ActionHandler::resume`] or
/// [`ActionHandler::elapsed`].
#[derive(Debug, Clone, PartialEq, Eq)]
pub enum PendingState {
    SongToken,
    PlaylistToken,
    RecentToken,
    SongLookup,
    PlaylistLookup,
    RecentLookup,
    HitmanArmed { channel: String, user: String },
    HitmanWaiting { channel: String, user: String },
    HitmanCheck { channel: String, user: String },
    HitmanClearing,
    BodyguardNotify { channel: String, user: String },
    AdPending { duration: u64 },
    WeatherPending,
    TranslatePending,
    IncrementPending,
    CurrencyPending,
    EmoteOnlyActive { channel: String },
}

impl View for PendingState {
    type V = StateModel;

    open spec fn view(&self) -> StateModel {
        match self {
            PendingState::SongToken => StateModel::SongToken,
            PendingState::PlaylistToken => StateModel::PlaylistToken,
            PendingState::RecentToken => StateModel::RecentToken,
            PendingState::SongLookup => StateModel::SongLookup,
            PendingState::PlaylistLookup => StateModel::PlaylistLookup,
            PendingState::RecentLookup => StateModel::RecentLookup,
            PendingState::HitmanArmed { channel, user } => StateModel::HitmanArmed {
                channel: channel@,
                user: user@,
            },
            PendingState::HitmanWaiting { channel, user } => StateModel::HitmanWaiting {
                channel: channel@,
                user: user@,
            },
            PendingState::HitmanCheck { channel, user } => StateModel::HitmanCheck {
                channel: channel@,
                user: user@,
            },
            PendingState::HitmanClearing => StateModel::HitmanClearing,
            PendingState::BodyguardNotify { channel, user } => StateModel::BodyguardNotify {
                channel: channel@,
                user: user@,
            },
            PendingState::AdPending { duration } => StateModel::AdPending {
                duration: *duration,
            },
            PendingState::WeatherPending => StateModel::WeatherPending,
            PendingState::TranslatePending => StateModel::TranslatePending,
            PendingState::IncrementPending => StateModel::IncrementPending,
            PendingState::CurrencyPending => StateModel::CurrencyPending,
            PendingState::EmoteOnlyActive { channel } => StateModel::EmoteOnlyActive {
                channel: channel@,
            },
        }
    }
}

/// What the invocation needs next.
#[derive(Debug, Clone, PartialEq, Eq)]
pub enum NextOp {
    /// The invocation is finished with this result.
    Done(ActionResult),
    /// Perform this port operation and resume the state with its outcome.
    Call(PortRequest, PendingState),
    /// Wait this many seconds and then resume the state.
    Wait(u64, PendingState),
}

impl View for NextOp {
    type V = NextModel;

    open spec fn view(&self) -> NextModel {
        match self {
            NextOp::Done(result) => NextModel::Done(result@),
            NextOp::Call(request, state) => NextModel::Call(request@, state@),
            NextOp::Wait(seconds, state) => NextModel::Wait(*seconds, state@),
        }
    }
}

/// One step of an invocation: the outbound messages produced now, in
/// order, and what comes next.
#[derive(Debug, Clone, PartialEq, Eq)]
pub struct Step {
    pub messages: Vec<OutboundMessage>,
    pub next: NextOp,
}

impl View for Step {
    type V = StepModel;

    open spec fn view(&self) -> StepModel {
        StepModel {
            messages: Seq::new(self.messages@.len(), |i: int| self.messages@[i]@),
            next: self.next@,
        }
    }
}

fn step_done(result: ActionResult) -> (s: Step)
    ensures
        s@ == done_step(result@),
{
    let ghost r0 = result@;
    let s = Step { messages: Vec::new(), next: NextOp::Done(result) };
    proof {
        assert(s@ =~~= done_step(r0));
    }
    s
}

fn step_call(request: PortRequest, state: PendingState) -> (s: Step)
    ensures
        s@ == call_step(request@, state@),
{
    let ghost q0 = request@;
    let ghost st0 = state@;
    let s = Step { messages: Vec::new(), next: NextOp::Call(request, state) };
    proof {
        assert(s@ =~~= call_step(q0, st0));
    }
    s
}

/// Whether a suspended invocation can be resumed with this port outcome:
/// the runtime counterpart of [`accepts`], for a host to check before it
/// hands an outcome back.
pub fn can_resume(state: &PendingState, event: &PortEvent) -> (r: bool)
    ensures
        r == accepts(state@, event@),
{
    match (state, event) {
        (PendingState::SongToken, PortEvent::TokenFound(_)) => true,
        (PendingState::SongToken, PortEvent::TokenMissing) => true,
        (PendingState::SongToken, PortEvent::PersistenceFailed(_)) => true,
        (PendingState::PlaylistToken, PortEvent::TokenFound(_)) => true,
        (PendingState::PlaylistToken, PortEvent::TokenMissing) => true,
        (PendingState::PlaylistToken, PortEvent::PersistenceFailed(_)) => true,
        (PendingState::RecentToken, PortEvent::TokenFound(_)) => true,
        (PendingState::RecentToken, PortEvent::TokenMissing) => true,
        (PendingState::RecentToken, PortEvent::PersistenceFailed(_)) => true,
        (PendingState::SongLookup, PortEvent::SongPlaying(_)) => true,
        (PendingState::SongLookup, PortEvent::NothingPlaying) => true,
        (PendingState::SongLookup, PortEvent::ApiFailed(_)) => true,
        (PendingState::PlaylistLookup, PortEvent::SongPlaying(_)) => true,
        (PendingState::PlaylistLookup, PortEvent::NothingPlaying) => true,
        (PendingState::PlaylistLookup, PortEvent::ApiFailed(_)) => true,
        (PendingState::RecentLookup, PortEvent::RecentPlayed(_)) => true,
        (PendingState::RecentLookup, PortEvent::ApiFailed(_)) => true,
        (PendingState::HitmanArmed { .. }, PortEvent::PersistenceDone) => true,
        (PendingState::HitmanArmed { .. }, PortEvent::PersistenceFailed(_)) => true,
        (PendingState::HitmanCheck { .. }, PortEvent::ProtectionFlag(_)) => true,
        (PendingState::HitmanCheck { .. }, PortEvent::PersistenceFailed(_)) => true,
        (PendingState::HitmanClearing, PortEvent::PersistenceDone) => true,
        (PendingState::HitmanClearing, PortEvent::PersistenceFailed(_)) => true,
        (PendingState::BodyguardNotify { .. }, PortEvent::PersistenceDone) => true,
        (PendingState::BodyguardNotify { .. }, PortEvent::PersistenceFailed(_)) => true,
        (PendingState::AdPending { .. }, PortEvent::AdStarted) => true,
        (PendingState::AdPending { .. }, PortEvent::ApiFailed(_)) => true,
        (PendingState::WeatherPending, PortEvent::WeatherReport { .. }) => true,
        (PendingState::WeatherPending, PortEvent::LocationUnknown) => true,
        (PendingState::WeatherPending, PortEvent::ApiFailed(_)) => true,
        (PendingState::TranslatePending, PortEvent::Translation { .. }) => true,
        (PendingState::TranslatePending, PortEvent::ApiFailed(_)) => true,
        (PendingState::IncrementPending, PortEvent::PersistenceDone) => true,
        (PendingState::IncrementPending, PortEvent::PersistenceFailed(_)) => true,
        (PendingState::CurrencyPending, PortEvent::CurrencyValue(_)) => true,
        (PendingState::CurrencyPending, PortEvent::PersistenceFailed(_)) => true,
        _ => false,
    }
}

/// Whether a suspended invocation is resumed by a delay elapsing: the
/// runtime counterpart of [`awaits_delay`].
pub fn delay_pending(state: &PendingState) -> (r: bool)
    ensures
        r == awaits_delay(state@),
{
    match state {
        PendingState::HitmanWaiting { .. } => true,
        PendingState::EmoteOnlyActive { .. } => true,
        _ => false,
    }
}

/// The identity of a named command: a user-defined text macro, or one of
/// the fixed command-management built-ins.
#[derive(Debug, Clone)]
pub enum Action {
    Custom(String),
    AddCmd,
    DelCmd,
    ShowCmd,
    ListCmd,
    Join,
    Part,
}

impl Action {
    /// The string that stands for this identity when it is serialized: a
    /// custom action is its own name; the fixed built-ins have none.
    pub fn serial_name(&self) -> (r: &str)
        ensures
            r@ == (match self {
                Action::Custom(name) => name@,
                _ => "Unsupported type"@,
            }),
    {
        match self {
            Action::Custom(name) => name.as_str(),
            _ => "Unsupported type",
        }
    }
}

/// The action dispatcher.  It holds no state of its own: everything an
/// invocation reads or writes goes through the port operations its steps
/// ask for.
pub struct ActionHandler {}

impl ActionHandler {
    /// Creates a dispatcher.
    pub fn new() -> ActionHandler {
        ActionHandler {}
    }

    /// Starts one invocation: routes the action name, validates the
    /// arguments, and returns the first step, exactly as
    /// [`spec_start`] describes.  Unknown names fail with
    /// [`ErrorKind::UnknownAction`] and produce no outbound traffic.
    pub fn run(&self, action: &str, args: &Vec<String>, channel: &str) -> (s: Step)
        ensures
            s@ == spec_start(action@, args.deep_view(), channel@),
    {
        proof {
            assert(forall|i: int|
                0 <= i < args@.len() ==> args.deep_view()[i] == #[trigger] args@[i]@);
        }
        if str_eq(action, "spotify") {
            step_call(
                PortRequest::MusicToken { channel: channel.to_owned() },
                PendingState::SongToken,
            )
        } else if str_eq(action, "spotify.playlist") {
            step_call(
                PortRequest::MusicToken { channel: channel.to_owned() },
                PendingState::PlaylistToken,
            )
        } else if str_eq(action, "lastsong") {
            step_call(
                PortRequest::MusicToken { channel: channel.to_owned() },
                PendingState::RecentToken,
            )
        } else if str_eq(action, "hitman") {
            if args.len() == 0 {
                step_done(ActionResult::Reply(String::from_str("user not specified")))
            } else {
                let user = strip_at(args[0].as_str());
                step_call(
                    PortRequest::HitmanArm {
                        channel: channel.to_owned(),
                        user: user.clone(),
                    },
                    PendingState::HitmanArmed { channel: channel.to_owned(), user },
                )
            }
        } else if str_eq(action, "bodyguard") {
            if args.len() == 0 {
                step_done(ActionResult::Reply(String::from_str("user not specified")))
            } else {
                let user = strip_at(args[0].as_str());
                step_call(
                    PortRequest::HitmanSetProtection {
                        channel: channel.to_owned(),
                        user: user.clone(),
                        protected: true,
                    },
                    PendingState::BodyguardNotify { channel: channel.to_owned(), user },
                )
            }
        } else if str_eq(action, "ping") {
            step_done(ActionResult::Reply(String::from_str("Pong!")))
        } else if str_eq(action, "commercial") {
            if args.len() == 0 {
                step_done(ActionResult::Failure(
                    ErrorKind::InvalidArguments,
                    String::from_str("invalid duration"),
                ))
            } else {
                match parse_u64(args[0].as_str()) {
                    Option::Some(d) => {
                        if d == 60 || d == 120 || d == 180 {
                            step_call(
                                PortRequest::AdTrigger {
                                    channel: channel.to_owned(),
                                    duration: d,
                                },
                                PendingState::AdPending { duration: d },
                            )
                        } else {
                            step_done(ActionResult::Reply(String::from_str("Invalid ad duration")))
                        }
                    }
                    Option::None => step_done(ActionResult::Failure(
                        ErrorKind::InvalidArguments,
                        String::from_str("invalid duration"),
                    )),
                }
            }
        } else if str_eq(action, "weather") {
            if args.len() == 0 {
                step_done(ActionResult::Reply(String::from_str("location not specified")))
            } else {
                step_call(
                    PortRequest::WeatherLookup { location: join_spaces(args) },
                    PendingState::WeatherPending,
                )
            }
        } else if str_eq(action, "translate") {
            if args.len() == 0 {
                step_done(ActionResult::Failure(
                    ErrorKind::InvalidArguments,
                    String::from_str("text not specified"),
                ))
            } else {
                step_call(
                    PortRequest::TranslateText { text: args[0].clone() },
                    PendingState::TranslatePending,
                )
            }
        } else if str_eq(action, "emoteonly") {
            if args.len() == 0 {
                step_done(ActionResult::Failure(
                    ErrorKind::InvalidArguments,
                    String::from_str("invalid duration"),
                ))
            } else {
                match parse_u64(args[0].as_str()) {
                    Option::Some(d) => {
                        let numeral = u64_to_dec(d);
                        let mut text = String::from_str("Emote-only enabled for ");
                        text.append(numeral.as_str());
                        text.append(" seconds!");
                        let mut messages: Vec<OutboundMessage> = Vec::new();
                        messages.push(OutboundMessage::Say {
                            channel: channel.to_owned(),
                            text,
                        });
                        messages.push(OutboundMessage::Raw {
                            channel: channel.to_owned(),
                            text: String::from_str("/emoteonly"),
                        });
                        let s = Step {
                            messages,
                            next: NextOp::Wait(
                                d,
                                PendingState::EmoteOnlyActive { channel: channel.to_owned() },
                            ),
                        };
                        proof {
                            assert(s@ =~~= spec_start(action@, args.deep_view(), channel@));
                        }
                        s
                    }
                    Option::None => step_done(ActionResult::Failure(
                        ErrorKind::InvalidArguments,
                        String::from_str("invalid duration"),
                    )),
                }
            }
        } else if str_eq(action, "increment") {
            if args.len() == 0 {
                step_done(ActionResult::Failure(
                    ErrorKind::InvalidArguments,
                    String::from_str("Missing username"),
                ))
            } else {
                step_call(
                    PortRequest::CurrencyIncrement { user: args[0].clone() },
                    PendingState::IncrementPending,
                )
            }
        } else if str_eq(action, "currency") {
            if args.len() == 0 {
                step_done(ActionResult::Failure(
                    ErrorKind::InvalidArguments,
                    String::from_str("Missing username"),
                ))
            } else {
                step_call(
                    PortRequest::CurrencyGet { user: args[0].clone() },
                    PendingState::CurrencyPending,
                )
            }
        } else {
            step_done(ActionResult::Failure(ErrorKind::UnknownAction, action.to_owned()))
        }
    }

    /// Resumes a suspended invocation with the outcome of the port
    /// operation it asked for, exactly as [`spec_resume`] describes.
    pub fn resume(&self, state: PendingState, event: PortEvent) -> (s: Step)
        requires
            accepts(state@, event@),
        ensures
            s@ == spec_resume(state@, event@),
    {
        let ghost st0 = state@;
        let ghost ev0 = event@;
        match (state, event) {
            (PendingState::SongToken, PortEvent::TokenFound(token)) => step_call(
                PortRequest::CurrentSong { token },
                PendingState::SongLookup,
            ),
            (PendingState::PlaylistToken, PortEvent::TokenFound(token)) => step_call(
                PortRequest::CurrentPlaylist { token },
                PendingState::PlaylistLookup,
            ),
            (PendingState::RecentToken, PortEvent::TokenFound(token)) => step_call(
                PortRequest::RecentlyPlayed { token },
                PendingState::RecentLookup,
            ),
            (PendingState::SongToken, PortEvent::TokenMissing) => step_done(
                ActionResult::Reply(String::from_str("not configured for this channel")),
            ),
            (PendingState::PlaylistToken, PortEvent::TokenMissing) => step_done(
                ActionResult::Reply(String::from_str("not configured for this channel")),
            ),
            (PendingState::RecentToken, PortEvent::TokenMissing) => step_done(
                ActionResult::Reply(String::from_str("not configured for this channel")),
            ),
            (PendingState::SongLookup, PortEvent::SongPlaying(song)) => step_done(
                ActionResult::Reply(song),
            ),
            (PendingState::SongLookup, PortEvent::NothingPlaying) => step_done(
                ActionResult::Reply(String::from_str("no song is currently playing")),
            ),
            (PendingState::SongLookup, PortEvent::ApiFailed(detail)) => step_done(
                ActionResult::Failure(ErrorKind::ExternalApiError, detail),
            ),
            (PendingState::PlaylistLookup, PortEvent::SongPlaying(playlist)) => step_done(
                ActionResult::Reply(playlist),
            ),
            (PendingState::PlaylistLookup, PortEvent::NothingPlaying) => step_done(
                ActionResult::Reply(String::from_str("not currently playing a playlist")),
            ),
            (PendingState::PlaylistLookup, PortEvent::ApiFailed(detail)) => step_done(
                ActionResult::Failure(ErrorKind::ExternalApiError, detail),
            ),
            (PendingState::RecentLookup, PortEvent::RecentPlayed(song)) => step_done(
                ActionResult::Reply(song),
            ),
            (PendingState::RecentLookup, PortEvent::ApiFailed(detail)) => {
                let mut text = String::from_str("error getting last song: ");
                text.append(detail.as_str());
                step_done(ActionResult::Reply(text))
            }
            (PendingState::HitmanArmed { channel, user }, PortEvent::PersistenceDone) => {
                let mut text = String::from_str("Timing out ");
                text.append(user.as_str());
                text.append(" in 15 seconds...");
                let mut messages: Vec<OutboundMessage> = Vec::new();
                messages.push(OutboundMessage::Say { channel: channel.clone(), text });
                let s = Step {
                    messages,
                    next: NextOp::Wait(15, PendingState::HitmanWaiting { channel, user }),
                };
                proof {
                    assert(s@ =~~= spec_resume(st0, ev0));
                }
                s
            }
            (PendingState::HitmanCheck { channel, user }, PortEvent::ProtectionFlag(protected)) => {
                if protected {
                    step_call(
                        PortRequest::HitmanSetProtection { channel, user, protected: false },
                        PendingState::HitmanClearing,
                    )
                } else {
                    let mut directive = String::from_str("/timeout ");
                    directive.append(user.as_str());
                    directive.append(" 600");
                    let mut messages: Vec<OutboundMessage> = Vec::new();
                    messages.push(OutboundMessage::Raw { channel, text: directive });
                    let mut reply = user;
                    reply.append(" timed out for 10 minutes!");
                    let s = Step {
                        messages,
                        next: NextOp::Done(ActionResult::Reply(reply)),
                    };
                    proof {
                        assert(s@ =~~= spec_resume(st0, ev0));
                    }
                    s
                }
            }
            (PendingState::HitmanClearing, PortEvent::PersistenceDone) => step_done(
                ActionResult::Reply(String::new()),
            ),
            (PendingState::BodyguardNotify { channel, user }, PortEvent::PersistenceDone) => {
                let mut text = user;
                text.append(" has been guarded!");
                let mut messages: Vec<OutboundMessage> = Vec::new();
                messages.push(OutboundMessage::Say { channel, text });
                let s = Step {
                    messages,
                    next: NextOp::Done(ActionResult::Reply(String::new())),
                };
                proof {
                    assert(s@ =~~= spec_resume(st0, ev0));
                }
                s
            }
            (PendingState::AdPending { duration }, PortEvent::AdStarted) => {
                let numeral = u64_to_dec(duration);
                let mut text = String::from_str("Running an ad for ");
                text.append(numeral.as_str());
                text.append(" seconds");
                step_done(ActionResult::Reply(text))
            }
            (PendingState::AdPending { .. }, PortEvent::ApiFailed(detail)) => step_done(
                ActionResult::Failure(ErrorKind::ExternalApiError, detail),
            ),
            (
                PendingState::WeatherPending,
                PortEvent::WeatherReport { name, country, temp, description },
            ) => {
                let mut text = name;
                text.append(", ");
                text.append(country.as_str());
                text.append(": ");
                text.append(temp.as_str());
                text.append("\u{b0}C, ");
                text.append(description.as_str());
                step_done(ActionResult::Reply(text))
            }
            (PendingState::WeatherPending, PortEvent::LocationUnknown) => step_done(
                ActionResult::Reply(String::from_str("location not found")),
            ),
            (PendingState::WeatherPending, PortEvent::ApiFailed(detail)) => {
                let mut text = String::from_str("Failed getting weather: ");
                text.append(detail.as_str());
                step_done(ActionResult::Reply(text))
            }
            (PendingState::TranslatePending, PortEvent::Translation { src, dest, text }) => {
                let mut reply = src;
                reply.append(" -> ");
                reply.append(dest.as_str());
                reply.append(": ");
                reply.append(text.as_str());
                step_done(ActionResult::Reply(reply))
            }
            (PendingState::TranslatePending, PortEvent::ApiFailed(detail)) => {
                let mut text = String::from_str("error when translating: ");
                text.append(detail.as_str());
                step_done(ActionResult::Reply(text))
            }
            (PendingState::IncrementPending, PortEvent::PersistenceDone) => step_done(
                ActionResult::NoReply,
            ),
            (PendingState::CurrencyPending, PortEvent::CurrencyValue(n)) => step_done(
                ActionResult::Reply(u64_to_dec(n)),
            ),
            (_, PortEvent::PersistenceFailed(detail)) => step_done(
                ActionResult::Failure(ErrorKind::PersistenceError, detail),
            ),
            _ => step_done(ActionResult::Failure(ErrorKind::InvalidArguments, String::new())),
        }
    }

    /// Resumes a suspended invocation whose delay has elapsed, exactly as
    /// [`spec_elapsed`] describes.
    pub fn elapsed(&self, state: PendingState) -> (s: Step)
        requires
            awaits_delay(state@),
        ensures
            s@ == spec_elapsed(state@),
    {
        let ghost st0 = state@;
        match state {
            PendingState::HitmanWaiting { channel, user } => step_call(
                PortRequest::HitmanProtected {
                    channel: channel.clone(),
                    user: user.clone(),
                },
                PendingState::HitmanCheck { channel, user },
            ),
            PendingState::EmoteOnlyActive { channel } => {
                let mut messages: Vec<OutboundMessage> = Vec::new();
                messages.push(OutboundMessage::Raw {
                    channel,
                    text: String::from_str("/emoteonlyoff"),
                });
                let s = Step { messages, next: NextOp::Done(ActionResult::NoReply) };
                proof {
                    assert(s@ =~~= spec_elapsed(st0));
                }
                s
            }
            _ => step_done(ActionResult::Failure(ErrorKind::InvalidArguments, String::new())),
        }
    }
}

} // verus!
