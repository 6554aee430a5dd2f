//! Mathematical model of the dispatcher.
//!
//! An invocation is a small state machine.  Starting it, resuming it with
//! the outcome of a port operation, and resuming it after a delay each
//! yield a [`StepModel`]: the outbound chat messages produced at that
//! point (in order) and what the invocation needs next — nothing (it is
//! done, with a result), one port operation, or a delay.  The executable
//! types in [`crate::dispatch`] each have one of these models as their
//! view, and the executable transitions are proved equal to the spec
//! transitions below.

use vstd::prelude::*;

use crate::text::{dec_str, join_spaces_spec, parse_u64_spec, strip_at_spec};

verus! {

/// How an invocation can fail.
#[derive(Clone, Copy, Debug, PartialEq, Eq)]
pub enum ErrorKind {
    /// The action name matches no built-in action.
    UnknownAction,
    /// A required argument is missing or malformed.
    InvalidArguments,
    /// The persistence port reported a storage fault.
    PersistenceError,
    /// An external API port failed in a way that is not absorbed into a
    /// soft text reply.
    ExternalApiError,
}

/// What one invocation returns to its caller.
#[verifier::ext_equal]
pub enum ResultModel {
    Reply(Seq<char>),
    NoReply,
    Failure(ErrorKind, Seq<char>),
}

/// An outbound chat operation: an ordinary chat line, or a privileged
/// platform directive.
#[verifier::ext_equal]
pub enum MsgModel {
    Say { channel: Seq<char>, text: Seq<char> },
    Raw { channel: Seq<char>, text: Seq<char> },
}

/// One port operation the host is asked to perform.
#[verifier::ext_equal]
pub enum RequestModel {
    /// Persistence: the music-service access token of a channel.
    MusicToken { channel: Seq<char> },
    /// Music service: the currently playing song.
    CurrentSong { token: Seq<char> },
    /// Music service: the currently playing playlist.
    CurrentPlaylist { token: Seq<char> },
    /// Music service: the most recently played song.
    RecentlyPlayed { token: Seq<char> },
    /// Persistence: create or reset the hitman record of (channel, user)
    /// with the protection flag cleared.
    HitmanArm { channel: Seq<char>, user: Seq<char> },
    /// Persistence: read the protection flag of (channel, user).
    HitmanProtected { channel: Seq<char>, user: Seq<char> },
    /// Persistence: write the protection flag of (channel, user).
    HitmanSetProtection { channel: Seq<char>, user: Seq<char>, protected: bool },
    /// Persistence: add one to a user's currency counter.
    CurrencyIncrement { user: Seq<char> },
    /// Persistence: read a user's currency counter.
    CurrencyGet { user: Seq<char> },
    /// Moderation API: start an ad break of the given length in seconds.
    AdTrigger { channel: Seq<char>, duration: u64 },
    /// Weather API: look a location up.
    WeatherLookup { location: Seq<char> },
    /// Translation API: translate a text.
    TranslateText { text: Seq<char> },
}

/// The outcome of a port operation, handed back by the host.
#[verifier::ext_equal]
pub enum EventModel {
    /// A token lookup found the channel's token.
    TokenFound(Seq<char>),
    /// A token lookup found no record for the channel.
    TokenMissing,
    /// A persistence operation failed; the detail text describes the fault.
    PersistenceFailed(Seq<char>),
    /// A persistence write completed.
    PersistenceDone,
    /// A song (or playlist) is playing and has this description.
    SongPlaying(Seq<char>),
    /// No song (or playlist) is currently playing.
    NothingPlaying,
    /// The most recently played song.
    RecentPlayed(Seq<char>),
    /// An external API call failed; the detail text describes the fault.
    ApiFailed(Seq<char>),
    /// The stored protection flag of the targeted user.
    ProtectionFlag(bool),
    /// The stored currency counter of a user.
    CurrencyValue(u64),
    /// The ad break was started.
    AdStarted,
    /// The weather at the requested location.
    WeatherReport {
        name: Seq<char>,
        country: Seq<char>,
        temp: Seq<char>,
        description: Seq<char>,
    },
    /// The requested location is unknown to the weather service.
    LocationUnknown,
    /// A completed translation.
    Translation { src: Seq<char>, dest: Seq<char>, text: Seq<char> },
}

/// Where a suspended invocation stands.
#[verifier::ext_equal]
pub enum StateModel {
    /// Awaiting the token for a now-playing lookup.
    SongToken,
    /// Awaiting the token for a playlist lookup.
    PlaylistToken,
    /// Awaiting the token for a recently-played lookup.
    RecentToken,
    /// Awaiting the now-playing answer.
    SongLookup,
    /// Awaiting the playlist answer.
    PlaylistLookup,
    /// Awaiting the recently-played answer.
    RecentLookup,
    /// Awaiting the acknowledgement of the hitman record write.
    HitmanArmed { channel: Seq<char>, user: Seq<char> },
    /// Sitting out the fixed delay before the penalty check.
    HitmanWaiting { channel: Seq<char>, user: Seq<char> },
    /// Awaiting the protection flag read after the delay.
    HitmanCheck { channel: Seq<char>, user: Seq<char> },
    /// Awaiting the acknowledgement of clearing the protection flag.
    HitmanClearing,
    /// Awaiting the acknowledgement of the protection write.
    BodyguardNotify { channel: Seq<char>, user: Seq<char> },
    /// Awaiting the ad trigger's acknowledgement.
    AdPending { duration: u64 },
    /// Awaiting the weather lookup's answer.
    WeatherPending,
    /// Awaiting the translation.
    TranslatePending,
    /// Awaiting the acknowledgement of the currency increment.
    IncrementPending,
    /// Awaiting the currency counter's value.
    CurrencyPending,
    /// Sitting out the caller-supplied emote-only window.
    EmoteOnlyActive { channel: Seq<char> },
}

/// What the invocation needs next.
#[verifier::ext_equal]
pub enum NextModel {
    /// The invocation is finished with this result.
    Done(ResultModel),
    /// The host must perform this port operation and resume the state with
    /// its outcome.
    Call(RequestModel, StateModel),
    /// The host must wait this many seconds and then resume the state.
    Wait(u64, StateModel),
}

/// One step of an invocation: the outbound messages produced now, in
/// order, and what comes next.
#[verifier::ext_equal]
pub struct StepModel {
    pub messages: Seq<MsgModel>,
    pub next: NextModel,
}

/// A step that emits nothing and finishes with the given result.
pub open spec fn done_step(r: ResultModel) -> StepModel {
    StepModel { messages: Seq::empty(), next: NextModel::Done(r) }
}

/// A step that emits nothing and asks for one port operation.
pub open spec fn call_step(q: RequestModel, st: StateModel) -> StepModel {
    StepModel { messages: Seq::empty(), next: NextModel::Call(q, st) }
}

/// The fixed delay, in seconds, between arming a hitman invocation and its
/// protection check.
pub open spec fn hitman_delay() -> u64 {
    15
}

/// The action name matches some built-in action.
pub open spec fn is_builtin(name: Seq<char>) -> bool {
    ||| name == "spotify"@
    ||| name == "spotify.playlist"@
    ||| name == "lastsong"@
    ||| name == "hitman"@
    ||| name == "bodyguard"@
    ||| name == "ping"@
    ||| name == "commercial"@
    ||| name == "weather"@
    ||| name == "translate"@
    ||| name == "emoteonly"@
    ||| name == "increment"@
    ||| name == "currency"@
}

/// The first step of an invocation: exact-match routing on the action
/// name, argument validation, and the first port call where one is needed.
/// Unknown names fail with [`ErrorKind::UnknownAction`] and produce no
/// outbound traffic.
pub open spec fn spec_start(name: Seq<char>, args: Seq<Seq<char>>, channel: Seq<char>) -> StepModel {
    if name == "spotify"@ {
        call_step(RequestModel::MusicToken { channel }, StateModel::SongToken)
    } else if name == "spotify.playlist"@ {
        call_step(RequestModel::MusicToken { channel }, StateModel::PlaylistToken)
    } else if name == "lastsong"@ {
        call_step(RequestModel::MusicToken { channel }, StateModel::RecentToken)
    } else if name == "hitman"@ {
        if args.len() == 0 {
            done_step(ResultModel::Reply("user not specified"@))
        } else {
            let user = strip_at_spec(args[0]);
            call_step(
                RequestModel::HitmanArm { channel, user },
                StateModel::HitmanArmed { channel, user },
            )
        }
    } else if name == "bodyguard"@ {
        if args.len() == 0 {
            done_step(ResultModel::Reply("user not specified"@))
        } else {
            let user = strip_at_spec(args[0]);
            call_step(
                RequestModel::HitmanSetProtection { channel, user, protected: true },
                StateModel::BodyguardNotify { channel, user },
            )
        }
    } else if name == "ping"@ {
        done_step(ResultModel::Reply("Pong!"@))
    } else if name == "commercial"@ {
        if args.len() == 0 {
            done_step(ResultModel::Failure(ErrorKind::InvalidArguments, "invalid duration"@))
        } else {
            match parse_u64_spec(args[0]) {
                Option::Some(d) => {
                    if d == 60 || d == 120 || d == 180 {
                        call_step(
                            RequestModel::AdTrigger { channel, duration: d },
                            StateModel::AdPending { duration: d },
                        )
                    } else {
                        done_step(ResultModel::Reply("Invalid ad duration"@))
                    }
                }
                Option::None => done_step(
                    ResultModel::Failure(ErrorKind::InvalidArguments, "invalid duration"@),
                ),
            }
        }
    } else if name == "weather"@ {
        if args.len() == 0 {
            done_step(ResultModel::Reply("location not specified"@))
        } else {
            call_step(
                RequestModel::WeatherLookup { location: join_spaces_spec(args) },
                StateModel::WeatherPending,
            )
        }
    } else if name == "translate"@ {
        if args.len() == 0 {
            done_step(ResultModel::Failure(ErrorKind::InvalidArguments, "text not specified"@))
        } else {
            call_step(RequestModel::TranslateText { text: args[0] }, StateModel::TranslatePending)
        }
    } else if name == "emoteonly"@ {
        if args.len() == 0 {
            done_step(ResultModel::Failure(ErrorKind::InvalidArguments, "invalid duration"@))
        } else {
            match parse_u64_spec(args[0]) {
                Option::Some(d) => StepModel {
                    messages: seq![
                        MsgModel::Say {
                            channel,
                            text: "Emote-only enabled for "@ + dec_str(d as int) + " seconds!"@,
                        },
                        MsgModel::Raw { channel, text: "/emoteonly"@ },
                    ],
                    next: NextModel::Wait(d, StateModel::EmoteOnlyActive { channel }),
                },
                Option::None => done_step(
                    ResultModel::Failure(ErrorKind::InvalidArguments, "invalid duration"@),
                ),
            }
        }
    } else if name == "increment"@ {
        if args.len() == 0 {
            done_step(ResultModel::Failure(ErrorKind::InvalidArguments, "Missing username"@))
        } else {
            call_step(
                RequestModel::CurrencyIncrement { user: args[0] },
                StateModel::IncrementPending,
            )
        }
    } else if name == "currency"@ {
        if args.len() == 0 {
            done_step(ResultModel::Failure(ErrorKind::InvalidArguments, "Missing username"@))
        } else {
            call_step(RequestModel::CurrencyGet { user: args[0] }, StateModel::CurrencyPending)
        }
    } else {
        done_step(ResultModel::Failure(ErrorKind::UnknownAction, name))
    }
}

/// The state can be resumed with this port outcome.
pub open spec fn accepts(st: StateModel, ev: EventModel) -> bool {
    match (st, ev) {
        (StateModel::SongToken, EventModel::TokenFound(_)) => true,
        (StateModel::SongToken, EventModel::TokenMissing) => true,
        (StateModel::SongToken, EventModel::PersistenceFailed(_)) => true,
        (StateModel::PlaylistToken, EventModel::TokenFound(_)) => true,
        (StateModel::PlaylistToken, EventModel::TokenMissing) => true,
        (StateModel::PlaylistToken, EventModel::PersistenceFailed(_)) => true,
        (StateModel::RecentToken, EventModel::TokenFound(_)) => true,
        (StateModel::RecentToken, EventModel::TokenMissing) => true,
        (StateModel::RecentToken, EventModel::PersistenceFailed(_)) => true,
        (StateModel::SongLookup, EventModel::SongPlaying(_)) => true,
        (StateModel::SongLookup, EventModel::NothingPlaying) => true,
        (StateModel::SongLookup, EventModel::ApiFailed(_)) => true,
        (StateModel::PlaylistLookup, EventModel::SongPlaying(_)) => true,
        (StateModel::PlaylistLookup, EventModel::NothingPlaying) => true,
        (StateModel::PlaylistLookup, EventModel::ApiFailed(_)) => true,
        (StateModel::RecentLookup, EventModel::RecentPlayed(_)) => true,
        (StateModel::RecentLookup, EventModel::ApiFailed(_)) => true,
        (StateModel::HitmanArmed { .. }, EventModel::PersistenceDone) => true,
        (StateModel::HitmanArmed { .. }, EventModel::PersistenceFailed(_)) => true,
        (StateModel::HitmanCheck { .. }, EventModel::ProtectionFlag(_)) => true,
        (StateModel::HitmanCheck { .. }, EventModel::PersistenceFailed(_)) => true,
        (StateModel::HitmanClearing, EventModel::PersistenceDone) => true,
        (StateModel::HitmanClearing, EventModel::PersistenceFailed(_)) => true,
        (StateModel::BodyguardNotify { .. }, EventModel::PersistenceDone) => true,
        (StateModel::BodyguardNotify { .. }, EventModel::PersistenceFailed(_)) => true,
        (StateModel::AdPending { .. }, EventModel::AdStarted) => true,
        (StateModel::AdPending { .. }, EventModel::ApiFailed(_)) => true,
        (StateModel::WeatherPending, EventModel::WeatherReport { .. }) => true,
        (StateModel::WeatherPending, EventModel::LocationUnknown) => true,
        (StateModel::WeatherPending, EventModel::ApiFailed(_)) => true,
        (StateModel::TranslatePending, EventModel::Translation { .. }) => true,
        (StateModel::TranslatePending, EventModel::ApiFailed(_)) => true,
        (StateModel::IncrementPending, EventModel::PersistenceDone) => true,
        (StateModel::IncrementPending, EventModel::PersistenceFailed(_)) => true,
        (StateModel::CurrencyPending, EventModel::CurrencyValue(_)) => true,
        (StateModel::CurrencyPending, EventModel::PersistenceFailed(_)) => true,
        _ => false,
    }
}

/// The state is resumed by a delay elapsing, not by a port outcome.
pub open spec fn awaits_delay(st: StateModel) -> bool {
    match st {
        StateModel::HitmanWaiting { .. } => true,
        StateModel::EmoteOnlyActive { .. } => true,
        _ => false,
    }
}

/// Resuming a suspended invocation with the outcome of the port operation
/// it asked for.
pub open spec fn spec_resume(st: StateModel, ev: EventModel) -> StepModel {
    match (st, ev) {
        // Token lookups shared by the three music actions.
        (StateModel::SongToken, EventModel::TokenFound(token)) => call_step(
            RequestModel::CurrentSong { token },
            StateModel::SongLookup,
        ),
        (StateModel::PlaylistToken, EventModel::TokenFound(token)) => call_step(
            RequestModel::CurrentPlaylist { token },
            StateModel::PlaylistLookup,
        ),
        (StateModel::RecentToken, EventModel::TokenFound(token)) => call_step(
            RequestModel::RecentlyPlayed { token },
            StateModel::RecentLookup,
        ),
        (StateModel::SongToken, EventModel::TokenMissing) => done_step(
            ResultModel::Reply("not configured for this channel"@),
        ),
        (StateModel::PlaylistToken, EventModel::TokenMissing) => done_step(
            ResultModel::Reply("not configured for this channel"@),
        ),
        (StateModel::RecentToken, EventModel::TokenMissing) => done_step(
            ResultModel::Reply("not configured for this channel"@),
        ),
        // Music lookups.
        (StateModel::SongLookup, EventModel::SongPlaying(song)) => done_step(
            ResultModel::Reply(song),
        ),
        (StateModel::SongLookup, EventModel::NothingPlaying) => done_step(
            ResultModel::Reply("no song is currently playing"@),
        ),
        (StateModel::SongLookup, EventModel::ApiFailed(detail)) => done_step(
            ResultModel::Failure(ErrorKind::ExternalApiError, detail),
        ),
        (StateModel::PlaylistLookup, EventModel::SongPlaying(playlist)) => done_step(
            ResultModel::Reply(playlist),
        ),
        (StateModel::PlaylistLookup, EventModel::NothingPlaying) => done_step(
            ResultModel::Reply("not currently playing a playlist"@),
        ),
        (StateModel::PlaylistLookup, EventModel::ApiFailed(detail)) => done_step(
            ResultModel::Failure(ErrorKind::ExternalApiError, detail),
        ),
        (StateModel::RecentLookup, EventModel::RecentPlayed(song)) => done_step(
            ResultModel::Reply(song),
        ),
        (StateModel::RecentLookup, EventModel::ApiFailed(detail)) => done_step(
            ResultModel::Reply("error getting last song: "@ + detail),
        ),
        // The hitman protocol.
        (StateModel::HitmanArmed { channel, user }, EventModel::PersistenceDone) => StepModel {
            messages: seq![
                MsgModel::Say {
                    channel,
                    text: "Timing out "@ + user + " in 15 seconds..."@,
                },
            ],
            next: NextModel::Wait(hitman_delay(), StateModel::HitmanWaiting { channel, user }),
        },
        (StateModel::HitmanCheck { channel, user }, EventModel::ProtectionFlag(protected)) => {
            if protected {
                call_step(
                    RequestModel::HitmanSetProtection { channel, user, protected: false },
                    StateModel::HitmanClearing,
                )
            } else {
                StepModel {
                    messages: seq![
                        MsgModel::Raw { channel, text: "/timeout "@ + user + " 600"@ },
                    ],
                    next: NextModel::Done(
                        ResultModel::Reply(user + " timed out for 10 minutes!"@),
                    ),
                }
            }
        }
        (StateModel::HitmanClearing, EventModel::PersistenceDone) => done_step(
            ResultModel::Reply(Seq::empty()),
        ),
        (StateModel::BodyguardNotify { channel, user }, EventModel::PersistenceDone) => StepModel {
            messages: seq![MsgModel::Say { channel, text: user + " has been guarded!"@ }],
            next: NextModel::Done(ResultModel::Reply(Seq::empty())),
        },
        // Ad trigger.
        (StateModel::AdPending { duration }, EventModel::AdStarted) => done_step(
            ResultModel::Reply("Running an ad for "@ + dec_str(duration as int) + " seconds"@),
        ),
        (StateModel::AdPending { .. }, EventModel::ApiFailed(detail)) => done_step(
            ResultModel::Failure(ErrorKind::ExternalApiError, detail),
        ),
        // Weather.
        (
            StateModel::WeatherPending,
            EventModel::WeatherReport { name, country, temp, description },
        ) => done_step(
            ResultModel::Reply(
                name + ", "@ + country + ": "@ + temp + "\u{b0}C, "@ + description,
            ),
        ),
        (StateModel::WeatherPending, EventModel::LocationUnknown) => done_step(
            ResultModel::Reply("location not found"@),
        ),
        (StateModel::WeatherPending, EventModel::ApiFailed(detail)) => done_step(
            ResultModel::Reply("Failed getting weather: "@ + detail),
        ),
        // Translation.
        (StateModel::TranslatePending, EventModel::Translation { src, dest, text }) => done_step(
            ResultModel::Reply(src + " -> "@ + dest + ": "@ + text),
        ),
        (StateModel::TranslatePending, EventModel::ApiFailed(detail)) => done_step(
            ResultModel::Reply("error when translating: "@ + detail),
        ),
        // Currency.
        (StateModel::IncrementPending, EventModel::PersistenceDone) => done_step(
            ResultModel::NoReply,
        ),
        (StateModel::CurrencyPending, EventModel::CurrencyValue(n)) => done_step(
            ResultModel::Reply(dec_str(n as int)),
        ),
        // Persistence faults propagate as hard failures from every state
        // that can see one.
        (_, EventModel::PersistenceFailed(detail)) => done_step(
            ResultModel::Failure(ErrorKind::PersistenceError, detail),
        ),
        // Unreachable under `accepts`.
        _ => done_step(ResultModel::Failure(ErrorKind::InvalidArguments, Seq::empty())),
    }
}

/// Resuming a suspended invocation whose delay has elapsed.
pub open spec fn spec_elapsed(st: StateModel) -> StepModel {
    match st {
        StateModel::HitmanWaiting { channel, user } => call_step(
            RequestModel::HitmanProtected { channel, user },
            StateModel::HitmanCheck { channel, user },
        ),
        StateModel::EmoteOnlyActive { channel } => StepModel {
            messages: seq![MsgModel::Raw { channel, text: "/emoteonlyoff"@ }],
            next: NextModel::Done(ResultModel::NoReply),
        },
        // Unreachable under `awaits_delay`.
        _ => done_step(ResultModel::Failure(ErrorKind::InvalidArguments, Seq::empty())),
    }
}

} // verus!
