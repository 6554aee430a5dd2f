//! Proved properties of the dispatcher.
//!
//! The timed-moderation laws run the model through whole invocation
//! traces.  The persisted hitman records are modelled as a map from
//! (channel, user) to the protection flag; [`protection_after`] is what a
//! fault-free persistence port does to them on each write, and
//! [`protection_read`] is what its flag lookup hands back.

use vstd::prelude::*;

use crate::model::{
    call_step, done_step, hitman_delay, is_builtin, spec_elapsed, spec_resume, spec_start,
    ErrorKind, EventModel, MsgModel, NextModel, RequestModel, ResultModel, StateModel,
};
use crate::text::{parse_u64_spec, strip_at_spec};

verus! {

/// The hitman records after a fault-free persistence port performs a
/// write; reads and non-persistence operations leave them unchanged.
pub open spec fn protection_after(
    records: Map<(Seq<char>, Seq<char>), bool>,
    req: RequestModel,
) -> Map<(Seq<char>, Seq<char>), bool> {
    match req {
        RequestModel::HitmanArm { channel, user } => records.insert((channel, user), false),
        RequestModel::HitmanSetProtection { channel, user, protected } => records.insert(
            (channel, user),
            protected,
        ),
        _ => records,
    }
}

/// The outcome a fault-free persistence port hands back for a protection
/// flag lookup.
pub open spec fn protection_read(
    records: Map<(Seq<char>, Seq<char>), bool>,
    channel: Seq<char>,
    user: Seq<char>,
) -> EventModel {
    EventModel::ProtectionFlag(records[(channel, user)])
}

/// The built-in action names are pairwise distinct (stated as far as the
/// laws below need it: each name against those the dispatcher tries
/// before it).
proof fn lemma_builtin_names_distinct()
    ensures
        "hitman"@ != "spotify"@,
        "hitman"@ != "spotify.playlist"@,
        "hitman"@ != "lastsong"@,
        "bodyguard"@ != "spotify"@,
        "bodyguard"@ != "spotify.playlist"@,
        "bodyguard"@ != "lastsong"@,
        "bodyguard"@ != "hitman"@,
        "commercial"@ != "spotify"@,
        "commercial"@ != "spotify.playlist"@,
        "commercial"@ != "lastsong"@,
        "commercial"@ != "hitman"@,
        "commercial"@ != "bodyguard"@,
        "commercial"@ != "ping"@,
        "weather"@ != "spotify"@,
        "weather"@ != "spotify.playlist"@,
        "weather"@ != "lastsong"@,
        "weather"@ != "hitman"@,
        "weather"@ != "bodyguard"@,
        "weather"@ != "ping"@,
        "weather"@ != "commercial"@,
        "emoteonly"@ != "spotify"@,
        "emoteonly"@ != "spotify.playlist"@,
        "emoteonly"@ != "lastsong"@,
        "emoteonly"@ != "hitman"@,
        "emoteonly"@ != "bodyguard"@,
        "emoteonly"@ != "ping"@,
        "emoteonly"@ != "commercial"@,
        "emoteonly"@ != "weather"@,
        "emoteonly"@ != "translate"@,
{
    reveal_strlit("spotify");
    reveal_strlit("spotify.playlist");
    reveal_strlit("lastsong");
    reveal_strlit("hitman");
    reveal_strlit("bodyguard");
    reveal_strlit("ping");
    reveal_strlit("commercial");
    reveal_strlit("weather");
    reveal_strlit("translate");
    reveal_strlit("emoteonly");
    assert("spotify"@.len() == 7);
    assert("spotify.playlist"@.len() == 16);
    assert("lastsong"@.len() == 8);
    assert("hitman"@.len() == 6);
    assert("bodyguard"@.len() == 9);
    assert("ping"@.len() == 4);
    assert("commercial"@.len() == 10);
    assert("weather"@.len() == 7);
    assert("translate"@.len() == 9);
    assert("emoteonly"@.len() == 9);
    assert("weather"@[0] == 'w' && "spotify"@[0] == 's');
    assert("emoteonly"@[0] == 'e' && "bodyguard"@[0] == 'b' && "translate"@[0] == 't');
}

/// For every action name outside the built-in table, starting the
/// invocation yields `Failure(UnknownAction, name)` with no outbound
/// message and no port call, whatever the arguments and channel.
pub proof fn unknown_action_fails(name: Seq<char>, args: Seq<Seq<char>>, channel: Seq<char>)
    requires
        !is_builtin(name),
    ensures
        spec_start(name, args, channel) == done_step(
            ResultModel::Failure(ErrorKind::UnknownAction, name),
        ),
{
}

/// A hitman invocation with no concurrent bodyguard call: the record is
/// armed unprotected, so after the delay the flag still reads `false` and
/// the invocation emits the countdown announcement, then exactly one raw
/// timeout directive, and returns `"<user> timed out for 10 minutes!"`.
pub proof fn hitman_times_out_unprotected(
    channel: Seq<char>,
    arg: Seq<char>,
    records: Map<(Seq<char>, Seq<char>), bool>,
)
    ensures
        ({
            let user = strip_at_spec(arg);
            let s0 = spec_start("hitman"@, seq![arg], channel);
            let armed = protection_after(
                records,
                RequestModel::HitmanArm { channel, user },
            );
            let s1 = spec_resume(
                StateModel::HitmanArmed { channel, user },
                EventModel::PersistenceDone,
            );
            let s2 = spec_elapsed(StateModel::HitmanWaiting { channel, user });
            let s3 = spec_resume(
                StateModel::HitmanCheck { channel, user },
                protection_read(armed, channel, user),
            );
            &&& s0 == call_step(
                RequestModel::HitmanArm { channel, user },
                StateModel::HitmanArmed { channel, user },
            )
            &&& s1.messages == seq![
                MsgModel::Say { channel, text: "Timing out "@ + user + " in 15 seconds..."@ },
            ]
            &&& s1.next == NextModel::Wait(
                hitman_delay(),
                StateModel::HitmanWaiting { channel, user },
            )
            &&& s2 == call_step(
                RequestModel::HitmanProtected { channel, user },
                StateModel::HitmanCheck { channel, user },
            )
            &&& s3.messages == seq![
                MsgModel::Raw { channel, text: "/timeout "@ + user + " 600"@ },
            ]
            &&& s3.next == NextModel::Done(
                ResultModel::Reply(user + " timed out for 10 minutes!"@),
            )
        }),
{
    lemma_builtin_names_distinct();
    let user = strip_at_spec(arg);
    assert(seq![arg][0] == arg);
    let armed = protection_after(records, RequestModel::HitmanArm { channel, user });
    assert(armed[(channel, user)] == false);
}

/// A bodyguard call that completes between hitman's countdown and the end
/// of the delay: the protection flag reads `true` at the delayed check, so
/// the hitman invocation clears the record (the flag is `false` again
/// afterwards), emits no timeout directive, and returns an empty reply.
/// This is the non-racy ordering; a bodyguard write that lands after the
/// check has read the flag is lost, a documented race of the protocol.
pub proof fn bodyguard_cancels_hitman(
    channel: Seq<char>,
    arg: Seq<char>,
    records: Map<(Seq<char>, Seq<char>), bool>,
)
    ensures
        ({
            let user = strip_at_spec(arg);
            let s0 = spec_start("hitman"@, seq![arg], channel);
            let armed = protection_after(
                records,
                RequestModel::HitmanArm { channel, user },
            );
            let b0 = spec_start("bodyguard"@, seq![arg], channel);
            let guarded = protection_after(
                armed,
                RequestModel::HitmanSetProtection { channel, user, protected: true },
            );
            let b1 = spec_resume(
                StateModel::BodyguardNotify { channel, user },
                EventModel::PersistenceDone,
            );
            let s2 = spec_elapsed(StateModel::HitmanWaiting { channel, user });
            let s3 = spec_resume(
                StateModel::HitmanCheck { channel, user },
                protection_read(guarded, channel, user),
            );
            let cleared = protection_after(
                guarded,
                RequestModel::HitmanSetProtection { channel, user, protected: false },
            );
            let s4 = spec_resume(StateModel::HitmanClearing, EventModel::PersistenceDone);
            &&& s0 == call_step(
                RequestModel::HitmanArm { channel, user },
                StateModel::HitmanArmed { channel, user },
            )
            &&& b0 == call_step(
                RequestModel::HitmanSetProtection { channel, user, protected: true },
                StateModel::BodyguardNotify { channel, user },
            )
            &&& b1.messages == seq![
                MsgModel::Say { channel, text: user + " has been guarded!"@ },
            ]
            &&& b1.next == NextModel::Done(ResultModel::Reply(Seq::empty()))
            &&& s2 == call_step(
                RequestModel::HitmanProtected { channel, user },
                StateModel::HitmanCheck { channel, user },
            )
            &&& s3 == call_step(
                RequestModel::HitmanSetProtection { channel, user, protected: false },
                StateModel::HitmanClearing,
            )
            &&& s4 == done_step(ResultModel::Reply(Seq::empty()))
            &&& cleared[(channel, user)] == false
        }),
{
    lemma_builtin_names_distinct();
    let user = strip_at_spec(arg);
    assert(seq![arg][0] == arg);
    let armed = protection_after(records, RequestModel::HitmanArm { channel, user });
    let guarded = protection_after(
        armed,
        RequestModel::HitmanSetProtection { channel, user, protected: true },
    );
    assert(guarded[(channel, user)] == true);
}

/// `commercial` with a duration outside {60, 120, 180} asks for no port
/// operation, sends nothing, and always replies "Invalid ad duration".
pub proof fn commercial_rejects_other_durations(
    args: Seq<Seq<char>>,
    channel: Seq<char>,
    d: u64,
)
    requires
        args.len() >= 1,
        parse_u64_spec(args[0]) == Option::Some(d),
        d != 60,
        d != 120,
        d != 180,
    ensures
        spec_start("commercial"@, args, channel) == done_step(
            ResultModel::Reply("Invalid ad duration"@),
        ),
{
    lemma_builtin_names_distinct();
}

/// `weather` with no argument tokens asks for no port operation and
/// replies "location not specified".
pub proof fn weather_needs_location(channel: Seq<char>)
    ensures
        spec_start("weather"@, Seq::empty(), channel) == done_step(
            ResultModel::Reply("location not specified"@),
        ),
{
    lemma_builtin_names_distinct();
}

/// `emoteonly` with an argument that is not a decimal numeral fails with
/// `InvalidArguments` and sends no outbound message.
pub proof fn emoteonly_rejects_bad_duration(args: Seq<Seq<char>>, channel: Seq<char>)
    requires
        args.len() >= 1,
        parse_u64_spec(args[0]) == Option::None::<u64>,
    ensures
        spec_start("emoteonly"@, args, channel) == done_step(
            ResultModel::Failure(ErrorKind::InvalidArguments, "invalid duration"@),
        ),
{
    lemma_builtin_names_distinct();
}

} // verus!
