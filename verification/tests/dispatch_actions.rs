use chat_actions::{Action, ActionHandler, ActionResult, ErrorKind, NextOp, OutboundMessage,
    PendingState, PortEvent, PortRequest};

fn s(text: &str) -> String {
    text.to_string()
}

#[test]
fn ping_replies_liveness_text() {
    let h = ActionHandler::new();
    let args: Vec<String> = vec![];
    let step = h.run("ping", &args, "c");
    assert!(step.messages.is_empty());
    assert_eq!(step.next, NextOp::Done(ActionResult::Reply(s("Pong!"))));
}

#[test]
fn unknown_action_fails_without_traffic() {
    let h = ActionHandler::new();
    let args: Vec<String> = vec![s("x")];
    let step = h.run("frobnicate", &args, "c");
    assert!(step.messages.is_empty());
    assert_eq!(
        step.next,
        NextOp::Done(ActionResult::Failure(ErrorKind::UnknownAction, s("frobnicate"))),
    );
}

#[test]
fn currency_replies_counter_value() {
    let h = ActionHandler::new();
    let step = h.run("currency", &vec![s("alice")], "c");
    assert!(step.messages.is_empty());
    assert_eq!(
        step.next,
        NextOp::Call(PortRequest::CurrencyGet { user: s("alice") }, PendingState::CurrencyPending),
    );
    let step = h.resume(PendingState::CurrencyPending, PortEvent::CurrencyValue(42));
    assert!(step.messages.is_empty());
    assert_eq!(step.next, NextOp::Done(ActionResult::Reply(s("42"))));
}

#[test]
fn currency_missing_username() {
    let h = ActionHandler::new();
    let args: Vec<String> = vec![];
    let step = h.run("currency", &args, "c");
    assert!(step.messages.is_empty());
    assert_eq!(
        step.next,
        NextOp::Done(ActionResult::Failure(ErrorKind::InvalidArguments, s("Missing username"))),
    );
}

#[test]
fn increment_missing_username() {
    let h = ActionHandler::new();
    let args: Vec<String> = vec![];
    let step = h.run("increment", &args, "c");
    assert!(step.messages.is_empty());
    assert_eq!(
        step.next,
        NextOp::Done(ActionResult::Failure(ErrorKind::InvalidArguments, s("Missing username"))),
    );
}

#[test]
fn increment_acknowledges_silently() {
    let h = ActionHandler::new();
    let step = h.run("increment", &vec![s("alice")], "c");
    assert_eq!(
        step.next,
        NextOp::Call(
            PortRequest::CurrencyIncrement { user: s("alice") },
            PendingState::IncrementPending,
        ),
    );
    let step = h.resume(PendingState::IncrementPending, PortEvent::PersistenceDone);
    assert!(step.messages.is_empty());
    assert_eq!(step.next, NextOp::Done(ActionResult::NoReply));
}

#[test]
fn increment_persistence_fault_is_hard() {
    let h = ActionHandler::new();
    let step = h.resume(PendingState::IncrementPending, PortEvent::PersistenceFailed(s("db down")));
    assert!(step.messages.is_empty());
    assert_eq!(
        step.next,
        NextOp::Done(ActionResult::Failure(ErrorKind::PersistenceError, s("db down"))),
    );
}

#[test]
fn commercial_rejects_unlisted_durations() {
    let h = ActionHandler::new();
    for duration in ["90", "300", "0", "61"] {
        let step = h.run("commercial", &vec![s(duration)], "c");
        assert!(step.messages.is_empty());
        assert_eq!(step.next, NextOp::Done(ActionResult::Reply(s("Invalid ad duration"))));
    }
}

#[test]
fn commercial_rejects_unparsable_duration() {
    let h = ActionHandler::new();
    let step = h.run("commercial", &vec![s("abc")], "c");
    assert!(step.messages.is_empty());
    assert_eq!(
        step.next,
        NextOp::Done(ActionResult::Failure(ErrorKind::InvalidArguments, s("invalid duration"))),
    );
    let args: Vec<String> = vec![];
    let step = h.run("commercial", &args, "c");
    assert_eq!(
        step.next,
        NextOp::Done(ActionResult::Failure(ErrorKind::InvalidArguments, s("invalid duration"))),
    );
}

#[test]
fn commercial_triggers_listed_duration() {
    let h = ActionHandler::new();
    let step = h.run("commercial", &vec![s("60")], "c");
    assert_eq!(
        step.next,
        NextOp::Call(
            PortRequest::AdTrigger { channel: s("c"), duration: 60 },
            PendingState::AdPending { duration: 60 },
        ),
    );
    let step = h.resume(PendingState::AdPending { duration: 60 }, PortEvent::AdStarted);
    assert!(step.messages.is_empty());
    assert_eq!(step.next, NextOp::Done(ActionResult::Reply(s("Running an ad for 60 seconds"))));
}

#[test]
fn commercial_api_fault_is_hard() {
    let h = ActionHandler::new();
    let step = h.resume(
        PendingState::AdPending { duration: 120 },
        PortEvent::ApiFailed(s("no auth")),
    );
    assert_eq!(
        step.next,
        NextOp::Done(ActionResult::Failure(ErrorKind::ExternalApiError, s("no auth"))),
    );
}

#[test]
fn weather_needs_location() {
    let h = ActionHandler::new();
    let args: Vec<String> = vec![];
    let step = h.run("weather", &args, "c");
    assert!(step.messages.is_empty());
    assert_eq!(step.next, NextOp::Done(ActionResult::Reply(s("location not specified"))));
}

#[test]
fn weather_joins_location_tokens() {
    let h = ActionHandler::new();
    let step = h.run("weather", &vec![s("new"), s("york")], "c");
    assert_eq!(
        step.next,
        NextOp::Call(
            PortRequest::WeatherLookup { location: s("new york") },
            PendingState::WeatherPending,
        ),
    );
}

#[test]
fn weather_formats_report() {
    let h = ActionHandler::new();
    let step = h.resume(
        PendingState::WeatherPending,
        PortEvent::WeatherReport {
            name: s("London"),
            country: s("GB"),
            temp: s("7"),
            description: s("light rain"),
        },
    );
    assert!(step.messages.is_empty());
    assert_eq!(
        step.next,
        NextOp::Done(ActionResult::Reply(s("London, GB: 7\u{b0}C, light rain"))),
    );
}

#[test]
fn weather_unknown_location_is_soft() {
    let h = ActionHandler::new();
    let step = h.resume(PendingState::WeatherPending, PortEvent::LocationUnknown);
    assert_eq!(step.next, NextOp::Done(ActionResult::Reply(s("location not found"))));
}

#[test]
fn weather_api_fault_is_soft() {
    let h = ActionHandler::new();
    let step = h.resume(PendingState::WeatherPending, PortEvent::ApiFailed(s("timeout")));
    assert_eq!(
        step.next,
        NextOp::Done(ActionResult::Reply(s("Failed getting weather: timeout"))),
    );
}

#[test]
fn translate_needs_text() {
    let h = ActionHandler::new();
    let args: Vec<String> = vec![];
    let step = h.run("translate", &args, "c");
    assert_eq!(
        step.next,
        NextOp::Done(ActionResult::Failure(ErrorKind::InvalidArguments, s("text not specified"))),
    );
}

#[test]
fn translate_formats_translation() {
    let h = ActionHandler::new();
    let step = h.run("translate", &vec![s("hello")], "c");
    assert_eq!(
        step.next,
        NextOp::Call(
            PortRequest::TranslateText { text: s("hello") },
            PendingState::TranslatePending,
        ),
    );
    let step = h.resume(
        PendingState::TranslatePending,
        PortEvent::Translation { src: s("en"), dest: s("fr"), text: s("bonjour") },
    );
    assert_eq!(step.next, NextOp::Done(ActionResult::Reply(s("en -> fr: bonjour"))));
}

#[test]
fn translate_api_fault_is_soft() {
    let h = ActionHandler::new();
    let step = h.resume(PendingState::TranslatePending, PortEvent::ApiFailed(s("quota")));
    assert_eq!(
        step.next,
        NextOp::Done(ActionResult::Reply(s("error when translating: quota"))),
    );
}

#[test]
fn spotify_asks_for_token_then_song() {
    let h = ActionHandler::new();
    let args: Vec<String> = vec![];
    let step = h.run("spotify", &args, "chan");
    assert_eq!(
        step.next,
        NextOp::Call(PortRequest::MusicToken { channel: s("chan") }, PendingState::SongToken),
    );
    let step = h.resume(PendingState::SongToken, PortEvent::TokenFound(s("tok")));
    assert_eq!(
        step.next,
        NextOp::Call(PortRequest::CurrentSong { token: s("tok") }, PendingState::SongLookup),
    );
    let step = h.resume(PendingState::SongLookup, PortEvent::SongPlaying(s("Artist - Title")));
    assert_eq!(step.next, NextOp::Done(ActionResult::Reply(s("Artist - Title"))));
}

#[test]
fn spotify_unconfigured_channel_is_soft() {
    let h = ActionHandler::new();
    let step = h.resume(PendingState::SongToken, PortEvent::TokenMissing);
    assert_eq!(
        step.next,
        NextOp::Done(ActionResult::Reply(s("not configured for this channel"))),
    );
}

#[test]
fn spotify_nothing_playing_is_soft() {
    let h = ActionHandler::new();
    let step = h.resume(PendingState::SongLookup, PortEvent::NothingPlaying);
    assert_eq!(
        step.next,
        NextOp::Done(ActionResult::Reply(s("no song is currently playing"))),
    );
}

#[test]
fn spotify_api_fault_is_hard() {
    let h = ActionHandler::new();
    let step = h.resume(PendingState::SongLookup, PortEvent::ApiFailed(s("401")));
    assert_eq!(
        step.next,
        NextOp::Done(ActionResult::Failure(ErrorKind::ExternalApiError, s("401"))),
    );
}

#[test]
fn spotify_token_fault_is_hard() {
    let h = ActionHandler::new();
    let step = h.resume(PendingState::SongToken, PortEvent::PersistenceFailed(s("db down")));
    assert_eq!(
        step.next,
        NextOp::Done(ActionResult::Failure(ErrorKind::PersistenceError, s("db down"))),
    );
}

#[test]
fn playlist_nothing_playing_is_soft() {
    let h = ActionHandler::new();
    let step = h.run("spotify.playlist", &Vec::new(), "chan");
    assert_eq!(
        step.next,
        NextOp::Call(PortRequest::MusicToken { channel: s("chan") }, PendingState::PlaylistToken),
    );
    let step = h.resume(PendingState::PlaylistToken, PortEvent::TokenFound(s("tok")));
    assert_eq!(
        step.next,
        NextOp::Call(
            PortRequest::CurrentPlaylist { token: s("tok") },
            PendingState::PlaylistLookup,
        ),
    );
    let step = h.resume(PendingState::PlaylistLookup, PortEvent::NothingPlaying);
    assert_eq!(
        step.next,
        NextOp::Done(ActionResult::Reply(s("not currently playing a playlist"))),
    );
}

#[test]
fn lastsong_api_fault_is_soft() {
    let h = ActionHandler::new();
    let step = h.run("lastsong", &Vec::new(), "chan");
    assert_eq!(
        step.next,
        NextOp::Call(PortRequest::MusicToken { channel: s("chan") }, PendingState::RecentToken),
    );
    let step = h.resume(PendingState::RecentToken, PortEvent::TokenFound(s("tok")));
    assert_eq!(
        step.next,
        NextOp::Call(
            PortRequest::RecentlyPlayed { token: s("tok") },
            PendingState::RecentLookup,
        ),
    );
    let step = h.resume(PendingState::RecentLookup, PortEvent::ApiFailed(s("boom")));
    assert_eq!(
        step.next,
        NextOp::Done(ActionResult::Reply(s("error getting last song: boom"))),
    );
}

#[test]
fn lastsong_replies_recent_song() {
    let h = ActionHandler::new();
    let step = h.resume(PendingState::RecentLookup, PortEvent::RecentPlayed(s("Old Tune")));
    assert_eq!(step.next, NextOp::Done(ActionResult::Reply(s("Old Tune"))));
}

#[test]
fn ordering_within_one_invocation_is_kept() {
    let h = ActionHandler::new();
    let step = h.run("emoteonly", &vec![s("30")], "chan");
    assert_eq!(
        step.messages,
        vec![
            OutboundMessage::Say {
                channel: s("chan"),
                text: s("Emote-only enabled for 30 seconds!"),
            },
            OutboundMessage::Raw { channel: s("chan"), text: s("/emoteonly") },
        ],
    );
}

#[test]
fn custom_action_serializes_as_its_name() {
    let action = Action::Custom("greet".to_string());
    assert_eq!(action.serial_name(), "greet");
}

#[test]
fn builtin_action_identities_have_no_serial_name() {
    for action in [
        Action::AddCmd,
        Action::DelCmd,
        Action::ShowCmd,
        Action::ListCmd,
        Action::Join,
        Action::Part,
    ] {
        assert_eq!(action.serial_name(), "Unsupported type");
    }
}
