use obs_gpmdp::message::Frame;
use obs_gpmdp::playback::{TrackInfo, Update};
use obs_gpmdp::reader::{Command, Event, ReaderState, Step, RETRY_DELAY_MS};

fn plain(state: ReaderState, command: Command) -> Step {
    Step { state, update: None, command }
}

#[test]
fn reader_starts_by_connecting() {
    assert_eq!(ReaderState::start(), plain(ReaderState::Connecting, Command::Connect));
}

#[test]
fn retry_delay_is_one_second() {
    assert_eq!(RETRY_DELAY_MS, 1000);
}

#[test]
fn connection_is_read_once_it_is_open() {
    let step = ReaderState::Connecting.step(Event::Connected);
    assert_eq!(step, plain(ReaderState::Streaming, Command::Read));
}

#[test]
fn failed_connect_is_retried_after_the_delay() {
    let step = ReaderState::Connecting.step(Event::ConnectFailed);
    assert_eq!(
        step,
        Step { state: ReaderState::Waiting, update: Some(Update::Disconnected), command: Command::Wait(1000) }
    );
    let step = step.state.step(Event::RetryElapsed);
    assert_eq!(step, plain(ReaderState::Connecting, Command::Connect));
}

#[test]
fn server_disconnect_is_told_once_and_then_retried() {
    let lost = ReaderState::Streaming.step(Event::ConnectionLost);
    assert_eq!(
        lost,
        Step { state: ReaderState::Waiting, update: Some(Update::Disconnected), command: Command::Wait(1000) }
    );
    // Whatever else arrives while the timer runs publishes nothing and starts no attempt.
    for event in [
        Event::ConnectionLost,
        Event::ConnectFailed,
        Event::Connected,
        Event::Frame(Frame::Text("{\"channel\":\"playState\",\"payload\":true}".to_string())),
    ] {
        assert_eq!(ReaderState::Waiting.step(event), plain(ReaderState::Waiting, Command::Continue));
    }
    let retry = ReaderState::Waiting.step(Event::RetryElapsed);
    assert_eq!(retry, plain(ReaderState::Connecting, Command::Connect));
}

#[test]
fn frames_become_updates() {
    let step = ReaderState::Streaming
        .step(Event::Frame(Frame::Text("{\"channel\":\"playState\",\"payload\":true}".to_string())));
    assert_eq!(
        step,
        Step { state: ReaderState::Streaming, update: Some(Update::PlayState(true)), command: Command::Read }
    );
    let step = ReaderState::Streaming.step(Event::Frame(Frame::Text(
        "{\"channel\":\"track\",\"payload\":{\"title\":\"T\",\"artist\":\"A\",\"album\":\"L\",\"albumArt\":null}}"
            .to_string(),
    )));
    assert_eq!(
        step.update,
        Some(Update::Track(TrackInfo {
            title: "T".to_string(),
            artist: "A".to_string(),
            album: "L".to_string(),
            album_art_url: None,
        }))
    );
}

#[test]
fn frames_without_a_message_are_dropped_and_reading_goes_on() {
    for frame in [Frame::Other, Frame::Text("{".to_string()), Frame::Text("{\"channel\":\"lyrics\"}".to_string())] {
        let step = ReaderState::Streaming.step(Event::Frame(frame));
        assert_eq!(step, plain(ReaderState::Streaming, Command::Read));
    }
}

#[test]
fn shutdown_ends_the_loop_from_every_state() {
    for state in [ReaderState::Connecting, ReaderState::Streaming, ReaderState::Waiting] {
        let step = state.step(Event::Shutdown);
        assert_eq!(step, plain(ReaderState::Stopped, Command::Exit));
        assert!(step.state.is_stopped());
    }
    assert_eq!(ReaderState::Stopped.step(Event::Shutdown), plain(ReaderState::Stopped, Command::Continue));
}

#[test]
fn timer_failure_is_fatal() {
    let step = ReaderState::Waiting.step(Event::TimerFailed);
    assert_eq!(step, plain(ReaderState::Stopped, Command::Fail));
    assert_eq!(
        ReaderState::Streaming.step(Event::TimerFailed),
        plain(ReaderState::Streaming, Command::Continue)
    );
}

#[test]
fn stopped_reader_stays_stopped() {
    for event in [
        Event::Connected,
        Event::ConnectFailed,
        Event::Frame(Frame::Other),
        Event::ConnectionLost,
        Event::RetryElapsed,
        Event::TimerFailed,
    ] {
        assert_eq!(ReaderState::Stopped.step(event), plain(ReaderState::Stopped, Command::Continue));
    }
}

#[test]
fn events_out_of_place_change_nothing() {
    assert_eq!(
        ReaderState::Connecting.step(Event::Frame(Frame::Other)),
        plain(ReaderState::Connecting, Command::Continue)
    );
    assert_eq!(
        ReaderState::Connecting.step(Event::RetryElapsed),
        plain(ReaderState::Connecting, Command::Continue)
    );
    assert_eq!(
        ReaderState::Streaming.step(Event::Connected),
        plain(ReaderState::Streaming, Command::Continue)
    );
    assert!(!ReaderState::Streaming.is_stopped());
}

#[test]
fn reader_keeps_retrying() {
    let mut state = ReaderState::start().state;
    let mut connects = 1;
    let mut disconnects = 0;
    for _ in 0..5 {
        let step = state.step(Event::ConnectFailed);
        if step.update == Some(Update::Disconnected) {
            disconnects += 1;
        }
        assert_eq!(step.command, Command::Wait(RETRY_DELAY_MS));
        let step = step.state.step(Event::RetryElapsed);
        assert_eq!(step.command, Command::Connect);
        connects += 1;
        state = step.state;
    }
    assert_eq!(connects, 6);
    assert_eq!(disconnects, 5);
    assert_eq!(state, ReaderState::Connecting);
}
