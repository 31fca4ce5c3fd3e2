use traydio::playback::step;
use traydio::playback::Action;
use traydio::playback::Diagnostic;
use traydio::playback::Event;
use traydio::playback::PlaybackState;
use traydio::station::RadioStation;
use traydio::tray::Traydio;

fn idle() -> PlaybackState {
    PlaybackState { current: None, pending: None, process: None, terminated: false }
}

fn playing(station: usize, process: u32) -> PlaybackState {
    PlaybackState {
        current: Some(station),
        pending: None,
        process: Some(process),
        terminated: false,
    }
}

fn radio_of(count: usize) -> Traydio {
    let stations = (0..count)
        .map(|i| RadioStation { name: format!("station {}", i), url: format!("u{}", i) })
        .collect();
    Traydio::from_stations(stations, "/state/stations.playlist")
}

fn given_up(actions: &[Action]) -> Vec<u32> {
    let mut processes = Vec::new();
    for action in actions {
        match action {
            Action::Reap(p) | Action::Release(p) => processes.push(*p),
            _ => {}
        }
    }
    processes
}

#[test]
fn new_state_is_idle_and_holds_nothing() {
    assert_eq!(PlaybackState::new(), idle());
    assert_eq!(radio_of(2).state(), idle());
}

#[test]
fn select_then_next_twice_goes_round() {
    let stations = vec![
        RadioStation { name: "jazz".to_string(), url: "u1".to_string() },
        RadioStation { name: "news".to_string(), url: "u2".to_string() },
    ];
    let mut radio = Traydio::from_stations(stations, "/state/stations.playlist");
    assert_eq!(radio.title(), "Traydio");

    assert_eq!(radio.change_station(0), vec![Action::SignalStop, Action::StartPlayer(0)]);
    assert_eq!(radio.stations()[0].url, "u1");
    assert_eq!(radio.player_started(100), vec![]);
    assert_eq!(radio.title(), "Traydio – playing jazz");
    assert_eq!(radio.state(), playing(0, 100));

    assert_eq!(radio.activate(0, 0), vec![Action::SignalStop, Action::StartPlayer(1)]);
    assert_eq!(radio.stations()[1].url, "u2");
    assert_eq!(radio.player_started(101), vec![Action::Reap(100)]);
    assert_eq!(radio.title(), "Traydio – playing news");
    assert_eq!(radio.state(), playing(1, 101));

    assert_eq!(radio.activate(0, 0), vec![Action::SignalStop, Action::StartPlayer(0)]);
    assert_eq!(radio.player_started(102), vec![Action::Reap(101)]);
    assert_eq!(radio.title(), "Traydio – playing jazz");
    assert_eq!(radio.state(), playing(0, 102));
}

#[test]
fn select_out_of_range_reports_and_idles() {
    let mut radio = radio_of(2);
    let actions = radio.change_station(5);
    assert_eq!(actions, vec![Action::SignalStop, Action::Report(Diagnostic::NoStation(5))]);
    assert_eq!(Diagnostic::NoStation(5).message(), "Error: no station at index 5");
    assert_eq!(radio.title(), "Traydio");
    assert_eq!(radio.state(), idle());
}

#[test]
fn select_out_of_range_while_playing_stops_and_keeps_the_handle() {
    let mut radio = radio_of(2);
    radio.change_station(1);
    radio.player_started(7);
    let actions = radio.change_station(2);
    assert_eq!(actions, vec![Action::SignalStop, Action::Report(Diagnostic::NoStation(2))]);
    assert_eq!(
        radio.state(),
        PlaybackState { current: None, pending: None, process: Some(7), terminated: false }
    );
    assert_eq!(radio.title(), "Traydio");
}

#[test]
fn select_at_the_largest_index_is_out_of_range() {
    let mut radio = radio_of(3);
    let actions = radio.change_station(usize::MAX);
    assert_eq!(
        actions,
        vec![Action::SignalStop, Action::Report(Diagnostic::NoStation(usize::MAX))]
    );
    assert_eq!(radio.state(), idle());
}

#[test]
fn select_claims_the_station_only_once_its_player_runs() {
    let mut radio = radio_of(2);
    radio.change_station(1);
    assert_eq!(
        radio.state(),
        PlaybackState { current: None, pending: Some(1), process: None, terminated: false }
    );
    assert_eq!(radio.title(), "Traydio");
    radio.player_started(9);
    assert_eq!(radio.state(), playing(1, 9));
}

#[test]
fn player_that_fails_leaves_the_radio_idle() {
    let mut radio = radio_of(2);
    radio.change_station(0);
    radio.player_started(4);
    assert_eq!(radio.change_station(1), vec![Action::SignalStop, Action::StartPlayer(1)]);
    let actions = radio.player_failed();
    assert_eq!(actions, vec![Action::Report(Diagnostic::PlayerFailed(1))]);
    assert_eq!(Diagnostic::PlayerFailed(1).message(), "Error: unable to run mpv");
    assert_eq!(
        radio.state(),
        PlaybackState { current: None, pending: None, process: Some(4), terminated: false }
    );
    assert_eq!(radio.title(), "Traydio");
}

#[test]
fn failure_that_nobody_asked_for_changes_nothing() {
    let mut radio = radio_of(2);
    radio.change_station(0);
    radio.player_started(4);
    assert_eq!(radio.player_failed(), vec![]);
    assert_eq!(radio.state(), playing(0, 4));
}

#[test]
fn player_that_nobody_asked_for_is_stopped_and_held() {
    let mut radio = radio_of(2);
    radio.change_station(0);
    radio.player_started(4);
    let actions = radio.player_started(5);
    assert_eq!(actions, vec![Action::SignalStop, Action::Reap(4)]);
    assert_eq!(
        radio.state(),
        PlaybackState { current: None, pending: None, process: Some(5), terminated: false }
    );
}

#[test]
fn player_reported_after_stop_is_stopped_too() {
    let mut radio = radio_of(2);
    radio.change_station(0);
    radio.stop();
    assert_eq!(radio.player_started(5), vec![Action::SignalStop]);
    assert_eq!(
        radio.state(),
        PlaybackState { current: None, pending: None, process: Some(5), terminated: false }
    );
    assert_eq!(radio.stop(), vec![Action::SignalStop, Action::Release(5)]);
    assert_eq!(radio.state(), idle());
}

#[test]
fn process_that_is_held_already_is_not_reaped() {
    let mut radio = radio_of(2);
    radio.change_station(0);
    radio.player_started(4);
    radio.change_station(1);
    assert_eq!(radio.player_started(4), vec![]);
    assert_eq!(radio.state(), playing(1, 4));
}

#[test]
fn latest_select_wins() {
    let mut radio = radio_of(3);
    radio.change_station(0);
    radio.change_station(2);
    radio.player_started(8);
    assert_eq!(radio.state(), playing(2, 8));
}

#[test]
fn next_from_idle_starts_the_first_station() {
    let mut radio = radio_of(3);
    assert_eq!(radio.activate(10, 20), vec![Action::SignalStop, Action::StartPlayer(0)]);
    radio.player_started(1);
    assert_eq!(radio.state(), playing(0, 1));
}

#[test]
fn next_goes_round_the_catalog() {
    let mut radio = radio_of(3);
    let mut seen = Vec::new();
    for process in 1..=7u32 {
        radio.activate(0, 0);
        radio.player_started(process);
        seen.push(radio.state().current);
    }
    assert_eq!(
        seen,
        vec![Some(0), Some(1), Some(2), Some(0), Some(1), Some(2), Some(0)]
    );
}

#[test]
fn next_as_often_as_there_are_stations_comes_back() {
    let mut radio = radio_of(4);
    radio.change_station(2);
    radio.player_started(1);
    for process in 2..=5u32 {
        radio.activate(0, 0);
        radio.player_started(process);
    }
    assert_eq!(radio.state(), playing(2, 5));
}

#[test]
fn next_on_a_single_station_stays_there() {
    let mut radio = radio_of(1);
    radio.activate(0, 0);
    radio.player_started(1);
    assert_eq!(radio.state(), playing(0, 1));
    assert_eq!(radio.activate(0, 0), vec![Action::SignalStop, Action::StartPlayer(0)]);
    assert_eq!(radio.player_started(2), vec![Action::Reap(1)]);
    assert_eq!(radio.state(), playing(0, 2));
}

#[test]
fn next_on_an_empty_catalog_reports_and_idles() {
    let mut radio = radio_of(0);
    let actions = radio.activate(0, 0);
    assert_eq!(actions, vec![Action::SignalStop, Action::Report(Diagnostic::NoStation(0))]);
    assert_eq!(radio.state(), idle());
    assert_eq!(radio.title(), "Traydio");
}

#[test]
fn stop_gives_the_handle_up_without_waiting() {
    let mut radio = radio_of(2);
    radio.change_station(1);
    radio.player_started(3);
    assert_eq!(radio.stop(), vec![Action::SignalStop, Action::Release(3)]);
    assert_eq!(radio.state(), idle());
    assert_eq!(radio.title(), "Traydio");
}

#[test]
fn stop_twice_is_stop_once() {
    let mut radio = radio_of(2);
    radio.change_station(1);
    radio.player_started(3);
    radio.stop();
    let once = radio.state();
    assert_eq!(radio.stop(), vec![Action::SignalStop]);
    assert_eq!(radio.state(), once);
}

#[test]
fn stop_while_idle_only_signals() {
    let mut radio = radio_of(2);
    assert_eq!(radio.stop(), vec![Action::SignalStop]);
    assert_eq!(radio.state(), idle());
}

#[test]
fn quit_signals_gives_up_and_exits() {
    let mut radio = radio_of(2);
    radio.change_station(0);
    radio.player_started(6);
    assert_eq!(radio.quit(), vec![Action::SignalStop, Action::Release(6), Action::Exit]);
    assert_eq!(
        radio.state(),
        PlaybackState { current: None, pending: None, process: None, terminated: true }
    );
}

#[test]
fn quit_while_idle_signals_and_exits() {
    let mut radio = radio_of(2);
    assert_eq!(radio.quit(), vec![Action::SignalStop, Action::Exit]);
    assert!(radio.state().terminated);
}

#[test]
fn nothing_happens_after_quit() {
    let mut radio = radio_of(2);
    radio.change_station(0);
    radio.player_started(6);
    radio.quit();
    let gone = radio.state();
    let events = [
        Event::Select(0),
        Event::Select(9),
        Event::Next,
        Event::Stop,
        Event::Quit,
        Event::PlayerStarted(7),
        Event::PlayerFailed,
    ];
    for event in events {
        assert_eq!(radio.handle(event), vec![]);
        assert_eq!(radio.state(), gone);
        assert_eq!(radio.title(), "Traydio");
    }
}

#[test]
fn handle_does_what_the_named_operations_do() {
    let mut by_event = radio_of(2);
    let mut by_name = radio_of(2);
    assert_eq!(by_event.handle(Event::Select(1)), by_name.change_station(1));
    assert_eq!(by_event.handle(Event::PlayerStarted(2)), by_name.player_started(2));
    assert_eq!(by_event.handle(Event::Next), by_name.activate(3, 4));
    assert_eq!(by_event.handle(Event::PlayerFailed), by_name.player_failed());
    assert_eq!(by_event.handle(Event::Stop), by_name.stop());
    assert_eq!(by_event.handle(Event::Quit), by_name.quit());
    assert_eq!(by_event.state(), by_name.state());
}

#[test]
fn never_more_than_one_process_to_look_after() {
    let mut radio = radio_of(3);
    let events = [
        Event::Next,
        Event::PlayerStarted(1),
        Event::Select(2),
        Event::PlayerStarted(2),
        Event::Select(7),
        Event::Next,
        Event::PlayerFailed,
        Event::Next,
        Event::PlayerStarted(3),
        Event::PlayerStarted(4),
        Event::Stop,
        Event::Stop,
        Event::Select(1),
        Event::Stop,
        Event::PlayerStarted(5),
        Event::Next,
        Event::PlayerStarted(6),
        Event::Quit,
    ];
    let mut live: Vec<u32> = Vec::new();
    for event in events {
        let held_before = radio.state().process;
        let actions = radio.handle(event);
        if let Event::PlayerStarted(p) = event {
            if !live.contains(&p) {
                live.push(p);
            }
        }
        for p in given_up(&actions) {
            assert_eq!(held_before, Some(p));
            live.retain(|q| *q != p);
        }
        assert!(live.len() <= 1);
        assert_eq!(live.first().copied(), radio.state().process);
        if radio.state().current.is_some() {
            assert!(radio.state().process.is_some());
        }
    }
    assert!(live.is_empty());
}

#[test]
fn step_is_what_the_radio_does() {
    let (state, actions) = step(2, idle(), Event::Select(1));
    assert_eq!(
        state,
        PlaybackState { current: None, pending: Some(1), process: None, terminated: false }
    );
    assert_eq!(actions, vec![Action::SignalStop, Action::StartPlayer(1)]);
    let (state, actions) = step(2, state, Event::PlayerStarted(11));
    assert_eq!(state, playing(1, 11));
    assert_eq!(actions, vec![]);
    let (state, actions) = step(2, state, Event::Next);
    assert_eq!(
        state,
        PlaybackState { current: None, pending: Some(0), process: Some(11), terminated: false }
    );
    assert_eq!(actions, vec![Action::SignalStop, Action::StartPlayer(0)]);
}

#[test]
fn step_takes_any_state() {
    let odd = PlaybackState {
        current: Some(usize::MAX),
        pending: None,
        process: None,
        terminated: false,
    };
    let (state, actions) = step(3, odd, Event::Next);
    let after = ((usize::MAX as u128 + 1) % 3) as usize;
    assert_eq!(state.pending, Some(after));
    assert_eq!(actions, vec![Action::SignalStop, Action::StartPlayer(after)]);
    let (state, actions) = step(0, odd, Event::Next);
    assert_eq!(state.pending, None);
    assert_eq!(actions, vec![Action::SignalStop, Action::Report(Diagnostic::NoStation(0))]);
}
