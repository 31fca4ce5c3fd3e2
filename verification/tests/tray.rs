use traydio::playback::Event;
use traydio::player::player_arguments;
use traydio::player::player_program;
use traydio::player::stop_command;
use traydio::station::RadioStation;
use traydio::text::decimal_string;
use traydio::tray::MenuItem;
use traydio::tray::Traydio;

fn two_stations() -> Traydio {
    let stations = vec![
        RadioStation { name: "jazz".to_string(), url: "u1".to_string() },
        RadioStation { name: "news".to_string(), url: "u2".to_string() },
    ];
    Traydio::from_stations(stations, "/state/traydio/stations.playlist")
}

fn stop_and_quit() -> Vec<MenuItem> {
    vec![
        MenuItem::StandardItem { label: "Stop".to_string(), activate: Event::Stop },
        MenuItem::StandardItem { label: "Quit".to_string(), activate: Event::Quit },
    ]
}

#[test]
fn title_is_the_name_while_nothing_plays() {
    assert_eq!(two_stations().title(), "Traydio");
}

#[test]
fn title_names_the_station_that_plays() {
    let mut radio = two_stations();
    radio.change_station(1);
    radio.player_started(1);
    assert_eq!(radio.title(), "Traydio – playing news");
    radio.stop();
    assert_eq!(radio.title(), "Traydio");
}

#[test]
fn id_and_icon_are_fixed() {
    let radio = two_stations();
    assert_eq!(radio.id(), "traydio");
    assert_eq!(radio.icon_name(), "media-playback-start-symbolic");
}

#[test]
fn menu_marks_no_station_while_nothing_plays() {
    let menu = two_stations().menu();
    assert_eq!(menu.len(), 3);
    assert_eq!(
        menu[0],
        MenuItem::RadioGroup { selected: 2, options: vec!["jazz".to_string(), "news".to_string()] }
    );
    assert_eq!(menu[1..], stop_and_quit()[..]);
}

#[test]
fn menu_marks_the_station_that_plays() {
    let mut radio = two_stations();
    radio.change_station(1);
    radio.player_started(1);
    let menu = radio.menu();
    assert_eq!(
        menu[0],
        MenuItem::RadioGroup { selected: 1, options: vec!["jazz".to_string(), "news".to_string()] }
    );
    assert_eq!(menu[1..], stop_and_quit()[..]);
}

#[test]
fn menu_of_an_empty_catalog_has_an_empty_group() {
    let menu = Traydio::from_stations(Vec::new(), "/p").menu();
    assert_eq!(menu[0], MenuItem::RadioGroup { selected: 0, options: Vec::new() });
    assert_eq!(menu[1..], stop_and_quit()[..]);
}

#[test]
fn menu_entries_stand_for_their_events() {
    let menu = two_stations().menu();
    assert_eq!(menu[0].event(0), Event::Select(0));
    assert_eq!(menu[0].event(1), Event::Select(1));
    assert_eq!(menu[0].event(7), Event::Select(7));
    assert_eq!(menu[1].event(0), Event::Stop);
    assert_eq!(menu[2].event(0), Event::Quit);
    assert_eq!(menu[2].event(5), Event::Quit);
}

#[test]
fn menu_does_not_change_the_radio() {
    let mut radio = two_stations();
    radio.change_station(0);
    radio.player_started(3);
    let before = radio.state();
    let first = radio.menu();
    let second = radio.menu();
    assert_eq!(first, second);
    assert_eq!(radio.state(), before);
}

#[test]
fn player_is_started_on_the_playlist_at_the_station() {
    let radio = two_stations();
    assert_eq!(
        radio.player_arguments(1),
        vec![
            "--playlist=/state/traydio/stations.playlist".to_string(),
            "--playlist-start=1".to_string(),
            "--loop-playlist".to_string(),
        ]
    );
    assert_eq!(radio.player_arguments(0)[1], "--playlist-start=0");
    assert_eq!(radio.player_arguments(9001)[1], "--playlist-start=9001");
}

#[test]
fn player_arguments_name_the_playlist_as_given() {
    assert_eq!(
        player_arguments("--playlist=list", 12),
        vec![
            "--playlist=list".to_string(),
            "--playlist-start=12".to_string(),
            "--loop-playlist".to_string(),
        ]
    );
}

#[test]
fn programs_are_mpv_and_playerctl() {
    assert_eq!(player_program(), "mpv");
    assert_eq!(
        stop_command(),
        vec!["playerctl".to_string(), "--player=mpv".to_string(), "stop".to_string()]
    );
}

#[test]
fn numbers_are_written_in_base_ten() {
    assert_eq!(decimal_string(0), "0");
    assert_eq!(decimal_string(7), "7");
    assert_eq!(decimal_string(10), "10");
    assert_eq!(decimal_string(109), "109");
    assert_eq!(decimal_string(9001), "9001");
    assert_eq!(decimal_string(usize::MAX), usize::MAX.to_string());
}
