//! The tray radio itself: a catalog of stations, the playback state over it,
//! and what the tray shows of both.

use crate::playback::initial_state;
use crate::playback::step;
use crate::playback::step_actions;
use crate::playback::step_state;
use crate::playback::well_formed;
use crate::playback::Action;
use crate::playback::Event;
use crate::playback::PlaybackState;
use crate::player::player_arguments;
use crate::player::player_arguments_of;
use crate::player::texts;
use crate::station::station_views;
use crate::station::RadioStation;
use crate::station::StationView;
use vstd::prelude::*;

verus! {

/// One entry of the tray's menu.
#[derive(Clone, Debug, PartialEq, Eq)]
pub enum MenuItem {
    /// A group of options of which at most one is marked: the one at
    /// `selected`, none where `selected` is the number of options. Choosing
    /// the option at `i` is `Event::Select(i)`.
    RadioGroup { selected: usize, options: Vec<String> },
    /// An entry that stands for one event.
    StandardItem { label: String, activate: Event },
}

/// A `MenuItem`, with its texts as characters.
pub enum MenuItemView {
    RadioGroup { selected: usize, options: Seq<Seq<char>> },
    StandardItem { label: Seq<char>, activate: Event },
}

impl View for MenuItem {
    type V = MenuItemView;

    open spec fn view(&self) -> MenuItemView {
        match self {
            MenuItem::RadioGroup { selected, options } => MenuItemView::RadioGroup {
                selected: *selected,
                options: options@.map_values(|label: String| label@),
            },
            MenuItem::StandardItem { label, activate } => MenuItemView::StandardItem {
                label: label@,
                activate: *activate,
            },
        }
    }
}

/// The items of a menu, each by its view.
pub open spec fn menu_views(items: Seq<MenuItem>) -> Seq<MenuItemView> {
    items.map_values(|item: MenuItem| item@)
}

/// The event that choosing the option at `option` of `item` stands for.
pub open spec fn menu_event(item: MenuItemView, option: usize) -> Event {
    match item {
        MenuItemView::RadioGroup { .. } => Event::Select(option),
        MenuItemView::StandardItem { activate, .. } => activate,
    }
}

impl MenuItem {
    /// The event to hand to the radio when the user chooses this entry; for
    /// a group, when the user chooses its option at `option`.
    pub fn event(&self, option: usize) -> (event: Event)
        ensures
            event == menu_event(self@, option),
    {
        match self {
            MenuItem::RadioGroup { .. } => Event::Select(option),
            MenuItem::StandardItem { activate, .. } => *activate,
        }
    }
}

/// The tray's title: the program's name, and the station's while one plays.
pub open spec fn title_of(stations: Seq<StationView>, current: Option<usize>) -> Seq<char> {
    match current {
        Some(i) if i < stations.len() => "Traydio – playing "@ + stations[i as int].name,
        _ => "Traydio"@,
    }
}

/// The tray's menu: the stations by name as one group, with the one that
/// plays marked, then the entries that stop and quit.
pub open spec fn menu_of(stations: Seq<StationView>, current: Option<usize>) -> Seq<MenuItemView> {
    seq![
        MenuItemView::RadioGroup {
            selected: match current {
                Some(i) => i,
                None => stations.len() as usize,
            },
            options: stations.map_values(|s: StationView| s.name),
        },
        MenuItemView::StandardItem { label: "Stop"@, activate: Event::Stop },
        MenuItemView::StandardItem { label: "Quit"@, activate: Event::Quit },
    ]
}

/// A radio that was as `before` has taken `event`: it is as `after`, in the
/// state that `event` leads to and with nothing else changed, and `actions`
/// are what `event` demands.
pub open spec fn takes(
    before: TraydioView,
    event: Event,
    after: TraydioView,
    actions: Seq<Action>,
) -> bool {
    let len = before.stations.len() as usize;
    &&& after.stations == before.stations
    &&& after.playlist_arg == before.playlist_arg
    &&& after.state == step_state(len, before.state, event)
    &&& actions == step_actions(len, before.state, event)
}

/// A tray radio: its stations, and which of them plays.
pub struct Traydio {
    stations: Vec<RadioStation>,
    playlist_arg: String,
    state: PlaybackState,
}

/// What a radio is made of: its stations, the argument that names its
/// playlist, and its playback state.
pub struct TraydioView {
    pub stations: Seq<StationView>,
    pub playlist_arg: Seq<char>,
    pub state: PlaybackState,
}

impl View for Traydio {
    type V = TraydioView;

    closed spec fn view(&self) -> TraydioView {
        TraydioView {
            stations: station_views(self.stations@),
            playlist_arg: self.playlist_arg@,
            state: self.state,
        }
    }
}

impl Traydio {
    #[verifier::type_invariant]
    spec fn inv(self) -> bool {
        well_formed(self.stations.len(), self.state)
    }

    /// The number of stations, which never changes.
    pub open spec fn len(&self) -> usize {
        self@.stations.len() as usize
    }

    /// A radio over `stations` that plays nothing yet. `playlist` is the path
    /// of the file that holds the stations' addresses.
    pub fn from_stations(stations: Vec<RadioStation>, playlist: &str) -> (radio: Traydio)
        ensures
            radio@.stations == station_views(stations@),
            radio@.playlist_arg == "--playlist="@ + playlist@,
            radio@.state == initial_state(),
    {
        let mut playlist_arg = String::from_str("--playlist=");
        playlist_arg.append(playlist);
        Traydio { stations, playlist_arg, state: PlaybackState::new() }
    }

    /// The stations, in catalog order.
    pub fn stations(&self) -> (stations: &Vec<RadioStation>)
        ensures
            station_views(stations@) == self@.stations,
    {
        &self.stations
    }

    /// The playback state, which is always well formed.
    pub fn state(&self) -> (state: PlaybackState)
        ensures
            state == self@.state,
            well_formed(self.len(), state),
    {
        proof {
            use_type_invariant(self);
        }
        self.state
    }

    /// Takes `event`: moves to the state it leads to and returns what it
    /// demands, to be done in the order given.
    pub fn handle(&mut self, event: Event) -> (actions: Vec<Action>)
        ensures
            takes(old(self)@, event, final(self)@, actions@),
    {
        proof {
            use_type_invariant(&*self);
        }
        let (state, actions) = step(self.stations.len(), self.state, event);
        self.state = state;
        actions
    }

    /// The user picked the station at `idx`.
    pub fn change_station(&mut self, idx: usize) -> (actions: Vec<Action>)
        ensures
            takes(old(self)@, Event::Select(idx), final(self)@, actions@),
    {
        self.handle(Event::Select(idx))
    }

    /// The user activated the tray's icon, at the place `(_x, _y)` of the
    /// screen: on to the next station.
    pub fn activate(&mut self, _x: i32, _y: i32) -> (actions: Vec<Action>)
        ensures
            takes(old(self)@, Event::Next, final(self)@, actions@),
    {
        self.handle(Event::Next)
    }

    /// The user asked for silence.
    pub fn stop(&mut self) -> (actions: Vec<Action>)
        ensures
            takes(old(self)@, Event::Stop, final(self)@, actions@),
    {
        self.handle(Event::Stop)
    }

    /// The user asked to leave.
    pub fn quit(&mut self) -> (actions: Vec<Action>)
        ensures
            takes(old(self)@, Event::Quit, final(self)@, actions@),
    {
        self.handle(Event::Quit)
    }

    /// The player that was asked for runs, as `process`.
    pub fn player_started(&mut self, process: u32) -> (actions: Vec<Action>)
        ensures
            takes(old(self)@, Event::PlayerStarted(process), final(self)@, actions@),
    {
        self.handle(Event::PlayerStarted(process))
    }

    /// The player that was asked for could not be started.
    pub fn player_failed(&mut self) -> (actions: Vec<Action>)
        ensures
            takes(old(self)@, Event::PlayerFailed, final(self)@, actions@),
    {
        self.handle(Event::PlayerFailed)
    }

    /// The tray's title.
    pub fn title(&self) -> (title: String)
        ensures
            title@ == title_of(self@.stations, self@.state.current),
    {
        proof {
            use_type_invariant(self);
        }
        match self.state.current {
            Some(idx) => {
                let mut title = String::from_str("Traydio – playing ");
                title.append(self.stations[idx].name.as_str());
                title
            },
            None => String::from_str("Traydio"),
        }
    }

    /// The name under which the tray registers.
    pub fn id(&self) -> (id: String)
        ensures
            id@ == "traydio"@,
    {
        String::from_str("traydio")
    }

    /// The name of the tray's icon.
    pub fn icon_name(&self) -> (name: String)
        ensures
            name@ == "media-playback-start-symbolic"@,
    {
        String::from_str("media-playback-start-symbolic")
    }

    /// The tray's menu.
    pub fn menu(&self) -> (items: Vec<MenuItem>)
        ensures
            menu_views(items@) == menu_of(self@.stations, self@.state.current),
    {
        let mut options: Vec<String> = Vec::new();
        let ghost names = |s: StationView| s.name;
        let ghost labels = |label: String| label@;
        let mut i: usize = 0;
        while i < self.stations.len()
            invariant
                i <= self.stations.len(),
                names == |s: StationView| s.name,
                labels == |label: String| label@,
                options@.map_values(labels) == self@.stations.take(i as int).map_values(names),
            decreases self.stations.len() - i,
        {
            let label = self.stations[i].name.clone();
            proof {
                options@.lemma_push_map_commute(labels, label);
                self@.stations.lemma_map_take_succ(names, i as int);
            }
            options.push(label);
            i += 1;
        }
        assert(self@.stations.take(i as int) == self@.stations);
        let selected: usize = match self.state.current {
            Some(idx) => idx,
            None => self.stations.len(),
        };
        let mut items: Vec<MenuItem> = Vec::new();
        items.push(MenuItem::RadioGroup { selected, options });
        let stop = String::from_str("Stop");
        let quit = String::from_str("Quit");
        items.push(MenuItem::StandardItem { label: stop, activate: Event::Stop });
        items.push(MenuItem::StandardItem { label: quit, activate: Event::Quit });
        assert(menu_views(items@) =~= menu_of(self@.stations, self@.state.current));
        items
    }

    /// The arguments to start the player with on the station at `idx`.
    pub fn player_arguments(&self, idx: usize) -> (arguments: Vec<String>)
        ensures
            texts(arguments@) == player_arguments_of(self@.playlist_arg, idx),
    {
        player_arguments(self.playlist_arg.as_str(), idx)
    }
}

} // verus!
