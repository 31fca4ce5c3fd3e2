//! Stations, and how a catalog is made from the entries of a station list.

use std::convert::TryFrom;
use vstd::prelude::*;
use vstd::std_specs::convert::TryFromSpec;
use vstd::std_specs::convert::TryFromSpecImpl;

verus! {

/// What an entry of the station list says under one attribute name.
#[derive(Clone, Debug, PartialEq, Eq)]
pub enum Attribute {
    /// The entry has no attribute of that name.
    Absent,
    /// The entry has the attribute, with a value that is not a string.
    NotText,
    /// The entry has the attribute, with this string as its value.
    Text(String),
}

/// One top-level entry of the station list, as far as a station is made of it.
#[derive(Clone, Debug, PartialEq, Eq)]
pub struct Entry {
    /// The entry's own name.
    pub name: String,
    /// What the entry says under `url`.
    pub url: Attribute,
}

/// A stream that can be played. Two stations may share a name: what tells
/// them apart is their place in the catalog.
#[derive(Clone, Debug, PartialEq, Eq)]
pub struct RadioStation {
    pub name: String,
    pub url: String,
}

/// Why an entry is not a station. Each variant carries the entry's name.
#[derive(Clone, Debug, PartialEq, Eq)]
pub enum RadioStationParseError {
    MissingUrl(String),
    InvalidUrl(String),
}

/// What loading a station list gives: the catalog of its stations, and for
/// each entry that is no station the reason, both in the order of the
/// entries.
#[derive(Clone, Debug, PartialEq, Eq)]
pub struct Loaded {
    pub stations: Vec<RadioStation>,
    pub skipped: Vec<RadioStationParseError>,
}

/// An `Attribute`, with its text as characters.
pub enum AttributeView {
    Absent,
    NotText,
    Text(Seq<char>),
}

/// An `Entry`, with its texts as characters.
pub struct EntryView {
    pub name: Seq<char>,
    pub url: AttributeView,
}

/// A `RadioStation`, with its texts as characters.
pub struct StationView {
    pub name: Seq<char>,
    pub url: Seq<char>,
}

/// A `RadioStationParseError`, with the entry's name as characters.
pub enum ParseErrorView {
    MissingUrl(Seq<char>),
    InvalidUrl(Seq<char>),
}

/// A `Loaded`, as the sequences of what it holds.
pub struct LoadedView {
    pub stations: Seq<StationView>,
    pub skipped: Seq<ParseErrorView>,
}

impl View for Attribute {
    type V = AttributeView;

    open spec fn view(&self) -> AttributeView {
        match self {
            Attribute::Absent => AttributeView::Absent,
            Attribute::NotText => AttributeView::NotText,
            Attribute::Text(text) => AttributeView::Text(text@),
        }
    }
}

impl View for Entry {
    type V = EntryView;

    open spec fn view(&self) -> EntryView {
        EntryView { name: self.name@, url: self.url@ }
    }
}

impl View for RadioStation {
    type V = StationView;

    open spec fn view(&self) -> StationView {
        StationView { name: self.name@, url: self.url@ }
    }
}

impl View for RadioStationParseError {
    type V = ParseErrorView;

    open spec fn view(&self) -> ParseErrorView {
        match self {
            RadioStationParseError::MissingUrl(name) => ParseErrorView::MissingUrl(name@),
            RadioStationParseError::InvalidUrl(name) => ParseErrorView::InvalidUrl(name@),
        }
    }
}

impl View for Loaded {
    type V = LoadedView;

    open spec fn view(&self) -> LoadedView {
        LoadedView {
            stations: station_views(self.stations@),
            skipped: error_views(self.skipped@),
        }
    }
}

/// The entries of a list, each by its view.
pub open spec fn entry_views(entries: Seq<Entry>) -> Seq<EntryView> {
    entries.map_values(|e: Entry| e@)
}

/// The stations of a list, each by its view.
pub open spec fn station_views(stations: Seq<RadioStation>) -> Seq<StationView> {
    stations.map_values(|s: RadioStation| s@)
}

/// The refusals of a list, each by its view.
pub open spec fn error_views(errors: Seq<RadioStationParseError>) -> Seq<ParseErrorView> {
    errors.map_values(|e: RadioStationParseError| e@)
}

/// The station that an entry describes: one whose `url` is a string.
pub open spec fn station_in(entry: EntryView) -> Option<StationView> {
    match entry.url {
        AttributeView::Text(url) => Some(StationView { name: entry.name, url }),
        _ => None,
    }
}

/// Why an entry describes no station, where it does not.
pub open spec fn refusal_in(entry: EntryView) -> Option<ParseErrorView> {
    match entry.url {
        AttributeView::Absent => Some(ParseErrorView::MissingUrl(entry.name)),
        AttributeView::NotText => Some(ParseErrorView::InvalidUrl(entry.name)),
        AttributeView::Text(_) => None,
    }
}

/// What loading a station list gives: its stations in the order of their
/// entries, and the refusals of the other entries in theirs.
pub open spec fn loaded_of(entries: Seq<EntryView>) -> LoadedView {
    LoadedView {
        stations: entries.filter_map(|e: EntryView| station_in(e)),
        skipped: entries.filter_map(|e: EntryView| refusal_in(e)),
    }
}

/// What is shown for an entry that was left out.
pub open spec fn skip_message(error: ParseErrorView) -> Seq<char> {
    match error {
        ParseErrorView::MissingUrl(name) => "Skipping "@ + name + " (Error: missing url)"@,
        ParseErrorView::InvalidUrl(name) => "Skipping "@ + name + " (Error: invalid url)"@,
    }
}

/// The stations' addresses, one to a line, with no line end after the last.
pub open spec fn playlist_of(stations: Seq<StationView>) -> Seq<char>
    decreases stations.len(),
{
    if stations.len() == 0 {
        Seq::empty()
    } else if stations.len() == 1 {
        stations[0].url
    } else {
        playlist_of(stations.drop_last()) + seq!['\n'] + stations.last().url
    }
}

/// What reading an attribute gave, as an `Attribute`: nothing where the
/// entry has none of that name, no text where its value is not a string.
pub open spec fn attribute_read(value: Option<Option<String>>) -> AttributeView {
    match value {
        None => AttributeView::Absent,
        Some(None) => AttributeView::NotText,
        Some(Some(text)) => AttributeView::Text(text@),
    }
}

impl Attribute {
    /// Makes an attribute of what reading it gave.
    pub fn from_property(value: Option<Option<String>>) -> (attribute: Attribute)
        ensures
            attribute@ == attribute_read(value),
    {
        match value {
            None => Attribute::Absent,
            Some(None) => Attribute::NotText,
            Some(Some(text)) => Attribute::Text(text),
        }
    }
}

impl<'a> TryFrom<&'a Entry> for RadioStation {
    type Error = RadioStationParseError;

    /// The station that `entry` describes, or why it describes none.
    fn try_from(entry: &'a Entry) -> (r: Result<RadioStation, RadioStationParseError>) {
        match &entry.url {
            Attribute::Absent => Err(RadioStationParseError::MissingUrl(entry.name.clone())),
            Attribute::NotText => Err(RadioStationParseError::InvalidUrl(entry.name.clone())),
            Attribute::Text(url) => Ok(RadioStation { name: entry.name.clone(), url: url.clone() }),
        }
    }
}

impl<'a> TryFromSpecImpl<&'a Entry> for RadioStation {
    open spec fn obeys_try_from_spec() -> bool {
        true
    }

    open spec fn try_from_spec(entry: &'a Entry) -> Result<RadioStation, RadioStationParseError> {
        match entry.url {
            Attribute::Absent => Err(RadioStationParseError::MissingUrl(entry.name)),
            Attribute::NotText => Err(RadioStationParseError::InvalidUrl(entry.name)),
            Attribute::Text(url) => Ok(RadioStation { name: entry.name, url }),
        }
    }
}

/// What `try_from` makes of an entry is, by its view, the station in the
/// entry or the refusal in it.
pub proof fn lemma_try_from_view(entry: &Entry)
    ensures
        match <RadioStation as TryFromSpec<&Entry>>::try_from_spec(entry) {
            Ok(station) => station_in(entry@) == Some(station@) && refusal_in(entry@) is None,
            Err(error) => refusal_in(entry@) == Some(error@) && station_in(entry@) is None,
        },
{
}

impl RadioStationParseError {
    /// The line to show for the entry that was left out.
    pub fn message(&self) -> (r: String)
        ensures
            r@ == skip_message(self@),
    {
        match self {
            RadioStationParseError::MissingUrl(name) => {
                let mut r = String::from_str("Skipping ");
                r.append(name.as_str());
                r.append(" (Error: missing url)");
                r
            },
            RadioStationParseError::InvalidUrl(name) => {
                let mut r = String::from_str("Skipping ");
                r.append(name.as_str());
                r.append(" (Error: invalid url)");
                r
            },
        }
    }
}

/// Loads a station list: every entry with a string under `url` becomes a
/// station, every other entry a refusal, and both keep the order of the
/// entries.
pub fn load_entries(entries: &Vec<Entry>) -> (loaded: Loaded)
    ensures
        loaded@ == loaded_of(entry_views(entries@)),
{
    let mut stations: Vec<RadioStation> = Vec::new();
    let mut skipped: Vec<RadioStationParseError> = Vec::new();
    let ghost views = entry_views(entries@);
    let ghost keep = |e: EntryView| station_in(e);
    let ghost refuse = |e: EntryView| refusal_in(e);
    let mut i: usize = 0;
    while i < entries.len()
        invariant
            i <= entries.len(),
            views == entry_views(entries@),
            keep == |e: EntryView| station_in(e),
            refuse == |e: EntryView| refusal_in(e),
            station_views(stations@) == views.take(i as int).filter_map(keep),
            error_views(skipped@) == views.take(i as int).filter_map(refuse),
        decreases entries.len() - i,
    {
        proof {
            views.lemma_filter_map_take_succ(keep, i as int);
            views.lemma_filter_map_take_succ(refuse, i as int);
        }
        match RadioStation::try_from(&entries[i]) {
            Ok(station) => {
                proof {
                    stations@.lemma_push_map_commute(|s: RadioStation| s@, station);
                }
                stations.push(station);
            },
            Err(error) => {
                proof {
                    skipped@.lemma_push_map_commute(|e: RadioStationParseError| e@, error);
                }
                skipped.push(error);
            },
        }
        i += 1;
    }
    assert(views.take(i as int) == views);
    Loaded { stations, skipped }
}

/// The text of the playlist file: every station's address, one to a line.
pub fn playlist_text(stations: &Vec<RadioStation>) -> (text: String)
    ensures
        text@ == playlist_of(station_views(stations@)),
{
    let mut text = String::new();
    let ghost views = station_views(stations@);
    let mut i: usize = 0;
    while i < stations.len()
        invariant
            i <= stations.len(),
            views == station_views(stations@),
            text@ == playlist_of(views.take(i as int)),
        decreases stations.len() - i,
    {
        proof {
            assert(views.take(i + 1).drop_last() == views.take(i as int));
        }
        if i > 0 {
            text.append("\n");
            proof {
                reveal_strlit("\n");
            }
        }
        text.append(stations[i].url.as_str());
        i += 1;
    }
    assert(views.take(i as int) == views);
    text
}

} // verus!
