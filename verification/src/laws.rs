//! What holds of the catalog whatever the station list, and of the playback
//! state machine whatever happens to it.

use crate::playback::initial_state;
use crate::playback::next_target;
use crate::playback::step_actions;
use crate::playback::step_state;
use crate::playback::well_formed;
use crate::playback::Action;
use crate::playback::Diagnostic;
use crate::playback::Event;
use crate::playback::PlaybackState;
use crate::station::loaded_of;
use crate::station::playlist_of;
use crate::station::refusal_in;
use crate::station::station_in;
use crate::station::EntryView;
use crate::station::StationView;
use vstd::arithmetic::div_mod::lemma_add_mod_noop_right;
use vstd::arithmetic::div_mod::lemma_mod_add_multiples_vanish;
use vstd::arithmetic::div_mod::lemma_mod_bound;
use vstd::arithmetic::div_mod::lemma_small_mod;
use vstd::prelude::*;

verus! {

/// The places in `s` of the items that `f` keeps, in rising order.
pub open spec fn kept_places<A, B>(s: Seq<A>, f: spec_fn(A) -> Option<B>) -> Seq<int>
    decreases s.len(),
{
    if s.len() == 0 {
        Seq::empty()
    } else if f(s.last()) is Some {
        kept_places(s.drop_last(), f).push(s.len() - 1)
    } else {
        kept_places(s.drop_last(), f)
    }
}

/// `out` is what `f` makes of the items of `s` that it keeps, in the order
/// in which they stand in `s`, and of no others: `places` are the places of
/// those items, rising, none left out, and `out` has at each position what
/// `f` makes of the item at the place of that position.
pub open spec fn selects_in_order<A, B>(
    s: Seq<A>,
    f: spec_fn(A) -> Option<B>,
    places: Seq<int>,
    out: Seq<B>,
) -> bool {
    &&& places.len() == out.len()
    &&& forall|k: int|
        0 <= k < places.len() ==> 0 <= #[trigger] places[k] < s.len() && f(s[places[k]]) == Some(
            out[k],
        )
    &&& forall|j: int, k: int| 0 <= j < k < places.len() ==> places[j] < places[k]
    &&& forall|i: int| 0 <= i < s.len() && f(s[i]) is Some ==> places.contains(i)
}

/// `filter_map` keeps order and leaves out exactly what `f` refuses.
pub proof fn lemma_filter_map_selects_in_order<A, B>(s: Seq<A>, f: spec_fn(A) -> Option<B>)
    ensures
        selects_in_order(s, f, kept_places(s, f), s.filter_map(f)),
    decreases s.len(),
{
    if s.len() > 0 {
        let rest = s.drop_last();
        lemma_filter_map_selects_in_order(rest, f);
        let before = kept_places(rest, f);
        let places = kept_places(s, f);
        assert forall|i: int| 0 <= i < s.len() && f(s[i]) is Some implies places.contains(i) by {
            if i < rest.len() {
                assert(before.contains(i));
                let k = choose|k: int| 0 <= k < before.len() && before[k] == i;
                assert(places[k] == i);
            } else {
                assert(places.last() == i);
            }
        }
    }
}

/// The catalog holds the stations of the station list in the order of their
/// entries and leaves out exactly the entries without a string under `url`;
/// each of those is told once, in the same order; and no entry is both.
pub proof fn lemma_catalog_in_document_order(entries: Seq<EntryView>)
    ensures
        selects_in_order(
            entries,
            |e: EntryView| station_in(e),
            kept_places(entries, |e: EntryView| station_in(e)),
            loaded_of(entries).stations,
        ),
        selects_in_order(
            entries,
            |e: EntryView| refusal_in(e),
            kept_places(entries, |e: EntryView| refusal_in(e)),
            loaded_of(entries).skipped,
        ),
        forall|i: int|
            0 <= i < entries.len() ==> (#[trigger] station_in(entries[i]) is Some <==> refusal_in(
                entries[i],
            ) is None),
        loaded_of(entries).stations.len() + loaded_of(entries).skipped.len() == entries.len(),
{
    let keep = |e: EntryView| station_in(e);
    let refuse = |e: EntryView| refusal_in(e);
    lemma_filter_map_selects_in_order(entries, keep);
    lemma_filter_map_selects_in_order(entries, refuse);
    lemma_catalog_counts(entries);
}

proof fn lemma_catalog_counts(entries: Seq<EntryView>)
    ensures
        loaded_of(entries).stations.len() + loaded_of(entries).skipped.len() == entries.len(),
    decreases entries.len(),
{
    if entries.len() > 0 {
        lemma_catalog_counts(entries.drop_last());
    }
}

/// The lines of a text: what stands before, between and after its line ends.
pub open spec fn lines(text: Seq<char>) -> Seq<Seq<char>>
    decreases text.len(),
{
    if text.len() == 0 {
        seq![Seq::empty()]
    } else if text.last() == '\n' {
        lines(text.drop_last()).push(Seq::empty())
    } else {
        let before = lines(text.drop_last());
        before.drop_last().push(before.last().push(text.last()))
    }
}

/// A text has at least one line.
pub proof fn lemma_lines_not_empty(text: Seq<char>)
    ensures
        lines(text).len() >= 1,
    decreases text.len(),
{
    if text.len() > 0 {
        lemma_lines_not_empty(text.drop_last());
    }
}

/// Text without a line end, put after a text, lengthens its last line.
pub proof fn lemma_lines_append(text: Seq<char>, more: Seq<char>)
    requires
        !more.contains('\n'),
    ensures
        lines(text + more) == lines(text).drop_last().push(lines(text).last() + more),
    decreases more.len(),
{
    lemma_lines_not_empty(text);
    if more.len() == 0 {
        assert(text + more == text);
        assert(lines(text).last() + more == lines(text).last());
        assert(lines(text).drop_last().push(lines(text).last()) == lines(text));
    } else {
        let shorter = more.drop_last();
        assert(more.last() == more[more.len() - 1]);
        assert forall|i: int| 0 <= i < shorter.len() implies shorter[i] != '\n' by {
            assert(shorter[i] == more[i]);
        }
        lemma_lines_append(text, shorter);
        assert((text + more).drop_last() == text + shorter);
        assert(lines(text).last() + more == (lines(text).last() + shorter).push(more.last()));
    }
}

/// The playlist of one or more stations has one line for each station, in
/// catalog order, and that line is the station's address: so long as no
/// address holds a line end.
pub proof fn lemma_playlist_lines(stations: Seq<StationView>)
    requires
        stations.len() >= 1,
        forall|i: int| 0 <= i < stations.len() ==> !(#[trigger] stations[i]).url.contains('\n'),
    ensures
        lines(playlist_of(stations)) == stations.map_values(|s: StationView| s.url),
    decreases stations.len(),
{
    let address = |s: StationView| s.url;
    let last = stations.last();
    if stations.len() == 1 {
        lemma_lines_append(Seq::empty(), last.url);
        assert(Seq::<char>::empty() + last.url == last.url);
        assert(lines(playlist_of(stations)) == stations.map_values(address));
    } else {
        let rest = stations.drop_last();
        assert forall|i: int| 0 <= i < rest.len() implies !(#[trigger] rest[i]).url.contains(
            '\n',
        ) by {
            assert(rest[i] == stations[i]);
        }
        lemma_playlist_lines(rest);
        let begun = playlist_of(rest) + seq!['\n'];
        assert(begun.drop_last() == playlist_of(rest));
        lemma_lines_append(begun, last.url);
        assert(lines(playlist_of(stations)) == stations.map_values(address));
    }
}

/// The state after `events`, taken one after the other from `s`.
pub open spec fn run(len: usize, s: PlaybackState, events: Seq<Event>) -> PlaybackState
    decreases events.len(),
{
    if events.len() == 0 {
        s
    } else {
        step_state(len, run(len, s, events.drop_last()), events.last())
    }
}

/// The processes whose handle a state holds: one or none.
pub open spec fn held(s: PlaybackState) -> Set<u32> {
    match s.process {
        Some(p) => set![p],
        None => set![],
    }
}

/// The processes that `actions` give up, by waiting or without.
pub open spec fn given_up(actions: Seq<Action>) -> Set<u32> {
    Set::new(|p: u32| actions.contains(Action::Reap(p)) || actions.contains(Action::Release(p)))
}

/// The player processes that are the controller's to look after once
/// `event` has been taken in state `s`, where `live` were before: those, and
/// the one that `event` reports, less those that the actions give up. After
/// quitting nothing changes any more.
pub open spec fn live_after(
    len: usize,
    s: PlaybackState,
    live: Set<u32>,
    event: Event,
) -> Set<u32> {
    if s.terminated {
        live
    } else {
        let with_started = match event {
            Event::PlayerStarted(p) => live.insert(p),
            _ => live,
        };
        with_started.difference(given_up(step_actions(len, s, event)))
    }
}

/// The player processes that are the controller's to look after once
/// `events` have been taken from the initial state.
pub open spec fn live_run(len: usize, events: Seq<Event>) -> Set<u32>
    decreases events.len(),
{
    if events.len() == 0 {
        set![]
    } else {
        live_after(
            len,
            run(len, initial_state(), events.drop_last()),
            live_run(len, events.drop_last()),
            events.last(),
        )
    }
}

/// The state after the user asked for the next station and its player was
/// reported to run as `process`.
pub open spec fn next_played(len: usize, s: PlaybackState, process: u32) -> PlaybackState {
    step_state(len, step_state(len, s, Event::Next), Event::PlayerStarted(process))
}

/// The state after the user asked for the next station once for each of
/// `processes`, each time with a player that was reported to run as that
/// process.
pub open spec fn next_times(len: usize, s: PlaybackState, processes: Seq<u32>) -> PlaybackState
    decreases processes.len(),
{
    if processes.len() == 0 {
        s
    } else {
        next_played(len, next_times(len, s, processes.drop_last()), processes.last())
    }
}

/// Every transition keeps a well-formed state well formed.
pub proof fn lemma_step_well_formed(len: usize, s: PlaybackState, event: Event)
    requires
        well_formed(len, s),
    ensures
        well_formed(len, step_state(len, s, event)),
{
}

/// A transition gives up no process but the one that was held, and after it
/// the processes to look after are again exactly the one that is held.
pub proof fn lemma_step_keeps_one_process(
    len: usize,
    s: PlaybackState,
    live: Set<u32>,
    event: Event,
)
    requires
        live == held(s),
    ensures
        live_after(len, s, live, event) == held(step_state(len, s, event)),
        given_up(step_actions(len, s, event)).subset_of(live),
{
    let actions = step_actions(len, s, event);
    if !s.terminated {
        match (event, s.process) {
            (Event::Stop, Some(p)) => {
                assert(actions[1] == Action::Release(p));
            },
            (Event::Quit, Some(p)) => {
                assert(actions[1] == Action::Release(p));
            },
            (Event::PlayerStarted(q), Some(p)) => {
                if p != q {
                    assert(actions.last() == Action::Reap(p));
                }
            },
            _ => {},
        }
        assert(live_after(len, s, live, event) =~= held(step_state(len, s, event)));
    }
}

/// Whatever has happened since the start, the state is well formed and at
/// most one player process is the controller's to look after: the one whose
/// handle it holds.
pub proof fn lemma_one_tracked_process(len: usize, events: Seq<Event>)
    ensures
        well_formed(len, run(len, initial_state(), events)),
        live_run(len, events) == held(run(len, initial_state(), events)),
        live_run(len, events).finite(),
        live_run(len, events).len() <= 1,
    decreases events.len(),
{
    if events.len() > 0 {
        let before = run(len, initial_state(), events.drop_last());
        lemma_one_tracked_process(len, events.drop_last());
        lemma_step_well_formed(len, before, events.last());
        lemma_step_keeps_one_process(
            len,
            before,
            live_run(len, events.drop_last()),
            events.last(),
        );
    }
}

/// Asking for a station that the catalog does not have leaves nothing
/// playing and nothing asked for, and starts no player.
pub proof fn lemma_select_out_of_range(len: usize, s: PlaybackState, idx: usize)
    requires
        well_formed(len, s),
        idx >= len,
    ensures
        step_state(len, s, Event::Select(idx)).current is None,
        step_state(len, s, Event::Select(idx)).pending is None,
        step_state(len, s, Event::Select(idx)).process == s.process,
        forall|i: usize| !step_actions(len, s, Event::Select(idx)).contains(Action::StartPlayer(i)),
        !s.terminated ==> step_actions(len, s, Event::Select(idx)) == seq![
            Action::SignalStop,
            Action::Report(Diagnostic::NoStation(idx)),
        ],
{
}

/// On an empty catalog, asking for the next station is asking for one that
/// the catalog does not have.
pub proof fn lemma_next_on_empty_catalog(s: PlaybackState)
    requires
        well_formed(0, s),
    ensures
        step_state(0, s, Event::Next) == step_state(0, s, Event::Select(0)),
        step_actions(0, s, Event::Next) == step_actions(0, s, Event::Select(0)),
        step_state(0, s, Event::Next).current is None,
        forall|i: usize| !step_actions(0, s, Event::Next).contains(Action::StartPlayer(i)),
{
}

/// Stopping twice is stopping once: the second time changes nothing, and
/// gives up nothing.
pub proof fn lemma_stop_idempotent(len: usize, s: PlaybackState)
    ensures
        step_state(len, step_state(len, s, Event::Stop), Event::Stop) == step_state(
            len,
            s,
            Event::Stop,
        ),
        given_up(step_actions(len, step_state(len, s, Event::Stop), Event::Stop)) == Set::<
            u32,
        >::empty(),
{
    let once = step_state(len, s, Event::Stop);
    lemma_step_keeps_one_process(len, once, held(once), Event::Stop);
    assert(given_up(step_actions(len, once, Event::Stop)) =~= Set::<u32>::empty());
}

/// Nothing happens after quitting: whatever events follow, the state stays
/// as quitting left it and nothing is demanded.
pub proof fn lemma_quit_absorbing(len: usize, s: PlaybackState, events: Seq<Event>)
    ensures
        step_state(len, s, Event::Quit).terminated,
        run(len, step_state(len, s, Event::Quit), events) == step_state(len, s, Event::Quit),
        forall|event: Event| #[trigger]
            step_actions(len, step_state(len, s, Event::Quit), event) == Seq::<Action>::empty(),
    decreases events.len(),
{
    if events.len() > 0 {
        lemma_quit_absorbing(len, s, events.drop_last());
    }
}

/// The station that plays after asking for the next one `k` times, each time
/// with a player that starts: `k` places after `current`, going round, where
/// the place before the first station stands for none.
pub open spec fn station_after(len: usize, current: Option<usize>, k: nat) -> usize {
    let start: int = match current {
        Some(i) => i as int,
        None => -1,
    };
    ((start + k) % (len as int)) as usize
}

/// Asking for the next station `k` times, for `k` of at least one and each
/// time with a player that starts, leads to the station `k` places on.
pub proof fn lemma_next_advances(len: usize, s: PlaybackState, processes: Seq<u32>)
    requires
        len >= 1,
        well_formed(len, s),
        !s.terminated,
        processes.len() >= 1,
    ensures
        next_times(len, s, processes).current == Some(
            station_after(len, s.current, processes.len()),
        ),
        next_times(len, s, processes).pending is None,
        next_times(len, s, processes).process == Some(processes.last()),
        !next_times(len, s, processes).terminated,
    decreases processes.len(),
{
    let start: int = match s.current {
        Some(i) => i as int,
        None => -1,
    };
    let k: int = processes.len() as int;
    let before = next_times(len, s, processes.drop_last());
    lemma_mod_bound(start + k, len as int);
    if processes.len() == 1 {
        assert(before == s);
        if s.current is None {
            lemma_small_mod(0, len as nat);
        }
    } else {
        lemma_next_advances(len, s, processes.drop_last());
        lemma_mod_bound(start + k - 1, len as int);
        assert(before.current == Some(((start + k - 1) % (len as int)) as usize));
        lemma_add_mod_noop_right(1, start + k - 1, len as int);
    }
    assert(next_target(len, before.current) == station_after(len, s.current, processes.len()));
}

/// Wrap-around: while a station plays, asking for the next one as many times
/// as there are stations leads back to that station.
pub proof fn lemma_next_wraps_around(len: usize, s: PlaybackState, processes: Seq<u32>)
    requires
        well_formed(len, s),
        !s.terminated,
        s.current is Some,
        processes.len() == len,
    ensures
        next_times(len, s, processes).current == s.current,
{
    let i: int = s.current->0 as int;
    lemma_next_advances(len, s, processes);
    lemma_mod_add_multiples_vanish(i, len as int);
    lemma_small_mod(i as nat, len as nat);
}

/// From a state in which nothing plays, asking for the next station once
/// leads to the first station; as many times as there are stations, to the
/// last one, which is the first only where there is one station; and once
/// more, to the first again.
pub proof fn lemma_next_from_idle(len: usize, s: PlaybackState, processes: Seq<u32>)
    requires
        len >= 1,
        well_formed(len, s),
        !s.terminated,
        s.current is None,
        processes.len() >= 1,
    ensures
        processes.len() == 1 ==> next_times(len, s, processes).current == Some(0usize),
        processes.len() == len ==> next_times(len, s, processes).current == Some(
            (len - 1) as usize,
        ),
        processes.len() == len ==> (next_times(len, s, processes).current == Some(0usize) <==> len
            == 1),
        processes.len() == len + 1 ==> next_times(len, s, processes).current == Some(0usize),
{
    lemma_next_advances(len, s, processes);
    if processes.len() == 1 {
    }
    if processes.len() == len {
        lemma_small_mod((len - 1) as nat, len as nat);
    }
    if processes.len() == len + 1 {
        lemma_mod_add_multiples_vanish(0, len as int);
    }
}

} // verus!
