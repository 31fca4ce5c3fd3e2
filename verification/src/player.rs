//! The two programs that the radio runs: the player, and the one that tells
//! a running player to stop.

use crate::text::decimal;
use crate::text::decimal_string;
use vstd::prelude::*;

verus! {

/// The views of a list of strings.
pub open spec fn texts(words: Seq<String>) -> Seq<Seq<char>> {
    words.map_values(|word: String| word@)
}

/// The arguments that start the player on the station at `idx` of the
/// playlist named in `playlist_arg`, going round the playlist for ever.
pub open spec fn player_arguments_of(playlist_arg: Seq<char>, idx: usize) -> Seq<Seq<char>> {
    seq![playlist_arg, "--playlist-start="@ + decimal(idx as nat), "--loop-playlist"@]
}

/// The program that plays a station.
pub fn player_program() -> (program: String)
    ensures
        program@ == "mpv"@,
{
    String::from_str("mpv")
}

/// The arguments to start the player with on the station at `idx` of the
/// playlist that `playlist_arg` names.
pub fn player_arguments(playlist_arg: &str, idx: usize) -> (arguments: Vec<String>)
    ensures
        texts(arguments@) == player_arguments_of(playlist_arg@, idx),
{
    let mut start = String::from_str("--playlist-start=");
    let number = decimal_string(idx);
    start.append(number.as_str());
    let mut arguments: Vec<String> = Vec::new();
    arguments.push(String::from_str(playlist_arg));
    arguments.push(start);
    arguments.push(String::from_str("--loop-playlist"));
    assert(texts(arguments@) =~= player_arguments_of(playlist_arg@, idx));
    arguments
}

/// The command that tells the running player to stop: the program, then its
/// arguments. It fails where no player runs, which is no fault.
pub fn stop_command() -> (command: Vec<String>)
    ensures
        texts(command@) == seq!["playerctl"@, "--player=mpv"@, "stop"@],
{
    let mut command: Vec<String> = Vec::new();
    command.push(String::from_str("playerctl"));
    command.push(String::from_str("--player=mpv"));
    command.push(String::from_str("stop"));
    assert(texts(command@) =~= seq!["playerctl"@, "--player=mpv"@, "stop"@]);
    command
}

} // verus!
