//! What the user of a node types: the commands of a leader and the name of a
//! node.

use crate::text::{decimal, i64_value, parse_i64, push_decimal, split_words, words};
use vstd::prelude::*;

verus! {

/// Delay of `start` if none is given, in milliseconds.
pub const DEFAULT_START_DELAY_MS: i64 = 2000;

/// Delay of `stop` if none is given, in milliseconds.
pub const DEFAULT_STOP_DELAY_MS: i64 = 1000;

/// A line that the user of a leader typed.
#[derive(Debug)]
pub enum LeaderCommand {
    /// `start [delay_ms]`
    Start { delay_ms: i64 },
    /// `stop [delay_ms]`
    Stop { delay_ms: i64 },
    /// `peers`
    Peers,
    /// `quit`
    Quit,
    /// Any other word
    Unknown { word: String },
}

/// A [`LeaderCommand`] with its word as a sequence of characters.
pub enum LeaderCommandView {
    Start { delay_ms: i64 },
    Stop { delay_ms: i64 },
    Peers,
    Quit,
    Unknown { word: Seq<char> },
}

impl View for LeaderCommand {
    type V = LeaderCommandView;

    open spec fn view(&self) -> LeaderCommandView {
        match *self {
            LeaderCommand::Start { delay_ms } => LeaderCommandView::Start { delay_ms },
            LeaderCommand::Stop { delay_ms } => LeaderCommandView::Stop { delay_ms },
            LeaderCommand::Peers => LeaderCommandView::Peers,
            LeaderCommand::Quit => LeaderCommandView::Quit,
            LeaderCommand::Unknown { word } => LeaderCommandView::Unknown { word: word@ },
        }
    }
}

/// The delay that the second word gives, if it is a number.
pub open spec fn delay_of(line: Seq<Seq<char>>, default: i64) -> i64 {
    if line.len() < 2 {
        default
    } else {
        match i64_value(line[1]) {
            Some(delay) => delay,
            None => default,
        }
    }
}

/// The command that the words of a line stand for. The first word names it;
/// words that are not needed are ignored. An empty line stands for none.
pub open spec fn command_of(line: Seq<Seq<char>>) -> Option<LeaderCommandView> {
    if line.len() == 0 {
        None
    } else if line[0] == "start"@ {
        Some(LeaderCommandView::Start { delay_ms: delay_of(line, DEFAULT_START_DELAY_MS) })
    } else if line[0] == "stop"@ {
        Some(LeaderCommandView::Stop { delay_ms: delay_of(line, DEFAULT_STOP_DELAY_MS) })
    } else if line[0] == "peers"@ {
        Some(LeaderCommandView::Peers)
    } else if line[0] == "quit"@ {
        Some(LeaderCommandView::Quit)
    } else {
        Some(LeaderCommandView::Unknown { word: line[0] })
    }
}

fn delay_or(parts: &Vec<String>, default: i64) -> (r: i64)
    ensures
        r == delay_of(parts@.map_values(|w: String| w@), default),
{
    if parts.len() < 2 {
        return default;
    }
    match parse_i64(parts[1].as_str()) {
        Some(delay) => delay,
        None => default,
    }
}

/// Reads a line; `None` if it is blank.
pub fn parse_leader_command(line: &str) -> (r: Option<LeaderCommand>)
    ensures
        match r {
            Some(command) => command_of(words(line@)) == Some(command@),
            None => command_of(words(line@)) is None,
        },
{
    let parts: Vec<String> = split_words(line);
    let ghost model = parts@.map_values(|w: String| w@);
    if parts.len() == 0 {
        return None;
    }
    let word: String = parts[0].clone();
    assert(word@ == model[0]);
    if word == "start".to_owned() {
        Some(LeaderCommand::Start { delay_ms: delay_or(&parts, DEFAULT_START_DELAY_MS) })
    } else if word == "stop".to_owned() {
        Some(LeaderCommand::Stop { delay_ms: delay_or(&parts, DEFAULT_STOP_DELAY_MS) })
    } else if word == "peers".to_owned() {
        Some(LeaderCommand::Peers)
    } else if word == "quit".to_owned() {
        Some(LeaderCommand::Quit)
    } else {
        Some(LeaderCommand::Unknown { word })
    }
}

/// The name of a node: the one given, or else one made from its process id.
pub fn node_name(given: Option<String>, process_id: u32) -> (r: String)
    ensures
        r@ == match given {
            Some(name) => name@,
            None => "node-"@ + decimal(process_id as nat),
        },
{
    match given {
        Some(name) => name,
        None => {
            let mut name: String = "node-".to_owned();
            push_decimal(&mut name, process_id);
            name
        },
    }
}

} // verus!
