//! The lines that a client sends to the control port.

use crate::text::{
    chars_of, decimal, decimal_is_word, is_blank, is_word, parse_number, parsed, parsed_of_decimal,
    same_text, split_words, trim, trim_of_padded, trimmed, word_views, words, words_of_two,
};
use vstd::prelude::*;

verus! {

/// A request of a client.
#[derive(Clone, Copy, PartialEq, Eq, Structural)]
pub enum Command {
    StartUdpPing,
    ServerTime,
    Status,
    Get,
    Ping,
    StartUdp { port: u16 },
    StopUdp,
    SetVolume { volume: u8 },
    SetMute { muted: bool },
    MediaNext,
    MediaPrevious,
    MediaPlayPause,
}

/// Why a line is no request.
#[derive(Clone, Copy, PartialEq, Eq, Structural)]
pub enum CommandError {
    MissingUdpPort,
    InvalidUdpPort,
    MissingVolume,
    InvalidVolume,
    MissingMute,
    InvalidMute,
    Unknown,
}

impl CommandError {
    /// The text that a client is given.
    pub open spec fn text(self) -> Seq<char> {
        match self {
            CommandError::MissingUdpPort => "START_UDP requires a UDP port"@,
            CommandError::InvalidUdpPort => "invalid UDP port"@,
            CommandError::MissingVolume => "SET_VOLUME requires a 0-100 value"@,
            CommandError::InvalidVolume => "invalid volume value"@,
            CommandError::MissingMute => "SET_MUTE requires 0 or 1"@,
            CommandError::InvalidMute => "invalid mute value"@,
            CommandError::Unknown => "unknown command"@,
        }
    }

    pub fn message(&self) -> (r: &'static str)
        ensures
            r@ == self.text(),
    {
        match self {
            CommandError::MissingUdpPort => "START_UDP requires a UDP port",
            CommandError::InvalidUdpPort => "invalid UDP port",
            CommandError::MissingVolume => "SET_VOLUME requires a 0-100 value",
            CommandError::InvalidVolume => "invalid volume value",
            CommandError::MissingMute => "SET_MUTE requires 0 or 1",
            CommandError::InvalidMute => "invalid mute value",
            CommandError::Unknown => "unknown command",
        }
    }
}

/// The word at `i`, where there is one.
pub open spec fn argument(list: Seq<Seq<char>>, i: int) -> Option<Seq<char>> {
    if 0 <= i < list.len() {
        Some(list[i])
    } else {
        None
    }
}

/// The port of a session request.
pub open spec fn udp_port(argument: Option<Seq<char>>) -> Result<Command, CommandError> {
    match argument {
        None => Err(CommandError::MissingUdpPort),
        Some(word) => match parsed(word, u16::MAX as nat) {
            Some(port) => Ok(Command::StartUdp { port: port as u16 }),
            None => Err(CommandError::InvalidUdpPort),
        },
    }
}

/// The volume of a volume request.
pub open spec fn volume(argument: Option<Seq<char>>) -> Result<Command, CommandError> {
    match argument {
        None => Err(CommandError::MissingVolume),
        Some(word) => match parsed(word, u8::MAX as nat) {
            Some(volume) => Ok(Command::SetVolume { volume: volume as u8 }),
            None => Err(CommandError::InvalidVolume),
        },
    }
}

/// The state of a mute request.
pub open spec fn mute(argument: Option<Seq<char>>) -> Result<Command, CommandError> {
    match argument {
        None => Err(CommandError::MissingMute),
        Some(word) => if word == "0"@ {
            Ok(Command::SetMute { muted: false })
        } else if word == "1"@ {
            Ok(Command::SetMute { muted: true })
        } else {
            Err(CommandError::InvalidMute)
        },
    }
}

/// A request that is told by its first word; words that it does not need are ignored.
pub open spec fn worded_command(list: Seq<Seq<char>>) -> Result<Command, CommandError> {
    let name = argument(list, 0);
    if name == Some("GET"@) {
        Ok(Command::Get)
    } else if name == Some("PING"@) {
        Ok(Command::Ping)
    } else if name == Some("START_UDP"@) {
        udp_port(argument(list, 1))
    } else if name == Some("STOP_UDP"@) {
        Ok(Command::StopUdp)
    } else if name == Some("SET_VOLUME"@) {
        volume(argument(list, 1))
    } else if name == Some("SET_MUTE"@) {
        mute(argument(list, 1))
    } else if name == Some("MEDIA_NEXT"@) {
        Ok(Command::MediaNext)
    } else if name == Some("MEDIA_PREVIOUS"@) {
        Ok(Command::MediaPrevious)
    } else if name == Some("MEDIA_PLAY_PAUSE"@) {
        Ok(Command::MediaPlayPause)
    } else {
        Err(CommandError::Unknown)
    }
}

/// The request in a line. Three of them must stand alone on it.
pub open spec fn command_of(line: Seq<char>) -> Result<Command, CommandError> {
    let text = trim(line);
    if text == "START_UDP_PING"@ {
        Ok(Command::StartUdpPing)
    } else if text == "SERVER_TIME"@ {
        Ok(Command::ServerTime)
    } else if text == "STATUS"@ {
        Ok(Command::Status)
    } else {
        worded_command(words(text))
    }
}

fn word_at(list: &Vec<Vec<char>>, i: usize) -> (r: Option<&Vec<char>>)
    ensures
        (match r {
            Some(word) => Some(word@),
            None => None,
        }) == argument(word_views(list@), i as int),
{
    if i < list.len() {
        Some(&list[i])
    } else {
        None
    }
}

fn parse_udp_port(argument: Option<&Vec<char>>) -> (r: Result<Command, CommandError>)
    ensures
        r == udp_port(
            match argument {
                Some(word) => Some(word@),
                None => None,
            },
        ),
{
    match argument {
        None => Err(CommandError::MissingUdpPort),
        Some(word) => match parse_number(word.as_slice(), 65535) {
            Some(port) => Ok(Command::StartUdp { port: port as u16 }),
            None => Err(CommandError::InvalidUdpPort),
        },
    }
}

fn parse_volume(argument: Option<&Vec<char>>) -> (r: Result<Command, CommandError>)
    ensures
        r == volume(
            match argument {
                Some(word) => Some(word@),
                None => None,
            },
        ),
{
    match argument {
        None => Err(CommandError::MissingVolume),
        Some(word) => match parse_number(word.as_slice(), 255) {
            Some(volume) => Ok(Command::SetVolume { volume: volume as u8 }),
            None => Err(CommandError::InvalidVolume),
        },
    }
}

fn parse_mute(argument: Option<&Vec<char>>) -> (r: Result<Command, CommandError>)
    ensures
        r == mute(
            match argument {
                Some(word) => Some(word@),
                None => None,
            },
        ),
{
    match argument {
        None => Err(CommandError::MissingMute),
        Some(word) => if same_text(word.as_slice(), "0") {
            Ok(Command::SetMute { muted: false })
        } else if same_text(word.as_slice(), "1") {
            Ok(Command::SetMute { muted: true })
        } else {
            Err(CommandError::InvalidMute)
        },
    }
}

fn parse_worded(list: &Vec<Vec<char>>) -> (r: Result<Command, CommandError>)
    ensures
        r == worded_command(word_views(list@)),
{
    let name: &Vec<char> = match word_at(list, 0) {
        Some(word) => word,
        None => {
            return Err(CommandError::Unknown);
        },
    };
    if same_text(name.as_slice(), "GET") {
        Ok(Command::Get)
    } else if same_text(name.as_slice(), "PING") {
        Ok(Command::Ping)
    } else if same_text(name.as_slice(), "START_UDP") {
        parse_udp_port(word_at(list, 1))
    } else if same_text(name.as_slice(), "STOP_UDP") {
        Ok(Command::StopUdp)
    } else if same_text(name.as_slice(), "SET_VOLUME") {
        parse_volume(word_at(list, 1))
    } else if same_text(name.as_slice(), "SET_MUTE") {
        parse_mute(word_at(list, 1))
    } else if same_text(name.as_slice(), "MEDIA_NEXT") {
        Ok(Command::MediaNext)
    } else if same_text(name.as_slice(), "MEDIA_PREVIOUS") {
        Ok(Command::MediaPrevious)
    } else if same_text(name.as_slice(), "MEDIA_PLAY_PAUSE") {
        Ok(Command::MediaPlayPause)
    } else {
        Err(CommandError::Unknown)
    }
}

/// Reads the request in a line.
pub fn parse_command(line: &str) -> (r: Result<Command, CommandError>)
    ensures
        r == command_of(line@),
{
    let chars: Vec<char> = chars_of(line);
    let text: Vec<char> = trimmed(chars.as_slice());
    if same_text(text.as_slice(), "START_UDP_PING") {
        Ok(Command::StartUdpPing)
    } else if same_text(text.as_slice(), "SERVER_TIME") {
        Ok(Command::ServerTime)
    } else if same_text(text.as_slice(), "STATUS") {
        Ok(Command::Status)
    } else {
        let list: Vec<Vec<char>> = split_words(text.as_slice());
        parse_worded(&list)
    }
}

/// White space around a request, such as the end of its line, does not change it.
pub proof fn padding_is_ignored(before: Seq<char>, line: Seq<char>, after: Seq<char>)
    requires
        is_blank(before),
        is_blank(after),
    ensures
        command_of(before + line + after) == command_of(line),
{
    trim_of_padded(before, line, after);
}

proof fn command_with_argument(name: Seq<char>, word: Seq<char>)
    requires
        is_word(name),
        is_word(word),
    ensures
        command_of(name + seq![' '] + word) == worded_command(seq![name, word]),
{
    let line = name + seq![' '] + word;
    words_of_two(name, word);
    reveal_strlit("START_UDP_PING");
    reveal_strlit("SERVER_TIME");
    reveal_strlit("STATUS");
    let at = name.len() as int;
    assert(line[at] == ' ');
}

/// Every UDP port can be asked for.
pub proof fn every_port_is_understood(port: u16)
    ensures
        command_of("START_UDP"@ + seq![' '] + decimal(port as nat)) == Ok::<Command, CommandError>(
            Command::StartUdp { port },
        ),
{
    reveal_strlit("GET");
    reveal_strlit("PING");
    reveal_strlit("START_UDP");
    decimal_is_word(port as nat);
    parsed_of_decimal(port as nat, u16::MAX as nat);
    command_with_argument("START_UDP"@, decimal(port as nat));
    assert("START_UDP"@.len() != "GET"@.len() && "START_UDP"@.len() != "PING"@.len());
}

/// Every volume can be asked for.
pub proof fn every_volume_is_understood(volume: u8)
    ensures
        command_of("SET_VOLUME"@ + seq![' '] + decimal(volume as nat)) == Ok::<
            Command,
            CommandError,
        >(Command::SetVolume { volume }),
{
    reveal_strlit("GET");
    reveal_strlit("PING");
    reveal_strlit("START_UDP");
    reveal_strlit("STOP_UDP");
    reveal_strlit("SET_VOLUME");
    decimal_is_word(volume as nat);
    parsed_of_decimal(volume as nat, u8::MAX as nat);
    command_with_argument("SET_VOLUME"@, decimal(volume as nat));
    assert("SET_VOLUME"@.len() == 10);
    assert("GET"@.len() == 3 && "PING"@.len() == 4);
    assert("START_UDP"@.len() == 9 && "STOP_UDP"@.len() == 8);
}

} // verus!
