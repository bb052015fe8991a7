//! Which request every line is, by its words.

use crate::command::{command_of, Command, CommandError};
use crate::text::{is_word, parsed, trim, words, words_of_trim};
use crate::text_laws::a_word_is_one_word;
use vstd::prelude::*;

verus! {

/// The line is understood as this request.
pub open spec fn asks_for(line: Seq<char>, command: Command) -> bool {
    command_of(line) == Ok::<Command, CommandError>(command)
}

/// The line is refused for this reason.
pub open spec fn is_refused(line: Seq<char>, error: CommandError) -> bool {
    command_of(line) == Err::<Command, CommandError>(error)
}

/// The first word of the line.
pub open spec fn begins_with(line: Seq<char>, name: Seq<char>) -> bool {
    words(line).len() > 0 && words(line)[0] == name
}

/// The three requests that have to stand alone, as texts that differ.
proof fn lone_names()
    ensures
        words("START_UDP_PING"@) == seq!["START_UDP_PING"@],
        words("SERVER_TIME"@) == seq!["SERVER_TIME"@],
        words("STATUS"@) == seq!["STATUS"@],
{
    reveal_strlit("START_UDP_PING");
    reveal_strlit("SERVER_TIME");
    reveal_strlit("STATUS");
    assert(is_word("START_UDP_PING"@));
    assert(is_word("SERVER_TIME"@));
    assert(is_word("STATUS"@));
    a_word_is_one_word("START_UDP_PING"@);
    a_word_is_one_word("SERVER_TIME"@);
    a_word_is_one_word("STATUS"@);
}

proof fn names()
    ensures
        "START_UDP_PING"@.len() == 14,
        "SERVER_TIME"@.len() == 11,
        "STATUS"@.len() == 6,
        "GET"@.len() == 3,
        "PING"@.len() == 4,
        "START_UDP"@.len() == 9,
        "STOP_UDP"@.len() == 8,
        "SET_VOLUME"@.len() == 10,
        "SET_MUTE"@.len() == 8,
        "SET_MUTE"@[1] == 'E',
        "STOP_UDP"@[1] == 'T',
        "MEDIA_NEXT"@.len() == 10,
        "MEDIA_NEXT"@[0] == 'M',
        "SET_VOLUME"@[0] == 'S',
        "MEDIA_PREVIOUS"@.len() == 14,
        "MEDIA_PREVIOUS"@[0] == 'M',
        "START_UDP_PING"@[0] == 'S',
        "MEDIA_PLAY_PAUSE"@.len() == 16,
{
    reveal_strlit("START_UDP_PING");
    reveal_strlit("SERVER_TIME");
    reveal_strlit("STATUS");
    reveal_strlit("GET");
    reveal_strlit("PING");
    reveal_strlit("START_UDP");
    reveal_strlit("STOP_UDP");
    reveal_strlit("SET_VOLUME");
    reveal_strlit("SET_MUTE");
    reveal_strlit("MEDIA_NEXT");
    reveal_strlit("MEDIA_PREVIOUS");
    reveal_strlit("MEDIA_PLAY_PAUSE");
}

/// A line is what its first word names, whatever white space is around its words and
/// whatever words follow that the request does not need.
pub proof fn first_word_names_the_request(line: Seq<char>)
    ensures
        begins_with(line, "GET"@) ==> asks_for(line, Command::Get),
        begins_with(line, "PING"@) ==> asks_for(line, Command::Ping),
        begins_with(line, "STOP_UDP"@) ==> asks_for(line, Command::StopUdp),
        begins_with(line, "MEDIA_NEXT"@) ==> asks_for(line, Command::MediaNext),
        begins_with(line, "MEDIA_PREVIOUS"@) ==> asks_for(line, Command::MediaPrevious),
        begins_with(line, "MEDIA_PLAY_PAUSE"@) ==> asks_for(line, Command::MediaPlayPause),
{
    names();
    lone_names();
    words_of_trim(line);
}

/// The second word of a session request is its port: a number up to 65535.
pub proof fn session_request_has_a_port(line: Seq<char>, port: u16)
    requires
        begins_with(line, "START_UDP"@),
    ensures
        words(line).len() == 1 ==> is_refused(line, CommandError::MissingUdpPort),
        words(line).len() > 1 && parsed(words(line)[1], 65535) == Some(port as nat) ==> asks_for(
            line,
            Command::StartUdp { port },
        ),
        words(line).len() > 1 && parsed(words(line)[1], 65535) is None ==> is_refused(
            line,
            CommandError::InvalidUdpPort,
        ),
{
    names();
    lone_names();
    words_of_trim(line);
}

/// The second word of a volume request is its volume: a number up to 255.
pub proof fn volume_request_has_a_volume(line: Seq<char>, volume: u8)
    requires
        begins_with(line, "SET_VOLUME"@),
    ensures
        words(line).len() == 1 ==> is_refused(line, CommandError::MissingVolume),
        words(line).len() > 1 && parsed(words(line)[1], 255) == Some(volume as nat) ==> asks_for(
            line,
            Command::SetVolume { volume },
        ),
        words(line).len() > 1 && parsed(words(line)[1], 255) is None ==> is_refused(
            line,
            CommandError::InvalidVolume,
        ),
{
    names();
    lone_names();
    words_of_trim(line);
}

/// The second word of a mute request is 1 to mute and 0 to unmute, and nothing else.
pub proof fn mute_request_has_a_state(line: Seq<char>)
    requires
        begins_with(line, "SET_MUTE"@),
    ensures
        words(line).len() == 1 ==> is_refused(line, CommandError::MissingMute),
        words(line).len() > 1 && words(line)[1] == seq!['1'] ==> asks_for(
            line,
            Command::SetMute { muted: true },
        ),
        words(line).len() > 1 && words(line)[1] == seq!['0'] ==> asks_for(
            line,
            Command::SetMute { muted: false },
        ),
        words(line).len() > 1 && words(line)[1] != seq!['0'] && words(line)[1] != seq!['1']
            ==> is_refused(line, CommandError::InvalidMute),
{
    names();
    lone_names();
    words_of_trim(line);
    reveal_strlit("0");
    reveal_strlit("1");
    assert("0"@ =~= seq!['0']);
    assert("1"@ =~= seq!['1']);
}

/// Three requests stand alone on their line, and are nothing where a word follows.
pub proof fn three_requests_stand_alone(line: Seq<char>)
    ensures
        trim(line) == "START_UDP_PING"@ <==> asks_for(line, Command::StartUdpPing),
        trim(line) == "SERVER_TIME"@ <==> asks_for(line, Command::ServerTime),
        trim(line) == "STATUS"@ <==> asks_for(line, Command::Status),
        words(line).len() != 1 && begins_with(line, "START_UDP_PING"@) ==> is_refused(
            line,
            CommandError::Unknown,
        ),
        words(line).len() != 1 && begins_with(line, "SERVER_TIME"@) ==> is_refused(
            line,
            CommandError::Unknown,
        ),
        words(line).len() != 1 && begins_with(line, "STATUS"@) ==> is_refused(
            line,
            CommandError::Unknown,
        ),
{
    names();
    lone_names();
    words_of_trim(line);
}

/// A line without words, or whose first word is no request, is refused as unknown;
/// requests are written in capitals.
pub proof fn other_lines_are_unknown(line: Seq<char>)
    requires
        !begins_with(line, "START_UDP_PING"@),
        !begins_with(line, "SERVER_TIME"@),
        !begins_with(line, "STATUS"@),
        !begins_with(line, "GET"@),
        !begins_with(line, "PING"@),
        !begins_with(line, "START_UDP"@),
        !begins_with(line, "STOP_UDP"@),
        !begins_with(line, "SET_VOLUME"@),
        !begins_with(line, "SET_MUTE"@),
        !begins_with(line, "MEDIA_NEXT"@),
        !begins_with(line, "MEDIA_PREVIOUS"@),
        !begins_with(line, "MEDIA_PLAY_PAUSE"@),
    ensures
        is_refused(line, CommandError::Unknown),
{
    lone_names();
    words_of_trim(line);
}

} // verus!
