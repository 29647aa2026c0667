use vstd::prelude::*;

use vstd::string::*;

use crate::error::{ApplicationError, ApplicationResult, ErrorView};
use crate::opcodes::{Command, CommandView, Opcode, OpcodeMeta};
use crate::text::{
    decimal, i32_to_string, lowercase_of, parse_i32, spec_parse_i32, split_char, split_spec,
    str_equal, strings_view, to_lowercase,
};

verus! {

/// The game releases whose chart scripts the library handles.
#[derive(Clone, Copy, Debug, PartialEq, Eq, Structural)]
pub enum Game {
    F,
    F2nd,
    X,
    FutureTone,
    Arcade,
}

/// The display name of a release.
pub open spec fn game_name(game: Game) -> Seq<char> {
    match game {
        Game::F => "F"@,
        Game::F2nd => "F2nd"@,
        Game::X => "X"@,
        Game::FutureTone => "Future Tone"@,
        Game::Arcade => "Arcade"@,
    }
}

impl Game {
    /// The display name of this release.
    pub fn to_string(&self) -> (r: String)
        ensures
            r@ == game_name(*self),
    {
        let name = match self {
            Game::F => "F",
            Game::F2nd => "F2nd",
            Game::X => "X",
            Game::FutureTone => "Future Tone",
            Game::Arcade => "Arcade",
        };
        String::from_str(name)
    }
}

/// The release that a lower-case name denotes on the command line.
pub open spec fn game_named(s: Seq<char>) -> Option<Game> {
    if s == "f"@ {
        Some(Game::F)
    } else if s == "f2"@ || s == "f2nd"@ || s == "f 2nd"@ {
        Some(Game::F2nd)
    } else if s == "x"@ {
        Some(Game::X)
    } else if s == "ft"@ || s == "futuretone"@ || s == "future tone"@ {
        Some(Game::FutureTone)
    } else if s == "arcade"@ || s == "aft"@ {
        Some(Game::Arcade)
    } else {
        None
    }
}

impl Game {
    /// The release that `name` denotes, in any case.
    pub fn from_name(name: &str) -> (r: Option<Game>)
        ensures
            r == game_named(lowercase_of(name@)),
    {
        let lower = to_lowercase(name);
        Self::from_lowercase_name(lower.as_str())
    }

    /// The release that the lower-case `name` denotes.
    pub fn from_lowercase_name(name: &str) -> (r: Option<Game>)
        ensures
            r == game_named(name@),
    {
        if str_equal(name, "f") {
            Some(Game::F)
        } else if str_equal(name, "f2") || str_equal(name, "f2nd") || str_equal(name, "f 2nd") {
            Some(Game::F2nd)
        } else if str_equal(name, "x") {
            Some(Game::X)
        } else if str_equal(name, "ft") || str_equal(name, "futuretone") || str_equal(name, "future tone") {
            Some(Game::FutureTone)
        } else if str_equal(name, "arcade") || str_equal(name, "aft") {
            Some(Game::Arcade)
        } else {
            None
        }
    }
}

/// The difficulties that have a challenge time.
#[derive(Clone, Copy, Debug, PartialEq, Eq, Structural)]
pub enum ChallengeTimeDifficulty {
    Easy,
    Normal,
}

/// A challenge time: a difficulty and a range, in milliseconds.
#[derive(Clone, Copy, Debug, PartialEq, Eq, Structural)]
pub struct ChallengeTime {
    pub difficulty: ChallengeTimeDifficulty,
    pub start: i32,
    pub end: i32,
}

/// The difficulty that a lower-case name denotes.
pub open spec fn difficulty_named(s: Seq<char>) -> Option<ChallengeTimeDifficulty> {
    if s == "easy"@ {
        Some(ChallengeTimeDifficulty::Easy)
    } else if s == "normal"@ {
        Some(ChallengeTimeDifficulty::Normal)
    } else {
        None
    }
}

/// The display name of a difficulty.
pub open spec fn difficulty_name(d: ChallengeTimeDifficulty) -> Seq<char> {
    match d {
        ChallengeTimeDifficulty::Easy => "Easy"@,
        ChallengeTimeDifficulty::Normal => "Normal"@,
    }
}

impl ChallengeTimeDifficulty {
    /// The difficulty named by `difficulty`, in any case.
    pub fn from_string(difficulty: &str) -> (r: Option<Self>)
        ensures
            r == difficulty_named(lowercase_of(difficulty@)),
    {
        let lower = to_lowercase(difficulty);
        Self::from_lowercase(lower.as_str())
    }

    /// The difficulty named by the lower-case `name`.
    pub fn from_lowercase(name: &str) -> (r: Option<Self>)
        ensures
            r == difficulty_named(name@),
    {
        if str_equal(name, "easy") {
            Some(ChallengeTimeDifficulty::Easy)
        } else if str_equal(name, "normal") {
            Some(ChallengeTimeDifficulty::Normal)
        } else {
            None
        }
    }

    /// The difficulty at position `difficulty` of the list Easy, Normal.
    pub fn from_integer(difficulty: usize) -> (r: Option<Self>)
        ensures
            difficulty == 0 ==> r == Some(ChallengeTimeDifficulty::Easy),
            difficulty == 1 ==> r == Some(ChallengeTimeDifficulty::Normal),
            difficulty > 1 ==> r is None,
    {
        match difficulty {
            0 => Some(ChallengeTimeDifficulty::Easy),
            1 => Some(ChallengeTimeDifficulty::Normal),
            _ => None,
        }
    }

    /// The display name of this difficulty.
    pub fn to_string(&self) -> (r: String)
        ensures
            r@ == difficulty_name(*self),
    {
        match self {
            ChallengeTimeDifficulty::Easy => String::from_str("Easy"),
            ChallengeTimeDifficulty::Normal => String::from_str("Normal"),
        }
    }
}

/// The milliseconds that a challenge timestamp `MM:SS.mmm` denotes: minutes
/// in 0..=99, seconds in 0..=59 and milliseconds in 0..=999, each a decimal
/// integer; `None` for any other text.
pub open spec fn timestamp_millis(s: Seq<char>) -> Option<int> {
    let parts = split_spec(s, '.');
    let clock = split_spec(parts[0], ':');
    if parts.len() != 2 || clock.len() != 2 {
        None
    } else {
        match (spec_parse_i32(clock[0]), spec_parse_i32(clock[1]), spec_parse_i32(parts[1])) {
            (Some(m), Some(sec), Some(ms)) => if 0 <= m <= 99 && 0 <= sec <= 59 && 0 <= ms <= 999 {
                Some(m * 60000 + sec * 1000 + ms)
            } else {
                None
            },
            _ => None,
        }
    }
}

/// Reads a challenge timestamp `MM:SS.mmm` as milliseconds.
pub fn parse_challenge_time_timestamp(timestamp: &str) -> (r: ApplicationResult<i32>)
    ensures
        match timestamp_millis(timestamp@) {
            Some(v) => r == Ok::<i32, ApplicationError>(v as i32),
            None => r matches Err(e) && e@ == ErrorView::InvalidTimestamp(timestamp@),
        },
{
    let components = split_char(timestamp, '.');
    proof {
        assert(strings_view(components@)[0] == components@[0]@);
    }
    if components.len() != 2 {
        return Err(ApplicationError::InvalidTimestamp(timestamp.to_owned()));
    }
    let minutes_and_seconds = split_char(components[0].as_str(), ':');
    if minutes_and_seconds.len() != 2 {
        return Err(ApplicationError::InvalidTimestamp(timestamp.to_owned()));
    }
    proof {
        assert(strings_view(components@)[1] == components@[1]@);
        assert(strings_view(minutes_and_seconds@)[0] == minutes_and_seconds@[0]@);
        assert(strings_view(minutes_and_seconds@)[1] == minutes_and_seconds@[1]@);
    }
    let minutes = parse_i32(minutes_and_seconds[0].as_str());
    let seconds = parse_i32(minutes_and_seconds[1].as_str());
    let milliseconds = parse_i32(components[1].as_str());
    match (minutes, seconds, milliseconds) {
        (Some(m), Some(s), Some(ms)) => {
            if m < 0 || m > 99 || s < 0 || s > 59 || ms < 0 || ms > 999 {
                Err(ApplicationError::InvalidTimestamp(timestamp.to_owned()))
            } else {
                Ok(m * 60 * 1000 + s * 1000 + ms)
            }
        },
        _ => Err(ApplicationError::InvalidTimestamp(timestamp.to_owned())),
    }
}

/// The display text of a challenge time: `start -> end (Name difficulty)`.
pub open spec fn challenge_text(ct: ChallengeTime) -> Seq<char> {
    decimal(ct.start as int) + " -> "@ + decimal(ct.end as int) + " ("@ + difficulty_name(ct.difficulty)
        + " difficulty)"@
}

impl ChallengeTime {
    pub fn new(start: i32, end: i32, difficulty: ChallengeTimeDifficulty) -> (r: Self)
        ensures
            r == (ChallengeTime { difficulty, start, end }),
    {
        ChallengeTime { start, end, difficulty }
    }

    /// Reads a challenge time from its two timestamps, `MM:SS.mmm` each.
    pub fn build(start_str: String, end_str: String, difficulty: ChallengeTimeDifficulty) -> (r:
        ApplicationResult<Self>)
        ensures
            match (timestamp_millis(start_str@), timestamp_millis(end_str@)) {
                (Some(s), Some(e)) => r == Ok::<ChallengeTime, ApplicationError>(
                    ChallengeTime { difficulty, start: s as i32, end: e as i32 },
                ),
                (None, _) => r matches Err(err) && err@ == ErrorView::InvalidTimestamp(start_str@),
                (Some(_), None) => r matches Err(err) && err@ == ErrorView::InvalidTimestamp(end_str@),
            },
    {
        let start = match parse_challenge_time_timestamp(start_str.as_str()) {
            Ok(v) => v,
            Err(_) => {
                return Err(ApplicationError::InvalidTimestamp(start_str));
            },
        };
        let end = match parse_challenge_time_timestamp(end_str.as_str()) {
            Ok(v) => v,
            Err(_) => {
                return Err(ApplicationError::InvalidTimestamp(end_str));
            },
        };
        Ok(Self::new(start, end, difficulty))
    }

    /// The display text of this challenge time.
    pub fn to_string(&self) -> (r: String)
        ensures
            r@ == challenge_text(*self),
    {
        let mut out = i32_to_string(self.start);
        out.append(" -> ");
        let end = i32_to_string(self.end);
        out.append(end.as_str());
        out.append(" (");
        let name = self.difficulty.to_string();
        out.append(name.as_str());
        out.append(" difficulty)");
        out
    }
}

/// A subtitle time, as a signed number of milliseconds.
#[derive(Clone, Copy, Debug, PartialEq, Eq, Structural)]
pub struct Timestamp {
    pub msecs: i64,
}

impl Timestamp {
    /// Whether the time, in ticks of a hundredth of a millisecond, fits in
    /// 32 bits.
    pub open spec fn fits(&self) -> bool {
        -21474836 <= self.msecs <= 21474836
    }

    pub fn new(msecs: i64) -> (r: Self)
        ensures
            r == (Timestamp { msecs }),
    {
        Timestamp { msecs }
    }
}

/// The milliseconds of a subtitle time.
pub open spec fn millis_of(ts: Timestamp) -> int {
    ts.msecs as int
}

/// The milliseconds of a subtitle time, as a 32-bit number.
pub fn timestamp_to_millis(ts: Timestamp) -> (r: i32)
    requires
        ts.fits(),
    ensures
        r == millis_of(ts),
{
    ts.msecs as i32
}

/// The identity of the time marker, as every release numbers it.
pub open spec fn time_meta() -> OpcodeMeta {
    OpcodeMeta { id: 1, opcode: Opcode::TIME, param_count: 1 }
}

/// The identity of the lyric command.
pub open spec fn lyric_meta() -> OpcodeMeta {
    OpcodeMeta { id: 24, opcode: Opcode::LYRIC, param_count: 2 }
}

/// The time marker `TIME(time)`.
pub open spec fn time_view(time: i32) -> CommandView {
    CommandView { meta: time_meta(), args: seq![time] }
}

/// The lyric command `LYRIC(idx, mode)`.
pub open spec fn lyric_view(idx: i32, mode: i32) -> CommandView {
    CommandView { meta: lyric_meta(), args: seq![idx, mode] }
}

/// Builds the time marker `TIME(time)`.
pub fn get_time_command(time: i32) -> (r: Command)
    ensures
        r@ == time_view(time),
{
    let mut args: Vec<i32> = Vec::new();
    args.push(time);
    assert(args@ =~= seq![time]);
    Command::new(OpcodeMeta::new(1, Opcode::TIME, 1), args)
}

/// Builds the lyric command `LYRIC(idx, mode)`.
pub fn get_lyric_command(idx: i32, mode: i32) -> (r: Command)
    ensures
        r@ == lyric_view(idx, mode),
{
    let mut args: Vec<i32> = Vec::new();
    args.push(idx);
    args.push(mode);
    assert(args@ =~= seq![idx, mode]);
    Command::new(OpcodeMeta::new(24, Opcode::LYRIC, 2), args)
}

/// The challenge time given by its three options: none unless all three are
/// given; then the difficulty is read first, then the two timestamps.
pub fn get_challenge_time_object(
    ct_start: Option<String>,
    ct_end: Option<String>,
    difficulty: Option<String>,
) -> (r: ApplicationResult<Option<ChallengeTime>>)
    ensures
        match (ct_start, ct_end, difficulty) {
            (Some(s), Some(e), Some(d)) => match difficulty_named(lowercase_of(d@)) {
                None => r matches Err(err) && err@ == ErrorView::InvalidDifficultyString(d@),
                Some(level) => match (timestamp_millis(s@), timestamp_millis(e@)) {
                    (Some(a), Some(b)) => r == Ok::<Option<ChallengeTime>, ApplicationError>(
                        Some(ChallengeTime { difficulty: level, start: a as i32, end: b as i32 }),
                    ),
                    (None, _) => r matches Err(err) && err@ == ErrorView::InvalidTimestamp(s@),
                    (Some(_), None) => r matches Err(err) && err@ == ErrorView::InvalidTimestamp(e@),
                },
            },
            _ => r == Ok::<Option<ChallengeTime>, ApplicationError>(None),
        },
{
    match (ct_start, ct_end, difficulty) {
        (Some(start_str), Some(end_str), Some(difficulty_str)) => {
            match ChallengeTimeDifficulty::from_string(difficulty_str.as_str()) {
                Some(level) => match ChallengeTime::build(start_str, end_str, level) {
                    Ok(challenge_time) => Ok(Some(challenge_time)),
                    Err(e) => Err(e),
                },
                None => Err(ApplicationError::InvalidDifficultyString(difficulty_str)),
            }
        },
        _ => Ok(None),
    }
}

} // verus!
