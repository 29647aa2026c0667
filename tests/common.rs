use dsc_merger::common::{
    get_challenge_time_object, get_lyric_command, get_time_command, parse_challenge_time_timestamp, ChallengeTime,
    ChallengeTimeDifficulty, Game,
};
use dsc_merger::error::ApplicationError;
use dsc_merger::opcodes::{opcode_name, Command, Opcode, OpcodeMeta};
use dsc_merger::text::{parse_i32, split_char, zero_pad3};

#[test]
fn timestamp_parsing() {
    assert_eq!(parse_challenge_time_timestamp("01:02.003"), Ok(62003));
    assert_eq!(parse_challenge_time_timestamp("99:59.999"), Ok(5999999));
    assert_eq!(parse_challenge_time_timestamp("00:00.0"), Ok(0));
    for bad in ["1:60.000", "100:00.000", "00:00.1000", "00:00", "00.00.000", "a:00.000", "00:00:00.000", "-1:00.000", ""] {
        assert_eq!(
            parse_challenge_time_timestamp(bad),
            Err(ApplicationError::InvalidTimestamp(bad.to_string()))
        );
    }
}

#[test]
fn challenge_time_build() {
    let ct = ChallengeTime::build("00:10.000".to_string(), "00:20.500".to_string(), ChallengeTimeDifficulty::Easy)
        .unwrap();
    assert_eq!(ct, ChallengeTime::new(10000, 20500, ChallengeTimeDifficulty::Easy));
    assert_eq!(ct.to_string(), "10000 -> 20500 (Easy difficulty)");
    let r = ChallengeTime::build("x".to_string(), "y".to_string(), ChallengeTimeDifficulty::Normal);
    assert_eq!(r, Err(ApplicationError::InvalidTimestamp("x".to_string())));
    let r = ChallengeTime::build("00:01.000".to_string(), "y".to_string(), ChallengeTimeDifficulty::Normal);
    assert_eq!(r, Err(ApplicationError::InvalidTimestamp("y".to_string())));
}

#[test]
fn difficulty_names() {
    assert_eq!(ChallengeTimeDifficulty::from_string("EASY"), Some(ChallengeTimeDifficulty::Easy));
    assert_eq!(ChallengeTimeDifficulty::from_string("Normal"), Some(ChallengeTimeDifficulty::Normal));
    assert_eq!(ChallengeTimeDifficulty::from_string("hard"), None);
    assert_eq!(ChallengeTimeDifficulty::from_lowercase("Easy"), None);
    assert_eq!(ChallengeTimeDifficulty::from_integer(0), Some(ChallengeTimeDifficulty::Easy));
    assert_eq!(ChallengeTimeDifficulty::from_integer(1), Some(ChallengeTimeDifficulty::Normal));
    assert_eq!(ChallengeTimeDifficulty::from_integer(2), None);
    assert_eq!(ChallengeTimeDifficulty::Normal.to_string(), "Normal");
}

#[test]
fn game_names() {
    assert_eq!(Game::F.to_string(), "F");
    assert_eq!(Game::F2nd.to_string(), "F2nd");
    assert_eq!(Game::X.to_string(), "X");
    assert_eq!(Game::FutureTone.to_string(), "Future Tone");
    assert_eq!(Game::Arcade.to_string(), "Arcade");
}

#[test]
fn marker_commands() {
    let t = get_time_command(42);
    assert_eq!((t.meta.id, t.meta.opcode, t.meta.param_count, t.args.clone()), (1, Opcode::TIME, 1, vec![42]));
    let l = get_lyric_command(3, -1);
    assert_eq!((l.meta.id, l.meta.opcode, l.args.clone()), (24, Opcode::LYRIC, vec![3, -1]));
}

#[test]
fn command_text() {
    let c = Command::new(OpcodeMeta::new(6, Opcode::TARGET, 3), vec![1, -20, 300]);
    assert_eq!(c.to_string(), "TARGET(1, -20, 300);");
    assert_eq!(opcode_name(Opcode::TOON_EDGE_ALT), "TOON_EDGE_ALT");
}

#[test]
fn opcode_lookup_by_id() {
    assert_eq!(Command::get_opcode_meta(Game::F, 6), Ok(OpcodeMeta::new(6, Opcode::TARGET, 11)));
    assert_eq!(Command::get_opcode_meta(Game::FutureTone, 6), Ok(OpcodeMeta::new(6, Opcode::TARGET, 7)));
    assert_eq!(Command::get_opcode_meta(Game::X, 127), Ok(OpcodeMeta::new(127, Opcode::ENABLE_COMMON_LIGHT_TO_CHARA, 2)));
    assert_eq!(Command::get_opcode_meta(Game::F, 84), Err(ApplicationError::UnknownOpcode(84)));
    assert_eq!(Command::get_opcode_meta(Game::F, -1), Err(ApplicationError::UnknownOpcode(-1)));
    assert_eq!(Command::get_opcode_meta(Game::Arcade, 1), Err(ApplicationError::UnsupportedGame(Game::Arcade)));
}

#[test]
fn opcode_lookup_by_name() {
    assert_eq!(
        Command::get_opcode_meta_from_name(Game::FutureTone, "LYRIC".to_string()),
        Ok(OpcodeMeta::new(24, Opcode::LYRIC, 2))
    );
    assert_eq!(
        Command::get_opcode_meta_from_name(Game::F, "lyric".to_string()),
        Err(ApplicationError::UnknownOpcodeName("lyric".to_string()))
    );
    assert_eq!(
        Command::get_opcode_meta_from_name(Game::Arcade, "TIME".to_string()),
        Err(ApplicationError::UnsupportedGame(Game::Arcade))
    );
}

#[test]
fn integer_parsing() {
    assert_eq!(parse_i32("0"), Some(0));
    assert_eq!(parse_i32("+17"), Some(17));
    assert_eq!(parse_i32("-2147483648"), Some(i32::MIN));
    assert_eq!(parse_i32("2147483647"), Some(i32::MAX));
    assert_eq!(parse_i32("2147483648"), None);
    assert_eq!(parse_i32("-"), None);
    assert_eq!(parse_i32(""), None);
    assert_eq!(parse_i32("1 "), None);
    assert_eq!(parse_i32("0012"), Some(12));
}

#[test]
fn text_helpers() {
    assert_eq!(split_char("a,b,,c", ','), vec!["a", "b", "", "c"]);
    assert_eq!(split_char("", ','), vec![""]);
    assert_eq!(zero_pad3(5), "005");
    assert_eq!(zero_pad3(1000), "1000");
}

#[test]
fn challenge_time_options() {
    let s = |v: &str| Some(v.to_string());
    assert_eq!(get_challenge_time_object(s("00:01.000"), None, s("easy")), Ok(None));
    assert_eq!(
        get_challenge_time_object(s("00:01.000"), s("00:02.000"), s("NORMAL")),
        Ok(Some(ChallengeTime::new(1000, 2000, ChallengeTimeDifficulty::Normal)))
    );
    assert_eq!(
        get_challenge_time_object(s("00:01.000"), s("00:02.000"), s("extreme")),
        Err(ApplicationError::InvalidDifficultyString("extreme".to_string()))
    );
    assert_eq!(
        get_challenge_time_object(s("00:01.000"), s("00:99.000"), s("easy")),
        Err(ApplicationError::InvalidTimestamp("00:99.000".to_string()))
    );
}

#[test]
fn game_from_cli_name() {
    assert_eq!(Game::from_name("FT"), Some(Game::FutureTone));
    assert_eq!(Game::from_name("Future Tone"), Some(Game::FutureTone));
    assert_eq!(Game::from_name("f2"), Some(Game::F2nd));
    assert_eq!(Game::from_name("F 2nd"), Some(Game::F2nd));
    assert_eq!(Game::from_name("x"), Some(Game::X));
    assert_eq!(Game::from_name("AFT"), Some(Game::Arcade));
    assert_eq!(Game::from_name("f3"), None);
    assert_eq!(Game::from_lowercase_name("FT"), None);
}

#[test]
fn error_messages() {
    assert_eq!(ApplicationError::UnknownOpcode(-7).to_string(), "Unknown opcode: -7");
    assert_eq!(
        ApplicationError::ArgumentParseError("TIME".to_string(), "x".to_string()).to_string(),
        "Invalid command argument for TIME: x"
    );
    assert_eq!(ApplicationError::UnsupportedGame(Game::Arcade).to_string(), "Unsupported game: Arcade");
    assert_eq!(ApplicationError::NoInputFiles.to_string(), "You have not specified any input files.");
    assert_eq!(ApplicationError::FileNotFound("a".to_string()).to_string(), "File not found: a");
}
