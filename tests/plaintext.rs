use dsc_merger::common::Game;
use dsc_merger::dsc::DSCVM;
use dsc_merger::error::ApplicationError;
use dsc_merger::opcodes::Opcode;

fn lines(text: &str) -> Vec<String> {
    text.lines().map(|l| l.to_string()).collect()
}

#[test]
fn plaintext_reads_commands_and_skips_comments() {
    let text = "# header\n\n  TIME(0);\nMIKU_ROT( 1, 2 );\r\nno parenthesis here\nA(B(C\nTIME(100)\n";
    let vm = DSCVM::load_plaintext(Game::FutureTone, &lines(text), true).unwrap();
    assert!(vm.remove_targets);
    let got: Vec<(i32, Opcode, Vec<i32>)> = vm
        .command_buffer
        .iter()
        .map(|c| (c.meta.id, c.meta.opcode, c.args.clone()))
        .collect();
    assert_eq!(
        got,
        vec![
            (1, Opcode::TIME, vec![0]),
            (3, Opcode::MIKU_ROT, vec![1, 2]),
            (1, Opcode::TIME, vec![100]),
        ]
    );
}

#[test]
fn plaintext_uses_ids_of_the_game() {
    let vm = DSCVM::load_plaintext(Game::F, &lines("PV_END()x"), false);
    assert!(vm.is_err());
    let vm = DSCVM::load_plaintext(Game::X, &lines("VR_LIVE_CHARA_VOICE(1,2)"), false).unwrap();
    assert_eq!(vm.command_buffer[0].meta.id, 162);
    let vm = DSCVM::load_plaintext(Game::FutureTone, &lines("PSE(1,2)"), false).unwrap();
    assert_eq!(vm.command_buffer[0].meta.id, 106);
}

#[test]
fn plaintext_unknown_name() {
    let r = DSCVM::load_plaintext(Game::FutureTone, &lines("NOT_AN_OPCODE(1)"), false);
    assert_eq!(r.err(), Some(ApplicationError::UnknownOpcodeName("NOT_AN_OPCODE".to_string())));
}

#[test]
fn plaintext_bad_argument() {
    let r = DSCVM::load_plaintext(Game::FutureTone, &lines("MIKU_ROT(1,x2)"), false);
    assert_eq!(
        r.err(),
        Some(ApplicationError::ArgumentParseError("MIKU_ROT".to_string(), "x2".to_string()))
    );
    let r = DSCVM::load_plaintext(Game::FutureTone, &lines("TIME(99999999999)"), false);
    assert_eq!(
        r.err(),
        Some(ApplicationError::ArgumentParseError("TIME".to_string(), "99999999999".to_string()))
    );
}

#[test]
fn plaintext_empty_argument_list_fails() {
    let r = DSCVM::load_plaintext(Game::FutureTone, &lines("END();"), false);
    assert_eq!(
        r.err(),
        Some(ApplicationError::ArgumentParseError("END".to_string(), "".to_string()))
    );
}

#[test]
fn plaintext_wrong_argument_count_fails() {
    let r = DSCVM::load_plaintext(Game::FutureTone, &lines("MIKU_ROT(1,2,3)"), false);
    assert_eq!(
        r.err(),
        Some(ApplicationError::ArgumentParseError("MIKU_ROT".to_string(), "1,2,3".to_string()))
    );
}

#[test]
fn plaintext_arcade_is_unsupported() {
    let r = DSCVM::load_plaintext(Game::Arcade, &lines("TIME(1)"), false);
    assert_eq!(r.err(), Some(ApplicationError::UnsupportedGame(Game::Arcade)));
}

#[test]
fn plaintext_reads_its_own_dump() {
    let text = "TIME(0);\nMIKU_ROT(1, -2);\n";
    let vm = DSCVM::load_plaintext(Game::FutureTone, &lines(text), false).unwrap();
    assert_eq!(vm.dump(), text);
}
