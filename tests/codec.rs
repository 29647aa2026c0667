use dsc_merger::common::Game;
use dsc_merger::dsc::DSCVM;
use dsc_merger::error::ApplicationError;
use dsc_merger::opcodes::{Command, Opcode, OpcodeMeta};

fn words(ws: &[i32]) -> Vec<u8> {
    let mut out = Vec::new();
    for w in ws {
        out.extend_from_slice(&w.to_le_bytes());
    }
    out
}

fn ft(ws: &[i32]) -> Vec<u8> {
    let mut out = words(&[335874337]);
    out.extend(words(ws));
    out
}

fn summary(vm: &DSCVM) -> Vec<(i32, Opcode, Vec<i32>)> {
    vm.command_buffer
        .iter()
        .map(|c| (c.meta.id, c.meta.opcode, c.args.clone()))
        .collect()
}

#[test]
fn decode_future_tone_appends_end() {
    let vm = DSCVM::load(Game::FutureTone, &ft(&[1, 0, 3, 1, 2, 1, 500, 0]), true).unwrap();
    assert!(vm.remove_targets);
    assert_eq!(
        summary(&vm),
        vec![
            (1, Opcode::TIME, vec![0]),
            (3, Opcode::MIKU_ROT, vec![1, 2]),
            (1, Opcode::TIME, vec![500]),
            (0, Opcode::END, vec![]),
        ]
    );
}

#[test]
fn decode_negative_argument() {
    let vm = DSCVM::load(Game::FutureTone, &ft(&[11, -5, 0]), false).unwrap();
    assert_eq!(summary(&vm)[0], (11, Opcode::EFFECT_OFF, vec![-5]));
}

#[test]
fn decode_unknown_opcode_fails_with_its_id() {
    let r = DSCVM::load(Game::FutureTone, &ft(&[1, 0, 999, 1, 2, 0]), false);
    assert!(matches!(r, Err(ApplicationError::UnknownOpcode(999))));
}

#[test]
fn decode_truncated_stream_fails() {
    let r = DSCVM::load(Game::FutureTone, &ft(&[3, 1]), false);
    assert!(matches!(r, Err(ApplicationError::TruncatedInput)));
    let r = DSCVM::load(Game::FutureTone, &ft(&[1, 0]), false);
    assert!(matches!(r, Err(ApplicationError::TruncatedInput)));
    let r = DSCVM::load(Game::F2nd, &words(&[0; 10]), false);
    assert!(matches!(r, Err(ApplicationError::TruncatedInput)));
}

#[test]
fn decode_arcade_is_unsupported() {
    let r = DSCVM::load(Game::Arcade, &words(&[0]), false);
    assert!(matches!(r, Err(ApplicationError::UnsupportedGame(Game::Arcade))));
}

#[test]
fn decode_alternate_terminator_on_x() {
    let mut bytes = vec![0u8; 72];
    bytes.extend(words(&[1, 100, 1128681285, 1, 200]));
    let vm = DSCVM::load(Game::X, &bytes, false).unwrap();
    assert_eq!(
        summary(&vm),
        vec![(1, Opcode::TIME, vec![100]), (0, Opcode::END, vec![])]
    );
    // On Future Tone the same id is no terminator but an unknown opcode.
    let r = DSCVM::load(Game::FutureTone, &ft(&[1, 100, 1128681285, 0]), false);
    assert!(matches!(r, Err(ApplicationError::UnknownOpcode(1128681285))));
}

#[test]
fn encode_headers() {
    let vm = DSCVM::new(false);
    assert_eq!(vm.write(Game::F).unwrap(), words(&[302121504]));
    assert_eq!(vm.write(Game::FutureTone).unwrap(), words(&[335874337]));
    let mut expected = words(&[1129535056]);
    expected.extend(vec![0u8; 72]);
    assert_eq!(vm.write(Game::F2nd).unwrap(), expected);
    assert_eq!(vm.write(Game::X).unwrap(), expected);
    assert!(matches!(vm.write(Game::Arcade), Err(ApplicationError::UnsupportedGame(Game::Arcade))));
}

#[test]
fn round_trip_future_tone() {
    let original = ft(&[1, 0, 3, 1, 2, 6, 1, 2, 3, 4, 5, 6, 7, 1, 500, 0]);
    let vm = DSCVM::load(Game::FutureTone, &original, false).unwrap();
    let bytes = vm.write(Game::FutureTone).unwrap();
    assert_eq!(bytes, original);
    let again = DSCVM::load(Game::FutureTone, &bytes, false).unwrap();
    assert_eq!(summary(&again), summary(&vm));
}

#[test]
fn round_trip_x_replaces_sentinel_and_keeps_words() {
    let mut original = vec![7u8; 72];
    original.extend(words(&[1, 42, 1128681285]));
    let vm = DSCVM::load(Game::X, &original, false).unwrap();
    let bytes = vm.write(Game::X).unwrap();
    let mut expected = words(&[1129535056]);
    expected.extend(vec![0u8; 72]);
    expected.extend(words(&[1, 42, 0]));
    assert_eq!(bytes, expected);
}

#[test]
fn write_uses_recorded_ids() {
    let mut vm = DSCVM::new(false);
    vm.add_command(Command::new(OpcodeMeta::new(77, Opcode::LYRIC, 2), vec![3, -1]));
    assert_eq!(vm.write(Game::F).unwrap(), {
        let mut v = words(&[302121504]);
        v.extend(words(&[77, 3, -1]));
        v
    });
}

#[test]
fn dump_lists_commands() {
    let vm = DSCVM::load(Game::FutureTone, &ft(&[1, 0, 3, 1, -2, 25, 0]), false).unwrap();
    assert_eq!(vm.dump(), "TIME(0);\nMIKU_ROT(1, -2);\nMUSIC_PLAY();\nEND();\n");
}
