use dsc_merger::common::{get_time_command, ChallengeTime, ChallengeTimeDifficulty, Game};
use dsc_merger::dsc::DSCVM;
use dsc_merger::merger::{DSCMerger, Event};
use dsc_merger::opcodes::{Command, Opcode, OpcodeMeta};

fn cmd(id: i32, op: Opcode, args: Vec<i32>) -> Command {
    Command::new(OpcodeMeta::new(id, op, args.len()), args)
}

fn time(t: i32) -> Command {
    get_time_command(t)
}

fn timeline(cmds: Vec<Command>, remove: bool) -> DSCVM {
    let mut vm = DSCVM::new(remove);
    for c in cmds {
        vm.add_command(c);
    }
    vm
}

fn summary(vm: &DSCVM) -> Vec<(Opcode, Vec<i32>)> {
    vm.command_buffer.iter().map(|c| (c.meta.opcode, c.args.clone())).collect()
}

fn ft(ws: &[i32]) -> Vec<u8> {
    let mut out = 335874337i32.to_le_bytes().to_vec();
    for w in ws {
        out.extend_from_slice(&w.to_le_bytes());
    }
    out
}

#[test]
fn merge_two_binary_inputs() {
    let a = DSCVM::load(Game::FutureTone, &ft(&[1, 0, 3, 1, 2, 1, 500, 0]), false).unwrap();
    let b = DSCVM::load(Game::FutureTone, &ft(&[1, 250, 11, 9, 0]), false).unwrap();
    let mut merger = DSCMerger::new();
    merger.add_dsc(a);
    merger.add_dsc(b);
    let out = merger.to_dsc();
    assert!(!out.remove_targets);
    assert_eq!(
        summary(&out),
        vec![
            (Opcode::TIME, vec![0]),
            (Opcode::MIKU_ROT, vec![1, 2]),
            (Opcode::TIME, vec![250]),
            (Opcode::EFFECT_OFF, vec![9]),
            (Opcode::END, vec![]),
            (Opcode::TIME, vec![500]),
            (Opcode::END, vec![]),
        ]
    );
}

#[test]
fn merge_trailing_time_marker_makes_no_bucket() {
    let a = timeline(vec![time(0), cmd(3, Opcode::MIKU_ROT, vec![1, 2]), time(500)], false);
    let b = timeline(vec![time(250), cmd(11, Opcode::EFFECT_OFF, vec![9])], false);
    let mut merger = DSCMerger::new();
    merger.add_dsc(a);
    merger.add_dsc(b);
    assert_eq!(
        summary(&merger.to_dsc()),
        vec![
            (Opcode::TIME, vec![0]),
            (Opcode::MIKU_ROT, vec![1, 2]),
            (Opcode::TIME, vec![250]),
            (Opcode::EFFECT_OFF, vec![9]),
        ]
    );
}

#[test]
fn merge_single_sorts_and_collapses_duplicates() {
    let a = timeline(
        vec![
            time(300),
            cmd(4, Opcode::MIKU_DISP, vec![0, 1]),
            time(100),
            cmd(4, Opcode::MIKU_DISP, vec![0, 1]),
            cmd(99, Opcode::MIKU_DISP, vec![0, 1]),
            cmd(4, Opcode::MIKU_DISP, vec![0, 2]),
            time(300),
            cmd(4, Opcode::MIKU_DISP, vec![0, 1]),
        ],
        false,
    );
    let mut merger = DSCMerger::new();
    merger.add_dsc(a);
    let out = merger.to_dsc();
    assert_eq!(
        summary(&out),
        vec![
            (Opcode::TIME, vec![100]),
            (Opcode::MIKU_DISP, vec![0, 1]),
            (Opcode::MIKU_DISP, vec![0, 2]),
            (Opcode::TIME, vec![300]),
            (Opcode::MIKU_DISP, vec![0, 1]),
        ]
    );
    // The first of two equal commands is the one kept.
    assert_eq!(out.command_buffer[1].meta.id, 4);
}

#[test]
fn merge_dedup_across_sources_keeps_arrival_order() {
    let a = timeline(vec![time(10), cmd(2, Opcode::MIKU_MOVE, vec![1, 2, 3, 4])], false);
    let b = timeline(
        vec![time(10), cmd(5, Opcode::MIKU_SHADOW, vec![7, 7]), cmd(2, Opcode::MIKU_MOVE, vec![1, 2, 3, 4])],
        false,
    );
    let mut merger = DSCMerger::new();
    merger.add_dsc(a);
    merger.add_dsc(b);
    assert_eq!(
        summary(&merger.to_dsc()),
        vec![
            (Opcode::TIME, vec![10]),
            (Opcode::MIKU_MOVE, vec![1, 2, 3, 4]),
            (Opcode::MIKU_SHADOW, vec![7, 7]),
        ]
    );
}

fn with_targets(remove: bool) -> DSCVM {
    timeline(
        vec![
            time(0),
            cmd(6, Opcode::TARGET, vec![1, 2, 3, 4, 5, 6, 7]),
            cmd(58, Opcode::TARGET_FLYING_TIME, vec![500]),
            cmd(9, Opcode::EFFECT, vec![1, 2, 3, 4, 5, 6]),
            time(50),
            cmd(84, Opcode::TARGET_FLAG, vec![1]),
            cmd(35, Opcode::EDIT_TARGET, vec![1, 2, 3, 4, 5]),
            cmd(0, Opcode::TARGET_EFFECT, vec![]),
        ],
        remove,
    )
}

#[test]
fn merge_removes_targets_when_asked() {
    let mut merger = DSCMerger::new();
    merger.add_dsc(with_targets(true));
    assert_eq!(
        summary(&merger.to_dsc()),
        vec![(Opcode::TIME, vec![0]), (Opcode::EFFECT, vec![1, 2, 3, 4, 5, 6])]
    );
}

#[test]
fn merge_keeps_targets_otherwise() {
    let mut merger = DSCMerger::new();
    merger.add_dsc(with_targets(false));
    let out = summary(&merger.to_dsc());
    assert_eq!(out.len(), 8);
    assert_eq!(out[1], (Opcode::TARGET, vec![1, 2, 3, 4, 5, 6, 7]));
    assert_eq!(out[4], (Opcode::TIME, vec![50]));
    assert_eq!(out[7], (Opcode::TARGET_EFFECT, vec![]));
}

#[test]
fn challenge_time_easy() {
    let mut merger = DSCMerger::new();
    merger.add_challenge_time(ChallengeTime::new(1000, 2000, ChallengeTimeDifficulty::Easy));
    let out = merger.to_dsc();
    assert_eq!(
        summary(&out),
        vec![
            (Opcode::TIME, vec![100000]),
            (Opcode::MODE_SELECT, vec![17, 1]),
            (Opcode::TIME, vec![200000]),
            (Opcode::MODE_SELECT, vec![17, 3]),
        ]
    );
    assert_eq!(out.command_buffer[1].meta.id, 26);
}

#[test]
fn challenge_time_normal_joins_existing_bucket() {
    let mut merger = DSCMerger::new();
    merger.add_dsc(timeline(vec![time(200000), cmd(25, Opcode::MUSIC_PLAY, vec![])], false));
    merger.add_challenge_time(ChallengeTime::new(1000, 2000, ChallengeTimeDifficulty::Normal));
    assert_eq!(
        summary(&merger.to_dsc()),
        vec![
            (Opcode::TIME, vec![100000]),
            (Opcode::MODE_SELECT, vec![2, 1]),
            (Opcode::TIME, vec![200000]),
            (Opcode::MUSIC_PLAY, vec![]),
            (Opcode::MODE_SELECT, vec![2, 3]),
        ]
    );
}

#[test]
fn empty_merge_is_empty() {
    let mut merger = DSCMerger::new();
    assert!(merger.to_dsc().command_buffer.is_empty());
}

#[test]
fn event_new_holds_its_parts() {
    let e = Event::new(5, vec![time(1)]);
    assert_eq!(e.time, 5);
    assert_eq!(e.commands.len(), 1);
}

#[test]
fn command_equality_ignores_id() {
    assert!(cmd(1, Opcode::AIM, vec![1, 2, 3]) == cmd(40, Opcode::AIM, vec![1, 2, 3]));
    assert!(cmd(1, Opcode::AIM, vec![1, 2, 3]) != cmd(1, Opcode::AIM, vec![1, 2, 4]));
    assert!(cmd(1, Opcode::AIM, vec![1, 2, 3]) != cmd(1, Opcode::GAZE, vec![1, 2, 3]));
}
