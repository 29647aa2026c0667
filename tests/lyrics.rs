use dsc_merger::common::{timestamp_to_millis, Timestamp};
use dsc_merger::dsc::DSCVM;
use dsc_merger::error::ApplicationError;
use dsc_merger::logger::{GUILogger, Logger};
use dsc_merger::opcodes::Opcode;
use dsc_merger::subtitle::{lyric_line, subtitle_text_safe, SubtitleFile, SubtitleKind};

const SRT: &str = "1\n00:00:01,000 --> 00:00:02,000\nHello there\n\n2\n00:00:02,000 --> 00:00:03,500\n  World  \n\n";

fn summary(cmds: &[dsc_merger::opcodes::Command]) -> Vec<(Opcode, Vec<i32>)> {
    cmds.iter().map(|c| (c.meta.opcode, c.args.clone())).collect()
}

#[test]
fn subtitle_adjacent_lines_coalesce() {
    let file = SubtitleFile::load_srt(SRT).unwrap();
    let mut logger = GUILogger::new();
    let cmds = file.create_lyric_commands(12, false, 75, &mut logger).unwrap();
    assert_eq!(
        summary(&cmds),
        vec![
            (Opcode::TIME, vec![100000]),
            (Opcode::LYRIC, vec![1, -1]),
            (Opcode::TIME, vec![200000]),
            (Opcode::LYRIC, vec![2, -1]),
            (Opcode::TIME, vec![350000]),
            (Opcode::LYRIC, vec![0, -1]),
        ]
    );
    let times = cmds.iter().filter(|c| c.meta.opcode == Opcode::TIME && c.args[0] == 200000).count();
    assert_eq!(times, 1);
    assert_eq!(logger.lyrics, vec!["pv_012.lyric.001=Hello there".to_string(), "pv_012.lyric.002=World".to_string()]);
    assert!(logger.problematic_lyrics_lines.is_empty());
}

#[test]
fn subtitle_separate_lines_reset() {
    let srt = "1\n00:00:01,000 --> 00:00:02,000\nA\n\n2\n00:00:03,000 --> 00:00:04,000\nB\n";
    let file = SubtitleFile::load_srt(srt).unwrap();
    let mut logger = GUILogger::new();
    let cmds = file.create_lyric_commands(1, true, 10, &mut logger).unwrap();
    assert_eq!(
        summary(&cmds),
        vec![
            (Opcode::TIME, vec![100000]),
            (Opcode::LYRIC, vec![1, -1]),
            (Opcode::TIME, vec![200000]),
            (Opcode::LYRIC, vec![0, -1]),
            (Opcode::TIME, vec![300000]),
            (Opcode::LYRIC, vec![2, -1]),
            (Opcode::TIME, vec![400000]),
            (Opcode::LYRIC, vec![0, -1]),
        ]
    );
    assert_eq!(logger.lyrics[0], "pv_001.lyric_en.001=A");
    assert_eq!(logger.problematic_lyrics_lines, vec![(1, 10, 21), (2, 10, 21)]);
}

#[test]
fn subtitle_first_line_at_zero() {
    let srt = "1\n00:00:00,000 --> 00:00:01,000\nA\n";
    let file = SubtitleFile::load_srt(srt).unwrap();
    let mut logger = GUILogger::new();
    let cmds = file.create_lyric_commands(0, false, 75, &mut logger).unwrap();
    assert_eq!(
        summary(&cmds),
        vec![
            (Opcode::TIME, vec![0]),
            (Opcode::LYRIC, vec![1, -1]),
            (Opcode::TIME, vec![100000]),
            (Opcode::LYRIC, vec![0, -1]),
        ]
    );
}

#[test]
fn subtitle_ass_file() {
    let ass = "[Script Info]\nTitle: t\n\n[Events]\nFormat: Layer, Start, End, Style, Name, MarginL, MarginR, MarginV, Effect, Text\nDialogue: 0,0:00:01.50,0:00:02.00,Default,,0,0,0,,Hi\n";
    let mut logger = GUILogger::new();
    let vm = DSCVM::load_subtitle(ass, SubtitleKind::ASS, 5, false, 75, &mut logger).unwrap();
    assert!(!vm.remove_targets);
    assert_eq!(
        summary(&vm.command_buffer),
        vec![
            (Opcode::TIME, vec![150000]),
            (Opcode::LYRIC, vec![1, -1]),
            (Opcode::TIME, vec![200000]),
            (Opcode::LYRIC, vec![0, -1]),
        ]
    );
    assert_eq!(logger.lyrics, vec!["pv_005.lyric.001=Hi".to_string()]);
}

#[test]
fn subtitle_invalid_text() {
    let mut logger = GUILogger::new();
    let r = DSCVM::load_subtitle("not a subtitle\n-->", SubtitleKind::SRT, 5, false, 75, &mut logger);
    assert_eq!(r.err(), Some(ApplicationError::InvalidSubtitleFile));
}

#[test]
fn subtitle_kind_from_extension() {
    assert!(matches!(SubtitleKind::from_extension("SRT"), Some(SubtitleKind::SRT)));
    assert!(matches!(SubtitleKind::from_extension("Ass"), Some(SubtitleKind::ASS)));
    assert!(matches!(SubtitleKind::from_extension("ssa"), Some(SubtitleKind::ASS)));
    assert!(SubtitleKind::from_extension("txt").is_none());
    assert!(SubtitleKind::from_lowercase_extension("SRT").is_none());
    assert!(matches!(SubtitleKind::from_lowercase_extension("srt"), Some(SubtitleKind::SRT)));
}

#[test]
fn lyric_line_format() {
    assert_eq!(lyric_line(7, false, 3, "abc"), "pv_007.lyric.003=abc");
    assert_eq!(lyric_line(1234, true, 45, "x"), "pv_1234.lyric_en.045=x");
}

#[test]
fn timestamp_to_millis_keeps_value() {
    assert_eq!(timestamp_to_millis(Timestamp::new(123004)), 123004);
    assert_eq!(timestamp_to_millis(Timestamp::new(0)), 0);
    assert_eq!(timestamp_to_millis(Timestamp::new(-62003)), -62003);
}

#[test]
fn subtitle_hours_are_kept() {
    let srt = "1\n01:00:05,000 --> 01:00:06,000\nLate\n";
    let file = SubtitleFile::load_srt(srt).unwrap();
    let mut logger = GUILogger::new();
    let cmds = file.create_lyric_commands(0, false, 75, &mut logger).unwrap();
    assert_eq!(cmds[0].args, vec![360500000]);
    assert_eq!(cmds[2].args, vec![360600000]);
}

#[test]
fn subtitle_time_beyond_ticks_is_invalid() {
    let srt = "1\n10:00:00,000 --> 10:00:01,000\nToo late\n";
    assert_eq!(SubtitleFile::load_srt(srt).err(), Some(ApplicationError::InvalidSubtitleFile));
}

#[test]
fn subtitle_text_guard() {
    assert!(subtitle_text_safe(SubtitleKind::SRT, SRT));
    assert!(subtitle_text_safe(SubtitleKind::SRT, "123456789"));
    assert!(!subtitle_text_safe(SubtitleKind::SRT, "1\n99999999999999999999:00:00,000 --> 00:00:01,000\nx\n"));
    assert!(!subtitle_text_safe(SubtitleKind::SRT, "1234567890"));
    assert!(subtitle_text_safe(SubtitleKind::ASS, "[Events]\nFormat: Layer, Start\n"));
    assert!(subtitle_text_safe(SubtitleKind::ASS, "Dialogue: x Format: y\n"));
    assert!(!subtitle_text_safe(SubtitleKind::ASS, "[Events]\n  Format: Layer, Start\n"));
    assert!(!subtitle_text_safe(SubtitleKind::ASS, "[Events]\n\tFormat: Layer\n"));
    assert!(subtitle_text_safe(SubtitleKind::SRT, "  Format: not checked for SRT"));
}

#[test]
fn subtitle_warnings_follow_key_lines() {
    let file = SubtitleFile::load_srt(SRT).unwrap();
    let mut logger = GUILogger::new();
    file.create_lyric_commands(12, true, 26, &mut logger).unwrap();
    assert_eq!(
        logger.lyrics,
        vec!["pv_012.lyric_en.001=Hello there".to_string(), "pv_012.lyric_en.002=World".to_string()]
    );
    assert_eq!(logger.problematic_lyrics_lines, vec![(1, 26, 31)]);
}

#[test]
fn gui_logger_reset() {
    let mut logger = GUILogger::new();
    assert_eq!(logger.log, "Ready.");
    logger.log("busy".to_string());
    logger.log_lyrics_line("x".to_string());
    logger.log_problematic_lyrics_line(1, 2, 3);
    assert_eq!(logger.log, "busy");
    logger.reset();
    assert_eq!(logger.log, "Ready.");
    assert!(logger.lyrics.is_empty());
    assert!(logger.problematic_lyrics_lines.is_empty());
}
