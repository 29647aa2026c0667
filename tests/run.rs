use dsc_merger::application::{Application, FileRead, InputFiles, LoadedInputs};
use dsc_merger::common::{ChallengeTime, ChallengeTimeDifficulty, Game};
use dsc_merger::error::ApplicationError;
use dsc_merger::logger::GUILogger;
use dsc_merger::opcodes::Opcode;

fn ft(ws: &[i32]) -> Vec<u8> {
    let mut out = 335874337i32.to_le_bytes().to_vec();
    for w in ws {
        out.extend_from_slice(&w.to_le_bytes());
    }
    out
}

fn app(dsc: Vec<&str>, plain: Vec<&str>, subs: Vec<&str>, remove: Vec<&str>, ct: Option<ChallengeTime>) -> Application {
    let own = |v: Vec<&str>| v.into_iter().map(|s| s.to_string()).collect::<Vec<String>>();
    Application::new(own(dsc), own(plain), own(subs), own(remove), "out.dsc".to_string(), Game::FutureTone, 1, false, 75, false, true, ct)
}

#[test]
fn run_without_inputs_fails() {
    let a = app(vec![], vec![], vec![], vec![], None);
    let inputs = LoadedInputs { dsc: vec![], plaintext: vec![], subtitle: vec![] };
    let mut logger = GUILogger::new();
    assert!(matches!(a.run(&inputs, &mut logger), Err(ApplicationError::NoInputFiles)));
}

#[test]
fn run_merges_all_kinds() {
    let a = app(
        vec!["a.dsc"],
        vec!["b.txt"],
        vec!["c.srt"],
        vec!["a.dsc"],
        Some(ChallengeTime::new(1, 2, ChallengeTimeDifficulty::Easy)),
    );
    let inputs = LoadedInputs {
        dsc: vec![FileRead::Read(ft(&[1, 100, 6, 1, 2, 3, 4, 5, 6, 7, 3, 0, 0, 0]))],
        plaintext: vec![FileRead::Read(vec!["TIME(100)".to_string(), "TARGET(1,1,1,1,1,1,1)".to_string()])],
        subtitle: vec![FileRead::Read(Some("1\n00:00:00,001 --> 00:00:00,002\nHi\n".to_string()))],
    };
    let mut logger = GUILogger::new();
    let out = a.run(&inputs, &mut logger).unwrap();
    let got: Vec<(Opcode, Vec<i32>)> = out.command_buffer.iter().map(|c| (c.meta.opcode, c.args.clone())).collect();
    assert_eq!(
        got,
        vec![
            (Opcode::TIME, vec![100]),
            (Opcode::MIKU_ROT, vec![0, 0]),
            (Opcode::END, vec![]),
            (Opcode::TARGET, vec![1, 1, 1, 1, 1, 1, 1]),
            (Opcode::LYRIC, vec![1, -1]),
            (Opcode::MODE_SELECT, vec![17, 1]),
            (Opcode::TIME, vec![200]),
            (Opcode::LYRIC, vec![0, -1]),
            (Opcode::MODE_SELECT, vec![17, 3]),
        ]
    );
    assert_eq!(logger.log, "Merging DSC commands...");
    assert_eq!(logger.lyrics, vec!["pv_001.lyric.001=Hi".to_string()]);
}

#[test]
fn run_reports_missing_file() {
    let a = app(vec!["a.dsc", "b.dsc"], vec![], vec![], vec![], None);
    let inputs = LoadedInputs { dsc: vec![FileRead::Read(ft(&[0])), FileRead::Missing], plaintext: vec![], subtitle: vec![] };
    let mut logger = GUILogger::new();
    assert_eq!(a.run(&inputs, &mut logger).err(), Some(ApplicationError::FileNotFound("b.dsc".to_string())));
}

#[test]
fn run_checks_subtitle_extension_first() {
    let a = app(vec![], vec![], vec!["lyrics.txt"], vec![], None);
    let inputs = LoadedInputs { dsc: vec![], plaintext: vec![], subtitle: vec![FileRead::Missing] };
    let mut logger = GUILogger::new();
    assert_eq!(a.run(&inputs, &mut logger).err(), Some(ApplicationError::InvalidSubtitleFile));
    let a = app(vec![], vec![], vec!["lyrics.SRT"], vec![], None);
    assert_eq!(a.run(&inputs, &mut logger).err(), Some(ApplicationError::FileNotFound("lyrics.SRT".to_string())));
    let inputs = LoadedInputs { dsc: vec![], plaintext: vec![], subtitle: vec![FileRead::Read(None)] };
    assert_eq!(a.run(&inputs, &mut logger).err(), Some(ApplicationError::InvalidSubtitleFile));
}

#[test]
fn run_rejects_unsafe_subtitle_text() {
    let a = app(vec![], vec![], vec!["a.srt"], vec![], None);
    let inputs = LoadedInputs {
        dsc: vec![],
        plaintext: vec![],
        subtitle: vec![FileRead::Read(Some("1\n99999999999999999999:00:00,000 --> 00:00:01,000\nx\n".to_string()))],
    };
    let mut logger = GUILogger::new();
    assert_eq!(a.run(&inputs, &mut logger).err(), Some(ApplicationError::InvalidSubtitleFile));
    let a = app(vec![], vec![], vec!["a.ass"], vec![], None);
    let inputs = LoadedInputs {
        dsc: vec![],
        plaintext: vec![],
        subtitle: vec![FileRead::Read(Some("[Events]\n  Format: Layer, Start, End, Text\n".to_string()))],
    };
    assert_eq!(a.run(&inputs, &mut logger).err(), Some(ApplicationError::InvalidSubtitleFile));
}

#[test]
fn run_reports_read_failure_in_order() {
    let a = app(vec!["a.dsc", "b.dsc"], vec![], vec![], vec![], None);
    let inputs = LoadedInputs {
        dsc: vec![FileRead::Failed("disk".to_string()), FileRead::Missing],
        plaintext: vec![],
        subtitle: vec![],
    };
    let mut logger = GUILogger::new();
    assert_eq!(a.run(&inputs, &mut logger).err(), Some(ApplicationError::IOError("disk".to_string())));
}

#[test]
fn input_files_collect_paths() {
    let mut files = InputFiles::new();
    files.add_dsc("a".to_string());
    files.add_plaintext("b".to_string());
    files.add_subtitle("c".to_string());
    files.add_dsc("d".to_string());
    assert_eq!(files.dsc, vec!["a".to_string(), "d".to_string()]);
    assert_eq!(files.plaintext, vec!["b".to_string()]);
    assert_eq!(files.subtitle, vec!["c".to_string()]);
}

#[test]
fn run_reports_decode_error_before_later_files() {
    let a = app(vec!["a.dsc"], vec!["b.txt"], vec![], vec![], None);
    let inputs = LoadedInputs {
        dsc: vec![FileRead::Read(ft(&[4242]))],
        plaintext: vec![FileRead::Missing],
        subtitle: vec![],
    };
    let mut logger = GUILogger::new();
    assert_eq!(a.run(&inputs, &mut logger).err(), Some(ApplicationError::UnknownOpcode(4242)));
}
