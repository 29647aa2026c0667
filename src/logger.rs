use vstd::prelude::*;
use vstd::string::*;

verus! {

/// One thing a logger received.
pub ghost enum LogEntry {
    Message(Seq<char>),
    LyricsLine(Seq<char>),
    ProblematicLine(i32, u16, usize),
}

/// Receives the progress messages and lyric diagnostics of a run; it has
/// no effect on what the run computes. `history` is what it has received,
/// in order. A logger that keeps no record has an empty history.
pub trait Logger {
    closed spec fn history(&self) -> Seq<LogEntry> {
        Seq::empty()
    }

    fn log(&mut self, message: String)
        ensures
            final(self).history() == old(self).history().push(LogEntry::Message(message@)),
    ;

    fn log_lyrics_line(&mut self, line: String)
        ensures
            final(self).history() == old(self).history().push(LogEntry::LyricsLine(line@)),
    ;

    fn log_problematic_lyrics_line(&mut self, line: i32, expected: u16, actual: usize)
        ensures
            final(self).history() == old(self).history().push(
                LogEntry::ProblematicLine(line, expected, actual),
            ),
    ;
}

/// A logger that keeps what it receives: the last message, every lyric
/// line, and every over-long lyric line as (index, maximum, length).
pub struct GUILogger {
    pub log: String,
    pub lyrics: Vec<String>,
    pub problematic_lyrics_lines: Vec<(i32, u16, usize)>,
    pub received: Ghost<Seq<LogEntry>>,
}

impl GUILogger {
    pub fn new() -> (r: Self)
        ensures
            r.log@ == "Ready."@,
            r.lyrics@.len() == 0,
            r.problematic_lyrics_lines@.len() == 0,
            r.history() == Seq::<LogEntry>::empty(),
    {
        GUILogger {
            log: String::from_str("Ready."),
            lyrics: Vec::new(),
            problematic_lyrics_lines: Vec::new(),
            received: Ghost(Seq::empty()),
        }
    }

    /// Forgets everything received.
    pub fn reset(&mut self)
        ensures
            final(self).log@ == "Ready."@,
            final(self).lyrics@.len() == 0,
            final(self).problematic_lyrics_lines@.len() == 0,
            final(self).history() == Seq::<LogEntry>::empty(),
    {
        self.log = String::from_str("Ready.");
        self.lyrics.clear();
        self.problematic_lyrics_lines.clear();
        self.received = Ghost(Seq::empty());
    }
}

impl Logger for GUILogger {
    open spec fn history(&self) -> Seq<LogEntry> {
        self.received@
    }

    fn log(&mut self, message: String) {
        self.received = Ghost(self.received@.push(LogEntry::Message(message@)));
        self.log = message;
    }

    fn log_lyrics_line(&mut self, line: String) {
        self.received = Ghost(self.received@.push(LogEntry::LyricsLine(line@)));
        self.lyrics.push(line);
    }

    fn log_problematic_lyrics_line(&mut self, line: i32, expected: u16, actual: usize) {
        self.received = Ghost(self.received@.push(LogEntry::ProblematicLine(line, expected, actual)));
        self.problematic_lyrics_lines.push((line, expected, actual));
    }
}

} // verus!
