use vstd::prelude::*;

use subparse::SubtitleFileInterface;

use crate::common::{
    get_lyric_command, get_time_command, lyric_view, millis_of, time_view, timestamp_to_millis,
    Timestamp,
};
use crate::dsc::commands_view;
use crate::error::{ApplicationError, ApplicationResult, ErrorView};
use crate::logger::{LogEntry, Logger};
use crate::opcodes::{Command, CommandView, Opcode};
use crate::text::{
    decimal, lowercase_of, str_equal, to_lowercase, trim_str, trimmed, zero_pad3, zero_padded,
};
use vstd::string::*;
use vstd::utf8::encode_utf8;

verus! {

/// The subtitle formats that can be read.
#[derive(Clone, Copy, Debug, PartialEq, Eq, Structural)]
pub enum SubtitleKind {
    SRT,
    ASS,
}

/// The format that a lower-case file extension denotes.
pub open spec fn kind_of_extension(ext: Seq<char>) -> Option<SubtitleKind> {
    if ext == "srt"@ {
        Some(SubtitleKind::SRT)
    } else if ext == "ass"@ || ext == "ssa"@ {
        Some(SubtitleKind::ASS)
    } else {
        None
    }
}

impl SubtitleKind {
    /// The format of a file extension, in any case.
    pub fn from_extension(extension: &str) -> (r: Option<Self>)
        ensures
            r == kind_of_extension(lowercase_of(extension@)),
    {
        let lower = to_lowercase(extension);
        Self::from_lowercase_extension(lower.as_str())
    }

    /// The format of a lower-case file extension.
    pub fn from_lowercase_extension(extension: &str) -> (r: Option<Self>)
        ensures
            r == kind_of_extension(extension@),
    {
        if str_equal(extension, "srt") {
            Some(SubtitleKind::SRT)
        } else if str_equal(extension, "ass") || str_equal(extension, "ssa") {
            Some(SubtitleKind::ASS)
        } else {
            None
        }
    }
}

/// One subtitle: when it shows, when it goes, and its text, if any.
pub struct SubtitleEntry {
    pub start: Timestamp,
    pub end: Timestamp,
    pub line: Option<String>,
}

/// The value of a subtitle entry.
pub ghost struct SubtitleEntryView {
    pub start: Timestamp,
    pub end: Timestamp,
    pub line: Option<Seq<char>>,
}

impl View for SubtitleEntry {
    type V = SubtitleEntryView;

    open spec fn view(&self) -> SubtitleEntryView {
        SubtitleEntryView {
            start: self.start,
            end: self.end,
            line: match &self.line {
                Some(s) => Some(s@),
                None => None,
            },
        }
    }
}

impl SubtitleEntry {
    pub fn new(start: Timestamp, end: Timestamp, line: Option<String>) -> (r: Self)
        ensures
            r.start == start,
            r.end == end,
            r.line == line,
    {
        SubtitleEntry { start, end, line }
    }
}

/// The values of a sequence of entries.
pub open spec fn entries_view(v: Seq<SubtitleEntry>) -> Seq<SubtitleEntryView> {
    v.map_values(|e: SubtitleEntry| e@)
}

/// Whether every time of `es` fits the tick domain.
pub open spec fn entries_fit(es: Seq<SubtitleEntryView>) -> bool {
    forall|i: int| 0 <= i < es.len() ==> (#[trigger] es[i]).start.fits() && es[i].end.fits()
}

/// Whether a byte encodes an ASCII decimal digit.
pub open spec fn is_digit_byte(c: u8) -> bool {
    0x30 <= c <= 0x39
}

/// Whether a byte encodes a printable ASCII character other than space;
/// no white space is encoded with such a byte.
pub open spec fn is_printable_byte(c: u8) -> bool {
    0x21 <= c <= 0x7e
}

/// Whether the ten bytes from `i` on are all digits.
pub open spec fn digit_window(b: Seq<u8>, i: int) -> bool {
    forall|k: int| i <= k < i + 10 ==> is_digit_byte(#[trigger] b[k])
}

/// Whether `b` holds no run of more than nine ASCII digits.
pub open spec fn short_digit_runs(b: Seq<u8>) -> bool {
    forall|i: int| 0 <= i && i + 10 <= b.len() ==> !#[trigger] digit_window(b, i)
}

/// Whether the bytes of `Format:` start at `p`.
pub open spec fn format_at(b: Seq<u8>, p: int) -> bool {
    &&& b[p] == 0x46 && b[p + 1] == 0x6f && b[p + 2] == 0x72 && b[p + 3] == 0x6d
    &&& b[p + 4] == 0x61 && b[p + 5] == 0x74 && b[p + 6] == 0x3a
}

/// Whether the line of position `p` has a printable ASCII character before it.
pub open spec fn printable_before(b: Seq<u8>, p: int) -> bool {
    exists|q: int|
        0 <= q < p && is_printable_byte(#[trigger] b[q]) && forall|r: int| q <= r < p ==> b[r] != 0x0a
}

/// Whether every `Format:` either starts its line or follows a printable
/// character on it, so that no line becomes a format line only once its
/// leading white space is trimmed.
pub open spec fn format_lines_ok(b: Seq<u8>) -> bool {
    forall|p: int|
        0 <= p && p + 7 <= b.len() && #[trigger] format_at(b, p) ==> (p == 0 || b[p - 1] == 0x0a
            || printable_before(b, p))
}

/// Whether subparse reads a text of the given format without panicking, as
/// far as this library relies on it: its numbers have at most nine digits
/// (they are read as `i64` and scaled to milliseconds without checks), and
/// for SSA/ASS no indented `Format:` line stands where the format line is
/// looked for.
pub open spec fn text_safe(kind: SubtitleKind, text: Seq<char>) -> bool {
    let b = encode_utf8(text);
    match kind {
        SubtitleKind::SRT => short_digit_runs(b),
        SubtitleKind::ASS => short_digit_runs(b) && format_lines_ok(b),
    }
}

/// Whether `text` is safe to hand to the subtitle parser of `kind`.
pub fn subtitle_text_safe(kind: SubtitleKind, text: &str) -> (r: bool)
    ensures
        r == text_safe(kind, text@),
{
    let b = text.as_bytes();
    let n = b.len();
    let mut run: usize = 0;
    let mut i: usize = 0;
    while i < n
        invariant
            n == b@.len(),
            b@ == encode_utf8(text@),
            i <= n,
            run <= 9,
            run <= i,
            forall|k: int| i - run <= k < i ==> is_digit_byte(#[trigger] b@[k]),
            i - run == 0 || !is_digit_byte(b@[i - run - 1]),
            forall|w: int| 0 <= w && w + 10 <= i ==> !#[trigger] digit_window(b@, w),
        decreases n - i,
    {
        let c = b[i];
        if 0x30 <= c && c <= 0x39 {
            if run == 9 {
                assert(digit_window(b@, i - 9));
                return false;
            }
            proof {
                assert forall|w: int| 0 <= w && w + 10 <= i + 1 implies !#[trigger] digit_window(b@, w) by {
                    if w + 10 == i + 1 {
                        assert(!is_digit_byte(b@[i - run - 1]));
                    }
                }
            }
            run = run + 1;
        } else {
            proof {
                assert forall|w: int| 0 <= w && w + 10 <= i + 1 implies !#[trigger] digit_window(b@, w) by {
                    if w + 10 == i + 1 {
                        assert(!is_digit_byte(b@[i as int]));
                    }
                }
            }
            run = 0;
        }
        i = i + 1;
    }
    match kind {
        SubtitleKind::SRT => {
            return true;
        },
        SubtitleKind::ASS => {},
    }
    let mut seen = false;
    let mut p: usize = 0;
    while p < n
        invariant
            n == b@.len(),
            b@ == encode_utf8(text@),
            short_digit_runs(b@),
            kind == SubtitleKind::ASS,
            p <= n,
            seen == printable_before(b@, p as int),
            forall|q: int|
                0 <= q < p && q + 7 <= n && #[trigger] format_at(b@, q) ==> (q == 0 || b@[q - 1] == 0x0a
                    || printable_before(b@, q)),
        decreases n - p,
    {
        if n - p >= 7 && b[p] == 0x46 && b[p + 1] == 0x6f && b[p + 2] == 0x72 && b[p + 3] == 0x6d
            && b[p + 4] == 0x61 && b[p + 5] == 0x74 && b[p + 6] == 0x3a {
            if !(p == 0 || b[p - 1] == 0x0a || seen) {
                assert(format_at(b@, p as int));
                return false;
            }
        }
        let c = b[p];
        proof {
            if c == 0x0a {
                if printable_before(b@, p + 1) {
                    let q = choose|q: int|
                        0 <= q < p + 1 && is_printable_byte(#[trigger] b@[q]) && forall|r: int|
                            q <= r < p + 1 ==> b@[r] != 0x0a;
                    assert(b@[p as int] != 0x0a);
                }
            } else if 0x21 <= c && c <= 0x7e {
                assert(printable_before(b@, p + 1)) by {
                    assert(is_printable_byte(b@[p as int]));
                }
            } else {
                if printable_before(b@, p + 1) {
                    let q = choose|q: int|
                        0 <= q < p + 1 && is_printable_byte(#[trigger] b@[q]) && forall|r: int|
                            q <= r < p + 1 ==> b@[r] != 0x0a;
                    assert(q != p);
                    assert(printable_before(b@, p as int));
                }
                if printable_before(b@, p as int) {
                    let q = choose|q: int|
                        0 <= q < p && is_printable_byte(#[trigger] b@[q]) && forall|r: int| q <= r < p ==> b@[r]
                            != 0x0a;
                    assert(forall|r: int| q <= r < p + 1 ==> b@[r] != 0x0a);
                    assert(printable_before(b@, p + 1));
                }
            }
        }
        if c == 0x0a {
            seen = false;
        } else if 0x21 <= c && c <= 0x7e {
            seen = true;
        }
        p = p + 1;
    }
    true
}

/// The entries that subparse reads from an SRT text, or `None` when it
/// rejects the text.
pub uninterp spec fn srt_entries(s: Seq<char>) -> Option<Seq<SubtitleEntryView>>;

/// The entries that subparse reads from an SSA/ASS text, or `None` when it
/// rejects the text.
pub uninterp spec fn ssa_entries(s: Seq<char>) -> Option<Seq<SubtitleEntryView>>;

/// Relies on subparse's `SrtFile::parse` and `get_subtitle_entries`, and on
/// `TimePoint::msecs` for the total milliseconds of each time. subparse reads
/// every number with `i64::from_str(..).unwrap()` and scales it unchecked,
/// so texts with longer digit runs are left out.
#[verifier::external_body]
fn parse_srt(s: &str) -> (r: Option<Vec<SubtitleEntry>>)
    requires
        text_safe(SubtitleKind::SRT, s@),
    ensures
        match r {
            Some(v) => srt_entries(s@) == Some(entries_view(v@)),
            None => srt_entries(s@) is None,
        },
{
    let time = |t: subparse::timetypes::TimePoint| Timestamp::new(t.msecs());
    match subparse::SrtFile::parse(s) {
        Ok(f) => Some(f.get_subtitle_entries().unwrap_or(Vec::new()).into_iter().map(
            |e| SubtitleEntry::new(time(e.timespan.start), time(e.timespan.end), e.line),
        ).collect()),
        Err(_) => None,
    }
}

/// Relies on subparse's `SsaFile::parse` and `get_subtitle_entries`, and on
/// `TimePoint::msecs` for the total milliseconds of each time. Besides the
/// digit runs, subparse asserts that the format line it found by its
/// trimmed text starts with `Format:` itself; such texts are left out.
#[verifier::external_body]
fn parse_ssa(s: &str) -> (r: Option<Vec<SubtitleEntry>>)
    requires
        text_safe(SubtitleKind::ASS, s@),
    ensures
        match r {
            Some(v) => ssa_entries(s@) == Some(entries_view(v@)),
            None => ssa_entries(s@) is None,
        },
{
    let time = |t: subparse::timetypes::TimePoint| Timestamp::new(t.msecs());
    match subparse::SsaFile::parse(s) {
        Ok(f) => Some(f.get_subtitle_entries().unwrap_or(Vec::new()).into_iter().map(
            |e| SubtitleEntry::new(time(e.timespan.start), time(e.timespan.end), e.line),
        ).collect()),
        Err(_) => None,
    }
}

/// The state of the lyric compiler: the commands so far, the end of the
/// last lyric in milliseconds, and the index of the next lyric.
pub ghost struct LyricState {
    pub commands: Seq<CommandView>,
    pub last_end: int,
    pub idx: int,
}

/// One subtitle compiled: an entry without text is passed over; otherwise
/// the lyric is shown at its start and reset at its end, and when it starts
/// as the previous one ends, that one's reset is taken back.
pub open spec fn lyric_step(st: LyricState, e: SubtitleEntryView) -> LyricState {
    if e.line is None {
        st
    } else {
        let s = millis_of(e.start);
        let en = millis_of(e.end);
        let kept = if s == st.last_end && st.commands.len() >= 2 {
            st.commands.subrange(0, st.commands.len() - 2)
        } else {
            st.commands
        };
        LyricState {
            commands: kept + seq![
                time_view((s * 100) as i32),
                lyric_view(st.idx as i32, -1i32),
                time_view((en * 100) as i32),
                lyric_view(0, -1i32),
            ],
            last_end: en,
            idx: st.idx + 1,
        }
    }
}

/// The compiler's state after the entries `es`.
pub open spec fn lyric_state(es: Seq<SubtitleEntryView>) -> LyricState
    decreases es.len(),
{
    if es.len() == 0 {
        LyricState { commands: Seq::empty(), last_end: 0, idx: 1 }
    } else {
        lyric_step(lyric_state(es.drop_last()), es.last())
    }
}

/// The commands compiled from the entries `es`.
pub open spec fn lyric_commands(es: Seq<SubtitleEntryView>) -> Seq<CommandView> {
    lyric_state(es).commands
}

/// The diagnostic key line of a lyric: `pv_NNN.lyric.III=text`, with
/// `lyric_en` for English lyrics and numbers padded to three digits.
pub open spec fn lyric_line_text(pv_id: u16, is_english: bool, idx: i32, text: Seq<char>) -> Seq<char> {
    "pv_"@ + zero_padded(decimal(pv_id as int), 3) + "."@ + (if is_english {
        "lyric_en"@
    } else {
        "lyric"@
    }) + "."@ + zero_padded(decimal(idx as int), 3) + "="@ + text
}

/// Builds the diagnostic key line of a lyric.
pub fn lyric_line(pv_id: u16, is_english: bool, idx: i32, text: &str) -> (r: String)
    requires
        idx >= 0,
    ensures
        r@ == lyric_line_text(pv_id, is_english, idx, text@),
{
    let mut out = String::from_str("pv_");
    let pv = zero_pad3(pv_id as i32);
    out.append(pv.as_str());
    out.append(".");
    if is_english {
        out.append("lyric_en");
    } else {
        out.append("lyric");
    }
    out.append(".");
    let index = zero_pad3(idx);
    out.append(index.as_str());
    out.append("=");
    out.append(text);
    out
}

/// Whether entries can be compiled: their times fit the tick domain and
/// there are few enough to be numbered with 32 bits.
pub open spec fn entries_usable(es: Seq<SubtitleEntryView>) -> bool {
    entries_fit(es) && es.len() < i32::MAX
}

/// The key lines of the entries that have text, in order; the i-th of them
/// (from 1) carries the index i and the text without surrounding white space.
pub open spec fn key_lines(es: Seq<SubtitleEntryView>, pv_id: u16, is_english: bool) -> Seq<Seq<char>>
    decreases es.len(),
{
    if es.len() == 0 {
        Seq::empty()
    } else {
        let prev = key_lines(es.drop_last(), pv_id, is_english);
        match es.last().line {
            None => prev,
            Some(t) => prev.push(lyric_line_text(pv_id, is_english, (prev.len() + 1) as i32, trimmed(t))),
        }
    }
}

/// The length warnings for key lines: (index, maximum, byte length) of each
/// line longer than `max` bytes, in order.
pub open spec fn length_warnings(lines: Seq<Seq<char>>, max: u16) -> Seq<LogEntry>
    decreases lines.len(),
{
    if lines.len() == 0 {
        Seq::empty()
    } else {
        let prev = length_warnings(lines.drop_last(), max);
        let n = encode_utf8(lines.last()).len() as usize;
        if n > max {
            prev.push(LogEntry::ProblematicLine(lines.len() as i32, max, n))
        } else {
            prev
        }
    }
}

/// What compiling the entries reports: every key line, then the warnings.
pub open spec fn lyric_log(es: Seq<SubtitleEntryView>, pv_id: u16, is_english: bool, max: u16) -> Seq<
    LogEntry,
> {
    key_lines(es, pv_id, is_english).map_values(|l: Seq<char>| LogEntry::LyricsLine(l)) + length_warnings(
        key_lines(es, pv_id, is_english),
        max,
    )
}

/// The entries of a subtitle file, to be compiled into lyric commands.
pub struct SubtitleFile {
    entries: Vec<SubtitleEntry>,
}

impl SubtitleFile {
    /// The entries of this file.
    pub closed spec fn entries(&self) -> Seq<SubtitleEntryView> {
        entries_view(self.entries@)
    }

    /// Whether the entries can be compiled.
    pub open spec fn wf(&self) -> bool {
        entries_usable(self.entries())
    }

    fn from_parsed(parsed: Option<Vec<SubtitleEntry>>) -> (r: ApplicationResult<Self>)
        ensures
            match parsed {
                Some(v) => if entries_usable(entries_view(v@)) {
                    r matches Ok(f) && f.entries() == entries_view(v@) && f.wf()
                } else {
                    r matches Err(e) && e@ == ErrorView::InvalidSubtitleFile
                },
                None => r matches Err(e) && e@ == ErrorView::InvalidSubtitleFile,
            },
    {
        let ghost whole = parsed;
        match parsed {
            Some(entries) => {
                if entries.len() >= 0x7fff_ffff {
                    return Err(ApplicationError::InvalidSubtitleFile);
                }
                let ghost es = entries_view(entries@);
                let mut i: usize = 0;
                while i < entries.len()
                    invariant
                        parsed == whole,
                        i <= entries.len(),
                        es == entries_view(entries@),
                        whole == Some(entries),
                        forall|k: int| 0 <= k < i ==> (#[trigger] es[k]).start.fits() && es[k].end.fits(),
                    decreases entries.len() - i,
                {
                    let e = &entries[i];
                    assert(es[i as int] == e@);
                    if e.start.msecs < -21474836 || e.start.msecs > 21474836 || e.end.msecs < -21474836
                        || e.end.msecs > 21474836 {
                        assert(!(es[i as int].start.fits() && es[i as int].end.fits()));
                        assert(!entries_fit(es));
                        assert(!entries_usable(entries_view(entries@)));
                        return Err(ApplicationError::InvalidSubtitleFile);
                    }
                    i = i + 1;
                }
                Ok(SubtitleFile { entries })
            },
            None => Err(ApplicationError::InvalidSubtitleFile),
        }
    }

    /// Reads the entries of an SRT text.
    pub fn load_srt(contents: &str) -> (r: ApplicationResult<Self>)
        requires
            text_safe(SubtitleKind::SRT, contents@),
        ensures
            match srt_entries(contents@) {
                Some(es) => if entries_usable(es) {
                    r matches Ok(f) && f.entries() == es && f.wf()
                } else {
                    r matches Err(e) && e@ == ErrorView::InvalidSubtitleFile
                },
                None => r matches Err(e) && e@ == ErrorView::InvalidSubtitleFile,
            },
    {
        Self::from_parsed(parse_srt(contents))
    }

    /// Reads the entries of an SSA or ASS text.
    pub fn load_ass(contents: &str) -> (r: ApplicationResult<Self>)
        requires
            text_safe(SubtitleKind::ASS, contents@),
        ensures
            match ssa_entries(contents@) {
                Some(es) => if entries_usable(es) {
                    r matches Ok(f) && f.entries() == es && f.wf()
                } else {
                    r matches Err(e) && e@ == ErrorView::InvalidSubtitleFile
                },
                None => r matches Err(e) && e@ == ErrorView::InvalidSubtitleFile,
            },
    {
        Self::from_parsed(parse_ssa(contents))
    }

    /// Compiles the entries into lyric commands. It reports each lyric's key
    /// line to `logger`, and then a warning for each key line longer in
    /// bytes than `max_line_length`.
    pub fn create_lyric_commands<L: Logger>(
        &self,
        pv_id: u16,
        is_english: bool,
        max_line_length: u16,
        logger: &mut L,
    ) -> (r: ApplicationResult<Vec<Command>>)
        requires
            self.wf(),
        ensures
            r matches Ok(v) && commands_view(v@) == lyric_commands(self.entries()),
            final(logger).history() == old(logger).history() + lyric_log(
                self.entries(),
                pv_id,
                is_english,
                max_line_length,
            ),
    {
        let ghost es = self.entries();
        let ghost h0 = logger.history();
        let mut command_buffer: Vec<Command> = Vec::new();
        let mut problematic_lines: Vec<(i32, usize)> = Vec::new();
        let mut idx: i32 = 1;
        let mut last_end_time_ms: i32 = 0;
        let mut i: usize = 0;
        assert(es.subrange(0, 0) =~= Seq::<SubtitleEntryView>::empty());
        assert(commands_view(command_buffer@) =~= Seq::<CommandView>::empty());
        assert(h0 + Seq::<Seq<char>>::empty().map_values(|l: Seq<char>| LogEntry::LyricsLine(l)) =~= h0);
        assert(problematic_lines@.map_values(
            |p: (i32, usize)| LogEntry::ProblematicLine(p.0, max_line_length, p.1),
        ) =~= Seq::<LogEntry>::empty());
        while i < self.entries.len()
            invariant
                i <= self.entries.len(),
                es == self.entries(),
                self.wf(),
                1 <= idx <= i + 1,
                commands_view(command_buffer@) == lyric_state(es.subrange(0, i as int)).commands,
                last_end_time_ms == lyric_state(es.subrange(0, i as int)).last_end,
                idx == lyric_state(es.subrange(0, i as int)).idx,
                idx == key_lines(es.subrange(0, i as int), pv_id, is_english).len() + 1,
                logger.history() == h0 + key_lines(es.subrange(0, i as int), pv_id, is_english).map_values(
                    |l: Seq<char>| LogEntry::LyricsLine(l),
                ),
                problematic_lines@.map_values(
                    |p: (i32, usize)| LogEntry::ProblematicLine(p.0, max_line_length, p.1),
                ) == length_warnings(key_lines(es.subrange(0, i as int), pv_id, is_english), max_line_length),
            decreases self.entries.len() - i,
        {
            let subtitle = &self.entries[i];
            let ghost prefix = es.subrange(0, i + 1);
            let ghost lines = key_lines(es.subrange(0, i as int), pv_id, is_english);
            assert(prefix.drop_last() =~= es.subrange(0, i as int));
            assert(prefix.last() == subtitle@);
            assert(es[i as int] == subtitle@);
            match &subtitle.line {
                None => {},
                Some(text) => {
                    let clean_line = trim_str(text.as_str());
                    let start_time_ms = timestamp_to_millis(subtitle.start);
                    let end_time_ms = timestamp_to_millis(subtitle.end);
                    let ghost before = commands_view(command_buffer@);
                    if start_time_ms == last_end_time_ms && command_buffer.len() >= 2 {
                        let keep = command_buffer.len() - 2;
                        command_buffer.truncate(keep);
                        assert(commands_view(command_buffer@) =~= before.subrange(0, before.len() - 2));
                    }
                    let ghost kept = commands_view(command_buffer@);
                    last_end_time_ms = end_time_ms;
                    command_buffer.push(get_time_command(start_time_ms * 100));
                    command_buffer.push(get_lyric_command(idx, -1));
                    command_buffer.push(get_time_command(end_time_ms * 100));
                    command_buffer.push(get_lyric_command(0, -1));
                    assert(commands_view(command_buffer@) =~= kept + seq![
                        time_view((start_time_ms * 100) as i32),
                        lyric_view(idx, -1i32),
                        time_view((end_time_ms * 100) as i32),
                        lyric_view(0, -1i32),
                    ]);
                    let line = lyric_line(pv_id, is_english, idx, clean_line);
                    let ghost line_view = line@;
                    let ghost new_lines = lines.push(line_view);
                    assert(key_lines(prefix, pv_id, is_english) == new_lines);
                    assert(new_lines.drop_last() =~= lines);
                    let line_str = line.as_str();
                    let length = line_str.len();
                    assert(line_str@ == line_view);
                    assert(line_str.spec_bytes() == encode_utf8(line_view));
                    assert(length == encode_utf8(line_view).len() as usize);
                    assert(new_lines.len() == idx);
                    assert(new_lines.last() == line_view);
                    let ghost pbefore = problematic_lines@;
                    if length > max_line_length as usize {
                        problematic_lines.push((idx, length));
                        assert(problematic_lines@.map_values(
                            |p: (i32, usize)| LogEntry::ProblematicLine(p.0, max_line_length, p.1),
                        ) =~= pbefore.map_values(
                            |p: (i32, usize)| LogEntry::ProblematicLine(p.0, max_line_length, p.1),
                        ).push(LogEntry::ProblematicLine(idx, max_line_length, length)));
                    }
                    assert(problematic_lines@.map_values(
                        |p: (i32, usize)| LogEntry::ProblematicLine(p.0, max_line_length, p.1),
                    ) =~= length_warnings(new_lines, max_line_length));
                    let ghost hbefore = logger.history();
                    logger.log_lyrics_line(line);
                    assert(new_lines.map_values(|l: Seq<char>| LogEntry::LyricsLine(l)) =~= lines.map_values(
                        |l: Seq<char>| LogEntry::LyricsLine(l),
                    ).push(LogEntry::LyricsLine(line_view)));
                    assert(logger.history() =~= h0 + new_lines.map_values(
                        |l: Seq<char>| LogEntry::LyricsLine(l),
                    ));
                    idx = idx + 1;
                },
            }
            i = i + 1;
        }
        assert(es.subrange(0, i as int) =~= es);
        let ghost lines = key_lines(es, pv_id, is_english);
        let ghost warns = length_warnings(lines, max_line_length);
        let ghost h1 = logger.history();
        let mut k: usize = 0;
        assert(warns.subrange(0, 0) =~= Seq::<LogEntry>::empty());
        assert(h1 + warns.subrange(0, 0) =~= h1);
        while k < problematic_lines.len()
            invariant
                k <= problematic_lines.len(),
                problematic_lines@.map_values(
                    |p: (i32, usize)| LogEntry::ProblematicLine(p.0, max_line_length, p.1),
                ) == warns,
                logger.history() == h1 + warns.subrange(0, k as int),
            decreases problematic_lines.len() - k,
        {
            let (line, actual) = problematic_lines[k];
            logger.log_problematic_lyrics_line(line, max_line_length, actual);
            assert(warns[k as int] == LogEntry::ProblematicLine(line, max_line_length, actual));
            assert(warns.subrange(0, k + 1) =~= warns.subrange(0, k as int).push(warns[k as int]));
            k = k + 1;
        }
        assert(warns.subrange(0, k as int) =~= warns);
        assert(logger.history() =~= h0 + lyric_log(es, pv_id, is_english, max_line_length));
        Ok(command_buffer)
    }
}

/// The commands compiled from two entries.
pub open spec fn lyric_commands_of_two(e1: SubtitleEntryView, e2: SubtitleEntryView) -> Seq<CommandView> {
    lyric_commands(seq![e1, e2])
}

/// When a lyric starts as the previous one ends, the reset between them is
/// taken back: two lyrics compile to one time marker at the shared tick,
/// not two.
pub proof fn lemma_coalesce(e1: SubtitleEntryView, e2: SubtitleEntryView)
    requires
        e1.line is Some,
        e2.line is Some,
        e1.start.fits() && e1.end.fits() && e2.start.fits() && e2.end.fits(),
        millis_of(e2.start) == millis_of(e1.end),
    ensures
        lyric_commands(seq![e1, e2]) == seq![
            time_view((millis_of(e1.start) * 100) as i32),
            lyric_view(1, -1i32),
            time_view((millis_of(e1.end) * 100) as i32),
            lyric_view(2, -1i32),
            time_view((millis_of(e2.end) * 100) as i32),
            lyric_view(0, -1i32),
        ],
        millis_of(e1.start) != millis_of(e1.end) && millis_of(e2.end) != millis_of(e1.end) ==> forall|i: int|
            0 <= i < 6 && #[trigger] lyric_commands_of_two(e1, e2)[i] == time_view(
                (millis_of(e1.end) * 100) as i32,
            ) ==> i == 2,
{
    let es = seq![e1, e2];
    assert(es.drop_last() =~= seq![e1]);
    assert(seq![e1].drop_last() =~= Seq::<SubtitleEntryView>::empty());
    let st0 = lyric_state(Seq::<SubtitleEntryView>::empty());
    assert(st0.commands.len() == 0 && st0.last_end == 0 && st0.idx == 1);
    assert(seq![e1].last() == e1);
    assert(es.last() == e2);
    let st1 = lyric_state(seq![e1]);
    assert(st1 == lyric_step(st0, e1));
    assert(st1.commands =~= seq![
        time_view((millis_of(e1.start) * 100) as i32),
        lyric_view(1, -1i32),
        time_view((millis_of(e1.end) * 100) as i32),
        lyric_view(0, -1i32),
    ]);
    assert(lyric_state(es) == lyric_step(st1, e2));
    let a = (millis_of(e1.start) * 100) as i32;
    let t = (millis_of(e1.end) * 100) as i32;
    let z = (millis_of(e2.end) * 100) as i32;
    assert(-2147483600 <= millis_of(e1.start) * 100 <= 2147483600);
    assert(-2147483600 <= millis_of(e1.end) * 100 <= 2147483600);
    assert(-2147483600 <= millis_of(e2.end) * 100 <= 2147483600);
    if millis_of(e1.start) != millis_of(e1.end) && millis_of(e2.end) != millis_of(e1.end) {
        assert forall|i: int| 0 <= i < 6 && #[trigger] lyric_commands_of_two(e1, e2)[i] == time_view(t)
            implies i == 2 by {
            let c = lyric_commands_of_two(e1, e2)[i];
            assert(c.args[0] == t);
            if i == 0 {
                assert(c.args[0] == a);
            } else if i == 4 {
                assert(c.args[0] == z);
            } else if i != 2 {
                assert(c.meta.opcode == Opcode::LYRIC);
            }
        }
    }
    let cs = lyric_commands(es);
    assert(cs =~= seq![
        time_view((millis_of(e1.start) * 100) as i32),
        lyric_view(1, -1i32),
        time_view((millis_of(e1.end) * 100) as i32),
        lyric_view(2, -1i32),
        time_view((millis_of(e2.end) * 100) as i32),
        lyric_view(0, -1i32),
    ]);
}

} // verus!
