use vstd::prelude::*;

use vstd::string::*;

use crate::binary::{
    command_bytes, decode_from, encode_commands, end_view, header_bytes, header_len,
    lemma_encode_concat, lemma_words_concat, prepend, push_word, read_word, spec_decode, spec_encode,
    words_at, words_bytes, ALT_TERMINATOR,
};
use crate::common::Game;
use crate::error::{ApplicationError, ApplicationResult, ErrorView};
use crate::logger::Logger;
use crate::opcodes::{command_text, Command, CommandView, Opcode, OpcodeMeta};
use crate::plaintext::{decode_lines, normalized, parse_args, parse_line, prepend_lines};
use crate::subtitle::{
    entries_usable, lyric_commands, lyric_log, srt_entries, ssa_entries, text_safe, SubtitleFile,
    SubtitleKind,
};
use crate::logger::LogEntry;
use crate::text::{parse_i32, remove_noise, split_char, strings_view, trim_str};

verus! {

/// A timeline: an ordered sequence of commands, and whether the target
/// commands of this source are to be dropped when it is merged.
pub struct DSCVM {
    pub command_buffer: Vec<Command>,
    pub remove_targets: bool,
}

/// The commands of a timeline, as values.
pub open spec fn commands_view(v: Seq<Command>) -> Seq<CommandView> {
    v.map_values(|c: Command| c@)
}

impl DSCVM {
    /// The commands of this timeline, as values.
    pub open spec fn commands(&self) -> Seq<CommandView> {
        commands_view(self.command_buffer@)
    }

    pub fn new(remove_targets: bool) -> (r: Self)
        ensures
            r.commands() == Seq::<CommandView>::empty(),
            r.remove_targets == remove_targets,
    {
        DSCVM { command_buffer: Vec::new(), remove_targets }
    }

    pub fn add_command(&mut self, command: Command)
        ensures
            final(self).commands() == old(self).commands().push(command@),
            final(self).remove_targets == old(self).remove_targets,
    {
        self.command_buffer.push(command);
        assert(commands_view(self.command_buffer@) =~= old(self).commands().push(command@));
    }
}

/// The text of a dumped timeline: one command line per command, each
/// followed by a line break.
pub open spec fn dump_text(cs: Seq<CommandView>) -> Seq<char>
    decreases cs.len(),
{
    if cs.len() == 0 {
        Seq::empty()
    } else {
        dump_text(cs.drop_last()) + command_text(cs.last()) + "\n"@
    }
}

impl DSCVM {
    /// Decodes a binary timeline of `game`.
    pub fn load(game: Game, data: &[u8], remove_targets: bool) -> (r: ApplicationResult<Self>)
        ensures
            match spec_decode(game, data@) {
                Ok(cs) => r matches Ok(vm) && vm.commands() == cs && vm.remove_targets == remove_targets,
                Err(e) => r == Err::<DSCVM, ApplicationError>(e),
            },
    {
        let skip: usize = match game {
            Game::F | Game::FutureTone => 4,
            Game::F2nd | Game::X => 72,
            Game::Arcade => {
                return Err(ApplicationError::UnsupportedGame(game));
            },
        };
        let ghost b = data@;
        let mut command_buffer: Vec<Command> = Vec::new();
        let mut pos: usize = skip;
        assert(commands_view(command_buffer@) =~= Seq::<CommandView>::empty());
        assert(prepend(Seq::empty(), decode_from(game, b, pos as int)) == decode_from(game, b, pos as int)) by {
            match decode_from(game, b, pos as int) {
                Ok(rest) => {
                    assert(Seq::<CommandView>::empty() + rest =~= rest);
                },
                Err(_) => {},
            }
        }
        loop
            invariant
                b == data@,
                skip == header_len(game),
                game != Game::Arcade,
                decode_from(game, b, skip as int) == prepend(
                    commands_view(command_buffer@),
                    decode_from(game, b, pos as int),
                ),
            decreases data@.len() - pos,
        {
            if pos > data.len() || data.len() - pos < 4 {
                return Err(ApplicationError::TruncatedInput);
            }
            let opcode = read_word(data, pos);
            if opcode == 0 || (opcode == ALT_TERMINATOR && (game == Game::F2nd || game == Game::X)) {
                let ghost before = commands_view(command_buffer@);
                command_buffer.push(Command::new(OpcodeMeta::new(0, Opcode::END, 0), Vec::new()));
                assert(commands_view(command_buffer@) =~= before + seq![end_view()]);
                return Ok(DSCVM { command_buffer, remove_targets });
            }
            let meta = match Command::get_opcode_meta(game, opcode) {
                Ok(m) => m,
                Err(e) => {
                    return Err(e);
                },
            };
            let avail = data.len() - pos - 4;
            proof {
                vstd::arithmetic::div_mod::lemma_fundamental_div_mod(avail as int, 4);
            }
            if meta.param_count > avail / 4 {
                return Err(ApplicationError::TruncatedInput);
            }
            let mut args: Vec<i32> = Vec::new();
            let mut k: usize = 0;
            assert(data@.len() == data.len());
            while k < meta.param_count
                invariant
                    b == data@,
                    k <= meta.param_count,
                    pos + 4 + 4 * meta.param_count <= data@.len(),
                    data@.len() <= usize::MAX,
                    args@ =~= words_at(b, pos + 4, k as nat),
                decreases meta.param_count - k,
            {
                args.push(read_word(data, pos + 4 + 4 * k));
                k = k + 1;
            }
            let ghost before = commands_view(command_buffer@);
            let command = Command::new(meta, args);
            command_buffer.push(command);
            let next = pos + 4 + 4 * meta.param_count;
            assert(commands_view(command_buffer@) =~= before + seq![command@]);
            proof {
                match decode_from(game, b, next as int) {
                    Ok(rest) => {
                        assert(before + (seq![command@] + rest) =~= before + seq![command@] + rest);
                    },
                    Err(_) => {},
                }
            }
            pos = next;
        }
    }

    /// Encodes this timeline for `game`: the release's header, then each
    /// command's id and arguments as little-endian 32-bit words.
    pub fn write(&self, game: Game) -> (r: ApplicationResult<Vec<u8>>)
        ensures
            match spec_encode(game, self.commands()) {
                Ok(bytes) => r matches Ok(out) && out@ == bytes,
                Err(e) => r == Err::<Vec<u8>, ApplicationError>(e),
            },
    {
        let mut out: Vec<u8> = Vec::new();
        match game {
            Game::F => {
                push_word(&mut out, 302121504);
            },
            Game::FutureTone => {
                push_word(&mut out, 335874337);
            },
            Game::F2nd | Game::X => {
                push_word(&mut out, 1129535056);
                let mut k: usize = 0;
                while k < 72
                    invariant
                        k <= 72,
                        out@ =~= crate::binary::word_bytes(1129535056) + Seq::new(k as nat, |i: int| 0u8),
                    decreases 72 - k,
                {
                    out.push(0);
                    k = k + 1;
                }
            },
            Game::Arcade => {
                return Err(ApplicationError::UnsupportedGame(game));
            },
        }
        let ghost cs = self.commands();
        assert(encode_commands(cs.subrange(0, 0)) =~= Seq::<u8>::empty());
        let mut i: usize = 0;
        while i < self.command_buffer.len()
            invariant
                game != Game::Arcade,
                i <= self.command_buffer.len(),
                cs == self.commands(),
                out@ =~= header_bytes(game) + encode_commands(cs.subrange(0, i as int)),
            decreases self.command_buffer.len() - i,
        {
            let command = &self.command_buffer[i];
            let ghost before = out@;
            push_word(&mut out, command.meta.id);
            let mut k: usize = 0;
            assert(words_bytes(command.args@.subrange(0, 0)) =~= Seq::<u8>::empty());
            while k < command.args.len()
                invariant
                    k <= command.args.len(),
                    out@ =~= before + crate::binary::word_bytes(command.meta.id) + words_bytes(
                        command.args@.subrange(0, k as int),
                    ),
                decreases command.args.len() - k,
            {
                push_word(&mut out, command.args[k]);
                proof {
                    lemma_words_concat(command.args@.subrange(0, k as int), seq![command.args@[k as int]]);
                    assert(command.args@.subrange(0, k + 1) =~= command.args@.subrange(0, k as int)
                        + seq![command.args@[k as int]]);
                    assert(seq![command.args@[k as int]].drop_first() =~= Seq::<i32>::empty());
                    assert(words_bytes(Seq::<i32>::empty()) =~= Seq::<u8>::empty());
                    assert(words_bytes(seq![command.args@[k as int]]) =~= crate::binary::word_bytes(
                        command.args@[k as int],
                    ));
                }
                k = k + 1;
            }
            proof {
                assert(command.args@.subrange(0, k as int) =~= command.args@);
                lemma_encode_concat(cs.subrange(0, i as int), seq![command@]);
                assert(cs.subrange(0, i + 1) =~= cs.subrange(0, i as int) + seq![command@]);
                assert(seq![command@].drop_first() =~= Seq::<CommandView>::empty());
                assert(encode_commands(Seq::<CommandView>::empty()) =~= Seq::<u8>::empty());
                assert(encode_commands(seq![command@]) =~= command_bytes(command@));
            }
            i = i + 1;
        }
        assert(cs.subrange(0, i as int) =~= cs);
        Ok(out)
    }

    /// Renders every command as `NAME(arg1, arg2, ...);` on a line of its own.
    pub fn dump(&self) -> (r: String)
        ensures
            r@ == dump_text(self.commands()),
    {
        let ghost cs = self.commands();
        let mut output = String::new();
        let mut i: usize = 0;
        while i < self.command_buffer.len()
            invariant
                i <= self.command_buffer.len(),
                cs == self.commands(),
                output@ == dump_text(cs.subrange(0, i as int)),
            decreases self.command_buffer.len() - i,
        {
            let line = self.command_buffer[i].to_string();
            output.append(line.as_str());
            output.append("\n");
            let ghost next = cs.subrange(0, i + 1);
            assert(next.drop_last() =~= cs.subrange(0, i as int));
            i = i + 1;
        }
        assert(cs.subrange(0, i as int) =~= cs);
        output
    }
}

/// Parses the argument tokens of a plaintext command.
fn parse_arguments(tokens: &Vec<String>) -> (r: Result<Vec<i32>, usize>)
    ensures
        match parse_args(strings_view(tokens@)) {
            Ok(args) => r matches Ok(v) && v@ == args,
            Err(t) => r matches Err(k) && k < tokens.len() && tokens@[k as int]@ == t,
        },
{
    let ghost toks = strings_view(tokens@);
    let mut args: Vec<i32> = Vec::new();
    let mut i: usize = 0;
    assert(toks.skip(0) =~= toks);
    while i < tokens.len()
        invariant
            i <= tokens.len(),
            toks == strings_view(tokens@),
            parse_args(toks) == match parse_args(toks.skip(i as int)) {
                Ok(rest) => Ok(args@ + rest),
                Err(t) => Err::<Seq<i32>, Seq<char>>(t),
            },
        decreases tokens.len() - i,
    {
        let ghost rest = toks.skip(i as int);
        assert(rest[0] == tokens@[i as int]@);
        assert(rest.drop_first() =~= toks.skip(i + 1));
        match parse_i32(tokens[i].as_str()) {
            None => {
                return Err(i);
            },
            Some(v) => {
                let ghost before = args@;
                args.push(v);
                proof {
                    match parse_args(toks.skip(i + 1)) {
                        Ok(r2) => {
                            assert(before + (seq![v] + r2) =~= args@ + r2);
                        },
                        Err(_) => {},
                    }
                }
            },
        }
        i = i + 1;
    }
    assert(toks.skip(i as int) =~= Seq::<Seq<char>>::empty());
    assert(args@ + Seq::<i32>::empty() =~= args@);
    Ok(args)
}

/// Parses one plaintext line.
fn parse_plaintext_line(game: Game, line: &str) -> (r: ApplicationResult<Option<Command>>)
    ensures
        match parse_line(game, line@) {
            Ok(None) => r matches Ok(None),
            Ok(Some(c)) => r matches Ok(Some(cmd)) && cmd@ == c,
            Err(e) => r matches Err(err) && err@ == e,
        },
{
    let normalized_line = remove_noise(trim_str(line));
    let ghost norm = normalized(line@);
    assert(normalized_line@ == norm);
    if normalized_line.as_str().unicode_len() == 0 {
        return Ok(None);
    }
    if normalized_line.as_str().get_char(0) == '#' {
        return Ok(None);
    }
    let components = split_char(normalized_line.as_str(), '(');
    if components.len() != 2 {
        return Ok(None);
    }
    let opcode_name = components[0].clone();
    let opcode_meta = match Command::get_opcode_meta_from_name(game, opcode_name) {
        Ok(m) => m,
        Err(e) => {
            return Err(e);
        },
    };
    let tokens = split_char(components[1].as_str(), ',');
    match parse_arguments(&tokens) {
        Err(k) => Err(ApplicationError::ArgumentParseError(components[0].clone(), tokens[k].clone())),
        Ok(args) => {
            if args.len() != opcode_meta.param_count {
                Err(ApplicationError::ArgumentParseError(components[0].clone(), components[1].clone()))
            } else {
                Ok(Some(Command::new(opcode_meta, args)))
            }
        },
    }
}

impl DSCVM {
    /// Decodes a plaintext timeline of `game`, given as its lines.
    pub fn load_plaintext(game: Game, lines: &Vec<String>, remove_targets: bool) -> (r: ApplicationResult<Self>)
        ensures
            match decode_lines(game, strings_view(lines@)) {
                Ok(cs) => r matches Ok(vm) && vm.commands() == cs && vm.remove_targets == remove_targets,
                Err(e) => r matches Err(err) && err@ == e,
            },
    {
        let ghost ls = strings_view(lines@);
        let mut command_buffer: Vec<Command> = Vec::new();
        let mut i: usize = 0;
        assert(ls.skip(0) =~= ls);
        assert(prepend_lines(Seq::empty(), decode_lines(game, ls)) == decode_lines(game, ls)) by {
            match decode_lines(game, ls) {
                Ok(rest) => {
                    assert(Seq::<CommandView>::empty() + rest =~= rest);
                },
                Err(_) => {},
            }
        }
        while i < lines.len()
            invariant
                i <= lines.len(),
                ls == strings_view(lines@),
                decode_lines(game, ls) == prepend_lines(
                    commands_view(command_buffer@),
                    decode_lines(game, ls.skip(i as int)),
                ),
            decreases lines.len() - i,
        {
            let ghost rest = ls.skip(i as int);
            assert(rest[0] == lines@[i as int]@);
            assert(rest.drop_first() =~= ls.skip(i + 1));
            match parse_plaintext_line(game, lines[i].as_str()) {
                Err(e) => {
                    return Err(e);
                },
                Ok(None) => {},
                Ok(Some(command)) => {
                    let ghost before = commands_view(command_buffer@);
                    command_buffer.push(command);
                    assert(commands_view(command_buffer@) =~= before + seq![command@]);
                    proof {
                        match decode_lines(game, ls.skip(i + 1)) {
                            Ok(r2) => {
                                assert(before + (seq![command@] + r2) =~= before + seq![command@] + r2);
                            },
                            Err(_) => {},
                        }
                    }
                },
            }
            i = i + 1;
        }
        assert(ls.skip(i as int) =~= Seq::<Seq<char>>::empty());
        assert(commands_view(command_buffer@) + Seq::<CommandView>::empty() =~= commands_view(command_buffer@));
        Ok(DSCVM { command_buffer, remove_targets })
    }
}

/// The entries that subparse reads from a subtitle text of the given format.
pub open spec fn subtitle_entries(contents: Seq<char>, kind: SubtitleKind) -> Option<
    Seq<crate::subtitle::SubtitleEntryView>,
> {
    match kind {
        SubtitleKind::SRT => srt_entries(contents),
        SubtitleKind::ASS => ssa_entries(contents),
    }
}

/// The commands compiled from the entries that subparse reads from a
/// subtitle text of the given format; `None` where it rejects the text, a
/// time does not fit the tick domain, or the entries are too many to number.
pub open spec fn subtitle_commands(contents: Seq<char>, kind: SubtitleKind) -> Option<Seq<CommandView>> {
    match subtitle_entries(contents, kind) {
        Some(es) => if entries_usable(es) {
            Some(lyric_commands(es))
        } else {
            None
        },
        None => None,
    }
}

impl DSCVM {
    /// Compiles a subtitle text into a timeline of lyric commands; its
    /// target commands, of which it has none, are kept.
    pub fn load_subtitle<L: Logger>(
        contents: &str,
        kind: SubtitleKind,
        pv_id: u16,
        is_english: bool,
        max_line_length: u16,
        logger: &mut L,
    ) -> (r: ApplicationResult<Self>)
        requires
            text_safe(kind, contents@),
        ensures
            match subtitle_commands(contents@, kind) {
                Some(cs) => r matches Ok(vm) && vm.commands() == cs && !vm.remove_targets,
                None => r matches Err(e) && e@ == ErrorView::InvalidSubtitleFile,
            },
            match subtitle_entries(contents@, kind) {
                Some(es) => entries_usable(es) ==> final(logger).history() == old(logger).history()
                    + lyric_log(es, pv_id, is_english, max_line_length),
                None => final(logger).history() == old(logger).history(),
            },
    {
        let subtitle_file = match kind {
            SubtitleKind::SRT => SubtitleFile::load_srt(contents),
            SubtitleKind::ASS => SubtitleFile::load_ass(contents),
        };
        match subtitle_file {
            Ok(subtitle_file) => {
                match subtitle_file.create_lyric_commands(pv_id, is_english, max_line_length, logger) {
                    Ok(command_buffer) => Ok(DSCVM { command_buffer, remove_targets: false }),
                    Err(err) => Err(err),
                }
            },
            Err(_) => Err(ApplicationError::InvalidSubtitleFile),
        }
    }
}

} // verus!
