use vstd::prelude::*;
use vstd::string::*;

use crate::binary::spec_decode;
use crate::common::{ChallengeTime, Game};
use crate::dsc::{subtitle_commands, DSCVM};
use crate::error::{ApplicationError, ApplicationResult, ErrorView};
use crate::logger::Logger;
use crate::merger::{absorb, add_challenge, challenge_fits, flatten, DSCMerger, EventView};
use crate::opcodes::CommandView;
use crate::plaintext::decode_lines;
use crate::subtitle::{kind_of_extension, subtitle_text_safe, text_safe, SubtitleKind};
use crate::text::{lowercase_of, split_char, split_spec, strings_view};

verus! {

/// What reading an input file gave: nothing, when it could not be opened;
/// the reason, when it was opened but could not be read; or its contents.
pub enum FileRead<T> {
    Missing,
    Failed(String),
    Read(T),
}

/// The contents of the input files of a run, in the order of their paths:
/// binary timelines as bytes, plaintext timelines as lines, subtitles as
/// text (`None` when the file is not UTF-8).
pub struct LoadedInputs {
    pub dsc: Vec<FileRead<Vec<u8>>>,
    pub plaintext: Vec<FileRead<Vec<String>>>,
    pub subtitle: Vec<FileRead<Option<String>>>,
}

/// One run: the inputs and the options that the caller collected.
pub struct Application {
    pub dsc_inputs: Vec<String>,
    pub plaintext_inputs: Vec<String>,
    pub subtitle_inputs: Vec<String>,
    pub remove_targets_inputs: Vec<String>,
    pub output: String,
    pub game: Game,
    pub pv_id: u16,
    pub english_lyrics: bool,
    pub max_lyric_length: u16,
    pub dump: bool,
    pub verbose: bool,
    pub challenge_time: Option<ChallengeTime>,
}

/// A timeline to absorb, with its removal flag, or the error that loading it gave.
pub type Loaded = Result<(Seq<CommandView>, bool), ErrorView>;

/// Whether `path` is among the paths whose target commands are dropped.
pub open spec fn removes_targets(remove: Seq<Seq<char>>, path: Seq<char>) -> bool {
    remove.contains(path)
}

/// What the binary input at `path` yields.
pub open spec fn load_binary(game: Game, remove: Seq<Seq<char>>, path: Seq<char>, f: FileRead<Vec<u8>>) -> Loaded {
    match f {
        FileRead::Missing => Err(ErrorView::FileNotFound(path)),
        FileRead::Failed(m) => Err(ErrorView::IOError(m@)),
        FileRead::Read(b) => match spec_decode(game, b@) {
            Ok(cs) => Ok((cs, removes_targets(remove, path))),
            Err(e) => Err(e@),
        },
    }
}

/// What the plaintext input at `path` yields.
pub open spec fn load_text(game: Game, remove: Seq<Seq<char>>, path: Seq<char>, f: FileRead<Vec<String>>) -> Loaded {
    match f {
        FileRead::Missing => Err(ErrorView::FileNotFound(path)),
        FileRead::Failed(m) => Err(ErrorView::IOError(m@)),
        FileRead::Read(lines) => match decode_lines(game, strings_view(lines@)) {
            Ok(cs) => Ok((cs, removes_targets(remove, path))),
            Err(e) => Err(e),
        },
    }
}

/// The format named by the extension of `path`: what follows its last dot.
pub open spec fn path_kind(path: Seq<char>) -> Option<SubtitleKind> {
    kind_of_extension(lowercase_of(split_spec(path, '.').last()))
}

/// What the subtitle input at `path` yields; its extension is looked at
/// before the file. A file that cannot be read, is not UTF-8, or holds text
/// that the parser cannot be trusted with is an invalid subtitle file.
pub open spec fn load_sub(path: Seq<char>, f: FileRead<Option<String>>) -> Loaded {
    match path_kind(path) {
        None => Err(ErrorView::InvalidSubtitleFile),
        Some(kind) => match f {
            FileRead::Missing => Err(ErrorView::FileNotFound(path)),
            FileRead::Failed(_) => Err(ErrorView::InvalidSubtitleFile),
            FileRead::Read(None) => Err(ErrorView::InvalidSubtitleFile),
            FileRead::Read(Some(text)) => if !text_safe(kind, text@) {
                Err(ErrorView::InvalidSubtitleFile)
            } else {
                match subtitle_commands(text@, kind) {
                    Some(cs) => Ok((cs, false)),
                    None => Err(ErrorView::InvalidSubtitleFile),
                }
            },
        },
    }
}

/// The buckets after the loaded timelines are absorbed in order; the first
/// error stops the run.
pub open spec fn absorb_all(evs: Seq<EventView>, loaded: Seq<Loaded>) -> Result<Seq<EventView>, ErrorView>
    decreases loaded.len(),
{
    if loaded.len() == 0 {
        Ok(evs)
    } else {
        match loaded[0] {
            Err(e) => Err(e),
            Ok((cs, remove)) => absorb_all(absorb(evs, 0, cs, remove), loaded.drop_first()),
        }
    }
}

impl Application {
    /// The timelines of a run in the order they are absorbed: the binary
    /// inputs, then the plaintext ones, then the subtitles.
    pub open spec fn sources(&self, inputs: &LoadedInputs) -> Seq<Loaded> {
        let remove = strings_view(self.remove_targets_inputs@);
        Seq::new(
            self.dsc_inputs@.len(),
            |j: int| load_binary(self.game, remove, self.dsc_inputs@[j]@, inputs.dsc@[j]),
        ) + Seq::new(
            self.plaintext_inputs@.len(),
            |j: int| load_text(self.game, remove, self.plaintext_inputs@[j]@, inputs.plaintext@[j]),
        ) + Seq::new(
            self.subtitle_inputs@.len(),
            |j: int| load_sub(self.subtitle_inputs@[j]@, inputs.subtitle@[j]),
        )
    }

    /// Whether `inputs` holds one entry per input path.
    pub open spec fn matches_inputs(&self, inputs: &LoadedInputs) -> bool {
        &&& inputs.dsc@.len() == self.dsc_inputs@.len()
        &&& inputs.plaintext@.len() == self.plaintext_inputs@.len()
        &&& inputs.subtitle@.len() == self.subtitle_inputs@.len()
    }

    /// What a run yields: the merged timeline, or its first error.
    pub open spec fn outcome(&self, inputs: &LoadedInputs) -> Result<Seq<CommandView>, ErrorView> {
        if self.dsc_inputs@.len() == 0 && self.plaintext_inputs@.len() == 0
            && self.subtitle_inputs@.len() == 0 {
            Err(ErrorView::NoInputFiles)
        } else {
            match absorb_all(Seq::empty(), self.sources(inputs)) {
                Err(e) => Err(e),
                Ok(evs) => Ok(
                    flatten(
                        match self.challenge_time {
                            Some(ct) => add_challenge(evs, ct),
                            None => evs,
                        },
                    ),
                ),
            }
        }
    }

    pub fn new(
        dsc_inputs: Vec<String>,
        plaintext_inputs: Vec<String>,
        subtitle_inputs: Vec<String>,
        remove_targets_inputs: Vec<String>,
        output: String,
        game: Game,
        pv_id: u16,
        english_lyrics: bool,
        max_lyric_length: u16,
        dump: bool,
        verbose: bool,
        challenge_time: Option<ChallengeTime>,
    ) -> (r: Self)
        ensures
            r.dsc_inputs == dsc_inputs,
            r.plaintext_inputs == plaintext_inputs,
            r.subtitle_inputs == subtitle_inputs,
            r.remove_targets_inputs == remove_targets_inputs,
            r.output == output,
            r.game == game,
            r.pv_id == pv_id,
            r.english_lyrics == english_lyrics,
            r.max_lyric_length == max_lyric_length,
            r.dump == dump,
            r.verbose == verbose,
            r.challenge_time == challenge_time,
    {
        Application {
            dsc_inputs,
            plaintext_inputs,
            subtitle_inputs,
            remove_targets_inputs,
            output,
            game,
            pv_id,
            english_lyrics,
            max_lyric_length,
            dump,
            verbose,
            challenge_time,
        }
    }

    /// Whether the target commands of the input at `filename` are dropped.
    fn removes_targets_of(&self, filename: &String) -> (r: bool)
        ensures
            r == removes_targets(strings_view(self.remove_targets_inputs@), filename@),
    {
        let ghost remove = strings_view(self.remove_targets_inputs@);
        let mut i: usize = 0;
        while i < self.remove_targets_inputs.len()
            invariant
                i <= self.remove_targets_inputs.len(),
                remove == strings_view(self.remove_targets_inputs@),
                forall|j: int| 0 <= j < i ==> remove[j] != filename@,
            decreases self.remove_targets_inputs.len() - i,
        {
            if self.remove_targets_inputs[i].eq(filename) {
                assert(remove[i as int] == filename@);
                return true;
            }
            i = i + 1;
        }
        false
    }

    fn handle_file(&self, filename: &String, contents: &FileRead<Vec<u8>>) -> (r: ApplicationResult<DSCVM>)
        ensures
            match load_binary(self.game, strings_view(self.remove_targets_inputs@), filename@, *contents) {
                Ok((cs, remove)) => r matches Ok(vm) && vm.commands() == cs && vm.remove_targets == remove,
                Err(e) => r matches Err(err) && err@ == e,
            },
    {
        let remove_targets = self.removes_targets_of(filename);
        match contents {
            FileRead::Missing => Err(ApplicationError::FileNotFound(filename.clone())),
            FileRead::Failed(m) => Err(ApplicationError::IOError(m.clone())),
            FileRead::Read(bytes) => DSCVM::load(self.game, bytes.as_slice(), remove_targets),
        }
    }

    fn handle_plaintext_file(&self, filename: &String, contents: &FileRead<Vec<String>>) -> (r: ApplicationResult<DSCVM>)
        ensures
            match load_text(self.game, strings_view(self.remove_targets_inputs@), filename@, *contents) {
                Ok((cs, remove)) => r matches Ok(vm) && vm.commands() == cs && vm.remove_targets == remove,
                Err(e) => r matches Err(err) && err@ == e,
            },
    {
        let remove_targets = self.removes_targets_of(filename);
        match contents {
            FileRead::Missing => Err(ApplicationError::FileNotFound(filename.clone())),
            FileRead::Failed(m) => Err(ApplicationError::IOError(m.clone())),
            FileRead::Read(lines) => DSCVM::load_plaintext(self.game, lines, remove_targets),
        }
    }

    fn handle_subtitle_file<L: Logger>(
        &self,
        filename: &String,
        contents: &FileRead<Option<String>>,
        logger: &mut L,
    ) -> (r: ApplicationResult<DSCVM>)
        ensures
            match load_sub(filename@, *contents) {
                Ok((cs, remove)) => r matches Ok(vm) && vm.commands() == cs && vm.remove_targets == remove,
                Err(e) => r matches Err(err) && err@ == e,
            },
    {
        let pieces = split_char(filename.as_str(), '.');
        let extension = &pieces[pieces.len() - 1];
        assert(strings_view(pieces@).last() == extension@);
        let kind = match SubtitleKind::from_extension(extension.as_str()) {
            Some(k) => k,
            None => {
                return Err(ApplicationError::InvalidSubtitleFile);
            },
        };
        match contents {
            FileRead::Missing => Err(ApplicationError::FileNotFound(filename.clone())),
            FileRead::Failed(_) => Err(ApplicationError::InvalidSubtitleFile),
            FileRead::Read(None) => Err(ApplicationError::InvalidSubtitleFile),
            FileRead::Read(Some(text)) => if !subtitle_text_safe(kind, text.as_str()) {
                Err(ApplicationError::InvalidSubtitleFile)
            } else {
                DSCVM::load_subtitle(
                    text.as_str(),
                    kind,
                    self.pv_id,
                    self.english_lyrics,
                    self.max_lyric_length,
                    logger,
                )
            },
        }
    }

    /// Merges the inputs of this run, whose contents the caller read, into
    /// one timeline, reporting progress to `logger` when verbose.
    pub fn run<L: Logger>(&self, inputs: &LoadedInputs, logger: &mut L) -> (r: ApplicationResult<DSCVM>)
        requires
            self.matches_inputs(inputs),
            self.challenge_time matches Some(ct) ==> challenge_fits(ct),
        ensures
            match self.outcome(inputs) {
                Ok(cs) => r matches Ok(vm) && vm.commands() == cs,
                Err(e) => r matches Err(err) && err@ == e,
            },
    {
        if self.verbose {
            let mut message = String::from_str("Merging charts for target game: Project Diva ");
            let name = self.game.to_string();
            message.append(name.as_str());
            message.append(".");
            logger.log(message);
        }
        if self.dsc_inputs.len() == 0 && self.plaintext_inputs.len() == 0 && self.subtitle_inputs.len() == 0 {
            return Err(ApplicationError::NoInputFiles);
        }
        let ghost all = self.sources(inputs);
        let ghost n1 = self.dsc_inputs@.len() as int;
        let ghost n2 = n1 + self.plaintext_inputs@.len();
        let mut merger = DSCMerger::new();
        assert(all.skip(0) =~= all);
        let mut i: usize = 0;
        while i < self.dsc_inputs.len()
            invariant
                self.matches_inputs(inputs),
                all == self.sources(inputs),
                n1 == self.dsc_inputs@.len(),
                i <= self.dsc_inputs.len(),
                merger.wf(),
                absorb_all(Seq::empty(), all) == absorb_all(merger@, all.skip(i as int)),
            decreases self.dsc_inputs.len() - i,
        {
            let filename = &self.dsc_inputs[i];
            if self.verbose {
                let mut message = String::from_str("Loading DSC file: \"");
                message.append(filename.as_str());
                message.append("\"...");
                logger.log(message);
            }
            assert(all.skip(i as int)[0] == all[i as int]);
            assert(all.skip(i as int).drop_first() =~= all.skip(i + 1));
            match self.handle_file(filename, &inputs.dsc[i]) {
                Ok(dsc_vm) => merger.add_dsc(dsc_vm),
                Err(e) => {
                    return Err(e);
                },
            }
            i = i + 1;
        }
        let mut i: usize = 0;
        while i < self.plaintext_inputs.len()
            invariant
                self.matches_inputs(inputs),
                all == self.sources(inputs),
                n1 == self.dsc_inputs@.len(),
                n2 == n1 + self.plaintext_inputs@.len(),
                i <= self.plaintext_inputs.len(),
                merger.wf(),
                absorb_all(Seq::empty(), all) == absorb_all(merger@, all.skip(n1 + i)),
            decreases self.plaintext_inputs.len() - i,
        {
            let filename = &self.plaintext_inputs[i];
            if self.verbose {
                let mut message = String::from_str("Loading plaintext/dumped DSC file: \"");
                message.append(filename.as_str());
                message.append("\"...");
                logger.log(message);
            }
            assert(all.skip(n1 + i)[0] == all[n1 + i]);
            assert(all.skip(n1 + i).drop_first() =~= all.skip(n1 + i + 1));
            match self.handle_plaintext_file(filename, &inputs.plaintext[i]) {
                Ok(dsc_vm) => merger.add_dsc(dsc_vm),
                Err(e) => {
                    return Err(e);
                },
            }
            i = i + 1;
        }
        let mut i: usize = 0;
        while i < self.subtitle_inputs.len()
            invariant
                self.matches_inputs(inputs),
                all == self.sources(inputs),
                n2 == self.dsc_inputs@.len() + self.plaintext_inputs@.len(),
                all.len() == n2 + self.subtitle_inputs@.len(),
                i <= self.subtitle_inputs.len(),
                merger.wf(),
                absorb_all(Seq::empty(), all) == absorb_all(merger@, all.skip(n2 + i)),
            decreases self.subtitle_inputs.len() - i,
        {
            let filename = &self.subtitle_inputs[i];
            if self.verbose {
                let mut message = String::from_str("Loading subtitle file: \"");
                message.append(filename.as_str());
                message.append("\"...");
                logger.log(message);
            }
            assert(all.skip(n2 + i)[0] == all[n2 + i]);
            assert(all.skip(n2 + i).drop_first() =~= all.skip(n2 + i + 1));
            match self.handle_subtitle_file(filename, &inputs.subtitle[i], logger) {
                Ok(dsc_vm) => merger.add_dsc(dsc_vm),
                Err(e) => {
                    return Err(e);
                },
            }
            i = i + 1;
        }
        assert(all.skip(n2 + i) =~= Seq::<Loaded>::empty());
        match self.challenge_time {
            Some(challenge_time) => {
                if self.verbose {
                    let mut message = String::from_str("Adding challenge time: ");
                    let text = challenge_time.to_string();
                    message.append(text.as_str());
                    logger.log(message);
                }
                merger.add_challenge_time(challenge_time);
            },
            None => {},
        }
        if self.verbose {
            logger.log(String::from_str("Merging DSC commands..."));
        }
        Ok(merger.to_dsc())
    }
}

/// The input paths collected interactively, by kind.
pub struct InputFiles {
    pub dsc: Vec<String>,
    pub plaintext: Vec<String>,
    pub subtitle: Vec<String>,
}

impl InputFiles {
    pub fn new() -> (r: Self)
        ensures
            r.dsc@.len() == 0,
            r.plaintext@.len() == 0,
            r.subtitle@.len() == 0,
    {
        InputFiles { dsc: Vec::new(), plaintext: Vec::new(), subtitle: Vec::new() }
    }

    pub fn add_dsc(&mut self, path: String)
        ensures
            final(self).dsc@ == old(self).dsc@.push(path),
            final(self).plaintext@ == old(self).plaintext@,
            final(self).subtitle@ == old(self).subtitle@,
    {
        self.dsc.push(path);
    }

    pub fn add_plaintext(&mut self, path: String)
        ensures
            final(self).dsc@ == old(self).dsc@,
            final(self).plaintext@ == old(self).plaintext@.push(path),
            final(self).subtitle@ == old(self).subtitle@,
    {
        self.plaintext.push(path);
    }

    pub fn add_subtitle(&mut self, path: String)
        ensures
            final(self).dsc@ == old(self).dsc@,
            final(self).plaintext@ == old(self).plaintext@,
            final(self).subtitle@ == old(self).subtitle@.push(path),
    {
        self.subtitle.push(path);
    }
}

} // verus!
