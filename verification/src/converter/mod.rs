//! The converters, one module for each family of formats, and the
//! `Converter` that finds the inputs of a run, decides where their outputs
//! go and routes each file to its converter.

pub mod csv;
pub mod epub;
pub mod frontmatter;
pub mod html;
pub mod image;
pub mod notice;
pub mod office;
pub mod pdf;
pub mod router;
pub mod rtf;
pub mod text;
pub mod wrap;

use vstd::prelude::*;
use crate::chars::option_text;
use crate::chars::push_str;
use crate::chars::string_from_chars;
use crate::cli::Args;
use crate::config::Config;
use crate::discovery::accepted;
use crate::discovery::filter_candidates;
use crate::discovery::kept;
use crate::discovery::lemma_kept_accepted;
use crate::discovery::lemma_kept_single;
use crate::discovery::should_process;
use crate::error::reports;
use crate::error::C2mdError;
use crate::error::Failure;
use crate::paths::file_stem;
use crate::paths::char_is_separator;
use crate::paths::join;
use crate::paths::lemma_without_root;
use crate::paths::make_relative;
use crate::paths::parent;
use crate::paths::path_file_stem;
use crate::paths::path_join;
use crate::paths::path_parent;
use crate::paths::without_root;
use crate::strings::str_equal;
use crate::strings::string_views;

verus! {

/// Finds the inputs of a run, decides where their outputs go, and converts.
pub struct Converter {
    pub config: Config,
    pub args: Args,
}

/// What one input of the command line led to on disk.
pub enum InputSource {
    /// The input was a glob pattern: the paths it matched, in order.
    Matches(Vec<String>),
    /// The input was a directory: the files beneath it, in order.
    Directory(Vec<String>),
    /// The input was a file.
    File(String),
    /// The input was neither a pattern nor there.
    Missing,
    /// The pattern could not be expanded or the directory could not be
    /// walked, for the given reason.
    Unreadable(String),
}

/// What a run does with its inputs.
#[derive(Debug, Clone, Copy, PartialEq, Eq)]
pub enum RunMode {
    /// Print where every output would go, and write nothing.
    DryRun,
    /// Watch the inputs and convert them again when they change.
    Watch,
    /// Convert every input once.
    Batch,
}

/// A notification of the file-system watcher.
pub struct WatchEvent {
    /// Whether the event reports a modification.
    pub modified: bool,
    /// The paths that the event is about.
    pub paths: Vec<String>,
}

/// What the watch loop receives.
pub enum WatchSignal {
    /// The watcher reports an event.
    Event(WatchEvent),
    /// The watcher reports an error.
    WatcherError(String),
    /// The channel to the watcher is closed.
    Disconnected(String),
}

/// What the watch loop does next.
pub enum WatchAction {
    /// Convert these paths again, one after the other, then go on waiting.
    Reconvert(Vec<String>),
    /// Leave the loop and end the run with this error.
    Stop(C2mdError),
}

/// The candidates that one input leads to: the matches of a pattern, the
/// files of a directory, a file itself; none where the input was not there
/// or could not be read.
pub open spec fn candidates(source: InputSource) -> Seq<Seq<char>> {
    match source {
        InputSource::Matches(paths) => string_views(paths@),
        InputSource::Directory(files) => string_views(files@),
        InputSource::File(path) => seq![path@],
        InputSource::Missing => Seq::empty(),
        InputSource::Unreadable(_) => Seq::empty(),
    }
}

/// The paths that one input contributes: its candidates that are taken up.
pub open spec fn source_paths(source: InputSource, ignore: Seq<Seq<char>>) -> Seq<Seq<char>> {
    kept(candidates(source), ignore)
}

/// Every collected path is taken up.
pub proof fn lemma_collected_accepted(sources: Seq<InputSource>, ignore: Seq<Seq<char>>)
    ensures
        forall|k: int|
            0 <= k < collected(sources, ignore).len() ==> accepted(
                #[trigger] collected(sources, ignore)[k],
                ignore,
            ),
    decreases sources.len(),
{
    if sources.len() > 0 {
        lemma_collected_accepted(sources.drop_last(), ignore);
        lemma_kept_accepted(candidates(sources.last()), ignore);
        let head = collected(sources.drop_last(), ignore);
        let tail = source_paths(sources.last(), ignore);
        assert forall|k: int| 0 <= k < collected(sources, ignore).len() implies accepted(
            #[trigger] collected(sources, ignore)[k],
            ignore,
        ) by {
            if k < head.len() {
                assert(collected(sources, ignore)[k] == head[k]);
            } else {
                assert(collected(sources, ignore)[k] == tail[k - head.len()]);
            }
        }
    }
}

/// The paths that the inputs contribute, in the order of the inputs.
pub open spec fn collected(sources: Seq<InputSource>, ignore: Seq<Seq<char>>) -> Seq<Seq<char>>
    decreases sources.len(),
{
    if sources.len() == 0 {
        Seq::empty()
    } else {
        collected(sources.drop_last(), ignore) + source_paths(sources.last(), ignore)
    }
}

/// The directory an output goes to: the output directory, with the input's
/// parent beneath it where the input tree is mirrored. The parent is made
/// relative before it is joined, so that the parent of an absolute input
/// is mirrored beneath the output directory as well.
pub open spec fn output_directory(input: Seq<char>, dir: Seq<char>, preserve: bool) -> Seq<char> {
    if preserve {
        match path_parent(input) {
            Some(p) => path_join(dir, without_root(p)),
            None => dir,
        }
    } else {
        dir
    }
}

/// Where the output for `input` goes. By priority: the single output file
/// where one is given; else, where an output directory is given, the
/// input's stem with the extension `md` in that directory, beneath the
/// input's parent, made relative, where the tree is mirrored; else the
/// marker `-` of the standard output. `None` where a name has to be derived from an input
/// that has no stem.
pub open spec fn destination(
    input: Seq<char>,
    output: Option<Seq<char>>,
    out_dir: Option<Seq<char>>,
    preserve: bool,
) -> Option<Seq<char>> {
    match output {
        Some(file) => Some(file),
        None => match out_dir {
            Some(dir) => match path_file_stem(input) {
                Some(stem) => Some(
                    path_join(output_directory(input, dir, preserve), stem + ".md"@),
                ),
                None => None,
            },
            None => Some("-"@),
        },
    }
}

/// The lines of the plan for the given paths, one for each path with its
/// destination; `None` where a path has no destination.
pub open spec fn plan_lines(
    paths: Seq<Seq<char>>,
    output: Option<Seq<char>>,
    out_dir: Option<Seq<char>>,
    preserve: bool,
) -> Option<Seq<char>>
    decreases paths.len(),
{
    if paths.len() == 0 {
        Some(Seq::empty())
    } else {
        match (
            plan_lines(paths.drop_last(), output, out_dir, preserve),
            destination(paths.last(), output, out_dir, preserve),
        ) {
            (Some(lines), Some(target)) => Some(
                lines + "  "@ + paths.last() + " -> "@ + target + seq!['\n'],
            ),
            _ => None,
        }
    }
}

/// The number of failures among the outcomes.
pub open spec fn failures<T>(outcomes: Seq<Result<T, C2mdError>>) -> nat
    decreases outcomes.len(),
{
    if outcomes.len() == 0 {
        0
    } else {
        failures(outcomes.drop_last()) + if outcomes.last() is Err {
            1nat
        } else {
            0nat
        }
    }
}

/// The parents of the paths up to index `n`, each once, in the order in
/// which they first occur.
pub open spec fn parents(paths: Seq<Seq<char>>, n: int) -> Seq<Seq<char>>
    decreases n,
{
    if n <= 0 || n > paths.len() {
        Seq::empty()
    } else {
        let before = parents(paths, n - 1);
        match path_parent(paths[n - 1]) {
            Some(p) => if before.contains(p) {
                before
            } else {
                before.push(p)
            },
            None => before,
        }
    }
}

/// No directory occurs twice among the parents, every one of them is the
/// parent of a path, and the parent of every path is among them.
pub proof fn lemma_parents(paths: Seq<Seq<char>>, n: int)
    requires
        0 <= n <= paths.len(),
    ensures
        parents(paths, n).no_duplicates(),
        forall|k: int|
            0 <= k < parents(paths, n).len() ==> exists|i: int|
                0 <= i < n && path_parent(paths[i]) == Some(#[trigger] parents(paths, n)[k]),
        forall|i: int|
            0 <= i < n && path_parent(#[trigger] paths[i]) is Some ==> parents(paths, n).contains(
                path_parent(paths[i])->Some_0,
            ),
    decreases n,
{
    if n > 0 {
        lemma_parents(paths, n - 1);
        let before = parents(paths, n - 1);
        let now = parents(paths, n);
        assert forall|k: int| 0 <= k < now.len() implies exists|i: int|
            0 <= i < n && path_parent(paths[i]) == Some(#[trigger] now[k]) by {
            if k < before.len() {
                let i = choose|i: int| 0 <= i < n - 1 && path_parent(paths[i]) == Some(before[k]);
                assert(0 <= i < n && path_parent(paths[i]) == Some(now[k]));
            } else {
                assert(path_parent(paths[n - 1]) == Some(now[k]));
            }
        }
        assert forall|i: int|
            0 <= i < n && path_parent(#[trigger] paths[i]) is Some implies now.contains(
            path_parent(paths[i])->Some_0,
        ) by {
            let p = path_parent(paths[i])->Some_0;
            if i < n - 1 {
                let k = choose|k: int| 0 <= k < before.len() && before[k] == p;
                assert(now[k] == p);
            } else if before.contains(p) {
            } else {
                assert(now[now.len() - 1] == p);
            }
        }
    }
}

/// Whether `p` is among the texts of `seen`.
fn seen_before(seen: &Vec<String>, p: &str) -> (b: bool)
    ensures
        b == string_views(seen@).contains(p@),
{
    let ghost all = string_views(seen@);
    let mut i: usize = 0;
    while i < seen.len()
        invariant
            i <= seen.len(),
            all == string_views(seen@),
            forall|j: int| 0 <= j < i ==> all[j] != p@,
        decreases seen.len() - i,
    {
        assert(all[i as int] == seen[i as int]@);
        if str_equal(seen[i].as_str(), p) {
            return true;
        }
        i += 1;
    }
    false
}

/// The directories to watch: the parent of every path, each once.
pub fn watch_directories(paths: &Vec<String>) -> (dirs: Vec<String>)
    ensures
        string_views(dirs@) == parents(string_views(paths@), paths@.len() as int),
        string_views(dirs@).no_duplicates(),
        forall|i: int|
            0 <= i < paths@.len() && path_parent(#[trigger] string_views(paths@)[i]) is Some
                ==> string_views(dirs@).contains(path_parent(string_views(paths@)[i])->Some_0),
{
    let ghost all = string_views(paths@);
    let mut dirs: Vec<String> = Vec::new();
    let mut i: usize = 0;
    while i < paths.len()
        invariant
            i <= paths.len(),
            all == string_views(paths@),
            string_views(dirs@) == parents(all, i as int),
        decreases paths.len() - i,
    {
        assert(all[i as int] == paths[i as int]@);
        match parent(paths[i].as_str()) {
            Some(p) => {
                if !seen_before(&dirs, p.as_str()) {
                    let ghost before = string_views(dirs@);
                    dirs.push(p);
                    assert(string_views(dirs@) =~= before.push(p@));
                }
            },
            None => {},
        }
        i += 1;
    }
    proof {
        lemma_parents(all, paths@.len() as int);
    }
    dirs
}

/// Counts the failures among the outcomes of a batch.
pub fn count_failures<T>(outcomes: &Vec<Result<T, C2mdError>>) -> (count: usize)
    ensures
        count == failures(outcomes@),
        count <= outcomes@.len(),
{
    let mut count: usize = 0;
    let mut i: usize = 0;
    while i < outcomes.len()
        invariant
            i <= outcomes.len(),
            count <= i,
            count == failures(outcomes@.take(i as int)),
        decreases outcomes.len() - i,
    {
        assert(outcomes@.take(i + 1).drop_last() =~= outcomes@.take(i as int));
        assert(outcomes@.take(i + 1).last() == outcomes@[i as int]);
        if outcomes[i].is_err() {
            count += 1;
        }
        i += 1;
    }
    assert(outcomes@.take(outcomes@.len() as int) =~= outcomes@);
    count
}

/// Calls `num_cpus::get`. The result is the number of processors the
/// machine offers to this process; the crate documents that it is always
/// at least 1, and nothing else is known of it beforehand.
#[verifier::external_body]
pub(crate) fn available_cpus() -> (n: usize)
    ensures
        n >= 1,
{
    num_cpus::get()
}

impl Converter {
    /// A converter for the given configuration and options.
    pub fn new(config: Config, args: Args) -> (r: Result<Converter, C2mdError>)
        ensures
            r is Ok,
            r->Ok_0.config == config,
            r->Ok_0.args == args,
    {
        Ok(Converter { config, args })
    }

    /// The ignore patterns of the run, as texts.
    pub open spec fn ignore_patterns(self) -> Seq<Seq<char>> {
        string_views(self.config.ignore@)
    }

    /// Where the output for `input` goes under the options of the run.
    pub open spec fn destination_of(self, input: Seq<char>) -> Option<Seq<char>> {
        destination(
            input,
            option_text(self.args.output),
            option_text(self.args.out_dir),
            self.args.preserve_structure,
        )
    }

    /// Whether `r` names the destination of `input`, or fails for want of
    /// one.
    pub open spec fn resolves(self, input: Seq<char>, r: Result<String, C2mdError>) -> bool {
        match self.destination_of(input) {
            Some(target) => r is Ok && r->Ok_0@ == target,
            None => r is Err && reports(r->Err_0, Failure::InvalidFileName),
        }
    }

    /// Whether the run takes up `path`: no ignore pattern of the
    /// configuration matches it, and its extension is on the allow-list,
    /// whatever its case.
    pub fn should_process_path(&self, path: &str) -> (b: bool)
        ensures
            b == accepted(path@, self.ignore_patterns()),
    {
        should_process(path, &self.config.ignore)
    }

    /// Gathers the input paths of the run from what its inputs led to on
    /// disk, in the order of the inputs: of the matches of a pattern, of
    /// the files of a directory and of the files named those that the run
    /// takes up. An input that could not be read contributes nothing and
    /// does not keep the others from contributing. Every path of the
    /// result is on the allow-list and matches no ignore pattern. Never
    /// fails.
    pub fn collect_input_paths(&self, sources: &Vec<InputSource>) -> (r: Result<
        Vec<String>,
        C2mdError,
    >)
        ensures
            r is Ok,
            string_views(r->Ok_0@) == collected(sources@, self.ignore_patterns()),
            forall|k: int|
                0 <= k < r->Ok_0@.len() ==> accepted(
                    #[trigger] string_views(r->Ok_0@)[k],
                    self.ignore_patterns(),
                ),
    {
        let ghost ignore = self.ignore_patterns();
        let mut paths: Vec<String> = Vec::new();
        let mut i: usize = 0;
        while i < sources.len()
            invariant
                i <= sources.len(),
                ignore == self.ignore_patterns(),
                string_views(paths@) == collected(sources@.take(i as int), ignore),
            decreases sources.len() - i,
        {
            assert(sources@.take(i + 1).drop_last() =~= sources@.take(i as int));
            assert(sources@.take(i + 1).last() == sources@[i as int]);
            let ghost before = string_views(paths@);
            match &sources[i] {
                InputSource::Matches(found) => {
                    let mut accepted_paths = filter_candidates(found, &self.config.ignore);
                    let ghost added = string_views(accepted_paths@);
                    paths.append(&mut accepted_paths);
                    assert(string_views(paths@) =~= before + added);
                },
                InputSource::Directory(files) => {
                    let mut accepted_paths = filter_candidates(files, &self.config.ignore);
                    let ghost added = string_views(accepted_paths@);
                    paths.append(&mut accepted_paths);
                    assert(string_views(paths@) =~= before + added);
                },
                InputSource::File(path) => {
                    proof {
                        lemma_kept_single(path@, ignore);
                    }
                    if self.should_process_path(path.as_str()) {
                        paths.push(path.clone());
                        assert(string_views(paths@) =~= before + seq![path@]);
                    } else {
                        assert(string_views(paths@) =~= before + Seq::<Seq<char>>::empty());
                    }
                },
                InputSource::Missing => {
                    assert(string_views(paths@) =~= before + Seq::<Seq<char>>::empty());
                },
                InputSource::Unreadable(_) => {
                    assert(string_views(paths@) =~= before + Seq::<Seq<char>>::empty());
                },
            }
            i += 1;
        }
        assert(sources@.take(sources@.len() as int) =~= sources@);
        proof {
            lemma_collected_accepted(sources@, ignore);
        }
        Ok(paths)
    }

    /// What the run does with the paths it found. Fails with a generic
    /// error exactly when there are none; otherwise a dry run where the
    /// options ask for one, else watching where they ask for that, else a
    /// batch.
    pub fn run_mode(&self, paths: &Vec<String>) -> (r: Result<RunMode, C2mdError>)
        ensures
            r is Err == (paths@.len() == 0),
            r is Err ==> r->Err_0 is Generic && r->Err_0->Generic_0@ == "No input files found"@,
            r is Ok ==> r->Ok_0 == (if self.args.dry_run {
                RunMode::DryRun
            } else if self.args.watch {
                RunMode::Watch
            } else {
                RunMode::Batch
            }),
    {
        if paths.len() == 0 {
            Err(C2mdError::Generic("No input files found".to_string()))
        } else if self.args.dry_run {
            Ok(RunMode::DryRun)
        } else if self.args.watch {
            Ok(RunMode::Watch)
        } else {
            Ok(RunMode::Batch)
        }
    }

    /// Where the output for `input_path` goes. The result depends on the
    /// input path and the options alone: the same path and options always
    /// give the same destination. Where the input tree is mirrored, the
    /// input's parent is made relative before it is joined to the output
    /// directory, so that an absolute input is mirrored beneath that
    /// directory too. Fails with a generic error exactly when the output
    /// goes to a directory and the input has no file stem.
    pub fn determine_output_path(&self, input_path: &str) -> (r: Result<String, C2mdError>)
        ensures
            self.resolves(input_path@, r),
    {
        match &self.args.output {
            Some(output) => Ok(output.clone()),
            None => match &self.args.out_dir {
                Some(dir) => {
                    let base: String = if self.args.preserve_structure {
                        match parent(input_path) {
                            Some(p) => {
                                let mirrored = make_relative(p.as_str());
                                join(dir.as_str(), mirrored.as_str())
                            },
                            None => dir.clone(),
                        }
                    } else {
                        dir.clone()
                    };
                    match file_stem(input_path) {
                        Some(stem) => {
                            let mut name: Vec<char> = Vec::new();
                            push_str(&mut name, stem.as_str());
                            push_str(&mut name, ".md");
                            assert(name@ =~= stem@ + ".md"@);
                            let name = string_from_chars(name.as_slice());
                            Ok(join(base.as_str(), name.as_str()))
                        },
                        None => Err(C2mdError::Generic("Invalid file name".to_string())),
                    }
                },
                None => Ok("-".to_string()),
            },
        }
    }

    /// The plan of a dry run: a heading, then one line for each path with
    /// its destination. Fails exactly when some path has no destination.
    pub fn show_plan(&self, paths: &Vec<String>) -> (r: Result<String, C2mdError>)
        ensures
            r is Ok == plan_lines(
                string_views(paths@),
                option_text(self.args.output),
                option_text(self.args.out_dir),
                self.args.preserve_structure,
            ) is Some,
            r is Ok ==> r->Ok_0@ == "Conversion plan:\n"@ + plan_lines(
                string_views(paths@),
                option_text(self.args.output),
                option_text(self.args.out_dir),
                self.args.preserve_structure,
            )->Some_0,
            r is Err ==> r->Err_0 is Generic && r->Err_0->Generic_0@ == "Invalid file name"@,
    {
        let ghost all = string_views(paths@);
        let ghost output = option_text(self.args.output);
        let ghost out_dir = option_text(self.args.out_dir);
        let ghost preserve = self.args.preserve_structure;
        let mut out: Vec<char> = Vec::new();
        push_str(&mut out, "Conversion plan:\n");
        assert(out@ =~= "Conversion plan:\n"@ + Seq::<char>::empty());
        let mut i: usize = 0;
        while i < paths.len()
            invariant
                i <= paths.len(),
                all == string_views(paths@),
                output == option_text(self.args.output),
                out_dir == option_text(self.args.out_dir),
                preserve == self.args.preserve_structure,
                plan_lines(all.take(i as int), output, out_dir, preserve) is Some,
                out@ == "Conversion plan:\n"@ + plan_lines(
                    all.take(i as int),
                    output,
                    out_dir,
                    preserve,
                )->Some_0,
            decreases paths.len() - i,
        {
            assert(all.take(i + 1).drop_last() =~= all.take(i as int));
            assert(all.take(i + 1).last() == paths[i as int]@);
            let ghost sofar = plan_lines(all.take(i as int), output, out_dir, preserve)->Some_0;
            match self.determine_output_path(paths[i].as_str()) {
                Ok(target) => {
                    push_str(&mut out, "  ");
                    push_str(&mut out, paths[i].as_str());
                    push_str(&mut out, " -> ");
                    push_str(&mut out, target.as_str());
                    out.push('\n');
                    assert(out@ =~= "Conversion plan:\n"@ + (sofar + "  "@ + paths[i as int]@
                        + " -> "@ + target@ + seq!['\n']));
                },
                Err(e) => {
                    proof {
                        lemma_plan_fails(all, i as int, output, out_dir, preserve);
                    }
                    return Err(e);
                },
            }
            i += 1;
        }
        assert(all.take(paths@.len() as int) =~= all);
        Ok(string_from_chars(out.as_slice()))
    }

    /// The number of workers of a batch: the number the options give, or
    /// else the number of processors the machine offers, which is at
    /// least one.
    pub fn worker_count(&self) -> (n: usize)
        ensures
            self.args.jobs is Some ==> n == self.args.jobs->Some_0,
            self.args.jobs is None ==> n >= 1,
    {
        match self.args.jobs {
            Some(jobs) => jobs,
            None => available_cpus(),
        }
    }

    /// What the watch loop does on a signal. On an event that reports a
    /// modification it converts again those paths of the event that the
    /// run takes up, in their order, and no other; on any other event it
    /// converts nothing and goes on; an error of the watcher or a closed
    /// channel is fatal: the loop stops and the run ends with a watch
    /// error that carries the reason.
    pub fn watch_step(&self, signal: &WatchSignal) -> (action: WatchAction)
        ensures
            match *signal {
                WatchSignal::Event(event) => action is Reconvert && string_views(
                    action->Reconvert_0@,
                ) == (if event.modified {
                    kept(string_views(event.paths@), self.ignore_patterns())
                } else {
                    Seq::empty()
                }),
                WatchSignal::WatcherError(reason) => action is Stop && action->Stop_0 is Notify
                    && action->Stop_0->Notify_0@ == reason@,
                WatchSignal::Disconnected(reason) => action is Stop && action->Stop_0 is Notify
                    && action->Stop_0->Notify_0@ == reason@,
            },
            action is Reconvert ==> forall|k: int|
                0 <= k < action->Reconvert_0@.len() ==> accepted(
                    #[trigger] string_views(action->Reconvert_0@)[k],
                    self.ignore_patterns(),
                ),
    {
        match signal {
            WatchSignal::Event(event) => {
                if event.modified {
                    WatchAction::Reconvert(filter_candidates(&event.paths, &self.config.ignore))
                } else {
                    let none: Vec<String> = Vec::new();
                    assert(string_views(none@) =~= Seq::<Seq<char>>::empty());
                    WatchAction::Reconvert(none)
                }
            },
            WatchSignal::WatcherError(reason) => WatchAction::Stop(
                C2mdError::Notify(reason.clone()),
            ),
            WatchSignal::Disconnected(reason) => WatchAction::Stop(
                C2mdError::Notify(reason.clone()),
            ),
        }
    }
}

/// A plan that fails at one path fails as a whole.
proof fn lemma_plan_fails(
    paths: Seq<Seq<char>>,
    i: int,
    output: Option<Seq<char>>,
    out_dir: Option<Seq<char>>,
    preserve: bool,
)
    requires
        0 <= i < paths.len(),
        destination(paths[i], output, out_dir, preserve) is None,
    ensures
        plan_lines(paths, output, out_dir, preserve) is None,
    decreases paths.len(),
{
    if i < paths.len() - 1 {
        assert(paths.drop_last()[i] == paths[i]);
        lemma_plan_fails(paths.drop_last(), i, output, out_dir, preserve);
    }
}

/// The destination is a function of the input path and of the options
/// that bear on it: whatever two converters with the same output file,
/// output directory and mirroring resolve for the same input is the same
/// path, or the same failure.
pub proof fn lemma_output_path_deterministic(
    first: Converter,
    second: Converter,
    input: Seq<char>,
    a: Result<String, C2mdError>,
    b: Result<String, C2mdError>,
)
    requires
        option_text(first.args.output) == option_text(second.args.output),
        option_text(first.args.out_dir) == option_text(second.args.out_dir),
        first.args.preserve_structure == second.args.preserve_structure,
        first.resolves(input, a),
        second.resolves(input, b),
    ensures
        a is Ok == b is Ok,
        a is Ok ==> a->Ok_0@ == b->Ok_0@,
        a is Err ==> reports(a->Err_0, Failure::InvalidFileName) && reports(
            b->Err_0,
            Failure::InvalidFileName,
        ),
{
}

/// Mirroring keeps to the output directory: with an output directory, no
/// single output file and the input tree mirrored, the destination of an
/// input with a parent and a stem is its name joined to the join of the
/// output directory and a relative path, which is the input's parent
/// without the separators it starts with.
pub proof fn lemma_mirrored_destination(
    input: Seq<char>,
    dir: Seq<char>,
    parent: Seq<char>,
    stem: Seq<char>,
)
    requires
        path_parent(input) == Some(parent),
        path_file_stem(input) == Some(stem),
    ensures
        destination(input, None, Some(dir), true) == Some(
            path_join(path_join(dir, without_root(parent)), stem + ".md"@),
        ),
        without_root(parent).len() > 0 ==> !char_is_separator(without_root(parent)[0]),
        without_root(parent).is_suffix_of(parent),
{
    lemma_without_root(parent);
}

/// A path that the run does not take up is never converted again: it is
/// not among the paths that a modification event leads to.
pub proof fn lemma_watch_skips_rejected(
    paths: Seq<Seq<char>>,
    ignore: Seq<Seq<char>>,
    path: Seq<char>,
)
    requires
        !accepted(path, ignore),
    ensures
        !kept(paths, ignore).contains(path),
{
    lemma_kept_accepted(paths, ignore);
}

} // verus!
