//! The harvester: from a trace log to a populated output directory.
//!
//! The harvester never touches the disk. It is told what happened, as an
//! `Event`, and answers with what is to be done next, as an `Action`. The
//! caller reads the log, asks the disk, deletes and copies, and reports
//! back. The decisions are all made here, by `Harvester::step`, which
//! follows the transition function `next`.

use crate::filter::{is_candidate, lexically_admitted};
use crate::harvest_set::{recorded, HarvestSet};
use crate::layout::{destination, destination_path, package_tail};
use crate::pattern::{accepted, quoted_path, PathFinder, PatternRejected, PATH_PATTERN};
use vstd::prelude::*;

verus! {

/// Where a harvest stands.
#[derive(Clone, Copy, Debug, PartialEq, Eq, Structural)]
pub enum Stage {
    /// Lines of the log are being read.
    Parsing,
    /// A path was found in a line; the disk's answer on it is awaited.
    Probing,
    /// The log is read; the output directory is being emptied.
    Resetting,
    /// Files are being copied, one after the other.
    Copying,
    /// Every file that has a destination was copied.
    Finished,
    /// Reading or writing failed, or an event came out of turn.
    Failed,
}

/// What the caller reports.
#[derive(Debug, PartialEq, Eq)]
pub enum Event {
    /// The next line of the log.
    Line(String),
    /// The log has no more lines.
    EndOfLog,
    /// Whether the path just asked about names a regular file on disk.
    Probed(bool),
    /// The filesystem work just asked for was done.
    Done,
    /// Reading the log or working on the filesystem failed.
    Failed,
}

/// What the caller is to do next.
#[derive(Debug, PartialEq, Eq)]
pub enum Action {
    /// Read the next line of the log and report it with `Event::Line`, or
    /// report `Event::EndOfLog`.
    NextLine,
    /// Report with `Event::Probed` whether this path names an existing
    /// regular file.
    Probe(String),
    /// Delete this directory with all it holds, if it exists, and create it
    /// anew, empty. Report `Event::Done`.
    ResetOutput(String),
    /// Create the missing directories above `destination`, then copy
    /// `source` there byte for byte. Report `Event::Done`.
    Copy { source: String, destination: String },
    /// The harvest is complete.
    Finish,
    /// The harvest has failed; nothing more is to be done.
    Abort,
}

/// An `Event` as specifications see it.
pub enum EventView {
    Line(Seq<char>),
    EndOfLog,
    Probed(bool),
    Done,
    Failed,
}

/// An `Action` as specifications see it.
pub enum ActionView {
    NextLine,
    Probe(Seq<char>),
    ResetOutput(Seq<char>),
    Copy { source: Seq<char>, destination: Seq<char> },
    Finish,
    Abort,
}

impl View for Event {
    type V = EventView;

    open spec fn view(&self) -> EventView {
        match self {
            Event::Line(line) => EventView::Line(line@),
            Event::EndOfLog => EventView::EndOfLog,
            Event::Probed(regular_file) => EventView::Probed(*regular_file),
            Event::Done => EventView::Done,
            Event::Failed => EventView::Failed,
        }
    }
}

impl View for Action {
    type V = ActionView;

    open spec fn view(&self) -> ActionView {
        match self {
            Action::NextLine => ActionView::NextLine,
            Action::Probe(path) => ActionView::Probe(path@),
            Action::ResetOutput(dir) => ActionView::ResetOutput(dir@),
            Action::Copy { source, destination } => ActionView::Copy {
                source: source@,
                destination: destination@,
            },
            Action::Finish => ActionView::Finish,
            Action::Abort => ActionView::Abort,
        }
    }
}

/// The state of a harvest.
pub struct State {
    /// The canonical dependency root.
    pub root: Seq<char>,
    /// The directory that the harvest fills.
    pub output_dir: Seq<char>,
    /// The harvest set, in the order in which its members were found.
    pub files: Seq<Seq<char>>,
    pub stage: Stage,
    /// While probing: the path that the disk is asked about. Empty otherwise.
    pub pending: Seq<char>,
    /// While copying: the index in `files` of the file being copied. Before
    /// that 0, after it the number of files.
    pub cursor: nat,
    /// How many files were copied.
    pub copied: nat,
}

/// The state in which a harvest begins.
pub open spec fn initial(root: Seq<char>, output_dir: Seq<char>) -> State {
    State {
        root,
        output_dir,
        files: Seq::empty(),
        stage: Stage::Parsing,
        pending: Seq::empty(),
        cursor: 0,
        copied: 0,
    }
}

/// The files that are copied: those of `files` that have a destination, in
/// their order.
pub open spec fn copyable(files: Seq<Seq<char>>) -> Seq<Seq<char>> {
    files.filter(|path: Seq<char>| package_tail(path) is Some)
}

/// What holds of every state that a harvest can be in.
pub open spec fn valid(state: State) -> bool {
    &&& state.files.no_duplicates()
    &&& forall|i: int|
        0 <= i < state.files.len() ==> lexically_admitted(#[trigger] state.files[i], state.root)
    &&& state.copied <= state.cursor <= state.files.len()
    &&& state.copied == copyable(state.files.take(state.cursor as int)).len()
    &&& match state.stage {
        Stage::Parsing | Stage::Resetting => state.cursor == 0 && state.pending.len() == 0,
        Stage::Probing => state.cursor == 0 && lexically_admitted(state.pending, state.root),
        Stage::Copying => {
            &&& state.pending.len() == 0
            &&& state.cursor < state.files.len()
            &&& package_tail(state.files[state.cursor as int]) is Some
        },
        Stage::Finished => state.cursor == state.files.len() && state.pending.len() == 0,
        Stage::Failed => true,
    }
}

/// The index of the first file at or behind `from` that has a destination;
/// the number of files where there is none.
pub open spec fn next_copy(files: Seq<Seq<char>>, from: nat) -> nat
    decreases files.len() - from,
{
    if from >= files.len() {
        files.len()
    } else if package_tail(files[from as int]) is Some {
        from
    } else {
        next_copy(files, from + 1)
    }
}

/// A line was read: where it names a path that passes the two conditions on
/// its text, the disk is asked about that path; otherwise the next line is
/// read.
pub open spec fn on_line(state: State, line: Seq<char>) -> (State, ActionView) {
    match quoted_path(line) {
        Some(path) => if lexically_admitted(path, state.root) {
            (State { stage: Stage::Probing, pending: path, ..state }, ActionView::Probe(path))
        } else {
            (state, ActionView::NextLine)
        },
        None => (state, ActionView::NextLine),
    }
}

/// The log has no more lines: the output directory is to be emptied.
pub open spec fn on_end_of_log(state: State) -> (State, ActionView) {
    (State { stage: Stage::Resetting, ..state }, ActionView::ResetOutput(state.output_dir))
}

/// The disk has answered: a regular file is recorded, anything else is
/// passed over. Either way the next line is read.
pub open spec fn on_probed(state: State, regular_file: bool) -> (State, ActionView) {
    (
        State {
            stage: Stage::Parsing,
            pending: Seq::empty(),
            files: if regular_file {
                recorded(state.files, state.pending)
            } else {
                state.files
            },
            ..state
        },
        ActionView::NextLine,
    )
}

/// Copying goes on with the first file at or behind `from` that has a
/// destination, and ends where there is none.
pub open spec fn copy_from(state: State, from: nat) -> (State, ActionView) {
    let at = next_copy(state.files, from);
    if at < state.files.len() {
        (
            State { stage: Stage::Copying, cursor: at, ..state },
            ActionView::Copy {
                source: state.files[at as int],
                destination: destination_path(state.output_dir, state.files[at as int]).unwrap(),
            },
        )
    } else {
        (State { stage: Stage::Finished, cursor: state.files.len(), ..state }, ActionView::Finish)
    }
}

/// The harvest ends as failed.
pub open spec fn failed(state: State) -> (State, ActionView) {
    (State { stage: Stage::Failed, ..state }, ActionView::Abort)
}

/// The state that follows `state` on `event`, and what is to be done then.
///
/// A finished harvest stays finished. Any other event that the stage does
/// not wait for, a reported failure among them, ends the harvest as failed;
/// a failed harvest stays failed.
pub open spec fn next(state: State, event: EventView) -> (State, ActionView) {
    match state.stage {
        Stage::Parsing => match event {
            EventView::Line(line) => on_line(state, line),
            EventView::EndOfLog => on_end_of_log(state),
            _ => failed(state),
        },
        Stage::Probing => match event {
            EventView::Probed(regular_file) => on_probed(state, regular_file),
            _ => failed(state),
        },
        Stage::Resetting => match event {
            EventView::Done => copy_from(state, 0),
            _ => failed(state),
        },
        Stage::Copying => match event {
            EventView::Done => copy_from(
                State { copied: state.copied + 1, ..state },
                state.cursor + 1,
            ),
            _ => failed(state),
        },
        Stage::Finished => (state, ActionView::Finish),
        Stage::Failed => failed(state),
    }
}

/// `next_copy` stays within the list, stops only at a file that has a
/// destination, and passes over none that has one.
pub proof fn lemma_next_copy(files: Seq<Seq<char>>, from: nat)
    requires
        from <= files.len(),
    ensures
        from <= next_copy(files, from) <= files.len(),
        next_copy(files, from) < files.len() ==> package_tail(
            files[next_copy(files, from) as int],
        ) is Some,
        forall|i: int| from <= i < next_copy(files, from) ==> package_tail(files[i]) is None,
        copyable(files.take(next_copy(files, from) as int)) == copyable(files.take(from as int)),
    decreases files.len() - from,
{
    if from < files.len() && package_tail(files[from as int]) is None {
        lemma_next_copy(files, from + 1);
        lemma_copyable_take(files, from);
    }
}

/// One file more: it is among the copied ones if it has a destination.
pub proof fn lemma_copyable_take(files: Seq<Seq<char>>, count: nat)
    requires
        count < files.len(),
    ensures
        copyable(files.take(count as int + 1)) == if package_tail(files[count as int]) is Some {
            copyable(files.take(count as int)).push(files[count as int])
        } else {
            copyable(files.take(count as int))
        },
{
    reveal(Seq::filter);
    let longer = files.take(count as int + 1);
    assert(longer.drop_last() =~= files.take(count as int));
    assert(longer.last() == files[count as int]);
}

/// Of no files, none is copied.
pub proof fn lemma_copyable_none(files: Seq<Seq<char>>)
    ensures
        copyable(files.take(0)).len() == 0,
{
    reveal(Seq::filter);
}

/// Of the first `count` files, at most `count` are copied.
pub proof fn lemma_copyable_bound(files: Seq<Seq<char>>, count: nat)
    requires
        count <= files.len(),
    ensures
        copyable(files.take(count as int)).len() <= count,
{
    files.take(count as int).lemma_filter_len(|path: Seq<char>| package_tail(path) is Some);
}

/// A harvest in progress.
pub struct Harvester {
    finder: PathFinder,
    root: String,
    output_dir: String,
    files: HarvestSet,
    stage: Stage,
    pending: String,
    cursor: usize,
    copied: usize,
}

impl View for Harvester {
    type V = State;

    closed spec fn view(&self) -> State {
        State {
            root: self.root@,
            output_dir: self.output_dir@,
            files: self.files@,
            stage: self.stage,
            pending: self.pending@,
            cursor: self.cursor as nat,
            copied: self.copied as nat,
        }
    }
}

impl Harvester {
    #[verifier::type_invariant]
    spec fn well_formed(self) -> bool {
        valid(self@) && self.files@.len() <= usize::MAX
    }

    /// A harvester for the dependency root `root`, given in its canonical
    /// form, that is to fill `output_dir`. It fails where the expression
    /// engine refuses the path pattern, and only there.
    pub fn new(root: String, output_dir: String) -> (made: Result<Harvester, PatternRejected>)
        ensures
            made is Ok <==> accepted(PATH_PATTERN@),
            made matches Ok(harvester) ==> harvester@ == initial(root@, output_dir@),
    {
        match PathFinder::new() {
            Ok(finder) => Ok(Harvester::with_finder(finder, root, output_dir)),
            Err(rejected) => Err(rejected),
        }
    }

    /// A harvester that finds paths with `finder`.
    pub fn with_finder(finder: PathFinder, root: String, output_dir: String) -> (made: Harvester)
        ensures
            made@ == initial(root@, output_dir@),
            valid(made@),
    {
        let files = HarvestSet::new();
        let pending = String::new();
        proof {
            lemma_copyable_none(files@);
        }
        Harvester {
            finder,
            root,
            output_dir,
            files,
            stage: Stage::Parsing,
            pending,
            cursor: 0,
            copied: 0,
        }
    }

    /// Where the harvest stands.
    pub fn stage(&self) -> (stage: Stage)
        ensures
            stage == self@.stage,
            valid(self@),
    {
        proof {
            use_type_invariant(self);
        }
        self.stage
    }

    /// How many files the harvest set holds.
    pub fn found(&self) -> (count: usize)
        ensures
            count == self@.files.len(),
    {
        self.files.len()
    }

    /// How many files were copied so far.
    pub fn copied(&self) -> (count: usize)
        ensures
            count == self@.copied,
    {
        self.copied
    }

    /// The harvest set.
    pub fn files(&self) -> (files: &HarvestSet)
        ensures
            files@ == self@.files,
    {
        &self.files
    }

    /// Takes in `event` and says what is to be done next.
    pub fn step(self, event: Event) -> (out: (Harvester, Action))
        ensures
            out.0@ == next(self@, event@).0,
            out.1@ == next(self@, event@).1,
            valid(self@),
            valid(out.0@),
    {
        proof {
            use_type_invariant(&self);
        }
        let out = match self.stage {
            Stage::Parsing => match event {
                Event::Line(line) => self.take_line(line),
                Event::EndOfLog => self.end_log(),
                _ => self.fail(),
            },
            Stage::Probing => match event {
                Event::Probed(regular_file) => self.take_answer(regular_file),
                _ => self.fail(),
            },
            Stage::Resetting => match event {
                Event::Done => {
                    proof {
                        lemma_copyable_none(self@.files);
                    }
                    self.copy_from(0, 0)
                },
                _ => self.fail(),
            },
            Stage::Copying => match event {
                Event::Done => {
                    proof {
                        lemma_copyable_take(self@.files, self@.cursor);
                    }
                    let from = self.cursor + 1;
                    let copied = self.copied + 1;
                    self.copy_from(from, copied)
                },
                _ => self.fail(),
            },
            Stage::Finished => (self, Action::Finish),
            Stage::Failed => self.fail(),
        };
        proof {
            use_type_invariant(&out.0);
        }
        out
    }

    /// Looks for a path in a line of the log.
    fn take_line(self, line: String) -> (out: (Harvester, Action))
        requires
            self@.stage is Parsing,
        ensures
            out.0@ == on_line(self@, line@).0,
            out.1@ == on_line(self@, line@).1,
    {
        proof {
            use_type_invariant(&self);
        }
        match self.finder.extract(line.as_str()) {
            Some(path) => {
                if is_candidate(path.as_str(), self.root.as_str()) {
                    let asked = path.clone();
                    let Harvester {
                        finder,
                        root,
                        output_dir,
                        files,
                        stage: _,
                        pending: _,
                        cursor,
                        copied,
                    } = self;
                    (
                        Harvester {
                            finder,
                            root,
                            output_dir,
                            files,
                            stage: Stage::Probing,
                            pending: path,
                            cursor,
                            copied,
                        },
                        Action::Probe(asked),
                    )
                } else {
                    (self, Action::NextLine)
                }
            },
            None => (self, Action::NextLine),
        }
    }

    /// Turns from reading the log to emptying the output directory.
    fn end_log(self) -> (out: (Harvester, Action))
        requires
            self@.stage is Parsing,
        ensures
            out.0@ == on_end_of_log(self@).0,
            out.1@ == on_end_of_log(self@).1,
    {
        proof {
            use_type_invariant(&self);
        }
        let dir = self.output_dir.clone();
        let Harvester { finder, root, output_dir, files, stage: _, pending, cursor, copied } = self;
        (
            Harvester {
                finder,
                root,
                output_dir,
                files,
                stage: Stage::Resetting,
                pending,
                cursor,
                copied,
            },
            Action::ResetOutput(dir),
        )
    }

    /// Records the pending path if the disk holds a regular file under it.
    fn take_answer(self, regular_file: bool) -> (out: (Harvester, Action))
        requires
            self@.stage is Probing,
        ensures
            out.0@ == on_probed(self@, regular_file).0,
            out.1@ == on_probed(self@, regular_file).1,
    {
        proof {
            use_type_invariant(&self);
        }
        let Harvester { finder, root, output_dir, mut files, stage: _, pending, cursor, copied } =
            self;
        if regular_file {
            files.insert(pending);
        }
        proof {
            lemma_copyable_none(files@);
        }
        (
            Harvester {
                finder,
                root,
                output_dir,
                files,
                stage: Stage::Parsing,
                pending: String::new(),
                cursor,
                copied,
            },
            Action::NextLine,
        )
    }

    /// Ends the harvest as failed.
    fn fail(self) -> (out: (Harvester, Action))
        ensures
            out.0@ == failed(self@).0,
            out.1@ == failed(self@).1,
    {
        proof {
            use_type_invariant(&self);
        }
        let Harvester { finder, root, output_dir, files, stage: _, pending, cursor, copied } = self;
        (
            Harvester {
                finder,
                root,
                output_dir,
                files,
                stage: Stage::Failed,
                pending,
                cursor,
                copied,
            },
            Action::Abort,
        )
    }

    /// Goes on copying with the first file at or behind `from` that has a
    /// destination; `copied` files were copied before.
    fn copy_from(self, from: usize, copied: usize) -> (out: (Harvester, Action))
        requires
            self@.pending.len() == 0,
            from <= self@.files.len(),
            copied == copyable(self@.files.take(from as int)).len(),
        ensures
            out.0@ == copy_from(State { copied: copied as nat, ..self@ }, from as nat).0,
            out.1@ == copy_from(State { copied: copied as nat, ..self@ }, from as nat).1,
    {
        proof {
            use_type_invariant(&self);
            lemma_next_copy(self@.files, from as nat);
        }
        let Harvester {
            finder,
            root,
            output_dir,
            files,
            stage: _,
            pending,
            cursor: _,
            copied: _,
        } = self;
        let total = files.len();
        let mut at: usize = from;
        let mut target: Option<String> = None;
        while at < total
            invariant_except_break
                target is None,
                next_copy(files@, from as nat) == next_copy(files@, at as nat),
            invariant
                from <= at <= total,
                total == files@.len(),
            ensures
                from <= at <= total,
                next_copy(files@, from as nat) == at,
                target is Some <==> at < total,
                at < total ==> Some(target.unwrap()@) == destination_path(
                    output_dir@,
                    files@[at as int],
                ),
            decreases total - at,
        {
            let source = files.get(at).unwrap();
            let found = destination(output_dir.as_str(), source.as_str());
            if found.is_some() {
                target = found;
                break ;
            }
            at += 1;
        }
        proof {
            if at < total {
                lemma_copyable_take(files@, at as nat);
            } else {
                assert(files@.take(total as int) =~= files@);
                assert(files@.take(at as int).len() == at);
                lemma_copyable_bound(files@, at as nat);
            }
        }
        match target {
            Some(destination) => {
                let source = match files.get(at) {
                    Some(path) => path.clone(),
                    None => String::new(),
                };
                (
                    Harvester {
                        finder,
                        root,
                        output_dir,
                        files,
                        stage: Stage::Copying,
                        pending,
                        cursor: at,
                        copied,
                    },
                    Action::Copy { source, destination },
                )
            },
            None => (
                Harvester {
                    finder,
                    root,
                    output_dir,
                    files,
                    stage: Stage::Finished,
                    pending,
                    cursor: total,
                    copied,
                },
                Action::Finish,
            ),
        }
    }
}

} // verus!
