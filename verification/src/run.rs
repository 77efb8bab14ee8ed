//! Whole runs of the harvester, and what holds of them.
//!
//! `Harvester::step` follows `next` one event at a time. Here the steps are
//! strung together: a log is taken in line by line against a disk, and the
//! files are copied one by one. What is proved of these runs holds of every
//! caller that reports truthfully.

use crate::filter::{admitted, in_cache, inside_root, lexically_admitted};
use crate::harvest_set::{lemma_recorded_distinct, recorded};
use crate::harvester::{
    copyable, initial, lemma_copyable_none, lemma_copyable_take, lemma_next_copy, next, valid,
    ActionView, EventView, Stage, State,
};
use crate::layout::{destination_path, package_tail};
use crate::pattern::quoted_path;
use vstd::prelude::*;

verus! {

/// A harvest begins in a valid state.
pub proof fn lemma_initial_valid(root: Seq<char>, output_dir: Seq<char>)
    ensures
        valid(initial(root, output_dir)),
{
}

/// No event leads out of the valid states, and none changes the root or the
/// output directory.
pub proof fn lemma_next_valid(state: State, event: EventView)
    requires
        valid(state),
    ensures
        valid(next(state, event).0),
        next(state, event).0.root == state.root,
        next(state, event).0.output_dir == state.output_dir,
{
    match state.stage {
        Stage::Probing => {
            lemma_recorded_distinct(state.files, state.pending);
            lemma_copyable_none(next(state, event).0.files);
        },
        Stage::Resetting => {
            lemma_next_copy(state.files, 0);
            assert(state.files.take(state.files.len() as int) =~= state.files);
        },
        Stage::Copying => {
            lemma_copyable_take(state.files, state.cursor);
            lemma_next_copy(state.files, state.cursor + 1);
            assert(state.files.take(state.files.len() as int) =~= state.files);
        },
        _ => {},
    }
}

/// The state that a harvest reaches from `state` on a series of events.
pub open spec fn reach(state: State, events: Seq<EventView>) -> State
    decreases events.len(),
{
    if events.len() == 0 {
        state
    } else {
        next(reach(state, events.drop_last()), events.last()).0
    }
}

/// Whatever the caller reports, and in whatever order, the harvest is in a
/// valid state, and works on the root and the output directory that it
/// began with.
pub proof fn lemma_every_state_valid(root: Seq<char>, output_dir: Seq<char>, events: Seq<EventView>)
    ensures
        valid(reach(initial(root, output_dir), events)),
        reach(initial(root, output_dir), events).root == root,
        reach(initial(root, output_dir), events).output_dir == output_dir,
    decreases events.len(),
{
    if events.len() > 0 {
        lemma_every_state_valid(root, output_dir, events.drop_last());
        lemma_next_valid(reach(initial(root, output_dir), events.drop_last()), events.last());
    }
}

/// Every file of the harvest set lies inside the dependency root, and none
/// passes through a bytecode cache.
pub proof fn lemma_harvest_inside_root(state: State, path: Seq<char>)
    requires
        valid(state),
        state.files.contains(path),
    ensures
        inside_root(path, state.root),
        !in_cache(path),
{
    let i = choose|i: int| 0 <= i < state.files.len() && state.files[i] == path;
    assert(lexically_admitted(state.files[i], state.root));
}

/// A path that names no regular file is passed over: the harvest set stays
/// as it was, and the harvest goes on with the next line.
pub proof fn lemma_missing_file_passed_over(state: State)
    requires
        state.stage is Probing,
    ensures
        next(state, EventView::Probed(false)).1 == ActionView::NextLine,
        next(state, EventView::Probed(false)).0.stage is Parsing,
        next(state, EventView::Probed(false)).0.files == state.files,
{
}

/// The stages in their order. Reading the log and asking the disk take
/// turns, so they share a rank.
pub open spec fn rank(stage: Stage) -> nat {
    match stage {
        Stage::Parsing | Stage::Probing => 0,
        Stage::Resetting => 1,
        Stage::Copying => 2,
        Stage::Finished => 3,
        Stage::Failed => 4,
    }
}

/// A harvest never goes back: no event leads to an earlier stage, and the
/// stage of emptying the output directory is entered from an earlier one
/// only, so it is passed through once at most.
pub proof fn lemma_stages_advance(state: State, event: EventView)
    ensures
        rank(state.stage) <= rank(next(state, event).0.stage),
        next(state, event).0.stage is Resetting ==> rank(state.stage) < rank(Stage::Resetting),
{
}

/// The output directory is emptied when the log is read to its end, and
/// nothing is copied before that was done: a copy is only ever asked for in
/// answer to the report that the last piece of work, the emptying or a
/// copy, was done.
pub proof fn lemma_reset_before_copy(state: State, event: EventView)
    ensures
        next(state, event).1 is Copy ==> event is Done && (state.stage is Resetting
            || state.stage is Copying),
        next(state, event).1 is ResetOutput ==> state.stage is Parsing && event is EndOfLog
            && next(state, event).1 == ActionView::ResetOutput(state.output_dir),
        next(state, event).0.stage is Resetting ==> next(state, event).1 is ResetOutput,
        next(state, event).0.stage is Copying ==> next(state, event).1 is Copy,
{
}

/// The copies that a harvest asks for, in their order: one for each file
/// of the harvest set that has a destination.
pub open spec fn copy_plan(files: Seq<Seq<char>>, output_dir: Seq<char>) -> Seq<ActionView> {
    copyable(files).map_values(
        |source: Seq<char>|
            ActionView::Copy {
                source,
                destination: destination_path(output_dir, source).unwrap(),
            },
    )
}

/// Copying follows the plan: each time the caller reports that the last
/// piece of work is done, the next copy of the plan is asked for, and the
/// harvest is finished when the plan is exhausted, and no sooner.
pub proof fn lemma_copies_follow_plan(state: State)
    requires
        valid(state),
        state.stage is Resetting || state.stage is Copying,
    ensures
        next(state, EventView::Done).0.copied <= copy_plan(state.files, state.output_dir).len(),
        next(state, EventView::Done).0.copied == if state.stage is Copying {
            state.copied + 1
        } else {
            0
        },
        next(state, EventView::Done).1 == if next(state, EventView::Done).0.copied < copy_plan(
            state.files,
            state.output_dir,
        ).len() {
            copy_plan(state.files, state.output_dir)[next(state, EventView::Done).0.copied as int]
        } else {
            ActionView::Finish
        },
{
    let files = state.files;
    let after = next(state, EventView::Done).0;
    lemma_next_valid(state, EventView::Done);
    let at = after.cursor as int;
    let keep = |path: Seq<char>| package_tail(path) is Some;
    if after.stage is Copying {
        lemma_copyable_take(files, at as nat);
        assert(files =~= files.take(at + 1) + files.skip(at + 1));
        Seq::filter_distributes_over_add(files.take(at + 1), files.skip(at + 1), keep);
        assert(copyable(files) == copyable(files.take(at + 1)) + copyable(files.skip(at + 1)));
        assert(copyable(files)[after.copied as int] == files[at]);
    } else {
        assert(files.take(at) =~= files);
    }
}

/// The disk's answers to the harvester's questions: the set of the paths
/// that name a regular file.
pub type Disk = Set<Seq<char>>;

/// The state after one line of the log was taken in, the disk asked where
/// the harvester wanted to know.
pub open spec fn observe(state: State, line: Seq<char>, disk: Disk) -> State {
    let (asked, action) = next(state, EventView::Line(line));
    match action {
        ActionView::Probe(path) => next(asked, EventView::Probed(disk.contains(path))).0,
        _ => asked,
    }
}

/// The state after the lines of a log were taken in, one after the other.
pub open spec fn parse_log(state: State, lines: Seq<Seq<char>>, disk: Disk) -> State
    decreases lines.len(),
{
    if lines.len() == 0 {
        state
    } else {
        observe(parse_log(state, lines.drop_last(), disk), lines.last(), disk)
    }
}

/// `path` is named by a line of the log and passes the filter.
pub open spec fn harvestable(path: Seq<char>, lines: Seq<Seq<char>>, root: Seq<char>, disk: Disk) -> bool {
    &&& admitted(path, root, disk.contains(path))
    &&& exists|i: int| 0 <= i < lines.len() && #[trigger] quoted_path(lines[i]) == Some(path)
}

/// Taking in a line records the path it names where that path passes the
/// filter, and changes nothing otherwise.
pub proof fn lemma_observe(state: State, line: Seq<char>, disk: Disk)
    requires
        valid(state),
        state.stage is Parsing,
    ensures
        valid(observe(state, line, disk)),
        observe(state, line, disk) == (State {
            files: match quoted_path(line) {
                Some(path) => if admitted(path, state.root, disk.contains(path)) {
                    recorded(state.files, path)
                } else {
                    state.files
                },
                None => state.files,
            },
            ..state
        }),
{
    let (asked, action) = next(state, EventView::Line(line));
    lemma_next_valid(state, EventView::Line(line));
    match action {
        ActionView::Probe(path) => {
            lemma_next_valid(asked, EventView::Probed(disk.contains(path)));
            assert(state.pending =~= Seq::<char>::empty());
        },
        _ => {},
    }
}

/// What a log leaves in the harvest set: the set holds what it held before,
/// and every path that a line names and the filter passes; it holds nothing
/// else, and nothing twice. No line ends the harvest.
pub proof fn lemma_parse_log(state: State, lines: Seq<Seq<char>>, disk: Disk)
    requires
        valid(state),
        state.stage is Parsing,
    ensures
        valid(parse_log(state, lines, disk)),
        parse_log(state, lines, disk).stage is Parsing,
        parse_log(state, lines, disk).root == state.root,
        parse_log(state, lines, disk).output_dir == state.output_dir,
        parse_log(state, lines, disk).files.no_duplicates(),
        forall|path: Seq<char>|
            #![trigger parse_log(state, lines, disk).files.contains(path)]
            #![trigger harvestable(path, lines, state.root, disk)]
            parse_log(state, lines, disk).files.contains(path) <==> (state.files.contains(path)
                || harvestable(path, lines, state.root, disk)),
    decreases lines.len(),
{
    if lines.len() == 0 {
    } else {
        let earlier = lines.drop_last();
        let line = lines.last();
        let middle = parse_log(state, earlier, disk);
        let end = parse_log(state, lines, disk);
        lemma_parse_log(state, earlier, disk);
        lemma_observe(middle, line, disk);
        assert(line == lines[lines.len() - 1]);
        assert forall|path: Seq<char>|
            #![trigger end.files.contains(path)]
            #![trigger harvestable(path, lines, state.root, disk)]
            end.files.contains(path) <==> (state.files.contains(path) || harvestable(
                path,
                lines,
                state.root,
                disk,
            )) by {
            let named_now = quoted_path(line) == Some(path) && admitted(
                path,
                state.root,
                disk.contains(path),
            );
            assert(end.files.contains(path) <==> middle.files.contains(path) || named_now) by {
                match quoted_path(line) {
                    Some(named) => {
                        if admitted(named, state.root, disk.contains(named)) {
                            lemma_recorded_holds(middle.files, named, path);
                        }
                    },
                    None => {},
                }
            }
            assert(harvestable(path, lines, state.root, disk) <==> harvestable(
                path,
                earlier,
                state.root,
                disk,
            ) || named_now) by {
                if harvestable(path, earlier, state.root, disk) {
                    let i = choose|i: int|
                        0 <= i < earlier.len() && #[trigger] quoted_path(earlier[i]) == Some(path);
                    assert(earlier[i] == lines[i]);
                    assert(quoted_path(lines[i]) == Some(path));
                }
                if named_now {
                    assert(quoted_path(lines[lines.len() - 1]) == Some(path));
                }
                if harvestable(path, lines, state.root, disk) && !named_now {
                    let i = choose|i: int|
                        0 <= i < lines.len() && #[trigger] quoted_path(lines[i]) == Some(path);
                    assert(i < earlier.len());
                    assert(earlier[i] == lines[i]);
                    assert(quoted_path(earlier[i]) == Some(path));
                }
            }
        }
    }
}

/// What a list holds once a path is recorded in it.
pub proof fn lemma_recorded_holds(files: Seq<Seq<char>>, path: Seq<char>, other: Seq<char>)
    ensures
        recorded(files, path).contains(other) <==> files.contains(other) || other == path,
{
    let after = recorded(files, path);
    if !files.contains(path) {
        assert(after[files.len() as int] == path);
        if files.contains(other) {
            let i = choose|i: int| 0 <= i < files.len() && files[i] == other;
            assert(after[i] == other);
        }
        if after.contains(other) {
            let i = choose|i: int| 0 <= i < after.len() && after[i] == other;
            if i < files.len() {
                assert(files[i] == other);
            }
        }
    }
}

/// The harvest set that a log leaves, taken in from the beginning.
pub open spec fn harvest_of(
    root: Seq<char>,
    output_dir: Seq<char>,
    lines: Seq<Seq<char>>,
    disk: Disk,
) -> Seq<Seq<char>> {
    parse_log(initial(root, output_dir), lines, disk).files
}

/// However often the log names a file, the harvest set holds it once: a
/// path that some line names and the filter passes stands at one place of
/// the set, and at no other.
pub proof fn lemma_one_entry_per_path(
    root: Seq<char>,
    output_dir: Seq<char>,
    lines: Seq<Seq<char>>,
    disk: Disk,
    path: Seq<char>,
)
    requires
        harvestable(path, lines, root, disk),
    ensures
        harvest_of(root, output_dir, lines, disk).contains(path),
        forall|i: int, j: int|
            #![trigger harvest_of(root, output_dir, lines, disk)[i], harvest_of(root, output_dir, lines, disk)[j]]
            0 <= i < harvest_of(root, output_dir, lines, disk).len() && 0 <= j < harvest_of(
                root,
                output_dir,
                lines,
                disk,
            ).len() && harvest_of(root, output_dir, lines, disk)[i] == path && harvest_of(
                root,
                output_dir,
                lines,
                disk,
            )[j] == path ==> i == j,
{
    lemma_parse_log(initial(root, output_dir), lines, disk);
    assert(parse_log(initial(root, output_dir), lines, disk).files.contains(path));
}

/// A harvest set that is taken in again comes out as it is: where a second
/// log names the members one by one, in their order, and the disk has not
/// changed, the second harvest set is the first.
pub proof fn lemma_filter_idempotent(
    root: Seq<char>,
    output_dir: Seq<char>,
    lines: Seq<Seq<char>>,
    again: Seq<Seq<char>>,
    disk: Disk,
)
    requires
        again.len() == harvest_of(root, output_dir, lines, disk).len(),
        forall|i: int|
            0 <= i < again.len() ==> #[trigger] quoted_path(again[i]) == Some(
                harvest_of(root, output_dir, lines, disk)[i],
            ),
    ensures
        harvest_of(root, output_dir, again, disk) == harvest_of(root, output_dir, lines, disk),
{
    let files = parse_log(initial(root, output_dir), lines, disk).files;
    lemma_parse_log(initial(root, output_dir), lines, disk);
    assert forall|i: int| 0 <= i < files.len() implies admitted(
        #[trigger] files[i],
        root,
        disk.contains(files[i]),
    ) by {
        assert(files.contains(files[i]));
        assert(!initial(root, output_dir).files.contains(files[i]));
    }
    lemma_members_taken_in(root, output_dir, files, again, disk);
}

/// A list of distinct paths that pass the filter, named one by one to a
/// fresh harvester, is the harvest set that comes of it.
proof fn lemma_members_taken_in(
    root: Seq<char>,
    output_dir: Seq<char>,
    files: Seq<Seq<char>>,
    lines: Seq<Seq<char>>,
    disk: Disk,
)
    requires
        files.no_duplicates(),
        forall|i: int|
            0 <= i < files.len() ==> admitted(#[trigger] files[i], root, disk.contains(files[i])),
        lines.len() == files.len(),
        forall|i: int| 0 <= i < lines.len() ==> #[trigger] quoted_path(lines[i]) == Some(files[i]),
    ensures
        parse_log(initial(root, output_dir), lines, disk).files == files,
    decreases lines.len(),
{
    let start = initial(root, output_dir);
    if lines.len() == 0 {
        assert(files =~= Seq::<Seq<char>>::empty());
    } else {
        let earlier = lines.drop_last();
        let fewer = files.drop_last();
        assert forall|i: int| 0 <= i < earlier.len() implies #[trigger] quoted_path(earlier[i])
            == Some(fewer[i]) by {
            assert(quoted_path(lines[i]) == Some(files[i]));
        }
        assert forall|i: int| 0 <= i < fewer.len() implies admitted(
            #[trigger] fewer[i],
            root,
            disk.contains(fewer[i]),
        ) by {
            assert(admitted(files[i], root, disk.contains(files[i])));
        }
        lemma_members_taken_in(root, output_dir, fewer, earlier, disk);
        lemma_parse_log(start, earlier, disk);
        let middle = parse_log(start, earlier, disk);
        lemma_observe(middle, lines.last(), disk);
        let last = files.last();
        assert(quoted_path(lines[lines.len() - 1]) == Some(files[files.len() - 1]));
        assert(admitted(files[files.len() - 1], root, disk.contains(last)));
        if fewer.contains(last) {
            let i = choose|i: int| 0 <= i < fewer.len() && fewer[i] == last;
            assert(files[i] == files[files.len() - 1]);
        }
        assert(fewer.push(last) =~= files);
    }
}

} // verus!
