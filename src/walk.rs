//! The walk over a template tree, as a state machine.
//!
//! The walk does no I/O of its own. Each call of [`Walk::step`] takes the
//! outcome of the last action that the driver performed and returns the next
//! action: list a directory, load a template file, write a rendered target, or
//! finish. Directories are walked depth first: the entries of a listing are
//! taken in the order given, each subtree before the next sibling. The first
//! failure of any kind ends the walk; what was written before stays written.

use vstd::prelude::*;
use minijinja::Value;
use crate::render::{is_literal, render_template, Rendered};
use crate::target::{mirrored, reconfigure_target, relative_to, OutsideRoot};

verus! {

/// One entry of a directory listing: its full path, and whether it is a
/// directory.
#[derive(Debug, Clone)]
pub struct Entry {
    pub path: String,
    pub is_dir: bool,
}

/// What the driver reports back to the walk.
pub enum Event {
    /// Nothing has been done yet.
    Start,
    /// The directory asked for has these entries.
    Listed(Vec<Entry>),
    /// The template file asked for holds this source.
    Loaded(String),
    /// The target asked for has been written.
    Written,
    /// The last action failed with this message.
    Failed(String),
}

/// Why a walk failed.
#[derive(Debug)]
pub enum WalkError {
    /// Listing, loading or writing failed.
    Io(String),
    /// A template file does not lie under the tree's root.
    OutsideRoot(OutsideRoot),
    /// A template did not compile or did not render.
    Template(minijinja::Error),
}

/// What the walk asks the driver to do next.
#[derive(Debug)]
pub enum Action {
    /// List the entries of this directory, then report `Listed` or `Failed`.
    List(String),
    /// Read this template file in full, then report `Loaded` or `Failed`.
    Load(String),
    /// Create or truncate `target` and write `contents` to it, then report
    /// `Written` or `Failed`.
    Write { target: String, contents: String },
    /// The walk is over, with this outcome.
    Finish(Result<(), WalkError>),
}

/// What a walk waits for.
#[derive(Debug, Clone, Copy, PartialEq, Eq, Structural)]
pub enum Phase {
    Ready,
    Listing,
    Loading,
    Writing,
    Done,
}

/// A walk's state, as plain values.
pub struct WalkView {
    pub root: Seq<char>,
    /// Entries still to visit; the last one is visited next.
    pub pending: Seq<(Seq<char>, bool)>,
    /// The template file being loaded.
    pub current: Seq<char>,
    pub phase: Phase,
}

/// A driver's report, as plain values.
pub enum EventView {
    Start,
    Listed(Seq<(Seq<char>, bool)>),
    Loaded(Seq<char>),
    Written,
    Failed(Seq<char>),
}

/// A failure, as plain values.
pub enum ErrorView {
    Io(Seq<char>),
    OutsideRoot(Seq<char>),
    Template,
}

/// An action, as plain values.
pub enum ActionView {
    List(Seq<char>),
    Load(Seq<char>),
    Write(Seq<char>, Seq<char>),
    Finish(Option<ErrorView>),
}

impl Entry {
    pub open spec fn view(&self) -> (Seq<char>, bool) {
        (self.path@, self.is_dir)
    }
}

pub open spec fn entries_view(es: Seq<Entry>) -> Seq<(Seq<char>, bool)> {
    es.map_values(|e: Entry| e.view())
}

impl Event {
    pub open spec fn view(&self) -> EventView {
        match self {
            Event::Start => EventView::Start,
            Event::Listed(es) => EventView::Listed(entries_view(es@)),
            Event::Loaded(s) => EventView::Loaded(s@),
            Event::Written => EventView::Written,
            Event::Failed(m) => EventView::Failed(m@),
        }
    }
}

impl WalkError {
    pub open spec fn view(&self) -> ErrorView {
        match self {
            WalkError::Io(m) => ErrorView::Io(m@),
            WalkError::OutsideRoot(e) => ErrorView::OutsideRoot(e.path@),
            WalkError::Template(_) => ErrorView::Template,
        }
    }
}

impl Action {
    pub open spec fn view(&self) -> ActionView {
        match self {
            Action::List(d) => ActionView::List(d@),
            Action::Load(f) => ActionView::Load(f@),
            Action::Write { target, contents } => ActionView::Write(target@, contents@),
            Action::Finish(Ok(())) => ActionView::Finish(None),
            Action::Finish(Err(e)) => ActionView::Finish(Some(e.view())),
        }
    }
}

impl ActionView {
    /// The contents of a write, if this is one.
    pub open spec fn written(self) -> Option<Seq<char>> {
        match self {
            ActionView::Write(_, c) => Some(c),
            _ => None,
        }
    }
}

/// Whether a walk in `phase` takes the report `e`.
pub open spec fn accepts(phase: Phase, e: EventView) -> bool {
    match e {
        EventView::Start => phase == Phase::Ready,
        EventView::Listed(_) => phase == Phase::Listing,
        EventView::Loaded(_) => phase == Phase::Loading,
        EventView::Written => phase == Phase::Writing,
        EventView::Failed(_) => phase == Phase::Listing || phase == Phase::Loading || phase
            == Phase::Writing,
    }
}

/// The walk `w`, ended.
pub open spec fn ended(w: WalkView) -> WalkView {
    WalkView { phase: Phase::Done, ..w }
}

/// Take the next pending entry: list a directory, load a file, or succeed when
/// none is left.
pub open spec fn advance(w: WalkView) -> (WalkView, ActionView) {
    if w.pending.len() == 0 {
        (ended(w), ActionView::Finish(None))
    } else {
        let (path, is_dir) = w.pending.last();
        let rest = w.pending.drop_last();
        if is_dir {
            (WalkView { pending: rest, phase: Phase::Listing, ..w }, ActionView::List(path))
        } else {
            (
                WalkView { pending: rest, current: path, phase: Phase::Loading, ..w },
                ActionView::Load(path),
            )
        }
    }
}

/// The next state and action of `w` on every report but `Loaded`.
pub open spec fn next(w: WalkView, e: EventView) -> (WalkView, ActionView) {
    match e {
        EventView::Listed(es) => advance(WalkView { pending: w.pending + es.reverse(), ..w }),
        EventView::Failed(m) => (ended(w), ActionView::Finish(Some(ErrorView::Io(m)))),
        _ => advance(w),
    }
}

/// The next state and action of `w` once its current template, bound for
/// `target`, rendered to `out` (`None`: rendering failed).
pub open spec fn after_rendering(w: WalkView, target: Seq<char>, out: Option<Seq<char>>) -> (
    WalkView,
    ActionView,
) {
    match out {
        Some(c) => (WalkView { phase: Phase::Writing, ..w }, ActionView::Write(target, c)),
        None => (ended(w), ActionView::Finish(Some(ErrorView::Template))),
    }
}

/// Whether every entry of `pending` is a directory.
pub open spec fn only_directories(pending: Seq<(Seq<char>, bool)>) -> bool {
    forall|i: int| 0 <= i < pending.len() ==> (#[trigger] pending[i]).1
}

/// A tree without template files is rendered without a single load or write,
/// and the walk over it can only succeed. While nothing pending is a file and
/// each listing holds only directories, each step lists a directory or ends
/// the walk in success, and leaves nothing but directories pending. A new walk
/// starts in such a state.
pub proof fn tree_without_files_writes_nothing(w: WalkView, e: EventView)
    requires
        only_directories(w.pending),
        w.phase != Phase::Loading,
        w.phase != Phase::Writing,
        accepts(w.phase, e),
        !(e is Failed),
        e matches EventView::Listed(es) ==> only_directories(es),
    ensures
        only_directories(next(w, e).0.pending),
        next(w, e).0.phase != Phase::Loading,
        next(w, e).0.phase != Phase::Writing,
        next(w, e).1 is List || next(w, e).1 == ActionView::Finish(None),
{
    if let EventView::Listed(es) = e {
        let p = w.pending + es.reverse();
        assert forall|i: int| 0 <= i < p.len() implies (#[trigger] p[i]).1 by {
            if i >= w.pending.len() {
                assert(p[i] == es[es.len() - 1 - (i - w.pending.len())]);
            }
        }
    }
}

/// The states and actions of `w` on the reports `es`, one after another, where
/// none of them is `Loaded`.
pub open spec fn run(w: WalkView, es: Seq<EventView>) -> (WalkView, Seq<ActionView>)
    decreases es.len(),
{
    if es.len() == 0 {
        (w, Seq::empty())
    } else {
        let (w1, a) = next(w, es[0]);
        let (w2, rest) = run(w1, es.skip(1));
        (w2, seq![a] + rest)
    }
}

/// Whether `w` takes each of the reports `es` in turn.
pub open spec fn driven(w: WalkView, es: Seq<EventView>) -> bool
    decreases es.len(),
{
    es.len() == 0 || (accepts(w.phase, es[0]) && driven(next(w, es[0]).0, es.skip(1)))
}

/// A whole walk over a tree without template files: from its start, on any
/// run of reports that it takes in turn, in which no action fails and every
/// listing holds only directories, each action lists a directory or ends the
/// walk in success. Nothing is loaded or written.
pub proof fn run_without_files_writes_nothing(w: WalkView, es: Seq<EventView>)
    requires
        only_directories(w.pending),
        w.phase != Phase::Loading,
        w.phase != Phase::Writing,
        driven(w, es),
        forall|i: int| 0 <= i < es.len() ==> !(#[trigger] es[i] is Failed),
        forall|i: int|
            0 <= i < es.len() ==> (#[trigger] es[i] matches EventView::Listed(l) ==> only_directories(l)),
    ensures
        forall|i: int|
            0 <= i < run(w, es).1.len() ==> (#[trigger] run(w, es).1[i] is List || run(w, es).1[i]
                == ActionView::Finish(None)),
    decreases es.len(),
{
    if es.len() > 0 {
        let e = es[0];
        assert(!(e is Failed));
        assert(e matches EventView::Listed(l) ==> only_directories(l));
        tree_without_files_writes_nothing(w, e);
        let w1 = next(w, e).0;
        let tail = es.skip(1);
        assert forall|i: int| 0 <= i < tail.len() implies !(#[trigger] tail[i] is Failed) by {
            assert(tail[i] == es[i + 1]);
        }
        assert forall|i: int| 0 <= i < tail.len() implies (#[trigger] tail[i] matches EventView::Listed(
            l,
        ) ==> only_directories(l)) by {
            assert(tail[i] == es[i + 1]);
        }
        run_without_files_writes_nothing(w1, tail);
        let acts = run(w, es).1;
        let rest = run(w1, tail).1;
        assert(acts == seq![next(w, e).1] + rest);
        assert forall|i: int| 0 <= i < acts.len() implies (#[trigger] acts[i] is List || acts[i]
            == ActionView::Finish(None)) by {
            if i > 0 {
                assert(acts[i] == rest[i - 1]);
            }
        }
    }
}

/// A failed listing, load or write ends the walk with that failure, and an
/// ended walk takes no further report: nothing is visited or written after it,
/// and nothing written before it is undone.
pub proof fn failure_ends_walk(w: WalkView, message: Seq<char>, later: EventView)
    requires
        accepts(w.phase, EventView::Failed(message)),
    ensures
        next(w, EventView::Failed(message)).0.phase == Phase::Done,
        next(w, EventView::Failed(message)).1 == ActionView::Finish(
            Some(ErrorView::Io(message)),
        ),
        !accepts(Phase::Done, later),
{
}

/// A template that does not render ends the walk with a template error, and
/// an ended walk takes no further report: no file later in the walk is written,
/// and the files written before stay as they are.
pub proof fn render_failure_ends_walk(w: WalkView, target: Seq<char>, later: EventView)
    ensures
        after_rendering(w, target, None).0.phase == Phase::Done,
        after_rendering(w, target, None).1 == ActionView::Finish(Some(ErrorView::Template)),
        !accepts(Phase::Done, later),
{
}

/// A walk over the template tree under one root.
pub struct Walk {
    root: String,
    pending: Vec<Entry>,
    current: String,
    phase: Phase,
}

impl Walk {
    pub closed spec fn view(&self) -> WalkView {
        WalkView {
            root: self.root@,
            pending: entries_view(self.pending@),
            current: self.current@,
            phase: self.phase,
        }
    }

    /// A walk of the tree rooted at `root`, which starts by listing `root`.
    pub fn new(root: String) -> (w: Walk)
        ensures
            w@.root == root@,
            w@.pending == seq![(root@, true)],
            w@.phase == Phase::Ready,
    {
        let first = Entry { path: root.clone(), is_dir: true };
        let w = Walk { root, pending: vec![first], current: String::new(), phase: Phase::Ready };
        assert(w@.pending =~= seq![(w@.root, true)]);
        w
    }

    /// Whether the walk is over.
    pub fn is_finished(&self) -> (r: bool)
        ensures
            r == (self@.phase == Phase::Done),
    {
        self.phase == Phase::Done
    }

    /// Whether the walk takes `event` now.
    pub fn accepts(&self, event: &Event) -> (r: bool)
        ensures
            r == accepts(self@.phase, event@),
    {
        match event {
            Event::Start => self.phase == Phase::Ready,
            Event::Listed(_) => self.phase == Phase::Listing,
            Event::Loaded(_) => self.phase == Phase::Loading,
            Event::Written => self.phase == Phase::Writing,
            Event::Failed(_) => self.phase == Phase::Listing || self.phase == Phase::Loading
                || self.phase == Phase::Writing,
        }
    }

    /// Takes the next pending entry.
    fn advance(&mut self) -> (a: Action)
        ensures
            (final(self)@, a@) == advance(old(self)@),
    {
        match self.pending.pop() {
            None => {
                self.phase = Phase::Done;
                Action::Finish(Ok(()))
            },
            Some(e) => {
                proof {
                    assert(entries_view(self.pending@) =~= entries_view(old(self).pending@).drop_last());
                }
                if e.is_dir {
                    self.phase = Phase::Listing;
                    Action::List(e.path)
                } else {
                    self.phase = Phase::Loading;
                    self.current = e.path.clone();
                    Action::Load(e.path)
                }
            },
        }
    }

    /// Puts the entries of a listing on the pending stack, the first entry on top.
    fn push_listing(&mut self, entries: Vec<Entry>)
        ensures
            final(self)@ == (WalkView {
                pending: old(self)@.pending + entries_view(entries@).reverse(),
                ..old(self)@
            }),
    {
        let mut entries = entries;
        let ghost es = entries@;
        let ghost p0 = self.pending@;
        while entries.len() > 0
            invariant
                entries@ == es.take(entries@.len() as int),
                entries@.len() <= es.len(),
                entries_view(self.pending@) == entries_view(p0) + entries_view(es).reverse().take(
                    es.len() - entries@.len(),
                ),
                self.root == old(self).root,
                self.current == old(self).current,
                self.phase == old(self).phase,
            decreases entries.len(),
        {
            let ghost n = entries@.len();
            let ghost before = self.pending@;
            let e = entries.pop().unwrap();
            self.pending.push(e);
            proof {
                assert(e == es[n - 1]);
                assert(entries_view(self.pending@) =~= entries_view(before).push(e.view()));
                assert(entries_view(es).reverse()[es.len() - n] == e.view());
                assert(entries@ =~= es.take(entries@.len() as int));
                assert(entries_view(es).reverse().take(es.len() - entries@.len()) =~= entries_view(
                    es,
                ).reverse().take(es.len() - n).push(e.view()));
                assert(entries_view(self.pending@) =~= entries_view(p0) + entries_view(
                    es,
                ).reverse().take(es.len() - entries@.len()));
            }
        }
        proof {
            assert(entries_view(es).reverse().take(es.len() as int) =~= entries_view(es).reverse());
        }
    }

    /// Goes on once the current template, bound for `target`, has been
    /// rendered: write the output, or end the walk with the template's error.
    pub fn after_render(&mut self, target: String, rendered: Rendered) -> (a: Action)
        ensures
            (final(self)@, a@) == after_rendering(
                old(self)@,
                target@,
                match rendered {
                    Ok(out) => Some(out@),
                    Err(_) => None,
                },
            ),
    {
        match rendered {
            Ok(contents) => {
                self.phase = Phase::Writing;
                Action::Write { target, contents }
            },
            Err(e) => {
                self.phase = Phase::Done;
                Action::Finish(Err(WalkError::Template(e)))
            },
        }
    }

    /// Takes the driver's report of the last action and returns the next
    /// action. A report of failure ends the walk with that failure. A loaded
    /// template is rendered against `context` and written to its mirrored
    /// target; a template outside the root, or one that does not render, ends
    /// the walk.
    pub fn step(&mut self, context: &Value, event: Event) -> (a: Action)
        requires
            accepts(old(self)@.phase, event@),
        ensures
            !(event@ is Loaded) ==> (final(self)@, a@) == next(old(self)@, event@),
            event@ matches EventView::Loaded(source) ==> match relative_to(
                old(self)@.root,
                old(self)@.current,
            ) {
                None => (final(self)@, a@) == (ended(old(self)@), ActionView::Finish(
                    Some(ErrorView::OutsideRoot(old(self)@.current)),
                )),
                Some(rel) => {
                    &&& (final(self)@, a@) == after_rendering(
                        old(self)@,
                        mirrored(rel),
                        a@.written(),
                    )
                    &&& (is_literal(source) && a@.written() is Some) ==> a@.written() == Some(source)
                },
            },
    {
        match event {
            Event::Start => self.advance(),
            Event::Listed(entries) => {
                self.push_listing(entries);
                self.advance()
            },
            Event::Loaded(source) => {
                match reconfigure_target(self.root.as_str(), self.current.as_str()) {
                    Err(e) => {
                        self.phase = Phase::Done;
                        Action::Finish(Err(WalkError::OutsideRoot(e)))
                    },
                    Ok(target) => {
                        let rendered = render_template(source.as_str(), context);
                        self.after_render(target, rendered)
                    },
                }
            },
            Event::Written => self.advance(),
            Event::Failed(message) => {
                self.phase = Phase::Done;
                Action::Finish(Err(WalkError::Io(message)))
            },
        }
    }
}

} // verus!
