use vstd::prelude::*;
use crate::classify::{backups_of, ChangeEvent};
use crate::engine::Taiwu;
use crate::layout::{paths_view, tracked_paths_of, MAX_SLOTS};
use crate::path::FsPath;

verus! {

/// Whether a watch session is running.
#[derive(Clone, Copy, Debug, PartialEq, Eq, Structural)]
pub enum WatchState {
    /// No watch is registered.
    Idle,
    /// A watch is registered and its notifications are being consumed.
    Watching,
}

/// What the notification stream delivered next.
pub enum Notification {
    /// A change notification.
    Event(ChangeEvent),
    /// A notification that could not be delivered or decoded.
    DeliveryError,
    /// The stream ended: the watch was released.
    Closed,
}

/// The abstract content of a [`CopyRun`]: the files to copy, how many have
/// been copied, and whether a copy failed.
pub struct CopyRunView {
    pub pending: Seq<Seq<Seq<char>>>,
    pub done: nat,
    pub failed: bool,
}

/// A list of copies to make in order, stopping at the first failure.
pub struct CopyRun {
    pending: Vec<FsPath>,
    done: usize,
    failed: bool,
}

impl View for CopyRun {
    type V = CopyRunView;

    closed spec fn view(&self) -> CopyRunView {
        CopyRunView { pending: paths_view(self.pending@), done: self.done as nat, failed: self.failed }
    }
}

impl CopyRun {
    #[verifier::type_invariant]
    spec fn done_in_range(&self) -> bool {
        self.done <= self.pending.len()
    }

    /// A run over `pending`, nothing copied yet.
    pub fn new(pending: Vec<FsPath>) -> (r: CopyRun)
        ensures
            r@.pending == paths_view(pending@),
            r@.done == 0,
            !r@.failed,
    {
        CopyRun { pending, done: 0, failed: false }
    }

    /// The next file to copy: none once every file is copied or a copy
    /// failed.
    pub fn next_copy(&self) -> (r: Option<FsPath>)
        ensures
            self@.done <= self@.pending.len(),
            r.is_some() == (!self@.failed && self@.done < self@.pending.len()),
            r.is_some() ==> r.unwrap()@ == self@.pending[self@.done as int],
    {
        proof {
            use_type_invariant(self);
        }
        if self.failed || self.done == self.pending.len() {
            None
        } else {
            Some(self.pending[self.done].duplicate())
        }
    }

    /// Records the outcome of the copy that [`CopyRun::next_copy`] handed
    /// out, and says whether the run goes on. Once a copy failed, or every
    /// file is copied, nothing changes and the answer is `false`.
    pub fn record(&mut self, copied: bool) -> (r: bool)
        ensures
            old(self)@.failed || old(self)@.done == old(self)@.pending.len() ==> (final(self)@
                == old(self)@ && !r),
            !old(self)@.failed && old(self)@.done < old(self)@.pending.len() ==> (
            final(self)@.pending == old(self)@.pending && (copied ==> (final(self)@.done
                == old(self)@.done + 1 && !final(self)@.failed)) && (!copied ==> (final(self)@.done
                == old(self)@.done && final(self)@.failed)) && r == (copied && final(self)@.done
                < final(self)@.pending.len())),
    {
        proof {
            use_type_invariant(&*self);
        }
        if self.failed || self.done == self.pending.len() {
            return false;
        }
        if copied {
            self.done = self.done + 1;
        } else {
            self.failed = true;
        }
        self.done < self.pending.len() && !self.failed
    }

    /// Whether a copy failed.
    pub fn failed(&self) -> (r: bool)
        ensures
            r == self@.failed,
    {
        self.failed
    }

    /// Whether every file was copied.
    pub fn is_complete(&self) -> (r: bool)
        ensures
            r == (!self@.failed && self@.done == self@.pending.len()),
    {
        !self.failed && self.done == self.pending.len()
    }
}

/// What the driver of a session is to do next.
pub enum Reaction {
    /// Make these copies, in order, stopping at the first failure; then
    /// settle the session with [`WatchSession::after_copies`].
    BackUp(CopyRun),
    /// Log the delivery error and wait for the next notification.
    LogDeliveryError,
    /// The session is over and ended well.
    Finish,
    /// No session is running; nothing is to be done.
    NotWatching,
}

/// The life cycle of a watch: `Idle`, then `Watching` while notifications are
/// consumed, then `Idle` again when the stream ends or a copy fails.
pub struct WatchSession {
    state: WatchState,
}

impl View for WatchSession {
    type V = WatchState;

    closed spec fn view(&self) -> WatchState {
        self.state
    }
}

impl WatchSession {
    /// A session that has not started.
    pub fn new() -> (r: WatchSession)
        ensures
            r@ == WatchState::Idle,
    {
        WatchSession { state: WatchState::Idle }
    }

    /// The current state.
    pub fn state(&self) -> (r: WatchState)
        ensures
            r == self@,
    {
        self.state
    }

    /// Starts watching; `false`, with nothing changed, when a watch is
    /// already running.
    pub fn start(&mut self) -> (r: bool)
        ensures
            r == (old(self)@ == WatchState::Idle),
            final(self)@ == WatchState::Watching,
    {
        match self.state {
            WatchState::Idle => {
                self.state = WatchState::Watching;
                true
            },
            WatchState::Watching => false,
        }
    }

    /// Takes in the next thing that the stream delivered, for the engine
    /// `engine`, and says what to do about it.
    pub fn step(&mut self, engine: &Taiwu, n: &Notification) -> (r: Reaction)
        ensures
            old(self)@ == WatchState::Idle ==> (final(self)@ == WatchState::Idle
                && r is NotWatching),
            old(self)@ == WatchState::Watching ==> match n {
                Notification::Event(e) => final(self)@ == WatchState::Watching && match r {
                    Reaction::BackUp(run) => run@.pending == backups_of(
                        e.kind,
                        paths_view(e.paths@),
                        tracked_paths_of(engine@.game_root, MAX_SLOTS as nat),
                    ) && run@.done == 0 && !run@.failed,
                    _ => false,
                },
                Notification::DeliveryError => final(self)@ == WatchState::Watching
                    && r is LogDeliveryError,
                Notification::Closed => final(self)@ == WatchState::Idle && r is Finish,
            },
    {
        match self.state {
            WatchState::Idle => Reaction::NotWatching,
            WatchState::Watching => match n {
                Notification::Event(e) => Reaction::BackUp(CopyRun::new(engine.process(e))),
                Notification::DeliveryError => Reaction::LogDeliveryError,
                Notification::Closed => {
                    self.state = WatchState::Idle;
                    Reaction::Finish
                },
            },
        }
    }

    /// Settles the session after the copies of one notification, and says
    /// whether it goes on. A failed copy ends it: the failure is the
    /// driver's to report, and no further notification is processed.
    pub fn after_copies(&mut self, run: &CopyRun) -> (r: bool)
        ensures
            run@.failed ==> (final(self)@ == WatchState::Idle && !r),
            !run@.failed ==> (final(self)@ == old(self)@ && r == (old(self)@ == WatchState::Watching)),
    {
        if run.failed() {
            self.state = WatchState::Idle;
            false
        } else {
            match self.state {
                WatchState::Watching => true,
                WatchState::Idle => false,
            }
        }
    }
}

/// The one active watch, if any, of an engine. Taking it out clears it, so
/// that a watch is released at most once.
pub struct WatchHandle<H> {
    slot: Option<H>,
}

impl<H> View for WatchHandle<H> {
    type V = Option<H>;

    closed spec fn view(&self) -> Option<H> {
        self.slot
    }
}

impl<H> WatchHandle<H> {
    /// A handle with no active watch.
    pub fn new() -> (r: WatchHandle<H>)
        ensures
            r@.is_none(),
    {
        WatchHandle { slot: None }
    }

    /// Whether a watch is active.
    pub fn is_active(&self) -> (r: bool)
        ensures
            r == self@.is_some(),
    {
        self.slot.is_some()
    }

    /// Makes `h` the active watch and hands back the one it replaces.
    pub fn install(&mut self, h: H) -> (r: Option<H>)
        ensures
            r == old(self)@,
            final(self)@ == Some(h),
    {
        let prev = self.slot.take();
        self.slot = Some(h);
        prev
    }

    /// Takes the active watch out, leaving none.
    pub fn take(&mut self) -> (r: Option<H>)
        ensures
            r == old(self)@,
            final(self)@.is_none(),
    {
        self.slot.take()
    }
}

} // verus!
