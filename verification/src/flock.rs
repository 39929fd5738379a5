//! The lock that brackets a run: a guard within the process, and a lock
//! file that keeps other processes out of the working directory.
//!
//! This module decides; the caller acts. It takes the guard of the process,
//! calls `Lock::acquire`, and then, as long as `Lock::pending` names an
//! attempt, makes that attempt on the file system and hands the result to
//! `Lock::advance`. A lock file that is held is kept fresh by a heartbeat,
//! whose steps `Heartbeat` decides. `Lock::release` names, in order, what
//! the caller undoes.

use vstd::prelude::*;

verus! {

/// The age, in nanoseconds, beyond which a lock file counts as abandoned;
/// also how far its time may lie in the future before it counts as such.
pub const STALE_AFTER_NANOS: i128 = 1_500_000_000;

/// How long, in milliseconds, an acquirer waits before it tries again, and
/// how long the heartbeat sleeps between two beats.
pub const POLL_MILLIS: u64 = 500;

/// The lock within the process.
#[derive(Copy, Clone, Debug, PartialEq, Eq, Structural)]
pub enum Guard {
    NotLocked,
    Locked,
}

/// What the caller tries next on the lock file.
#[derive(Copy, Clone, Debug, PartialEq, Eq, Structural)]
pub enum Attempt {
    /// Create the lock file, failing if it exists.
    Create,
    /// Read the lock file's time of modification, and the clock.
    Probe,
    /// Create the lock file anew over the one that is there.
    Steal,
    /// Sleep for `POLL_MILLIS`.
    Sleep,
}

/// The lock file's layer of the lock.
#[derive(Copy, Clone, Debug, PartialEq, Eq, Structural)]
pub enum FileLock {
    /// Not held: not yet, no longer, or given up for this run.
    NotLocked,
    /// Being acquired; the attempt is the next thing to do.
    Pending(Attempt),
    /// Held: the lock file is this run's own.
    Locked,
}

/// What an attempt on the lock file gave. Times are in nanoseconds since
/// the epoch of the system's clock.
#[derive(Copy, Clone, Debug, PartialEq, Eq, Structural)]
pub enum Event {
    /// The lock file was created.
    Created,
    /// The lock file was not created because it exists.
    AlreadyExists,
    /// The lock file was not created, for another reason.
    CreateFailed,
    /// The lock file was last modified at `modified`, and it is `now`.
    Found { modified: i128, now: i128 },
    /// The lock file is gone.
    Vanished,
    /// The lock file's time of modification could not be read.
    ProbeFailed,
    /// The lock file was created anew.
    Recreated,
    /// The lock file could not be created anew.
    RecreateFailed,
    /// The sleep is over.
    Slept,
}

/// Whether a lock file counts as abandoned: it was last modified longer
/// ago than the staleness window, or further in the future than that.
pub open spec fn stale(modified: int, now: int) -> bool {
    modified < now - STALE_AFTER_NANOS || now + STALE_AFTER_NANOS < modified
}

/// Whether a lock file with the given time of modification counts as
/// abandoned at the time `now`.
pub fn is_stale(modified: i128, now: i128) -> (r: bool)
    ensures
        r == stale(modified as int, now as int),
{
    let older = match now.checked_sub(STALE_AFTER_NANOS) {
        Some(limit) => modified < limit,
        None => false,
    };
    let newer = match now.checked_add(STALE_AFTER_NANOS) {
        Some(limit) => limit < modified,
        None => false,
    };
    older || newer
}

impl FileLock {
    /// The state after an event.
    ///
    /// A created file is held. A file that exists is probed; one that has
    /// vanished meanwhile is tried again at once, an abandoned one is
    /// stolen, and a fresh one is waited for and then tried again. Any
    /// other failure, and any event that does not answer the pending
    /// attempt, gives the lock file up for this run. Once the lock is held
    /// or given up, events change nothing.
    pub open spec fn next(self, event: Event) -> FileLock {
        match self {
            FileLock::Pending(Attempt::Create) => match event {
                Event::Created => FileLock::Locked,
                Event::AlreadyExists => FileLock::Pending(Attempt::Probe),
                _ => FileLock::NotLocked,
            },
            FileLock::Pending(Attempt::Probe) => match event {
                Event::Vanished => FileLock::Pending(Attempt::Create),
                Event::Found { modified, now } => if stale(modified as int, now as int) {
                    FileLock::Pending(Attempt::Steal)
                } else {
                    FileLock::Pending(Attempt::Sleep)
                },
                _ => FileLock::NotLocked,
            },
            FileLock::Pending(Attempt::Steal) => match event {
                Event::Recreated => FileLock::Locked,
                _ => FileLock::NotLocked,
            },
            FileLock::Pending(Attempt::Sleep) => match event {
                Event::Slept => FileLock::Pending(Attempt::Create),
                _ => FileLock::NotLocked,
            },
            FileLock::Locked => FileLock::Locked,
            FileLock::NotLocked => FileLock::NotLocked,
        }
    }

    /// The state after each of the events in turn.
    pub open spec fn after(self, events: Seq<Event>) -> FileLock
        decreases events.len(),
    {
        if events.len() == 0 {
            self
        } else {
            self.after(events.drop_last()).next(events.last())
        }
    }

    /// The state after an event.
    pub fn step(self, event: Event) -> (r: FileLock)
        ensures
            r == self.next(event),
    {
        match self {
            FileLock::Pending(Attempt::Create) => match event {
                Event::Created => FileLock::Locked,
                Event::AlreadyExists => FileLock::Pending(Attempt::Probe),
                _ => FileLock::NotLocked,
            },
            FileLock::Pending(Attempt::Probe) => match event {
                Event::Vanished => FileLock::Pending(Attempt::Create),
                Event::Found { modified, now } => {
                    if is_stale(modified, now) {
                        FileLock::Pending(Attempt::Steal)
                    } else {
                        FileLock::Pending(Attempt::Sleep)
                    }
                },
                _ => FileLock::NotLocked,
            },
            FileLock::Pending(Attempt::Steal) => match event {
                Event::Recreated => FileLock::Locked,
                _ => FileLock::NotLocked,
            },
            FileLock::Pending(Attempt::Sleep) => match event {
                Event::Slept => FileLock::Pending(Attempt::Create),
                _ => FileLock::NotLocked,
            },
            FileLock::Locked => FileLock::Locked,
            FileLock::NotLocked => FileLock::NotLocked,
        }
    }
}

/// What the caller undoes at a release.
#[derive(Copy, Clone, Debug, PartialEq, Eq, Structural)]
pub enum Release {
    /// Tell the heartbeat to stop.
    StopHeartbeat,
    /// Remove the lock file; a failure to do so is ignored.
    RemoveFile,
    /// Give the guard of the process back.
    Unlock,
}

/// The lock of one run.
#[derive(Debug)]
pub struct Lock {
    /// Where the lock file lies.
    pub path: String,
    /// The lock within the process.
    pub intraprocess_guard: Guard,
    /// The lock file's layer.
    pub lockfile: FileLock,
}

impl Lock {
    /// Begins to acquire the lock at `path`. The guard of the process is
    /// held; the lock file is still to be created.
    pub fn acquire(path: String) -> (r: Self)
        ensures
            r.path == path,
            r.intraprocess_guard == Guard::Locked,
            r.lockfile == FileLock::Pending(Attempt::Create),
    {
        Lock {
            path,
            intraprocess_guard: Guard::Locked,
            lockfile: FileLock::Pending(Attempt::Create),
        }
    }

    /// What is to be tried next on the lock file, or `None` once the
    /// acquisition has ended: with the lock file held, or given up.
    pub fn pending(&self) -> (r: Option<Attempt>)
        ensures
            r == match self.lockfile {
                FileLock::Pending(attempt) => Some(attempt),
                _ => None::<Attempt>,
            },
    {
        match self.lockfile {
            FileLock::Pending(attempt) => Some(attempt),
            _ => None,
        }
    }

    /// Whether the lock file is held, so that a heartbeat is owed.
    pub fn holds_file(&self) -> (r: bool)
        ensures
            r == (self.lockfile is Locked),
    {
        match self.lockfile {
            FileLock::Locked => true,
            _ => false,
        }
    }

    /// Takes in what the pending attempt gave.
    pub fn advance(&mut self, event: Event)
        ensures
            final(self).lockfile == old(self).lockfile.next(event),
            final(self).intraprocess_guard == old(self).intraprocess_guard,
            final(self).path == old(self).path,
    {
        self.lockfile = self.lockfile.step(event);
    }

    /// What a release of the lock in the given state undoes, in order: the
    /// lock file's layer first, if it is held, then the guard of the
    /// process, if it is held.
    pub open spec fn release_steps(guard: Guard, lockfile: FileLock) -> Seq<Release> {
        let file = if lockfile is Locked {
            seq![Release::StopHeartbeat, Release::RemoveFile]
        } else {
            Seq::<Release>::empty()
        };
        let process = if guard is Locked {
            seq![Release::Unlock]
        } else {
            Seq::<Release>::empty()
        };
        file + process
    }

    /// Releases both layers, and says what the caller undoes, in order.
    /// Nothing is held afterwards, so a second release undoes nothing.
    pub fn release(&mut self) -> (r: Vec<Release>)
        ensures
            r@ == Lock::release_steps(old(self).intraprocess_guard, old(self).lockfile),
            final(self).lockfile == FileLock::NotLocked,
            final(self).intraprocess_guard == Guard::NotLocked,
            final(self).path == old(self).path,
    {
        let mut steps: Vec<Release> = Vec::new();
        if let FileLock::Locked = self.lockfile {
            steps.push(Release::StopHeartbeat);
            steps.push(Release::RemoveFile);
        }
        self.lockfile = FileLock::NotLocked;
        if let Guard::Locked = self.intraprocess_guard {
            steps.push(Release::Unlock);
        }
        self.intraprocess_guard = Guard::NotLocked;
        assert(steps@ =~= Lock::release_steps(old(self).intraprocess_guard, old(self).lockfile));
        steps
    }
}

/// What the heartbeat does next.
#[derive(Copy, Clone, Debug, PartialEq, Eq, Structural)]
pub enum Heartbeat {
    /// Sleep for `POLL_MILLIS`, then call `after_sleep`.
    Sleep,
    /// Truncate the lock file, which renews its time of modification, then
    /// call `after_truncate`.
    Truncate,
    /// End.
    Stop,
}

impl Heartbeat {
    /// The first step of a heartbeat.
    pub fn start() -> (r: Heartbeat)
        ensures
            r == Heartbeat::Sleep,
    {
        Heartbeat::Sleep
    }

    /// The step after a sleep: the heartbeat ends if the lock was released
    /// meanwhile, else it renews the lock file.
    pub fn after_sleep(done: bool) -> (r: Heartbeat)
        ensures
            r == if done {
                Heartbeat::Stop
            } else {
                Heartbeat::Truncate
            },
    {
        if done {
            Heartbeat::Stop
        } else {
            Heartbeat::Truncate
        }
    }

    /// The step after the lock file was truncated: the heartbeat ends if
    /// that failed, else it sleeps again.
    pub fn after_truncate(succeeded: bool) -> (r: Heartbeat)
        ensures
            r == if succeeded {
                Heartbeat::Sleep
            } else {
                Heartbeat::Stop
            },
    {
        if succeeded {
            Heartbeat::Sleep
        } else {
            Heartbeat::Stop
        }
    }
}

/// A lock file that was abandoned is taken in one round: an acquirer that
/// finds the file there, and finds it stale, holds the lock as soon as it
/// has created the file anew, without a sleep on the way.
pub proof fn lemma_stale_lock_is_taken(modified: i128, now: i128)
    requires
        stale(modified as int, now as int),
    ensures
        FileLock::Pending(Attempt::Create).after(
            seq![Event::AlreadyExists, Event::Found { modified, now }, Event::Recreated],
        ) == FileLock::Locked,
{
    let events = seq![Event::AlreadyExists, Event::Found { modified, now }, Event::Recreated];
    let start = FileLock::Pending(Attempt::Create);
    let two = events.drop_last();
    let one = two.drop_last();
    assert(one.drop_last().len() == 0);
    assert(start.after(one.drop_last()) == start);
    assert(one.last() == Event::AlreadyExists);
    assert(start.after(one) == FileLock::Pending(Attempt::Probe));
    assert(two.last() == Event::Found { modified, now });
    assert(start.after(two) == FileLock::Pending(Attempt::Steal));
    assert(events.last() == Event::Recreated);
}

/// A lock file that is fresh is never taken: an acquirer that finds it
/// there sleeps and then tries to create the file again.
pub proof fn lemma_fresh_lock_is_respected(modified: i128, now: i128)
    requires
        !stale(modified as int, now as int),
    ensures
        FileLock::Pending(Attempt::Probe).next(Event::Found { modified, now }) == FileLock::Pending(
            Attempt::Sleep,
        ),
        FileLock::Pending(Attempt::Sleep).next(Event::Slept) == FileLock::Pending(Attempt::Create),
{
}

/// What an acquirer can be told while another holds the lock file and
/// keeps it fresh: that the file exists, that it was modified within the
/// staleness window, and that a sleep is over.
pub open spec fn told_of_live_holder(event: Event) -> bool {
    match event {
        Event::AlreadyExists => true,
        Event::Found { modified, now } => !stale(modified as int, now as int),
        Event::Slept => true,
        _ => false,
    }
}

/// As long as another holds the lock file and keeps it fresh, an acquirer
/// does not come to hold it, however long it tries.
pub proof fn lemma_live_lock_excludes(events: Seq<Event>)
    requires
        forall|i: int| 0 <= i < events.len() ==> told_of_live_holder(#[trigger] events[i]),
    ensures
        !(FileLock::Pending(Attempt::Create).after(events) is Locked),
    decreases events.len(),
{
    if events.len() > 0 {
        let before = events.drop_last();
        assert forall|i: int| 0 <= i < before.len() implies told_of_live_holder(
            #[trigger] before[i],
        ) by {
            assert(before[i] == events[i]);
        }
        lemma_live_lock_excludes(before);
        assert(told_of_live_holder(events[events.len() - 1]));
    }
}

/// The lock file comes to be held in two ways only: it was created where
/// none was, or it was created anew over one that was found abandoned.
pub proof fn lemma_held_only_by_creation(state: FileLock, event: Event)
    requires
        state.next(event) is Locked,
        !(state is Locked),
    ensures
        (state == FileLock::Pending(Attempt::Create) && event is Created) || (state
            == FileLock::Pending(Attempt::Steal) && event is Recreated),
{
}

} // verus!
