//! The jail's choice of file: one of the files in the jail directory, changed at random once
//! it has been shown for longer than the rotation period.
use vstd::prelude::*;

use std::path::PathBuf;
use std::time::{Duration, Instant};

use crate::random::{random_below, thread_rng};

verus! {

/// `std::path::PathBuf`, the path of a jail file; carried through, never looked into.
#[verifier::external_type_specification]
#[verifier::external_body]
pub struct ExPathBuf(PathBuf);

/// `std::time::Instant`, a reading of the monotonic clock; opaque here.
#[verifier::external_type_specification]
#[verifier::external_body]
pub struct ExInstant(Instant);

/// How long one jail file is kept before another is picked: 30 seconds, in nanoseconds.
pub const ROTATION_NANOS: u128 = 30_000_000_000;

/// One more than the largest number of nanoseconds that a `Duration` holds: its whole seconds
/// are a `u64` and its fraction is below one second.
pub const DURATION_NANOS_BOUND: u128 = 18_446_744_073_709_551_616_000_000_000;

/// `Instant::now`: the current reading of the monotonic clock. Nothing is stated of it.
#[verifier::external_body]
fn instant_now() -> Instant {
    Instant::now()
}

/// `Instant::elapsed`: the time since `origin`. It depends on the clock; nothing is stated.
#[verifier::external_body]
fn elapsed_since(origin: &Instant) -> Duration {
    origin.elapsed()
}

/// `Duration::as_nanos`: the whole duration in nanoseconds, which is below
/// `DURATION_NANOS_BOUND` for every `Duration`. Which value it is, the opaque `Duration` does
/// not let this contract say.
#[verifier::external_body]
fn duration_nanos(d: &Duration) -> (n: u128)
    ensures
        n < DURATION_NANOS_BOUND,
{
    d.as_nanos()
}

/// The state of the jail: the files it can show, the one it shows now, and when that one was
/// picked, in nanoseconds since `origin`; `last_reading` keeps, for proofs, the clock reading
/// that the jail was last asked at.
pub struct AppState {
    origin: Instant,
    last_change: u128,
    cur_file: usize,
    filenames: Vec<PathBuf>,
    last_reading: Ghost<nat>,
}

/// Whether a file picked at `last_change` is due to be replaced at `now`.
pub open spec fn rotation_due(last_change: int, now: int) -> bool {
    last_change + ROTATION_NANOS < now
}

/// The position of the current file and the time of the last change after the jail is asked
/// for a file at `now`, with `pick` drawn in case a change is due.
pub open spec fn rotated(current: nat, last_change: nat, now: nat, pick: nat) -> (nat, nat) {
    if rotation_due(last_change as int, now as int) {
        (pick, now)
    } else {
        (current, last_change)
    }
}

/// The position and time of last change after a run of requests, each a time and a pick.
pub open spec fn rotated_by(current: nat, last_change: nat, asks: Seq<(nat, nat)>) -> (nat, nat)
    decreases asks.len(),
{
    if asks.len() == 0 {
        (current, last_change)
    } else {
        let (c, l) = rotated_by(current, last_change, asks.drop_last());
        rotated(c, l, asks.last().0, asks.last().1)
    }
}

/// A file once picked is shown for the whole rotation period: every run of requests made
/// no later than the rotation period after the last change leaves the current file, and the
/// time of the change, as they are.
pub proof fn lemma_file_kept_within_period(current: nat, last_change: nat, asks: Seq<(nat, nat)>)
    requires
        forall|i: int| 0 <= i < asks.len() ==> #[trigger] asks[i].0 <= last_change + ROTATION_NANOS,
    ensures
        rotated_by(current, last_change, asks) == (current, last_change),
    decreases asks.len(),
{
    if asks.len() > 0 {
        let rest = asks.drop_last();
        assert forall|i: int| 0 <= i < rest.len() implies #[trigger] rest[i].0 <= last_change
            + ROTATION_NANOS by {
            assert(rest[i] == asks[i]);
        }
        lemma_file_kept_within_period(current, last_change, rest);
        assert(asks[asks.len() - 1].0 <= last_change + ROTATION_NANOS);
    }
}

/// The rotation rule, over all times: asked more than the rotation period after the last
/// change, the jail always takes the drawn position and makes `now` the time of the last
/// change; asked no later than that, it keeps both as they are.
pub proof fn lemma_rotation_rule(current: nat, last_change: nat, now: nat, pick: nat)
    ensures
        now > last_change + 30_000_000_000 ==> rotated(current, last_change, now, pick) == (
            pick,
            now,
        ),
        now <= last_change + 30_000_000_000 ==> rotated(current, last_change, now, pick) == (
            current,
            last_change,
        ),
{
}

/// Changes are spaced: a request that changes the file comes more than the rotation period
/// after the last change, and becomes the new time of the last change.
pub proof fn lemma_changes_are_spaced(current: nat, last_change: nat, now: nat, pick: nat)
    ensures
        rotated(current, last_change, now, pick) != (current, last_change) ==> {
            &&& now > last_change + ROTATION_NANOS
            &&& rotated(current, last_change, now, pick) == (pick, now)
        },
{
}

impl AppState {
    #[verifier::type_invariant]
    spec fn inv(self) -> bool {
        &&& self.filenames@.len() > 0 ==> self.cur_file < self.filenames@.len()
        &&& self.last_change < DURATION_NANOS_BOUND
    }

    /// The files the jail can show.
    pub closed spec fn files(self) -> Seq<PathBuf> {
        self.filenames@
    }

    /// The position of the file the jail shows now.
    pub closed spec fn current(self) -> nat {
        self.cur_file as nat
    }

    /// When the current file was picked, in nanoseconds since the state was made.
    pub closed spec fn last_change(self) -> nat {
        self.last_change as nat
    }

    /// The clock reading, in nanoseconds since the state was made, at which the jail was last
    /// asked for a file (0 before the first time).
    pub closed spec fn last_reading(self) -> nat {
        self.last_reading@
    }

    /// A state over `filenames` whose clock starts now, showing the file at `start`.
    pub fn with_start(filenames: Vec<PathBuf>, start: usize) -> (s: AppState)
        requires
            filenames@.len() > 0 ==> start < filenames@.len(),
        ensures
            s.files() == filenames@,
            s.current() == start,
            s.last_change() == 0,
            s.last_reading() == 0,
    {
        AppState {
            origin: instant_now(),
            last_change: 0,
            cur_file: start,
            filenames,
            last_reading: Ghost(0),
        }
    }

    /// A state over `filenames` whose clock starts now, showing a file picked at random (or
    /// position 0 when there are no files).
    pub fn new(filenames: Vec<PathBuf>) -> (s: AppState)
        ensures
            s.files() == filenames@,
            s.last_change() == 0,
            s.last_reading() == 0,
            filenames@.len() == 0 ==> s.current() == 0,
            filenames@.len() > 0 ==> s.current() < filenames@.len(),
    {
        let len = filenames.len();
        let start = if len == 0 {
            0
        } else {
            let mut rng = thread_rng();
            random_below(&mut rng, len)
        };
        AppState::with_start(filenames, start)
    }

    /// The jail file at time `now` (nanoseconds since the state was made), where `pick` is
    /// the position drawn at random in case a new file is due: `None` when there are no
    /// files; otherwise the file picked last, or the file at `pick` when the current one has
    /// been shown for longer than the rotation period, in which case `now` becomes the time
    /// of the last change.
    pub fn jail_file_at(&mut self, now: u128, pick: usize) -> (r: Option<&PathBuf>)
        requires
            now < DURATION_NANOS_BOUND,
            old(self).files().len() > 0 ==> pick < old(self).files().len(),
        ensures
            final(self).files() == old(self).files(),
            old(self).files().len() == 0 ==> r is None && *final(self) == *old(self),
            old(self).files().len() > 0 ==> {
                &&& (final(self).current(), final(self).last_change()) == rotated(
                    old(self).current(),
                    old(self).last_change(),
                    now as nat,
                    pick as nat,
                )
                &&& final(self).last_reading() == now
                &&& r == Some(&final(self).files()[final(self).current() as int])
                &&& final(self).current() < final(self).files().len()
            },
    {
        proof {
            use_type_invariant(&*self);
        }
        let len = self.filenames.len();
        if len == 0 {
            return None;
        }
        if self.last_change + ROTATION_NANOS < now {
            self.last_change = now;
            self.cur_file = pick;
        }
        self.last_reading = Ghost(now as nat);
        proof {
            use_type_invariant(&*self);
        }
        self.filenames.get(self.cur_file)
    }

    /// The file the jail shows now: `None` exactly when there are no files, and then nothing
    /// changes. Otherwise the monotonic clock is read (the reading is kept as
    /// `last_reading`), and when the current file has been shown for longer than the rotation
    /// period at that reading, a new one is picked at random first; within the period the
    /// file and the time of the last change stay as they are.
    pub fn get_jail_file(&mut self) -> (r: Option<&PathBuf>)
        ensures
            final(self).files() == old(self).files(),
            r is None <==> old(self).files().len() == 0,
            old(self).files().len() == 0 ==> *final(self) == *old(self),
            old(self).files().len() > 0 ==> {
                &&& r == Some(&final(self).files()[final(self).current() as int])
                &&& final(self).current() < final(self).files().len()
                &&& (final(self).current(), final(self).last_change()) == rotated(
                    old(self).current(),
                    old(self).last_change(),
                    final(self).last_reading(),
                    final(self).current(),
                )
                &&& final(self).last_reading() <= old(self).last_change() + ROTATION_NANOS
                    ==> final(self).current() == old(self).current() && final(self).last_change()
                    == old(self).last_change()
            },
    {
        proof {
            use_type_invariant(&*self);
        }
        let len = self.filenames.len();
        if len == 0 {
            return None;
        }
        let elapsed = elapsed_since(&self.origin);
        let now = duration_nanos(&elapsed);
        let pick = if self.last_change + ROTATION_NANOS < now {
            let mut rng = thread_rng();
            random_below(&mut rng, len)
        } else {
            self.cur_file
        };
        self.jail_file_at(now, pick)
    }
}

} // verus!
