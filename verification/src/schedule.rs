//! When a system is due: the modes by which systems are scheduled, decided
//! on the times at which the systems ran last.

use vstd::prelude::*;

verus! {

/// A point in time, in microseconds since the epoch.
pub type Timestamp = i64;

/// The models of a list of last runs: each system's name with the time at
/// which it ran last.
pub open spec fn run_views(last_runs: Seq<(String, Timestamp)>) -> Seq<(Seq<char>, Timestamp)> {
    Seq::new(last_runs.len(), |i: int| (last_runs[i].0@, last_runs[i].1))
}

/// The time at which the system `system` ran last: that of the first entry
/// under its name, and `None` where it never ran.
pub open spec fn last_run_of(last_runs: Seq<(Seq<char>, Timestamp)>, system: Seq<char>) -> Option<
    Timestamp,
>
    decreases last_runs.len(),
{
    if last_runs.len() == 0 {
        None
    } else if last_runs.first().0 == system {
        Some(last_runs.first().1)
    } else {
        last_run_of(last_runs.drop_first(), system)
    }
}

/// The time at which the system `system` ran last.
pub fn last_run(last_runs: &Vec<(String, Timestamp)>, system: &str) -> (time: Option<Timestamp>)
    ensures
        time == last_run_of(run_views(last_runs@), system@),
{
    let ghost runs = run_views(last_runs@);
    let name = system.to_owned();
    let mut i: usize = 0;
    assert(runs.skip(0) =~= runs);
    while i < last_runs.len()
        invariant
            0 <= i <= last_runs@.len(),
            name@ == system@,
            runs == run_views(last_runs@),
            last_run_of(runs, system@) == last_run_of(runs.skip(i as int), system@),
        decreases last_runs@.len() - i,
    {
        proof {
            assert(runs.skip(i as int).first() == runs[i as int]);
            assert(runs.skip(i as int).drop_first() =~= runs.skip(i + 1));
        }
        if last_runs[i].0 == name {
            return Some(last_runs[i].1);
        }
        i += 1;
    }
    None
}

/// A mode of scheduling: decides from the last runs whether a system is due.
pub trait SchedulingMode {
    /// Whether the system `system` is due at the time `now`.
    ///
    /// An implementation that leaves this as it is says no more than that
    /// `should_run` is a function of its arguments.
    open spec fn due(
        &self,
        last_runs: Seq<(Seq<char>, Timestamp)>,
        system: Seq<char>,
        now: Timestamp,
    ) -> bool {
        arbitrary()
    }

    fn should_run(
        &self,
        last_runs: &Vec<(String, Timestamp)>,
        system: &str,
        now: Timestamp,
    ) -> (run: bool)
        ensures
            run == self.due(run_views(last_runs@), system@, now),
    ;
}

/// Never due: the system runs only when it is asked for.
#[derive(Debug)]
pub struct Manually;

impl SchedulingMode for Manually {
    open spec fn due(
        &self,
        last_runs: Seq<(Seq<char>, Timestamp)>,
        system: Seq<char>,
        now: Timestamp,
    ) -> bool {
        false
    }

    fn should_run(
        &self,
        last_runs: &Vec<(String, Timestamp)>,
        system: &str,
        now: Timestamp,
    ) -> (run: bool) {
        false
    }
}

/// Always due.
#[derive(Debug)]
pub struct Always;

impl SchedulingMode for Always {
    open spec fn due(
        &self,
        last_runs: Seq<(Seq<char>, Timestamp)>,
        system: Seq<char>,
        now: Timestamp,
    ) -> bool {
        true
    }

    fn should_run(
        &self,
        last_runs: &Vec<(String, Timestamp)>,
        system: &str,
        now: Timestamp,
    ) -> (run: bool) {
        true
    }
}

/// Due when more than the interval, in microseconds, has passed since the
/// system ran last, and when it never ran.
#[derive(Debug)]
pub struct Every(pub i64);

impl SchedulingMode for Every {
    open spec fn due(
        &self,
        last_runs: Seq<(Seq<char>, Timestamp)>,
        system: Seq<char>,
        now: Timestamp,
    ) -> bool {
        match last_run_of(last_runs, system) {
            Some(time) => now - time > self.0,
            None => true,
        }
    }

    fn should_run(
        &self,
        last_runs: &Vec<(String, Timestamp)>,
        system: &str,
        now: Timestamp,
    ) -> (run: bool) {
        match last_run(last_runs, system) {
            Some(time) => now as i128 - time as i128 > self.0 as i128,
            None => true,
        }
    }
}

/// Due until the system has run once.
#[derive(Debug)]
pub struct Once;

impl SchedulingMode for Once {
    open spec fn due(
        &self,
        last_runs: Seq<(Seq<char>, Timestamp)>,
        system: Seq<char>,
        now: Timestamp,
    ) -> bool {
        last_run_of(last_runs, system) is None
    }

    fn should_run(
        &self,
        last_runs: &Vec<(String, Timestamp)>,
        system: &str,
        now: Timestamp,
    ) -> (run: bool) {
        last_run(last_runs, system).is_none()
    }
}

/// Due after another system, named here, has run: when that one ran and this
/// one has not run since.
#[derive(Debug)]
pub struct After(pub String);

impl SchedulingMode for After {
    open spec fn due(
        &self,
        last_runs: Seq<(Seq<char>, Timestamp)>,
        system: Seq<char>,
        now: Timestamp,
    ) -> bool {
        match (last_run_of(last_runs, self.0@), last_run_of(last_runs, system)) {
            (None, _) => false,
            (Some(_), None) => true,
            (Some(before), Some(after)) => before > after,
        }
    }

    fn should_run(
        &self,
        last_runs: &Vec<(String, Timestamp)>,
        system: &str,
        now: Timestamp,
    ) -> (run: bool) {
        match (last_run(last_runs, self.0.as_str()), last_run(last_runs, system)) {
            (None, _) => false,
            (Some(_), None) => true,
            (Some(before), Some(after)) => before > after,
        }
    }
}

} // verus!
