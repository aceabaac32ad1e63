//! The best time in which each level has been completed.

use vstd::prelude::*;
use std::collections::HashMap;
use std::time::Duration;
use crate::time::{duration_nanos, is_longer, is_longest, longest_duration};

verus! {

pub struct BestCompletionTimes {
    pub times: HashMap<u32, Duration>,
}

impl BestCompletionTimes {
    /// The table to work with, given what was found stored: the stored
    /// table, or an empty one if none could be read. The flag says that the
    /// table is new and has yet to be written down.
    pub fn load(stored: Option<BestCompletionTimes>) -> (loaded: (BestCompletionTimes, bool))
        ensures
            match stored {
                Some(table) => loaded.0 == table && !loaded.1,
                None => loaded.0.times@ == Map::<u32, Duration>::empty() && loaded.1,
            },
    {
        match stored {
            Some(table) => (table, false),
            None => (BestCompletionTimes { times: HashMap::new() }, true),
        }
    }
}

/// The best time on record for `level`, or the longest duration there is if
/// the level has never been completed.
pub fn load_best_for_level(file: &BestCompletionTimes, level: u32) -> (best: Duration)
    ensures
        file.times@.contains_key(level) ==> best == file.times@[level],
        !file.times@.contains_key(level) ==> is_longest(best),
{
    match file.times.get(&level) {
        Some(best) => *best,
        None => longest_duration(),
    }
}

/// The times once `level` has been completed in `time`: the record for the
/// level is `time` if there was none or a longer one, and stays if it was as
/// short or shorter. The records of other levels stay.
pub open spec fn recorded(
    times: Map<u32, Duration>,
    level: u32,
    time: Duration,
) -> Map<u32, Duration> {
    if times.contains_key(level) && duration_nanos(times[level]) <= duration_nanos(time) {
        times
    } else {
        times.insert(level, time)
    }
}

/// Puts a completion of `level` in `time` on record, if it is the best so
/// far.
pub fn save_best_for_level(file: &mut BestCompletionTimes, level: u32, time: &Duration)
    ensures
        final(file).times@ == recorded(old(file).times@, level, *time),
{
    let beaten = match file.times.get(&level) {
        Some(best) => is_longer(best, time),
        None => true,
    };
    if beaten {
        file.times.insert(level, *time);
    }
}

} // verus!
