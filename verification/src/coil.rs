//! The recent microphone levels that the overlay's coil is wound from.
use vstd::prelude::*;

use std::collections::VecDeque;

use crate::injector_runtime::between;
use crate::protocol::FloatBits;

verus! {

/// How many bins a profile has, the oldest first.
pub const PROFILE_BINS: usize = 40;

/// How far back a profile goes, in milliseconds.
pub const PROFILE_SPAN_MS: u64 = 2_000;

/// How long a bin lasts, in milliseconds.
pub const BIN_MS: u64 = 50;

/// How long a level is kept, in milliseconds.
pub const HISTORY_KEEP_MS: u64 = 2_500;

/// How many levels must be there before the quietest of them is the floor.
pub const FLOOR_MIN_SAMPLES: usize = 10;

/// The recent levels, the oldest first, each with its time.
#[derive(Debug)]
pub struct LevelHistory {
    samples: VecDeque<(u64, FloatBits)>,
}

/// Whether a number is neither infinite nor no number: its exponent is not all ones.
pub open spec fn is_finite(level: FloatBits) -> bool {
    level.bits / 0x80_0000 % 0x100 != 0xff
}

/// The levels without those at the front that are too old.
pub open spec fn still_recent(samples: Seq<(u64, FloatBits)>, now_ms: u64) -> Seq<(u64, FloatBits)>
    decreases samples.len(),
{
    if samples.len() > 0 && between(samples[0].0, now_ms) > HISTORY_KEEP_MS {
        still_recent(samples.skip(1), now_ms)
    } else {
        samples
    }
}

/// The bin of a profile that a level falls into, if it is in the profile's time.
pub open spec fn bin_of(at_ms: u64, now_ms: u64) -> Option<int> {
    let start = if now_ms >= PROFILE_SPAN_MS {
        now_ms - PROFILE_SPAN_MS
    } else {
        0
    };
    if start <= at_ms <= now_ms {
        let bin = (at_ms - start) / BIN_MS as int;
        Some(
            if bin < PROFILE_BINS {
                bin
            } else {
                PROFILE_BINS - 1
            },
        )
    } else {
        None
    }
}

impl LevelHistory {
    /// The levels, the oldest first.
    pub closed spec fn levels(self) -> Seq<(u64, FloatBits)> {
        self.samples@
    }

    /// No levels.
    pub fn new() -> (r: LevelHistory)
        ensures
            r.levels() == Seq::<(u64, FloatBits)>::empty(),
    {
        LevelHistory { samples: VecDeque::new() }
    }

    /// Adds a level, unless it is no finite number, and forgets what is too old.
    pub fn push(&mut self, now_ms: u64, level_db: FloatBits)
        ensures
            final(self).levels() == if is_finite(level_db) {
                still_recent(old(self).levels().push((now_ms, level_db)), now_ms)
            } else {
                old(self).levels()
            },
    {
        if level_db.bits / 0x80_0000 % 0x100 == 0xff {
            return;
        }
        self.samples.push_back((now_ms, level_db));
        let ghost all = self.samples@;
        while self.samples.len() > 0 && now_ms.saturating_sub(self.samples[0].0) > HISTORY_KEEP_MS
            invariant
                still_recent(all, now_ms) == still_recent(self.samples@, now_ms),
            ensures
                still_recent(all, now_ms) == self.samples@,
            decreases self.samples@.len(),
        {
            let ghost before = self.samples@;
            self.samples.pop_front();
            assert(self.samples@ =~= before.skip(1));
        }
    }

    /// Forgets all levels.
    pub fn clear(&mut self)
        ensures
            final(self).levels() == Seq::<(u64, FloatBits)>::empty(),
    {
        self.samples.clear();
    }

    /// How many levels there are.
    pub fn len(&self) -> (r: usize)
        ensures
            r == self.levels().len(),
    {
        self.samples.len()
    }

    /// A level, with its time.
    pub fn sample(&self, index: usize) -> (r: (u64, FloatBits))
        requires
            index < self.levels().len(),
        ensures
            r == self.levels()[index as int],
    {
        self.samples[index]
    }
}

/// The bin of a profile that a level falls into, if it is in the profile's time.
pub fn profile_bin(at_ms: u64, now_ms: u64) -> (r: Option<usize>)
    ensures
        match r {
            Some(bin) => bin_of(at_ms, now_ms) == Some(bin as int) && bin < PROFILE_BINS,
            None => bin_of(at_ms, now_ms) is None,
        },
{
    let start: u64 = now_ms.saturating_sub(PROFILE_SPAN_MS);
    if at_ms < start || at_ms > now_ms {
        return None;
    }
    let bin: u64 = (at_ms - start) / BIN_MS;
    if bin < PROFILE_BINS as u64 {
        Some(bin as usize)
    } else {
        Some(PROFILE_BINS - 1)
    }
}

/// Once a level was added, the oldest level kept is recent.
pub proof fn law_old_levels_are_forgotten(samples: Seq<(u64, FloatBits)>, now_ms: u64)
    ensures
        still_recent(samples, now_ms).len() > 0 ==> between(
            still_recent(samples, now_ms)[0].0,
            now_ms,
        ) <= HISTORY_KEEP_MS,
        still_recent(samples, now_ms).len() <= samples.len(),
    decreases samples.len(),
{
    if samples.len() > 0 && between(samples[0].0, now_ms) > HISTORY_KEEP_MS {
        law_old_levels_are_forgotten(samples.skip(1), now_ms);
    }
}

/// Later levels fall into the same bin or a later one.
pub proof fn law_bins_follow_time(a_ms: u64, b_ms: u64, now_ms: u64)
    requires
        a_ms <= b_ms,
        bin_of(a_ms, now_ms) is Some,
        bin_of(b_ms, now_ms) is Some,
    ensures
        bin_of(a_ms, now_ms)->0 <= bin_of(b_ms, now_ms)->0,
{
}

/// Levels are kept in their order: only old ones at the front are forgotten, and the last stays
/// where it is recent.
pub proof fn law_recent_levels_are_kept(samples: Seq<(u64, FloatBits)>, now_ms: u64)
    ensures
        ({
            let kept = still_recent(samples, now_ms);
            &&& kept.len() <= samples.len()
            &&& kept == samples.skip(samples.len() - kept.len())
            &&& forall|i: int|
                0 <= i < samples.len() - kept.len() ==> now_ms - (#[trigger] samples[i]).0 > 2500
            &&& kept.len() > 0 ==> now_ms - kept[0].0 <= 2500
        }),
    decreases samples.len(),
{
    if samples.len() > 0 && between(samples[0].0, now_ms) > HISTORY_KEEP_MS {
        let rest = samples.skip(1);
        law_recent_levels_are_kept(rest, now_ms);
        let kept = still_recent(samples, now_ms);
        assert(rest.skip(rest.len() - kept.len()) =~= samples.skip(samples.len() - kept.len()));
        assert forall|i: int| 0 <= i < samples.len() - kept.len() implies now_ms
            - (#[trigger] samples[i]).0 > 2500 by {
            if i > 0 {
                assert(samples[i] == rest[i - 1]);
            }
        }
    } else {
        assert(samples.skip(0) =~= samples);
    }
}

/// A profile is two seconds in forty bins: a level of the last two seconds falls into the bin of
/// its age, the newest into the last; older and later ones into none.
pub proof fn law_levels_fall_into_bins_by_age(at_ms: u64, now_ms: u64)
    requires
        now_ms >= 2000,
    ensures
        bin_of(at_ms, now_ms) is Some <==> now_ms - 2000 <= at_ms <= now_ms,
        now_ms - 2000 <= at_ms < now_ms ==> bin_of(at_ms, now_ms) == Some(
            (at_ms - (now_ms - 2000)) / 50,
        ),
        bin_of(now_ms, now_ms) == Some(39int),
{
}

} // verus!
