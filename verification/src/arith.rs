use vstd::prelude::*;

verus! {

/// Addition that sticks at the largest representable value instead of
/// wrapping; used for deadlines, counters and delivery counts.
pub open spec fn sat_add(a: u64, b: u64) -> u64 {
    if a + b > u64::MAX {
        u64::MAX
    } else {
        (a + b) as u64
    }
}

/// One step up on a gauge level, sticking at the top of the range.
pub open spec fn sat_inc_i64(v: i64) -> i64 {
    if v < i64::MAX {
        (v + 1) as i64
    } else {
        v
    }
}

/// One step down on a gauge level, sticking at the bottom of the range.
pub open spec fn sat_dec_i64(v: i64) -> i64 {
    if v > i64::MIN {
        (v - 1) as i64
    } else {
        v
    }
}

} // verus!
