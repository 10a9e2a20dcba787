//! The figures of a benchmark run, from the times that its frames took.

use vstd::prelude::*;

verus! {

/// Number of frames to render in benchmark
pub const BENCHMARK_FRAMES: usize = 100;

/// The times of the frames of a run, summed up. All times are in one unit,
/// nanoseconds say.
#[derive(Debug, Clone, Copy, PartialEq, Eq, Structural)]
pub struct FrameStats {
    /// The sum of the frame times.
    pub total: u128,
    /// The sum divided by the number of frames, floored.
    pub average: u128,
    /// The shortest frame time.
    pub min: u64,
    /// The longest frame time.
    pub max: u64,
}

/// The sum of the times.
pub open spec fn sum_of(times: Seq<u64>) -> int
    decreases times.len(),
{
    if times.len() == 0 {
        0
    } else {
        sum_of(times.drop_last()) + times.last()
    }
}

/// `value` is one of the times, and none is shorter.
pub open spec fn is_shortest(times: Seq<u64>, value: u64) -> bool {
    &&& exists|i: int| 0 <= i < times.len() && times[i] == value
    &&& forall|i: int| 0 <= i < times.len() ==> value <= times[i]
}

/// `value` is one of the times, and none is longer.
pub open spec fn is_longest(times: Seq<u64>, value: u64) -> bool {
    &&& exists|i: int| 0 <= i < times.len() && times[i] == value
    &&& forall|i: int| 0 <= i < times.len() ==> value >= times[i]
}

/// A sum of `n` times is below `n` times the largest value of a time.
proof fn sum_bounded(times: Seq<u64>)
    ensures
        0 <= sum_of(times) <= times.len() * 0xffff_ffff_ffff_ffff,
    decreases times.len(),
{
    if times.len() > 0 {
        sum_bounded(times.drop_last());
        assert((times.len() - 1) * 0xffff_ffff_ffff_ffff + 0xffff_ffff_ffff_ffff == times.len()
            * 0xffff_ffff_ffff_ffff) by (nonlinear_arith);
    }
}

/// Calculate statistics: the sum of the frame times, their average, the
/// shortest and the longest.
pub fn frame_statistics(frame_times: &[u64]) -> (stats: FrameStats)
    requires
        frame_times@.len() > 0,
    ensures
        stats.total == sum_of(frame_times@),
        stats.average == sum_of(frame_times@) / (frame_times@.len() as int),
        is_shortest(frame_times@, stats.min),
        is_longest(frame_times@, stats.max),
{
    let n: usize = frame_times.len();
    let mut total: u128 = 0;
    let mut min: u64 = frame_times[0];
    let mut max: u64 = frame_times[0];
    let ghost mut shortest: int = 0;
    let ghost mut longest: int = 0;
    let mut i: usize = 0;
    while i < n
        invariant
            i <= n,
            n == frame_times@.len(),
            n > 0,
            total == sum_of(frame_times@.take(i as int)),
            0 <= shortest < n,
            0 <= longest < n,
            frame_times@[shortest] == min,
            frame_times@[longest] == max,
            forall|k: int| 0 <= k < i ==> min <= frame_times@[k],
            forall|k: int| 0 <= k < i ==> max >= frame_times@[k],
        decreases n - i,
    {
        let time: u64 = frame_times[i];
        proof {
            let upto: Seq<u64> = frame_times@.take(i + 1);
            assert(upto.drop_last() =~= frame_times@.take(i as int));
            assert(upto.last() == time);
            sum_bounded(upto);
            assert(upto.len() * 0xffff_ffff_ffff_ffff <= 0xffff_ffff_ffff_ffff
                * 0xffff_ffff_ffff_ffff) by (nonlinear_arith)
                requires
                    upto.len() <= 0xffff_ffff_ffff_ffff,
            ;
        }
        total = total + time as u128;
        if time < min {
            min = time;
            proof {
                shortest = i as int;
            }
        }
        if time > max {
            max = time;
            proof {
                longest = i as int;
            }
        }
        i += 1;
    }
    proof {
        assert(frame_times@.take(n as int) =~= frame_times@);
    }
    FrameStats { total, average: total / (n as u128), min, max }
}

} // verus!
