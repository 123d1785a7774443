//! Sender-side model of the device's receive buffer.
//!
//! The device reports its free buffer space only now and then. Between two
//! reports the sender subtracts what it sends and, knowing the rate at which
//! the device drains its buffer, extrapolates how much space has come free.

use vstd::prelude::*;

verus! {

/// Buffer size observed on typical devices.
pub const DEFAULT_SIZE: u16 = 6_000;

/// Watermark that balances stability against latency on a default-sized buffer.
pub const DEFAULT_THRESHOLD: u16 = 5_000;

/// The watermark for a buffer of `total` points: a thousand points of slack
/// below the capacity, or five sixths of it for a small buffer.
pub open spec fn threshold_for(total: u16) -> int {
    if total > 1000 {
        total - 1000
    } else {
        total / 6 * 5
    }
}

/// Points that a device playing `dac_rate` points per second drains in
/// `elapsed_ms` milliseconds.
pub open spec fn points_drained(elapsed_ms: int, dac_rate: int) -> int {
    elapsed_ms * dac_rate / 1000
}

/// What the sender believes about the device's receive buffer.
#[derive(Debug, Clone, Copy)]
pub struct BufferState {
    /// Total buffer size.
    pub total_size: u16,
    /// Free space as last reported, less what was sent since.
    pub free_space: u16,
    /// Least free space at which another batch may be sent.
    pub threshold: u16,
    /// Time of the last report, in milliseconds; zero before the first one.
    pub last_update_time: u64,
}

impl BufferState {
    /// Milliseconds between the last report and `current_time`; zero when
    /// the clock reads earlier than the report.
    pub open spec fn elapsed_ms(self, current_time: u64) -> int {
        if current_time > self.last_update_time {
            current_time - self.last_update_time
        } else {
            0
        }
    }

    /// Whether an estimate at rate `dac_rate` extrapolates at all: the rate
    /// must be known and a report must have been taken.
    pub open spec fn extrapolates(self, dac_rate: u32) -> bool {
        dac_rate != 0 && self.last_update_time != 0
    }

    /// The free space believed to be there at `current_time`.
    pub open spec fn spec_estimate(self, current_time: u64, dac_rate: u32) -> int {
        if self.extrapolates(dac_rate) {
            let refilled = self.free_space + points_drained(
                self.elapsed_ms(current_time),
                dac_rate as int,
            );
            if refilled < self.total_size {
                refilled
            } else {
                self.total_size as int
            }
        } else {
            self.free_space as int
        }
    }

    /// Create a new `BufferState` with default values.
    pub fn new() -> (state: BufferState)
        ensures
            state.total_size == DEFAULT_SIZE,
            state.free_space == DEFAULT_SIZE,
            state.threshold == DEFAULT_THRESHOLD,
            state.last_update_time == 0,
    {
        BufferState {
            total_size: DEFAULT_SIZE,
            free_space: DEFAULT_SIZE,
            threshold: DEFAULT_THRESHOLD,
            last_update_time: 0,
        }
    }

    /// Update buffer free space from device response.
    pub fn update_free_space(&mut self, free_space: u16, current_time: u64)
        ensures
            final(self).free_space == free_space,
            final(self).last_update_time == current_time,
            final(self).total_size == old(self).total_size,
            final(self).threshold == old(self).threshold,
    {
        self.free_space = free_space;
        self.last_update_time = current_time;
    }

    /// Update total buffer size from device response.
    pub fn update_total_size(&mut self, total_size: u16)
        ensures
            final(self).total_size == total_size,
            final(self).threshold == threshold_for(total_size),
            final(self).free_space == old(self).free_space,
            final(self).last_update_time == old(self).last_update_time,
    {
        self.total_size = total_size;
        if total_size > 1000 {
            self.threshold = total_size - 1000;
        } else {
            self.threshold = total_size / 6 * 5;
        }
    }

    /// Check if we should send more data based on buffer free space.
    pub fn should_send(&self) -> (send: bool)
        ensures
            send <==> self.free_space >= self.threshold,
    {
        self.free_space >= self.threshold
    }

    /// Estimate current free space based on time elapsed and DAC rate.
    pub fn estimate_current_free_space(&self, current_time: u64, dac_rate: u32) -> (estimate: u16)
        ensures
            estimate == self.spec_estimate(current_time, dac_rate),
    {
        if dac_rate == 0 || self.last_update_time == 0 {
            return self.free_space;
        }
        let delta_ms: u64 = if current_time > self.last_update_time {
            current_time - self.last_update_time
        } else {
            0
        };
        assert(delta_ms * dac_rate <= 0xffff_ffff_ffff_ffff * 0xffff_ffff) by (nonlinear_arith)
            requires
                0 <= delta_ms <= 0xffff_ffff_ffff_ffff,
                0 <= dac_rate <= 0xffff_ffff,
        ;
        let drained: u128 = (delta_ms as u128) * (dac_rate as u128) / 1000;
        let gained: u16 = if drained > 0xffff {
            0xffff
        } else {
            drained as u16
        };
        let refilled: u16 = self.free_space.saturating_add(gained);
        if refilled < self.total_size {
            refilled
        } else {
            self.total_size
        }
    }

    /// Update the buffer when points are sent.
    pub fn consume(&mut self, points_sent: u16)
        ensures
            final(self).free_space == if old(self).free_space >= points_sent {
                old(self).free_space - points_sent
            } else {
                0
            },
            final(self).total_size == old(self).total_size,
            final(self).threshold == old(self).threshold,
            final(self).last_update_time == old(self).last_update_time,
    {
        self.free_space = self.free_space.saturating_sub(points_sent);
    }
}

impl Default for BufferState {
    fn default() -> (state: BufferState)
        ensures
            state.total_size == DEFAULT_SIZE,
            state.free_space == DEFAULT_SIZE,
            state.threshold == DEFAULT_THRESHOLD,
            state.last_update_time == 0,
    {
        BufferState::new()
    }
}

/// The watermark never exceeds the capacity, and on a buffer of more than a
/// thousand points it leaves exactly a thousand points of slack.
pub proof fn lemma_threshold_within_capacity(total: u16)
    ensures
        0 <= threshold_for(total) <= total,
        total > 1000 ==> threshold_for(total) == total - 1000,
{
}

/// With an unknown rate, or before the first report, the estimate is the
/// recorded free space.
pub proof fn lemma_estimate_without_extrapolation(
    state: BufferState,
    current_time: u64,
    dac_rate: u32,
)
    requires
        dac_rate == 0 || state.last_update_time == 0,
    ensures
        state.spec_estimate(current_time, dac_rate) == state.free_space,
{
}

/// A clock that reads no later than the last report adds nothing: as long as
/// the recorded free space fits the buffer, the estimate is that free space.
pub proof fn lemma_estimate_clock_not_advanced(
    state: BufferState,
    current_time: u64,
    dac_rate: u32,
)
    requires
        current_time <= state.last_update_time,
        state.free_space <= state.total_size,
    ensures
        state.spec_estimate(current_time, dac_rate) == state.free_space,
{
    assert(0 * (dac_rate as int) == 0);
}

/// At a thousand points per second the device drains one point per
/// millisecond: what has elapsed is what has come free, up to the capacity.
pub proof fn lemma_estimate_at_one_point_per_millisecond(state: BufferState, current_time: u64)
    requires
        state.last_update_time != 0,
    ensures
        points_drained(state.elapsed_ms(current_time), 1000) == state.elapsed_ms(current_time),
        state.spec_estimate(current_time, 1000) == if state.free_space + state.elapsed_ms(
            current_time,
        ) < state.total_size {
            state.free_space + state.elapsed_ms(current_time)
        } else {
            state.total_size as int
        },
{
}

/// An estimate never goes beyond the buffer's capacity when it extrapolates,
/// and never below the smaller of recorded free space and capacity.
pub proof fn lemma_estimate_bounds(state: BufferState, current_time: u64, dac_rate: u32)
    ensures
        state.extrapolates(dac_rate) ==> state.spec_estimate(current_time, dac_rate)
            <= state.total_size,
        state.spec_estimate(current_time, dac_rate) >= state.free_space
            || state.spec_estimate(current_time, dac_rate) == state.total_size,
        0 <= state.spec_estimate(current_time, dac_rate) <= u16::MAX,
{
    let elapsed = state.elapsed_ms(current_time);
    let rate = dac_rate as int;
    assert(elapsed * rate >= 0) by (nonlinear_arith)
        requires
            elapsed >= 0,
            rate >= 0,
    ;
}

/// The estimate only grows with time: a later clock reading never gives a
/// smaller one.
pub proof fn lemma_estimate_monotone_in_time(
    state: BufferState,
    earlier: u64,
    later: u64,
    dac_rate: u32,
)
    requires
        earlier <= later,
    ensures
        state.spec_estimate(earlier, dac_rate) <= state.spec_estimate(later, dac_rate),
{
    let e1 = state.elapsed_ms(earlier);
    let e2 = state.elapsed_ms(later);
    let rate = dac_rate as int;
    assert(e1 * rate <= e2 * rate) by (nonlinear_arith)
        requires
            0 <= e1 <= e2,
            rate >= 0,
    ;
}

} // verus!
