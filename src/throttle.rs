use vstd::prelude::*;

verus! {

/// A bound on how many posts go out in a window of time: at most
/// `capacity` posts from `window_start` on, for `window_secs` seconds.
#[derive(PartialEq, Eq, Structural, Clone, Copy, Debug)]
pub struct RateWindow {
    pub capacity: u64,
    pub window_secs: u64,
    /// Posts sent since the window started.
    pub count: u64,
    /// Seconds since the Unix epoch.
    pub window_start: u64,
}

/// `a + b`, or `u64::MAX` where that does not fit.
pub open spec fn saturating_sum(a: u64, b: u64) -> u64 {
    if a + b > u64::MAX {
        u64::MAX
    } else {
        (a + b) as u64
    }
}

/// Where the window ends: `window_secs` after its start, or at `u64::MAX`
/// where that does not fit.
pub open spec fn window_end(w: RateWindow) -> u64 {
    saturating_sum(w.window_start, w.window_secs)
}

/// Whether the window is over at `now`.
pub open spec fn expired(w: RateWindow, now: u64) -> bool {
    now >= window_end(w)
}

/// When a post asked for at `now` may go out: at once once the window is
/// over; where it still has room, not before the window starts; where it is
/// full, when it ends.
pub open spec fn send_time(w: RateWindow, now: u64) -> u64 {
    if expired(w, now) {
        now
    } else if w.count < w.capacity {
        if now < w.window_start {
            w.window_start
        } else {
            now
        }
    } else {
        window_end(w)
    }
}

/// Seconds to wait at `now` before a post may go out.
pub open spec fn wait_before(w: RateWindow, now: u64) -> u64 {
    (send_time(w, now) - now) as u64
}

/// The window that the post asked for at `now` counts in: a new one that
/// starts at `now` where the old one is over, the next one, starting where
/// the old one ends, where the old one is full, else the old one.
pub open spec fn rolled_over(w: RateWindow, now: u64) -> RateWindow {
    if expired(w, now) {
        RateWindow { count: 0, window_start: now, ..w }
    } else if w.count >= w.capacity {
        RateWindow { count: 0, window_start: window_end(w), ..w }
    } else {
        w
    }
}

/// The window with one more post counted.
pub open spec fn after_post(w: RateWindow) -> RateWindow {
    RateWindow { count: if w.count < u64::MAX { (w.count + 1) as u64 } else { w.count }, ..w }
}

/// The window after a post was let through at `now`: rolled over where
/// due, and the post counted, in the same step.
pub open spec fn after_acquire(w: RateWindow, now: u64) -> RateWindow {
    after_post(rolled_over(w, now))
}

/// The window after a post that was let through did not go out: its slot
/// is free again.
pub open spec fn after_release(w: RateWindow) -> RateWindow {
    RateWindow { count: if w.count > 0 { (w.count - 1) as u64 } else { 0 }, ..w }
}

/// Relies on std's SystemTime::elapsed, from UNIX_EPOCH: the time of the
/// system clock in whole seconds since the Unix epoch, or none where the
/// clock stands before the epoch. Nothing is assumed of the value.
#[verifier::external_body]
fn clock_seconds() -> (r: Option<u64>) {
    std::time::UNIX_EPOCH.elapsed().ok().map(|d| d.as_secs())
}

/// The window after posts at each of `times` in turn, each let through and
/// sent.
pub open spec fn after_posts(w: RateWindow, times: Seq<u64>) -> RateWindow
    decreases times.len(),
{
    if times.len() == 0 {
        w
    } else {
        after_acquire(after_posts(w, times.drop_last()), times.last())
    }
}

/// The waits of posts at each of `times` in turn.
pub open spec fn waits_of_posts(w: RateWindow, times: Seq<u64>) -> Seq<u64>
    decreases times.len(),
{
    if times.len() == 0 {
        Seq::empty()
    } else {
        waits_of_posts(w, times.drop_last()).push(
            wait_before(after_posts(w, times.drop_last()), times.last()),
        )
    }
}

proof fn lemma_waits_len(w: RateWindow, times: Seq<u64>)
    ensures
        waits_of_posts(w, times).len() == times.len(),
    decreases times.len(),
{
    if times.len() > 0 {
        lemma_waits_len(w, times.drop_last());
    }
}

proof fn lemma_in_order_run(w: RateWindow, times: Seq<u64>)
    requires
        w.count == 0,
        times.len() <= w.capacity,
        forall|i: int, j: int| 0 <= i <= j < times.len() ==> times[i] <= times[j],
        times.len() > 0 ==> w.window_start <= times[0],
    ensures
        after_posts(w, times).count <= times.len(),
        after_posts(w, times).capacity == w.capacity,
        after_posts(w, times).window_secs == w.window_secs,
        times.len() > 0 ==> after_posts(w, times).window_start <= times.last(),
    decreases times.len(),
{
    if times.len() > 0 {
        let before = times.drop_last();
        lemma_in_order_run(w, before);
        if before.len() > 0 {
            assert(before.last() == times[times.len() - 2]);
        }
    }
}

/// From an empty window, no more posts than the capacity, asked for in time
/// order from the start of the window on, ever wait, whether they fall in
/// one window or are spread over several.
pub proof fn lemma_capacity_never_waits(w: RateWindow, times: Seq<u64>)
    requires
        w.count == 0,
        times.len() <= w.capacity,
        forall|i: int, j: int| 0 <= i <= j < times.len() ==> times[i] <= times[j],
        times.len() > 0 ==> w.window_start <= times[0],
    ensures
        waits_of_posts(w, times).len() == times.len(),
        forall|i: int| 0 <= i < times.len() ==> #[trigger] waits_of_posts(w, times)[i] == 0,
    decreases times.len(),
{
    lemma_waits_len(w, times);
    if times.len() > 0 {
        let before = times.drop_last();
        lemma_capacity_never_waits(w, before);
        lemma_in_order_run(w, before);
        if before.len() > 0 {
            assert(before.last() == times[times.len() - 2]);
        }
        assert(wait_before(after_posts(w, before), times.last()) == 0);
        assert forall|i: int| 0 <= i < times.len() implies #[trigger] waits_of_posts(w, times)[i]
            == 0 by {
            if i < before.len() {
                assert(waits_of_posts(w, times)[i] == waits_of_posts(w, before)[i]);
            }
        }
    }
}

proof fn lemma_posts_within_window(w: RateWindow, times: Seq<u64>)
    requires
        w.count == 0,
        times.len() <= w.capacity,
        w.window_start + w.window_secs <= u64::MAX,
        forall|i: int|
            0 <= i < times.len() ==> w.window_start <= #[trigger] times[i] < w.window_start
                + w.window_secs,
    ensures
        after_posts(w, times) == (RateWindow { count: times.len() as u64, ..w }),
    decreases times.len(),
{
    if times.len() > 0 {
        let before = times.drop_last();
        lemma_posts_within_window(w, before);
        assert(w.window_start <= times[times.len() - 1]);
    }
}

/// From an empty window, the post after as many as the capacity, all asked
/// for within the window, waits until the window is over, and the next
/// window starts there.
pub proof fn lemma_post_over_capacity_waits(w: RateWindow, times: Seq<u64>)
    requires
        w.count == 0,
        times.len() == w.capacity + 1,
        w.window_start + w.window_secs <= u64::MAX,
        forall|i: int|
            0 <= i < times.len() ==> w.window_start <= #[trigger] times[i] < w.window_start
                + w.window_secs,
    ensures
        times.last() + waits_of_posts(w, times).last() == w.window_start + w.window_secs,
        after_posts(w, times).window_start == w.window_start + w.window_secs,
        after_posts(w, times).count == 1,
{
    let before = times.drop_last();
    lemma_posts_within_window(w, before);
    assert(w.window_start <= times[times.len() - 1] < w.window_start + w.window_secs);
}

/// From a window that holds one post less than its capacity: the first post
/// asked for within the window goes without waiting, and a second one, asked
/// for at any time before the window ends, even before the first was sent,
/// waits until the window ends.
pub proof fn lemma_last_slot_taken_once(w: RateWindow, first: u64, second: u64)
    requires
        w.capacity > 0,
        w.count + 1 == w.capacity,
        w.window_start + w.window_secs <= u64::MAX,
        w.window_start <= first < w.window_start + w.window_secs,
        second < w.window_start + w.window_secs,
    ensures
        wait_before(w, first) == 0,
        second + wait_before(after_acquire(w, first), second) == w.window_start + w.window_secs,
{
}

/// One post let through: it goes out inside the window it is counted in,
/// that window holds no more than the capacity, and it is either the window
/// held before, with one more post, or a later one that starts no earlier
/// than the end of that window and holds this post alone.
pub proof fn lemma_post_inside_its_window(v: RateWindow, now: u64)
    requires
        v.count <= v.capacity,
        v.capacity > 0,
        v.window_secs > 0,
        v.window_start + v.window_secs <= u64::MAX,
    ensures
        ({
            let u = after_acquire(v, now);
            &&& u.capacity == v.capacity
            &&& u.window_secs == v.window_secs
            &&& u.window_start <= send_time(v, now) < u.window_start + u.window_secs
            &&& 1 <= u.count <= u.capacity
            &&& u.window_start == v.window_start ==> u.count == v.count + 1
            &&& u.window_start != v.window_start ==> u.window_start >= v.window_start
                + v.window_secs && u.count == 1
            &&& (u.window_start == v.window_start || u.window_start == now || u.window_start
                == v.window_start + v.window_secs)
        }),
{
}

/// The window that the `i`-th of the posts asked for at `times` counts in.
pub open spec fn window_of_post(w: RateWindow, times: Seq<u64>, i: int) -> RateWindow {
    after_posts(w, times.subrange(0, i + 1))
}

/// When the `i`-th of the posts asked for at `times` goes out.
pub open spec fn sent_at(w: RateWindow, times: Seq<u64>, i: int) -> u64 {
    send_time(after_posts(w, times.subrange(0, i)), times[i])
}

proof fn lemma_run_state(w: RateWindow, times: Seq<u64>, bound: u64)
    requires
        w.count <= w.capacity,
        w.capacity > 0,
        w.window_secs > 0,
        w.window_start <= bound,
        forall|i: int| 0 <= i < times.len() ==> #[trigger] times[i] <= bound,
    ensures
        after_posts(w, times).capacity == w.capacity,
        after_posts(w, times).window_secs == w.window_secs,
        after_posts(w, times).count <= w.capacity,
        after_posts(w, times).window_start <= bound + times.len() * w.window_secs,
    decreases times.len(),
{
    if times.len() > 0 {
        let before = times.drop_last();
        lemma_run_state(w, before, bound);
        let v = after_posts(w, before);
        assert(times.len() * w.window_secs == before.len() * w.window_secs + w.window_secs)
            by (nonlinear_arith)
            requires
                times.len() == before.len() + 1,
        ;
        assert(times.last() == times[times.len() - 1]);
        assert(before.len() * w.window_secs >= 0) by (nonlinear_arith);
        if v.window_start + v.window_secs <= u64::MAX {
            lemma_post_inside_its_window(v, times.last());
        }
    }
}

/// Every post goes out inside the window it is counted in, whatever the
/// order of the times at which posts are asked for. Windows only move
/// forward, each to one that starts no earlier than the end of the one
/// before, so they never overlap, and the posts of one window are counted
/// one after another, so no window holds more than the capacity. This holds
/// as long as no window ends past what a `u64` holds.
pub proof fn lemma_every_window_within_capacity(w: RateWindow, times: Seq<u64>, bound: u64)
    requires
        w.count <= w.capacity,
        w.capacity > 0,
        w.window_secs > 0,
        w.window_start <= bound,
        forall|i: int| 0 <= i < times.len() ==> #[trigger] times[i] <= bound,
        bound + (times.len() + 1) * w.window_secs <= u64::MAX,
    ensures
        forall|i: int|
            0 <= i < times.len() ==> {
                let v = #[trigger] window_of_post(w, times, i);
                &&& v.window_start <= sent_at(w, times, i) < v.window_start + v.window_secs
                &&& v.count <= w.capacity
            },
        forall|i: int, j: int|
            0 <= i < j < times.len() ==> {
                let vi = #[trigger] window_of_post(w, times, i);
                let vj = #[trigger] window_of_post(w, times, j);
                &&& vi.window_start <= vj.window_start
                &&& vj.window_start == vi.window_start ==> vj.count == vi.count + (j - i)
                &&& vj.window_start != vi.window_start ==> vj.window_start >= vi.window_start
                    + w.window_secs
            },
    decreases times.len(),
{
    if times.len() > 0 {
        let n = times.len() as int;
        let before = times.drop_last();
        assert(forall|i: int| 0 <= i < before.len() ==> #[trigger] before[i] == times[i]);
        assert(bound + (before.len() + 1) * w.window_secs <= u64::MAX) by (nonlinear_arith)
            requires
                bound + (times.len() + 1) * w.window_secs <= u64::MAX,
                before.len() + 1 == times.len(),
        ;
        lemma_every_window_within_capacity(w, before, bound);
        lemma_run_state(w, before, bound);
        let v = after_posts(w, before);
        assert(v.window_start + v.window_secs <= u64::MAX) by (nonlinear_arith)
            requires
                v.window_start <= bound + before.len() * w.window_secs,
                v.window_secs == w.window_secs,
                bound + (before.len() + 1) * w.window_secs <= u64::MAX,
        ;
        lemma_post_inside_its_window(v, times[n - 1]);
        assert(times.subrange(0, n) =~= times);
        assert(times.subrange(0, n - 1) =~= before);
        assert(times.drop_last() == before);
        assert(window_of_post(w, times, n - 1) == after_acquire(v, times[n - 1]));
        assert(sent_at(w, times, n - 1) == send_time(v, times[n - 1]));
        assert forall|i: int| 0 <= i < n - 1 implies #[trigger] window_of_post(w, times, i)
            == window_of_post(w, before, i) && sent_at(w, times, i) == sent_at(w, before, i) by {
            assert(times.subrange(0, i + 1) =~= before.subrange(0, i + 1));
            assert(times.subrange(0, i) =~= before.subrange(0, i));
        }
        if n >= 2 {
            assert(before.subrange(0, n - 1) =~= before);
            assert(window_of_post(w, before, n - 2) == v);
        }
        assert forall|i: int, j: int| 0 <= i < j < n implies {
            let vi = #[trigger] window_of_post(w, times, i);
            let vj = #[trigger] window_of_post(w, times, j);
            &&& vi.window_start <= vj.window_start
            &&& vj.window_start == vi.window_start ==> vj.count == vi.count + (j - i)
            &&& vj.window_start != vi.window_start ==> vj.window_start >= vi.window_start
                + w.window_secs
        } by {
            if j == n - 1 && i < n - 2 {
                let vi = window_of_post(w, before, i);
                let vm = window_of_post(w, before, n - 2);
                assert(vi.window_start <= vm.window_start);
            }
        }
    }
}

impl RateWindow {
    /// An empty window that starts at `now`.
    pub fn new(capacity: u64, window_secs: u64, now: u64) -> (r: Self)
        ensures
            r == (RateWindow { capacity, window_secs, count: 0, window_start: now }),
    {
        RateWindow { capacity, window_secs, count: 0, window_start: now }
    }

    /// An empty window that starts at the time the system clock gives, or
    /// at the epoch where the clock cannot be read.
    pub fn starting_now(capacity: u64, window_secs: u64) -> (r: Self)
        ensures
            r.capacity == capacity,
            r.window_secs == window_secs,
            r.count == 0,
    {
        let now = match clock_seconds() {
            Some(t) => t,
            None => 0,
        };
        RateWindow::new(capacity, window_secs, now)
    }

    /// Lets one post through at `now`, counting it in the same step, and
    /// returns how many seconds the caller waits before sending it.
    pub fn acquire(&mut self, now: u64) -> (wait: u64)
        ensures
            wait == wait_before(*old(self), now),
            *final(self) == after_acquire(*old(self), now),
    {
        let end = self.window_start.saturating_add(self.window_secs);
        let mut wait: u64 = 0;
        if now >= end {
            self.window_start = now;
            self.count = 0;
        } else if self.count < self.capacity {
            if now < self.window_start {
                wait = self.window_start - now;
            }
        } else {
            wait = end - now;
            self.window_start = end;
            self.count = 0;
        }
        if self.count < u64::MAX {
            self.count = self.count + 1;
        }
        wait
    }

    /// As `acquire`, at the time that the system clock gives. Where the
    /// clock cannot be read, no time is taken to have passed since the
    /// window started.
    pub fn acquire_now(&mut self) -> (wait: u64)
        ensures
            exists|now: u64|
                wait == wait_before(*old(self), now) && *final(self) == after_acquire(
                    *old(self),
                    now,
                ),
    {
        let now = match clock_seconds() {
            Some(t) => t,
            None => self.window_start,
        };
        self.acquire(now)
    }

    /// Frees the slot of a post that was let through but did not go out.
    pub fn release(&mut self)
        ensures
            *final(self) == after_release(*old(self)),
    {
        if self.count > 0 {
            self.count = self.count - 1;
        }
    }
}

} // verus!
