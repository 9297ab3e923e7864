//! A count of the frames of the last second.

use instant::{Duration, Instant};
use std::collections::VecDeque;
use vstd::prelude::*;

verus! {

/// The clock's instants. Nothing is known of one but what the clock says
/// when asked how long ago it was.
#[verifier::external_type_specification]
#[verifier::external_body]
pub struct ExInstant(instant::Instant);

/// Length of the window in which frames are counted: one second, in
/// nanoseconds.
pub const WINDOW: u128 = 1_000_000_000;

/// Reads the clock with `Instant::now`.
#[verifier::external_body]
fn clock_now() -> (now: Instant) {
    Instant::now()
}

/// Asks the clock with `Instant::elapsed` how long ago `origin` was. The
/// answer is whatever time has passed, so nothing is promised of it.
#[verifier::external_body]
fn clock_elapsed(origin: &Instant) -> (elapsed: Duration) {
    origin.elapsed()
}

/// Reads a span of time in whole nanoseconds, with `Duration::as_nanos`.
#[verifier::external_body]
fn nanoseconds(span: &Duration) -> (nanos: u128) {
    span.as_nanos()
}

/// A frame shown at `t` is older than the window when the clock reads
/// `now`.
pub open spec fn is_stale(t: u128, now: u128) -> bool {
    t + WINDOW < now
}

/// How many frames at the front of `frames` are stale at `now`, up to the
/// first one that is not.
pub open spec fn stale_prefix(frames: Seq<u128>, now: u128) -> nat
    decreases frames.len(),
{
    if frames.len() > 0 && is_stale(frames[0], now) {
        1 + stale_prefix(frames.drop_first(), now)
    } else {
        0
    }
}

/// The frames that are kept when a frame is shown at `now`: the stale
/// front is dropped and the new frame joins at the back.
pub open spec fn ticked(frames: Seq<u128>, now: u128) -> Seq<u128> {
    frames.skip(stale_prefix(frames, now) as int).push(now)
}

/// The frames are in the order in which they were shown.
pub open spec fn in_order(frames: Seq<u128>) -> bool {
    forall|i: int, j: int| 0 <= i <= j < frames.len() ==> frames[i] <= frames[j]
}

/// The stale front is a part of the frames, each frame in it is stale, and
/// the frame behind it, if there is one, is not.
pub proof fn lemma_stale_prefix(frames: Seq<u128>, now: u128)
    ensures
        stale_prefix(frames, now) <= frames.len(),
        forall|i: int| 0 <= i < stale_prefix(frames, now) ==> is_stale(#[trigger] frames[i], now),
        stale_prefix(frames, now) < frames.len() ==> !is_stale(
            frames[stale_prefix(frames, now) as int],
            now,
        ),
    decreases frames.len(),
{
    if frames.len() > 0 && is_stale(frames[0], now) {
        let rest = frames.drop_first();
        lemma_stale_prefix(rest, now);
        assert forall|i: int| 0 <= i < stale_prefix(frames, now) implies is_stale(
            #[trigger] frames[i],
            now,
        ) by {
            if i > 0 {
                assert(frames[i] == rest[i - 1]);
            }
        }
        if stale_prefix(frames, now) < frames.len() {
            assert(frames[stale_prefix(frames, now) as int] == rest[stale_prefix(rest, now) as int]);
        }
    }
}

/// Where frames are shown in the order of the clock, a tick keeps exactly
/// the frames of the last second: every frame it drops is stale, none that
/// it keeps is, and what it keeps is again in order and ends with the new
/// frame.
pub proof fn lemma_tick_keeps_last_second(frames: Seq<u128>, now: u128)
    requires
        in_order(frames),
        frames.len() > 0 ==> frames.last() <= now,
    ensures
        forall|i: int| 0 <= i < stale_prefix(frames, now) ==> is_stale(#[trigger] frames[i], now),
        forall|i: int|
            stale_prefix(frames, now) <= i < frames.len() ==> !is_stale(#[trigger] frames[i], now),
        forall|i: int|
            0 <= i < ticked(frames, now).len() ==> !is_stale(
                #[trigger] ticked(frames, now)[i],
                now,
            ) && ticked(frames, now)[i] <= now,
        in_order(ticked(frames, now)),
        ticked(frames, now).last() == now,
{
    lemma_stale_prefix(frames, now);
    let k = stale_prefix(frames, now) as int;
    assert forall|i: int| k <= i < frames.len() implies !is_stale(#[trigger] frames[i], now) by {
        assert(frames[k] <= frames[i]);
    }
    let kept = ticked(frames, now);
    assert forall|i: int| 0 <= i < kept.len() implies !is_stale(#[trigger] kept[i], now)
        && kept[i] <= now by {
        if i < kept.len() - 1 {
            assert(kept[i] == frames[k + i]);
            assert(frames[k + i] <= frames.last());
        }
    }
    assert forall|i: int, j: int| 0 <= i <= j < kept.len() implies kept[i] <= kept[j] by {
        if j < kept.len() - 1 {
            assert(kept[i] == frames[k + i]);
            assert(kept[j] == frames[k + j]);
        } else if i < kept.len() - 1 {
            assert(kept[i] == frames[k + i]);
            assert(frames[k + i] <= frames.last());
        }
    }
}

/// The decimal digit `d` as a character.
pub open spec fn digit(d: nat) -> char {
    (48 + d) as char
}

/// The decimal numeral of `n`, without sign or leading zeros.
pub open spec fn decimal(n: nat) -> Seq<char>
    decreases n,
{
    if n < 10 {
        seq![digit(n)]
    } else {
        decimal(n / 10).push(digit(n % 10))
    }
}

/// The numeral of one digit.
fn digit_str(d: usize) -> (s: &'static str)
    requires
        d < 10,
    ensures
        s@ == seq![digit(d as nat)],
{
    proof {
        reveal_strlit("0");
        reveal_strlit("1");
        reveal_strlit("2");
        reveal_strlit("3");
        reveal_strlit("4");
        reveal_strlit("5");
        reveal_strlit("6");
        reveal_strlit("7");
        reveal_strlit("8");
        reveal_strlit("9");
    }
    let s: &'static str = if d == 0 {
        "0"
    } else if d == 1 {
        "1"
    } else if d == 2 {
        "2"
    } else if d == 3 {
        "3"
    } else if d == 4 {
        "4"
    } else if d == 5 {
        "5"
    } else if d == 6 {
        "6"
    } else if d == 7 {
        "7"
    } else if d == 8 {
        "8"
    } else {
        "9"
    };
    assert(s@ =~= seq![digit(d as nat)]);
    s
}

/// Writes `n` as a decimal numeral.
pub fn decimal_string(n: usize) -> (s: String)
    ensures
        s@ == decimal(n as nat),
    decreases n,
{
    if n < 10 {
        String::from_str(digit_str(n))
    } else {
        let mut s: String = decimal_string(n / 10);
        s.append(digit_str(n % 10));
        assert(s@ =~= decimal(n as nat));
        s
    }
}

/// Counts the frames of the last second.
pub struct FPSCounter {
    /// The instant from which the clock is read.
    origin: Instant,
    /// When each frame of the window was shown, in nanoseconds since
    /// `origin`, oldest first.
    last_second_frames: VecDeque<u128>,
}

impl View for FPSCounter {
    type V = Seq<u128>;

    closed spec fn view(&self) -> Seq<u128> {
        self.last_second_frames@
    }
}

impl FPSCounter {
    /// A counter that has seen no frame.
    pub fn new() -> (c: FPSCounter)
        ensures
            c@ == Seq::<u128>::empty(),
    {
        FPSCounter { origin: clock_now(), last_second_frames: VecDeque::with_capacity(128) }
    }

    /// Counts a frame shown when the clock reads `now`: drops the stale
    /// front, adds the frame, and returns the number of frames kept.
    pub fn tick_at(&mut self, now: u128) -> (count: usize)
        ensures
            final(self)@ == ticked(old(self)@, now),
            count == final(self)@.len(),
    {
        broadcast use vstd::std_specs::vecdeque::group_vec_dequeue_axioms;

        let ghost before: Seq<u128> = self.last_second_frames@;
        let ghost mut dropped: nat = 0;
        while self.last_second_frames.len() > 0 && now >= WINDOW && self.last_second_frames[0] < now
            - WINDOW
            invariant
                dropped <= before.len(),
                self.last_second_frames@ == before.skip(dropped as int),
                stale_prefix(before, now) == dropped + stale_prefix(self.last_second_frames@, now),
            decreases self.last_second_frames@.len(),
        {
            let ghost current: Seq<u128> = self.last_second_frames@;
            self.last_second_frames.pop_front();
            proof {
                assert(is_stale(current[0], now));
                assert(self.last_second_frames@ =~= current.drop_first());
                assert(current.drop_first() =~= before.skip(dropped as int + 1));
                dropped = dropped + 1;
            }
        }
        assert(stale_prefix(self.last_second_frames@, now) == 0);
        self.last_second_frames.push_back(now);
        self.last_second_frames.len()
    }

    /// Counts a frame shown now. Whatever the clock reads, the counter is
    /// as `tick_at` leaves it for that reading.
    pub fn tick(&mut self) -> (count: usize)
        ensures
            exists|now: u128| final(self)@ == #[trigger] ticked(old(self)@, now),
            count == final(self)@.len(),
    {
        let elapsed: Duration = clock_elapsed(&self.origin);
        let now: u128 = nanoseconds(&elapsed);
        self.tick_at(now)
    }

    /// The count as text: the number of frames in the window, or a
    /// question mark while fewer than two frames are in it.
    pub fn print(&self) -> (text: String)
        ensures
            text@ == if self@.len() >= 2 {
                decimal(self@.len())
            } else {
                seq!['?']
            },
    {
        broadcast use vstd::std_specs::vecdeque::group_vec_dequeue_axioms;

        let len: usize = self.last_second_frames.len();
        if len >= 2 {
            return decimal_string(len);
        }
        proof {
            reveal_strlit("?");
        }
        let text: String = String::from_str("?");
        assert(text@ =~= seq!['?']);
        text
    }
}

} // verus!
