//! The timer's clock: how long it has run, and the face that shows it.

use crate::line::{Line, Tone};
use crate::model::Timer;
use crate::text::{cat2, cat3, decimal, own, show, show_two, two_digits};
use vstd::prelude::*;

verus! {

/// The seconds on a timer's clock at `now`: those of the snapshot, and while it
/// runs the whole seconds since the snapshot came in. Both instants are in
/// milliseconds, and a clock past the largest number stays there.
pub open spec fn live_seconds(timer: Timer, base: Option<u64>, now: u64) -> int {
    match base {
        Some(since) => if timer.running && !timer.paused && now >= since {
            let on = timer.elapsed_seconds + (now - since) / 1000;
            if on > i64::MAX {
                i64::MAX as int
            } else {
                on
            }
        } else {
            timer.elapsed_seconds as int
        },
        None => timer.elapsed_seconds as int,
    }
}

/// The seconds on a timer's clock at `now`.
pub fn live_elapsed(timer: &Timer, base: Option<u64>, now: u64) -> (res: i64)
    ensures
        res == live_seconds(*timer, base, now),
{
    match base {
        Some(since) => if timer.running && !timer.paused && now >= since {
            let more: i64 = ((now - since) / 1000) as i64;
            if timer.elapsed_seconds > i64::MAX - more {
                i64::MAX
            } else {
                timer.elapsed_seconds + more
            }
        } else {
            timer.elapsed_seconds
        },
        None => timer.elapsed_seconds,
    }
}

/// Seconds as `mm:ss`, and as `h:mm:ss` from an hour on.
pub open spec fn face_time(seconds: nat) -> Seq<char> {
    let tail = two_digits(seconds / 60 % 60) + ":"@ + two_digits(seconds % 60);
    if seconds >= 3600 {
        decimal(seconds / 3600) + ":"@ + tail
    } else {
        tail
    }
}

/// Seconds as `mm:ss`, and as `h:mm:ss` from an hour on.
pub fn show_face_time(seconds: u64) -> (res: String)
    ensures
        res@ == face_time(seconds as nat),
{
    let m = show_two(seconds / 60 % 60);
    let s = show_two(seconds % 60);
    let tail = cat3(m.as_str(), ":", s.as_str());
    if seconds >= 3600 {
        cat3(show(seconds / 3600).as_str(), ":", tail.as_str())
    } else {
        tail
    }
}

/// The face of a clock: the state's mark and the time, and the label unless the
/// place is narrow, and a question mark while an offer waits for an answer. A timer
/// that does not run has none, and a clock below zero shows zero.
pub open spec fn face_text(timer: Timer, seconds: int, narrow: bool, offer: bool) -> Option<
    Seq<(Tone, Seq<char>)>,
> {
    if !timer.running {
        None
    } else {
        let time = face_time(
            (if seconds > 0 {
                seconds
            } else {
                0
            }) as nat,
        );
        let mark = if timer.paused {
            (Tone::Warn, "‖ "@ + time)
        } else if timer.over {
            (Tone::Danger, "● "@ + time)
        } else {
            (Tone::Success, "● "@ + time)
        };
        Some(
            seq![mark] + (if !narrow && timer.label is Some {
                seq![(Tone::Muted, " "@ + timer.label->0@)]
            } else {
                Seq::empty()
            }) + (if offer {
                seq![(Tone::WarnBold, " ?"@)]
            } else {
                Seq::empty()
            }),
        )
    }
}

/// The face of a clock.
pub fn clock_face(timer: &Timer, seconds: i64, narrow: bool, offer: bool) -> (res: Option<Line>)
    ensures
        match face_text(*timer, seconds as int, narrow, offer) {
            Some(t) => res is Some && res->0@ == t,
            None => res is None,
        },
{
    if !timer.running {
        return None;
    }
    let time = show_face_time(
        if seconds > 0 {
            seconds as u64
        } else {
            0
        },
    );
    let mut face = if timer.paused {
        Line::of(Tone::Warn, cat2("‖ ", time.as_str()))
    } else if timer.over {
        Line::of(Tone::Danger, cat2("● ", time.as_str()))
    } else {
        Line::of(Tone::Success, cat2("● ", time.as_str()))
    };
    if !narrow {
        if let Some(label) = &timer.label {
            face = face.with(Tone::Muted, cat2(" ", label.as_str()));
        }
    }
    if offer {
        face = face.with(Tone::WarnBold, own(" ?"));
    }
    assert(face@ =~= face_text(*timer, seconds as int, narrow, offer)->0);
    Some(face)
}

/// A clock that stands still shows what its snapshot read, and one that runs
/// never goes back.
pub proof fn a_clock_never_goes_back(timer: Timer, base: Option<u64>, earlier: u64, later: u64)
    requires
        earlier <= later,
    ensures
        live_seconds(timer, base, earlier) <= live_seconds(timer, base, later),
        timer.elapsed_seconds <= live_seconds(timer, base, earlier),
        timer.paused || !timer.running ==> live_seconds(timer, base, later)
            == timer.elapsed_seconds,
{
}

/// A face shows the hours, minutes and seconds that the clock has, the hours only where
/// there are any.
pub proof fn a_face_shows_the_time(h: nat, m: nat, s: nat)
    requires
        m < 60,
        s < 60,
    ensures
        h == 0 ==> face_time(h * 3600 + m * 60 + s) == two_digits(m) + ":"@ + two_digits(s),
        h > 0 ==> face_time(h * 3600 + m * 60 + s) == decimal(h) + ":"@ + (two_digits(m) + ":"@
            + two_digits(s)),
{
    let t = h * 3600 + m * 60 + s;
    assert(t % 60 == s);
    assert(t / 60 == h * 60 + m);
    assert(t / 60 % 60 == m);
    assert(t / 3600 == h);
}

/// A face marks a paused clock, one past its plan and one that runs, each in its own way;
/// a clock that does not run has none.
pub proof fn a_face_marks_its_state(t: Timer, seconds: int, narrow: bool, offer: bool)
    ensures
        !t.running ==> face_text(t, seconds, narrow, offer) is None,
        t.running ==> face_text(t, seconds, narrow, offer) is Some,
        t.running && t.paused ==> face_text(t, seconds, narrow, offer)->0[0].0 == Tone::Warn,
        t.running && !t.paused && t.over ==> face_text(t, seconds, narrow, offer)->0[0].0
            == Tone::Danger,
        t.running && !t.paused && !t.over ==> face_text(t, seconds, narrow, offer)->0[0].0
            == Tone::Success,
        t.running && !narrow && t.label is Some ==> face_text(t, seconds, narrow, offer)->0[1].1
            == " "@ + t.label->0@,
        t.running && narrow && !offer ==> face_text(t, seconds, narrow, offer)->0.len() == 1,
{
}

/// A clock that runs gains a second for each thousand milliseconds since its snapshot,
/// no sooner and no later, and stops short of what an `i64` holds.
pub proof fn a_clock_keeps_time(timer: Timer, since: u64, seconds: u64, part: u64, now: u64)
    requires
        timer.running,
        !timer.paused,
        part < 1000,
        now == since + 1000 * seconds + part,
    ensures
        timer.elapsed_seconds + seconds <= i64::MAX ==> live_seconds(timer, Some(since), now)
            == timer.elapsed_seconds + seconds,
        timer.elapsed_seconds + seconds > i64::MAX ==> live_seconds(timer, Some(since), now)
            == i64::MAX,
        live_seconds(timer, None, now) == timer.elapsed_seconds,
        forall|early: u64|
            early < since ==> #[trigger] live_seconds(timer, Some(since), early)
                == timer.elapsed_seconds,
{
    assert((now - since) / 1000 == seconds);
}

} // verus!
