//! Timers that objects carry, and the line of text that shows them.

use vstd::prelude::*;
use vstd::string::StringExecFns;
use crate::text::{fixed, push_fixed, Places};

verus! {

/// A named timer. The time is in microseconds.
#[derive(Debug)]
pub struct Timer {
    pub time: u64,
    pub name: String,
}

/// A time after `delta` more microseconds; it stops at the largest value
/// that a timer can hold.
pub open spec fn advanced(time: u64, delta: u64) -> u64 {
    if time + delta > u64::MAX {
        u64::MAX
    } else {
        (time + delta) as u64
    }
}

/// What is shown for one timer: its name, a colon, and its time in seconds
/// with one digit behind the point.
pub open spec fn timer_entry(timer: Timer) -> Seq<char> {
    timer.name@ + ": "@ + fixed(false, timer.time as nat, Places::One) + "s"@
}

/// The entries of the timers in order, with a comma and a blank between
/// neighbours.
pub open spec fn timer_entries(timers: Seq<Timer>) -> Seq<char>
    decreases timers.len(),
{
    if timers.len() == 0 {
        Seq::<char>::empty()
    } else if timers.len() == 1 {
        timer_entry(timers[0])
    } else {
        timer_entries(timers.drop_last()) + ", "@ + timer_entry(timers.last())
    }
}

/// The line that shows the timers; it says so where there are none.
pub open spec fn timer_line(timers: Seq<Timer>) -> Seq<char> {
    if timers.len() == 0 {
        "No timers"@
    } else {
        timer_entries(timers)
    }
}

/// What a click on the owner of a timer says.
pub open spec fn click_message(name: Seq<char>) -> Seq<char> {
    name + " clicked! Timer reset!"@
}

impl Timer {
    /// A timer at zero.
    pub fn new(name: String) -> (timer: Self)
        ensures
            timer.time == 0,
            timer.name == name,
    {
        Timer { time: 0, name: name }
    }

    /// A click on the owner of the timer: the timer starts over, and the
    /// message that says so is returned.
    pub fn click(&mut self) -> (message: String)
        ensures
            final(self).time == 0,
            final(self).name == old(self).name,
            message@ == click_message(old(self).name@),
    {
        self.time = 0;
        let mut message = String::new();
        message.append(self.name.as_str());
        message.append(" clicked! Timer reset!");
        assert(message@ =~= click_message(self.name@));
        message
    }
}

/// Lets `delta` microseconds pass on a timer.
pub fn update_timers(timer: &mut Timer, delta: u64)
    ensures
        final(timer).time == advanced(old(timer).time, delta),
        final(timer).name == old(timer).name,
{
    timer.time = if delta > u64::MAX - timer.time {
        u64::MAX
    } else {
        timer.time + delta
    };
}

/// The line of text that shows the timers.
pub fn update_timer_ui(timers: &Vec<Timer>) -> (line: String)
    ensures
        line@ == timer_line(timers@),
{
    if timers.len() == 0 {
        return String::from_str("No timers");
    }
    let mut line = String::new();
    let mut i: usize = 0;
    while i < timers.len()
        invariant
            i <= timers.len(),
            line@ == timer_entries(timers@.take(i as int)),
        decreases timers.len() - i,
    {
        let ghost before = line@;
        if i > 0 {
            line.append(", ");
        }
        line.append(timers[i].name.as_str());
        line.append(": ");
        push_fixed(&mut line, false, timers[i].time, Places::One);
        line.append("s");
        proof {
            let prefix = timers@.take(i as int + 1);
            assert(prefix.drop_last() =~= timers@.take(i as int));
            assert(prefix.last() == timers@[i as int]);
            if i == 0 {
                assert(before =~= Seq::<char>::empty());
                assert(line@ =~= timer_entry(timers@[0]));
                assert(prefix[0] == timers@[0]);
            } else {
                assert(line@ =~= before + ", "@ + timer_entry(timers@[i as int]));
            }
        }
        i += 1;
    }
    assert(timers@.take(timers.len() as int) =~= timers@);
    line
}

} // verus!
