//! The people of the greeting demo: who they are, who gets a new name, and
//! what is said to them.

use bevy::time::Timer;
use std::time::Duration;
use vstd::prelude::*;
use vstd::string::StringExecFns;

verus! {

/// `bevy::time::Timer`, a timer that its owner moves forward tick by tick.
/// Nothing is known of what it holds.
#[verifier::external_type_specification]
#[verifier::external_body]
pub struct ExTimer(Timer);

/// The timer that `bevy::time::Timer::tick` leaves behind when it moves
/// `timer` forward by `delta`.
pub uninterp spec fn timer_after_tick(timer: Timer, delta: Duration) -> Timer;

/// What `bevy::time::Timer::just_finished` answers for `timer`: whether its
/// last tick took it to the end of its duration.
pub uninterp spec fn timer_just_finished(timer: Timer) -> bool;

/// Calls `bevy::time::Timer::tick`, which moves the timer forward by
/// `delta`. The call reads the timer and `delta` and nothing else, so the
/// timer afterwards is a function of the two; no more is claimed of it.
#[verifier::external_body]
fn tick(timer: &mut Timer, delta: Duration)
    ensures
        *final(timer) == timer_after_tick(*old(timer), delta),
{
    timer.tick(delta);
}

/// Calls `bevy::time::Timer::just_finished`, which tells whether the last
/// tick took the timer to the end of its duration. The call reads the timer
/// and nothing else, so the answer is a function of the timer; no more is
/// claimed of it.
#[verifier::external_body]
fn just_finished(timer: &Timer) -> (finished: bool)
    ensures
        finished == timer_just_finished(*timer),
{
    timer.just_finished()
}

/// The name that [`update_people`] looks for.
pub open spec fn former_name() -> Seq<char> {
    "Elaina Proctor"@
}

/// The name that [`update_people`] gives in its place.
pub open spec fn married_name() -> Seq<char> {
    "Elaina Hume 태상"@
}

/// The greeting for one person: `hello`, a space, the name and an
/// exclamation mark.
pub open spec fn greeting(name: Seq<char>) -> Seq<char> {
    "hello "@ + name + "!"@
}

/// The names of the people who are there from the start, in the order in
/// which they arrive.
pub fn add_people() -> (names: Vec<String>)
    ensures
        names@.len() == 3,
        names@[0]@ == "Elaina Proctor"@,
        names@[1]@ == "Renzo Hume"@,
        names@[2]@ == "Zayna Nieves"@,
{
    let mut names: Vec<String> = Vec::new();
    names.push(String::from_str("Elaina Proctor"));
    names.push(String::from_str("Renzo Hume"));
    names.push(String::from_str("Zayna Nieves"));
    names
}

/// Renames the first person called Elaina Proctor, and nobody else: not a
/// later person of that name either. Returns the place of the person who
/// was renamed, or `None` where nobody has that name.
pub fn update_people(names: &mut Vec<String>) -> (renamed: Option<usize>)
    ensures
        final(names)@.len() == old(names)@.len(),
        match renamed {
            Some(at) => {
                &&& at < old(names)@.len()
                &&& old(names)@[at as int]@ == former_name()
                &&& forall|j: int| 0 <= j < at ==> old(names)@[j]@ != former_name()
                &&& final(names)@[at as int]@ == married_name()
                &&& forall|j: int|
                    0 <= j < old(names)@.len() && j != at ==> final(names)@[j] == old(names)@[j]
            },
            None => {
                &&& forall|j: int| 0 <= j < old(names)@.len() ==> old(names)@[j]@ != former_name()
                &&& final(names)@ == old(names)@
            },
        },
{
    let former = String::from_str("Elaina Proctor");
    let mut i: usize = 0;
    while i < names.len()
        invariant
            i <= names@.len(),
            names@ == old(names)@,
            former@ == former_name(),
            forall|j: int| 0 <= j < i ==> names@[j]@ != former_name(),
        decreases names@.len() - i,
    {
        if names[i] == former {
            names[i] = String::from_str("Elaina Hume 태상");
            return Some(i);
        }
        i = i + 1;
    }
    None
}

/// Whether `lines` holds one greeting for each of `names`, in their order.
pub open spec fn greets_all(lines: Seq<String>, names: Seq<String>) -> bool {
    &&& lines.len() == names.len()
    &&& forall|i: int| 0 <= i < names.len() ==> (#[trigger] lines[i])@ == greeting(names[i]@)
}

/// What is said after a tick of the greeting timer: one greeting for each
/// person, in their order, where the tick took the timer to its end, and
/// nothing while the timer is still running.
pub fn greetings_on_tick(just_finished: bool, names: &Vec<String>) -> (lines: Vec<String>)
    ensures
        just_finished ==> greets_all(lines@, names@),
        !just_finished ==> lines@.len() == 0,
{
    let mut lines: Vec<String> = Vec::new();
    if just_finished {
        let mut i: usize = 0;
        while i < names.len()
            invariant
                i <= names@.len(),
                lines@.len() == i,
                forall|j: int| 0 <= j < i ==> (#[trigger] lines@[j])@ == greeting(names@[j]@),
            decreases names@.len() - i,
        {
            let mut line = String::from_str("hello ");
            line.append(names[i].as_str());
            line.append("!");
            lines.push(line);
            i = i + 1;
        }
    }
    lines
}

/// Moves the greeting timer forward by `delta`, once, and returns what is
/// to be said: a greeting for everybody on the tick that takes the timer to
/// its end, and nothing on any other tick. The timer is moved forward
/// whether or not anything is said.
pub fn greet_people(delta: Duration, timer: &mut Timer, names: &Vec<String>) -> (lines: Vec<
    String,
>)
    ensures
        *final(timer) == timer_after_tick(*old(timer), delta),
        timer_just_finished(*final(timer)) ==> greets_all(lines@, names@),
        !timer_just_finished(*final(timer)) ==> lines@.len() == 0,
{
    tick(timer, delta);
    let finished = just_finished(timer);
    greetings_on_tick(finished, names)
}

} // verus!
