//! A closure whose result is computed once and kept, and the workout plan
//! that is built with it.

use vstd::prelude::*;
use vstd::string::StringExecFns;
use crate::decimal::{digits, unsigned_text};

verus! {

/// Holds a calculation, and its result once it has been asked for.
pub struct Cacher<T> where T: Fn(u32) -> u32 {
    calculation: T,
    value: Option<u32>,
}

impl<T> Cacher<T> where T: Fn(u32) -> u32 {
    /// The calculation that the cacher holds.
    pub closed spec fn calculation(&self) -> T {
        self.calculation
    }

    /// The result that the cacher holds, if it has computed one.
    pub closed spec fn cached(&self) -> Option<u32> {
        self.value
    }

    /// A cacher that has not run its calculation yet.
    pub fn new(calculation: T) -> (cacher: Cacher<T>)
        ensures
            cacher.calculation() == calculation,
            cacher.cached() is None,
    {
        Cacher { calculation, value: None }
    }

    /// The result of the calculation. The first call runs it on `arg` and
    /// keeps the result; every later call returns what was kept, whatever
    /// its `arg`.
    pub fn value(&mut self, arg: u32) -> (v: u32)
        requires
            old(self).cached() is None ==> call_requires(old(self).calculation(), (arg,)),
        ensures
            final(self).calculation() == old(self).calculation(),
            final(self).cached() == Some(v),
            old(self).cached() matches Some(kept) ==> v == kept,
            old(self).cached() is None ==> call_ensures(old(self).calculation(), (arg,), v),
    {
        match self.value {
            Some(v) => v,
            None => {
                let v = (self.calculation)(arg);
                self.value = Some(v);
                v
            },
        }
    }
}

/// What to do today.
#[derive(Clone, Copy, Debug, PartialEq, Eq, Structural)]
pub enum Workout {
    /// Pushups, then situps.
    Strength { pushups: u32, situps: u32 },
    /// A day off.
    Rest,
    /// A run of so many minutes.
    Run { minutes: u32 },
}

/// The plan for an `intensity` and a number drawn at random.
pub open spec fn workout_for(intensity: u32, random_number: u32) -> Workout {
    if intensity < 25 {
        Workout::Strength { pushups: intensity, situps: intensity }
    } else if random_number == 3 {
        Workout::Rest
    } else {
        Workout::Run { minutes: intensity }
    }
}

/// Plans today's workout. Below an intensity of 25 it is pushups and situps,
/// as many of each as the intensity; from 25 on it is a run of as many
/// minutes, unless the number drawn is 3: then it is a day off. The count is
/// worked out once, however often the plan mentions it.
pub fn generate_workout(intensity: u32, random_number: u32) -> (plan: Workout)
    ensures
        plan == workout_for(intensity, random_number),
{
    let calculation = |num: u32| -> (count: u32)
        ensures
            count == num,
        { num };
    let mut expensive_result = Cacher::new(calculation);
    if intensity < 25 {
        let pushups = expensive_result.value(intensity);
        let situps = expensive_result.value(intensity);
        Workout::Strength { pushups, situps }
    } else {
        if random_number == 3 {
            Workout::Rest
        } else {
            Workout::Run { minutes: expensive_result.value(intensity) }
        }
    }
}

impl Workout {
    /// The plan in words, line by line.
    pub open spec fn spec_lines(self) -> Seq<Seq<char>> {
        match self {
            Workout::Strength { pushups, situps } => seq![
                "Today, do "@ + digits(pushups as nat) + " pushups!"@,
                "Next, do "@ + digits(situps as nat) + " situps!"@,
            ],
            Workout::Rest => seq!["Take a break today! Remember to stay hydrated!"@],
            Workout::Run { minutes } => seq![
                "Today, run for "@ + digits(minutes as nat) + " minutes!"@,
            ],
        }
    }

    /// The plan in words, line by line.
    pub fn lines(&self) -> (lines: Vec<String>)
        ensures
            lines@.map_values(|line: String| line@) == self.spec_lines(),
    {
        let mut lines: Vec<String> = Vec::new();
        match *self {
            Workout::Strength { pushups, situps } => {
                let mut first = String::from_str("Today, do ");
                first.append(unsigned_text(pushups as u64).as_str());
                first.append(" pushups!");
                let mut second = String::from_str("Next, do ");
                second.append(unsigned_text(situps as u64).as_str());
                second.append(" situps!");
                lines.push(first);
                lines.push(second);
            },
            Workout::Rest => {
                lines.push(String::from_str("Take a break today! Remember to stay hydrated!"));
            },
            Workout::Run { minutes } => {
                let mut line = String::from_str("Today, run for ");
                line.append(unsigned_text(minutes as u64).as_str());
                line.append(" minutes!");
                lines.push(line);
            },
        }
        lines
    }
}

} // verus!
