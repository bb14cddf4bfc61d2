//! The greeter demo: a fixed roster of people, a repeating timer that
//! schedules greetings, and the per-tick rename of the first person.
//!
//! The underlying engine only stores the roster as entities and drives the
//! systems; every decision those systems make is taken here, on plain
//! values, with exact contracts. A host spawns one entity per name, hands
//! each tick's elapsed time to [`greet_people`], and prints what comes back.

use vstd::prelude::*;
use vstd::string::StringExecFns;

verus! {

/// A repeating countdown measured in microseconds.
///
/// Once `elapsed_micros` reaches `duration_micros` within a tick the timer
/// reports the period as finished and keeps the remainder, so a period is
/// never lost to a long tick.
#[derive(PartialEq, Eq, Structural, Clone, Copy, Debug)]
pub struct GreetTimer {
    pub elapsed_micros: u64,
    pub duration_micros: u64,
}

impl GreetTimer {
    /// The timer has a positive period and its progress stays inside it.
    pub open spec fn wf(&self) -> bool {
        self.duration_micros > 0 && self.elapsed_micros < self.duration_micros
    }

    pub fn new(duration_micros: u64) -> (timer: Self)
        requires
            duration_micros > 0,
        ensures
            timer.wf(),
            timer.duration_micros == duration_micros,
            timer.elapsed_micros == 0,
    {
        Self { elapsed_micros: 0, duration_micros }
    }

    /// Advances the timer by `delta_micros` and reports whether the period
    /// elapsed during this tick.
    pub fn tick(&mut self, delta_micros: u64) -> (finished: bool)
        requires
            old(self).wf(),
            old(self).elapsed_micros + delta_micros <= u64::MAX,
        ensures
            final(self).wf(),
            final(self).duration_micros == old(self).duration_micros,
            finished == (old(self).elapsed_micros + delta_micros >= old(self).duration_micros),
            final(self).elapsed_micros == (old(self).elapsed_micros + delta_micros) % (
            old(self).duration_micros as int),
    {
        let total: u64 = self.elapsed_micros + delta_micros;
        let finished: bool = total >= self.duration_micros;
        self.elapsed_micros = total % self.duration_micros;
        finished
    }
}

/// The fixed greeting of the demo.
pub fn hello_world() -> (line: String)
    ensures
        line@ == "Hello, world!"@,
{
    "Hello, world!".to_owned()
}

/// The initial roster, in spawn order.
pub fn add_people() -> (people: Vec<String>)
    ensures
        people@.len() == 3,
        people@[0]@ == "Alice"@,
        people@[1]@ == "Bob"@,
        people@[2]@ == "Charlie"@,
{
    let mut people: Vec<String> = Vec::new();
    people.push("Alice".to_owned());
    people.push("Bob".to_owned());
    people.push("Charlie".to_owned());
    people
}

/// Index `i` holds the first occurrence of "Alice" in the roster.
pub open spec fn is_first_alice(roster: Seq<String>, i: int) -> bool {
    &&& 0 <= i < roster.len()
    &&& roster[i]@ == "Alice"@
    &&& forall|j: int| 0 <= j < i ==> roster[j]@ != "Alice"@
}

/// Renames the first person called "Alice" to "Alex" and leaves everyone
/// else, later namesakes included, unchanged.
pub fn update_people(people: &mut Vec<String>)
    ensures
        final(people)@.len() == old(people)@.len(),
        forall|i: int|
            0 <= i < old(people)@.len() && !is_first_alice(old(people)@, i)
                ==> final(people)@[i]@ == old(people)@[i]@,
        forall|i: int| is_first_alice(old(people)@, i) ==> final(people)@[i]@ == "Alex"@,
{
    let alice: String = "Alice".to_owned();
    let n: usize = people.len();
    let mut i: usize = 0;
    while i < n && !(people[i] == alice)
        invariant
            n == people@.len(),
            i <= n,
            people@ == old(people)@,
            alice@ == "Alice"@,
            forall|j: int| 0 <= j < i ==> people@[j]@ != "Alice"@,
        decreases n - i,
    {
        i = i + 1;
    }
    if i < n {
        people.set(i, "Alex".to_owned());
    }
}

/// The greeting line for one name.
pub open spec fn greeting_spec(name: Seq<char>) -> Seq<char> {
    "Hello, "@ + name + "!"@
}

/// Builds the greeting line for one name.
pub fn greeting(name: &String) -> (line: String)
    ensures
        line@ == greeting_spec(name@),
{
    let mut line: String = "Hello, ".to_owned();
    line.append(name.as_str());
    line.append("!");
    line
}

/// Advances the greeting timer by one tick's elapsed time and, exactly when
/// the period elapsed, greets the whole roster in order; otherwise nobody is
/// greeted.
pub fn greet_people(timer: &mut GreetTimer, delta_micros: u64, people: &Vec<String>) -> (greetings:
    Vec<String>)
    requires
        old(timer).wf(),
        old(timer).elapsed_micros + delta_micros <= u64::MAX,
    ensures
        final(timer).wf(),
        final(timer).duration_micros == old(timer).duration_micros,
        final(timer).elapsed_micros == (old(timer).elapsed_micros + delta_micros) % (
        old(timer).duration_micros as int),
        old(timer).elapsed_micros + delta_micros >= old(timer).duration_micros ==> {
            &&& greetings@.len() == people@.len()
            &&& forall|i: int|
                0 <= i < people@.len() ==> greetings@[i]@ == greeting_spec(people@[i]@)
        },
        old(timer).elapsed_micros + delta_micros < old(timer).duration_micros
            ==> greetings@.len() == 0,
{
    let finished: bool = timer.tick(delta_micros);
    let mut greetings: Vec<String> = Vec::new();
    if finished {
        let mut i: usize = 0;
        while i < people.len()
            invariant
                i <= people@.len(),
                greetings@.len() == i,
                forall|j: int| 0 <= j < i ==> greetings@[j]@ == greeting_spec(people@[j]@),
            decreases people@.len() - i,
        {
            greetings.push(greeting(&people[i]));
            i = i + 1;
        }
    }
    greetings
}

} // verus!
