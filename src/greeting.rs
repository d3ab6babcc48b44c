use vstd::prelude::*;

use crate::timer::{periods_reported, wrapped_elapsed, RepeatingTimer};

verus! {

/// Period between two rounds of greetings: two seconds.
pub const GREET_PERIOD_NS: u64 = 2_000_000_000;

/// The timer that paces the greetings.
pub fn greet_timer() -> (r: RepeatingTimer)
    ensures
        r.wf(),
        r.period_ns == GREET_PERIOD_NS,
        r.elapsed_ns == 0,
{
    RepeatingTimer::new(GREET_PERIOD_NS)
}

/// The people the greeting scene starts with.
pub fn hello_people() -> (r: Vec<String>)
    ensures
        r@.len() == 3,
        r@[0]@ == "Tony"@,
        r@[1]@ == "Akari"@,
        r@[2]@ == "Tsukasa"@,
{
    let mut people: Vec<String> = Vec::new();
    people.push("Tony".to_owned());
    people.push("Akari".to_owned());
    people.push("Tsukasa".to_owned());
    people
}

/// The people the plain entity scene starts with.
pub fn basic_people() -> (r: Vec<String>)
    ensures
        r@.len() == 4,
        r@[0]@ == "Tony"@,
        r@[1]@ == "Tomefy"@,
        r@[2]@ == "Kanto"@,
        r@[3]@ == "Tendry"@,
{
    let mut people: Vec<String> = Vec::new();
    people.push("Tony".to_owned());
    people.push("Tomefy".to_owned());
    people.push("Kanto".to_owned());
    people.push("Tendry".to_owned());
    people
}

/// Advances the greeting timer by one frame and returns the names to greet:
/// every person when a period ended during the frame, nobody otherwise.
pub fn greet_people(timer: &mut RepeatingTimer, delta_ns: u64, people: &Vec<String>) -> (r: Vec<
    String,
>)
    requires
        old(timer).wf(),
    ensures
        final(timer).wf(),
        final(timer).period_ns == old(timer).period_ns,
        final(timer).elapsed_ns == wrapped_elapsed(old(timer).elapsed_ns + delta_ns, old(timer).period_ns as int),
        r@ == (if periods_reported(old(timer).elapsed_ns + delta_ns, old(timer).period_ns as int)
            > 0 {
            people@
        } else {
            Seq::<String>::empty()
        }),
{
    let outcome = timer.tick(delta_ns);
    let mut greeted: Vec<String> = Vec::new();
    if outcome.just_finished() {
        let mut i: usize = 0;
        while i < people.len()
            invariant
                i <= people@.len(),
                greeted@ == people@.subrange(0, i as int),
            decreases people@.len() - i,
        {
            greeted.push(people[i].clone());
            i = i + 1;
        }
        assert(greeted@ =~= people@);
    }
    greeted
}

} // verus!
