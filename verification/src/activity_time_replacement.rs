//! Replacement of activity end times in a population by the (more precise) times of a
//! reference population.

use crate::int_map::{int_map_get, int_map_insert, int_map_new, U64Map};
use vstd::prelude::*;

verus! {

/// An activity of a plan: its type and, if it has one, its end time (simulation time in
/// the clock's integer units).
#[derive(Debug)]
pub struct Activity {
    pub act_type: String,
    pub end_time: Option<u64>,
}

/// A plan: its activities in order.
#[derive(Debug)]
pub struct Plan {
    pub acts: Vec<Activity>,
}

/// A person: its id, its plans, and which plan is selected.
#[derive(Debug)]
pub struct Person {
    pub id: u64,
    pub plans: Vec<Plan>,
    pub selected_plan: Option<usize>,
}

/// A population: its persons.
#[derive(Debug)]
pub struct Population {
    pub persons: Vec<Person>,
}

/// Index of the person with the given id (the last one, were there several).
pub open spec fn person_index(persons: Seq<Person>, id: u64) -> Option<int>
    decreases persons.len(),
{
    if persons.len() == 0 {
        None
    } else if persons.last().id == id {
        Some(persons.len() - 1)
    } else {
        person_index(persons.drop_last(), id)
    }
}

/// The end time of the first activity of type `act_type` that has an end time.
pub open spec fn first_end_time(acts: Seq<Activity>, act_type: Seq<char>) -> Option<u64>
    decreases acts.len(),
{
    if acts.len() == 0 {
        None
    } else if acts[0].act_type@ == act_type && acts[0].end_time is Some {
        acts[0].end_time
    } else {
        first_end_time(acts.drop_first(), act_type)
    }
}

/// The activities of a person's selected plan.
pub open spec fn selected_acts(p: Person) -> Seq<Activity> {
    p.plans@[p.selected_plan->0 as int].acts@
}

/// The end time an activity of the person `id` gets: an activity with an end time, of a
/// person the reference population has, gets the end time of the first activity of the
/// same type with an end time in that person's selected plan; every other activity
/// keeps its end time.
pub open spec fn corrected_end_time(correct: Seq<Person>, id: u64, act: Activity) -> Option<u64> {
    if act.end_time is None {
        None
    } else {
        match person_index(correct, id) {
            None => act.end_time,
            Some(j) => first_end_time(selected_acts(correct[j]), act.act_type@),
        }
    }
}

/// The reference population has what the replacement reads for `person`: if it has the
/// person and one of the person's activities has an end time, the reference person has
/// a selected plan, and in it an activity of the same type with an end time.
pub open spec fn reference_covers(correct: Seq<Person>, person: Person) -> bool {
    match person_index(correct, person.id) {
        None => true,
        Some(j) => forall|k: int, a: int|
            0 <= k < person.plans@.len() && 0 <= a < person.plans@[k].acts@.len()
                && (#[trigger] person.plans@[k].acts@[a]).end_time is Some ==> {
                &&& correct[j].selected_plan is Some
                &&& correct[j].selected_plan->0 < correct[j].plans@.len()
                &&& first_end_time(selected_acts(correct[j]), person.plans@[k].acts@[a].act_type@)
                    is Some
            },
    }
}

/// The activities `after` are the activities `before` with the end times corrected from
/// the reference population for the person `id`.
pub open spec fn acts_corrected(before: Seq<Activity>, after: Seq<Activity>, correct: Seq<Person>, id: u64) -> bool {
    &&& after.len() == before.len()
    &&& forall|a: int|
        0 <= a < before.len() ==> {
            &&& (#[trigger] after[a]).act_type == before[a].act_type
            &&& after[a].end_time == corrected_end_time(correct, id, before[a])
        }
}

/// The person `q` is the person `p` with its activity end times corrected from the
/// reference population; everything else is as it was.
pub open spec fn person_corrected(p: Person, q: Person, correct: Seq<Person>) -> bool {
    &&& q.id == p.id
    &&& q.selected_plan == p.selected_plan
    &&& q.plans@.len() == p.plans@.len()
    &&& forall|k: int|
        0 <= k < p.plans@.len() ==> acts_corrected(
            p.plans@[k].acts@,
            (#[trigger] q.plans@[k]).acts@,
            correct,
            p.id,
        )
}

/// `after` is `before` with the activity end times corrected from the reference
/// population; everything else is as it was.
pub open spec fn times_replaced(before: Seq<Person>, after: Seq<Person>, correct: Seq<Person>) -> bool {
    &&& after.len() == before.len()
    &&& forall|i: int| 0 <= i < before.len() ==> person_corrected(before[i], #[trigger] after[i], correct)
}

/// The end time of the first activity of type `act_type` that has one.
fn find_end_time(acts: &Vec<Activity>, act_type: &String) -> (r: Option<u64>)
    ensures
        r == first_end_time(acts@, act_type@),
{
    let mut i: usize = 0;
    assert(acts@.subrange(0, acts@.len() as int) =~= acts@);
    while i < acts.len()
        invariant
            i <= acts@.len(),
            first_end_time(acts@, act_type@) == first_end_time(
                acts@.subrange(i as int, acts@.len() as int),
                act_type@,
            ),
        decreases acts@.len() - i,
    {
        proof {
            let rest = acts@.subrange(i as int, acts@.len() as int);
            assert(rest[0] == acts@[i as int]);
            assert(rest.drop_first() =~= acts@.subrange(i + 1, acts@.len() as int));
        }
        if acts[i].act_type == *act_type && acts[i].end_time.is_some() {
            return acts[i].end_time;
        }
        i = i + 1;
    }
    proof {
        assert(acts@.subrange(i as int, acts@.len() as int) =~= Seq::<Activity>::empty());
    }
    None
}

/// Corrects, in place, the end times of the activities of a plan of a person that the
/// reference population holds as `reference`.
fn correct_acts(acts: &mut Vec<Activity>, reference: &Person, Ghost(correct): Ghost<Seq<Person>>, Ghost(id): Ghost<u64>)
    requires
        exists|j: int| person_index(correct, id) == Some(j) && correct[j] == *reference,
        forall|a: int|
            0 <= a < old(acts)@.len() && (#[trigger] old(acts)@[a]).end_time is Some ==> {
                &&& reference.selected_plan is Some
                &&& reference.selected_plan->0 < reference.plans@.len()
                &&& first_end_time(selected_acts(*reference), old(acts)@[a].act_type@) is Some
            },
    ensures
        acts_corrected(old(acts)@, final(acts)@, correct, id),
{
    let ghost before = acts@;
    let mut a: usize = 0;
    while a < acts.len()
        invariant
            a <= acts@.len(),
            acts@.len() == before.len(),
            exists|j: int| person_index(correct, id) == Some(j) && correct[j] == *reference,
            forall|b: int|
                0 <= b < before.len() && (#[trigger] before[b]).end_time is Some ==> {
                    &&& reference.selected_plan is Some
                    &&& reference.selected_plan->0 < reference.plans@.len()
                    &&& first_end_time(selected_acts(*reference), before[b].act_type@) is Some
                },
            forall|b: int|
                0 <= b < a ==> {
                    &&& (#[trigger] acts@[b]).act_type == before[b].act_type
                    &&& acts@[b].end_time == corrected_end_time(correct, id, before[b])
                },
            forall|b: int| a <= b < before.len() ==> #[trigger] acts@[b] == before[b],
        decreases before.len() - a,
    {
        if acts[a].end_time.is_some() {
            let sp: usize = reference.selected_plan.unwrap();
            let t = find_end_time(&reference.plans[sp].acts, &acts[a].act_type);
            acts[a].end_time = t;
        }
        a = a + 1;
    }
}

/// Corrects, in place, the end times of the activities of every plan of a person that
/// the reference population holds as `reference`.
fn correct_plans(plans: &mut Vec<Plan>, reference: &Person, Ghost(correct): Ghost<Seq<Person>>, Ghost(id): Ghost<u64>)
    requires
        exists|j: int| person_index(correct, id) == Some(j) && correct[j] == *reference,
        forall|k: int, a: int|
            0 <= k < old(plans)@.len() && 0 <= a < old(plans)@[k].acts@.len()
                && (#[trigger] old(plans)@[k].acts@[a]).end_time is Some ==> {
                &&& reference.selected_plan is Some
                &&& reference.selected_plan->0 < reference.plans@.len()
                &&& first_end_time(selected_acts(*reference), old(plans)@[k].acts@[a].act_type@)
                    is Some
            },
    ensures
        final(plans)@.len() == old(plans)@.len(),
        forall|k: int|
            0 <= k < old(plans)@.len() ==> acts_corrected(
                old(plans)@[k].acts@,
                (#[trigger] final(plans)@[k]).acts@,
                correct,
                id,
            ),
{
    let ghost before = plans@;
    let mut k: usize = 0;
    while k < plans.len()
        invariant
            k <= plans@.len(),
            plans@.len() == before.len(),
            exists|j: int| person_index(correct, id) == Some(j) && correct[j] == *reference,
            forall|m: int, a: int|
                0 <= m < before.len() && 0 <= a < before[m].acts@.len()
                    && (#[trigger] before[m].acts@[a]).end_time is Some ==> {
                    &&& reference.selected_plan is Some
                    &&& reference.selected_plan->0 < reference.plans@.len()
                    &&& first_end_time(selected_acts(*reference), before[m].acts@[a].act_type@)
                        is Some
                },
            forall|m: int|
                0 <= m < k ==> acts_corrected(before[m].acts@, (#[trigger] plans@[m]).acts@, correct, id),
            forall|m: int| k <= m < before.len() ==> #[trigger] plans@[m] == before[m],
        decreases before.len() - k,
    {
        proof {
            assert forall|a: int|
                0 <= a < plans@[k as int].acts@.len() && (#[trigger] plans@[k as int].acts@[a]).end_time is Some implies {
                    &&& reference.selected_plan is Some
                    &&& reference.selected_plan->0 < reference.plans@.len()
                    &&& first_end_time(selected_acts(*reference), plans@[k as int].acts@[a].act_type@)
                        is Some
                } by {
                assert(before[k as int].acts@[a] == plans@[k as int].acts@[a]);
            }
        }
        correct_acts(&mut plans[k].acts, reference, Ghost(correct), Ghost(id));
        k = k + 1;
    }
}

/// The index of each person id in the list (the last one, were there several).
fn person_index_map(persons: &Vec<Person>) -> (index: U64Map<usize>)
    ensures
        forall|id: u64| #[trigger] index@.contains_key(id) <==> person_index(persons@, id) is Some,
        forall|id: u64|
            #[trigger] index@.contains_key(id) ==> Some(index@[id] as int) == person_index(persons@, id),
{
    let ghost all = persons@;
    let mut index: U64Map<usize> = int_map_new();
    let mut j: usize = 0;
    while j < persons.len()
        invariant
            all == persons@,
            j <= all.len(),
            forall|id: u64|
                #[trigger] index@.contains_key(id) <==> person_index(all.subrange(0, j as int), id) is Some,
            forall|id: u64|
                #[trigger] index@.contains_key(id) ==> Some(index@[id] as int) == person_index(all.subrange(0, j as int), id),
        decreases all.len() - j,
    {
        proof {
            assert(all.subrange(0, j + 1).drop_last() =~= all.subrange(0, j as int));
        }
        int_map_insert(&mut index, persons[j].id, j);
        j = j + 1;
    }
    proof {
        assert(all.subrange(0, all.len() as int) =~= all);
    }
    index
}

/// Whether the reference person has, for each activity with an end time in the plans,
/// a selected plan with an activity of the same type that has an end time.
fn reference_person_covers(plans: &Vec<Plan>, reference: &Person) -> (b: bool)
    ensures
        b == forall|k: int, a: int|
            0 <= k < plans@.len() && 0 <= a < plans@[k].acts@.len()
                && (#[trigger] plans@[k].acts@[a]).end_time is Some ==> {
                &&& reference.selected_plan is Some
                &&& reference.selected_plan->0 < reference.plans@.len()
                &&& first_end_time(selected_acts(*reference), plans@[k].acts@[a].act_type@) is Some
            },
{
    let mut k: usize = 0;
    while k < plans.len()
        invariant
            k <= plans@.len(),
            forall|m: int, a: int|
                0 <= m < k && 0 <= a < plans@[m].acts@.len()
                    && (#[trigger] plans@[m].acts@[a]).end_time is Some ==> {
                    &&& reference.selected_plan is Some
                    &&& reference.selected_plan->0 < reference.plans@.len()
                    &&& first_end_time(selected_acts(*reference), plans@[m].acts@[a].act_type@) is Some
                },
        decreases plans@.len() - k,
    {
        let acts = &plans[k].acts;
        let mut a: usize = 0;
        while a < acts.len()
            invariant
                k < plans@.len(),
                *acts == plans@[k as int].acts,
                a <= acts@.len(),
                forall|m: int, b: int|
                    0 <= m < k && 0 <= b < plans@[m].acts@.len()
                        && (#[trigger] plans@[m].acts@[b]).end_time is Some ==> {
                        &&& reference.selected_plan is Some
                        &&& reference.selected_plan->0 < reference.plans@.len()
                        &&& first_end_time(selected_acts(*reference), plans@[m].acts@[b].act_type@) is Some
                    },
                forall|b: int|
                    0 <= b < a && (#[trigger] acts@[b]).end_time is Some ==> {
                        &&& reference.selected_plan is Some
                        &&& reference.selected_plan->0 < reference.plans@.len()
                        &&& first_end_time(selected_acts(*reference), acts@[b].act_type@) is Some
                    },
            decreases acts@.len() - a,
        {
            if acts[a].end_time.is_some() {
                match reference.selected_plan {
                    None => return false,
                    Some(sp) => {
                        if sp >= reference.plans.len() {
                            return false;
                        }
                        if find_end_time(&reference.plans[sp].acts, &acts[a].act_type).is_none() {
                            return false;
                        }
                    },
                }
            }
            a = a + 1;
        }
        k = k + 1;
    }
    true
}

/// Whether the reference population has what the replacement reads for every person of
/// the population to be changed (`replace_activity_times` needs it).
pub fn reference_covers_population(pop_to_be_changed: &Population, pop_with_correct_times: &Population) -> (b: bool)
    ensures
        b == forall|i: int|
            0 <= i < pop_to_be_changed.persons@.len() ==> reference_covers(
                pop_with_correct_times.persons@,
                #[trigger] pop_to_be_changed.persons@[i],
            ),
{
    let ghost correct = pop_with_correct_times.persons@;
    let index = person_index_map(&pop_with_correct_times.persons);
    let mut i: usize = 0;
    while i < pop_to_be_changed.persons.len()
        invariant
            correct == pop_with_correct_times.persons@,
            i <= pop_to_be_changed.persons@.len(),
            forall|id: u64| #[trigger] index@.contains_key(id) <==> person_index(correct, id) is Some,
            forall|id: u64|
                #[trigger] index@.contains_key(id) ==> Some(index@[id] as int) == person_index(correct, id),
            forall|m: int| 0 <= m < i ==> reference_covers(correct, #[trigger] pop_to_be_changed.persons@[m]),
        decreases pop_to_be_changed.persons@.len() - i,
    {
        let person = &pop_to_be_changed.persons[i];
        match int_map_get(&index, person.id) {
            Some(jr) => {
                let jj: usize = *jr;
                proof {
                    lemma_person_index_bound(correct, person.id);
                }
                if !reference_person_covers(&person.plans, &pop_with_correct_times.persons[jj]) {
                    return false;
                }
            },
            None => {},
        }
        i = i + 1;
    }
    true
}

/// Replaces, in `pop_to_be_changed`, the end time of every activity that has one by the
/// end time of the first activity of the same type with an end time in the selected plan
/// of the same person in `pop_with_correct_times`; persons that population lacks, and
/// activities without an end time, are left as they are.
pub fn replace_activity_times(pop_to_be_changed: &mut Population, pop_with_correct_times: Population)
    requires
        forall|i: int|
            0 <= i < old(pop_to_be_changed).persons@.len() ==> reference_covers(
                pop_with_correct_times.persons@,
                #[trigger] old(pop_to_be_changed).persons@[i],
            ),
    ensures
        times_replaced(old(pop_to_be_changed).persons@, final(pop_to_be_changed).persons@, pop_with_correct_times.persons@),
{
    let ghost correct = pop_with_correct_times.persons@;
    let index = person_index_map(&pop_with_correct_times.persons);
    let ghost before = pop_to_be_changed.persons@;
    let mut i: usize = 0;
    while i < pop_to_be_changed.persons.len()
        invariant
            correct == pop_with_correct_times.persons@,
            before == old(pop_to_be_changed).persons@,
            i <= before.len(),
            pop_to_be_changed.persons@.len() == before.len(),
            forall|id: u64| #[trigger] index@.contains_key(id) <==> person_index(correct, id) is Some,
            forall|id: u64|
                #[trigger] index@.contains_key(id) ==> Some(index@[id] as int) == person_index(correct, id),
            forall|m: int| 0 <= m < before.len() ==> reference_covers(correct, #[trigger] before[m]),
            forall|m: int|
                0 <= m < i ==> person_corrected(before[m], #[trigger] pop_to_be_changed.persons@[m], correct),
            forall|m: int| i <= m < before.len() ==> #[trigger] pop_to_be_changed.persons@[m] == before[m],
        decreases before.len() - i,
    {
        let id: u64 = pop_to_be_changed.persons[i].id;
        match int_map_get(&index, id) {
            Some(jr) => {
                let jj: usize = *jr;
                proof {
                    lemma_person_index_bound(correct, id);
                    assert(before[i as int] == pop_to_be_changed.persons@[i as int]);
                    assert(reference_covers(correct, before[i as int]));
                }
                correct_plans(
                    &mut pop_to_be_changed.persons[i].plans,
                    &pop_with_correct_times.persons[jj],
                    Ghost(correct),
                    Ghost(id),
                );
            },
            None => {
                proof {
                    assert forall|k: int|
                        0 <= k < before[i as int].plans@.len() implies acts_corrected(
                        before[i as int].plans@[k].acts@,
                        (#[trigger] pop_to_be_changed.persons@[i as int].plans@[k]).acts@,
                        correct,
                        id,
                    ) by {}
                }
            },
        }
        i = i + 1;
    }
}

/// Replacing the times a second time, from the same reference population, changes
/// nothing more: the population replaced twice is the population replaced once.
pub proof fn law_replacement_idempotent(
    before: Seq<Person>,
    once: Seq<Person>,
    twice: Seq<Person>,
    correct: Seq<Person>,
)
    requires
        forall|i: int| 0 <= i < before.len() ==> reference_covers(correct, #[trigger] before[i]),
        times_replaced(before, once, correct),
        times_replaced(once, twice, correct),
    ensures
        times_replaced(before, twice, correct),
        forall|i: int, k: int, a: int|
            0 <= i < twice.len() && 0 <= k < twice[i].plans@.len() && 0 <= a < twice[i].plans@[k].acts@.len()
                ==> (#[trigger] twice[i].plans@[k].acts@[a]).end_time == once[i].plans@[k].acts@[a].end_time,
{
    assert forall|i: int| 0 <= i < before.len() implies person_corrected(before[i], #[trigger] twice[i], correct) by {
        let (p, q, r) = (before[i], once[i], twice[i]);
        assert(person_corrected(p, q, correct));
        assert(person_corrected(q, r, correct));
        assert(reference_covers(correct, p));
        assert forall|k: int| 0 <= k < p.plans@.len() implies acts_corrected(
            p.plans@[k].acts@,
            (#[trigger] r.plans@[k]).acts@,
            correct,
            p.id,
        ) by {
            assert(acts_corrected(p.plans@[k].acts@, q.plans@[k].acts@, correct, p.id));
            assert(acts_corrected(q.plans@[k].acts@, r.plans@[k].acts@, correct, q.id));
            assert forall|a: int| 0 <= a < p.plans@[k].acts@.len() implies {
                &&& (#[trigger] r.plans@[k].acts@[a]).act_type == p.plans@[k].acts@[a].act_type
                &&& r.plans@[k].acts@[a].end_time == corrected_end_time(correct, p.id, p.plans@[k].acts@[a])
            } by {
                let act = p.plans@[k].acts@[a];
                assert(q.plans@[k].acts@[a].end_time == corrected_end_time(correct, p.id, act));
                assert(r.plans@[k].acts@[a].end_time == corrected_end_time(correct, p.id, q.plans@[k].acts@[a]));
            }
        }
    }
    assert forall|i: int, k: int, a: int|
        0 <= i < twice.len() && 0 <= k < twice[i].plans@.len() && 0 <= a < twice[i].plans@[k].acts@.len()
            implies (#[trigger] twice[i].plans@[k].acts@[a]).end_time == once[i].plans@[k].acts@[a].end_time by {
        assert(person_corrected(before[i], once[i], correct));
        assert(person_corrected(before[i], twice[i], correct));
        assert(acts_corrected(before[i].plans@[k].acts@, once[i].plans@[k].acts@, correct, before[i].id));
        assert(acts_corrected(before[i].plans@[k].acts@, twice[i].plans@[k].acts@, correct, before[i].id));
    }
}

/// A found index lies within the population.
proof fn lemma_person_index_bound(persons: Seq<Person>, id: u64)
    ensures
        match person_index(persons, id) {
            Some(j) => 0 <= j < persons.len() && persons[j].id == id,
            None => forall|j: int| 0 <= j < persons.len() ==> persons[j].id != id,
        },
    decreases persons.len(),
{
    if persons.len() > 0 {
        lemma_person_index_bound(persons.drop_last(), id);
        if persons.last().id != id {
            match person_index(persons.drop_last(), id) {
                Some(j) => {
                    assert(persons.drop_last()[j] == persons[j]);
                },
                None => {
                    assert forall|j: int| 0 <= j < persons.len() implies persons[j].id != id by {
                        if j < persons.len() - 1 {
                            assert(persons.drop_last()[j] == persons[j]);
                        }
                    }
                },
            }
        }
    }
}

} // verus!
