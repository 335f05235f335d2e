use braess_experiments::activity_time_replacement::{
    reference_covers_population, replace_activity_times, Activity, Person, Plan, Population,
};

fn act(act_type: &str, end_time: Option<u64>) -> Activity {
    Activity { act_type: act_type.to_string(), end_time }
}

fn person(id: u64, plans: Vec<Vec<Activity>>, selected_plan: Option<usize>) -> Person {
    Person { id, plans: plans.into_iter().map(|acts| Plan { acts }).collect(), selected_plan }
}

/// A person's trip from home to work, leaving home at `leave` (nanoseconds).
fn commuter(id: u64, leave: u64) -> Person {
    person(id, vec![vec![act("home", Some(leave)), act("work", None)]], Some(0))
}

#[test]
fn test_replace_activity_times() {
    // each person's correct departure is id * 0.25 s, in nanoseconds
    let ids = [0u64, 1, 2, 10, 37];
    let mut pop_to_be_changed = Population {
        persons: ids
            .iter()
            .map(|&id| {
                person(
                    id,
                    vec![
                        vec![act("home", Some(id * 1_000_000_000)), act("work", None)],
                        vec![act("home", Some(7)), act("work", None)],
                    ],
                    Some(1),
                )
            })
            .collect(),
    };
    let pop_with_correct_times = Population {
        persons: ids.iter().rev().map(|&id| commuter(id, id * 250_000_000)).collect(),
    };
    replace_activity_times(&mut pop_to_be_changed, pop_with_correct_times);
    for p in &pop_to_be_changed.persons {
        for plan in &p.plans {
            assert_eq!(plan.acts[0].act_type, "home");
            for activity in &plan.acts {
                if let Some(end_time) = activity.end_time {
                    // expected time for, e.g., person 10 is 2.5 seconds, in nanoseconds
                    assert_eq!(
                        end_time,
                        (p.id as f64 * 0.25 * 1e9) as u64,
                        "Activity end time for person {} is not correct",
                        p.id
                    );
                }
            }
            assert_eq!(plan.acts[1].end_time, None);
        }
        assert_eq!(p.selected_plan, Some(1));
    }
    let order: Vec<u64> = pop_to_be_changed.persons.iter().map(|p| p.id).collect();
    assert_eq!(order, ids.to_vec());
}

#[test]
fn persons_missing_in_the_reference_keep_their_times() {
    let mut pop = Population { persons: vec![commuter(1, 100), commuter(2, 200)] };
    let reference = Population { persons: vec![commuter(2, 5)] };
    replace_activity_times(&mut pop, reference);
    assert_eq!(pop.persons[0].plans[0].acts[0].end_time, Some(100));
    assert_eq!(pop.persons[1].plans[0].acts[0].end_time, Some(5));
}

#[test]
fn takes_the_first_timed_activity_of_the_same_type_in_the_selected_plan() {
    let mut pop = Population {
        persons: vec![person(
            3,
            vec![vec![act("home", Some(1)), act("work", Some(2)), act("home", None)]],
            Some(0),
        )],
    };
    let reference = Population {
        persons: vec![person(
            3,
            vec![
                vec![act("home", Some(900)), act("work", Some(901))],
                vec![
                    act("home", None),
                    act("work", Some(50)),
                    act("home", Some(60)),
                    act("work", Some(70)),
                ],
            ],
            Some(1),
        )],
    };
    replace_activity_times(&mut pop, reference);
    let acts = &pop.persons[0].plans[0].acts;
    assert_eq!(acts[0].end_time, Some(60));
    assert_eq!(acts[1].end_time, Some(50));
    assert_eq!(acts[2].end_time, None);
}

#[test]
fn reference_without_selected_plan_is_not_read_for_untimed_activities() {
    let mut pop = Population { persons: vec![person(4, vec![vec![act("home", None)]], None)] };
    let reference = Population { persons: vec![person(4, vec![], None)] };
    replace_activity_times(&mut pop, reference);
    assert_eq!(pop.persons[0].plans[0].acts[0].end_time, None);
}

#[test]
fn replacing_twice_gives_the_same_times() {
    let mut pop = Population { persons: vec![commuter(1, 100), commuter(2, 200)] };
    replace_activity_times(&mut pop, Population { persons: vec![commuter(1, 11), commuter(2, 22)] });
    replace_activity_times(&mut pop, Population { persons: vec![commuter(1, 11), commuter(2, 22)] });
    assert_eq!(pop.persons[0].plans[0].acts[0].end_time, Some(11));
    assert_eq!(pop.persons[1].plans[0].acts[0].end_time, Some(22));
}

#[test]
fn reference_must_cover_every_timed_activity() {
    let pop = Population { persons: vec![commuter(1, 100), commuter(2, 200)] };
    assert!(reference_covers_population(&pop, &Population { persons: vec![commuter(2, 5)] }));
    assert!(reference_covers_population(&pop, &Population { persons: vec![] }));
    let no_selected = Population { persons: vec![person(1, vec![vec![act("home", Some(1))]], None)] };
    assert!(!reference_covers_population(&pop, &no_selected));
    let other_type = Population { persons: vec![person(2, vec![vec![act("shop", Some(1))]], Some(0))] };
    assert!(!reference_covers_population(&pop, &other_type));
    let untimed = Population { persons: vec![person(2, vec![vec![act("home", None)]], Some(0))] };
    assert!(!reference_covers_population(&pop, &untimed));
    let idle = Population { persons: vec![person(7, vec![vec![act("home", None)]], None)] };
    assert!(reference_covers_population(&idle, &Population { persons: vec![person(7, vec![], None)] }));
}
