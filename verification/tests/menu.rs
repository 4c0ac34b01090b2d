use workshop::driver::{demo_schedule, first_step, next_step, progress_values, DemoStep};
use workshop::menu::{parse_choice, MenuChoice};

fn choice_of_line(line: &str) -> MenuChoice {
    parse_choice(&line.as_bytes().to_vec())
}

#[test]
fn threads_selects_the_threads_path() {
    assert_eq!(choice_of_line("threads"), MenuChoice::Threads);
    assert_eq!(choice_of_line("threads\n"), MenuChoice::Threads);
}

#[test]
fn choice_is_case_insensitive_and_trimmed() {
    assert_eq!(choice_of_line("  THREADS \r\n"), MenuChoice::Threads);
    assert_eq!(choice_of_line("\tLifeTimes  \n"), MenuChoice::Lifetimes);
}

#[test]
fn lifetimes_selects_the_lifetimes_path() {
    assert_eq!(choice_of_line("lifetimes"), MenuChoice::Lifetimes);
}

#[test]
fn anything_else_is_invalid() {
    assert_eq!(choice_of_line("xyz"), MenuChoice::Invalid);
    assert_eq!(choice_of_line(""), MenuChoice::Invalid);
    assert_eq!(choice_of_line("   \n"), MenuChoice::Invalid);
    assert_eq!(choice_of_line("threads please"), MenuChoice::Invalid);
}

#[test]
fn driver_schedule_runs_all_four_demos_in_order() {
    let schedule = demo_schedule();
    assert_eq!(
        schedule,
        vec![
            DemoStep::PlainSpawnJoin,
            DemoStep::ReadOnlyShare,
            DemoStep::MutexCounter,
            DemoStep::MutexCollection,
        ]
    );
}

#[test]
fn driver_steps_chain_through_every_demo() {
    let mut step = first_step();
    let mut visited: Vec<DemoStep> = vec![step];
    while let Some(next) = next_step(step) {
        visited.push(next);
        step = next;
    }
    assert_eq!(visited, demo_schedule());
}

#[test]
fn progress_values_count_through_the_bounds() {
    assert_eq!(progress_values(1, 10), vec![1, 2, 3, 4, 5, 6, 7, 8, 9]);
    assert_eq!(progress_values(1, 5), vec![1, 2, 3, 4]);
    assert_eq!(progress_values(3, 3), Vec::<u64>::new());
}
