use bevy::time::{Timer, TimerMode};
use game_basics::hello::{add_people, greet_people, greetings_on_tick, update_people};
use std::time::Duration;

fn names(list: &[&str]) -> Vec<String> {
    list.iter().map(|s| s.to_string()).collect()
}

#[test]
fn three_people_are_there_from_the_start() {
    assert_eq!(add_people(), names(&["Elaina Proctor", "Renzo Hume", "Zayna Nieves"]));
}

#[test]
fn elaina_proctor_gets_her_new_name() {
    let mut people = add_people();
    assert_eq!(update_people(&mut people), Some(0));
    assert_eq!(people, names(&["Elaina Hume 태상", "Renzo Hume", "Zayna Nieves"]));
}

#[test]
fn a_second_update_finds_nobody() {
    let mut people = add_people();
    update_people(&mut people);
    assert_eq!(update_people(&mut people), None);
    assert_eq!(people, names(&["Elaina Hume 태상", "Renzo Hume", "Zayna Nieves"]));
}

#[test]
fn only_the_first_of_that_name_is_renamed() {
    let mut people = names(&["Renzo Hume", "Elaina Proctor", "Zayna Nieves", "Elaina Proctor"]);
    assert_eq!(update_people(&mut people), Some(1));
    assert_eq!(
        people,
        names(&["Renzo Hume", "Elaina Hume 태상", "Zayna Nieves", "Elaina Proctor"])
    );
}

#[test]
fn nobody_is_renamed_where_nobody_has_the_name() {
    let mut people = names(&["Renzo Hume", "elaina proctor", "Elaina Proctor ", ""]);
    assert_eq!(update_people(&mut people), None);
    assert_eq!(people, names(&["Renzo Hume", "elaina proctor", "Elaina Proctor ", ""]));
    let mut empty: Vec<String> = Vec::new();
    assert_eq!(update_people(&mut empty), None);
    assert!(empty.is_empty());
}

#[test]
fn everybody_is_greeted_when_the_timer_has_finished() {
    let people = add_people();
    assert_eq!(
        greetings_on_tick(true, &people),
        names(&["hello Elaina Proctor!", "hello Renzo Hume!", "hello Zayna Nieves!"])
    );
    assert_eq!(greetings_on_tick(true, &names(&[""])), names(&["hello !"]));
    assert!(greetings_on_tick(true, &Vec::new()).is_empty());
}

#[test]
fn nobody_is_greeted_while_the_timer_runs() {
    assert!(greetings_on_tick(false, &add_people()).is_empty());
}

#[test]
fn the_timer_decides_when_people_are_greeted() {
    let people = add_people();
    let all = names(&["hello Elaina Proctor!", "hello Renzo Hume!", "hello Zayna Nieves!"]);
    let mut timer = Timer::from_seconds(2.0, TimerMode::Repeating);
    let second = Duration::from_secs(1);
    assert!(greet_people(second, &mut timer, &people).is_empty());
    assert_eq!(timer.elapsed(), second);
    assert_eq!(greet_people(second, &mut timer, &people), all);
    assert!(greet_people(second, &mut timer, &people).is_empty());
    assert_eq!(greet_people(second, &mut timer, &people), all);
    assert_eq!(greet_people(Duration::from_secs(5), &mut timer, &people), all);
    assert_eq!(timer.elapsed(), second);
    assert!(greet_people(Duration::ZERO, &mut timer, &people).is_empty());
}

#[test]
fn a_timer_that_runs_once_greets_once() {
    let people = names(&["Renzo Hume"]);
    let mut timer = Timer::new(Duration::from_millis(500), TimerMode::Once);
    assert!(greet_people(Duration::from_millis(499), &mut timer, &people).is_empty());
    assert_eq!(
        greet_people(Duration::from_millis(1), &mut timer, &people),
        names(&["hello Renzo Hume!"])
    );
    assert!(greet_people(Duration::from_secs(1), &mut timer, &people).is_empty());
}

#[test]
fn the_timer_is_ticked_once_whether_or_not_anyone_is_greeted() {
    let people = add_people();
    let all = names(&["hello Elaina Proctor!", "hello Renzo Hume!", "hello Zayna Nieves!"]);
    let mut timer = Timer::new(Duration::from_millis(700), TimerMode::Repeating);
    let mut reference = timer.clone();
    for millis in [100u64, 300, 299, 1, 0, 700, 2500, 10, 689] {
        let delta = Duration::from_millis(millis);
        let lines = greet_people(delta, &mut timer, &people);
        reference.tick(delta);
        assert_eq!(timer, reference);
        if reference.just_finished() {
            assert_eq!(lines, all);
        } else {
            assert!(lines.is_empty());
        }
    }
}

#[test]
fn a_paused_timer_greets_nobody() {
    let people = add_people();
    let mut timer = Timer::new(Duration::from_secs(1), TimerMode::Repeating);
    timer.pause();
    assert!(greet_people(Duration::from_secs(5), &mut timer, &people).is_empty());
    assert_eq!(timer.elapsed(), Duration::ZERO);
}
