use engine::common::{GameTimer, Lane, Team, MAX_NANOS};
use engine::ecs::spawners::wave::{has_siege, timer_to_wave_spawn, wave_number};

fn secs(s: u64) -> GameTimer {
    GameTimer::from_secs(s)
}

#[test]
fn timer_to_wave() {
    let r = timer_to_wave_spawn(secs(10), secs(50));
    println!("{:?}", r);
    assert_eq!(r, vec![]);

    let r = timer_to_wave_spawn(secs(10), GameTimer::first_spawn());
    println!("{:?}", r);
    assert_eq!(r, vec![]);

    let r = timer_to_wave_spawn(GameTimer::first_spawn(), GameTimer::first_spawn());
    println!("{:?}", r);
    assert_eq!(r, vec![]);

    let r = timer_to_wave_spawn(
        GameTimer::first_spawn(),
        GameTimer::first_spawn() + GameTimer::wave_period(),
    );
    println!("{:?}", r);
    assert_eq!(r, vec![secs(65)]);

    let r = timer_to_wave_spawn(
        GameTimer::first_spawn() + secs(1),
        GameTimer::first_spawn() + secs(2),
    );
    println!("{:?}", r);
    assert_eq!(r, vec![]);
}

#[test]
fn spawn_times_every_thirty_seconds() {
    let r = timer_to_wave_spawn(GameTimer::game_start(), secs(200));
    assert_eq!(r, vec![secs(65), secs(95), secs(125), secs(155), secs(185)]);
    let r = timer_to_wave_spawn(secs(95), secs(126));
    assert_eq!(r, vec![secs(95), secs(125)]);
    let r = timer_to_wave_spawn(secs(95), secs(125));
    assert_eq!(r, vec![secs(95)]);
}

#[test]
fn spawn_times_off_schedule_start_gives_none() {
    // A clock that stopped between two spawns finds no spawn time afterwards.
    let r = timer_to_wave_spawn(secs(66), secs(200));
    assert_eq!(r, vec![]);
}

#[test]
fn spawn_times_split_over_steps() {
    let whole = timer_to_wave_spawn(secs(0), secs(300));
    let mut parts = timer_to_wave_spawn(secs(0), secs(125));
    parts.extend(timer_to_wave_spawn(secs(125), secs(300)));
    assert_eq!(whole, parts);

    let mut parts = timer_to_wave_spawn(secs(10), secs(40));
    parts.extend(timer_to_wave_spawn(secs(40), secs(300)));
    assert_eq!(whole, parts);
}

#[test]
fn spawn_times_with_subsecond_clock() {
    let from = GameTimer::new(95, 500_000_000);
    let to = GameTimer::new(156, 1);
    assert_eq!(timer_to_wave_spawn(from, to), vec![secs(95), secs(125), secs(155)]);
}

#[test]
fn wave_numbers() {
    assert_eq!(wave_number(GameTimer::game_start()), 1);
    assert_eq!(wave_number(secs(65)), 1);
    assert_eq!(wave_number(secs(94)), 1);
    assert_eq!(wave_number(secs(95)), 2);
    assert_eq!(wave_number(secs(125)), 3);
    assert_eq!(wave_number(secs(65 + 30 * 10)), 11);
}

#[test]
fn siege_schedule() {
    // before fifteen minutes: every third wave
    assert!(!has_siege(secs(65)));
    assert!(!has_siege(secs(95)));
    assert!(has_siege(secs(125)));
    assert!(has_siege(secs(215)));
    assert!(!has_siege(secs(245)));
    // at exactly fifteen minutes none of the rules applies
    assert!(!has_siege(secs(900)));
    // between fifteen and twenty-five minutes: every second wave
    assert!(has_siege(secs(905)));
    assert!(!has_siege(secs(935)));
    assert!(has_siege(secs(965)));
    // after twenty-five minutes: every wave
    assert!(has_siege(secs(1505)));
    assert!(has_siege(secs(1535)));
}

#[test]
fn timer_constants() {
    assert_eq!(GameTimer::game_start().as_secs(), 0);
    assert_eq!(GameTimer::inhibitor_respawn().as_secs(), 300);
    assert_eq!(GameTimer::first_spawn().as_secs(), 65);
    assert_eq!(GameTimer::wave_period().as_secs(), 30);
    assert_eq!(GameTimer::minutes_14().as_secs(), 840);
    assert_eq!(GameTimer::minutes_15().as_secs(), 900);
    assert_eq!(GameTimer::minutes_25().as_secs(), 1500);
    assert_eq!(GameTimer::wave_travel().as_secs(), 25);
}

#[test]
fn timer_parts() {
    let t = GameTimer::new(3, 2_500_000_000);
    assert_eq!(t.as_secs(), 5);
    assert_eq!(t.subsec_nanos(), 500_000_000);
    assert_eq!(t.as_nanos(), 5_500_000_000);
    assert_eq!(secs(7).as_nanos(), 7_000_000_000);
}

#[test]
fn timer_arithmetic_saturates() {
    assert_eq!(secs(10) + secs(5), secs(15));
    assert_eq!(secs(10) - secs(5), secs(5));
    assert_eq!(secs(5) - secs(10), GameTimer::game_start());
    let top = GameTimer::new(u64::MAX, 999_999_999);
    assert_eq!(top.as_nanos(), MAX_NANOS);
    assert_eq!(top + secs(1), top);
    assert_eq!(top.saturating_add(top), top);
    assert_eq!(secs(3).saturating_sub(secs(4)), GameTimer::game_start());
    // adding then taking away gives back the clock
    assert_eq!((secs(40) + secs(25)) - secs(25), secs(40));
    assert_eq!((secs(40) - secs(25)) + secs(25), secs(40));
}

#[test]
fn timer_comparisons() {
    assert!(secs(1).lt(&secs(2)));
    assert!(!secs(2).lt(&secs(2)));
    assert!(secs(2).le(&secs(2)));
    assert!(!secs(3).le(&secs(2)));
    assert_eq!(secs(3).max(secs(9)), secs(9));
    assert_eq!(secs(9).max(secs(3)), secs(9));
}

#[test]
fn teams_and_lanes() {
    assert_eq!(Team::Red.opposite(), Team::Blue);
    assert_eq!(Team::Blue.opposite(), Team::Red);
    assert_eq!(Team::Red.opposite().opposite(), Team::Red);
    assert_eq!(Lane::Top.index(), 0);
    assert_eq!(Lane::Mid.index(), 1);
    assert_eq!(Lane::Bot.index(), 2);
    assert_eq!(Lane::Nexus.index(), 3);
}
