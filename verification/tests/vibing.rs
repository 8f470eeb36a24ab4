use vibing::audio_recommender::{get_most_matched_from, recommend};
use vibing::audio_services::{PlaybackSession, State};
use vibing::data_collector::{Season, TimeData, TimePeriod, Weather, WeatherData};
use vibing::database::{TrackHeader, Vibe};

fn track(id: i64, path: &str, vibes: &[(&str, &str)]) -> TrackHeader {
    TrackHeader {
        id,
        path: path.to_string(),
        vibes: vibes
            .iter()
            .map(|(name, group)| Vibe {
                name: name.to_string(),
                group_name: group.to_string(),
            })
            .collect(),
    }
}

#[test]
fn dawn_covers_five_to_seven_inclusive() {
    assert_eq!(TimeData::classify_time(300), TimePeriod::Dawn(300));
    assert_eq!(TimeData::classify_time(360), TimePeriod::Dawn(360));
    // 07:00 sits in both the dawn and the morning range; dawn wins.
    assert_eq!(TimeData::classify_time(420), TimePeriod::Dawn(420));
    assert_eq!(TimeData::classify_time(421), TimePeriod::Morning(421));
}

#[test]
fn day_parts_partition_the_clock() {
    assert_eq!(TimeData::classify_time(0), TimePeriod::Night(0));
    assert_eq!(TimeData::classify_time(299), TimePeriod::Night(299));
    assert_eq!(TimeData::classify_time(600), TimePeriod::Morning(600));
    assert_eq!(TimeData::classify_time(700), TimePeriod::Noon(700));
    assert_eq!(TimeData::classify_time(900), TimePeriod::Afternoon(900));
    assert_eq!(TimeData::classify_time(1100), TimePeriod::Dusk(1100));
    assert_eq!(TimeData::classify_time(1200), TimePeriod::Evening(1200));
    assert_eq!(TimeData::classify_time(1350), TimePeriod::Night(1350));
}

#[test]
fn every_month_lands_in_a_season() {
    assert_eq!(TimeData::classify_season(3), Season::Spring(3));
    assert_eq!(TimeData::classify_season(5), Season::Spring(5));
    assert_eq!(TimeData::classify_season(6), Season::Summer(6));
    assert_eq!(TimeData::classify_season(8), Season::Summer(8));
    assert_eq!(TimeData::classify_season(9), Season::Autumn(9));
    assert_eq!(TimeData::classify_season(11), Season::Autumn(11));
    assert_eq!(TimeData::classify_season(12), Season::Winter(12));
    assert_eq!(TimeData::classify_season(1), Season::Winter(1));
    assert_eq!(TimeData::classify_season(2), Season::Winter(2));
}

#[test]
fn blizzard_is_stormy_and_unmatched_is_unknown() {
    assert_eq!(WeatherData::classify_weather("Blizzard", 31), Weather::Stormy(31));
    assert_eq!(
        WeatherData::classify_weather("made-up-string", 31),
        Weather::Unknown(31)
    );
    assert_eq!(
        WeatherData::classify_weather("made-up-string", -40),
        Weather::Unknown(-40)
    );
}

#[test]
fn weather_table_buckets() {
    assert_eq!(WeatherData::classify_weather("Sunny", 250), Weather::Sunny(250));
    assert_eq!(WeatherData::classify_weather("Partly cloudy", 10), Weather::Cloudy(10));
    assert_eq!(WeatherData::classify_weather("Heavy rain", 10), Weather::Rainy(10));
    assert_eq!(WeatherData::classify_weather("Blowing snow", -20), Weather::Windy(-20));
    assert_eq!(
        WeatherData::classify_weather("Moderate or heavy snow with thunder", -20),
        Weather::Stormy(-20)
    );
    // Matching is by the whole phrase, not by substring.
    assert_eq!(WeatherData::classify_weather("sunny", 250), Weather::Unknown(250));
}

#[test]
fn failed_weather_lookup_degrades_to_unknown() {
    assert_eq!(WeatherData::classify_lookup(None), Weather::Unknown(0));
    assert_eq!(
        WeatherData::classify_lookup(Some(("Sunny".to_string(), 215))),
        Weather::Sunny(215)
    );
}

#[test]
fn recommend_ranks_by_dimension_matches() {
    // Track 1 matches all three dimensions, track 2 one, track 3 two.
    let time = vec![track(1, "a.mp3", &[("dawn", "time")]), track(3, "c.mp3", &[])];
    let season = vec![track(1, "a.mp3", &[]), track(3, "c.mp3", &[])];
    let weather = vec![track(2, "b.mp3", &[("rainy", "weather")]), track(1, "a.mp3", &[])];
    let ranked = recommend(&time, &season, &weather);
    let ids: Vec<i64> = ranked.iter().map(|t| t.id).collect();
    assert_eq!(ids, vec![1, 3, 2]);
}

#[test]
fn recommend_breaks_ties_by_first_encounter() {
    let time = vec![track(7, "g.mp3", &[]), track(5, "e.mp3", &[])];
    let season = vec![track(9, "i.mp3", &[])];
    let weather = vec![];
    let ranked = recommend(&time, &season, &weather);
    let ids: Vec<i64> = ranked.iter().map(|t| t.id).collect();
    assert_eq!(ids, vec![7, 5, 9]);
}

#[test]
fn recommend_is_deterministic() {
    let time = vec![track(1, "a.mp3", &[]), track(2, "b.mp3", &[])];
    let season = vec![track(2, "b.mp3", &[])];
    let weather = vec![track(3, "c.mp3", &[])];
    let first = recommend(&time, &season, &weather);
    let second = recommend(&time, &season, &weather);
    let first_ids: Vec<i64> = first.iter().map(|t| t.id).collect();
    let second_ids: Vec<i64> = second.iter().map(|t| t.id).collect();
    assert_eq!(first_ids, vec![2, 1, 3]);
    assert_eq!(first_ids, second_ids);
}

#[test]
fn recommend_on_empty_dimensions_is_empty() {
    let ranked = recommend(&vec![], &vec![], &vec![]);
    assert!(ranked.is_empty());
}

#[test]
fn recommend_keeps_first_encountered_representative() {
    // The same track id arrives twice with different tag sets; the ranked
    // list carries the copy seen first.
    let time = vec![track(4, "d.mp3", &[("dawn", "time")])];
    let season = vec![track(4, "d.mp3", &[("summer", "season")])];
    let ranked = recommend(&time, &season, &vec![]);
    assert_eq!(ranked.len(), 1);
    assert_eq!(ranked[0].id, 4);
    assert_eq!(ranked[0].vibes.len(), 1);
    assert_eq!(ranked[0].vibes[0].name, "dawn");
}

#[test]
fn most_matched_picks_highest_frequency() {
    let items = vec![10, 20, 20, 30, 20, 10];
    assert_eq!(get_most_matched_from(&items), Some(&20));
    let empty: Vec<i32> = Vec::new();
    assert_eq!(get_most_matched_from(&empty), None);
}

#[test]
fn most_matched_breaks_ties_by_first_seen() {
    let items = vec![5, 6, 6, 5];
    assert_eq!(get_most_matched_from(&items), Some(&5));
}

#[test]
fn fresh_session_is_paused_with_zero_elapsed() {
    let session = PlaybackSession::new();
    assert_eq!(session.get_current_state(false), State::Paused);
    assert_eq!(session.get_elapsed_time(0), 0);
    assert!(!session.is_end(false));
}

#[test]
fn elapsed_time_counts_played_interval() {
    let mut session = PlaybackSession::new();
    session.play(1_000);
    session.pause(3_000);
    assert_eq!(session.get_elapsed_time(3_000), 2_000);
    assert_eq!(session.get_elapsed_time(10_000), 2_000);
}

#[test]
fn pause_gaps_do_not_count() {
    let mut session = PlaybackSession::new();
    session.play(0);
    session.pause(1_000);
    session.play(5_000);
    session.pause(6_000);
    assert_eq!(session.get_elapsed_time(6_000), 2_000);
}

#[test]
fn transport_calls_in_wrong_state_are_no_ops() {
    let mut session = PlaybackSession::new();
    session.pause(500);
    assert_eq!(session.get_elapsed_time(500), 0);
    session.play(1_000);
    session.play(2_000);
    session.pause(3_000);
    assert_eq!(session.get_elapsed_time(3_000), 2_000);
}

#[test]
fn end_is_reported_once_queue_runs_out_while_not_paused() {
    let mut session = PlaybackSession::new();
    assert!(!session.is_end(false));
    // Held paused at the start: an empty queue is not yet the end.
    assert!(!session.is_end(true));
    session.play(0);
    assert!(!session.is_end(false));
    assert!(session.is_end(true));
    assert_eq!(session.get_current_state(true), State::Stopped);
    assert_eq!(session.get_current_state(false), State::Playing);
}

#[test]
fn negative_volume_clamps_to_zero() {
    let mut session = PlaybackSession::new();
    assert_eq!(session.get_volume(), 1_000);
    session.set_volume(-5_000);
    assert_eq!(session.get_volume(), 0);
    session.set_volume(200);
    assert_eq!(session.get_volume(), 200);
}

#[test]
fn track_identity_is_the_id_alone() {
    let a = track(1, "a.mp3", &[("dawn", "time")]);
    let b = track(1, "b.mp3", &[("rainy", "weather")]);
    let c = track(2, "a.mp3", &[("dawn", "time")]);
    assert_eq!(a, b);
    assert_ne!(a, c);
    let copy = a.clone();
    assert_eq!(copy.id, 1);
    assert_eq!(copy.path, "a.mp3");
    assert_eq!(copy.vibes.len(), 1);
    assert_eq!(copy.vibes[0].name, "dawn");
    assert_eq!(copy.vibes[0].group_name, "time");
}

#[test]
fn clock_readings_fall_in_range() {
    let t = TimeData::get_time();
    let minute = match t {
        TimePeriod::Dawn(m)
        | TimePeriod::Morning(m)
        | TimePeriod::Noon(m)
        | TimePeriod::Afternoon(m)
        | TimePeriod::Dusk(m)
        | TimePeriod::Evening(m)
        | TimePeriod::Night(m) => m,
    };
    assert!(minute < 1440);
    assert_eq!(t, TimeData::classify_time(minute));

    let s = TimeData::get_season();
    let month = match s {
        Season::Spring(m) | Season::Summer(m) | Season::Autumn(m) | Season::Winter(m) => m,
    };
    assert!((1..=12).contains(&month));
    assert_eq!(s, TimeData::classify_season(month));
}
