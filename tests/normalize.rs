use backend::hyper_stat::{filter_allocated, hyper_stat_response, HyperStat, UserHyperStatData};
use backend::set_effect::{filter_active, set_effect_response, SetEffect, SetEffectInfo, SetEffectInfoFull};
use backend::fetch::FetchError;

fn stat(kind: &str, point: Option<u32>, level: u32, increase: Option<&str>) -> HyperStat {
    HyperStat {
        stat_type: kind.to_string(),
        stat_point: point,
        stat_level: level,
        stat_increase: increase.map(|s| s.to_string()),
    }
}

fn tier(count: i8, text: &str) -> SetEffectInfoFull {
    SetEffectInfoFull { set_count: count, set_option: text.to_string() }
}

fn set(name: &str, worn: i8, tiers: Vec<SetEffectInfoFull>) -> SetEffectInfo {
    SetEffectInfo { set_name: name.to_string(), total_set_count: worn, set_option_full: tiers }
}

fn describe_stats(v: &[HyperStat]) -> Vec<(String, Option<u32>, u32, Option<String>)> {
    v.iter()
        .map(|s| (s.stat_type.clone(), s.stat_point, s.stat_level, s.stat_increase.clone()))
        .collect()
}

fn describe_sets(v: &[SetEffectInfo]) -> Vec<(String, i8, Vec<(i8, String)>)> {
    v.iter()
        .map(|s| {
            (
                s.set_name.clone(),
                s.total_set_count,
                s.set_option_full.iter().map(|t| (t.set_count, t.set_option.clone())).collect(),
            )
        })
        .collect()
}

#[test]
fn hyper_stat_entry_without_point_is_dropped() {
    let out = filter_allocated(vec![stat("STR", None, 0, Some("x")), stat("DEX", Some(3), 3, Some("y"))]);
    assert_eq!(describe_stats(&out), vec![("DEX".to_string(), Some(3), 3, Some("y".to_string()))]);
}

#[test]
fn hyper_stat_entry_without_increase_is_dropped() {
    let out = filter_allocated(vec![
        stat("A", Some(1), 1, None),
        stat("B", Some(2), 2, Some("b")),
        stat("C", None, 0, None),
        stat("D", Some(5), 4, Some("d")),
    ]);
    assert_eq!(
        describe_stats(&out),
        vec![
            ("B".to_string(), Some(2), 2, Some("b".to_string())),
            ("D".to_string(), Some(5), 4, Some("d".to_string())),
        ]
    );
}

#[test]
fn hyper_stat_empty_preset_stays_empty() {
    assert!(filter_allocated(Vec::new()).is_empty());
}

fn sample_hyper() -> UserHyperStatData {
    UserHyperStatData {
        hyper_stat_preset_1: vec![stat("STR", None, 0, Some("x")), stat("DEX", Some(3), 3, Some("y"))],
        hyper_stat_preset_1_remain_point: 7,
        hyper_stat_preset_2: vec![stat("LUK", Some(1), 1, None)],
        hyper_stat_preset_2_remain_point: 0,
        hyper_stat_preset_3: vec![stat("INT", Some(4), 2, Some("z"))],
        hyper_stat_preset_3_remain_point: -1,
    }
}

#[test]
fn hyper_stat_presets_filtered_independently() {
    let out = sample_hyper().normalized();
    assert_eq!(describe_stats(&out.hyper_stat_preset_1), vec![("DEX".to_string(), Some(3), 3, Some("y".to_string()))]);
    assert!(out.hyper_stat_preset_2.is_empty());
    assert_eq!(describe_stats(&out.hyper_stat_preset_3), vec![("INT".to_string(), Some(4), 2, Some("z".to_string()))]);
    assert_eq!(out.hyper_stat_preset_1_remain_point, 7);
    assert_eq!(out.hyper_stat_preset_2_remain_point, 0);
    assert_eq!(out.hyper_stat_preset_3_remain_point, -1);
}

#[test]
fn hyper_stat_normalization_is_idempotent() {
    let once = sample_hyper().normalized();
    let first = describe_stats(&once.hyper_stat_preset_1);
    let twice = once.normalized();
    assert_eq!(describe_stats(&twice.hyper_stat_preset_1), first);
    let again = sample_hyper().normalized();
    assert_eq!(describe_stats(&again.hyper_stat_preset_1), first);
}

#[test]
fn set_effect_keeps_reached_tiers() {
    let out = filter_active(3, vec![tier(2, "two"), tier(4, "four")]);
    assert_eq!(out.len(), 1);
    assert_eq!(out[0].set_count, 2);
    assert_eq!(out[0].set_option, "two");
}

#[test]
fn set_effect_threshold_equal_to_count_is_kept() {
    let out = filter_active(3, vec![tier(3, "three")]);
    assert_eq!(out.len(), 1);
}

fn sample_sets() -> SetEffect {
    SetEffect {
        set_effect: vec![
            set("Root", 3, vec![tier(2, "two"), tier(4, "four")]),
            set("Boss", 1, vec![tier(2, "b2"), tier(3, "b3")]),
            set("Empty", 5, Vec::new()),
            set("Abso", 7, vec![tier(2, "a2"), tier(3, "a3"), tier(7, "a7")]),
        ],
    }
}

#[test]
fn set_effect_sets_without_active_tier_are_dropped() {
    let out = sample_sets().normalized();
    assert_eq!(
        describe_sets(&out.set_effect),
        vec![
            ("Root".to_string(), 3, vec![(2, "two".to_string())]),
            (
                "Abso".to_string(),
                7,
                vec![(2, "a2".to_string()), (3, "a3".to_string()), (7, "a7".to_string())]
            ),
        ]
    );
}

#[test]
fn set_effect_normalization_is_idempotent() {
    let once = sample_sets().normalized();
    let first = describe_sets(&once.set_effect);
    assert_eq!(describe_sets(&once.normalized().set_effect), first);
    assert_eq!(describe_sets(&sample_sets().normalized().set_effect), first);
}

#[test]
fn set_effect_empty_list() {
    assert!(SetEffect { set_effect: Vec::new() }.normalized().set_effect.is_empty());
}

#[test]
fn hyper_stat_response_success_is_normalized() {
    let out = hyper_stat_response(Some(200), Some(sample_hyper())).ok().unwrap();
    assert_eq!(out.hyper_stat_preset_1.len(), 1);
    assert_eq!(out.hyper_stat_preset_1_remain_point, 7);
}

#[test]
fn hyper_stat_response_failures_are_reported() {
    assert_eq!(hyper_stat_response(Some(404), Some(sample_hyper())).err(), Some(FetchError::Rejected(404)));
    assert_eq!(hyper_stat_response(None, None).err(), Some(FetchError::Unreachable));
    assert_eq!(hyper_stat_response(Some(200), None).err(), Some(FetchError::Malformed));
}

#[test]
fn set_effect_response_cases() {
    let out = set_effect_response(Some(204), Some(sample_sets())).ok().unwrap();
    assert_eq!(out.set_effect.len(), 2);
    assert_eq!(set_effect_response(Some(500), None).err(), Some(FetchError::Rejected(500)));
    assert_eq!(set_effect_response(Some(299), None).err(), Some(FetchError::Malformed));
    assert_eq!(set_effect_response(None, Some(sample_sets())).err(), Some(FetchError::Unreachable));
}
