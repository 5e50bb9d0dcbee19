use gl_quad::config::{gl_config_picker, pick_config, ConfigInfo};
use std::cell::Cell;

fn info(supports_transparency: Option<bool>, num_samples: u8) -> ConfigInfo {
    ConfigInfo { supports_transparency, num_samples }
}

#[test]
fn only_config_is_picked() {
    assert_eq!(pick_config(&vec![info(None, 0)]), 0);
}

#[test]
fn most_samples_win_among_opaque_configs() {
    let infos = vec![info(Some(false), 2), info(None, 8), info(Some(false), 4), info(None, 8)];
    assert_eq!(pick_config(&infos), 1);
}

#[test]
fn most_samples_win_among_transparent_configs() {
    let infos = vec![info(Some(true), 0), info(Some(true), 4), info(Some(true), 2)];
    assert_eq!(pick_config(&infos), 1);
}

#[test]
fn first_transparent_config_wins_among_equal_samples() {
    let infos = vec![info(None, 4), info(Some(true), 4), info(Some(true), 4), info(Some(false), 4)];
    assert_eq!(pick_config(&infos), 1);
    assert_eq!(pick_config(&vec![info(None, 4), info(Some(false), 4)]), 0);
}

#[test]
fn transparency_outweighs_samples_of_an_opaque_config_before_it() {
    assert_eq!(pick_config(&vec![info(Some(false), 16), info(Some(true), 0)]), 1);
}

#[test]
fn samples_outweigh_transparency_of_a_config_before_it() {
    assert_eq!(pick_config(&vec![info(Some(true), 0), info(Some(false), 1)]), 1);
}

#[test]
fn transparent_config_with_most_samples_is_kept() {
    let infos = vec![info(None, 8), info(Some(true), 2), info(Some(true), 8), info(Some(true), 4)];
    assert_eq!(pick_config(&infos), 2);
}

#[test]
fn transparency_is_kept_unless_more_samples_follow() {
    let kept = vec![info(None, 8), info(Some(true), 4), info(None, 4), info(Some(false), 2)];
    assert_eq!(pick_config(&kept), 1);
    let lost = vec![info(None, 8), info(Some(true), 4), info(None, 5), info(Some(false), 2)];
    assert_eq!(pick_config(&lost), 2);
}

/// The names of configurations, and what is known of each.
const CONFIGS: [(&str, Option<bool>, u8); 4] = [
    ("plain", Some(false), 8),
    ("clear", Some(true), 2),
    ("smooth", None, 4),
    ("rough", Some(true), 1),
];

fn ask(name: &&str) -> ConfigInfo {
    let (_, supports_transparency, num_samples) =
        CONFIGS.into_iter().find(|config| config.0 == *name).unwrap();
    ConfigInfo { supports_transparency, num_samples }
}

#[test]
fn picker_goes_by_what_each_config_answers() {
    assert_eq!(gl_config_picker(vec!["plain", "clear"], ask), "clear");
    assert_eq!(gl_config_picker(vec!["plain", "smooth"], ask), "plain");
    assert_eq!(gl_config_picker(vec!["clear", "smooth", "rough"], ask), "rough");
    assert_eq!(gl_config_picker(vec!["rough", "clear", "plain", "smooth"], ask), "plain");
}

#[test]
fn only_config_is_not_asked() {
    let unanswered = |_: &String| -> ConfigInfo { panic!("the only configuration was asked") };
    assert_eq!(gl_config_picker(vec!["only".to_string()], unanswered), "only");
}

#[test]
fn each_of_several_configs_is_asked() {
    let asked = Cell::new(0);
    let picked = gl_config_picker(vec![7u8, 9, 8], |samples| {
        asked.set(asked.get() + 1);
        info(None, *samples)
    });
    assert_eq!(picked, 9);
    assert_eq!(asked.get(), 3);
}
