use settings_lib::activity::{activity_assets, activity_party_size, plan_activity};
use settings_lib::timestamp::Timestamps;
use settings_lib::{
    Assets, AutoUpdateStates, Button, ButtonTrait, EndTimestampTypes, Party, SettingsJson,
    SettingsJsonTrait, StartTimestampTypes,
};

#[test]
fn greeting_is_hi() {
    assert_eq!(settings_lib::test(), "hi?");
}

#[test]
fn empty_settings_hold_nothing() {
    let s = SettingsJson::new_empty().unwrap();
    assert_eq!(s.app_settings.appid, "");
    assert!(s.app_settings.auto_update == AutoUpdateStates::No);
    assert_eq!(s.activity_details.state, "");
    assert_eq!(s.activity_details.details, "");
    assert!(s.activity_details.start_time == StartTimestampTypes::Unset);
    assert!(s.activity_details.end_time == EndTimestampTypes::Unset);
    assert!(s.activity_details.party.is_none());
    assert!(s.activity_details.buttons.is_none());
    assert!(s.activity_details.assets.large_id.is_none());
    assert!(!s.activity_details.assets.large_text_enabled);
}

#[test]
fn default_settings_match_the_first_run() {
    let s = SettingsJson::new_default().unwrap();
    assert_eq!(s.app_settings.appid, "1221020414004822057");
    assert_eq!(s.activity_details.state, "Doing Epic Things");
    assert_eq!(s.activity_details.details, "some other epic thing.");
    assert!(s.activity_details.start_time == StartTimestampTypes::LocalTime);
    assert!(s.activity_details.end_time == EndTimestampTypes::Unset);
    assert!(s.activity_details.party == Some(Party { size_min: 2, size_max: 5 }));
    let b = s.activity_details.buttons.unwrap();
    assert_eq!(b.len(), 1);
    assert_eq!(b[0].label, "epic button");
    assert_eq!(b[0].url, "about:blank");
}

#[test]
fn buttons_are_converted_in_order() {
    let mut d = SettingsJson::new_empty().unwrap().activity_details;
    assert!(d.to_discord_button_vec().is_empty());
    d.buttons = Some(vec![
        Button { label: "a".to_string(), url: "u1".to_string() },
        Button { label: "b".to_string(), url: "u2".to_string() },
    ]);
    let v = d.to_discord_button_vec();
    assert_eq!(v.len(), 2);
    assert_eq!(v[0].label, "a");
    assert_eq!(v[1].url, "u2");
}

fn assets(large_key: &str, small_key: &str, large_on: bool, small_on: bool) -> Assets {
    Assets {
        large_id: None,
        large_key: large_key.to_string(),
        small_key: small_key.to_string(),
        small_id: None,
        large_text: "big text".to_string(),
        small_text: "small text".to_string(),
        large_text_enabled: large_on,
        small_text_enabled: small_on,
    }
}

#[test]
fn blank_image_keys_show_no_image_or_text() {
    let a = activity_assets(&assets("  ", "", true, true));
    assert!(a.large_image.is_none());
    assert!(a.large_text.is_none());
    assert!(a.small_image.is_none());
    assert!(a.small_text.is_none());
}

#[test]
fn image_text_follows_its_switch() {
    let a = activity_assets(&assets("logo", "icon", true, false));
    assert_eq!(a.large_image.as_deref(), Some("logo"));
    assert_eq!(a.large_text.as_deref(), Some("big text"));
    assert_eq!(a.small_image.as_deref(), Some("icon"));
    assert!(a.small_text.is_none());
}

#[test]
fn party_size_is_min_then_max() {
    assert_eq!(activity_party_size(&Some(Party { size_min: 2, size_max: 5 })), Some((2, 5)));
    assert_eq!(activity_party_size(&None), None);
}

#[test]
fn plan_copies_texts_and_timestamps() {
    let s = SettingsJson::new_default().unwrap();
    let p = plan_activity(&s, Timestamps { start: Some(10), end: None });
    assert_eq!(p.state, "Doing Epic Things");
    assert_eq!(p.details, "some other epic thing.");
    assert_eq!(p.timestamps.start, Some(10));
    assert_eq!(p.timestamps.end, None);
    assert_eq!(p.party_size, Some((2, 5)));
    assert_eq!(p.buttons.len(), 1);
    assert!(p.assets.large_image.is_none());
}
