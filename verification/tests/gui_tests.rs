use settings_lib::dropdown::{dropdown_click, dropdown_selected, dropdown_state, dropdown_title, DropdownButton, DropdownData};
use settings_lib::gui::{
    check_party, chosen_end_time, chosen_start_time, end_time_index, end_time_options,
    get_image_id_by_name, image_option_index, image_options, image_text_too_short,
    initial_party, large_key_from_choice, party_texts, plan_save, preview_image_id,
    small_key_from_choice, start_time_index, start_time_number, start_time_options,
    text_missing, StatusMessage, Tone,
};
use settings_lib::req::DiscordAsset;
use settings_lib::{EndTimestampTypes, Party, SettingsJsonTrait, StartTimestampTypes};

fn assets() -> Vec<DiscordAsset> {
    vec![
        DiscordAsset { id: "111".to_string(), asset_type: 1, name: "logo".to_string() },
        DiscordAsset { id: "222".to_string(), asset_type: 1, name: "icon".to_string() },
        DiscordAsset { id: "333".to_string(), asset_type: 2, name: "logo".to_string() },
    ]
}

#[test]
fn missing_texts() {
    assert!(text_missing("   "));
    assert!(!text_missing(" x"));
}

#[test]
fn party_inputs_are_taken_or_rejected() {
    let cur = Party { size_min: 2, size_max: 5 };
    let c = check_party(cur, "3", "8", true);
    assert_eq!((c.party.size_min, c.party.size_max), (3, 8));
    assert!(!c.has_errors());
    let c = check_party(cur, "3x", "1", true);
    assert!(c.min_invalid);
    assert_eq!(c.party.size_min, 2);
    assert!(c.max_below_min);
    let c = check_party(cur, "3x", "", false);
    assert!(!c.min_invalid);
    assert_eq!((c.party.size_min, c.party.size_max), (0, 0));
    let (a, b) = party_texts(cur);
    let c = check_party(cur, &a, &b, true);
    assert!(c.party == cur);
}

#[test]
fn short_image_texts() {
    assert!(image_text_too_short(" ab ", true));
    assert!(!image_text_too_short(" ab ", false));
    assert!(!image_text_too_short("abc", true));
}

#[test]
fn image_menu_lists_none_then_assets() {
    let o = image_options(&assets());
    assert_eq!(o.len(), 4);
    assert_eq!(o[0].name, "None");
    assert_eq!(o[0].value, "none");
    assert_eq!(o[2].name, "icon");
    assert_eq!(image_option_index(&o, "icon", false), 2);
    assert_eq!(image_option_index(&o, "logo", true), 1);
    assert_eq!(image_option_index(&o, " ", false), 0);
    assert_eq!(image_option_index(&o, "none", false), 4);
    assert_eq!(image_option_index(&o, "none", true), 0);
}

#[test]
fn keys_from_choices() {
    let none = DropdownButton { name: "None".to_string(), value: "none".to_string() };
    assert_eq!(large_key_from_choice(Some(none.clone())), "none");
    assert_eq!(small_key_from_choice(Some(none)), "");
    let logo = DropdownButton { name: "logo".to_string(), value: "logo".to_string() };
    assert_eq!(small_key_from_choice(Some(logo)), "logo");
    assert_eq!(large_key_from_choice(None), "");
}

#[test]
fn time_menus() {
    let so = start_time_options();
    assert_eq!(so.len(), 4);
    assert_eq!(so[1].name, "launch time");
    assert_eq!(start_time_index(&StartTimestampTypes::Number(9)), 3);
    assert_eq!(end_time_options()[1].name, "day end");
    assert_eq!(end_time_index(&EndTimestampTypes::DayEnd), 1);
    assert_eq!(start_time_number(&StartTimestampTypes::Number(9)), 9);
    assert!(chosen_start_time(None, "1") == StartTimestampTypes::Unset);
    assert!(chosen_start_time(Some(StartTimestampTypes::Number(0)), "77") == StartTimestampTypes::Number(77));
    assert!(chosen_start_time(Some(StartTimestampTypes::Number(0)), "x") == StartTimestampTypes::Number(0));
    assert!(chosen_end_time(Some(EndTimestampTypes::DayEnd), "5") == EndTimestampTypes::DayEnd);
}

#[test]
fn party_starts_on_only_when_stored() {
    assert_eq!(initial_party(None).0, false);
    assert!(initial_party(None).1 == Party { size_min: 0, size_max: 0 });
    assert!(initial_party(Some(Party { size_min: 1, size_max: 4 })).0);
}

#[test]
fn image_ids_by_name() {
    assert_eq!(get_image_id_by_name("logo", &assets()), "111");
    assert_eq!(get_image_id_by_name("icon", &assets()), "222");
    assert_eq!(get_image_id_by_name("nope", &assets()), "-1");
    assert_eq!(preview_image_id(&Some("9".to_string()), "logo", &assets()), "9");
    assert_eq!(preview_image_id(&None, "icon", &assets()), "222");
}

#[test]
fn saving() {
    let s = settings_lib::SettingsJson::new_default().unwrap();
    assert!(matches!(plan_save(true, &s, true), Err(StatusMessage::InvalidFields)));
    let on = plan_save(false, &s, true).ok().unwrap();
    assert!(on.activity_details.party == Some(Party { size_min: 2, size_max: 5 }));
    assert_eq!(on.activity_details.state, s.activity_details.state);
    let off = plan_save(false, &s, false).ok().unwrap();
    assert!(off.activity_details.party.is_none());
    assert_eq!(off.activity_details.buttons.unwrap().len(), 1);
    assert!(s.activity_details.party.is_some());
}

#[test]
fn status_texts() {
    assert_eq!(StatusMessage::SaveFailed("disk full".to_string()).text(), "Something went wrong while saving. disk full");
    assert_eq!(StatusMessage::Stopped.text(), "Stopped activity process.");
    assert!(StatusMessage::InvalidFields.tone() == Tone::Warning);
    assert!(StatusMessage::LaunchFailed(String::new()).tone() == Tone::Error);
    assert!(StatusMessage::Launched.tone() == Tone::Plain);
}

#[test]
fn dropdown_remembers_its_choice() {
    let opts = vec![
        DropdownButton { name: "a".to_string(), value: 1u32 },
        DropdownButton { name: "b".to_string(), value: 2u32 },
    ];
    let d = dropdown_state(None, &opts, 1);
    assert_eq!(d.selected.as_ref().unwrap().value, 2);
    assert_eq!(dropdown_title(&d), "b");
    let c = dropdown_click(&opts, 0);
    let kept = dropdown_state(Some(c), &opts, 1);
    assert_eq!(kept.selected.as_ref().unwrap().name, "a");
    let empty: DropdownData<u32> = dropdown_selected(None);
    assert!(empty.selected.is_none());
    assert_eq!(dropdown_title(&empty), "none");
}

#[test]
fn untouched_menus_keep_the_settings() {
    for s in [
        StartTimestampTypes::Unset,
        StartTimestampTypes::LaunchTime,
        StartTimestampTypes::LocalTime,
        StartTimestampTypes::Number(1711929600),
    ] {
        let v = start_time_options()[start_time_index(&s)].value;
        assert!(chosen_start_time(Some(v), &settings_lib::text::u64_to_decimal(start_time_number(&s))) == s);
    }
    for e in [EndTimestampTypes::Unset, EndTimestampTypes::DayEnd, EndTimestampTypes::Number(42)] {
        let v = end_time_options()[end_time_index(&e)].value;
        assert!(chosen_end_time(Some(v), &settings_lib::text::u64_to_decimal(settings_lib::gui::end_time_number(&e))) == e);
    }
}

#[test]
fn untouched_image_menus_keep_the_keys() {
    let o = image_options(&assets());
    let i = image_option_index(&o, "icon", false);
    assert_eq!(large_key_from_choice(Some(o[i].clone())), "icon");
    let j = image_option_index(&o, "logo", true);
    assert_eq!(small_key_from_choice(Some(o[j].clone())), "logo");
}

fn frame_input() -> settings_lib::gui::RpcFrameInput {
    settings_lib::gui::RpcFrameInput {
        state: "Playing".to_string(),
        details: " ".to_string(),
        party_on: true,
        min_text: "3".to_string(),
        max_text: "1".to_string(),
        large_text_enabled: true,
        large_text: "ab".to_string(),
        small_text_enabled: false,
        small_text: String::new(),
        large_choice: Some(DropdownButton { name: "icon".to_string(), value: "icon".to_string() }),
        small_choice: Some(DropdownButton { name: "None".to_string(), value: "none".to_string() }),
        start_choice: Some(StartTimestampTypes::Number(0)),
        start_number_text: "99".to_string(),
        end_choice: None,
        end_number_text: "0".to_string(),
    }
}

#[test]
fn a_frame_applies_the_widgets() {
    let mut s = settings_lib::SettingsJson::new_default().unwrap();
    let r = settings_lib::gui::rpc_page_frame(&mut s, frame_input(), &assets());
    let d = &s.activity_details;
    assert_eq!(d.state, "Playing");
    assert!(r.details_missing && !r.state_missing);
    assert!(d.party == Some(Party { size_min: 3, size_max: 1 }));
    assert!(r.party.max_below_min);
    assert!(r.large_text_short && !r.small_text_short);
    assert!(r.contains_errors);
    assert_eq!(d.assets.large_key, "icon");
    assert_eq!(d.assets.small_key, "");
    assert_eq!(d.assets.large_id.as_deref(), Some("222"));
    assert!(d.start_time == StartTimestampTypes::Number(99));
    assert!(d.end_time == EndTimestampTypes::Unset);
    assert_eq!(s.app_settings.appid, "1221020414004822057");
    assert_eq!(d.buttons.as_ref().unwrap().len(), 1);
}

#[test]
fn the_settings_page_changes_only_the_app_id() {
    let mut s = settings_lib::SettingsJson::new_default().unwrap();
    settings_lib::gui::settings_page_frame(&mut s, "42".to_string());
    assert_eq!(s.app_settings.appid, "42");
    assert_eq!(s.activity_details.state, "Doing Epic Things");
}

#[test]
fn ascii_party_texts_are_judged_by_digits() {
    let cur = Party { size_min: 2, size_max: 5 };
    assert!(check_party(cur, "a", "12", true).min_invalid);
    assert!(!check_party(cur, "", "12", true).min_invalid);
}
