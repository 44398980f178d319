use timezoners::civil::CivilDate;
use timezoners::selector::{Action, Msg, SliderValue, TzSelector};

fn date(year: i32, month: u32, day: u32) -> CivilDate {
    CivilDate { year, month, day }
}

fn selector(index: i32, base: Option<&str>, this: Option<&str>) -> TzSelector {
    TzSelector {
        model: TzSelector::model((index, base.map(|s| s.to_string()), this.map(|s| s.to_string()), date(2021, 6, 15))),
    }
}

fn emitted(actions: &[Action]) -> Vec<String> {
    actions
        .iter()
        .filter_map(|a| match a {
            Action::Emit(Msg::NotifyParentTimezoneSelectChanged(i, z)) => Some(format!("zone {} {}", i, z)),
            Action::Emit(Msg::NotifyParentBaseTzChanged(z)) => Some(format!("base {}", z)),
            Action::Emit(Msg::NotifyParentTzSelectorRemoveClicked(i)) => Some(format!("remove {}", i)),
            Action::Emit(Msg::NotifyParentTimeSelectChanged(v)) => Some(format!("time {}", f64::from_bits(v.bits))),
            _ => None,
        })
        .collect()
}

#[test]
fn model_and_set_index() {
    let mut s = selector(2, Some("UTC"), None);
    assert_eq!(s.model.index, 2);
    assert_eq!(s.model.base_timezone.as_deref(), Some("UTC"));
    s.set_index(5);
    assert_eq!(s.model.index, 5);
    assert_eq!(s.model.base_timezone.as_deref(), Some("UTC"));
}

#[test]
fn picking_a_zone_in_the_first_selector() {
    let mut s = selector(0, Some("UTC"), None);
    let actions = s.update(Msg::LocalTimezoneSelect(Some("Asia/Tokyo".to_string())));
    assert_eq!(s.model.this_timezone.as_deref(), Some("Asia/Tokyo"));
    assert!(matches!(&actions[0], Action::SetStartLabel(t) if t == "09:00 am"));
    assert!(matches!(&actions[1], Action::SetEndLabel(t) if t == "* 08:59 am"));
    assert!(matches!(actions[2], Action::RefreshTimeDisplay));
    assert!(matches!(actions[3], Action::ClearSearch));
    assert_eq!(emitted(&actions), vec!["zone 0 Asia/Tokyo".to_string(), "base Asia/Tokyo".to_string()]);
    assert_eq!(actions.len(), 6);
}

#[test]
fn picking_a_zone_in_another_selector() {
    let mut s = selector(3, Some("UTC"), None);
    let actions = s.update(Msg::LocalTimezoneSelect(Some("Asia/Tokyo".to_string())));
    assert_eq!(emitted(&actions), vec!["zone 3 Asia/Tokyo".to_string()]);
    assert_eq!(actions.len(), 5);
}

#[test]
fn no_active_zone_changes_nothing() {
    let mut s = selector(1, Some("UTC"), Some("Asia/Tokyo"));
    let actions = s.update(Msg::LocalTimezoneSelect(None));
    assert!(actions.is_empty());
    assert_eq!(s.model.this_timezone.as_deref(), Some("Asia/Tokyo"));
}

#[test]
fn without_base_zone_labels_stay() {
    let mut s = selector(1, None, None);
    let actions = s.update(Msg::LocalTimezoneSelect(Some("Asia/Tokyo".to_string())));
    assert!(matches!(actions[0], Action::RefreshTimeDisplay));
    assert_eq!(actions.len(), 3);
}

#[test]
fn parent_changes_base_and_date() {
    let mut s = selector(1, None, Some("Asia/Tokyo"));
    let actions = s.update(Msg::FromParentBaseTimezoneChanged(Some("UTC".to_string())));
    assert_eq!(s.model.base_timezone.as_deref(), Some("UTC"));
    assert!(matches!(&actions[0], Action::SetStartLabel(t) if t == "09:00 am"));
    assert!(matches!(actions[2], Action::RefreshTimeDisplay));
    let actions = s.update(Msg::FromParentDateChanged(date(2021, 12, 31)));
    assert_eq!(s.model.for_date, date(2021, 12, 31));
    assert!(matches!(&actions[1], Action::SetEndLabel(t) if t == "* 08:59 am"));
    assert_eq!(actions.len(), 3);
}

#[test]
fn slider_messages() {
    let mut s = selector(1, Some("UTC"), Some("Asia/Tokyo"));
    let twelve = SliderValue { bits: 12.0f64.to_bits() };
    let actions = s.update(Msg::LocalTimeSelect(twelve));
    assert_eq!(emitted(&actions), vec!["time 12".to_string()]);
    assert!(matches!(actions[1], Action::RefreshTimeDisplay));
    let forty_and_a_half = SliderValue { bits: 40.5f64.to_bits() };
    let actions = s.update(Msg::FromParentBaseTimeSelectChanged(forty_and_a_half));
    assert!(matches!(actions[0], Action::SetSlider(v) if f64::from_bits(v.bits) == 40.5));
    assert!(matches!(actions[1], Action::RefreshTimeDisplay));
}

#[test]
fn search_messages() {
    let mut s = selector(1, None, None);
    assert!(matches!(s.update(Msg::SearchContentsChange)[..], [Action::RefilterZones]));
    assert!(matches!(s.update(Msg::SearchKeyReleased(Some("Return".to_string())))[..], [Action::PopupZoneList]));
    assert!(s.update(Msg::SearchKeyReleased(Some("a".to_string()))).is_empty());
    assert!(s.update(Msg::SearchKeyReleased(None)).is_empty());
    assert!(matches!(s.update(Msg::SearchLostFocus("ber".to_string()))[..], [Action::PopupZoneList]));
    assert!(s.update(Msg::SearchLostFocus(String::new())).is_empty());
}

#[test]
fn remove_and_parent_notices() {
    let mut s = selector(4, Some("UTC"), Some("Asia/Tokyo"));
    assert_eq!(emitted(&s.update(Msg::RemoveTz)), vec!["remove 4".to_string()]);
    assert!(s.update(Msg::NotifyParentTzSelectorRemoveClicked(4)).is_empty());
    assert!(s.update(Msg::NotifyParentTimeSelectChanged(SliderValue { bits: 3.0f64.to_bits() })).is_empty());
    assert!(s.update(Msg::NotifyParentBaseTzChanged("UTC".to_string())).is_empty());
    assert!(s.update(Msg::NotifyParentTimezoneSelectChanged(4, "UTC".to_string())).is_empty());
    assert_eq!(s.model.index, 4);
    assert_eq!(s.model.this_timezone.as_deref(), Some("Asia/Tokyo"));
}

#[test]
fn daylight_band() {
    let mut s = selector(1, Some("UTC"), Some("Asia/Tokyo"));
    // the slider starts at 09:00, midday is 3 hours later
    assert_eq!(s.draw_daytime_background(), Some(180));
    assert!(matches!(s.update(Msg::DrawIllumination)[..], [Action::PaintDaylight(180)]));
    let mut s = selector(1, None, Some("Asia/Tokyo"));
    assert!(s.update(Msg::DrawIllumination).is_empty());
    let mut s = selector(1, Some("UTC"), None);
    assert!(s.update(Msg::DrawIllumination).is_empty());
}

#[test]
fn try_update_refuses_what_would_panic() {
    let mut s = selector(1, Some("UTC"), Some("Asia/Tokyo"));
    assert!(s.try_update(Msg::FromParentBaseTimezoneChanged(Some("Nowhere/Atlantis".to_string()))).is_none());
    assert_eq!(s.model.base_timezone.as_deref(), Some("UTC"));
    assert!(s.try_update(Msg::LocalTimezoneSelect(Some("Nowhere/Atlantis".to_string()))).is_none());
    assert_eq!(s.model.this_timezone.as_deref(), Some("Asia/Tokyo"));
    assert!(s.try_update(Msg::LocalTimezoneSelect(Some("Europe/Paris".to_string()))).is_some());
    assert_eq!(s.model.this_timezone.as_deref(), Some("Europe/Paris"));
}

#[test]
fn init_view_sets_up_the_widget() {
    let first = selector(0, Some("UTC"), Some("Asia/Tokyo"));
    let actions = first.init_view();
    assert!(matches!(actions[0], Action::HideRemoveButton));
    assert!(matches!(actions.last(), Some(Action::SelectZone(z)) if z == "Asia/Tokyo"));
    let rows: Vec<&String> =
        actions.iter().filter_map(|a| if let Action::AddZoneRow(z) = a { Some(z) } else { None }).collect();
    assert_eq!(rows.len(), chrono_tz::TZ_VARIANTS.len());
    assert_eq!(rows.len() + 2, actions.len());
    for (row, tz) in rows.iter().zip(chrono_tz::TZ_VARIANTS.iter()) {
        assert_eq!(row.as_str(), tz.name());
    }
    for pair in rows.windows(2) {
        assert!(pair[0] < pair[1]);
    }
    assert!(rows.iter().any(|z| z.as_str() == "Europe/Berlin"));
    let other = selector(2, Some("UTC"), None);
    let actions = other.init_view();
    assert!(matches!(actions[0], Action::AddZoneRow(_)));
    assert!(matches!(actions.last(), Some(Action::AddZoneRow(_))));
}


#[test]
fn checked_labels() {
    let s = selector(1, Some("UTC"), Some("Asia/Tokyo"));
    assert_eq!(s.checked_update_time_labels(), Some(Some(("09:00 am".to_string(), "* 08:59 am".to_string()))));
    let s = selector(1, Some("UTC"), None);
    assert_eq!(s.checked_update_time_labels(), Some(None));
    let s = selector(1, Some("Nowhere/Atlantis"), Some("Asia/Tokyo"));
    assert_eq!(s.checked_update_time_labels(), None);
    let s = selector(1, Some("UTC"), Some("Nowhere/Atlantis"));
    assert_eq!(s.checked_update_time_labels(), None);
}
