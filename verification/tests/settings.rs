use fluidlite::settings::{affirmed, fetched};
use fluidlite::{Bound, HasHandle, Hints, IsSetting, Num, Range, Setting, Settings, SettingsRef};

#[test]
fn settings_keep_their_address() {
    let settings = Settings::from_ptr(0x1000);
    assert_eq!(settings.get_handle(), 0x1000);
    assert_eq!(settings.into_ptr(), 0x1000);
    assert_eq!(SettingsRef::from_ptr(0x2000).get_handle(), 0x2000);
}

#[test]
fn setting_kinds_are_coded_from_zero_to_three() {
    assert_eq!(<Num as IsSetting>::setting_type(), 0);
    assert_eq!(<i32 as IsSetting>::setting_type(), 1);
    assert_eq!(<str as IsSetting>::setting_type(), 2);
    assert_eq!(<() as IsSetting>::setting_type(), 3);
}

#[test]
fn a_setting_is_picked_where_the_kind_is_right() {
    let name = fluidlite::to_c_string(b"synth.polyphony").unwrap();
    let polyphony = Setting::<i32>::pick(0x1000, name.clone(), 1).unwrap();
    assert_eq!(polyphony.name_ptr(), b"synth.polyphony\0");
    assert!(Setting::<Num>::pick(0x1000, name.clone(), 1).is_none());
    assert!(Setting::<str>::pick(0x1000, name.clone(), 1).is_none());
    assert!(Setting::<()>::pick(0x1000, name.clone(), 1).is_none());
}

#[test]
fn a_setting_that_is_missing_has_no_kind() {
    let name = fluidlite::to_c_string(b"synth.nothing").unwrap();
    assert!(Setting::<Num>::pick(0x1000, name.clone(), -1).is_none());
    assert!(Setting::<i32>::pick(0x1000, name.clone(), -1).is_none());
    assert!(Setting::<str>::pick(0x1000, name.clone(), -1).is_none());
    assert!(Setting::<()>::pick(0x1000, name, -1).is_none());
}

#[test]
fn only_a_positive_answer_is_a_yes() {
    assert!(affirmed(1));
    assert!(affirmed(i32::MAX));
    assert!(!affirmed(0));
    assert!(!affirmed(-1));
}

#[test]
fn a_value_is_fetched_where_the_answer_is_yes() {
    assert_eq!(fetched(1, 256), Some(256));
    assert_eq!(fetched(0, 256), None);
    assert_eq!(fetched(-1, "yes"), None);
    assert_eq!(fetched(7, "yes"), Some("yes"));
}

#[test]
fn hints_have_their_bits() {
    assert_eq!(Hints::BOUNDED_BELOW, 0x01);
    assert_eq!(Hints::BOUNDED_ABOVE, 0x02);
    assert_eq!(Hints::TOGGLED, 0x04);
    assert_eq!(Hints::SAMPLE_RATE, 0x08);
    assert_eq!(Hints::LOGARITHMIC, 0x10);
    assert_eq!(Hints::INTEGER, 0x20);
    assert_eq!(Hints::FILENAME, 0x01);
    assert_eq!(Hints::OPTIONLIST, 0x02);
}

#[test]
fn unknown_hint_bits_are_dropped() {
    assert_eq!(Hints::from_bits_truncate(0x7f).bits(), 0x3f);
    assert_eq!(Hints::from_bits_truncate(-1).bits(), 0x3f);
    assert_eq!(Hints::from_bits_truncate(0x40).bits(), 0);
    assert_eq!(Hints::from_bits_truncate(0x23).bits(), 0x23);
}

#[test]
fn hints_contain_their_bits() {
    let hints = Hints::from_bits_truncate(Hints::BOUNDED_BELOW | Hints::INTEGER);
    assert!(hints.contains(Hints::BOUNDED_BELOW));
    assert!(hints.contains(Hints::INTEGER));
    assert!(hints.contains(Hints::BOUNDED_BELOW | Hints::INTEGER));
    assert!(!hints.contains(Hints::BOUNDED_ABOVE));
    assert!(!hints.contains(Hints::BOUNDED_BELOW | Hints::BOUNDED_ABOVE));
    assert!(hints.contains(0));
}

#[test]
fn a_range_is_what_it_was_made_of() {
    let range = Range::new(Some(1), Some(65535));
    assert_eq!(range.min, Some(1));
    assert_eq!(range.max, Some(65535));
    assert_eq!(Range::<i32>::new(None, None), Range { min: None, max: None });
}

#[test]
fn a_range_has_the_limits_that_the_hints_name() {
    let both = Hints::from_bits_truncate(Hints::BOUNDED_BELOW | Hints::BOUNDED_ABOVE);
    let below = Hints::from_bits_truncate(Hints::BOUNDED_BELOW);
    let above = Hints::from_bits_truncate(Hints::BOUNDED_ABOVE | Hints::TOGGLED);
    let neither = Hints::from_bits_truncate(Hints::TOGGLED);
    assert_eq!(Range::from_hints(1, 65535, both), Range::new(Some(1), Some(65535)));
    assert_eq!(Range::from_hints(1, 65535, below), Range::new(Some(1), None));
    assert_eq!(Range::from_hints(1, 65535, above), Range::new(None, Some(65535)));
    assert_eq!(Range::from_hints(1, 65535, neither), Range::new(None, None));
}

#[test]
fn a_range_takes_values_of_any_type() {
    let both = Hints::from_bits_truncate(0x03);
    assert_eq!(Range::from_hints(0.0f64, 10.0f64, both), Range::new(Some(0.0), Some(10.0)));
}

#[test]
fn the_ends_of_a_range_belong_to_it() {
    let range = Range::new(Some(1), Some(3));
    assert_eq!(range.start_bound(), Bound::Included(&1));
    assert_eq!(range.end_bound(), Bound::Included(&3));
    assert!(!range.contains(0));
    assert!(range.contains(1));
    assert!(range.contains(2));
    assert!(range.contains(3));
    assert!(!range.contains(4));
}

#[test]
fn a_range_without_limits_takes_everything() {
    let range: Range<i32> = Range::new(None, None);
    assert_eq!(range.start_bound(), Bound::Unbounded);
    assert_eq!(range.end_bound(), Bound::Unbounded);
    assert!(range.contains(i32::MIN));
    assert!(range.contains(i32::MAX));
    assert!(Range::new(Some(5), None).contains(i32::MAX));
    assert!(!Range::new(Some(5), None).contains(4));
    assert!(Range::new(None, Some(5)).contains(i32::MIN));
    assert!(!Range::new(None, Some(5)).contains(6));
}

#[test]
fn an_empty_range_takes_nothing() {
    let range = Range::new(Some(3), Some(1));
    assert!(!range.contains(1));
    assert!(!range.contains(2));
    assert!(!range.contains(3));
}
