use labview_interop::boolean::LVBool;

#[test]
fn test_boolean_false_to_lv_bool() {
    let value: LVBool = false.into();
    assert_eq!(value, LVBool::lv_false())
}

#[test]
fn test_boolean_true_to_lv_bool() {
    let value: LVBool = true.into();
    assert_eq!(value, LVBool::lv_true())
}

#[test]
fn test_boolean_lvfalse_to_bool() {
    let value: bool = LVBool::lv_false().into();
    assert_eq!(value, false)
}

#[test]
fn test_boolean_lvtrue_to_bool() {
    let value: bool = LVBool::lv_true().into();
    assert_eq!(value, true)
}

#[test]
fn test_any_non_zero_to_bool() {
    let value: bool = LVBool(23).into();
    assert_eq!(value, true)
}

#[test]
fn test_boolean_round_trip_both_ways() {
    let encoded_true: LVBool = true.into();
    let encoded_false: LVBool = false.into();
    assert_eq!(bool::from(encoded_true), true);
    assert_eq!(bool::from(encoded_false), false);
    assert_eq!(encoded_true.0, 1);
    assert_eq!(encoded_false.0, 0);
}
