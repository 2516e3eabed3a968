use htu_toolbox::operator::Operator;

#[test]
fn code_values() {
    assert_eq!(Operator::Mobie.code(), "yd");
    assert_eq!(Operator::Unicom.code(), "lt");
    assert_eq!(Operator::Telecom.code(), "dx");
}

#[test]
fn code_round_trips_for_all_operators() {
    for op in [Operator::Mobie, Operator::Unicom, Operator::Telecom] {
        assert_eq!(Operator::from_code(op.code()), Some(op));
    }
}

#[test]
fn from_code_rejects_unknown_codes() {
    assert_eq!(Operator::from_code(""), None);
    assert_eq!(Operator::from_code("y"), None);
    assert_eq!(Operator::from_code("ydx"), None);
    assert_eq!(Operator::from_code("zz"), None);
    assert_eq!(Operator::from_code("YD"), None);
}

#[test]
fn menu_index_maps_to_carriers_in_order() {
    assert_eq!(Operator::from_menu_index(0), Some(Operator::Mobie));
    assert_eq!(Operator::from_menu_index(1), Some(Operator::Unicom));
    assert_eq!(Operator::from_menu_index(2), Some(Operator::Telecom));
    assert_eq!(Operator::from_menu_index(3), None);
}
