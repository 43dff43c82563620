use rudr::lifecycle::Phase;

#[test]
fn test_lifecycle_phase() {
    let mut phase = Phase::Modify;
    assert_eq!("Modify", phase.to_string());
    phase = Phase::Delete;
    assert_eq!("Delete", phase.to_string());
}

#[test]
fn phase_names_are_the_variant_names() {
    assert_eq!("PreAdd", Phase::PreAdd.to_string());
    assert_eq!("Add", Phase::Add.to_string());
    assert_eq!("PreModify", Phase::PreModify.to_string());
    assert_eq!("PreDelete", Phase::PreDelete.to_string());
}
