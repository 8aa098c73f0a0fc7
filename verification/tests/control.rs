use fibrous::Control;

const SIGN: usize = !(usize::MAX >> 1);

#[test]
fn lower_half_fits() {
    assert!(Control::fits(0));
    assert!(Control::fits(1));
    assert!(Control::fits(0x7fff_0000));
    assert!(Control::fits(SIGN - 1));
}

#[test]
fn upper_half_does_not_fit() {
    assert!(!Control::fits(SIGN));
    assert!(!Control::fits(SIGN + 1));
    assert!(!Control::fits(usize::MAX));
}

#[test]
fn new_control_is_not_done() {
    let control = Control::new(0x1000);
    assert!(!control.is_done());
    assert_eq!(control.address_of(), 0x1000);
}

#[test]
fn mark_done_sets_the_flag_and_keeps_the_address() {
    let control = Control::new(0x1000).mark_done();
    assert!(control.is_done());
    assert_eq!(control.address_of(), 0x1000);
}

#[test]
fn mark_done_twice_is_mark_done_once() {
    let once = Control::new(0x2468).mark_done();
    let twice = once.mark_done();
    assert!(twice.is_done());
    assert_eq!(twice.address_of(), once.address_of());
    assert_eq!(format!("{:?}", twice), format!("{:?}", once));
}

#[test]
fn flag_and_address_do_not_mix() {
    let widest = SIGN - 1;
    let control = Control::new(widest);
    assert!(!control.is_done());
    assert_eq!(control.address_of(), widest);
    let control = control.mark_done();
    assert!(control.is_done());
    assert_eq!(control.address_of(), widest);

    let zero = Control::new(0);
    assert!(!zero.is_done());
    assert_eq!(zero.address_of(), 0);
    assert!(zero.mark_done().is_done());
    assert_eq!(zero.mark_done().address_of(), 0);
}

#[test]
fn a_copy_is_the_same_word() {
    let control = Control::new(0x40).mark_done();
    let copy = control;
    assert_eq!(copy.is_done(), control.is_done());
    assert_eq!(copy.address_of(), control.address_of());
}
