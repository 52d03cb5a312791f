use darvos::session::select_keyboard;

#[test]
fn first_controller_is_the_keyboard() {
    assert_eq!(select_keyboard(1), Some(0));
    assert_eq!(select_keyboard(5), Some(0));
}

#[test]
fn no_controllers_is_fatal() {
    assert_eq!(select_keyboard(0), None);
}
