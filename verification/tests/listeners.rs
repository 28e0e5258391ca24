use compositor_core::listener::ListenerBinding;
use compositor_core::listener::NotificationKind;
use compositor_core::listener::Wrapper;

#[test]
fn a_binding_is_released_exactly_once() {
    let mut binding = ListenerBinding::new(NotificationKind::Motion);
    assert_eq!(binding.kind(), NotificationKind::Motion);
    assert!(binding.is_bound());
    assert!(binding.unbind());
    assert!(!binding.is_bound());
    assert!(!binding.unbind());
    assert!(!binding.unbind());
    assert_eq!(binding.kind(), NotificationKind::Motion);
}

#[test]
fn a_wrapper_listens_to_the_kinds_it_was_made_with() {
    let kinds = vec![NotificationKind::Key, NotificationKind::Destroyed];
    let wrapper = Wrapper::new(&kinds, 17u32);
    assert!(wrapper.is_listening(NotificationKind::Key));
    assert!(wrapper.is_listening(NotificationKind::Destroyed));
    assert!(!wrapper.is_listening(NotificationKind::Motion));
    assert!(!wrapper.is_listening(NotificationKind::Frame));
    assert_eq!(*wrapper.data(), 17);
}

#[test]
fn a_wrapper_without_bindings_listens_to_nothing() {
    let kinds: Vec<NotificationKind> = vec![];
    let mut wrapper = Wrapper::new(&kinds, ());
    assert!(!wrapper.is_listening(NotificationKind::Key));
    assert_eq!(wrapper.teardown(), vec![]);
}

#[test]
fn teardown_names_each_subscription_once() {
    let kinds = vec![
        NotificationKind::Axis,
        NotificationKind::Proximity,
        NotificationKind::Tip,
        NotificationKind::Button,
    ];
    let mut wrapper = Wrapper::new(&kinds, "tool");
    assert_eq!(wrapper.teardown(), kinds);
    for kind in &kinds {
        assert!(!wrapper.is_listening(*kind));
    }
    assert_eq!(wrapper.teardown(), vec![]);
    assert_eq!(*wrapper.data(), "tool");
}

#[test]
fn teardown_keeps_the_order_and_the_repeats_of_the_bindings() {
    let kinds = vec![
        NotificationKind::Frame,
        NotificationKind::Ping,
        NotificationKind::Frame,
    ];
    let mut wrapper = Wrapper::new(&kinds, 0u8);
    assert!(wrapper.is_listening(NotificationKind::Frame));
    assert_eq!(wrapper.teardown(), kinds);
    assert!(!wrapper.is_listening(NotificationKind::Frame));
    assert!(!wrapper.is_listening(NotificationKind::Ping));
}

#[test]
fn the_data_of_a_wrapper_can_be_changed() {
    let kinds = vec![NotificationKind::Ready];
    let mut wrapper = Wrapper::new(&kinds, 1u32);
    *wrapper.data_mut() += 41;
    assert_eq!(*wrapper.data(), 42);
    assert!(wrapper.is_listening(NotificationKind::Ready));
}
