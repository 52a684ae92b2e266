use gaudium::device::DeviceHandle;
use gaudium::event::{
    ApplicationEvent, ElementState, Event, InputEvent, KeyCode, ModifierState, MouseButton,
    MouseMovement, WindowCloseState, WindowEvent,
};
use gaudium::framework::input::{
    CompositeState, ElementSet, KeyboardSnapshot, MousePosition, MouseProximity, MouseSnapshot,
    SetElement, Snapshot, SnapshotDifference, SnapshotState, SnapshotTransition, State,
};
use gaudium::framework::React;
use gaudium::window::WindowHandle;
use gaudium::FromRawHandle;

fn input(event: InputEvent) -> Event {
    Event::Input { device: DeviceHandle::from_raw_handle(1), window: None, event }
}

fn button(button: MouseButton, state: ElementState) -> Event {
    input(InputEvent::MouseButtonChanged { button, state, modifier: ModifierState {} })
}

fn key(code: u32, state: ElementState) -> Event {
    input(InputEvent::KeyboardKeyChanged {
        scancode: code + 1000,
        keycode: Some(KeyCode::Other(code)),
        state,
        modifier: ModifierState {},
    })
}

fn moved(absolute: Option<(i32, i32)>, relative: Option<(i32, i32)>) -> Event {
    input(InputEvent::MouseMoved {
        movement: MouseMovement { absolute, relative },
        modifier: ModifierState {},
    })
}

fn buttons(mouse: &MouseSnapshot) -> Vec<(MouseButton, ElementState)> {
    let mut changes = <MouseSnapshot as SnapshotDifference<MouseButton>>::difference(mouse);
    changes.sort_by_key(|change| change.0.code());
    changes
}

fn keys(keyboard: &KeyboardSnapshot) -> Vec<(KeyCode, ElementState)> {
    let mut changes = <KeyboardSnapshot as SnapshotDifference<KeyCode>>::difference(keyboard);
    changes.sort_by_key(|change| change.0.code());
    changes
}

fn displacement(mouse: &MouseSnapshot) -> Option<(i64, i64)> {
    <MouseSnapshot as SnapshotDifference<MousePosition>>::difference(mouse).map(|moved| moved.1)
}

fn proximity(mouse: &MouseSnapshot) -> Option<bool> {
    <MouseSnapshot as SnapshotDifference<MouseProximity>>::difference(mouse).map(|changed| changed.1)
}

#[test]
fn transition_of_equal_states_is_none() {
    assert_eq!(ElementState::transition(ElementState::Pressed, ElementState::Pressed), None);
    assert_eq!(ElementState::transition(ElementState::Released, ElementState::Released), None);
    assert_eq!(bool::transition(true, true), None);
    assert_eq!(bool::transition(false, false), None);
    assert_eq!(<(i32, i32)>::transition((3, -4), (3, -4)), None);
}

#[test]
fn transition_of_different_states_is_the_new_state() {
    assert_eq!(
        ElementState::transition(ElementState::Released, ElementState::Pressed),
        Some(ElementState::Released)
    );
    assert_eq!(
        ElementState::transition(ElementState::Pressed, ElementState::Released),
        Some(ElementState::Pressed)
    );
    assert_eq!(bool::transition(true, false), Some(true));
    assert_eq!(bool::transition(false, true), Some(false));
    assert_eq!(<(i32, i32)>::transition((1, 2), (1, 3)), Some((1, 2)));
    assert_eq!(<(i32, i32)>::transition((0, 2), (1, 2)), Some((0, 2)));
}

#[test]
fn button_codes_are_one_to_one() {
    assert_eq!(MouseButton::Left.code(), 0);
    assert_eq!(MouseButton::Right.code(), 1);
    assert_eq!(MouseButton::Center.code(), 2);
    assert_eq!(MouseButton::Other(0).code(), 3);
    assert_eq!(MouseButton::Other(255).code(), 258);
    for code in 0..=258u32 {
        assert_eq!(MouseButton::from_code(code).code(), code);
    }
    assert_eq!(MouseButton::from_code(2), MouseButton::Center);
    assert_eq!(MouseButton::from_code(3), MouseButton::Other(0));
    assert_eq!(KeyCode::Other(u32::MAX).code(), u32::MAX);
    assert_eq!(KeyCode::from_code(77), KeyCode::Other(77));
}

#[test]
fn element_set_inserts_and_removes() {
    let mut set = ElementSet::<MouseButton>::new();
    assert!(!set.contains(MouseButton::Left));
    assert!(set.insert(MouseButton::Left));
    assert!(!set.insert(MouseButton::Left));
    assert!(set.insert(MouseButton::Other(255)));
    assert!(set.contains(MouseButton::Left));
    assert!(set.contains(MouseButton::Other(255)));
    assert!(!set.contains(MouseButton::Other(254)));
    assert!(set.remove(MouseButton::Left));
    assert!(!set.remove(MouseButton::Left));
    assert!(!set.contains(MouseButton::Left));
    assert!(set.contains(MouseButton::Other(255)));
}

#[test]
fn element_set_clone_is_independent() {
    let mut set = ElementSet::<KeyCode>::new();
    set.insert(KeyCode::Other(1));
    set.insert(KeyCode::Other(2));
    let copy = set.clone();
    set.remove(KeyCode::Other(1));
    assert!(copy.contains(KeyCode::Other(1)));
    assert!(copy.contains(KeyCode::Other(2)));
    assert!(!copy.contains(KeyCode::Other(3)));
    assert!(!set.contains(KeyCode::Other(1)));
}

#[test]
fn symmetric_difference_of_sets() {
    let mut new = ElementSet::<KeyCode>::new();
    let mut old = ElementSet::<KeyCode>::new();
    for code in [1, 2, 3, 4] {
        new.insert(KeyCode::Other(code));
    }
    for code in [3, 4, 5] {
        old.insert(KeyCode::Other(code));
    }
    let mut changed = new.symmetric_difference(&old);
    changed.sort_by_key(|key| key.code());
    assert_eq!(changed, vec![KeyCode::Other(1), KeyCode::Other(2), KeyCode::Other(5)]);
    let mut changed = old.symmetric_difference(&new);
    changed.sort_by_key(|key| key.code());
    assert_eq!(changed, vec![KeyCode::Other(1), KeyCode::Other(2), KeyCode::Other(5)]);
    assert_eq!(new.symmetric_difference(&new), vec![]);
    let empty = ElementSet::<KeyCode>::new();
    assert_eq!(empty.symmetric_difference(&ElementSet::new()), vec![]);
}

#[test]
fn new_snapshots_are_at_rest() {
    let mouse = MouseSnapshot::new();
    assert_eq!(buttons(&mouse), vec![]);
    assert_eq!(displacement(&mouse), None);
    assert_eq!(proximity(&mouse), None);
    assert_eq!(mouse.state(MousePosition), (0, 0));
    assert_eq!(mouse.state(MouseProximity), false);
    assert_eq!(mouse.state(MouseButton::Left), ElementState::Released);
    let keyboard = KeyboardSnapshot::default();
    assert_eq!(keys(&keyboard), vec![]);
    assert_eq!(keyboard.state(KeyCode::Other(1)), ElementState::Released);
    let mouse = MouseSnapshot::default();
    assert_eq!(buttons(&mouse), vec![]);
}

#[test]
fn snapshot_twice_leaves_no_difference() {
    let mut mouse = MouseSnapshot::new();
    mouse.react(&button(MouseButton::Right, ElementState::Pressed));
    mouse.react(&moved(Some((7, 9)), None));
    mouse.snapshot();
    assert_eq!(buttons(&mouse), vec![]);
    assert_eq!(displacement(&mouse), None);
    assert_eq!(proximity(&mouse), None);
    assert_eq!(mouse.old_state().state(MousePosition), (7, 9));
    assert_eq!(mouse.new_state().state(MousePosition), (7, 9));
    assert_eq!(mouse.old_state().state(MouseButton::Right), ElementState::Pressed);
    mouse.snapshot();
    assert_eq!(buttons(&mouse), vec![]);
    assert_eq!(displacement(&mouse), None);
    assert_eq!(mouse.old_state().state(MouseButton::Right), ElementState::Pressed);
    assert_eq!(mouse.new_state().state(MouseButton::Right), ElementState::Pressed);

    let mut keyboard = KeyboardSnapshot::new();
    keyboard.react(&key(30, ElementState::Pressed));
    keyboard.snapshot();
    assert_eq!(keys(&keyboard), vec![]);
    keyboard.snapshot();
    assert_eq!(keys(&keyboard), vec![]);
    assert_eq!(keyboard.old_state().state(KeyCode::Other(30)), ElementState::Pressed);
}

#[test]
fn difference_is_symmetric_difference_with_new_state() {
    let mut keyboard = KeyboardSnapshot::new();
    keyboard.react(&key(1, ElementState::Pressed));
    keyboard.react(&key(2, ElementState::Pressed));
    keyboard.snapshot();
    keyboard.react(&key(2, ElementState::Released));
    keyboard.react(&key(3, ElementState::Pressed));
    keyboard.react(&key(4, ElementState::Pressed));
    keyboard.react(&key(4, ElementState::Released));
    keyboard.react(&key(1, ElementState::Released));
    keyboard.react(&key(1, ElementState::Pressed));
    assert_eq!(
        keys(&keyboard),
        vec![
            (KeyCode::Other(2), ElementState::Released),
            (KeyCode::Other(3), ElementState::Pressed),
        ]
    );
    assert_eq!(keyboard.transition(KeyCode::Other(1)), None);
    assert_eq!(keyboard.transition(KeyCode::Other(2)), Some(ElementState::Released));
    assert_eq!(keyboard.transition(KeyCode::Other(3)), Some(ElementState::Pressed));
    assert_eq!(keyboard.transition(KeyCode::Other(4)), None);
    assert_eq!(keyboard.transition(KeyCode::Other(5)), None);
}

#[test]
fn old_state_changes_only_with_snapshot() {
    let mut mouse = MouseSnapshot::new();
    mouse.react(&button(MouseButton::Left, ElementState::Pressed));
    assert_eq!(mouse.old_state().state(MouseButton::Left), ElementState::Released);
    assert_eq!(mouse.new_state().state(MouseButton::Left), ElementState::Pressed);
    mouse.react(&button(MouseButton::Left, ElementState::Released));
    assert_eq!(mouse.old_state().state(MouseButton::Left), ElementState::Released);
    mouse.react(&button(MouseButton::Left, ElementState::Pressed));
    mouse.snapshot();
    assert_eq!(mouse.old_state().state(MouseButton::Left), ElementState::Pressed);
    mouse.react(&button(MouseButton::Left, ElementState::Released));
    assert_eq!(mouse.old_state().state(MouseButton::Left), ElementState::Pressed);
    assert_eq!(buttons(&mouse), vec![(MouseButton::Left, ElementState::Released)]);
}

#[test]
fn elements_never_observed_are_not_in_a_difference() {
    let mut mouse = MouseSnapshot::new();
    mouse.react(&button(MouseButton::Other(9), ElementState::Released));
    assert_eq!(buttons(&mouse), vec![]);
    mouse.react(&button(MouseButton::Center, ElementState::Pressed));
    assert_eq!(buttons(&mouse), vec![(MouseButton::Center, ElementState::Pressed)]);
    assert_eq!(mouse.transition(MouseButton::Left), None);
    assert_eq!(mouse.transition(MouseButton::Center), Some(ElementState::Pressed));
}

#[test]
fn press_twice_is_one_press() {
    let mut mouse = MouseSnapshot::new();
    mouse.react(&button(MouseButton::Left, ElementState::Pressed));
    mouse.react(&button(MouseButton::Left, ElementState::Pressed));
    assert_eq!(buttons(&mouse), vec![(MouseButton::Left, ElementState::Pressed)]);
    mouse.react(&button(MouseButton::Left, ElementState::Released));
    assert_eq!(buttons(&mouse), vec![]);
}

#[test]
fn events_of_other_kinds_are_ignored() {
    let mut mouse = MouseSnapshot::new();
    let mut keyboard = KeyboardSnapshot::new();
    let others = vec![
        Event::Application { event: ApplicationEvent::QueueExhausted },
        Event::Window {
            window: WindowHandle::from_raw_handle(1),
            event: WindowEvent::Closed(WindowCloseState::Committed),
        },
        input(InputEvent::Disconnected),
        input(InputEvent::GameControllerButtonChanged { button: 0, state: ElementState::Pressed }),
        input(InputEvent::KeyboardKeyChanged {
            scancode: 30,
            keycode: None,
            state: ElementState::Pressed,
            modifier: ModifierState {},
        }),
        moved(None, Some((5, 5))),
    ];
    for event in &others {
        mouse.react(event);
        keyboard.react(event);
    }
    assert_eq!(buttons(&mouse), vec![]);
    assert_eq!(displacement(&mouse), None);
    assert_eq!(mouse.state(MousePosition), (0, 0));
    assert_eq!(keys(&keyboard), vec![]);
    keyboard.react(&button(MouseButton::Left, ElementState::Pressed));
    assert_eq!(keys(&keyboard), vec![]);
    mouse.react(&key(1, ElementState::Pressed));
    assert_eq!(buttons(&mouse), vec![]);
}

#[test]
fn absolute_motion_overwrites_the_position() {
    let mut mouse = MouseSnapshot::new();
    mouse.react(&moved(Some((5, 5)), Some((1, 1))));
    assert_eq!(mouse.state(MousePosition), (5, 5));
    mouse.react(&moved(Some((-2, 40)), None));
    assert_eq!(mouse.state(MousePosition), (-2, 40));
    assert_eq!(mouse.transition(MousePosition), Some((-2, 40)));
    assert_eq!(displacement(&mouse), Some((-2, 40)));
    mouse.snapshot();
    mouse.react(&moved(Some((3, 30)), None));
    assert_eq!(mouse.transition(MousePosition), Some((3, 30)));
    assert_eq!(displacement(&mouse), Some((5, -10)));
    mouse.react(&moved(Some((-2, 40)), None));
    assert_eq!(mouse.transition(MousePosition), None);
    assert_eq!(displacement(&mouse), None);
}

#[test]
fn displacement_does_not_overflow() {
    let mut mouse = MouseSnapshot::new();
    mouse.react(&moved(Some((i32::MIN, i32::MAX)), None));
    mouse.snapshot();
    mouse.react(&moved(Some((i32::MAX, i32::MIN)), None));
    assert_eq!(displacement(&mouse), Some((4_294_967_295, -4_294_967_295)));
}

#[test]
fn proximity_does_not_change_by_itself() {
    let mut mouse = MouseSnapshot::new();
    mouse.react(&moved(Some((5, 5)), None));
    assert_eq!(mouse.transition(MouseProximity), None);
    assert_eq!(proximity(&mouse), None);
}

#[test]
fn snapshot_dereferences_to_the_new_state() {
    let mut mouse = MouseSnapshot::new();
    mouse.react(&button(MouseButton::Left, ElementState::Pressed));
    mouse.react(&moved(Some((1, 2)), None));
    let state = &*mouse;
    assert_eq!(state.state(MouseButton::Left), ElementState::Pressed);
    assert_eq!(state.state(MousePosition), (1, 2));
    let mut keyboard = KeyboardSnapshot::new();
    keyboard.react(&key(8, ElementState::Pressed));
    let state = &*keyboard;
    assert_eq!(state.state(KeyCode::Other(8)), ElementState::Pressed);
    assert_eq!(state.state(KeyCode::Other(9)), ElementState::Released);
}

#[test]
fn end_to_end_mouse_scenario() {
    let mut mouse = MouseSnapshot::new();
    mouse.react(&button(MouseButton::Left, ElementState::Pressed));
    mouse.react(&moved(None, Some((5, 5))));
    // Against the snapshot taken before the events, the press is the one
    // difference. A motion that reports no absolute position moves nothing.
    assert_eq!(buttons(&mouse), vec![(MouseButton::Left, ElementState::Pressed)]);
    assert_eq!(mouse.transition(MousePosition), None);
    assert_eq!(displacement(&mouse), None);
    mouse.snapshot();
    assert_eq!(buttons(&mouse), vec![]);
    assert_eq!(displacement(&mouse), None);
}

#[test]
fn end_to_end_mouse_scenario_with_a_position() {
    let mut mouse = MouseSnapshot::new();
    mouse.snapshot();
    mouse.react(&button(MouseButton::Left, ElementState::Pressed));
    mouse.react(&moved(Some((5, 5)), Some((5, 5))));
    assert_eq!(buttons(&mouse), vec![(MouseButton::Left, ElementState::Pressed)]);
    assert_eq!(mouse.transition(MousePosition), Some((5, 5)));
    assert_eq!(displacement(&mouse), Some((5, 5)));
}
