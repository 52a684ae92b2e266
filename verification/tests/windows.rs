use gaudium::device::{DeviceHandle, Usage};
use gaudium::event::{
    ElementState, Event, InputEvent, ModifierState, MouseButton, MouseMovement, MouseWheelDelta,
    WindowCloseState, WindowEvent,
};
use gaudium::event_thread::{EventThread, Registration};
use gaudium::platform::windows::input::{
    hid_button_count, ButtonCapabilities, DeviceInfo, TryFromDeviceInfo,
};
use gaudium::platform::windows::keyboard::RawKeyboard;
use gaudium::platform::windows::mouse::{
    parse_buttons_into, parse_movement, parse_wheel, RawMouse,
};
use gaudium::platform::windows::window::{
    classify, procedure, Disposal, MessageKind, RawRecord, WindowMessage,
};
use gaudium::platform::windows::{dword_milliseconds, has_bit_flags, keyboard, mouse, INFINITE};
use gaudium::reactor::{Reaction, Reactor, ThreadContext};
use gaudium::window::WindowHandle;
use gaudium::FromRawHandle;
use std::cell::RefCell;
use std::rc::Rc;

const MODIFIER: ModifierState = ModifierState {};

fn record(flags: u16, button_flags: u16, button_data: u16, last_x: i32, last_y: i32) -> RawMouse {
    RawMouse { flags, button_flags, button_data, last_x, last_y }
}

fn changed(button: MouseButton, state: ElementState) -> InputEvent {
    InputEvent::MouseButtonChanged { button, state, modifier: MODIFIER }
}

fn motion(absolute: Option<(i32, i32)>, relative: Option<(i32, i32)>) -> InputEvent {
    InputEvent::MouseMoved { movement: MouseMovement { absolute, relative }, modifier: MODIFIER }
}

fn wheel(notches: i32) -> InputEvent {
    InputEvent::MouseWheelRotated { delta: MouseWheelDelta::Rotational(0, notches), modifier: MODIFIER }
}

fn events_of(input: &RawMouse, cursor: Option<(i32, i32)>) -> Vec<InputEvent> {
    mouse::parse_raw_input(input, cursor).unwrap().as_slice().to_vec()
}

struct Recorder {
    seen: Rc<RefCell<Vec<Event>>>,
    abort_on_close: bool,
}

impl Reactor for Recorder {
    fn react(&mut self, _: &ThreadContext, event: Event) -> Reaction {
        self.seen.borrow_mut().push(event);
        match event {
            Event::Window { event: WindowEvent::Closed(..), .. } if self.abort_on_close => {
                Reaction::Abort
            }
            _ => Reaction::Continue(()),
        }
    }
}

fn registered() -> (Rc<RefCell<Vec<Event>>>, Registration<Recorder>) {
    let seen = Rc::new(RefCell::new(Vec::new()));
    let reactor = Recorder { seen: seen.clone(), abort_on_close: true };
    let (_, thread) = EventThread::start_with(move |_| (WindowHandle::from_raw_handle(1), reactor));
    let mut registration = Registration::new();
    registration.register(thread);
    (seen, registration)
}

fn window(raw: u64) -> WindowHandle {
    WindowHandle::from_raw_handle(raw)
}

fn device(raw: u64) -> DeviceHandle {
    DeviceHandle::from_raw_handle(raw)
}

#[test]
fn flags_that_are_not_zero_need_a_common_bit() {
    assert!(has_bit_flags(0x0001, 0x0001));
    assert!(has_bit_flags(0x0405, 0x0400));
    assert!(has_bit_flags(0x0003, 0x0006));
    assert!(!has_bit_flags(0x0002, 0x0001));
    assert!(!has_bit_flags(0x0000, 0xFFFF));
    assert!(has_bit_flags(0xFFFF, 0x8000));
}

#[test]
fn the_flag_zero_is_the_absence_of_the_flag_one() {
    assert!(has_bit_flags(0x0000, 0));
    assert!(has_bit_flags(0x0002, 0));
    assert!(has_bit_flags(0xFFFE, 0));
    assert!(!has_bit_flags(0x0001, 0));
    assert!(!has_bit_flags(0x0003, 0));
    assert!(!has_bit_flags(0xFFFF, 0));
}

#[test]
fn timeouts_saturate() {
    assert_eq!(dword_milliseconds(0), 0);
    assert_eq!(dword_milliseconds(1), 1);
    assert_eq!(dword_milliseconds(250), 250);
    assert_eq!(dword_milliseconds(0xFFFF_FFFE), 0xFFFF_FFFE);
    assert_eq!(dword_milliseconds(0xFFFF_FFFF), 0xFFFF_FFFF);
    assert_eq!(dword_milliseconds(0x1_0000_0000), INFINITE);
    assert_eq!(dword_milliseconds(0x1_0000_0001), INFINITE);
    assert_eq!(dword_milliseconds(u128::MAX), INFINITE);
    assert_eq!(INFINITE, 0xFFFF_FFFF);
}

#[test]
fn keyboard_record_reports_a_key_change() {
    let pressed = keyboard::parse_raw_input(&RawKeyboard { make_code: 30, flags: 0 });
    assert_eq!(
        pressed,
        Ok(InputEvent::KeyboardKeyChanged {
            scancode: 30,
            keycode: None,
            state: ElementState::Pressed,
            modifier: MODIFIER,
        })
    );
    let released = keyboard::parse_raw_input(&RawKeyboard { make_code: 0xFFFF, flags: 1 });
    assert_eq!(
        released,
        Ok(InputEvent::KeyboardKeyChanged {
            scancode: 0xFFFF,
            keycode: None,
            state: ElementState::Released,
            modifier: MODIFIER,
        })
    );
    // Other flags do not release the key.
    let extended = keyboard::parse_raw_input(&RawKeyboard { make_code: 1, flags: 2 });
    assert!(matches!(
        extended,
        Ok(InputEvent::KeyboardKeyChanged { state: ElementState::Pressed, .. })
    ));
    let both = keyboard::parse_raw_input(&RawKeyboard { make_code: 1, flags: 3 });
    assert!(matches!(
        both,
        Ok(InputEvent::KeyboardKeyChanged { state: ElementState::Released, .. })
    ));
}

#[test]
fn relative_motion_is_reported_with_the_cursor() {
    let input = record(0, 0, 0, 5, -5);
    assert_eq!(
        parse_movement(&input, Some((100, 200)), MODIFIER),
        Ok(motion(Some((100, 200)), Some((5, -5))))
    );
    assert_eq!(parse_movement(&input, None, MODIFIER), Ok(motion(None, Some((5, -5)))));
    let along_one_axis = record(0, 0, 0, 0, 1);
    assert_eq!(parse_movement(&along_one_axis, None, MODIFIER), Ok(motion(None, Some((0, 1)))));
}

#[test]
fn relative_motion_of_no_length_is_no_motion() {
    let input = record(0, 0, 0, 0, 0);
    assert_eq!(parse_movement(&input, Some((100, 200)), MODIFIER), Err(()));
    assert_eq!(events_of(&input, Some((100, 200))), vec![]);
}

#[test]
fn absolute_motion_has_no_relative_part() {
    let input = record(1, 0, 0, 9, 9);
    assert_eq!(parse_movement(&input, Some((3, 4)), MODIFIER), Ok(motion(Some((3, 4)), None)));
    let at_rest = record(1, 0, 0, 0, 0);
    assert_eq!(parse_movement(&at_rest, None, MODIFIER), Ok(motion(None, None)));
}

#[test]
fn wheel_rotation_is_counted_in_whole_notches() {
    let rotated = |data: u16| parse_wheel(&record(0, 0x0400, data, 0, 0), MODIFIER);
    assert_eq!(rotated(120), Ok(wheel(1)));
    assert_eq!(rotated(240), Ok(wheel(2)));
    assert_eq!(rotated(119), Ok(wheel(0)));
    assert_eq!(rotated(0), Ok(wheel(0)));
    // 0xFF88 is -120 in sixteen bits.
    assert_eq!(rotated(0xFF88), Ok(wheel(-1)));
    assert_eq!(rotated(0xFF89), Ok(wheel(0)));
    assert_eq!(rotated(0xFF10), Ok(wheel(-2)));
    assert_eq!(rotated(0x7FFF), Ok(wheel(273)));
    assert_eq!(rotated(0x8000), Ok(wheel(-273)));
    assert_eq!(rotated(0xFFFF), Ok(wheel(0)));
}

#[test]
fn no_wheel_flag_is_no_rotation() {
    assert_eq!(parse_wheel(&record(0, 0x0001, 120, 0, 0), MODIFIER), Err(()));
    assert_eq!(parse_wheel(&record(0, 0, 120, 0, 0), MODIFIER), Err(()));
}

#[test]
fn button_changes_come_in_a_fixed_order() {
    let input = record(0, 0x003F, 0, 0, 0);
    assert_eq!(
        events_of(&input, None),
        vec![
            changed(MouseButton::Left, ElementState::Pressed),
            changed(MouseButton::Left, ElementState::Released),
            changed(MouseButton::Right, ElementState::Pressed),
            changed(MouseButton::Right, ElementState::Released),
            changed(MouseButton::Center, ElementState::Pressed),
            changed(MouseButton::Center, ElementState::Released),
        ]
    );
    let input = record(0, 0x0024, 0, 0, 0);
    assert_eq!(
        events_of(&input, None),
        vec![
            changed(MouseButton::Right, ElementState::Pressed),
            changed(MouseButton::Center, ElementState::Released),
        ]
    );
    // Flags of further buttons are not read.
    assert_eq!(events_of(&record(0, 0x03C0, 0, 0, 0), None), vec![]);
}

#[test]
fn buttons_are_appended_to_what_the_buffer_holds() {
    let mut events = mouse::parse_raw_input(&record(0, 0x0001, 0, 1, 1), None).unwrap();
    assert_eq!(events.as_slice().len(), 2);
    assert_eq!(parse_buttons_into(&record(0, 0x0008, 0, 0, 0), MODIFIER, &mut events), Ok(()));
    assert_eq!(
        events.as_slice().to_vec(),
        vec![
            motion(None, Some((1, 1))),
            changed(MouseButton::Left, ElementState::Pressed),
            changed(MouseButton::Right, ElementState::Released),
        ]
    );
}

#[test]
fn a_mouse_record_decodes_into_motion_wheel_and_buttons() {
    let input = record(0, 0x0401, 0xFF88, 5, 5);
    assert_eq!(
        events_of(&input, Some((10, 20))),
        vec![
            motion(Some((10, 20)), Some((5, 5))),
            wheel(-1),
            changed(MouseButton::Left, ElementState::Pressed),
        ]
    );
}

#[test]
fn a_full_mouse_record_spills_nothing() {
    let input = record(1, 0x043F, 120, 0, 0);
    let events = events_of(&input, Some((1, 2)));
    assert_eq!(events.len(), 8);
    assert_eq!(events[0], motion(Some((1, 2)), None));
    assert_eq!(events[1], wheel(1));
    assert_eq!(events[7], changed(MouseButton::Center, ElementState::Released));
}

#[test]
fn usage_follows_the_kind_of_device() {
    let info = |kind: u32, usage_page: u16, usage: u16| DeviceInfo { kind, usage_page, usage };
    assert_eq!(Usage::try_from_device_info(&info(0, 0, 0)), Some(Usage::Mouse));
    assert_eq!(Usage::try_from_device_info(&info(0, 9, 9)), Some(Usage::Mouse));
    assert_eq!(Usage::try_from_device_info(&info(1, 0, 0)), Some(Usage::Keyboard));
    assert_eq!(Usage::try_from_device_info(&info(2, 1, 5)), Some(Usage::GameController));
    assert_eq!(Usage::try_from_device_info(&info(2, 1, 4)), Some(Usage::GameController));
    assert_eq!(Usage::try_from_device_info(&info(2, 1, 6)), None);
    assert_eq!(Usage::try_from_device_info(&info(2, 2, 5)), None);
    assert_eq!(Usage::try_from_device_info(&info(3, 1, 5)), None);
}

#[test]
fn buttons_are_counted_over_a_range() {
    let range = |usage_min: u16, usage_max: u16| ButtonCapabilities {
        is_range: true,
        usage_min,
        usage_max,
    };
    assert_eq!(hid_button_count(&range(1, 12)), Ok(12));
    assert_eq!(hid_button_count(&range(5, 5)), Ok(1));
    assert_eq!(hid_button_count(&range(1, 0xFFFF)), Ok(0xFFFF));
    let single = ButtonCapabilities { is_range: false, usage_min: 1, usage_max: 12 };
    assert_eq!(hid_button_count(&single), Err(()));
}

#[test]
fn messages_are_told_apart_by_their_number() {
    let drop_message = 0xC123;
    assert_eq!(classify(0x0010, 0, drop_message), MessageKind::Close);
    assert_eq!(classify(0x0002, 0, drop_message), MessageKind::Destroy);
    assert_eq!(classify(0x00FF, 0, drop_message), MessageKind::Input);
    assert_eq!(classify(0x00FE, 1, drop_message), MessageKind::DeviceArrival);
    assert_eq!(classify(0x00FE, 2, drop_message), MessageKind::DeviceRemoval);
    assert_eq!(classify(0x00FE, 0, drop_message), MessageKind::DeviceRemoval);
    // Of the first parameter the lower 32 bits count.
    assert_eq!(classify(0x00FE, 0x7_0000_0001, drop_message), MessageKind::DeviceArrival);
    assert_eq!(classify(0xC123, 0, drop_message), MessageKind::Drop);
    assert_eq!(classify(0x0012, 0, drop_message), MessageKind::Other);
    assert_eq!(classify(0, 1, drop_message), MessageKind::Other);
    // A message that is both goes by its own number first.
    assert_eq!(classify(0x0010, 0, 0x0010), MessageKind::Close);
}

#[test]
fn a_request_to_close_reaches_the_reactor_and_keeps_the_window() {
    let (seen, mut registration) = registered();
    assert_eq!(procedure(&mut registration, window(4), WindowMessage::Close), Disposal::Handled(0));
    assert_eq!(
        *seen.borrow(),
        vec![Event::Window {
            window: window(4),
            event: WindowEvent::Closed(WindowCloseState::Requested),
        }]
    );
    assert!(registration.unregister().unwrap().is_aborting());
}

#[test]
fn destruction_reaches_the_reactor() {
    let (seen, mut registration) = registered();
    assert_eq!(procedure(&mut registration, window(4), WindowMessage::Destroy), Disposal::Forward);
    assert_eq!(
        *seen.borrow(),
        vec![Event::Window {
            window: window(4),
            event: WindowEvent::Closed(WindowCloseState::Committed),
        }]
    );
}

#[test]
fn keyboard_input_reaches_the_reactor_at_once() {
    let (seen, mut registration) = registered();
    let message = WindowMessage::Input {
        device: device(9),
        record: RawRecord::Keyboard(RawKeyboard { make_code: 30, flags: 1 }),
    };
    assert_eq!(procedure(&mut registration, window(4), message), Disposal::Forward);
    assert_eq!(
        *seen.borrow(),
        vec![Event::Input {
            device: device(9),
            window: None,
            event: InputEvent::KeyboardKeyChanged {
                scancode: 30,
                keycode: None,
                state: ElementState::Released,
                modifier: MODIFIER,
            },
        }]
    );
    assert_eq!(registration.unregister().unwrap().pending(), 0);
}

#[test]
fn mouse_input_is_queued_in_its_order() {
    let (seen, mut registration) = registered();
    let message = WindowMessage::Input {
        device: device(9),
        record: RawRecord::Mouse { record: record(0, 0x0401, 120, 5, 5), cursor: Some((1, 2)) },
    };
    assert_eq!(procedure(&mut registration, window(4), message), Disposal::Forward);
    assert!(seen.borrow().is_empty());
    let mut thread = registration.unregister().unwrap();
    assert_eq!(thread.pending(), 3);
    thread.flush();
    let input = |event: InputEvent| Event::Input { device: device(9), window: None, event };
    assert_eq!(
        *seen.borrow(),
        vec![
            input(motion(Some((1, 2)), Some((5, 5)))),
            input(wheel(1)),
            input(changed(MouseButton::Left, ElementState::Pressed)),
        ]
    );
}

#[test]
fn other_input_gives_no_event() {
    let (seen, mut registration) = registered();
    let message = WindowMessage::Input { device: device(9), record: RawRecord::Hid };
    assert_eq!(procedure(&mut registration, window(4), message), Disposal::Forward);
    assert_eq!(procedure(&mut registration, window(4), WindowMessage::InputUnread), Disposal::Forward);
    assert_eq!(procedure(&mut registration, window(4), WindowMessage::Other), Disposal::Forward);
    assert!(seen.borrow().is_empty());
    assert_eq!(registration.unregister().unwrap().pending(), 0);
}

#[test]
fn arrival_and_removal_of_devices_reach_the_reactor() {
    let (seen, mut registration) = registered();
    let gamepad = DeviceInfo { kind: 2, usage_page: 1, usage: 5 };
    let arrived = WindowMessage::DeviceArrived { device: device(9), info: Some(gamepad) };
    let unknown = WindowMessage::DeviceArrived { device: device(10), info: None };
    let removed = WindowMessage::DeviceRemoved { device: device(9) };
    assert_eq!(procedure(&mut registration, window(4), arrived), Disposal::Forward);
    assert_eq!(procedure(&mut registration, window(4), unknown), Disposal::Forward);
    assert_eq!(procedure(&mut registration, window(4), removed), Disposal::Forward);
    let input = |device: DeviceHandle, event: InputEvent| Event::Input {
        device,
        window: Some(window(4)),
        event,
    };
    assert_eq!(
        *seen.borrow(),
        vec![
            input(device(9), InputEvent::Connected { usage: Some(Usage::GameController) }),
            input(device(10), InputEvent::Connected { usage: None }),
            input(device(9), InputEvent::Disconnected),
        ]
    );
}

#[test]
fn a_dropped_window_is_destroyed() {
    let (seen, mut registration) = registered();
    assert_eq!(
        procedure(&mut registration, window(4), WindowMessage::Drop),
        Disposal::DestroyAndForward
    );
    assert!(seen.borrow().is_empty());
}

#[test]
fn without_an_event_thread_the_events_are_dropped() {
    let mut registration = Registration::<Recorder>::new();
    assert_eq!(procedure(&mut registration, window(4), WindowMessage::Close), Disposal::Handled(0));
    assert_eq!(procedure(&mut registration, window(4), WindowMessage::Destroy), Disposal::Forward);
    let message = WindowMessage::Input {
        device: device(9),
        record: RawRecord::Mouse { record: record(0, 1, 0, 1, 1), cursor: None },
    };
    assert_eq!(procedure(&mut registration, window(4), message), Disposal::Forward);
    assert!(registration.unregister().is_none());
}
