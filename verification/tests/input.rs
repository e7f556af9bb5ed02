use gameboy::input::{Button, KeyCode, KeyboardInput, IPU};
use gameboy::memory::MemoryBus;
use gameboy::rom::ROM;

fn bus() -> MemoryBus {
    MemoryBus::new(ROM::new(vec![]))
}

fn key(code: KeyCode, pressed: bool) -> Option<KeyboardInput> {
    Some(KeyboardInput { virtual_keycode: Some(code), pressed })
}

#[test]
fn buttons_have_fixed_places() {
    let all = [
        Button::Up,
        Button::Down,
        Button::Left,
        Button::Right,
        Button::A,
        Button::B,
        Button::Start,
        Button::Select,
    ];
    for (i, button) in all.iter().enumerate() {
        assert_eq!(button.index(), i);
    }
}

#[test]
fn keys_press_their_buttons() {
    assert_eq!(KeyCode::Up.button(), Some(Button::Up));
    assert_eq!(KeyCode::Down.button(), Some(Button::Down));
    assert_eq!(KeyCode::Left.button(), Some(Button::Left));
    assert_eq!(KeyCode::Right.button(), Some(Button::Right));
    assert_eq!(KeyCode::Z.button(), Some(Button::A));
    assert_eq!(KeyCode::X.button(), Some(Button::B));
    assert_eq!(KeyCode::Return.button(), Some(Button::Start));
    assert_eq!(KeyCode::RShift.button(), Some(Button::Select));
    assert_eq!(KeyCode::Other.button(), None);
}

#[test]
fn a_new_joypad_holds_nothing() {
    let ipu = IPU::new();
    assert_eq!(ipu.buttons, [false; 8]);
    assert!(!ipu.get(Button::Start));
}

#[test]
fn set_and_get_a_button() {
    let mut ipu = IPU::new();
    ipu.set(Button::B, true);
    assert!(ipu.get(Button::B));
    assert!(!ipu.get(Button::A));
    ipu.set(Button::B, false);
    assert!(!ipu.get(Button::B));
}

#[test]
fn directional_keys_read_active_low_with_bit_4_selected() {
    let mut bus = bus();
    let mut ipu = IPU::new();
    bus.write_byte(0xFF00, 0x10);
    ipu.update_byte(&mut bus);
    assert_eq!(bus.read_byte(0xFF00), 0x1F);
    ipu.set(Button::Down, true);
    ipu.update_byte(&mut bus);
    assert_eq!(bus.read_byte(0xFF00), 0x17);
    ipu.set(Button::Right, true);
    ipu.update_byte(&mut bus);
    assert_eq!(bus.read_byte(0xFF00), 0x16);
    ipu.set(Button::Up, true);
    ipu.set(Button::Left, true);
    ipu.update_byte(&mut bus);
    assert_eq!(bus.read_byte(0xFF00), 0x10);
    ipu.set(Button::Down, false);
    ipu.update_byte(&mut bus);
    assert_eq!(bus.read_byte(0xFF00), 0x18);
}

#[test]
fn action_buttons_read_active_low_with_bit_5_selected() {
    let mut bus = bus();
    let mut ipu = IPU::new();
    ipu.set(Button::Up, true);
    ipu.set(Button::Start, true);
    ipu.set(Button::A, true);
    bus.write_byte(0xFF00, 0x20);
    ipu.update_byte(&mut bus);
    assert_eq!(bus.read_byte(0xFF00), 0x26);
    ipu.set(Button::Select, true);
    ipu.set(Button::B, true);
    ipu.update_byte(&mut bus);
    assert_eq!(bus.read_byte(0xFF00), 0x20);
}

#[test]
fn bit_4_wins_when_both_groups_are_selected() {
    let mut bus = bus();
    let mut ipu = IPU::new();
    ipu.set(Button::Left, true);
    ipu.set(Button::A, true);
    bus.write_byte(0xFF00, 0xF0);
    ipu.update_byte(&mut bus);
    assert_eq!(bus.read_byte(0xFF00), 0xFD);
}

#[test]
fn with_no_group_selected_the_register_idles() {
    let mut bus = bus();
    let mut ipu = IPU::new();
    ipu.set(Button::A, true);
    bus.write_byte(0xFF00, 0x00);
    ipu.update_byte(&mut bus);
    assert_eq!(bus.read_byte(0xFF00), 0xCF);
    bus.write_byte(0xFF00, 0x8F);
    ipu.update_byte(&mut bus);
    assert_eq!(bus.read_byte(0xFF00), 0xCF);
}

#[test]
fn poll_records_the_key_and_shows_it() {
    let mut bus = bus();
    let mut ipu = IPU::new();
    bus.write_byte(0xFF00, 0x20);
    ipu.poll(&mut bus, key(KeyCode::Z, true));
    assert!(ipu.get(Button::A));
    assert_eq!(bus.read_byte(0xFF00), 0x2E);
    ipu.poll(&mut bus, key(KeyCode::Z, false));
    assert!(!ipu.get(Button::A));
    assert_eq!(bus.read_byte(0xFF00), 0x2F);
}

#[test]
fn poll_ignores_other_keys_and_other_events() {
    let mut bus = bus();
    let mut ipu = IPU::new();
    bus.write_byte(0xFF00, 0x10);
    ipu.poll(&mut bus, key(KeyCode::Other, true));
    assert_eq!(ipu.buttons, [false; 8]);
    ipu.poll(&mut bus, Some(KeyboardInput { virtual_keycode: None, pressed: true }));
    assert_eq!(ipu.buttons, [false; 8]);
    ipu.poll(&mut bus, None);
    assert_eq!(ipu.buttons, [false; 8]);
    assert_eq!(bus.read_byte(0xFF00), 0x1F);
}
