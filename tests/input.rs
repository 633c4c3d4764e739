use invaders::input::{button_binding, held_mask, Button};
use invaders::ports::DeviceIO;

#[test]
fn bindings_table() {
    assert_eq!(button_binding(Button::Coin), (1, 0));
    assert_eq!(button_binding(Button::P2Start), (1, 1));
    assert_eq!(button_binding(Button::P1Start), (1, 2));
    assert_eq!(button_binding(Button::P1Shot), (1, 4));
    assert_eq!(button_binding(Button::P2Shot), (2, 4));
    assert_eq!(button_binding(Button::P1Left), (1, 5));
    assert_eq!(button_binding(Button::P2Left), (2, 5));
    assert_eq!(button_binding(Button::P1Right), (1, 6));
    assert_eq!(button_binding(Button::P2Right), (2, 6));
    assert_eq!(button_binding(Button::Tilt), (2, 2));
}

#[test]
fn held_buttons_set_bits() {
    let mut io = DeviceIO::power_up();
    io.handle_joypad(&[Button::Coin, Button::P1Start, Button::P2Right]);
    assert_eq!(io.inp1, 0x05);
    assert_eq!(io.inp2, 0x40);
}

#[test]
fn released_buttons_clear_bits_and_unbound_bits_stay() {
    let mut io = DeviceIO::power_up();
    io.inp1 = 0xFF;
    io.inp2 = 0xFF;
    io.handle_joypad(&[Button::P1Shot]);
    assert_eq!(io.inp1, 0x88 | 0x10);
    assert_eq!(io.inp2, 0x8B);
    io.handle_joypad(&[]);
    assert_eq!(io.inp1, 0x88);
    assert_eq!(io.inp2, 0x8B);
}

#[test]
fn masks_per_port() {
    let all = [
        Button::Coin,
        Button::P2Start,
        Button::P1Start,
        Button::P1Shot,
        Button::P2Shot,
        Button::P1Left,
        Button::P2Left,
        Button::P1Right,
        Button::P2Right,
        Button::Tilt,
    ];
    assert_eq!(held_mask(&all, 1), 0x77);
    assert_eq!(held_mask(&all, 2), 0x74);
    assert_eq!(held_mask(&all, 3), 0);
}
