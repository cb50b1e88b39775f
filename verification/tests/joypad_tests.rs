use gb_core::io::{Buttons, IO};

fn all_buttons() -> [Buttons; 8] {
    [
        Buttons::A,
        Buttons::B,
        Buttons::Select,
        Buttons::Start,
        Buttons::Right,
        Buttons::Left,
        Buttons::Up,
        Buttons::Down,
    ]
}

#[test]
fn button_places() {
    let places: Vec<usize> = all_buttons().iter().map(|b| b.get_index()).collect();
    assert_eq!(places, vec![0, 1, 2, 3, 4, 5, 6, 7]);
}

#[test]
fn nothing_selected() {
    let mut io = IO::new();
    assert_eq!(io.read_btns(), 0xF0);
    io.btn_toggle(Buttons::A, true);
    io.btn_toggle(Buttons::Down, true);
    assert_eq!(io.read_btns(), 0xF0);
    io.poll_btns(0xFF);
    assert_eq!(io.read_btns(), 0xF0);
    let io = IO::default();
    assert_eq!(io.read_btns(), 0xF0);
}

#[test]
fn buttons_group() {
    let expected = [0xDEu8, 0xDD, 0xDB, 0xD7];
    for i in 0..4 {
        let mut io = IO::new();
        io.poll_btns(0x10);
        assert_eq!(io.read_btns(), 0xDF);
        io.btn_toggle(all_buttons()[i], true);
        assert_eq!(io.read_btns(), expected[i]);
        assert_eq!(io.pack_btn_keys(), expected[i] & 0x0F);
        assert_eq!(io.pack_dir_keys(), 0x0F);
        io.btn_toggle(all_buttons()[i + 4], true);
        assert_eq!(io.read_btns(), expected[i]);
        io.btn_toggle(all_buttons()[i], false);
        assert_eq!(io.read_btns(), 0xDF);
    }
}

#[test]
fn directions_group() {
    let expected = [0xEEu8, 0xED, 0xEB, 0xE7];
    for i in 0..4 {
        let mut io = IO::new();
        io.poll_btns(0x20);
        assert_eq!(io.read_btns(), 0xEF);
        io.btn_toggle(all_buttons()[i + 4], true);
        assert_eq!(io.read_btns(), expected[i]);
        assert_eq!(io.pack_dir_keys(), expected[i] & 0x0F);
        io.btn_toggle(all_buttons()[i], true);
        assert_eq!(io.read_btns(), expected[i]);
    }
}

#[test]
fn both_groups_selected_show_the_buttons() {
    let mut io = IO::new();
    io.poll_btns(0x00);
    assert_eq!(io.read_btns(), 0xCF);
    io.btn_toggle(Buttons::Up, true);
    assert_eq!(io.read_btns(), 0xCF);
    io.btn_toggle(Buttons::B, true);
    io.btn_toggle(Buttons::Select, true);
    assert_eq!(io.read_btns(), 0xC9);
}

#[test]
fn only_bits_five_and_four_select() {
    let mut io = IO::new();
    io.poll_btns(0xCF);
    assert!(io.get_btn_keys && io.get_dir_keys);
    io.poll_btns(0xEF);
    assert!(!io.get_btn_keys && io.get_dir_keys);
    io.poll_btns(0x1F);
    assert!(io.get_btn_keys && !io.get_dir_keys);
}

#[test]
fn interrupt_on_a_falling_key_bit() {
    let mut io = IO::new();
    // Nothing selected: no key is shown.
    assert!(!io.toggle_interrupts(Buttons::A, true));
    io.poll_btns(0x10);
    assert!(io.toggle_interrupts(Buttons::A, true));
    assert!(!io.toggle_interrupts(Buttons::A, false));
    assert!(!io.toggle_interrupts(Buttons::Right, true));
    io.btn_toggle(Buttons::A, true);
    assert!(!io.toggle_interrupts(Buttons::A, true));
    assert!(io.toggle_interrupts(Buttons::B, true));
    io.poll_btns(0x20);
    assert!(io.toggle_interrupts(Buttons::Right, true));
    assert!(!io.toggle_interrupts(Buttons::B, true));
    // With both groups selected the buttons are shown.
    io.poll_btns(0x00);
    assert!(io.toggle_interrupts(Buttons::Start, true));
    assert!(!io.toggle_interrupts(Buttons::Down, true));
}
