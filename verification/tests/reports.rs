use ratbagtui::hid::{contains_bytes, is_mouse_node, ButtonListener};

#[test]
fn a_word_is_found_anywhere_in_a_text() {
    assert!(contains_bytes(b"usb-Logitech_G502-hidraw", b"Logitech"));
    assert!(contains_bytes(b"Logitech", b"Logitech"));
    assert!(contains_bytes(b"xxLogitech", b"Logitech"));
    assert!(contains_bytes(b"Logitechxx", b"Logitech"));
    assert!(contains_bytes(b"abc", b""));
    assert!(contains_bytes(b"", b""));
    assert!(contains_bytes(b"aab", b"ab"));
}

#[test]
fn a_word_that_is_not_there_is_not_found() {
    assert!(!contains_bytes(b"Logitec", b"Logitech"));
    assert!(!contains_bytes(b"", b"a"));
    assert!(!contains_bytes(b"logitech", b"Logitech"));
    assert!(!contains_bytes(b"Logi tech", b"Logitech"));
    assert!(!contains_bytes(b"aaa", b"ab"));
}

#[test]
fn the_node_of_the_mouse_is_known_by_its_name() {
    assert!(is_mouse_node("usb-Logitech_G502_HERO_Gaming_Mouse-if01-hidraw"));
    assert!(is_mouse_node("hidraw-Logitech"));
    assert!(!is_mouse_node("usb-Logitech_G502_HERO_Gaming_Mouse-event-mouse"));
    assert!(!is_mouse_node("usb-Razer_Viper-hidraw"));
    assert!(!is_mouse_node(""));
    assert!(!is_mouse_node("usb-L\u{f6}gitech-hidraw"));
}

#[test]
fn a_new_listener_holds_no_button() {
    assert_eq!(ButtonListener::new(), ButtonListener { previous: 0 });
}

#[test]
fn the_second_byte_of_a_report_holds_the_buttons() {
    let mut listener = ButtonListener::new();
    assert_eq!(listener.on_report(&[0x01, 0b0000_0101, 0xff]), vec![1, 3]);
    assert_eq!(listener.previous, 0b0000_0101);
}

#[test]
fn a_report_of_one_byte_holds_the_buttons_in_it() {
    let mut listener = ButtonListener::new();
    assert_eq!(listener.on_report(&[0b1000_0010]), vec![2, 8]);
    assert_eq!(listener.previous, 0b1000_0010);
}

#[test]
fn an_empty_report_says_nothing() {
    let mut listener = ButtonListener { previous: 0b11 };
    assert_eq!(listener.on_report(&[]), Vec::<u16>::new());
    assert_eq!(listener.previous, 0b11);
}

#[test]
fn a_button_that_is_held_is_not_pressed_again() {
    let mut listener = ButtonListener::new();
    assert_eq!(listener.on_report(&[0, 0b0000_0001]), vec![1]);
    assert_eq!(listener.on_report(&[0, 0b0000_0011]), vec![2]);
    assert_eq!(listener.on_report(&[0, 0b0000_0011]), Vec::<u16>::new());
    assert_eq!(listener.on_report(&[0, 0b0000_0010]), Vec::<u16>::new());
    assert_eq!(listener.on_report(&[0, 0b0000_0011]), vec![1]);
    assert_eq!(listener.on_report(&[0, 0]), Vec::<u16>::new());
    assert_eq!(listener.previous, 0);
}

#[test]
fn all_eight_buttons_are_told_in_rising_order() {
    let mut listener = ButtonListener::new();
    assert_eq!(listener.on_report(&[0, 0xff]), vec![1, 2, 3, 4, 5, 6, 7, 8]);
    let mut listener = ButtonListener { previous: 0b0101_0101 };
    assert_eq!(listener.on_report(&[9, 0xff, 9]), vec![2, 4, 6, 8]);
}
