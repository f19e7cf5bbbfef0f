use zbl::routing::RoutingTable;
use zbl::util::convert_u16_string;
use zbl::{init, ro_initialize_once, Platform};

#[test]
fn destroy_event_fires_only_for_the_registered_pair() {
    let mut t = RoutingTable::new();
    t.register(7, 500);
    t.register(8, 600);

    let d = t.handle_destroy_event(7, 500, 0, 0);
    assert!(d.fire && d.unhook);

    let d = t.handle_destroy_event(7, 501, 0, 0);
    assert!(!d.fire && !d.unhook);

    let d = t.handle_destroy_event(9, 500, 0, 0);
    assert!(!d.fire && !d.unhook);

    let d = t.handle_destroy_event(8, 600, 0, 0);
    assert!(d.fire && d.unhook);
}

#[test]
fn destroy_event_ignores_sub_object_notifications() {
    let mut t = RoutingTable::new();
    t.register(7, 500);
    assert!(!t.handle_destroy_event(7, 500, 1, 0).fire);
    assert!(!t.handle_destroy_event(7, 500, 0, 2).fire);
    assert!(!t.handle_destroy_event(7, 0, 0, 0).fire);
}

#[test]
fn re_registration_routes_to_the_new_target() {
    let mut t = RoutingTable::new();
    t.register(7, 500);
    t.register(7, 777);
    assert!(!t.handle_destroy_event(7, 500, 0, 0).fire);
    assert!(t.handle_destroy_event(7, 777, 0, 0).fire);
}

#[test]
fn u16_buffer_is_cut_at_the_first_nul() {
    let mut buffer = [0u16; 16];
    for (i, b) in "Notepad".encode_utf16().enumerate() {
        buffer[i] = b;
    }
    assert_eq!(convert_u16_string(&buffer), "Notepad");
}

#[test]
fn u16_buffer_without_nul_is_decoded_whole() {
    let units: Vec<u16> = "grab".encode_utf16().collect();
    assert_eq!(convert_u16_string(&units), "grab");
    assert_eq!(convert_u16_string(&[]), "");
}

#[test]
fn u16_decoding_is_lossy_on_lone_surrogates() {
    let units = [0xD800u16, 0x0041];
    assert_eq!(convert_u16_string(&units), "\u{FFFD}A");
}

#[test]
fn text_after_the_first_nul_is_discarded() {
    let units = [0x48u16, 0x69, 0, 0x41, 0x42];
    assert_eq!(convert_u16_string(&units), "Hi");
}

#[test]
fn platform_initializes_exactly_once() {
    let mut p = Platform::new();
    assert!(ro_initialize_once(&mut p));
    assert!(!ro_initialize_once(&mut p));

    let mut p = Platform::new();
    let acts = init(&mut p);
    assert!(acts.do_ro_initialize);
    assert!(acts.do_set_dpi_aware);
    let acts = init(&mut p);
    assert!(!acts.do_ro_initialize);
    assert!(acts.do_set_dpi_aware);
    assert!(p.ro_initialized && p.dpi_aware);
}
