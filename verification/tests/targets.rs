use zbl::display::Display;
use zbl::error::CaptureError;
use zbl::geometry::Rect;

fn displays() -> Vec<Display> {
    vec![
        Display::new(
            1000,
            "\\\\.\\DISPLAY1".to_string(),
            Rect { left: 0, top: 0, right: 2560, bottom: 1440 },
        ),
        Display::new(
            1001,
            "\\\\.\\DISPLAY2".to_string(),
            Rect { left: -1920, top: 0, right: 0, bottom: 1080 },
        ),
    ]
}

#[test]
fn display_find_by_id_indexes_enumeration_order() {
    let d = Display::find_by_id(displays(), 1).expect("second display");
    assert_eq!(d.handle, 1001);
    assert_eq!(d.display_name, "\\\\.\\DISPLAY2");
}

#[test]
fn display_find_by_id_out_of_range_is_target_not_found() {
    match Display::find_by_id(displays(), 2) {
        Err(CaptureError::TargetNotFound) => {}
        other => panic!("expected TargetNotFound, got {:?}", other),
    }
    match Display::find_by_id(Vec::new(), 0) {
        Err(CaptureError::TargetNotFound) => {}
        other => panic!("expected TargetNotFound, got {:?}", other),
    }
}

#[test]
fn display_virtual_size_spans_its_rectangle() {
    let ds = displays();
    assert_eq!(ds[0].get_virtual_size(), (2560, 1440));
    assert_eq!(ds[1].get_virtual_size(), (1920, 1080));
}

#[test]
fn display_client_box_covers_the_whole_virtual_rectangle() {
    let ds = displays();
    let b = ds[1].get_client_box();
    assert_eq!((b.left, b.top, b.right, b.bottom), (0, 0, 1920, 1080));
    assert_eq!((b.front, b.back), (0, 1));
}
