use orpheusdl_tray::icon::{load_icon, try_load_icon};
use orpheusdl_tray::tray::{menu_action, menu_entries, tray_label, MenuAction};

const TWO_PIXEL_PNG: [u8; 71] = [
    137, 80, 78, 71, 13, 10, 26, 10, 0, 0, 0, 13, 73, 72, 68, 82, 0, 0, 0, 2, 0, 0, 0, 1, 8, 6, 0,
    0, 0, 244, 34, 127, 138, 0, 0, 0, 14, 73, 68, 65, 84, 120, 156, 99, 248, 207, 192, 0, 66, 13,
    0, 15, 122, 3, 126, 119, 233, 127, 151, 0, 0, 0, 0, 73, 69, 78, 68, 174, 66, 96, 130,
];

#[test]
fn menu_has_folder_and_quit() {
    let entries = menu_entries();
    let pairs: Vec<(String, String)> = entries.into_iter().map(|e| (e.id, e.text)).collect();
    assert_eq!(
        pairs,
        vec![
            ("folder".to_string(), "Open Program Folder".to_string()),
            ("quit".to_string(), "Quit".to_string())
        ]
    );
    assert_eq!(tray_label(), "OrpheusDL");
}

#[test]
fn menu_ids_dispatch() {
    assert_eq!(menu_action("folder"), MenuAction::OpenFolder);
    assert_eq!(menu_action("quit"), MenuAction::Quit);
    assert_eq!(menu_action("Quit"), MenuAction::Ignore);
    assert_eq!(menu_action(""), MenuAction::Ignore);
    for e in menu_entries() {
        assert_ne!(menu_action(&e.id), MenuAction::Ignore);
    }
}

const ONE_PIXEL_GIF: [u8; 35] = [
    0x47, 0x49, 0x46, 0x38, 0x39, 0x61, 0x01, 0x00, 0x01, 0x00, 0x80, 0x00, 0x00, 0xFF, 0x00, 0x00,
    0x00, 0x00, 0xFF, 0x2C, 0x00, 0x00, 0x00, 0x00, 0x01, 0x00, 0x01, 0x00, 0x00, 0x02, 0x02, 0x44,
    0x01, 0x00, 0x3B,
];

#[test]
fn icon_of_a_decodable_png() {
    let icon = load_icon(&TWO_PIXEL_PNG);
    assert_eq!((icon.width, icon.height), (2, 1));
    assert_eq!(icon.rgba, vec![255, 0, 0, 255, 0, 0, 255, 128]);
}

#[test]
fn icon_format_is_guessed() {
    let icon = try_load_icon(&ONE_PIXEL_GIF).expect("a valid GIF");
    assert_eq!((icon.width, icon.height), (1, 1));
    assert_eq!(icon.rgba, vec![255, 0, 0, 255]);
}

#[test]
fn icon_is_decoded_to_rgba() {
    let icon = try_load_icon(&TWO_PIXEL_PNG).expect("a valid PNG");
    assert_eq!(icon.width, 2);
    assert_eq!(icon.height, 1);
    assert_eq!(icon.rgba, vec![255, 0, 0, 255, 0, 0, 255, 128]);
    assert_eq!(icon.rgba.len(), 4 * icon.width as usize * icon.height as usize);
}

#[test]
fn garbage_is_not_an_icon() {
    assert!(try_load_icon(b"not an image").is_none());
    assert!(try_load_icon(&TWO_PIXEL_PNG[..20]).is_none());
    assert!(try_load_icon(&ONE_PIXEL_GIF[..12]).is_none());
}
