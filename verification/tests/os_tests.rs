use avila::events::{KeyEvent, KeyState};
use avila::input::{Key, KeyCode, ModifierKeys, MouseButton};
use avila::network::NetworkBuffer;
use avila::pathutil::PathUtil;
use avila::threading::{Semaphore, ShutdownFlag};

#[test]
fn test_path_util() {
    let path = "test/dir/file.txt";

    assert_eq!(PathUtil::filename(path), Some("file.txt".to_string()));
    assert_eq!(PathUtil::extension(path), Some("txt".to_string()));
}

#[test]
fn path_util_parent_and_join() {
    assert_eq!(PathUtil::parent("test/dir/file.txt"), Some("test/dir".to_string()));
    assert_eq!(PathUtil::parent("file.txt"), Some(String::new()));
    assert_eq!(PathUtil::parent(""), None);

    assert_eq!(PathUtil::join("a/b", "c.txt"), "a/b/c.txt");
    assert_eq!(PathUtil::join("a/b/", "c.txt"), "a/b/c.txt");
    assert_eq!(PathUtil::join("a/b", "/abs"), "/abs");
    assert_eq!(PathUtil::join("", "c.txt"), "c.txt");
}

#[test]
fn path_util_edge_cases() {
    assert_eq!(PathUtil::filename("dir/"), None);
    assert_eq!(PathUtil::filename(""), None);
    assert_eq!(PathUtil::filename("plain"), Some("plain".to_string()));
    assert_eq!(PathUtil::extension("dir/.hidden"), None);
    assert_eq!(PathUtil::extension("archive.tar.gz"), Some("gz".to_string()));
    assert_eq!(PathUtil::extension("noext"), None);
}

#[test]
fn test_network_buffer() {
    let mut buf = NetworkBuffer::new();
    buf.write_u8(42);
    buf.write_u16(1000);
    buf.write_string("test");

    assert!(!buf.is_empty());
    assert!(buf.len() > 0);
}

#[test]
fn network_buffer_encodes_big_endian() {
    let mut buf = NetworkBuffer::with_capacity(32);
    buf.write_u8(0xab);
    buf.write_u16(0x0102);
    buf.write_u32(0x03040506);
    buf.write_u64(0x0708090a0b0c0d0e);
    assert_eq!(
        buf.as_bytes(),
        &[0xab, 0x01, 0x02, 0x03, 0x04, 0x05, 0x06, 0x07, 0x08, 0x09, 0x0a, 0x0b, 0x0c, 0x0d,
            0x0e]
    );

    buf.clear();
    assert!(buf.is_empty());
    buf.write_string("hi");
    assert_eq!(buf.as_bytes(), &[0, 0, 0, 2, b'h', b'i']);
}

#[test]
fn test_key_event() {
    let key_event = KeyEvent::new(Key::Code(KeyCode::A), KeyState::Pressed)
        .with_modifiers(ModifierKeys::ctrl())
        .with_repeat(false);

    assert!(key_event.is_pressed());
    assert!(!key_event.is_released());
    assert!(key_event.modifiers.contains(ModifierKeys::ctrl()));
}

#[test]
fn test_keycode_categories() {
    assert!(KeyCode::A.is_letter());
    assert!(KeyCode::Key5.is_digit());
    assert!(KeyCode::F10.is_function_key());
    assert!(KeyCode::ShiftLeft.is_modifier());
}

#[test]
fn test_mouse_button_index() {
    assert_eq!(MouseButton::Left.to_index(), 0);
    assert_eq!(MouseButton::Right.to_index(), 1);
    assert_eq!(MouseButton::from_index(2), MouseButton::Middle);
}

#[test]
fn test_modifier_keys() {
    let mods = ModifierKeys::new(true, true, false, false);
    assert!(mods.has_shift());
    assert!(mods.has_ctrl());
    assert!(!mods.has_alt());
    assert!(!mods.has_meta());
}

#[test]
fn modifier_keys_insert_remove() {
    let mut mods = ModifierKeys::empty();
    mods.insert(ModifierKeys::alt());
    mods.insert(ModifierKeys::meta());
    assert!(mods.has_alt());
    assert!(mods.has_meta());
    assert!(!mods.has_shift());
    mods.remove(ModifierKeys::alt());
    assert!(!mods.has_alt());
    assert!(mods.has_meta());
}

#[test]
fn test_semaphore() {
    let mut sem = Semaphore::new(2);

    assert_eq!(sem.available(), 2);
    sem.acquire();
    assert_eq!(sem.available(), 1);
    sem.acquire();
    assert_eq!(sem.available(), 0);

    sem.release();
    assert_eq!(sem.available(), 1);
}

#[test]
fn semaphore_try_acquire_at_zero() {
    let mut sem = Semaphore::new(1);
    assert!(sem.try_acquire());
    assert!(!sem.try_acquire());
    assert_eq!(sem.available(), 0);
}

#[test]
fn test_shutdown_flag() {
    let mut flag = ShutdownFlag::new();
    assert!(!flag.is_shutdown());

    flag.shutdown();
    assert!(flag.is_shutdown());
}
