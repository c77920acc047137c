use maestro_tui::input::{key_to_bytes, KeyCode, KeyEvent, KeyModifiers};

fn make_key(code: KeyCode) -> KeyEvent {
    KeyEvent::new(code, KeyModifiers::empty())
}

fn make_key_with_mods(code: KeyCode, modifiers: KeyModifiers) -> KeyEvent {
    KeyEvent::new(code, modifiers)
}

#[test]
fn test_char_keys() {
    assert_eq!(key_to_bytes(&make_key(KeyCode::Char('a'))), b"a");
    assert_eq!(key_to_bytes(&make_key(KeyCode::Char('z'))), b"z");
    assert_eq!(key_to_bytes(&make_key(KeyCode::Char('A'))), b"A");
    assert_eq!(key_to_bytes(&make_key(KeyCode::Char('0'))), b"0");
    assert_eq!(key_to_bytes(&make_key(KeyCode::Char(' '))), b" ");
}

#[test]
fn test_ctrl_keys() {
    assert_eq!(
        key_to_bytes(&make_key_with_mods(KeyCode::Char('a'), KeyModifiers::control())),
        vec![1]
    );
    assert_eq!(
        key_to_bytes(&make_key_with_mods(KeyCode::Char('c'), KeyModifiers::control())),
        vec![3]
    );
    assert_eq!(
        key_to_bytes(&make_key_with_mods(KeyCode::Char('z'), KeyModifiers::control())),
        vec![26]
    );
    assert_eq!(
        key_to_bytes(&make_key_with_mods(KeyCode::Char('C'), KeyModifiers::control())),
        vec![3]
    );
}

#[test]
fn test_special_keys() {
    assert_eq!(key_to_bytes(&make_key(KeyCode::Enter)), b"\r");
    assert_eq!(key_to_bytes(&make_key(KeyCode::Backspace)), vec![127]);
    assert_eq!(key_to_bytes(&make_key(KeyCode::Tab)), b"\t");
    assert_eq!(key_to_bytes(&make_key(KeyCode::Esc)), vec![0x1b]);
}

#[test]
fn test_arrow_keys() {
    assert_eq!(key_to_bytes(&make_key(KeyCode::Up)), b"\x1b[A");
    assert_eq!(key_to_bytes(&make_key(KeyCode::Down)), b"\x1b[B");
    assert_eq!(key_to_bytes(&make_key(KeyCode::Right)), b"\x1b[C");
    assert_eq!(key_to_bytes(&make_key(KeyCode::Left)), b"\x1b[D");
}

#[test]
fn test_navigation_keys() {
    assert_eq!(key_to_bytes(&make_key(KeyCode::Home)), b"\x1b[H");
    assert_eq!(key_to_bytes(&make_key(KeyCode::End)), b"\x1b[F");
    assert_eq!(key_to_bytes(&make_key(KeyCode::PageUp)), b"\x1b[5~");
    assert_eq!(key_to_bytes(&make_key(KeyCode::PageDown)), b"\x1b[6~");
    assert_eq!(key_to_bytes(&make_key(KeyCode::Delete)), b"\x1b[3~");
    assert_eq!(key_to_bytes(&make_key(KeyCode::Insert)), b"\x1b[2~");
}

#[test]
fn test_function_keys() {
    assert_eq!(key_to_bytes(&make_key(KeyCode::F(1))), b"\x1bOP");
    assert_eq!(key_to_bytes(&make_key(KeyCode::F(2))), b"\x1bOQ");
    assert_eq!(key_to_bytes(&make_key(KeyCode::F(3))), b"\x1bOR");
    assert_eq!(key_to_bytes(&make_key(KeyCode::F(4))), b"\x1bOS");
    assert_eq!(key_to_bytes(&make_key(KeyCode::F(5))), b"\x1b[15~");
    assert_eq!(key_to_bytes(&make_key(KeyCode::F(6))), b"\x1b[17~");
    assert_eq!(key_to_bytes(&make_key(KeyCode::F(7))), b"\x1b[18~");
    assert_eq!(key_to_bytes(&make_key(KeyCode::F(8))), b"\x1b[19~");
    assert_eq!(key_to_bytes(&make_key(KeyCode::F(9))), b"\x1b[20~");
    assert_eq!(key_to_bytes(&make_key(KeyCode::F(10))), b"\x1b[21~");
    assert_eq!(key_to_bytes(&make_key(KeyCode::F(11))), b"\x1b[23~");
    assert_eq!(key_to_bytes(&make_key(KeyCode::F(12))), b"\x1b[24~");
    assert_eq!(key_to_bytes(&make_key(KeyCode::F(13))), Vec::<u8>::new());
}

#[test]
fn test_unknown_keys() {
    assert_eq!(key_to_bytes(&make_key(KeyCode::Null)), Vec::<u8>::new());
}

#[test]
fn test_unicode_chars() {
    assert_eq!(key_to_bytes(&make_key(KeyCode::Char('é'))), "é".as_bytes());
    assert_eq!(key_to_bytes(&make_key(KeyCode::Char('日'))), "日".as_bytes());
}

// --- further cases ---

#[test]
fn ctrl_non_letter_and_four_byte_chars() {
    assert_eq!(
        key_to_bytes(&make_key_with_mods(KeyCode::Char('1'), KeyModifiers::control())),
        vec![0x31u8.wrapping_sub(0x60)]
    );
    assert_eq!(key_to_bytes(&make_key(KeyCode::Char('🎉'))), "🎉".as_bytes());
    assert_eq!(key_to_bytes(&make_key(KeyCode::BackTab)), Vec::<u8>::new());
}
