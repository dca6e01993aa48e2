use termpipe::keyboard::{
    Config, EncodeModes, KeyError, KeyboardEncoding, Screen, TerminalState,
};
use termpipe::scroll::ScrollKey;
use termpipe::writer::{ThreadedWriter, WriterMessage};
use termwiz::input::{KeyCode, Modifiers};

fn terminal() -> TerminalState {
    TerminalState {
        screen: Screen {
            physical_rows: 24,
            scrollback_rows: 100,
            keyboard_stack: Vec::new(),
        },
        vertical_scroll_offset: 0,
        keyboard_encoding: KeyboardEncoding::Xterm,
        newline_mode: false,
        application_cursor_keys: false,
        modify_other_keys: None,
        config: Config {
            enable_csi_u_key_encoding: false,
            debug_key_events: false,
        },
        writer: ThreadedWriter::new(),
    }
}

fn sent(state: &mut TerminalState) -> Vec<Option<Vec<u8>>> {
    let mut out = Vec::new();
    while let Some(message) = state.writer.next_message() {
        state.writer.complete(true);
        out.push(match message {
            WriterMessage::Data(bytes) => Some(bytes),
            WriterMessage::Flush => None,
        });
    }
    out
}

#[test]
fn printable_ascii_key_round_trips() {
    for byte in 0x20u8..0x7f {
        let mut state = terminal();
        let key = KeyCode::Char(byte as char);
        assert_eq!(state.key_down(key, Modifiers::NONE), Ok(()));
        assert_eq!(sent(&mut state), vec![Some(vec![byte]), None]);
        assert_eq!(state.vertical_scroll_offset, 0);
    }
}

#[test]
fn key_release_sends_nothing() {
    let mut state = terminal();
    assert_eq!(state.key_up(KeyCode::Char('a'), Modifiers::NONE), Ok(()));
    assert_eq!(sent(&mut state), Vec::<Option<Vec<u8>>>::new());
    assert_eq!(
        state.key_up_down(KeyCode::Enter, Modifiers::CTRL, false),
        Ok(())
    );
    assert_eq!(sent(&mut state), Vec::<Option<Vec<u8>>>::new());
}

#[test]
fn modifier_only_key_sends_nothing() {
    let mut state = terminal();
    assert_eq!(state.key_down(KeyCode::LeftShift, Modifiers::SHIFT), Ok(()));
    assert_eq!(state.key_down(KeyCode::Control, Modifiers::NONE), Ok(()));
    assert_eq!(sent(&mut state), Vec::<Option<Vec<u8>>>::new());
}

#[test]
fn arrow_key_sends_its_sequence_and_resets_the_scroll() {
    let mut state = terminal();
    state.vertical_scroll_offset = 40;
    assert_eq!(state.key_down(KeyCode::UpArrow, Modifiers::NONE), Ok(()));
    assert_eq!(state.vertical_scroll_offset, 0);
    assert_eq!(sent(&mut state), vec![Some(b"\x1b[A".to_vec()), None]);
}

#[test]
fn arrow_key_release_resets_the_scroll() {
    for key in [KeyCode::UpArrow, KeyCode::DownArrow, KeyCode::Escape] {
        let mut state = terminal();
        state.vertical_scroll_offset = 33;
        assert_eq!(state.key_up(key, Modifiers::NONE), Ok(()));
        assert_eq!(state.vertical_scroll_offset, 0);
        assert_eq!(sent(&mut state), Vec::<Option<Vec<u8>>>::new());
    }
}

#[test]
fn application_cursor_keys_change_the_arrow_sequence() {
    let mut state = terminal();
    state.application_cursor_keys = true;
    assert_eq!(state.key_down(KeyCode::DownArrow, Modifiers::NONE), Ok(()));
    assert_eq!(sent(&mut state), vec![Some(b"\x1bOB".to_vec()), None]);
}

#[test]
fn newline_mode_follows_enter_with_a_line_feed() {
    let mut state = terminal();
    assert_eq!(state.key_down(KeyCode::Enter, Modifiers::NONE), Ok(()));
    assert_eq!(sent(&mut state), vec![Some(b"\r".to_vec()), None]);
    state.newline_mode = true;
    assert_eq!(state.key_down(KeyCode::Enter, Modifiers::NONE), Ok(()));
    assert_eq!(sent(&mut state), vec![Some(b"\r\n".to_vec()), None]);
}

#[test]
fn shift_page_up_scrolls_and_still_sends() {
    let mut state = terminal();
    assert_eq!(state.key_down(KeyCode::PageUp, Modifiers::SHIFT), Ok(()));
    assert_eq!(state.vertical_scroll_offset, 12);
    assert_eq!(sent(&mut state), vec![Some(b"\x1b[5;2~".to_vec()), None]);
    assert_eq!(state.key_down(KeyCode::PageDown, Modifiers::SHIFT), Ok(()));
    assert_eq!(state.vertical_scroll_offset, 0);
    assert_eq!(sent(&mut state), vec![Some(b"\x1b[6;2~".to_vec()), None]);
}

#[test]
fn page_up_without_shift_does_not_scroll() {
    let mut state = terminal();
    state.vertical_scroll_offset = 5;
    assert_eq!(state.key_down(KeyCode::PageUp, Modifiers::NONE), Ok(()));
    assert_eq!(state.vertical_scroll_offset, 5);
    assert_eq!(state.key_down(KeyCode::PageUp, Modifiers::CTRL), Ok(()));
    assert_eq!(state.vertical_scroll_offset, 5);
    assert_eq!(state.key_up(KeyCode::PageUp, Modifiers::SHIFT), Ok(()));
    assert_eq!(state.vertical_scroll_offset, 5);
}

#[test]
fn shift_among_other_modifiers_scrolls() {
    let mut state = terminal();
    assert_eq!(
        state.key_down(KeyCode::PageUp, Modifiers::SHIFT | Modifiers::CTRL),
        Ok(())
    );
    assert_eq!(state.vertical_scroll_offset, 12);
}

#[test]
fn shift_page_up_is_clamped_to_the_scrollback() {
    let mut state = terminal();
    state.vertical_scroll_offset = 70;
    assert_eq!(state.key_down(KeyCode::PageUp, Modifiers::SHIFT), Ok(()));
    assert_eq!(state.vertical_scroll_offset, 75);
}

#[test]
fn scroll_for_key_values() {
    let mut state = terminal();
    state.scroll_for_key(ScrollKey::PageUp, true, true);
    assert_eq!(state.vertical_scroll_offset, 12);
    state.scroll_for_key(ScrollKey::Other, true, true);
    assert_eq!(state.vertical_scroll_offset, 12);
    state.scroll_for_key(ScrollKey::Escape, false, false);
    assert_eq!(state.vertical_scroll_offset, 0);
}

#[test]
fn effective_encoding_prefers_the_top_of_the_stack() {
    let mut state = terminal();
    assert_eq!(state.effective_keyboard_encoding(), KeyboardEncoding::Xterm);
    state.keyboard_encoding = KeyboardEncoding::Win32;
    assert_eq!(state.effective_keyboard_encoding(), KeyboardEncoding::Win32);
    state.screen.keyboard_stack.push(KeyboardEncoding::CsiU);
    state.screen.keyboard_stack.push(KeyboardEncoding::Kitty(3));
    assert_eq!(
        state.effective_keyboard_encoding(),
        KeyboardEncoding::Kitty(3)
    );
    state.screen.keyboard_stack.pop();
    assert_eq!(state.effective_keyboard_encoding(), KeyboardEncoding::CsiU);
}

#[test]
fn configuration_promotes_the_baseline_encoding() {
    let mut state = terminal();
    state.config.enable_csi_u_key_encoding = true;
    assert_eq!(state.effective_keyboard_encoding(), KeyboardEncoding::CsiU);
    state.screen.keyboard_stack.push(KeyboardEncoding::Xterm);
    assert_eq!(state.effective_keyboard_encoding(), KeyboardEncoding::CsiU);
    state.screen.keyboard_stack.push(KeyboardEncoding::Win32);
    assert_eq!(state.effective_keyboard_encoding(), KeyboardEncoding::Win32);
}

#[test]
fn encoding_in_force_reaches_the_encoder() {
    let mut state = terminal();
    assert_eq!(state.key_down(KeyCode::Char('i'), Modifiers::CTRL), Ok(()));
    assert_eq!(sent(&mut state), vec![Some(b"\t".to_vec()), None]);
    state.config.enable_csi_u_key_encoding = true;
    assert_eq!(state.key_down(KeyCode::Char('i'), Modifiers::CTRL), Ok(()));
    assert_eq!(sent(&mut state), vec![Some(b"\x1b[105;5u".to_vec()), None]);
}

#[test]
fn modify_other_keys_reaches_the_encoder() {
    let mut state = terminal();
    state.modify_other_keys = Some(2);
    assert_eq!(state.key_down(KeyCode::Char('a'), Modifiers::CTRL), Ok(()));
    assert_eq!(sent(&mut state), vec![Some(b"\x1b[27;5;97~".to_vec()), None]);
}

#[test]
fn encoder_failure_is_reported() {
    let mut state = terminal();
    state.vertical_scroll_offset = 3;
    assert_eq!(
        state.key_down(KeyCode::Function(25), Modifiers::NONE),
        Err(KeyError::Encoding("unhandled fkey number 25".to_string()))
    );
    assert_eq!(sent(&mut state), Vec::<Option<Vec<u8>>>::new());
    assert_eq!(state.vertical_scroll_offset, 3);
    assert_eq!(state.key_up(KeyCode::Function(25), Modifiers::NONE), Ok(()));
}

#[test]
fn broken_pipe_is_reported() {
    let mut state = terminal();
    state.vertical_scroll_offset = 9;
    state.writer.complete(false);
    assert_eq!(
        state.key_down(KeyCode::Char('a'), Modifiers::NONE),
        Err(KeyError::BrokenPipe)
    );
    assert_eq!(
        state.key_down(KeyCode::UpArrow, Modifiers::NONE),
        Err(KeyError::BrokenPipe)
    );
    assert_eq!(state.vertical_scroll_offset, 0);
    assert_eq!(state.key_down(KeyCode::LeftShift, Modifiers::NONE), Ok(()));
    assert_eq!(state.key_up(KeyCode::Char('a'), Modifiers::NONE), Ok(()));
}

#[test]
fn send_encoded_values() {
    let mut state = terminal();
    assert_eq!(state.send_encoded(b""), Ok(()));
    assert_eq!(sent(&mut state), Vec::<Option<Vec<u8>>>::new());
    assert_eq!(state.send_encoded(b"xyz"), Ok(()));
    assert_eq!(sent(&mut state), vec![Some(b"xyz".to_vec()), None]);
    state.writer.complete(false);
    assert_eq!(state.send_encoded(b""), Ok(()));
    assert_eq!(state.send_encoded(b"xyz"), Err(KeyError::BrokenPipe));
}

#[test]
fn key_error_messages() {
    assert_eq!(
        KeyError::Encoding("no such key".to_string()).message(),
        "no such key"
    );
    assert_eq!(KeyError::BrokenPipe.message(), "broken pipe");
}

#[test]
fn encode_modes_hold_plain_values() {
    let modes = EncodeModes {
        encoding: KeyboardEncoding::Xterm,
        application_cursor_keys: false,
        newline_mode: true,
        modify_other_keys: Some(1),
    };
    assert_eq!(modes, modes.clone());
    assert_ne!(modes.encoding, KeyboardEncoding::CsiU);
}

#[test]
fn function_key_zero_cannot_be_encoded() {
    for mods in [Modifiers::NONE, Modifiers::SHIFT, Modifiers::CTRL | Modifiers::ALT] {
        let mut state = terminal();
        state.vertical_scroll_offset = 7;
        assert_eq!(
            state.key_down(KeyCode::Function(0), mods),
            Err(KeyError::Encoding("unhandled fkey number 0".to_string()))
        );
        assert_eq!(
            state.key_up_down(KeyCode::Function(0), mods, true),
            Err(KeyError::Encoding("unhandled fkey number 0".to_string()))
        );
        assert_eq!(sent(&mut state), Vec::<Option<Vec<u8>>>::new());
        assert_eq!(state.vertical_scroll_offset, 7);
        assert_eq!(state.key_up(KeyCode::Function(0), mods), Ok(()));
        assert_eq!(sent(&mut state), Vec::<Option<Vec<u8>>>::new());
    }
}

#[test]
fn function_keys_send_their_sequences() {
    let mut state = terminal();
    assert_eq!(state.key_down(KeyCode::Function(1), Modifiers::NONE), Ok(()));
    assert_eq!(sent(&mut state), vec![Some(b"\x1bOP".to_vec()), None]);
    assert_eq!(state.key_down(KeyCode::Function(4), Modifiers::SHIFT), Ok(()));
    assert_eq!(sent(&mut state), vec![Some(b"\x1b[1;2S".to_vec()), None]);
    assert_eq!(state.key_down(KeyCode::Function(5), Modifiers::NONE), Ok(()));
    assert_eq!(sent(&mut state), vec![Some(b"\x1b[15~".to_vec()), None]);
    assert_eq!(state.key_down(KeyCode::Function(24), Modifiers::NONE), Ok(()));
    assert_eq!(sent(&mut state), vec![Some(b"\x1b[45~".to_vec()), None]);
}

#[test]
fn encoder_error_carries_the_encoder_message() {
    let mut state = terminal();
    let error = state
        .key_down(KeyCode::Function(200), Modifiers::SHIFT)
        .expect_err("there is no such function key");
    assert_eq!(error.message(), "unhandled fkey number 200");
    assert_eq!(
        error,
        KeyError::Encoding("unhandled fkey number 200".to_string())
    );
}
