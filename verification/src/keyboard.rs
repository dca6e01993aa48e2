//! The key event resolver.
//!
//! A key press or release first moves the scroll view, then is encoded for
//! the keyboard protocol that is in force, and the bytes, if there are any,
//! go to the pty through the decoupled writer, with a flush behind them.
//!
//! The encoding tables are the work of `termwiz`. What is decided here is
//! which protocol is in force, what the key does to the scroll view, and
//! what is sent.

use vstd::prelude::*;
use termwiz::escape::csi::KittyKeyboardFlags as KittyFlags;
use termwiz::input::KeyboardEncoding as Protocol;
use termwiz::input::{KeyCode, KeyCodeEncodeModes, Modifiers};
use crate::scroll::{scroll_offset_after, scrolled, ScrollKey};
use crate::writer::{MessageView, ThreadedWriter, WriterError, WriterState};

verus! {

/// `termwiz::input::KeyCode`: a key. It is handed to the encoder unread.
#[verifier::external_type_specification]
#[verifier::external_body]
pub struct ExKeyCode(KeyCode);

/// `termwiz::input::Modifiers`: the set of modifier keys held.
#[verifier::external_type_specification]
#[verifier::external_body]
pub struct ExModifiers(Modifiers);

/// `termwiz::Error`: the error of the key encoder. Only its text is asked
/// for.
#[verifier::external_type_specification]
#[verifier::external_body]
pub struct ExEncoderError(termwiz::Error);

/// A keyboard protocol.
#[derive(Clone, Copy, Debug, PartialEq, Eq, Structural)]
pub enum KeyboardEncoding {
    /// The baseline xterm encoding.
    Xterm,
    /// The enhanced `CSI u` encoding.
    CsiU,
    Win32,
    /// The kitty protocol, with its flag bits.
    Kitty(u16),
}

/// The modes that shape the encoding of a key.
#[derive(Clone, Copy, Debug, PartialEq, Eq, Structural)]
pub struct EncodeModes {
    pub encoding: KeyboardEncoding,
    pub application_cursor_keys: bool,
    pub newline_mode: bool,
    pub modify_other_keys: Option<i64>,
}

/// Why a key event could not be handled.
#[derive(Debug, PartialEq, Eq)]
pub enum KeyError {
    /// The key has no encoding under these modes. With it comes what the
    /// encoder has to say about it.
    Encoding(String),
    /// The writer's consumer has gone.
    BrokenPipe,
}

/// The mathematical content of a [`KeyError`].
pub enum KeyFailure {
    Encoding(Seq<char>),
    BrokenPipe,
}

impl View for KeyError {
    type V = KeyFailure;

    open spec fn view(&self) -> KeyFailure {
        match self {
            KeyError::Encoding(text) => KeyFailure::Encoding(text@),
            KeyError::BrokenPipe => KeyFailure::BrokenPipe,
        }
    }
}

impl KeyError {
    /// A description of the error: for a key without an encoding the
    /// encoder's own.
    pub fn message(&self) -> (text: &str)
        ensures
            text@ == match self@ {
                KeyFailure::Encoding(said) => said,
                KeyFailure::BrokenPipe => "broken pipe"@,
            },
    {
        match self {
            KeyError::Encoding(said) => said.as_str(),
            KeyError::BrokenPipe => "broken pipe",
        }
    }
}

/// Whether `result` is `outcome`, the error taken by its content.
pub open spec fn reports(result: Result<(), KeyError>, outcome: Result<(), KeyFailure>) -> bool {
    match result {
        Ok(()) => outcome is Ok,
        Err(error) => outcome == Err::<(), KeyFailure>(error@),
    }
}

/// What `key` means to the scroll view: what [`scroll_key`] returns for it.
pub uninterp spec fn scroll_key_of(key: KeyCode) -> ScrollKey;

/// Whether Shift is among `mods`: what [`holds_shift`] returns for them.
pub uninterp spec fn shift_held(mods: Modifiers) -> bool;

/// The number of a function key, and `None` for every other key: what
/// [`function_number`] returns for it.
pub uninterp spec fn function_number_of(key: KeyCode) -> Option<u8>;

/// The bytes that the encoder gives for a key event, or its error where it
/// has no encoding: what [`encode_key`] returns.
pub uninterp spec fn encoded(key: KeyCode, mods: Modifiers, modes: EncodeModes, is_down: bool)
    -> Result<Seq<u8>, termwiz::Error>;

/// What an error of the encoder says: what [`error_text`] returns for it.
pub uninterp spec fn error_text_of(error: termwiz::Error) -> Seq<char>;

/// What is said of a press of function key 0.
pub open spec fn no_function_key_zero() -> Seq<char> {
    "unhandled fkey number 0"@
}

/// The bytes that go out for a key event, or what is said where the key
/// cannot be encoded. There is no function key 0: a press of it is never
/// put to the encoder. Every other event is encoded as the encoder has it.
pub open spec fn key_bytes(key: KeyCode, mods: Modifiers, modes: EncodeModes, is_down: bool)
    -> Result<Seq<u8>, Seq<char>> {
    if is_down && function_number_of(key) == Some(0u8) {
        Err(no_function_key_zero())
    } else {
        match encoded(key, mods, modes, is_down) {
            Ok(bytes) => Ok(bytes),
            Err(error) => Err(error_text_of(error)),
        }
    }
}

/// Tells the variants of `KeyCode` apart: the two vertical arrows, Escape,
/// PageUp and PageDown are themselves, every other key is `Other`. The
/// answer depends on the key alone.
#[verifier::external_body]
fn scroll_key(key: &KeyCode) -> (kind: ScrollKey)
    ensures
        kind == scroll_key_of(*key),
{
    match key {
        KeyCode::UpArrow => ScrollKey::UpArrow,
        KeyCode::DownArrow => ScrollKey::DownArrow,
        KeyCode::Escape => ScrollKey::Escape,
        KeyCode::PageUp => ScrollKey::PageUp,
        KeyCode::PageDown => ScrollKey::PageDown,
        _ => ScrollKey::Other,
    }
}

/// `Modifiers::contains`, asked for `Modifiers::SHIFT`. The answer depends on
/// the modifiers alone.
#[verifier::external_body]
fn holds_shift(mods: &Modifiers) -> (held: bool)
    ensures
        held == shift_held(*mods),
{
    mods.contains(Modifiers::SHIFT)
}

/// Tells `KeyCode::Function` from the other variants of `KeyCode` and hands
/// out its number. The answer depends on the key alone.
#[verifier::external_body]
fn function_number(key: &KeyCode) -> (number: Option<u8>)
    ensures
        number == function_number_of(*key),
{
    match key {
        KeyCode::Function(number) => Some(*number),
        _ => None,
    }
}

/// `KeyCode::encode`, with the modes written in the encoder's own types, and
/// its string taken as bytes. The encoder does not return for a press of
/// function key 0, so that event is left out. Claimed is that the outcome
/// depends on the four arguments alone, and that a release always encodes,
/// to no bytes at all.
#[verifier::external_body]
fn encode_key(key: &KeyCode, mods: &Modifiers, modes: EncodeModes, is_down: bool) -> (result:
    Result<Vec<u8>, termwiz::Error>)
    requires
        is_down ==> function_number_of(*key) != Some(0u8),
    ensures
        match result {
            Ok(bytes) => encoded(*key, *mods, modes, is_down) == Ok::<Seq<u8>, termwiz::Error>(
                bytes@,
            ),
            Err(error) => encoded(*key, *mods, modes, is_down) == Err::<Seq<u8>, termwiz::Error>(
                error,
            ),
        },
        !is_down ==> result is Ok && result->Ok_0@.len() == 0,
{
    let encoding = match modes.encoding {
        KeyboardEncoding::Xterm => Protocol::Xterm,
        KeyboardEncoding::CsiU => Protocol::CsiU,
        KeyboardEncoding::Win32 => Protocol::Win32,
        KeyboardEncoding::Kitty(bits) => Protocol::Kitty(KittyFlags::from_bits_truncate(bits)),
    };
    let EncodeModes { application_cursor_keys, newline_mode, modify_other_keys, .. } = modes;
    let modes =
        KeyCodeEncodeModes { encoding, application_cursor_keys, newline_mode, modify_other_keys };
    key.encode(*mods, modes, is_down).map(String::into_bytes)
}

/// `ToString::to_string` on the encoder's error, which writes it out as its
/// `Display` has it. The text depends on the error alone.
#[verifier::external_body]
fn error_text(error: &termwiz::Error) -> (text: String)
    ensures
        text@ == error_text_of(*error),
{
    error.to_string()
}

/// The viewport: its size, the scrollback behind it, and the keyboard
/// protocols that the program on it has pushed, the latest last.
pub struct Screen {
    pub physical_rows: usize,
    pub scrollback_rows: usize,
    pub keyboard_stack: Vec<KeyboardEncoding>,
}

/// The configuration flags that the resolver reads.
#[derive(Clone, Copy, Debug, PartialEq, Eq, Structural)]
pub struct Config {
    /// Promote the baseline encoding to `CSI u`.
    pub enable_csi_u_key_encoding: bool,
    /// Report key events at a raised log level.
    pub debug_key_events: bool,
}

/// The state of the terminal, as far as key events read or change it.
pub struct TerminalState {
    pub screen: Screen,
    pub vertical_scroll_offset: usize,
    /// The protocol in force when the screen's stack is empty.
    pub keyboard_encoding: KeyboardEncoding,
    pub newline_mode: bool,
    pub application_cursor_keys: bool,
    pub modify_other_keys: Option<i64>,
    pub config: Config,
    /// Where encoded keys go.
    pub writer: ThreadedWriter,
}

/// The protocol in force: the top of `stack`, or `fallback` when the stack
/// is empty; and `CSI u` in place of the baseline where `promote` asks for
/// it.
pub open spec fn resolved_encoding(
    stack: Seq<KeyboardEncoding>,
    fallback: KeyboardEncoding,
    promote: bool,
) -> KeyboardEncoding {
    let chosen = if stack.len() > 0 {
        stack.last()
    } else {
        fallback
    };
    if chosen == KeyboardEncoding::Xterm && promote {
        KeyboardEncoding::CsiU
    } else {
        chosen
    }
}

/// What sending `bytes` does to a writer: nothing if there are none, else
/// the bytes are enqueued and a flush behind them.
pub open spec fn sent(writer: WriterState, bytes: Seq<u8>) -> WriterState {
    if bytes.len() == 0 {
        writer
    } else {
        writer.enqueue(MessageView::Data(bytes)).enqueue(MessageView::Flush)
    }
}

/// What handling a key event returns, given what the encoder made of it
/// and whether the writer's consumer is there.
pub open spec fn handled(bytes: Result<Seq<u8>, Seq<char>>, connected: bool) -> Result<
    (),
    KeyFailure,
> {
    match bytes {
        Err(said) => Err(KeyFailure::Encoding(said)),
        Ok(bytes) => if bytes.len() == 0 || connected {
            Ok(())
        } else {
            Err(KeyFailure::BrokenPipe)
        },
    }
}

impl TerminalState {
    /// The keyboard protocol in force.
    pub open spec fn effective_encoding(&self) -> KeyboardEncoding {
        resolved_encoding(
            self.screen.keyboard_stack@,
            self.keyboard_encoding,
            self.config.enable_csi_u_key_encoding,
        )
    }

    /// The modes under which a key is encoded now.
    pub open spec fn encode_modes(&self) -> EncodeModes {
        EncodeModes {
            encoding: self.effective_encoding(),
            application_cursor_keys: self.application_cursor_keys,
            newline_mode: self.newline_mode,
            modify_other_keys: self.modify_other_keys,
        }
    }

    /// Whether the scroll view lies within the scrollback: the offset is at
    /// most the number of rows that scrollback has above the viewport.
    pub open spec fn scroll_in_range(&self) -> bool {
        self.vertical_scroll_offset <= if self.screen.scrollback_rows > self.screen.physical_rows {
            self.screen.scrollback_rows - self.screen.physical_rows
        } else {
            0
        }
    }

    /// Whether `self` differs from `before` in nothing but the scroll offset
    /// and the writer.
    pub open spec fn same_modes_as(&self, before: &TerminalState) -> bool {
        &&& self.screen == before.screen
        &&& self.keyboard_encoding == before.keyboard_encoding
        &&& self.newline_mode == before.newline_mode
        &&& self.application_cursor_keys == before.application_cursor_keys
        &&& self.modify_other_keys == before.modify_other_keys
        &&& self.config == before.config
    }

    /// The keyboard protocol in force: the one pushed last on the screen's
    /// stack, or the terminal's own where nothing is pushed; `CSI u`
    /// instead of the baseline where the configuration enables it.
    pub fn effective_keyboard_encoding(&self) -> (encoding: KeyboardEncoding)
        ensures
            encoding == self.effective_encoding(),
    {
        let depth = self.screen.keyboard_stack.len();
        let chosen = if depth > 0 {
            self.screen.keyboard_stack[depth - 1]
        } else {
            self.keyboard_encoding
        };
        match chosen {
            KeyboardEncoding::Xterm => if self.config.enable_csi_u_key_encoding {
                KeyboardEncoding::CsiU
            } else {
                KeyboardEncoding::Xterm
            },
            other => other,
        }
    }

    /// Moves the scroll view as a key event asks: see [`scrolled`].
    pub fn scroll_for_key(&mut self, key: ScrollKey, shift: bool, is_down: bool)
        ensures
            final(self).vertical_scroll_offset == scrolled(
                old(self).vertical_scroll_offset as int,
                key,
                shift,
                is_down,
                old(self).screen.scrollback_rows as int,
                old(self).screen.physical_rows as int,
            ),
            final(self).same_modes_as(old(self)),
            final(self).writer == old(self).writer,
            old(self).scroll_in_range() ==> final(self).scroll_in_range(),
    {
        self.vertical_scroll_offset = scroll_offset_after(
            self.vertical_scroll_offset,
            key,
            shift,
            is_down,
            self.screen.scrollback_rows,
            self.screen.physical_rows,
        );
    }

    /// Sends an encoded key to the pty: the bytes, then a flush. An empty
    /// encoding sends nothing and succeeds.
    pub fn send_encoded(&mut self, bytes: &[u8]) -> (result: Result<(), KeyError>)
        ensures
            final(self).writer@ == sent(old(self).writer@, bytes@),
            reports(
                result,
                handled(Ok::<Seq<u8>, Seq<char>>(bytes@), old(self).writer@.connected),
            ),
            final(self).same_modes_as(old(self)),
            final(self).vertical_scroll_offset == old(self).vertical_scroll_offset,
    {
        if bytes.len() == 0 {
            return Ok(());
        }
        match self.writer.write(bytes) {
            Ok(_) => {},
            Err(WriterError::BrokenPipe) => {
                return Err(KeyError::BrokenPipe);
            },
        }
        match self.writer.flush() {
            Ok(()) => Ok(()),
            Err(WriterError::BrokenPipe) => Err(KeyError::BrokenPipe),
        }
    }

    /// Handles a key press (`is_down`) or release.
    ///
    /// The scroll view moves first, whatever becomes of the rest. Then the
    /// key is encoded under the protocol in force; an encoding that is not
    /// empty is sent to the pty and flushed. A key without an encoding is an
    /// error, and so is a press of function key 0, which does not exist.
    pub fn key_up_down(&mut self, key: KeyCode, mods: Modifiers, is_down: bool) -> (result: Result<
        (),
        KeyError,
    >)
        ensures
            final(self).vertical_scroll_offset == scrolled(
                old(self).vertical_scroll_offset as int,
                scroll_key_of(key),
                shift_held(mods),
                is_down,
                old(self).screen.scrollback_rows as int,
                old(self).screen.physical_rows as int,
            ),
            final(self).same_modes_as(old(self)),
            reports(
                result,
                handled(
                    key_bytes(key, mods, old(self).encode_modes(), is_down),
                    old(self).writer@.connected,
                ),
            ),
            final(self).writer@ == match key_bytes(key, mods, old(self).encode_modes(), is_down) {
                Ok(bytes) => sent(old(self).writer@, bytes),
                Err(_) => old(self).writer@,
            },
            is_down && function_number_of(key) == Some(0u8) ==> result is Err && result->Err_0@
                == KeyFailure::Encoding(no_function_key_zero()),
            !is_down ==> result is Ok && final(self).writer@ == old(self).writer@,
            old(self).scroll_in_range() ==> final(self).scroll_in_range(),
    {
        let kind = scroll_key(&key);
        let shift = holds_shift(&mods);
        self.scroll_for_key(kind, shift, is_down);
        if is_down {
            match function_number(&key) {
                Some(0) => {
                    return Err(KeyError::Encoding("unhandled fkey number 0".to_owned()));
                },
                _ => {},
            }
        }
        let modes = EncodeModes {
            encoding: self.effective_keyboard_encoding(),
            application_cursor_keys: self.application_cursor_keys,
            newline_mode: self.newline_mode,
            modify_other_keys: self.modify_other_keys,
        };
        match encode_key(&key, &mods, modes, is_down) {
            Ok(bytes) => self.send_encoded(bytes.as_slice()),
            Err(error) => Err(KeyError::Encoding(error_text(&error))),
        }
    }

    /// Handles a key release.
    pub fn key_up(&mut self, key: KeyCode, mods: Modifiers) -> (result: Result<(), KeyError>)
        ensures
            final(self).vertical_scroll_offset == scrolled(
                old(self).vertical_scroll_offset as int,
                scroll_key_of(key),
                shift_held(mods),
                false,
                old(self).screen.scrollback_rows as int,
                old(self).screen.physical_rows as int,
            ),
            final(self).same_modes_as(old(self)),
            final(self).writer@ == old(self).writer@,
            result is Ok,
            old(self).scroll_in_range() ==> final(self).scroll_in_range(),
    {
        self.key_up_down(key, mods, false)
    }

    /// Handles a key press.
    pub fn key_down(&mut self, key: KeyCode, mods: Modifiers) -> (result: Result<(), KeyError>)
        ensures
            final(self).vertical_scroll_offset == scrolled(
                old(self).vertical_scroll_offset as int,
                scroll_key_of(key),
                shift_held(mods),
                true,
                old(self).screen.scrollback_rows as int,
                old(self).screen.physical_rows as int,
            ),
            final(self).same_modes_as(old(self)),
            reports(
                result,
                handled(
                    key_bytes(key, mods, old(self).encode_modes(), true),
                    old(self).writer@.connected,
                ),
            ),
            final(self).writer@ == match key_bytes(key, mods, old(self).encode_modes(), true) {
                Ok(bytes) => sent(old(self).writer@, bytes),
                Err(_) => old(self).writer@,
            },
            function_number_of(key) == Some(0u8) ==> result is Err && result->Err_0@
                == KeyFailure::Encoding(no_function_key_zero()),
            old(self).scroll_in_range() ==> final(self).scroll_in_range(),
    {
        self.key_up_down(key, mods, true)
    }
}

/// What the encoder gives is what goes out. Bytes that are handed to a
/// writer whose consumer is there are enqueued as they are, as one message,
/// with one flush behind them and nothing before, between or after; and
/// that is a success. So a key that encodes to a single byte sends that
/// byte. Where the consumer has gone, nothing is enqueued and the pipe is
/// reported broken.
pub proof fn law_encoding_goes_out_unchanged(writer: WriterState, bytes: Seq<u8>)
    requires
        bytes.len() > 0,
    ensures
        writer.connected ==> sent(writer, bytes).queued == writer.queued + seq![
            MessageView::Data(bytes),
            MessageView::Flush,
        ],
        writer.connected ==> sent(writer, bytes).connected && handled(
            Ok::<Seq<u8>, Seq<char>>(bytes),
            true,
        ) is Ok,
        !writer.connected ==> sent(writer, bytes) == writer && handled(
            Ok::<Seq<u8>, Seq<char>>(bytes),
            false,
        ) == Err::<(), KeyFailure>(KeyFailure::BrokenPipe),
{
    if writer.connected {
        assert(sent(writer, bytes).queued =~= writer.queued + seq![
            MessageView::Data(bytes),
            MessageView::Flush,
        ]);
    }
}

} // verus!
