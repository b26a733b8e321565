//! Decoding key presses into hint input.
use vstd::prelude::*;

verus! {

/// Keysym of the key that cancels a selection (X11 `Escape`).
pub const KEYSYM_ESCAPE: u32 = 0xff1b;

/// Keysym of the key that erases the last typed character (X11 `BackSpace`).
pub const KEYSYM_BACKSPACE: u32 = 0xff08;

/// What a decoded key press means to the selection.
pub enum KeyPress {
    /// Abandon the selection.
    Cancel,
    /// Remove the last typed character.
    Erase,
    /// Append this text to what was typed.
    Text(String),
    /// Not hint input (function keys, arrows, keys with long names).
    Ignore,
}

/// What `str::to_lowercase` makes of a text.
pub uninterp spec fn lower_of(s: Seq<char>) -> Seq<char>;

/// Relies on str::to_lowercase: the result depends on the characters alone.
#[verifier::external_body]
fn lowercase(s: &str) -> (r: String)
    ensures
        r@ == lower_of(s@),
{
    s.to_lowercase()
}

/// The meaning of a press of the key with keysym `sym` and name `name`.
pub open spec fn press_meaning(p: KeyPress, sym: u32, name: Seq<char>) -> bool {
    if sym == KEYSYM_ESCAPE {
        p is Cancel
    } else if sym == KEYSYM_BACKSPACE {
        p is Erase
    } else if name.len() == 1 {
        p matches KeyPress::Text(t) && t@ == lower_of(name)
    } else {
        p is Ignore
    }
}

/// Classifies a pressed key by its keysym and canonical name: the cancel and
/// erase keys first, then any key whose name is one character, which types
/// that character in lower case.
pub fn key_press(sym: u32, name: &str) -> (r: KeyPress)
    ensures
        press_meaning(r, sym, name@),
{
    if sym == KEYSYM_ESCAPE {
        KeyPress::Cancel
    } else if sym == KEYSYM_BACKSPACE {
        KeyPress::Erase
    } else if name.unicode_len() == 1 {
        KeyPress::Text(lowercase(name))
    } else {
        KeyPress::Ignore
    }
}

/// The wire value of the keymap format that the decoder reads
/// (`wl_keyboard.keymap_format.xkb_v1`).
pub const KEYMAP_FORMAT_XKB_V1: u32 = 1;

/// What is added to a raw key code from the display server to make an xkb
/// keycode.
pub const KEYCODE_OFFSET: u32 = 8;

/// The text of a keymap payload: the bytes before its first NUL, or all of
/// them where there is none.
pub fn keymap_text(payload: &Vec<u8>) -> (r: Vec<u8>)
    ensures
        r@.len() <= payload@.len(),
        r@ == payload@.take(r@.len() as int),
        forall|k: int| 0 <= k < r@.len() ==> #[trigger] r@[k] != 0,
        r@.len() < payload@.len() ==> payload@[r@.len() as int] == 0,
{
    let mut text: Vec<u8> = Vec::new();
    let mut i: usize = 0;
    while i < payload.len()
        invariant
            i <= payload.len(),
            text@ == payload@.take(i as int),
            forall|k: int| 0 <= k < i ==> #[trigger] payload@[k] != 0,
        decreases payload.len() - i,
    {
        if payload[i] == 0 {
            return text;
        }
        text.push(payload[i]);
        i += 1;
        assert(text@ =~= payload@.take(i as int));
    }
    text
}

/// Whether the decoder has a compiled keymap. Without one, key and modifier
/// events are dropped.
pub struct KeyDecoder {
    pub keymap_loaded: bool,
}

impl KeyDecoder {
    /// A decoder that has not received a keymap.
    pub fn new() -> (r: KeyDecoder)
        ensures
            !r.keymap_loaded,
    {
        KeyDecoder { keymap_loaded: false }
    }

    /// Whether a keymap announced in `format` is to be compiled; one in any
    /// other format is ignored.
    pub fn accepts_keymap(format: u32) -> (r: bool)
        ensures
            r == (format == KEYMAP_FORMAT_XKB_V1),
    {
        format == KEYMAP_FORMAT_XKB_V1
    }

    /// Records the outcome of compiling a keymap: a compiled one loads the
    /// decoder; a failed compile leaves it as it was.
    pub fn keymap_compiled(&mut self, compiled: bool)
        ensures
            final(self).keymap_loaded == (old(self).keymap_loaded || compiled),
    {
        if compiled {
            self.keymap_loaded = true;
        }
    }

    /// Whether a modifier event is to update the decode state.
    pub fn tracks_modifiers(&self) -> (r: bool)
        ensures
            r == self.keymap_loaded,
    {
        self.keymap_loaded
    }

    /// The xkb keycode to decode for a key event: only presses, only with a
    /// keymap, and only raw codes that the offset does not carry past `u32`.
    pub fn keycode_to_decode(&self, key: u32, pressed: bool) -> (r: Option<u32>)
        ensures
            r == (if self.keymap_loaded && pressed && key + KEYCODE_OFFSET <= u32::MAX {
                Some((key + KEYCODE_OFFSET) as u32)
            } else {
                None::<u32>
            }),
    {
        if self.keymap_loaded && pressed && key <= u32::MAX - KEYCODE_OFFSET {
            Some(key + KEYCODE_OFFSET)
        } else {
            None
        }
    }
}

} // verus!
