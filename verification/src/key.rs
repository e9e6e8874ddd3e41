//! Key combinations: how they are written in the configuration, how a key press
//! reports them, and how the system reserves them.

use vstd::prelude::*;

verus! {

/// The modifier keys of a configured combination.
#[derive(Debug, Clone, Copy, PartialEq, Eq, Structural)]
pub struct ComboModifiers {
    pub control: bool,
    pub option: bool,
    pub shift: bool,
    pub command: bool,
}

/// A configured combination: a character and the modifiers held with it.
#[derive(Debug, Clone, Copy, PartialEq, Eq, Structural)]
pub struct KeyCombo {
    pub key: char,
    pub modifiers: ComboModifiers,
}

/// The modifiers and modes that a key press reports.
#[derive(Debug, Clone, Copy, PartialEq, Eq, Structural)]
pub struct KeyModifiers {
    pub ctrl: bool,
    pub shift: bool,
    pub alt: bool,
    pub win: bool,
    pub caps: bool,
    pub english_mode: bool,
}

/// A key press: the virtual key code, the character it types, if any, and the
/// modifiers.
#[derive(Debug, Clone, Copy, PartialEq, Eq, Structural)]
pub struct KeyEvent {
    pub code: u32,
    pub character: Option<char>,
    pub modifiers: KeyModifiers,
}

/// A key as the text services framework reserves it: a virtual key code and a
/// set of modifier bits.
#[derive(Debug, Clone, Copy, PartialEq, Eq, Structural)]
pub struct PreservedKey {
    pub code: u32,
    pub modifiers: u32,
}

/// The bit of the left Windows key, `TF_MOD_LWIN` of `msctf.h`.
pub const TF_MOD_LWIN: u32 = 0x08;

/// The constant `TF_MOD_ALT` of the `windows` crate, the bit of the Alt key: 1.
#[verifier::external_body]
fn tf_mod_alt() -> (bit: u32)
    ensures
        bit == 1,
{
    windows::Win32::UI::TextServices::TF_MOD_ALT
}

/// The constant `TF_MOD_CONTROL` of the `windows` crate, the bit of the Control
/// key: 2.
#[verifier::external_body]
fn tf_mod_control() -> (bit: u32)
    ensures
        bit == 2,
{
    windows::Win32::UI::TextServices::TF_MOD_CONTROL
}

/// The constant `TF_MOD_SHIFT` of the `windows` crate, the bit of the Shift key: 4.
#[verifier::external_body]
fn tf_mod_shift() -> (bit: u32)
    ensures
        bit == 4,
{
    windows::Win32::UI::TextServices::TF_MOD_SHIFT
}

/// The code of `c` with an ASCII letter taken in upper case.
pub open spec fn upper_code(c: char) -> u32 {
    if 'a' <= c <= 'z' {
        (c as u32 - 32) as u32
    } else {
        c as u32
    }
}

fn uppercase_code(c: char) -> (code: u32)
    ensures
        code == upper_code(c),
{
    let code: u32 = c as u32;
    if 'a' as u32 <= code && code <= 'z' as u32 {
        code - 32
    } else {
        code
    }
}

/// The modifier bits of a reserved key: Alt is 1, Control 2, Shift 4 and the
/// left Windows key 8.
pub open spec fn modifier_bits(modifiers: ComboModifiers) -> u32 {
    ((if modifiers.option { 1int } else { 0 }) + (if modifiers.control { 2int } else { 0 }) + (
    if modifiers.shift { 4int } else { 0 }) + (if modifiers.command { 8int } else { 0 })) as u32
}

impl ComboModifiers {
    /// The same keys as a key press reports them, with Caps Lock and English
    /// mode off.
    pub open spec fn spec_chord(self) -> KeyModifiers {
        KeyModifiers {
            ctrl: self.control,
            shift: self.shift,
            alt: self.option,
            win: self.command,
            caps: false,
            english_mode: false,
        }
    }
}

impl KeyModifiers {
    /// The keys held down, without the Caps Lock and English modes.
    pub open spec fn spec_chord(self) -> KeyModifiers {
        KeyModifiers { caps: false, english_mode: false, ..self }
    }

    /// The keys held down, without the Caps Lock and English modes.
    pub fn chord(self) -> (keys: KeyModifiers)
        ensures
            keys == self.spec_chord(),
    {
        KeyModifiers { caps: false, english_mode: false, ..self }
    }
}

impl From<ComboModifiers> for KeyModifiers {
    fn from(modifiers: ComboModifiers) -> (keys: KeyModifiers) {
        KeyModifiers {
            ctrl: modifiers.control,
            shift: modifiers.shift,
            alt: modifiers.option,
            win: modifiers.command,
            caps: false,
            english_mode: false,
        }
    }
}

impl vstd::std_specs::convert::FromSpecImpl<ComboModifiers> for KeyModifiers {
    open spec fn obeys_from_spec() -> bool {
        true
    }

    open spec fn from_spec(modifiers: ComboModifiers) -> KeyModifiers {
        modifiers.spec_chord()
    }
}

impl KeyCombo {
    /// Control, Alt and T: translates the selection unless configured otherwise.
    pub fn translate_default() -> (combo: KeyCombo)
        ensures
            combo == Self::spec_translate_default(),
    {
        KeyCombo {
            key: 't',
            modifiers: ComboModifiers { control: true, option: true, shift: false, command: false },
        }
    }

    pub open spec fn spec_translate_default() -> KeyCombo {
        KeyCombo {
            key: 't',
            modifiers: ComboModifiers { control: true, option: true, shift: false, command: false },
        }
    }

    /// Control, Alt and R: speaks the translation unless configured otherwise.
    pub fn speak_default() -> (combo: KeyCombo)
        ensures
            combo == Self::spec_speak_default(),
    {
        KeyCombo {
            key: 'r',
            modifiers: ComboModifiers { control: true, option: true, shift: false, command: false },
        }
    }

    pub open spec fn spec_speak_default() -> KeyCombo {
        KeyCombo {
            key: 'r',
            modifiers: ComboModifiers { control: true, option: true, shift: false, command: false },
        }
    }

    /// Whether a key press is this combination: the same character with the
    /// same keys held, in whatever mode.
    pub open spec fn spec_matches(self, event: KeyEvent) -> bool {
        event.character == Some(self.key) && event.modifiers.spec_chord()
            == self.modifiers.spec_chord()
    }

    /// Whether a key press is this combination.
    pub fn matches(self, event: &KeyEvent) -> (same: bool)
        ensures
            same == self.spec_matches(*event),
    {
        match event.character {
            Some(c) => c == self.key && event.modifiers.chord() == KeyModifiers::from(
                self.modifiers,
            ),
            None => false,
        }
    }
}

/// The `[shortcut]` table of the configuration.
#[derive(Debug, Clone, Copy, PartialEq, Eq, Structural)]
pub struct Shortcut {
    /// The combination that translates the selection.
    pub translate_selection: KeyCombo,
    /// The combination that speaks the translation.
    pub speak_translation: KeyCombo,
}

impl Shortcut {
    /// The combination that speaks the translation. One that is already taken
    /// for translating the selection gives way to the default.
    pub open spec fn spec_speak_keys(self) -> KeyCombo {
        if self.speak_translation == self.translate_selection {
            KeyCombo::spec_speak_default()
        } else {
            self.speak_translation
        }
    }

    /// The combination that speaks the translation. One that is already taken
    /// for translating the selection gives way to the default.
    pub fn speak_keys(self) -> (combo: KeyCombo)
        ensures
            combo == self.spec_speak_keys(),
    {
        if self.speak_translation == self.translate_selection {
            KeyCombo::speak_default()
        } else {
            self.speak_translation
        }
    }
}

/// The combination that translates the selection, as `load_combo` gives it.
pub open spec fn spec_load_combo(configured: Option<Shortcut>) -> KeyCombo {
    match configured {
        Some(shortcut) => shortcut.translate_selection,
        None => KeyCombo::spec_translate_default(),
    }
}

/// The combination that speaks the translation, as `load_speak_combo` gives it.
pub open spec fn spec_load_speak_combo(configured: Option<Shortcut>) -> KeyCombo {
    match configured {
        Some(shortcut) => shortcut.spec_speak_keys(),
        None => KeyCombo::spec_speak_default(),
    }
}

/// The combination that translates the selection: the configured one, or the
/// default where no configuration could be read.
pub fn load_combo(configured: Option<Shortcut>) -> (combo: KeyCombo)
    ensures
        combo == spec_load_combo(configured),
{
    match configured {
        Some(shortcut) => shortcut.translate_selection,
        None => KeyCombo::translate_default(),
    }
}

/// The combination that speaks the translation: the configured one, or the
/// default where no configuration could be read or the two would collide.
pub fn load_speak_combo(configured: Option<Shortcut>) -> (combo: KeyCombo)
    ensures
        combo == spec_load_speak_combo(configured),
{
    match configured {
        Some(shortcut) => shortcut.speak_keys(),
        None => KeyCombo::speak_default(),
    }
}

/// The reserved key of a combination.
pub open spec fn spec_preserved_key(combo: KeyCombo) -> PreservedKey {
    PreservedKey { code: upper_code(combo.key), modifiers: modifier_bits(combo.modifiers) }
}

/// The reserved key under which a combination is registered and unregistered.
pub fn preserved_key(combo: KeyCombo) -> (key: PreservedKey)
    ensures
        key == spec_preserved_key(combo),
{
    let held = combo.modifiers;
    let mut modifiers: u32 = 0;
    if held.control {
        proof {
            lemma_set_clear_bit(modifiers);
        }
        modifiers = modifiers | tf_mod_control();
    }
    if held.option {
        proof {
            lemma_set_clear_bit(modifiers);
        }
        modifiers = modifiers | tf_mod_alt();
    }
    if held.shift {
        proof {
            lemma_set_clear_bit(modifiers);
        }
        modifiers = modifiers | tf_mod_shift();
    }
    if held.command {
        proof {
            lemma_set_clear_bit(modifiers);
        }
        modifiers = modifiers | TF_MOD_LWIN;
    }
    PreservedKey { code: uppercase_code(combo.key), modifiers }
}

/// Setting a bit that is clear adds its value.
proof fn lemma_set_clear_bit(bits: u32)
    by (bit_vector)
    ensures
        bits == 0 ==> bits | 2u32 == 2,
        bits == 0 || bits == 2 ==> bits | 1u32 == bits + 1,
        bits < 4 ==> bits | 4u32 == bits + 4,
        bits < 8 ==> bits | 8u32 == bits + 8,
{
}

/// The key press that stands for a reserved key.
pub open spec fn spec_key_event(combo: KeyCombo, english_mode: bool) -> KeyEvent {
    KeyEvent {
        code: upper_code(combo.key),
        character: Some(combo.key),
        modifiers: KeyModifiers { english_mode, ..combo.modifiers.spec_chord() },
    }
}

/// The key press to hand on when the reserved key of `combo` was hit.
pub fn key_event(combo: KeyCombo, english_mode: bool) -> (event: KeyEvent)
    ensures
        event == spec_key_event(combo, english_mode),
{
    let held = combo.modifiers;
    KeyEvent {
        code: uppercase_code(combo.key),
        character: Some(combo.key),
        modifiers: KeyModifiers {
            ctrl: held.control,
            shift: held.shift,
            alt: held.option,
            win: held.command,
            caps: false,
            english_mode,
        },
    }
}

/// The key press made for a reserved key is recognised as its combination, in
/// either mode and whatever else was configured.
pub proof fn law_reserved_key_is_recognised(combo: KeyCombo, english_mode: bool)
    ensures
        combo.spec_matches(spec_key_event(combo, english_mode)),
{
}

/// It is recognised as no other combination.
pub proof fn law_reserved_key_is_no_other_combo(
    combo: KeyCombo,
    other: KeyCombo,
    english_mode: bool,
)
    requires
        other.spec_matches(spec_key_event(combo, english_mode)),
    ensures
        other == combo,
{
}

/// The mode that a key was pressed in does not decide whether it matches.
pub proof fn law_modes_do_not_matter(combo: KeyCombo, event: KeyEvent, caps: bool, english: bool)
    ensures
        combo.spec_matches(event) == combo.spec_matches(
            KeyEvent {
                modifiers: KeyModifiers { caps, english_mode: english, ..event.modifiers },
                ..event
            },
        ),
{
}

/// Two combinations share a reserved key only when they hold the same modifiers
/// and their characters differ at most in ASCII case.
pub proof fn law_reserved_keys_are_distinct(a: KeyCombo, b: KeyCombo)
    ensures
        spec_preserved_key(a) == spec_preserved_key(b) <==> a.modifiers == b.modifiers
            && upper_code(a.key) == upper_code(b.key),
{
}

/// The reserved key and the key press made for it carry the same key code.
pub proof fn law_codes_agree(combo: KeyCombo, english_mode: bool)
    ensures
        spec_preserved_key(combo).code == spec_key_event(combo, english_mode).code,
{
}

/// The two combinations in use are different ones, unless the selection is
/// translated by the very combination that speaking falls back to.
pub proof fn law_combinations_do_not_collide(configured: Option<Shortcut>)
    requires
        spec_load_combo(configured) != KeyCombo::spec_speak_default(),
    ensures
        spec_load_combo(configured) != spec_load_speak_combo(configured),
{
}

/// The key press of a combination holds Control, Alt, Shift and the Windows key
/// exactly when the combination holds control, option, shift and command. It types
/// the combination's character, reports the mode it was told, and no Caps Lock.
pub proof fn law_key_press_holds_the_same_keys(combo: KeyCombo, english_mode: bool)
    ensures
        ({
            let event = spec_key_event(combo, english_mode);
            &&& event.modifiers.ctrl == combo.modifiers.control
            &&& event.modifiers.alt == combo.modifiers.option
            &&& event.modifiers.shift == combo.modifiers.shift
            &&& event.modifiers.win == combo.modifiers.command
            &&& event.modifiers.english_mode == english_mode
            &&& !event.modifiers.caps
            &&& event.character == Some(combo.key)
        }),
{
}

/// A key press matches a combination exactly when it types the character and
/// each of the four keys is held in both or in neither.
pub proof fn law_match_compares_character_and_held_keys(combo: KeyCombo, event: KeyEvent)
    ensures
        combo.spec_matches(event) <==> {
            &&& event.character is Some
            &&& event.character->0 == combo.key
            &&& event.modifiers.ctrl == combo.modifiers.control
            &&& event.modifiers.alt == combo.modifiers.option
            &&& event.modifiers.shift == combo.modifiers.shift
            &&& event.modifiers.win == combo.modifiers.command
        },
{
}

/// Taking the keys held down clears both modes and leaves the keys; a
/// configured set of keys becomes the same keys with both modes off.
pub proof fn law_held_keys_are_kept(pressed: KeyModifiers, configured: ComboModifiers)
    ensures
        pressed.spec_chord().ctrl == pressed.ctrl,
        pressed.spec_chord().alt == pressed.alt,
        pressed.spec_chord().shift == pressed.shift,
        pressed.spec_chord().win == pressed.win,
        !pressed.spec_chord().caps,
        !pressed.spec_chord().english_mode,
        ({
            let keys = <KeyModifiers as vstd::std_specs::convert::FromSpec<ComboModifiers>>::from_spec(configured);
            &&& keys.ctrl == configured.control
            &&& keys.alt == configured.option
            &&& keys.shift == configured.shift
            &&& keys.win == configured.command
            &&& !keys.caps
            &&& !keys.english_mode
        }),
{
}

/// The code of a key is that of its character, 32 less for a small ASCII letter,
/// in the reserved key and in the key press alike.
pub proof fn law_key_code_is_the_capital(combo: KeyCombo, english_mode: bool)
    ensures
        0x61 <= combo.key as u32 <= 0x7a ==> spec_preserved_key(combo).code + 32 == combo.key as u32
            && spec_key_event(combo, english_mode).code + 32 == combo.key as u32,
        !(0x61 <= combo.key as u32 <= 0x7a) ==> spec_preserved_key(combo).code == combo.key as u32
            && spec_key_event(combo, english_mode).code == combo.key as u32,
{
}

/// A reserved key has the lowest bit for Alt, and the next ones for Control,
/// Shift and the left Windows key; no other bit is ever set.
pub proof fn law_reserved_key_has_a_bit_for_each_key(combo: KeyCombo)
    ensures
        ({
            let bits = spec_preserved_key(combo).modifiers;
            &&& bits % 2 == 1 <==> combo.modifiers.option
            &&& (bits / 2) % 2 == 1 <==> combo.modifiers.control
            &&& (bits / 4) % 2 == 1 <==> combo.modifiers.shift
            &&& (bits / 8) % 2 == 1 <==> combo.modifiers.command
            &&& bits < 16
        }),
{
}

/// A configured combination is used as it is. The one that speaks gives way to
/// Control, Alt and R where it equals the one that translates; without a
/// configuration that and Control, Alt and T are used.
pub proof fn law_configured_combinations_are_used(shortcut: Shortcut)
    ensures
        spec_load_combo(Some(shortcut)) == shortcut.translate_selection,
        shortcut.speak_translation != shortcut.translate_selection ==> spec_load_speak_combo(
            Some(shortcut),
        ) == shortcut.speak_translation && shortcut.spec_speak_keys() == shortcut.speak_translation,
        shortcut.speak_translation == shortcut.translate_selection ==> spec_load_speak_combo(
            Some(shortcut),
        ) == spec_load_speak_combo(None) && shortcut.spec_speak_keys() == spec_load_speak_combo(
            None,
        ),
        spec_load_speak_combo(None) == KeyCombo::spec_speak_default(),
        spec_load_combo(None) == KeyCombo::spec_translate_default(),
        KeyCombo::spec_speak_default().key == 'r',
        KeyCombo::spec_translate_default().key == 't',
        KeyCombo::spec_speak_default().modifiers == KeyCombo::spec_translate_default().modifiers,
        KeyCombo::spec_speak_default().modifiers.control,
        KeyCombo::spec_speak_default().modifiers.option,
        !KeyCombo::spec_speak_default().modifiers.shift,
        !KeyCombo::spec_speak_default().modifiers.command,
{
}

} // verus!
