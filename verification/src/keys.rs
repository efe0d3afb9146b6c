//! Symbolic key names and the two tables that resolve them.
//!
//! A key is named by a string from a fixed vocabulary: `KeyA`..`KeyZ`,
//! `Digit0`..`Digit9`, `F1`..`F12` and twelve named keys. One table maps a
//! name to the code that the polling side reports for the key, the other to
//! the virtual-key code that injection takes. A name outside the vocabulary,
//! the mouse-button names among them, resolves to nothing in either table.

use vstd::prelude::*;
use vstd::string::*;
use vstd::hash_map::StringHashMap;
use crate::text::{has_prefix, same_text};

verus! {

/// A key as the polling side reports it.
#[derive(Clone, Copy, Debug, PartialEq, Eq, Structural)]
pub enum DetectionCode {
    /// A letter key, by its upper-case ASCII letter.
    Letter(char),
    /// A digit key of the top row, by its ASCII digit.
    Digit(char),
    /// A function key, by its number from 1 to 12.
    Function(u8),
    LShift,
    RShift,
    LControl,
    RControl,
    LAlt,
    RAlt,
    Space,
    Enter,
    Escape,
    Backspace,
    Tab,
    CapsLock,
    Insert,
    /// Any key that no name of the vocabulary stands for.
    Other,
}

impl DetectionCode {
    /// The payload of a code lies in its range.
    pub open spec fn wf(self) -> bool {
        match self {
            DetectionCode::Letter(c) => 'A' <= c <= 'Z',
            DetectionCode::Digit(c) => '0' <= c <= '9',
            DetectionCode::Function(n) => 1 <= n <= 12,
            _ => true,
        }
    }
}

/// `id` is `Key` followed by one upper-case ASCII letter.
pub open spec fn is_letter_id(id: Seq<char>) -> bool {
    &&& id.len() == 4
    &&& "Key"@.is_prefix_of(id)
    &&& 'A' <= id[3] <= 'Z'
}

/// `id` is `Digit` followed by one ASCII digit.
pub open spec fn is_digit_id(id: Seq<char>) -> bool {
    &&& id.len() == 6
    &&& "Digit"@.is_prefix_of(id)
    &&& '0' <= id[5] <= '9'
}

/// The number of the function key that `id` names, if it names one.
pub open spec fn function_key_number(id: Seq<char>) -> Option<u8> {
    if id == "F1"@ {
        Some(1u8)
    } else if id == "F2"@ {
        Some(2u8)
    } else if id == "F3"@ {
        Some(3u8)
    } else if id == "F4"@ {
        Some(4u8)
    } else if id == "F5"@ {
        Some(5u8)
    } else if id == "F6"@ {
        Some(6u8)
    } else if id == "F7"@ {
        Some(7u8)
    } else if id == "F8"@ {
        Some(8u8)
    } else if id == "F9"@ {
        Some(9u8)
    } else if id == "F10"@ {
        Some(10u8)
    } else if id == "F11"@ {
        Some(11u8)
    } else if id == "F12"@ {
        Some(12u8)
    } else {
        None
    }
}

/// The detection code of the named key that `id` stands for, if any.
pub open spec fn named_key(id: Seq<char>) -> Option<DetectionCode> {
    if id == "ShiftLeft"@ {
        Some(DetectionCode::LShift)
    } else if id == "ShiftRight"@ {
        Some(DetectionCode::RShift)
    } else if id == "ControlLeft"@ {
        Some(DetectionCode::LControl)
    } else if id == "ControlRight"@ {
        Some(DetectionCode::RControl)
    } else if id == "AltLeft"@ {
        Some(DetectionCode::LAlt)
    } else if id == "AltRight"@ {
        Some(DetectionCode::RAlt)
    } else if id == "Space"@ {
        Some(DetectionCode::Space)
    } else if id == "Enter"@ {
        Some(DetectionCode::Enter)
    } else if id == "Escape"@ {
        Some(DetectionCode::Escape)
    } else if id == "Backspace"@ {
        Some(DetectionCode::Backspace)
    } else if id == "Tab"@ {
        Some(DetectionCode::Tab)
    } else if id == "CapsLock"@ {
        Some(DetectionCode::CapsLock)
    } else {
        None
    }
}

/// The code under which the polling side reports the key named `id`;
/// `None` for a name outside the keyboard vocabulary.
pub open spec fn detection_code(id: Seq<char>) -> Option<DetectionCode> {
    if is_letter_id(id) {
        Some(DetectionCode::Letter(id[3]))
    } else if is_digit_id(id) {
        Some(DetectionCode::Digit(id[5]))
    } else if function_key_number(id) is Some {
        Some(DetectionCode::Function(function_key_number(id)->0))
    } else {
        named_key(id)
    }
}

/// The virtual-key code that injects the key named `id`; `None` for a name
/// outside the keyboard vocabulary. Letters and digits inject as their ASCII
/// code, the left and right form of a modifier as the one code of that
/// modifier, and `F1`..`F12` as `0x70`..`0x7B`.
pub open spec fn injection_code(id: Seq<char>) -> Option<u16> {
    if is_letter_id(id) {
        Some(id[3] as u16)
    } else if is_digit_id(id) {
        Some(id[5] as u16)
    } else if id == "AltLeft"@ || id == "AltRight"@ {
        Some(0x12u16)
    } else if id == "ControlLeft"@ || id == "ControlRight"@ {
        Some(0x11u16)
    } else if id == "ShiftLeft"@ || id == "ShiftRight"@ {
        Some(0x10u16)
    } else if id == "Space"@ {
        Some(0x20u16)
    } else if id == "Tab"@ {
        Some(0x09u16)
    } else if id == "Enter"@ {
        Some(0x0Du16)
    } else if id == "Escape"@ {
        Some(0x1Bu16)
    } else if id == "CapsLock"@ {
        Some(0x14u16)
    } else if id == "Backspace"@ {
        Some(0x08u16)
    } else if function_key_number(id) is Some {
        Some((0x6F + function_key_number(id)->0) as u16)
    } else {
        None
    }
}

/// The detection table as a map: defined exactly on the names that have a
/// detection code.
pub open spec fn detection_table() -> Map<Seq<char>, DetectionCode> {
    Map::new(
        |id: Seq<char>| detection_code(id) is Some,
        |id: Seq<char>| detection_code(id)->0,
    )
}

/// Every binding of `table` is the detection code of its name.
pub open spec fn table_sound(table: Map<Seq<char>, DetectionCode>) -> bool {
    forall|id: Seq<char>| #[trigger]
        table.contains_key(id) ==> detection_code(id) == Some(table[id])
}

/// Every name bound in `before` is bound in `after`.
pub open spec fn keeps_names(
    before: Map<Seq<char>, DetectionCode>,
    after: Map<Seq<char>, DetectionCode>,
) -> bool {
    forall|id: Seq<char>| #[trigger] before.contains_key(id) ==> after.contains_key(id)
}

/// The upper-case alphabet in order, and the digits in order.
proof fn lemma_symbol_rows()
    ensures
        "ABCDEFGHIJKLMNOPQRSTUVWXYZ"@.len() == 26,
        forall|k: int| 0 <= k < 26 ==> #[trigger] "ABCDEFGHIJKLMNOPQRSTUVWXYZ"@[k] as int == 65 + k,
        "0123456789"@.len() == 10,
        forall|k: int| 0 <= k < 10 ==> #[trigger] "0123456789"@[k] as int == 48 + k,
        "Key"@ == seq!['K', 'e', 'y'],
        "Digit"@ == seq!['D', 'i', 'g', 'i', 't'],
{
    reveal_strlit("ABCDEFGHIJKLMNOPQRSTUVWXYZ");
    reveal_strlit("0123456789");
    reveal_strlit("Key");
    reveal_strlit("Digit");
    assert("Key"@ =~= seq!['K', 'e', 'y']);
    assert("Digit"@ =~= seq!['D', 'i', 'g', 'i', 't']);
}

/// The detection code of each function-key name.
proof fn lemma_function_key_names()
    ensures
        detection_code("F1"@) == Some(DetectionCode::Function(1)),
        detection_code("F2"@) == Some(DetectionCode::Function(2)),
        detection_code("F3"@) == Some(DetectionCode::Function(3)),
        detection_code("F4"@) == Some(DetectionCode::Function(4)),
        detection_code("F5"@) == Some(DetectionCode::Function(5)),
        detection_code("F6"@) == Some(DetectionCode::Function(6)),
        detection_code("F7"@) == Some(DetectionCode::Function(7)),
        detection_code("F8"@) == Some(DetectionCode::Function(8)),
        detection_code("F9"@) == Some(DetectionCode::Function(9)),
        detection_code("F10"@) == Some(DetectionCode::Function(10)),
        detection_code("F11"@) == Some(DetectionCode::Function(11)),
        detection_code("F12"@) == Some(DetectionCode::Function(12)),
{
    reveal_strlit("F1");
    reveal_strlit("F2");
    reveal_strlit("F3");
    reveal_strlit("F4");
    reveal_strlit("F5");
    reveal_strlit("F6");
    reveal_strlit("F7");
    reveal_strlit("F8");
    reveal_strlit("F9");
    reveal_strlit("F10");
    reveal_strlit("F11");
    reveal_strlit("F12");
    assert("F1"@.len() == 2 && "F1"@[1] == '1');
    assert("F2"@.len() == 2 && "F2"@[1] == '2');
    assert("F3"@.len() == 2 && "F3"@[1] == '3');
    assert("F4"@.len() == 2 && "F4"@[1] == '4');
    assert("F5"@.len() == 2 && "F5"@[1] == '5');
    assert("F6"@.len() == 2 && "F6"@[1] == '6');
    assert("F7"@.len() == 2 && "F7"@[1] == '7');
    assert("F8"@.len() == 2 && "F8"@[1] == '8');
    assert("F9"@.len() == 2 && "F9"@[1] == '9');
    assert("F10"@.len() == 3 && "F10"@[2] == '0');
    assert("F11"@.len() == 3 && "F11"@[2] == '1');
    assert("F12"@.len() == 3 && "F12"@[2] == '2');
}

/// The detection code of each named key.
proof fn lemma_named_key_names()
    ensures
        detection_code("ShiftLeft"@) == Some(DetectionCode::LShift),
        detection_code("ShiftRight"@) == Some(DetectionCode::RShift),
        detection_code("ControlLeft"@) == Some(DetectionCode::LControl),
        detection_code("ControlRight"@) == Some(DetectionCode::RControl),
        detection_code("AltLeft"@) == Some(DetectionCode::LAlt),
        detection_code("AltRight"@) == Some(DetectionCode::RAlt),
        detection_code("Space"@) == Some(DetectionCode::Space),
        detection_code("Enter"@) == Some(DetectionCode::Enter),
        detection_code("Escape"@) == Some(DetectionCode::Escape),
        detection_code("Backspace"@) == Some(DetectionCode::Backspace),
        detection_code("Tab"@) == Some(DetectionCode::Tab),
        detection_code("CapsLock"@) == Some(DetectionCode::CapsLock),
{
    reveal_strlit("Digit");
    reveal_strlit("F10");
    reveal_strlit("F11");
    reveal_strlit("F12");
    reveal_strlit("ShiftLeft");
    reveal_strlit("ShiftRight");
    reveal_strlit("ControlLeft");
    reveal_strlit("ControlRight");
    reveal_strlit("AltLeft");
    reveal_strlit("AltRight");
    reveal_strlit("Space");
    reveal_strlit("Enter");
    reveal_strlit("Escape");
    reveal_strlit("Backspace");
    reveal_strlit("Tab");
    reveal_strlit("CapsLock");
    reveal_strlit("F1");
    reveal_strlit("F2");
    reveal_strlit("F3");
    reveal_strlit("F4");
    reveal_strlit("F5");
    reveal_strlit("F6");
    reveal_strlit("F7");
    reveal_strlit("F8");
    reveal_strlit("F9");
    assert("F1"@.len() == 2 && "F2"@.len() == 2 && "F3"@.len() == 2);
    assert("F4"@.len() == 2 && "F5"@.len() == 2 && "F6"@.len() == 2);
    assert("F7"@.len() == 2 && "F8"@.len() == 2 && "F9"@.len() == 2);
    assert("F10"@[0] == 'F' && "F11"@[0] == 'F' && "F12"@[0] == 'F');
    assert("ShiftLeft"@.len() == 9 && "ShiftLeft"@[0] == 'S');
    assert("ShiftRight"@.len() == 10);
    assert("ControlLeft"@.len() == 11);
    assert("ControlRight"@.len() == 12);
    assert("AltLeft"@.len() == 7);
    assert("AltRight"@.len() == 8 && "AltRight"@[0] == 'A');
    assert("Space"@.len() == 5 && "Space"@[0] == 'S');
    assert("Enter"@.len() == 5 && "Enter"@[0] == 'E');
    assert("Escape"@.len() == 6);
    assert("Backspace"@.len() == 9 && "Backspace"@[0] == 'B');
    assert("Tab"@.len() == 3 && "Tab"@[0] == 'T');
    assert("CapsLock"@.len() == 8 && "CapsLock"@[0] == 'C');
    assert(!"Digit"@.is_prefix_of("Escape"@)) by {
        assert("Digit"@[0] == 'D');
        assert("Escape"@.subrange(0, 5)[0] == 'E');
    }
}

/// Binds `name` to `code` in the table under construction.
fn bind(m: &mut StringHashMap<DetectionCode>, name: &str, code: DetectionCode)
    requires
        detection_code(name@) == Some(code),
        table_sound(old(m)@),
    ensures
        final(m)@ == old(m)@.insert(name@, code),
        table_sound(final(m)@),
        keeps_names(old(m)@, final(m)@),
{
    m.insert(String::from_str(name), code);
}

/// Binds `KeyA`..`KeyZ`.
fn insert_letters(m: &mut StringHashMap<DetectionCode>)
    requires
        table_sound(old(m)@),
    ensures
        table_sound(final(m)@),
        keeps_names(old(m)@, final(m)@),
        forall|id: Seq<char>| is_letter_id(id) ==> final(m)@.contains_key(id),
{
    let letters = "ABCDEFGHIJKLMNOPQRSTUVWXYZ";
    proof {
        lemma_symbol_rows();
    }
    let mut i: usize = 0;
    while i < 26
        invariant
            i <= 26,
            letters@ == "ABCDEFGHIJKLMNOPQRSTUVWXYZ"@,
            table_sound(m@),
            keeps_names(old(m)@, m@),
            forall|id: Seq<char>| is_letter_id(id) && (id[3] as int) < 65 + i ==> m@.contains_key(id),
        decreases 26 - i,
    {
        proof {
            lemma_symbol_rows();
        }
        let c = letters.get_char(i);
        let mut name = String::from_str("Key");
        name.append(letters.substring_ascii(i, i + 1));
        let ghost before = m@;
        assert(name@ =~= seq!['K', 'e', 'y', c]);
        assert("Key"@.is_prefix_of(name@));
        bind(m, name.as_str(), DetectionCode::Letter(c));
        assert forall|id: Seq<char>| is_letter_id(id) && (id[3] as int) < 65 + i + 1 implies m@.contains_key(
            id,
        ) by {
            if (id[3] as int) < 65 + i {
                assert(before.contains_key(id));
            } else {
                assert(id =~= name@);
            }
        }
        i += 1;
    }
}

/// Binds `Digit0`..`Digit9`.
fn insert_digits(m: &mut StringHashMap<DetectionCode>)
    requires
        table_sound(old(m)@),
    ensures
        table_sound(final(m)@),
        keeps_names(old(m)@, final(m)@),
        forall|id: Seq<char>| is_digit_id(id) ==> final(m)@.contains_key(id),
{
    let digits = "0123456789";
    proof {
        lemma_symbol_rows();
    }
    let mut i: usize = 0;
    while i < 10
        invariant
            i <= 10,
            digits@ == "0123456789"@,
            table_sound(m@),
            keeps_names(old(m)@, m@),
            forall|id: Seq<char>| is_digit_id(id) && (id[5] as int) < 48 + i ==> m@.contains_key(id),
        decreases 10 - i,
    {
        proof {
            lemma_symbol_rows();
        }
        let c = digits.get_char(i);
        let mut name = String::from_str("Digit");
        name.append(digits.substring_ascii(i, i + 1));
        let ghost before = m@;
        assert(name@ =~= seq!['D', 'i', 'g', 'i', 't', c]);
        assert("Digit"@.is_prefix_of(name@));
        assert(!is_letter_id(name@));
        bind(m, name.as_str(), DetectionCode::Digit(c));
        assert forall|id: Seq<char>| is_digit_id(id) && (id[5] as int) < 48 + i + 1 implies m@.contains_key(
            id,
        ) by {
            if (id[5] as int) < 48 + i {
                assert(before.contains_key(id));
            } else {
                assert(id =~= name@);
            }
        }
        i += 1;
    }
}


/// Binds `F1`..`F12`.
fn insert_function_keys(m: &mut StringHashMap<DetectionCode>)
    requires
        table_sound(old(m)@),
    ensures
        table_sound(final(m)@),
        keeps_names(old(m)@, final(m)@),
        forall|id: Seq<char>| function_key_number(id) is Some ==> final(m)@.contains_key(id),
{
    proof {
        lemma_function_key_names();
    }
    bind(m, "F1", DetectionCode::Function(1));
    bind(m, "F2", DetectionCode::Function(2));
    bind(m, "F3", DetectionCode::Function(3));
    bind(m, "F4", DetectionCode::Function(4));
    bind(m, "F5", DetectionCode::Function(5));
    bind(m, "F6", DetectionCode::Function(6));
    bind(m, "F7", DetectionCode::Function(7));
    bind(m, "F8", DetectionCode::Function(8));
    bind(m, "F9", DetectionCode::Function(9));
    bind(m, "F10", DetectionCode::Function(10));
    bind(m, "F11", DetectionCode::Function(11));
    bind(m, "F12", DetectionCode::Function(12));
}

/// Binds the six modifiers and the six other named keys.
fn insert_named_keys(m: &mut StringHashMap<DetectionCode>)
    requires
        table_sound(old(m)@),
    ensures
        table_sound(final(m)@),
        keeps_names(old(m)@, final(m)@),
        forall|id: Seq<char>| named_key(id) is Some ==> final(m)@.contains_key(id),
{
    proof {
        lemma_named_key_names();
    }
    bind(m, "ShiftLeft", DetectionCode::LShift);
    bind(m, "ShiftRight", DetectionCode::RShift);
    bind(m, "ControlLeft", DetectionCode::LControl);
    bind(m, "ControlRight", DetectionCode::RControl);
    bind(m, "AltLeft", DetectionCode::LAlt);
    bind(m, "AltRight", DetectionCode::RAlt);
    bind(m, "Space", DetectionCode::Space);
    bind(m, "Enter", DetectionCode::Enter);
    bind(m, "Escape", DetectionCode::Escape);
    bind(m, "Backspace", DetectionCode::Backspace);
    bind(m, "Tab", DetectionCode::Tab);
    bind(m, "CapsLock", DetectionCode::CapsLock);
}

/// Builds the detection table: every name of the keyboard vocabulary bound
/// to its detection code, and no other name bound.
pub fn build_key_map() -> (m: StringHashMap<DetectionCode>)
    ensures
        m@ == detection_table(),
{
    let mut m = StringHashMap::new();
    insert_letters(&mut m);
    let ghost with_letters = m@;
    insert_digits(&mut m);
    let ghost with_digits = m@;
    insert_function_keys(&mut m);
    let ghost with_function_keys = m@;
    insert_named_keys(&mut m);
    assert forall|id: Seq<char>| detection_code(id) is Some implies m@.contains_key(id) by {
        if is_letter_id(id) {
            assert(with_letters.contains_key(id));
            assert(with_digits.contains_key(id));
            assert(with_function_keys.contains_key(id));
        } else if is_digit_id(id) {
            assert(with_digits.contains_key(id));
            assert(with_function_keys.contains_key(id));
        } else if function_key_number(id) is Some {
            assert(with_function_keys.contains_key(id));
        }
    }
    assert(m@ =~= detection_table());
    m
}


/// The number of the function key that `code` names.
fn function_key(code: &str) -> (n: Option<u8>)
    ensures
        n == function_key_number(code@),
{
    if same_text(code, "F1") {
        Some(1)
    } else if same_text(code, "F2") {
        Some(2)
    } else if same_text(code, "F3") {
        Some(3)
    } else if same_text(code, "F4") {
        Some(4)
    } else if same_text(code, "F5") {
        Some(5)
    } else if same_text(code, "F6") {
        Some(6)
    } else if same_text(code, "F7") {
        Some(7)
    } else if same_text(code, "F8") {
        Some(8)
    } else if same_text(code, "F9") {
        Some(9)
    } else if same_text(code, "F10") {
        Some(10)
    } else if same_text(code, "F11") {
        Some(11)
    } else if same_text(code, "F12") {
        Some(12)
    } else {
        None
    }
}

/// Resolves a key name for injection.
pub fn js_code_to_vk(code: &str) -> (vk: Option<u16>)
    ensures
        vk == injection_code(code@),
{
    let n = code.unicode_len();
    if n == 4 && has_prefix(code, "Key") {
        let c = code.get_char(3);
        if 'A' <= c && c <= 'Z' {
            return Some(c as u16);
        }
    }
    if n == 6 && has_prefix(code, "Digit") {
        let c = code.get_char(5);
        if '0' <= c && c <= '9' {
            return Some(c as u16);
        }
    }
    if same_text(code, "AltLeft") || same_text(code, "AltRight") {
        Some(0x12)
    } else if same_text(code, "ControlLeft") || same_text(code, "ControlRight") {
        Some(0x11)
    } else if same_text(code, "ShiftLeft") || same_text(code, "ShiftRight") {
        Some(0x10)
    } else if same_text(code, "Space") {
        Some(0x20)
    } else if same_text(code, "Tab") {
        Some(0x09)
    } else if same_text(code, "Enter") {
        Some(0x0D)
    } else if same_text(code, "Escape") {
        Some(0x1B)
    } else if same_text(code, "CapsLock") {
        Some(0x14)
    } else if same_text(code, "Backspace") {
        Some(0x08)
    } else {
        match function_key(code) {
            Some(k) => Some(0x6F + k as u16),
            None => None,
        }
    }
}

/// The two tables resolve the same names: a name has a detection code
/// exactly if it has an injection code.
pub proof fn lemma_tables_share_vocabulary(id: Seq<char>)
    ensures
        detection_code(id) is Some <==> injection_code(id) is Some,
{
}

/// Every code that the detection table holds has its payload in range.
pub proof fn lemma_detection_codes_wf(id: Seq<char>)
    requires
        detection_code(id) is Some,
    ensures
        detection_code(id)->0.wf(),
        detection_code(id)->0 != DetectionCode::Insert,
        detection_code(id)->0 != DetectionCode::Other,
{
}

/// Every injection code of the keyboard vocabulary fits in one byte and is
/// not zero.
pub proof fn lemma_injection_codes_in_range(id: Seq<char>)
    requires
        injection_code(id) is Some,
    ensures
        0 < injection_code(id)->0 <= 0x7B,
{
}

/// The names of the mouse buttons resolve to nothing in either table.
pub proof fn lemma_mouse_names_unresolved()
    ensures
        detection_code("Mouse3"@) is None && injection_code("Mouse3"@) is None,
        detection_code("Mouse4"@) is None && injection_code("Mouse4"@) is None,
        detection_code("Mouse5"@) is None && injection_code("Mouse5"@) is None,
{
    lemma_mouse_name_unresolved("Mouse3"@);
    lemma_mouse_name_unresolved("Mouse4"@);
    lemma_mouse_name_unresolved("Mouse5"@);
    reveal_strlit("Mouse3");
    reveal_strlit("Mouse4");
    reveal_strlit("Mouse5");
    assert("Mouse3"@.len() == 6 && "Mouse3"@[0] == 'M');
    assert("Mouse4"@.len() == 6 && "Mouse4"@[0] == 'M');
    assert("Mouse5"@.len() == 6 && "Mouse5"@[0] == 'M');
}

/// A name of six characters that begins with `M` is in neither table.
proof fn lemma_mouse_name_unresolved(id: Seq<char>)
    ensures
        id.len() == 6 && id[0] == 'M' ==> detection_code(id) is None && injection_code(id) is None,
{
    if id.len() == 6 && id[0] == 'M' {
        reveal_strlit("Digit");
        reveal_strlit("Escape");
        assert("Digit"@[0] == 'D');
        assert("Escape"@[0] == 'E');
        assert(id.subrange(0, 5)[0] == 'M');
        lemma_name_lengths();
    }
}

/// The lengths of the function-key names and of the named keys.
proof fn lemma_name_lengths()
    ensures
        "F1"@.len() == 2 && "F2"@.len() == 2 && "F3"@.len() == 2,
        "F4"@.len() == 2 && "F5"@.len() == 2 && "F6"@.len() == 2,
        "F7"@.len() == 2 && "F8"@.len() == 2 && "F9"@.len() == 2,
        "F10"@.len() == 3 && "F11"@.len() == 3 && "F12"@.len() == 3,
        "ShiftLeft"@.len() == 9 && "ShiftRight"@.len() == 10,
        "ControlLeft"@.len() == 11 && "ControlRight"@.len() == 12,
        "AltLeft"@.len() == 7 && "AltRight"@.len() == 8,
        "Space"@.len() == 5 && "Enter"@.len() == 5 && "Escape"@.len() == 6,
        "Backspace"@.len() == 9 && "Tab"@.len() == 3 && "CapsLock"@.len() == 8,
{
    reveal_strlit("F1");
    reveal_strlit("F2");
    reveal_strlit("F3");
    reveal_strlit("F4");
    reveal_strlit("F5");
    reveal_strlit("F6");
    reveal_strlit("F7");
    reveal_strlit("F8");
    reveal_strlit("F9");
    reveal_strlit("F10");
    reveal_strlit("F11");
    reveal_strlit("F12");
    reveal_strlit("ShiftLeft");
    reveal_strlit("ShiftRight");
    reveal_strlit("ControlLeft");
    reveal_strlit("ControlRight");
    reveal_strlit("AltLeft");
    reveal_strlit("AltRight");
    reveal_strlit("Space");
    reveal_strlit("Enter");
    reveal_strlit("Escape");
    reveal_strlit("Backspace");
    reveal_strlit("Tab");
    reveal_strlit("CapsLock");
}

} // verus!
