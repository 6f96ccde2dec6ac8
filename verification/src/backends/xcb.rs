use vstd::prelude::*;

verus! {

/// A pointer button, numbered as the X protocol numbers it.
#[derive(Debug, Clone, Copy, PartialEq, Eq, Structural)]
pub enum MouseButton {
    Left,
    Middle,
    Right,
    ScrollUp,
    ScrollDown,
    ScrollLeft,
    ScrollRight,
    Backwards,
    Forwards,
}

/// The X number of a pointer button.
pub open spec fn button_number(b: MouseButton) -> u8 {
    match b {
        MouseButton::Left => 1,
        MouseButton::Middle => 2,
        MouseButton::Right => 3,
        MouseButton::ScrollUp => 4,
        MouseButton::ScrollDown => 5,
        MouseButton::ScrollLeft => 6,
        MouseButton::ScrollRight => 7,
        MouseButton::Backwards => 8,
        MouseButton::Forwards => 9,
    }
}

impl MouseButton {
    pub fn to_u8(&self) -> (r: u8)
        ensures
            r == button_number(*self),
    {
        match self {
            MouseButton::Left => 1,
            MouseButton::Middle => 2,
            MouseButton::Right => 3,
            MouseButton::ScrollUp => 4,
            MouseButton::ScrollDown => 5,
            MouseButton::ScrollLeft => 6,
            MouseButton::ScrollRight => 7,
            MouseButton::Backwards => 8,
            MouseButton::Forwards => 9,
        }
    }

    /// The button numbered `n`, if any.
    pub fn from_u8(n: u8) -> (r: Option<MouseButton>)
        ensures
            match r {
                Some(b) => button_number(b) == n,
                None => n < 1 || n > 9,
            },
    {
        match n {
            1 => Some(MouseButton::Left),
            2 => Some(MouseButton::Middle),
            3 => Some(MouseButton::Right),
            4 => Some(MouseButton::ScrollUp),
            5 => Some(MouseButton::ScrollDown),
            6 => Some(MouseButton::ScrollLeft),
            7 => Some(MouseButton::ScrollRight),
            8 => Some(MouseButton::Backwards),
            9 => Some(MouseButton::Forwards),
            _ => None,
        }
    }
}

/// A key, by its X keysym.
#[derive(Debug, Clone, Copy, PartialEq, Eq, Structural)]
pub enum Key {
    BackSpace,
    Tab,
    Linefeed,
    Clear,
    Return,
    Pause,
    ScrollLock,
    SysReq,
    Escape,
    Delete,
    Home,
    Left,
    Up,
    Right,
    Down,
    PageUp,
    PageDown,
    End,
    Begin,
    Space,
    Exclam,
    Quotedbl,
    Numbersign,
    Dollar,
    Percent,
    Ampersand,
    Apostrophe,
    ParenLeft,
    ParenRight,
    Asterisk,
    Plus,
    Comma,
    Minus,
    Period,
    Slash,
    Zero,
    One,
    Two,
    Three,
    Four,
    Five,
    Six,
    Seven,
    Eight,
    Nine,
    Colon,
    Semicolon,
    Less,
    Equal,
    Greater,
    Question,
    At,
    UppercaseA,
    UppercaseB,
    UppercaseC,
    UppercaseD,
    UppercaseE,
    UppercaseF,
    UppercaseG,
    UppercaseH,
    UppercaseI,
    UppercaseJ,
    UppercaseK,
    UppercaseL,
    UppercaseM,
    UppercaseN,
    UppercaseO,
    UppercaseP,
    UppercaseQ,
    UppercaseR,
    UppercaseS,
    UppercaseT,
    UppercaseU,
    UppercaseV,
    UppercaseW,
    UppercaseX,
    UppercaseY,
    UppercaseZ,
    BracketLeft,
    Backslash,
    BracketRight,
    AsciiCircum,
    Underscore,
    Grave,
    LowercaseA,
    LowercaseB,
    LowercaseC,
    LowercaseD,
    LowercaseE,
    LowercaseF,
    LowercaseG,
    LowercaseH,
    LowercaseI,
    LowercaseJ,
    LowercaseK,
    LowercaseL,
    LowercaseM,
    LowercaseN,
    LowercaseO,
    LowercaseP,
    LowercaseQ,
    LowercaseR,
    LowercaseS,
    LowercaseT,
    LowercaseU,
    LowercaseV,
    LowercaseW,
    LowercaseX,
    LowercaseY,
    LowercaseZ,
    BraceLeft,
    Bar,
    BraceRight,
    AsciiTilde,
}

/// The keysym of a key.
pub open spec fn keysym_value(k: Key) -> u32 {
    match k {
        Key::BackSpace => 0xff08,
        Key::Tab => 0xff09,
        Key::Linefeed => 0xff0a,
        Key::Clear => 0xff0b,
        Key::Return => 0xff0d,
        Key::Pause => 0xff13,
        Key::ScrollLock => 0xff14,
        Key::SysReq => 0xff15,
        Key::Escape => 0xff1b,
        Key::Delete => 0xffff,
        Key::Home => 0xff50,
        Key::Left => 0xff51,
        Key::Up => 0xff52,
        Key::Right => 0xff53,
        Key::Down => 0xff54,
        Key::PageUp => 0xff55,
        Key::PageDown => 0xff56,
        Key::End => 0xff57,
        Key::Begin => 0xff58,
        Key::Space => 0x0020,
        Key::Exclam => 0x0021,
        Key::Quotedbl => 0x0022,
        Key::Numbersign => 0x0023,
        Key::Dollar => 0x0024,
        Key::Percent => 0x0025,
        Key::Ampersand => 0x0026,
        Key::Apostrophe => 0x0027,
        Key::ParenLeft => 0x0028,
        Key::ParenRight => 0x0029,
        Key::Asterisk => 0x002a,
        Key::Plus => 0x002b,
        Key::Comma => 0x002c,
        Key::Minus => 0x002d,
        Key::Period => 0x002e,
        Key::Slash => 0x002f,
        Key::Zero => 0x0030,
        Key::One => 0x0031,
        Key::Two => 0x0032,
        Key::Three => 0x0033,
        Key::Four => 0x0034,
        Key::Five => 0x0035,
        Key::Six => 0x0036,
        Key::Seven => 0x0037,
        Key::Eight => 0x0038,
        Key::Nine => 0x0039,
        Key::Colon => 0x003a,
        Key::Semicolon => 0x003b,
        Key::Less => 0x003c,
        Key::Equal => 0x003d,
        Key::Greater => 0x003e,
        Key::Question => 0x003f,
        Key::At => 0x0040,
        Key::UppercaseA => 0x0041,
        Key::UppercaseB => 0x0042,
        Key::UppercaseC => 0x0043,
        Key::UppercaseD => 0x0044,
        Key::UppercaseE => 0x0045,
        Key::UppercaseF => 0x0046,
        Key::UppercaseG => 0x0047,
        Key::UppercaseH => 0x0048,
        Key::UppercaseI => 0x0049,
        Key::UppercaseJ => 0x004a,
        Key::UppercaseK => 0x004b,
        Key::UppercaseL => 0x004c,
        Key::UppercaseM => 0x004d,
        Key::UppercaseN => 0x004e,
        Key::UppercaseO => 0x004f,
        Key::UppercaseP => 0x0050,
        Key::UppercaseQ => 0x0051,
        Key::UppercaseR => 0x0052,
        Key::UppercaseS => 0x0053,
        Key::UppercaseT => 0x0054,
        Key::UppercaseU => 0x0055,
        Key::UppercaseV => 0x0056,
        Key::UppercaseW => 0x0057,
        Key::UppercaseX => 0x0058,
        Key::UppercaseY => 0x0059,
        Key::UppercaseZ => 0x005a,
        Key::BracketLeft => 0x005b,
        Key::Backslash => 0x005c,
        Key::BracketRight => 0x005d,
        Key::AsciiCircum => 0x005e,
        Key::Underscore => 0x005f,
        Key::Grave => 0x0060,
        Key::LowercaseA => 0x0061,
        Key::LowercaseB => 0x0062,
        Key::LowercaseC => 0x0063,
        Key::LowercaseD => 0x0064,
        Key::LowercaseE => 0x0065,
        Key::LowercaseF => 0x0066,
        Key::LowercaseG => 0x0067,
        Key::LowercaseH => 0x0068,
        Key::LowercaseI => 0x0069,
        Key::LowercaseJ => 0x006a,
        Key::LowercaseK => 0x006b,
        Key::LowercaseL => 0x006c,
        Key::LowercaseM => 0x006d,
        Key::LowercaseN => 0x006e,
        Key::LowercaseO => 0x006f,
        Key::LowercaseP => 0x0070,
        Key::LowercaseQ => 0x0071,
        Key::LowercaseR => 0x0072,
        Key::LowercaseS => 0x0073,
        Key::LowercaseT => 0x0074,
        Key::LowercaseU => 0x0075,
        Key::LowercaseV => 0x0076,
        Key::LowercaseW => 0x0077,
        Key::LowercaseX => 0x0078,
        Key::LowercaseY => 0x0079,
        Key::LowercaseZ => 0x007a,
        Key::BraceLeft => 0x007b,
        Key::Bar => 0x007c,
        Key::BraceRight => 0x007d,
        Key::AsciiTilde => 0x007e,
    }
}

/// Different keys have different keysyms.
pub proof fn lemma_keysym_value_injective(a: Key, b: Key)
    ensures
        keysym_value(a) == keysym_value(b) ==> a == b,
{
}

impl Key {
    pub fn to_u32(&self) -> (r: u32)
        ensures
            r == keysym_value(*self),
    {
        match self {
            Key::BackSpace => 0xff08,
            Key::Tab => 0xff09,
            Key::Linefeed => 0xff0a,
            Key::Clear => 0xff0b,
            Key::Return => 0xff0d,
            Key::Pause => 0xff13,
            Key::ScrollLock => 0xff14,
            Key::SysReq => 0xff15,
            Key::Escape => 0xff1b,
            Key::Delete => 0xffff,
            Key::Home => 0xff50,
            Key::Left => 0xff51,
            Key::Up => 0xff52,
            Key::Right => 0xff53,
            Key::Down => 0xff54,
            Key::PageUp => 0xff55,
            Key::PageDown => 0xff56,
            Key::End => 0xff57,
            Key::Begin => 0xff58,
            Key::Space => 0x0020,
            Key::Exclam => 0x0021,
            Key::Quotedbl => 0x0022,
            Key::Numbersign => 0x0023,
            Key::Dollar => 0x0024,
            Key::Percent => 0x0025,
            Key::Ampersand => 0x0026,
            Key::Apostrophe => 0x0027,
            Key::ParenLeft => 0x0028,
            Key::ParenRight => 0x0029,
            Key::Asterisk => 0x002a,
            Key::Plus => 0x002b,
            Key::Comma => 0x002c,
            Key::Minus => 0x002d,
            Key::Period => 0x002e,
            Key::Slash => 0x002f,
            Key::Zero => 0x0030,
            Key::One => 0x0031,
            Key::Two => 0x0032,
            Key::Three => 0x0033,
            Key::Four => 0x0034,
            Key::Five => 0x0035,
            Key::Six => 0x0036,
            Key::Seven => 0x0037,
            Key::Eight => 0x0038,
            Key::Nine => 0x0039,
            Key::Colon => 0x003a,
            Key::Semicolon => 0x003b,
            Key::Less => 0x003c,
            Key::Equal => 0x003d,
            Key::Greater => 0x003e,
            Key::Question => 0x003f,
            Key::At => 0x0040,
            Key::UppercaseA => 0x0041,
            Key::UppercaseB => 0x0042,
            Key::UppercaseC => 0x0043,
            Key::UppercaseD => 0x0044,
            Key::UppercaseE => 0x0045,
            Key::UppercaseF => 0x0046,
            Key::UppercaseG => 0x0047,
            Key::UppercaseH => 0x0048,
            Key::UppercaseI => 0x0049,
            Key::UppercaseJ => 0x004a,
            Key::UppercaseK => 0x004b,
            Key::UppercaseL => 0x004c,
            Key::UppercaseM => 0x004d,
            Key::UppercaseN => 0x004e,
            Key::UppercaseO => 0x004f,
            Key::UppercaseP => 0x0050,
            Key::UppercaseQ => 0x0051,
            Key::UppercaseR => 0x0052,
            Key::UppercaseS => 0x0053,
            Key::UppercaseT => 0x0054,
            Key::UppercaseU => 0x0055,
            Key::UppercaseV => 0x0056,
            Key::UppercaseW => 0x0057,
            Key::UppercaseX => 0x0058,
            Key::UppercaseY => 0x0059,
            Key::UppercaseZ => 0x005a,
            Key::BracketLeft => 0x005b,
            Key::Backslash => 0x005c,
            Key::BracketRight => 0x005d,
            Key::AsciiCircum => 0x005e,
            Key::Underscore => 0x005f,
            Key::Grave => 0x0060,
            Key::LowercaseA => 0x0061,
            Key::LowercaseB => 0x0062,
            Key::LowercaseC => 0x0063,
            Key::LowercaseD => 0x0064,
            Key::LowercaseE => 0x0065,
            Key::LowercaseF => 0x0066,
            Key::LowercaseG => 0x0067,
            Key::LowercaseH => 0x0068,
            Key::LowercaseI => 0x0069,
            Key::LowercaseJ => 0x006a,
            Key::LowercaseK => 0x006b,
            Key::LowercaseL => 0x006c,
            Key::LowercaseM => 0x006d,
            Key::LowercaseN => 0x006e,
            Key::LowercaseO => 0x006f,
            Key::LowercaseP => 0x0070,
            Key::LowercaseQ => 0x0071,
            Key::LowercaseR => 0x0072,
            Key::LowercaseS => 0x0073,
            Key::LowercaseT => 0x0074,
            Key::LowercaseU => 0x0075,
            Key::LowercaseV => 0x0076,
            Key::LowercaseW => 0x0077,
            Key::LowercaseX => 0x0078,
            Key::LowercaseY => 0x0079,
            Key::LowercaseZ => 0x007a,
            Key::BraceLeft => 0x007b,
            Key::Bar => 0x007c,
            Key::BraceRight => 0x007d,
            Key::AsciiTilde => 0x007e,
        }
    }

    /// The key whose keysym is `v`, if any.
    pub fn from_u32(v: u32) -> (r: Option<Key>)
        ensures
            match r {
                Some(k) => keysym_value(k) == v,
                None => forall|k: Key| keysym_value(k) != v,
            },
    {
        match v {
            0xff08 => Some(Key::BackSpace),
            0xff09 => Some(Key::Tab),
            0xff0a => Some(Key::Linefeed),
            0xff0b => Some(Key::Clear),
            0xff0d => Some(Key::Return),
            0xff13 => Some(Key::Pause),
            0xff14 => Some(Key::ScrollLock),
            0xff15 => Some(Key::SysReq),
            0xff1b => Some(Key::Escape),
            0xffff => Some(Key::Delete),
            0xff50 => Some(Key::Home),
            0xff51 => Some(Key::Left),
            0xff52 => Some(Key::Up),
            0xff53 => Some(Key::Right),
            0xff54 => Some(Key::Down),
            0xff55 => Some(Key::PageUp),
            0xff56 => Some(Key::PageDown),
            0xff57 => Some(Key::End),
            0xff58 => Some(Key::Begin),
            0x0020 => Some(Key::Space),
            0x0021 => Some(Key::Exclam),
            0x0022 => Some(Key::Quotedbl),
            0x0023 => Some(Key::Numbersign),
            0x0024 => Some(Key::Dollar),
            0x0025 => Some(Key::Percent),
            0x0026 => Some(Key::Ampersand),
            0x0027 => Some(Key::Apostrophe),
            0x0028 => Some(Key::ParenLeft),
            0x0029 => Some(Key::ParenRight),
            0x002a => Some(Key::Asterisk),
            0x002b => Some(Key::Plus),
            0x002c => Some(Key::Comma),
            0x002d => Some(Key::Minus),
            0x002e => Some(Key::Period),
            0x002f => Some(Key::Slash),
            0x0030 => Some(Key::Zero),
            0x0031 => Some(Key::One),
            0x0032 => Some(Key::Two),
            0x0033 => Some(Key::Three),
            0x0034 => Some(Key::Four),
            0x0035 => Some(Key::Five),
            0x0036 => Some(Key::Six),
            0x0037 => Some(Key::Seven),
            0x0038 => Some(Key::Eight),
            0x0039 => Some(Key::Nine),
            0x003a => Some(Key::Colon),
            0x003b => Some(Key::Semicolon),
            0x003c => Some(Key::Less),
            0x003d => Some(Key::Equal),
            0x003e => Some(Key::Greater),
            0x003f => Some(Key::Question),
            0x0040 => Some(Key::At),
            0x0041 => Some(Key::UppercaseA),
            0x0042 => Some(Key::UppercaseB),
            0x0043 => Some(Key::UppercaseC),
            0x0044 => Some(Key::UppercaseD),
            0x0045 => Some(Key::UppercaseE),
            0x0046 => Some(Key::UppercaseF),
            0x0047 => Some(Key::UppercaseG),
            0x0048 => Some(Key::UppercaseH),
            0x0049 => Some(Key::UppercaseI),
            0x004a => Some(Key::UppercaseJ),
            0x004b => Some(Key::UppercaseK),
            0x004c => Some(Key::UppercaseL),
            0x004d => Some(Key::UppercaseM),
            0x004e => Some(Key::UppercaseN),
            0x004f => Some(Key::UppercaseO),
            0x0050 => Some(Key::UppercaseP),
            0x0051 => Some(Key::UppercaseQ),
            0x0052 => Some(Key::UppercaseR),
            0x0053 => Some(Key::UppercaseS),
            0x0054 => Some(Key::UppercaseT),
            0x0055 => Some(Key::UppercaseU),
            0x0056 => Some(Key::UppercaseV),
            0x0057 => Some(Key::UppercaseW),
            0x0058 => Some(Key::UppercaseX),
            0x0059 => Some(Key::UppercaseY),
            0x005a => Some(Key::UppercaseZ),
            0x005b => Some(Key::BracketLeft),
            0x005c => Some(Key::Backslash),
            0x005d => Some(Key::BracketRight),
            0x005e => Some(Key::AsciiCircum),
            0x005f => Some(Key::Underscore),
            0x0060 => Some(Key::Grave),
            0x0061 => Some(Key::LowercaseA),
            0x0062 => Some(Key::LowercaseB),
            0x0063 => Some(Key::LowercaseC),
            0x0064 => Some(Key::LowercaseD),
            0x0065 => Some(Key::LowercaseE),
            0x0066 => Some(Key::LowercaseF),
            0x0067 => Some(Key::LowercaseG),
            0x0068 => Some(Key::LowercaseH),
            0x0069 => Some(Key::LowercaseI),
            0x006a => Some(Key::LowercaseJ),
            0x006b => Some(Key::LowercaseK),
            0x006c => Some(Key::LowercaseL),
            0x006d => Some(Key::LowercaseM),
            0x006e => Some(Key::LowercaseN),
            0x006f => Some(Key::LowercaseO),
            0x0070 => Some(Key::LowercaseP),
            0x0071 => Some(Key::LowercaseQ),
            0x0072 => Some(Key::LowercaseR),
            0x0073 => Some(Key::LowercaseS),
            0x0074 => Some(Key::LowercaseT),
            0x0075 => Some(Key::LowercaseU),
            0x0076 => Some(Key::LowercaseV),
            0x0077 => Some(Key::LowercaseW),
            0x0078 => Some(Key::LowercaseX),
            0x0079 => Some(Key::LowercaseY),
            0x007a => Some(Key::LowercaseZ),
            0x007b => Some(Key::BraceLeft),
            0x007c => Some(Key::Bar),
            0x007d => Some(Key::BraceRight),
            0x007e => Some(Key::AsciiTilde),
            _ => None,
        }
    }
}

// ---------------------------------------------------------------------------
// Keyboard mappings: `per_keycode` keysyms for each keycode, in keycode order.
// ---------------------------------------------------------------------------

/// Chunk `i` of the mapping holds `v`.
pub open spec fn chunk_holds(keysyms: Seq<u32>, per_keycode: int, i: int, v: u32) -> bool {
    exists|j: int| i * per_keycode <= j < (i + 1) * per_keycode && j < keysyms.len() && #[trigger] keysyms[j] == v
}

/// The first chunk of the mapping that holds `v`, if any.
pub open spec fn first_chunk_holding(keysyms: Seq<u32>, per_keycode: int, v: u32) -> Option<int> {
    if exists|i: int| 0 <= i && i * per_keycode < keysyms.len() && #[trigger] chunk_holds(keysyms, per_keycode, i, v) {
        Some(
            choose|i: int|
                0 <= i && i * per_keycode < keysyms.len() && #[trigger] chunk_holds(keysyms, per_keycode, i, v) && forall|
                    k: int,
                | 0 <= k < i ==> !chunk_holds(keysyms, per_keycode, k, v),
        )
    } else {
        None
    }
}

/// The key of the first keysym of the `keycode`-th chunk of the mapping, if the chunk
/// exists and its first keysym names a key.
pub fn keysym_for_keycode(keysyms: &Vec<u32>, per_keycode: usize, keycode: u8) -> (r: Option<Key>)
    requires
        per_keycode > 0,
    ensures
        (keycode * per_keycode < keysyms@.len()) ==> match r {
            Some(k) => keysym_value(k) == keysyms@[keycode * per_keycode],
            None => forall|k: Key| keysym_value(k) != keysyms@[keycode * per_keycode],
        },
        (keycode * per_keycode >= keysyms@.len()) ==> r is None,
{
    let n = keysyms.len();
    let start = (keycode as usize).checked_mul(per_keycode);
    match start {
        Some(s) => {
            if s < n {
                Key::from_u32(keysyms[s])
            } else {
                None
            }
        },
        None => {
            proof {
                assert(keycode * per_keycode >= keysyms@.len());
            }
            None
        },
    }
}

/// The keycode of the first chunk of the mapping that holds `key`'s keysym, counting
/// from `min_keycode`.
pub fn keycode_for_keysym(keysyms: &Vec<u32>, per_keycode: usize, min_keycode: u8, key: &Key) -> (r: Option<u8>)
    requires
        per_keycode > 0,
        keysyms@.len() <= per_keycode * (256 - min_keycode),
    ensures
        r == match first_chunk_holding(keysyms@, per_keycode as int, keysym_value(*key)) {
            Some(i) => Some((min_keycode + i) as u8),
            None => None,
        },
{
    let v = key.to_u32();
    let mut j: usize = 0;
    while j < keysyms.len()
        invariant
            j <= keysyms@.len(),
            per_keycode > 0,
            keysyms@.len() <= per_keycode * (256 - min_keycode),
            v == keysym_value(*key),
            forall|x: int| 0 <= x < j ==> keysyms@[x] != v,
        decreases keysyms@.len() - j,
    {
        if keysyms[j] == v {
            let i = j / per_keycode;
            proof {
                lemma_chunk_of(keysyms@, per_keycode as int, v, j as int);
                assert(i < 256 - min_keycode) by (nonlinear_arith)
                    requires
                        i == j / per_keycode,
                        j < keysyms@.len(),
                        keysyms@.len() <= per_keycode * (256 - min_keycode),
                        per_keycode > 0,
                ;
            }
            return Some(min_keycode + (i as u8));
        }
        j = j + 1;
    }
    proof {
        assert forall|k: int| 0 <= k && k * per_keycode < keysyms@.len() implies !#[trigger] chunk_holds(
            keysyms@,
            per_keycode as int,
            k,
            v,
        ) by {
            if chunk_holds(keysyms@, per_keycode as int, k, v) {
                let x = choose|x: int|
                    k * per_keycode <= x < (k + 1) * per_keycode && x < keysyms@.len() && #[trigger] keysyms@[x] == v;
                assert(keysyms@[x] != v);
            }
        }
    }
    None
}

/// The first occurrence of `v` lies in the first chunk that holds it.
proof fn lemma_chunk_of(keysyms: Seq<u32>, per_keycode: int, v: u32, j: int)
    requires
        per_keycode > 0,
        0 <= j < keysyms.len(),
        keysyms[j] == v,
        forall|x: int| 0 <= x < j ==> keysyms[x] != v,
    ensures
        first_chunk_holding(keysyms, per_keycode, v) == Some(j / per_keycode),
{
    let i = j / per_keycode;
    assert(i * per_keycode <= j < (i + 1) * per_keycode && i >= 0) by (nonlinear_arith)
        requires
            i == j / per_keycode,
            per_keycode > 0,
            j >= 0,
    ;
    assert(chunk_holds(keysyms, per_keycode, i, v));
    assert forall|k: int| 0 <= k < i implies !chunk_holds(keysyms, per_keycode, k, v) by {
        if chunk_holds(keysyms, per_keycode, k, v) {
            let x = choose|x: int|
                k * per_keycode <= x < (k + 1) * per_keycode && x < keysyms.len() && #[trigger] keysyms[x] == v;
            assert((k + 1) * per_keycode <= i * per_keycode) by (nonlinear_arith)
                requires
                    k + 1 <= i,
                    per_keycode > 0,
            ;
            assert(keysyms[x] != v);
        }
    }
    lemma_first_chunk(keysyms, per_keycode, v, i);
}

/// A chunk that holds `v` after no earlier chunk does is the first one.
proof fn lemma_first_chunk(keysyms: Seq<u32>, per_keycode: int, v: u32, i: int)
    requires
        0 <= i,
        i * per_keycode < keysyms.len(),
        chunk_holds(keysyms, per_keycode, i, v),
        forall|k: int| 0 <= k < i ==> !chunk_holds(keysyms, per_keycode, k, v),
    ensures
        first_chunk_holding(keysyms, per_keycode, v) == Some(i),
{
    let c = choose|c: int|
        0 <= c && c * per_keycode < keysyms.len() && #[trigger] chunk_holds(keysyms, per_keycode, c, v) && forall|k: int|
            0 <= k < c ==> !chunk_holds(keysyms, per_keycode, k, v);
    assert(0 <= c && c * per_keycode < keysyms.len() && chunk_holds(keysyms, per_keycode, c, v) && forall|k: int|
        0 <= k < c ==> !chunk_holds(keysyms, per_keycode, k, v));
    if c < i {
        assert(!chunk_holds(keysyms, per_keycode, c, v));
    } else if i < c {
        assert(!chunk_holds(keysyms, per_keycode, i, v));
    }
}

} // verus!
