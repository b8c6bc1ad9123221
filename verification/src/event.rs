//! Keyboard and mouse input types: modifier sets, key codes and key events.

use vstd::prelude::*;

verus! {

/// Key modifier flags, one bit per modifier key
/// (shift = bit 0, control = bit 1, alt = bit 2, super = bit 3).
#[derive(Debug, Clone, Copy, PartialEq, Eq, Hash, Default, Structural)]
pub struct KeyModifiers(u8);

impl KeyModifiers {
    /// The set of modifier bits held by this value.
    pub closed spec fn bits(self) -> u8 {
        self.0
    }

    /// No modifier.
    #[allow(non_snake_case)]
    pub fn NONE() -> (r: Self)
        ensures
            r.bits() == 0,
    {
        KeyModifiers(0)
    }

    /// The shift key.
    #[allow(non_snake_case)]
    pub fn SHIFT() -> (r: Self)
        ensures
            r.bits() == 1,
    {
        KeyModifiers(1)
    }

    /// The control key.
    #[allow(non_snake_case)]
    pub fn CONTROL() -> (r: Self)
        ensures
            r.bits() == 2,
    {
        KeyModifiers(2)
    }

    /// The alt key.
    #[allow(non_snake_case)]
    pub fn ALT() -> (r: Self)
        ensures
            r.bits() == 4,
    {
        KeyModifiers(4)
    }

    /// The super (logo) key.
    #[allow(non_snake_case)]
    pub fn SUPER() -> (r: Self)
        ensures
            r.bits() == 8,
    {
        KeyModifiers(8)
    }

    /// The empty modifier set.
    pub fn empty() -> (r: Self)
        ensures
            r.bits() == 0,
    {
        KeyModifiers(0)
    }

    /// Whether every modifier of `other` is also held by `self`.
    pub fn contains(self, other: Self) -> (r: bool)
        ensures
            r == (self.bits() & other.bits() == other.bits()),
    {
        self.0 & other.0 == other.0
    }

    /// Whether no modifier is held.
    pub fn is_empty(self) -> (r: bool)
        ensures
            r == (self.bits() == 0),
    {
        self.0 == 0
    }

    /// The modifiers held by either operand.
    pub fn union(self, other: Self) -> (r: Self)
        ensures
            r.bits() == self.bits() | other.bits(),
    {
        KeyModifiers(self.0 | other.0)
    }
}

impl core::ops::BitOr for KeyModifiers {
    type Output = Self;

    fn bitor(self, rhs: Self) -> (r: Self)
        ensures
            r.bits() == self.bits() | rhs.bits(),
    {
        KeyModifiers(self.0 | rhs.0)
    }
}

impl vstd::std_specs::ops::BitOrSpecImpl for KeyModifiers {
    open spec fn obeys_bitor_spec() -> bool {
        true
    }

    open spec fn bitor_req(self, rhs: Self) -> bool {
        true
    }

    closed spec fn bitor_spec(self, rhs: Self) -> Self {
        KeyModifiers(self.0 | rhs.0)
    }
}

impl core::ops::BitOrAssign for KeyModifiers {
    fn bitor_assign(&mut self, rhs: Self)
        ensures
            final(self).bits() == old(self).bits() | rhs.bits(),
    {
        self.0 = self.0 | rhs.0;
    }
}

/// A modifier set is its bits: two sets are equal exactly when they hold
/// the same bits, so each law stated over `bits` holds of the sets too.
pub proof fn lemma_bits_determine(a: KeyModifiers, b: KeyModifiers)
    ensures
        (a.bits() == b.bits()) <==> (a == b),
{
}

/// Union of modifier sets is commutative, associative and idempotent,
/// and the empty set is its identity.
pub proof fn lemma_union_laws(a: KeyModifiers, b: KeyModifiers, c: KeyModifiers)
    ensures
        a.bits() | b.bits() == b.bits() | a.bits(),
        (a.bits() | b.bits()) | c.bits() == a.bits() | (b.bits() | c.bits()),
        a.bits() | a.bits() == a.bits(),
        a.bits() | 0u8 == a.bits(),
{
    let (x, y, z) = (a.bits(), b.bits(), c.bits());
    assert(x | y == y | x) by (bit_vector);
    assert((x | y) | z == x | (y | z)) by (bit_vector);
    assert(x | x == x) by (bit_vector);
    assert(x | 0u8 == x) by (bit_vector);
}

/// A union contains both of its operands; containment is reflexive and
/// transitive, and every set contains the empty set.
pub proof fn lemma_contains_laws(a: KeyModifiers, b: KeyModifiers, c: KeyModifiers)
    ensures
        (a.bits() | b.bits()) & a.bits() == a.bits(),
        (a.bits() | b.bits()) & b.bits() == b.bits(),
        a.bits() & a.bits() == a.bits(),
        a.bits() & 0u8 == 0u8,
        (a.bits() & b.bits() == b.bits() && b.bits() & c.bits() == c.bits())
            ==> a.bits() & c.bits() == c.bits(),
{
    let (x, y, z) = (a.bits(), b.bits(), c.bits());
    assert((x | y) & x == x) by (bit_vector);
    assert((x | y) & y == y) by (bit_vector);
    assert(x & x == x) by (bit_vector);
    assert(x & 0u8 == 0u8) by (bit_vector);
    assert((x & y == y && y & z == z) ==> x & z == z) by (bit_vector);
}

/// A set is empty exactly when it contains no single modifier key, and
/// the four modifier keys are distinct and pairwise disjoint.
pub proof fn lemma_named_modifiers(m: KeyModifiers)
    ensures
        m.bits() & 15u8 == 0u8 && m.bits() < 16 ==> m.bits() == 0,
        1u8 & 2u8 == 0u8,
        1u8 & 4u8 == 0u8,
        1u8 & 8u8 == 0u8,
        2u8 & 4u8 == 0u8,
        2u8 & 8u8 == 0u8,
        4u8 & 8u8 == 0u8,
{
    let x = m.bits();
    assert(x & 15u8 == 0u8 && x < 16 ==> x == 0) by (bit_vector);
    assert(1u8 & 2u8 == 0u8) by (bit_vector);
    assert(1u8 & 4u8 == 0u8) by (bit_vector);
    assert(1u8 & 8u8 == 0u8) by (bit_vector);
    assert(2u8 & 4u8 == 0u8) by (bit_vector);
    assert(2u8 & 8u8 == 0u8) by (bit_vector);
    assert(4u8 & 8u8 == 0u8) by (bit_vector);
}

/// Key code.
#[derive(Debug, Clone, Copy, PartialEq, Eq, Hash, Structural)]
pub enum KeyCode {
    Char(char),
    F(u8),
    Backspace,
    Enter,
    Tab,
    BackTab,
    Esc,
    Left,
    Right,
    Up,
    Down,
    Home,
    End,
    PageUp,
    PageDown,
    Insert,
    Delete,
    Null,
}

/// The kind of key event.
#[derive(Debug, Clone, Copy, PartialEq, Eq, Hash, Structural)]
pub enum KeyEventKind {
    Press,
    Release,
    Repeat,
}

/// A keyboard event.
#[derive(Debug, Clone, Copy, PartialEq, Eq, Hash, Structural)]
pub struct KeyEvent {
    pub code: KeyCode,
    pub modifiers: KeyModifiers,
    pub kind: KeyEventKind,
}

impl KeyEvent {
    /// A key press of `code` with the given modifiers.
    pub fn new(code: KeyCode, modifiers: KeyModifiers) -> (r: Self)
        ensures
            r.code == code,
            r.modifiers == modifiers,
            r.kind == KeyEventKind::Press,
    {
        KeyEvent { code, modifiers, kind: KeyEventKind::Press }
    }

    /// Whether this is `code` with control held (other modifiers may be held too).
    pub fn is_ctrl(&self, code: KeyCode) -> (r: bool)
        ensures
            r == (self.code == code && self.modifiers.bits() & 2u8 == 2u8),
    {
        self.code == code && self.modifiers.contains(KeyModifiers::CONTROL())
    }

    /// Whether this is `code` with no modifier held.
    pub fn is_key(&self, code: KeyCode) -> (r: bool)
        ensures
            r == (self.code == code && self.modifiers.bits() == 0),
    {
        self.code == code && self.modifiers.is_empty()
    }
}

/// The key code of a keyboard input: a character key stands for its first
/// character (none for an empty text); otherwise the named key's code, if
/// it has one.
pub open spec fn typed_key(named: Option<KeyCode>, character: Option<Seq<char>>) -> Option<KeyCode> {
    match character {
        Some(s) => if s.len() > 0 {
            Some(KeyCode::Char(s[0]))
        } else {
            None
        },
        None => named,
    }
}

/// A character key gives the key code of the first character it typed
/// (none when it typed nothing), whatever key is named; a key that typed
/// no text gives the named key's code.
pub proof fn lemma_typed_key(named: Option<KeyCode>, s: Seq<char>)
    ensures
        s.len() > 0 ==> typed_key(named, Some(s)) == Some(KeyCode::Char(s[0])),
        s.len() == 0 ==> typed_key(named, Some(s)) is None,
        typed_key(named, None) == named,
{
}

/// The view of an optional text.
pub open spec fn opt_text(t: Option<&str>) -> Option<Seq<char>> {
    match t {
        Some(s) => Some(s@),
        None => None,
    }
}

/// What one keyboard input gives: a key event for the key's code, if it
/// has one (see `typed_key`), with no modifiers, a press or a release by
/// `pressed`; and, on a press of a character key, the typed text.
pub fn key_input(named: Option<KeyCode>, character: Option<&str>, pressed: bool) -> (r: (
    Option<KeyEvent>,
    Option<String>,
))
    ensures
        match typed_key(named, opt_text(character)) {
            Some(c) => r.0 matches Some(e) && e.code == c && e.modifiers.bits() == 0 && e.kind == (
            if pressed {
                KeyEventKind::Press
            } else {
                KeyEventKind::Release
            }),
            None => r.0 is None,
        },
        match character {
            Some(s) => if pressed {
                r.1 matches Some(t) && t@ == s@
            } else {
                r.1 is None
            },
            None => r.1 is None,
        },
{
    let code = match character {
        Some(s) => {
            if s.unicode_len() > 0 {
                Some(KeyCode::Char(s.get_char(0)))
            } else {
                None
            }
        },
        None => named,
    };
    let kind = if pressed {
        KeyEventKind::Press
    } else {
        KeyEventKind::Release
    };
    let event = match code {
        Some(c) => Some(KeyEvent { code: c, modifiers: KeyModifiers::empty(), kind }),
        None => None,
    };
    let text = match character {
        Some(s) => {
            if pressed {
                Some(s.to_owned())
            } else {
                None
            }
        },
        None => None,
    };
    (event, text)
}

/// Hit-test resolution: among the registered widgets whose bounds contain
/// the pointer (`hits[i]`), the one with the highest z-order wins, and of
/// several with that z-order the one registered last.
pub open spec fn is_topmost_hit(z_orders: Seq<u32>, hits: Seq<bool>, i: int) -> bool {
    &&& 0 <= i < hits.len()
    &&& hits[i]
    &&& forall|j: int| 0 <= j < hits.len() && hits[j] ==> z_orders[j] <= z_orders[i]
    &&& forall|j: int| i < j < hits.len() && hits[j] ==> z_orders[j] < z_orders[i]
}

/// The index of the widget that receives the pointer: the highest
/// z-order among the hit entries, the last registered on a tie; `None`
/// when no entry is hit.
pub fn topmost_hit(z_orders: &Vec<u32>, hits: &Vec<bool>) -> (r: Option<usize>)
    requires
        z_orders@.len() == hits@.len(),
    ensures
        r is None <==> forall|j: int| 0 <= j < hits@.len() ==> !hits@[j],
        r matches Some(i) ==> is_topmost_hit(z_orders@, hits@, i as int),
{
    let mut best: Option<usize> = None;
    let mut k: usize = 0;
    while k < hits.len()
        invariant
            z_orders@.len() == hits@.len(),
            k <= hits@.len(),
            best is None <==> forall|j: int| 0 <= j < k ==> !hits@[j],
            best matches Some(i) ==> {
                &&& i < k
                &&& hits@[i as int]
                &&& forall|j: int| 0 <= j < k && hits@[j] ==> z_orders@[j] <= z_orders@[i as int]
                &&& forall|j: int| i < j < k && hits@[j] ==> z_orders@[j] < z_orders@[i as int]
            },
        decreases hits.len() - k,
    {
        if hits[k] {
            match best {
                None => {
                    best = Some(k);
                },
                Some(b) => {
                    if z_orders[k] >= z_orders[b] {
                        best = Some(k);
                    }
                },
            }
        }
        k = k + 1;
    }
    best
}

/// At most one entry is the topmost hit.
pub proof fn lemma_topmost_hit_unique(z_orders: Seq<u32>, hits: Seq<bool>, i: int, j: int)
    requires
        is_topmost_hit(z_orders, hits, i),
        is_topmost_hit(z_orders, hits, j),
    ensures
        i == j,
{
}

/// Mouse button.
#[derive(Debug, Clone, Copy, PartialEq, Eq, Hash, Structural)]
pub enum MouseButton {
    Left,
    Right,
    Middle,
}

} // verus!
