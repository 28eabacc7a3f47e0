//! Button sets, and the mapping of each controller family's native button
//! bits into them.

use vstd::prelude::*;

verus! {

/// A single button that the library knows about.
#[derive(Debug, Clone, Copy, PartialEq, Eq, Structural, Hash)]
pub enum ButtonFlag {
    A,
    B,
    X,
    Y,
    Left,
    Right,
    Up,
    Down,
    L,
    R,
    ZL,
    ZR,
    Plus,
    Minus,
    Home,
    Sync,
    R3,
    L3,
    RStickLeft,
    RStickRight,
    RStickUp,
    RStickDown,
    LStickLeft,
    LStickRight,
    LStickUp,
    LStickDown,
    One,
    Two,
    Z,
    C,
    TV,
}

/// The bit position that stands for a button inside a [`Button`] set.
pub open spec fn flag_index(f: ButtonFlag) -> u32 {
    match f {
        ButtonFlag::A => 0,
        ButtonFlag::B => 1,
        ButtonFlag::X => 2,
        ButtonFlag::Y => 3,
        ButtonFlag::Left => 4,
        ButtonFlag::Right => 5,
        ButtonFlag::Up => 6,
        ButtonFlag::Down => 7,
        ButtonFlag::L => 8,
        ButtonFlag::R => 9,
        ButtonFlag::ZL => 10,
        ButtonFlag::ZR => 11,
        ButtonFlag::Plus => 12,
        ButtonFlag::Minus => 13,
        ButtonFlag::Home => 14,
        ButtonFlag::Sync => 15,
        ButtonFlag::R3 => 16,
        ButtonFlag::L3 => 17,
        ButtonFlag::RStickLeft => 18,
        ButtonFlag::RStickRight => 19,
        ButtonFlag::RStickUp => 20,
        ButtonFlag::RStickDown => 21,
        ButtonFlag::LStickLeft => 22,
        ButtonFlag::LStickRight => 23,
        ButtonFlag::LStickUp => 24,
        ButtonFlag::LStickDown => 25,
        ButtonFlag::One => 26,
        ButtonFlag::Two => 27,
        ButtonFlag::Z => 28,
        ButtonFlag::C => 29,
        ButtonFlag::TV => 30,
    }
}

/// The single-bit mask of a button.
pub open spec fn flag_mask(f: ButtonFlag) -> u32 {
    1u32 << flag_index(f)
}

/// Whether every bit of `mask` is set in `bits`.
pub open spec fn has_bits(bits: u32, mask: u32) -> bool {
    bits & mask == mask
}

impl ButtonFlag {
    /// The bit position of this button.
    pub fn index(self) -> (r: u32)
        ensures
            r == flag_index(self),
    {
        match self {
            ButtonFlag::A => 0,
            ButtonFlag::B => 1,
            ButtonFlag::X => 2,
            ButtonFlag::Y => 3,
            ButtonFlag::Left => 4,
            ButtonFlag::Right => 5,
            ButtonFlag::Up => 6,
            ButtonFlag::Down => 7,
            ButtonFlag::L => 8,
            ButtonFlag::R => 9,
            ButtonFlag::ZL => 10,
            ButtonFlag::ZR => 11,
            ButtonFlag::Plus => 12,
            ButtonFlag::Minus => 13,
            ButtonFlag::Home => 14,
            ButtonFlag::Sync => 15,
            ButtonFlag::R3 => 16,
            ButtonFlag::L3 => 17,
            ButtonFlag::RStickLeft => 18,
            ButtonFlag::RStickRight => 19,
            ButtonFlag::RStickUp => 20,
            ButtonFlag::RStickDown => 21,
            ButtonFlag::LStickLeft => 22,
            ButtonFlag::LStickRight => 23,
            ButtonFlag::LStickUp => 24,
            ButtonFlag::LStickDown => 25,
            ButtonFlag::One => 26,
            ButtonFlag::Two => 27,
            ButtonFlag::Z => 28,
            ButtonFlag::C => 29,
            ButtonFlag::TV => 30,
        }
    }

    /// The single-bit mask of this button.
    pub fn mask(self) -> (r: u32)
        ensures
            r == flag_mask(self),
    {
        1u32 << self.index()
    }
}

/// A set of buttons (held, pressed or released ones, for instance).
#[derive(Debug, Clone, Copy, PartialEq, Eq, Structural, Default)]
pub struct Button {
    bits: u32,
}

impl View for Button {
    type V = u32;

    closed spec fn view(&self) -> u32 {
        self.bits
    }
}

/// Every bit that stands for some button.
pub open spec fn all_bits() -> u32 {
    0x7FFF_FFFFu32
}

impl Button {
    /// Whether the set holds the button `f`.
    pub open spec fn has(self, f: ButtonFlag) -> bool {
        self@ & flag_mask(f) != 0
    }

    /// Whether every button of `other` is in this set.
    pub open spec fn includes(self, other: Button) -> bool {
        has_bits(self@, other@)
    }

    /// The set with no buttons.
    pub fn empty() -> (r: Self)
        ensures
            r@ == 0,
    {
        Button { bits: 0 }
    }

    /// The set with every button.
    pub fn all() -> (r: Self)
        ensures
            r@ == all_bits(),
    {
        Button { bits: 0x7FFF_FFFF }
    }

    /// The set holding the single button `f`.
    pub fn single(f: ButtonFlag) -> (r: Self)
        ensures
            r@ == flag_mask(f),
    {
        Button { bits: f.mask() }
    }

    /// The raw bits of the set.
    pub fn bits(&self) -> (r: u32)
        ensures
            r == self@,
    {
        self.bits
    }

    /// The set whose bits are `bits`, dropping bits that stand for no button.
    pub fn from_bits_truncate(bits: u32) -> (r: Self)
        ensures
            r@ == bits & all_bits(),
    {
        Button { bits: bits & 0x7FFF_FFFF }
    }

    /// The set whose bits are `bits`, or `None` if a bit stands for no button.
    pub fn from_bits(bits: u32) -> (r: Option<Self>)
        ensures
            r matches Some(b) ==> b@ == bits,
            r is Some <==> bits & !all_bits() == 0,
    {
        if bits & !0x7FFF_FFFFu32 == 0 {
            Some(Button { bits })
        } else {
            None
        }
    }

    /// Whether every button of `other` is in this set.
    pub fn contains(&self, other: Button) -> (r: bool)
        ensures
            r == self.includes(other),
    {
        self.bits & other.bits == other.bits
    }

    /// Whether the two sets share a button.
    pub fn intersects(&self, other: Button) -> (r: bool)
        ensures
            r == (self@ & other@ != 0),
    {
        self.bits & other.bits != 0
    }

    /// The buttons that are in either set.
    pub fn union(self, other: Button) -> (r: Self)
        ensures
            r@ == self@ | other@,
            forall|f: ButtonFlag| #[trigger] r.has(f) == (self.has(f) || other.has(f)),
            self@ & !all_bits() == 0 && other@ & !all_bits() == 0 ==> r@ & !all_bits() == 0,
    {
        let r = Button { bits: self.bits | other.bits };
        proof {
            let (x, y) = (self.bits, other.bits);
            assert(x & !0x7FFF_FFFFu32 == 0 && y & !0x7FFF_FFFFu32 == 0 ==> (x | y) & !0x7FFF_FFFFu32 == 0) by (bit_vector);
            assert forall|f: ButtonFlag| #[trigger] r.has(f) == (self.has(f) || other.has(f)) by {
                lemma_or_mask(self.bits, other.bits, flag_mask(f));
            }
        }
        r
    }

    /// The set with the button `f` added.
    pub fn with(self, f: ButtonFlag) -> (r: Self)
        ensures
            r@ == self@ | flag_mask(f),
            forall|g: ButtonFlag| #[trigger] r.has(g) == (self.has(g) || g == f),
            r@ & !all_bits() == self@ & !all_bits(),
    {
        let r = Button { bits: self.bits | f.mask() };
        proof {
            let (x, i) = (self.bits, flag_index(f));
            assert((x | (1u32 << i)) & !0x7FFF_FFFFu32 == x & !0x7FFF_FFFFu32) by (bit_vector)
                requires
                    i < 31,
            ;
            assert forall|g: ButtonFlag| #[trigger] r.has(g) == (self.has(g) || g == f) by {
                lemma_or_single_bit(self.bits, flag_index(f), flag_index(g));
            }
        }
        r
    }
}

/// The native mask of a bit position.
pub open spec fn native_mask(pos: u32) -> u32 {
    1u32 << pos
}

/// Every entry of `table` names a bit position of a 32-bit word.
pub open spec fn positions_in_range(table: Seq<(u32, ButtonFlag)>) -> bool {
    forall|i: int| 0 <= i < table.len() ==> #[trigger] table[i].0 < 32
}

/// Whether some entry of `table` that leads to `f` has its native bit set in `value`.
pub open spec fn maps_to(value: u32, table: Seq<(u32, ButtonFlag)>, f: ButtonFlag) -> bool {
    exists|i: int|
        #![trigger table[i]]
        0 <= i < table.len() && table[i].1 == f && has_bits(value, native_mask(table[i].0))
}

/// The bits of the button set that `value` maps to through `table`: the union,
/// over the entries whose native bit is set in `value`, of their buttons.
pub open spec fn remapped(value: u32, table: Seq<(u32, ButtonFlag)>) -> u32
    decreases table.len(),
{
    if table.len() == 0 {
        0
    } else {
        let e = table.last();
        remapped(value, table.drop_last()) | if has_bits(value, native_mask(e.0)) {
            flag_mask(e.1)
        } else {
            0
        }
    }
}

/// Maps native button bits through a table of (native bit position, button)
/// pairs: a button is in the result exactly when some native bit that leads to
/// it is set in `value`.
pub fn remap(value: u32, table: &Vec<(u32, ButtonFlag)>) -> (r: Button)
    requires
        positions_in_range(table@),
    ensures
        r@ == remapped(value, table@),
        forall|f: ButtonFlag| #[trigger] r.has(f) == maps_to(value, table@, f),
        r@ & !all_bits() == 0,
{
    let mut r = Button::empty();
    let mut k: usize = 0;
    proof {
        assert(0u32 & !0x7FFF_FFFFu32 == 0) by (bit_vector);
        assert forall|f: ButtonFlag| #[trigger] r.has(f) == maps_to(value, table@.take(0), f) by {
            assert(0u32 & flag_mask(f) == 0) by (bit_vector);
        }
        assert(table@.take(0).len() == 0);
    }
    while k < table.len()
        invariant
            k <= table@.len(),
            positions_in_range(table@),
            r@ == remapped(value, table@.take(k as int)),
            forall|f: ButtonFlag| #[trigger] r.has(f) == maps_to(value, table@.take(k as int), f),
            r@ & !all_bits() == 0,
        decreases table@.len() - k,
    {
        let (pos, flag) = table[k];
        assert(table@[k as int].0 < 32);
        let mask = 1u32 << pos;
        let ghost before = r;
        if value & mask == mask {
            r = r.with(flag);
        }
        proof {
            let t1 = table@.take((k + 1) as int);
            let t0 = table@.take(k as int);
            assert(t1.drop_last() =~= t0);
            assert(t1.last() == (pos, flag));
            let x = before@;
            assert(x | 0u32 == x) by (bit_vector);
            assert forall|f: ButtonFlag| #[trigger] r.has(f) == maps_to(value, t1, f) by {
                if maps_to(value, t1, f) {
                    let i = choose|i: int|
                        #![trigger t1[i]]
                        0 <= i < t1.len() && t1[i].1 == f && has_bits(value, native_mask(t1[i].0));
                    if i < k {
                        assert(t0[i] == t1[i]);
                    }
                }
                if maps_to(value, t0, f) {
                    let i = choose|i: int|
                        #![trigger t0[i]]
                        0 <= i < t0.len() && t0[i].1 == f && has_bits(value, native_mask(t0[i].0));
                    assert(t1[i] == t0[i]);
                }
                if has_bits(value, mask) && flag == f {
                    assert(t1[k as int] == (pos, flag));
                }
            }
        }
        k = k + 1;
    }
    proof {
        assert(table@.take(table@.len() as int) =~= table@);
    }
    r
}

proof fn lemma_flag_index_injective(f: ButtonFlag, g: ButtonFlag)
    ensures
        flag_index(f) == flag_index(g) ==> f == g,
{
    assert(flag_at(flag_index(f)) == f);
    assert(flag_at(flag_index(g)) == g);
}

/// Mapping through a table of bit positions distributes over `|`: the buttons
/// of the native bits `a | b` are the buttons of `a` together with those of `b`.
pub proof fn lemma_remapped_union(a: u32, b: u32, table: Seq<(u32, ButtonFlag)>)
    requires
        positions_in_range(table),
    ensures
        remapped(a | b, table) == remapped(a, table) | remapped(b, table),
    decreases table.len(),
{
    if table.len() > 0 {
        let rest = table.drop_last();
        assert(positions_in_range(rest)) by {
            assert forall|i: int| 0 <= i < rest.len() implies #[trigger] rest[i].0 < 32 by {
                assert(rest[i] == table[i]);
            }
        }
        lemma_remapped_union(a, b, rest);
        let e = table.last();
        let k = e.0;
        let m = flag_mask(e.1);
        assert(table[table.len() - 1].0 < 32);
        let (x, y) = (remapped(a, rest), remapped(b, rest));
        let sa: u32 = if has_bits(a, native_mask(k)) { m } else { 0 };
        let sb: u32 = if has_bits(b, native_mask(k)) { m } else { 0 };
        let sab: u32 = if has_bits(a | b, native_mask(k)) { m } else { 0 };
        assert(((a | b) & (1u32 << k) == (1u32 << k)) == ((a & (1u32 << k) == (1u32 << k)) || (b
            & (1u32 << k) == (1u32 << k)))) by (bit_vector)
            requires
                k < 32,
        ;
        assert(m | m == m && m | 0u32 == m && 0u32 | m == m && 0u32 | 0u32 == 0u32) by (bit_vector);
        assert(sab == sa | sb);
        assert((x | y) | (sa | sb) == (x | sa) | (y | sb)) by (bit_vector);
    } else {
        assert(0u32 | 0u32 == 0u32) by (bit_vector);
    }
}

/// No native bits map to no buttons.
pub proof fn lemma_remapped_nothing(table: Seq<(u32, ButtonFlag)>)
    requires
        positions_in_range(table),
    ensures
        remapped(0, table) == 0,
    decreases table.len(),
{
    if table.len() > 0 {
        let rest = table.drop_last();
        assert(positions_in_range(rest)) by {
            assert forall|i: int| 0 <= i < rest.len() implies #[trigger] rest[i].0 < 32 by {
                assert(rest[i] == table[i]);
            }
        }
        lemma_remapped_nothing(rest);
        let k = table.last().0;
        assert(table[table.len() - 1].0 < 32);
        assert(0u32 & (1u32 << k) != (1u32 << k) && 0u32 | 0u32 == 0u32) by (bit_vector)
            requires
                k < 32,
        ;
    }
}

/// A button that no entry of the table leads to is never in the mapped set.
pub proof fn lemma_remapped_avoids(value: u32, table: Seq<(u32, ButtonFlag)>, g: ButtonFlag)
    requires
        forall|i: int| 0 <= i < table.len() ==> #[trigger] table[i].1 != g,
    ensures
        remapped(value, table) & flag_mask(g) == 0,
    decreases table.len(),
{
    if table.len() > 0 {
        let rest = table.drop_last();
        assert forall|i: int| 0 <= i < rest.len() implies #[trigger] rest[i].1 != g by {
            assert(rest[i] == table[i]);
        }
        lemma_remapped_avoids(value, rest, g);
        let e = table.last();
        assert(table[table.len() - 1].1 != g);
        lemma_flag_index_injective(e.1, g);
        let (i, j) = (flag_index(e.1), flag_index(g));
        let x = remapped(value, rest);
        assert(x & (1u32 << j) == 0 && i != j ==> (x | (1u32 << i)) & (1u32 << j) == 0 && (x
            | 0u32) & (1u32 << j) == 0) by (bit_vector)
            requires
                i < 31,
                j < 31,
        ;
    } else {
        let m = flag_mask(g);
        assert(0u32 & m == 0) by (bit_vector);
    }
}

/// Asking whether a set includes the single button `f` is asking whether the
/// set holds `f`.
pub proof fn lemma_includes_single(b: Button, f: ButtonFlag)
    ensures
        has_bits(b@, flag_mask(f)) == b.has(f),
{
    let x = b@;
    let i = flag_index(f);
    assert((x & (1u32 << i) == (1u32 << i)) == (x & (1u32 << i) != 0)) by (bit_vector)
        requires
            i < 31,
    ;
}

/// Two words that agree on each of their lowest `n` bits agree on the mask of
/// those bits.
proof fn lemma_low_bits_agree(x: u32, y: u32, n: u32)
    requires
        n <= 31,
        forall|i: u32| i < n ==> (#[trigger] (x & (1u32 << i)) != 0) == (y & (1u32 << i) != 0),
    ensures
        x & !(0xFFFF_FFFFu32 << n) == y & !(0xFFFF_FFFFu32 << n),
    decreases n,
{
    if n == 0 {
        assert(x & !(0xFFFF_FFFFu32 << 0u32) == 0 && y & !(0xFFFF_FFFFu32 << 0u32) == 0)
            by (bit_vector);
    } else {
        let m = (n - 1) as u32;
        lemma_low_bits_agree(x, y, m);
        assert((x & (1u32 << m)) != 0 <==> (y & (1u32 << m)) != 0);
        assert(x & !(0xFFFF_FFFFu32 << n) == y & !(0xFFFF_FFFFu32 << n)) by (bit_vector)
            requires
                m < 31,
                n == m + 1,
                x & !(0xFFFF_FFFFu32 << m) == y & !(0xFFFF_FFFFu32 << m),
                (x & (1u32 << m) != 0) == (y & (1u32 << m) != 0),
        ;
    }
}

/// A set is determined by the buttons it holds: two sets without stray bits
/// that hold the same buttons are the same set.
pub proof fn lemma_same_buttons_same_set(a: Button, b: Button)
    requires
        a@ & !all_bits() == 0,
        b@ & !all_bits() == 0,
        forall|f: ButtonFlag| #[trigger] a.has(f) == b.has(f),
    ensures
        a@ == b@,
{
    let (x, y) = (a@, b@);
    assert forall|i: u32| i < 31 implies (#[trigger] (x & (1u32 << i)) != 0) == (y & (1u32 << i) != 0) by {
        assert(flag_index(flag_at(i)) == i);
        assert(a.has(flag_at(i)) == b.has(flag_at(i)));
    }
    lemma_low_bits_agree(x, y, 31);
    assert(x == y) by (bit_vector)
        requires
            x & !0x7FFF_FFFFu32 == 0,
            y & !0x7FFF_FFFFu32 == 0,
            x & !(0xFFFF_FFFFu32 << 31u32) == y & !(0xFFFF_FFFFu32 << 31u32),
    ;
}

/// The button at bit position `i`.
pub open spec fn flag_at(i: u32) -> ButtonFlag {
    if i == 0 { ButtonFlag::A }
    else if i == 1 { ButtonFlag::B }
    else if i == 2 { ButtonFlag::X }
    else if i == 3 { ButtonFlag::Y }
    else if i == 4 { ButtonFlag::Left }
    else if i == 5 { ButtonFlag::Right }
    else if i == 6 { ButtonFlag::Up }
    else if i == 7 { ButtonFlag::Down }
    else if i == 8 { ButtonFlag::L }
    else if i == 9 { ButtonFlag::R }
    else if i == 10 { ButtonFlag::ZL }
    else if i == 11 { ButtonFlag::ZR }
    else if i == 12 { ButtonFlag::Plus }
    else if i == 13 { ButtonFlag::Minus }
    else if i == 14 { ButtonFlag::Home }
    else if i == 15 { ButtonFlag::Sync }
    else if i == 16 { ButtonFlag::R3 }
    else if i == 17 { ButtonFlag::L3 }
    else if i == 18 { ButtonFlag::RStickLeft }
    else if i == 19 { ButtonFlag::RStickRight }
    else if i == 20 { ButtonFlag::RStickUp }
    else if i == 21 { ButtonFlag::RStickDown }
    else if i == 22 { ButtonFlag::LStickLeft }
    else if i == 23 { ButtonFlag::LStickRight }
    else if i == 24 { ButtonFlag::LStickUp }
    else if i == 25 { ButtonFlag::LStickDown }
    else if i == 26 { ButtonFlag::One }
    else if i == 27 { ButtonFlag::Two }
    else if i == 28 { ButtonFlag::Z }
    else if i == 29 { ButtonFlag::C }
    else { ButtonFlag::TV }
}

proof fn lemma_or_mask(a: u32, b: u32, m: u32)
    ensures
        ((a | b) & m != 0) == (a & m != 0 || b & m != 0),
{
    assert(((a | b) & m != 0) == (a & m != 0 || b & m != 0)) by (bit_vector);
}

proof fn lemma_or_single_bit(x: u32, i: u32, j: u32)
    requires
        i < 31,
        j < 31,
    ensures
        ((x | (1u32 << i)) & (1u32 << j) != 0) == (x & (1u32 << j) != 0 || i == j),
{
    assert(((x | (1u32 << i)) & (1u32 << j) != 0) == (x & (1u32 << j) != 0 || i == j))
        by (bit_vector)
        requires
            i < 31,
            j < 31,
    ;
}

/// Native bit positions of the DRC (gamepad) buttons, each with the button it stands for.
pub open spec fn vpad_table() -> Seq<(u32, ButtonFlag)> {
    seq![
        (15u32, ButtonFlag::A),
        (14u32, ButtonFlag::B),
        (13u32, ButtonFlag::X),
        (12u32, ButtonFlag::Y),
        (11u32, ButtonFlag::Left),
        (10u32, ButtonFlag::Right),
        (9u32, ButtonFlag::Up),
        (8u32, ButtonFlag::Down),
        (7u32, ButtonFlag::ZL),
        (6u32, ButtonFlag::ZR),
        (5u32, ButtonFlag::L),
        (4u32, ButtonFlag::R),
        (3u32, ButtonFlag::Plus),
        (2u32, ButtonFlag::Minus),
        (1u32, ButtonFlag::Home),
        (0u32, ButtonFlag::Sync),
        (17u32, ButtonFlag::R3),
        (18u32, ButtonFlag::L3),
        (16u32, ButtonFlag::TV),
        (26u32, ButtonFlag::RStickLeft),
        (25u32, ButtonFlag::RStickRight),
        (24u32, ButtonFlag::RStickUp),
        (23u32, ButtonFlag::RStickDown),
        (30u32, ButtonFlag::LStickLeft),
        (29u32, ButtonFlag::LStickRight),
        (28u32, ButtonFlag::LStickUp),
        (27u32, ButtonFlag::LStickDown),
    ]
}

fn vpad_pairs() -> (t: Vec<(u32, ButtonFlag)>)
    ensures
        t@ == vpad_table(),
        positions_in_range(t@),
{
    let t = vec![
        (15u32, ButtonFlag::A),
        (14u32, ButtonFlag::B),
        (13u32, ButtonFlag::X),
        (12u32, ButtonFlag::Y),
        (11u32, ButtonFlag::Left),
        (10u32, ButtonFlag::Right),
        (9u32, ButtonFlag::Up),
        (8u32, ButtonFlag::Down),
        (7u32, ButtonFlag::ZL),
        (6u32, ButtonFlag::ZR),
        (5u32, ButtonFlag::L),
        (4u32, ButtonFlag::R),
        (3u32, ButtonFlag::Plus),
        (2u32, ButtonFlag::Minus),
        (1u32, ButtonFlag::Home),
        (0u32, ButtonFlag::Sync),
        (17u32, ButtonFlag::R3),
        (18u32, ButtonFlag::L3),
        (16u32, ButtonFlag::TV),
        (26u32, ButtonFlag::RStickLeft),
        (25u32, ButtonFlag::RStickRight),
        (24u32, ButtonFlag::RStickUp),
        (23u32, ButtonFlag::RStickDown),
        (30u32, ButtonFlag::LStickLeft),
        (29u32, ButtonFlag::LStickRight),
        (28u32, ButtonFlag::LStickUp),
        (27u32, ButtonFlag::LStickDown),
    ];
    proof {
        assert(t@ =~= vpad_table());
        assert forall|i: int| 0 <= i < t@.len() implies #[trigger] t@[i].0 < 32 by {}
    }
    t
}

/// Native bit positions of the Wiimote core buttons, each with the button it stands for.
pub open spec fn wpad_table() -> Seq<(u32, ButtonFlag)> {
    seq![
        (0u32, ButtonFlag::Left),
        (1u32, ButtonFlag::Right),
        (2u32, ButtonFlag::Down),
        (3u32, ButtonFlag::Up),
        (4u32, ButtonFlag::Plus),
        (8u32, ButtonFlag::Two),
        (9u32, ButtonFlag::One),
        (10u32, ButtonFlag::B),
        (11u32, ButtonFlag::A),
        (12u32, ButtonFlag::Minus),
        (13u32, ButtonFlag::Z),
        (14u32, ButtonFlag::C),
        (15u32, ButtonFlag::Home),
    ]
}

fn wpad_pairs() -> (t: Vec<(u32, ButtonFlag)>)
    ensures
        t@ == wpad_table(),
        positions_in_range(t@),
{
    let t = vec![
        (0u32, ButtonFlag::Left),
        (1u32, ButtonFlag::Right),
        (2u32, ButtonFlag::Down),
        (3u32, ButtonFlag::Up),
        (4u32, ButtonFlag::Plus),
        (8u32, ButtonFlag::Two),
        (9u32, ButtonFlag::One),
        (10u32, ButtonFlag::B),
        (11u32, ButtonFlag::A),
        (12u32, ButtonFlag::Minus),
        (13u32, ButtonFlag::Z),
        (14u32, ButtonFlag::C),
        (15u32, ButtonFlag::Home),
    ];
    proof {
        assert(t@ =~= wpad_table());
        assert forall|i: int| 0 <= i < t@.len() implies #[trigger] t@[i].0 < 32 by {}
    }
    t
}

/// Native bit positions of the Nunchuk buttons and stick directions, each with the button it stands for.
pub open spec fn nunchuk_table() -> Seq<(u32, ButtonFlag)> {
    seq![
        (0u32, ButtonFlag::LStickLeft),
        (1u32, ButtonFlag::LStickRight),
        (2u32, ButtonFlag::LStickDown),
        (3u32, ButtonFlag::LStickUp),
        (13u32, ButtonFlag::Z),
        (14u32, ButtonFlag::C),
    ]
}

fn nunchuk_pairs() -> (t: Vec<(u32, ButtonFlag)>)
    ensures
        t@ == nunchuk_table(),
        positions_in_range(t@),
{
    let t = vec![
        (0u32, ButtonFlag::LStickLeft),
        (1u32, ButtonFlag::LStickRight),
        (2u32, ButtonFlag::LStickDown),
        (3u32, ButtonFlag::LStickUp),
        (13u32, ButtonFlag::Z),
        (14u32, ButtonFlag::C),
    ];
    proof {
        assert(t@ =~= nunchuk_table());
        assert forall|i: int| 0 <= i < t@.len() implies #[trigger] t@[i].0 < 32 by {}
    }
    t
}

/// Native bit positions of the Classic Controller buttons and stick directions, each with the button it stands for.
pub open spec fn classic_table() -> Seq<(u32, ButtonFlag)> {
    seq![
        (0u32, ButtonFlag::Up),
        (1u32, ButtonFlag::Left),
        (2u32, ButtonFlag::ZR),
        (3u32, ButtonFlag::X),
        (4u32, ButtonFlag::A),
        (5u32, ButtonFlag::Y),
        (6u32, ButtonFlag::B),
        (7u32, ButtonFlag::ZL),
        (9u32, ButtonFlag::R),
        (10u32, ButtonFlag::Plus),
        (11u32, ButtonFlag::Home),
        (12u32, ButtonFlag::Minus),
        (13u32, ButtonFlag::L),
        (14u32, ButtonFlag::Down),
        (15u32, ButtonFlag::Right),
        (16u32, ButtonFlag::LStickLeft),
        (17u32, ButtonFlag::LStickRight),
        (18u32, ButtonFlag::LStickDown),
        (19u32, ButtonFlag::LStickUp),
        (20u32, ButtonFlag::RStickLeft),
        (21u32, ButtonFlag::RStickRight),
        (22u32, ButtonFlag::RStickDown),
        (23u32, ButtonFlag::RStickUp),
    ]
}

fn classic_pairs() -> (t: Vec<(u32, ButtonFlag)>)
    ensures
        t@ == classic_table(),
        positions_in_range(t@),
{
    let t = vec![
        (0u32, ButtonFlag::Up),
        (1u32, ButtonFlag::Left),
        (2u32, ButtonFlag::ZR),
        (3u32, ButtonFlag::X),
        (4u32, ButtonFlag::A),
        (5u32, ButtonFlag::Y),
        (6u32, ButtonFlag::B),
        (7u32, ButtonFlag::ZL),
        (9u32, ButtonFlag::R),
        (10u32, ButtonFlag::Plus),
        (11u32, ButtonFlag::Home),
        (12u32, ButtonFlag::Minus),
        (13u32, ButtonFlag::L),
        (14u32, ButtonFlag::Down),
        (15u32, ButtonFlag::Right),
        (16u32, ButtonFlag::LStickLeft),
        (17u32, ButtonFlag::LStickRight),
        (18u32, ButtonFlag::LStickDown),
        (19u32, ButtonFlag::LStickUp),
        (20u32, ButtonFlag::RStickLeft),
        (21u32, ButtonFlag::RStickRight),
        (22u32, ButtonFlag::RStickDown),
        (23u32, ButtonFlag::RStickUp),
    ];
    proof {
        assert(t@ =~= classic_table());
        assert forall|i: int| 0 <= i < t@.len() implies #[trigger] t@[i].0 < 32 by {}
    }
    t
}

/// Native bit positions of the Wii U Pro Controller buttons and stick directions, each with the button it stands for.
pub open spec fn urcc_table() -> Seq<(u32, ButtonFlag)> {
    seq![
        (0u32, ButtonFlag::Up),
        (1u32, ButtonFlag::Left),
        (2u32, ButtonFlag::ZR),
        (3u32, ButtonFlag::X),
        (4u32, ButtonFlag::A),
        (5u32, ButtonFlag::Y),
        (6u32, ButtonFlag::B),
        (7u32, ButtonFlag::ZL),
        (9u32, ButtonFlag::R),
        (10u32, ButtonFlag::Plus),
        (11u32, ButtonFlag::Home),
        (12u32, ButtonFlag::Minus),
        (13u32, ButtonFlag::L),
        (14u32, ButtonFlag::Down),
        (15u32, ButtonFlag::Right),
        (16u32, ButtonFlag::R3),
        (17u32, ButtonFlag::L3),
        (21u32, ButtonFlag::LStickUp),
        (20u32, ButtonFlag::LStickDown),
        (18u32, ButtonFlag::LStickLeft),
        (19u32, ButtonFlag::LStickRight),
        (25u32, ButtonFlag::RStickUp),
        (24u32, ButtonFlag::RStickDown),
        (22u32, ButtonFlag::RStickLeft),
        (23u32, ButtonFlag::RStickRight),
    ]
}

fn urcc_pairs() -> (t: Vec<(u32, ButtonFlag)>)
    ensures
        t@ == urcc_table(),
        positions_in_range(t@),
{
    let t = vec![
        (0u32, ButtonFlag::Up),
        (1u32, ButtonFlag::Left),
        (2u32, ButtonFlag::ZR),
        (3u32, ButtonFlag::X),
        (4u32, ButtonFlag::A),
        (5u32, ButtonFlag::Y),
        (6u32, ButtonFlag::B),
        (7u32, ButtonFlag::ZL),
        (9u32, ButtonFlag::R),
        (10u32, ButtonFlag::Plus),
        (11u32, ButtonFlag::Home),
        (12u32, ButtonFlag::Minus),
        (13u32, ButtonFlag::L),
        (14u32, ButtonFlag::Down),
        (15u32, ButtonFlag::Right),
        (16u32, ButtonFlag::R3),
        (17u32, ButtonFlag::L3),
        (21u32, ButtonFlag::LStickUp),
        (20u32, ButtonFlag::LStickDown),
        (18u32, ButtonFlag::LStickLeft),
        (19u32, ButtonFlag::LStickRight),
        (25u32, ButtonFlag::RStickUp),
        (24u32, ButtonFlag::RStickDown),
        (22u32, ButtonFlag::RStickLeft),
        (23u32, ButtonFlag::RStickRight),
    ];
    proof {
        assert(t@ =~= urcc_table());
        assert forall|i: int| 0 <= i < t@.len() implies #[trigger] t@[i].0 < 32 by {}
    }
    t
}

impl Button {
    /// The buttons held in the native bits of the DRC (gamepad) buttons.
    pub fn from_vpad(bits: u32) -> (r: Self)
        ensures
            r@ == remapped(bits, vpad_table()),
            forall|f: ButtonFlag| #[trigger] r.has(f) == maps_to(bits, vpad_table(), f),
            r@ & !all_bits() == 0,
    {
        remap(bits, &vpad_pairs())
    }

    /// The buttons held in the native bits of the Wiimote core buttons.
    pub fn from_wpad(bits: u32) -> (r: Self)
        ensures
            r@ == remapped(bits, wpad_table()),
            forall|f: ButtonFlag| #[trigger] r.has(f) == maps_to(bits, wpad_table(), f),
            r@ & !all_bits() == 0,
    {
        remap(bits, &wpad_pairs())
    }

    /// The buttons held in the native bits of the Nunchuk buttons and stick directions.
    pub fn from_nunchuk(bits: u32) -> (r: Self)
        ensures
            r@ == remapped(bits, nunchuk_table()),
            forall|f: ButtonFlag| #[trigger] r.has(f) == maps_to(bits, nunchuk_table(), f),
            r@ & !all_bits() == 0,
    {
        remap(bits, &nunchuk_pairs())
    }

    /// The buttons held in the native bits of the Classic Controller buttons and stick directions.
    pub fn from_classic(bits: u32) -> (r: Self)
        ensures
            r@ == remapped(bits, classic_table()),
            forall|f: ButtonFlag| #[trigger] r.has(f) == maps_to(bits, classic_table(), f),
            r@ & !all_bits() == 0,
    {
        remap(bits, &classic_pairs())
    }

    /// The buttons held in the native bits of the Wii U Pro Controller buttons and stick directions.
    pub fn from_urcc(bits: u32) -> (r: Self)
        ensures
            r@ == remapped(bits, urcc_table()),
            forall|f: ButtonFlag| #[trigger] r.has(f) == maps_to(bits, urcc_table(), f),
            r@ & !all_bits() == 0,
    {
        remap(bits, &urcc_pairs())
    }
}

/// Mapping DRC (gamepad) bits respects the set operations: the buttons of
/// `a | b` are the buttons of `a` together with those of `b`, no native bits give
/// no buttons, and the DRC never gives a button that only Wii Remote
/// controllers have (One, Two, Z, C).
pub proof fn lemma_vpad_mapping(a: u32, b: u32)
    ensures
        remapped(a | b, vpad_table()) == remapped(a, vpad_table()) | remapped(b, vpad_table()),
        remapped(0, vpad_table()) == 0,
        remapped(a, vpad_table()) & (flag_mask(ButtonFlag::One) | flag_mask(ButtonFlag::Two)
            | flag_mask(ButtonFlag::Z) | flag_mask(ButtonFlag::C)) == 0,
{
    let t = vpad_table();
    assert(positions_in_range(t)) by {
        assert forall|i: int| 0 <= i < t.len() implies #[trigger] t[i].0 < 32 by {}
    }
    lemma_remapped_union(a, b, t);
    lemma_remapped_nothing(t);
    assert forall|i: int| 0 <= i < t.len() implies #[trigger] t[i].1 != ButtonFlag::One && t[i].1
        != ButtonFlag::Two && t[i].1 != ButtonFlag::Z && t[i].1 != ButtonFlag::C by {}
    lemma_remapped_avoids(a, t, ButtonFlag::One);
    lemma_remapped_avoids(a, t, ButtonFlag::Two);
    lemma_remapped_avoids(a, t, ButtonFlag::Z);
    lemma_remapped_avoids(a, t, ButtonFlag::C);
    let x = remapped(a, t);
    let (p, q, u, v) = (
        flag_mask(ButtonFlag::One),
        flag_mask(ButtonFlag::Two),
        flag_mask(ButtonFlag::Z),
        flag_mask(ButtonFlag::C),
    );
    assert(x & (p | q | u | v) == 0) by (bit_vector)
        requires
            x & p == 0,
            x & q == 0,
            x & u == 0,
            x & v == 0,
    ;
}

/// The system's (VPAD) bit for each DRC button: the bit of the button of the
/// same name. Buttons that the DRC does not have get no bit.
pub open spec fn vpad_button_bit(f: ButtonFlag) -> u32 {
    match f {
        ButtonFlag::A => 0x8000u32,
        ButtonFlag::B => 0x4000u32,
        ButtonFlag::X => 0x2000u32,
        ButtonFlag::Y => 0x1000u32,
        ButtonFlag::Left => 0x0800u32,
        ButtonFlag::Right => 0x0400u32,
        ButtonFlag::Up => 0x0200u32,
        ButtonFlag::Down => 0x0100u32,
        ButtonFlag::ZL => 0x0080u32,
        ButtonFlag::ZR => 0x0040u32,
        ButtonFlag::L => 0x0020u32,
        ButtonFlag::R => 0x0010u32,
        ButtonFlag::Plus => 0x0008u32,
        ButtonFlag::Minus => 0x0004u32,
        ButtonFlag::Home => 0x0002u32,
        ButtonFlag::Sync => 0x0001u32,
        ButtonFlag::R3 => 0x0002_0000u32,
        ButtonFlag::L3 => 0x0004_0000u32,
        ButtonFlag::TV => 0x0001_0000u32,
        ButtonFlag::RStickLeft => 0x0400_0000u32,
        ButtonFlag::RStickRight => 0x0200_0000u32,
        ButtonFlag::RStickUp => 0x0100_0000u32,
        ButtonFlag::RStickDown => 0x0080_0000u32,
        ButtonFlag::LStickLeft => 0x4000_0000u32,
        ButtonFlag::LStickRight => 0x2000_0000u32,
        ButtonFlag::LStickUp => 0x1000_0000u32,
        ButtonFlag::LStickDown => 0x0800_0000u32,
        ButtonFlag::One | ButtonFlag::Two | ButtonFlag::Z | ButtonFlag::C => 0,
    }
}

proof fn lemma_bit_masks()
    by (bit_vector)
    ensures
        1u32 << 0u32 == 0x0001u32,
        1u32 << 1u32 == 0x0002u32,
        1u32 << 2u32 == 0x0004u32,
        1u32 << 3u32 == 0x0008u32,
        1u32 << 4u32 == 0x0010u32,
        1u32 << 5u32 == 0x0020u32,
        1u32 << 6u32 == 0x0040u32,
        1u32 << 7u32 == 0x0080u32,
        1u32 << 8u32 == 0x0100u32,
        1u32 << 9u32 == 0x0200u32,
        1u32 << 10u32 == 0x0400u32,
        1u32 << 11u32 == 0x0800u32,
        1u32 << 12u32 == 0x1000u32,
        1u32 << 13u32 == 0x2000u32,
        1u32 << 14u32 == 0x4000u32,
        1u32 << 15u32 == 0x8000u32,
        1u32 << 16u32 == 0x0001_0000u32,
        1u32 << 17u32 == 0x0002_0000u32,
        1u32 << 18u32 == 0x0004_0000u32,
        1u32 << 19u32 == 0x0008_0000u32,
        1u32 << 20u32 == 0x0010_0000u32,
        1u32 << 21u32 == 0x0020_0000u32,
        1u32 << 22u32 == 0x0040_0000u32,
        1u32 << 23u32 == 0x0080_0000u32,
        1u32 << 24u32 == 0x0100_0000u32,
        1u32 << 25u32 == 0x0200_0000u32,
        1u32 << 26u32 == 0x0400_0000u32,
        1u32 << 27u32 == 0x0800_0000u32,
        1u32 << 28u32 == 0x1000_0000u32,
        1u32 << 29u32 == 0x2000_0000u32,
        1u32 << 30u32 == 0x4000_0000u32,
{
}

proof fn lemma_single_bit(v: u32, p: u32)
    requires
        p < 32,
    ensures
        has_bits(v, native_mask(p)) == (v & native_mask(p) != 0),
{
    assert(((v & (1u32 << p)) == (1u32 << p)) == ((v & (1u32 << p)) != 0)) by (bit_vector)
        requires
            p < 32,
    ;
}

/// A mapped set holds a button exactly when some entry leading to it has its
/// native bit set.
proof fn lemma_remapped_has(v: u32, t: Seq<(u32, ButtonFlag)>, f: ButtonFlag)
    requires
        positions_in_range(t),
    ensures
        (remapped(v, t) & flag_mask(f) != 0) == maps_to(v, t, f),
    decreases t.len(),
{
    if t.len() == 0 {
        let m = flag_mask(f);
        assert(0u32 & m == 0) by (bit_vector);
    } else {
        let rest = t.drop_last();
        assert(positions_in_range(rest)) by {
            assert forall|i: int| 0 <= i < rest.len() implies #[trigger] rest[i].0 < 32 by {
                assert(rest[i] == t[i]);
            }
        }
        lemma_remapped_has(v, rest, f);
        let e = t.last();
        let x = remapped(v, rest);
        let sel: u32 = if has_bits(v, native_mask(e.0)) { flag_mask(e.1) } else { 0 };
        assert(remapped(v, t) == x | sel);
        lemma_or_mask(x, sel, flag_mask(f));
        lemma_flag_index_injective(e.1, f);
        let (i, j) = (flag_index(e.1), flag_index(f));
        assert(((1u32 << i) & (1u32 << j) != 0) == (i == j) && 0u32 & (1u32 << j) == 0)
            by (bit_vector)
            requires
                i < 31,
                j < 31,
        ;
        if maps_to(v, t, f) {
            let k = choose|k: int|
                #![trigger t[k]]
                0 <= k < t.len() && t[k].1 == f && has_bits(v, native_mask(t[k].0));
            if k < rest.len() {
                assert(rest[k] == t[k]);
            }
        }
        if maps_to(v, rest, f) {
            let k = choose|k: int|
                #![trigger rest[k]]
                0 <= k < rest.len() && rest[k].1 == f && has_bits(v, native_mask(rest[k].0));
            assert(t[k] == rest[k]);
        }
        if e.1 == f && has_bits(v, native_mask(e.0)) {
            assert(t[t.len() - 1] == e);
        }
    }
}

/// A table whose entries each carry the named bit of their button maps `v` to
/// the set of buttons whose named bit is set in `v`, provided every button with
/// a named bit has an entry (the one at `k` for `f`).
proof fn lemma_named_bits(
    v: u32,
    t: Seq<(u32, ButtonFlag)>,
    f: ButtonFlag,
    named: spec_fn(ButtonFlag) -> u32,
    k: int,
)
    requires
        forall|i: int| 0 <= i < t.len() ==> #[trigger] t[i].0 < 32,
        forall|i: int| 0 <= i < t.len() ==> #[trigger] native_mask(t[i].0) == named(t[i].1),
        named(f) != 0 ==> 0 <= k < t.len() && t[k].1 == f,
    ensures
        (remapped(v, t) & flag_mask(f) != 0) == (v & named(f) != 0),
{
    assert(positions_in_range(t));
    lemma_remapped_has(v, t, f);
    assert(v & 0u32 == 0u32) by (bit_vector);
    if maps_to(v, t, f) {
        let j = choose|j: int|
            #![trigger t[j]]
            0 <= j < t.len() && t[j].1 == f && has_bits(v, native_mask(t[j].0));
        lemma_single_bit(v, t[j].0);
    }
    if v & named(f) != 0 {
        assert(named(f) != 0);
        lemma_single_bit(v, t[k].0);
    }
}

/// The DRC (gamepad) mapping follows the system's named bits: for any native bits
/// `v`, the mapped set holds a button exactly when the VPAD bit of the button of
/// the same name is set in `v` (so `0x0200` gives Up alone and `0x0100` Down
/// alone), and never holds a button the controller does not have.
pub proof fn lemma_vpad_named_bits(v: u32, f: ButtonFlag)
    ensures
        (remapped(v, vpad_table()) & flag_mask(f) != 0) == (v & vpad_button_bit(f) != 0),
{
    let t = vpad_table();
    lemma_bit_masks();
    assert forall|i: int| 0 <= i < t.len() implies #[trigger] t[i].0 < 32 by {}
    assert forall|i: int| 0 <= i < t.len() implies #[trigger] native_mask(t[i].0)
        == vpad_button_bit(t[i].1) by {}
    let k: int = match f {
        ButtonFlag::A => 0,
        ButtonFlag::B => 1,
        ButtonFlag::X => 2,
        ButtonFlag::Y => 3,
        ButtonFlag::Left => 4,
        ButtonFlag::Right => 5,
        ButtonFlag::Up => 6,
        ButtonFlag::Down => 7,
        ButtonFlag::ZL => 8,
        ButtonFlag::ZR => 9,
        ButtonFlag::L => 10,
        ButtonFlag::R => 11,
        ButtonFlag::Plus => 12,
        ButtonFlag::Minus => 13,
        ButtonFlag::Home => 14,
        ButtonFlag::Sync => 15,
        ButtonFlag::R3 => 16,
        ButtonFlag::L3 => 17,
        ButtonFlag::TV => 18,
        ButtonFlag::RStickLeft => 19,
        ButtonFlag::RStickRight => 20,
        ButtonFlag::RStickUp => 21,
        ButtonFlag::RStickDown => 22,
        ButtonFlag::LStickLeft => 23,
        ButtonFlag::LStickRight => 24,
        ButtonFlag::LStickUp => 25,
        ButtonFlag::LStickDown => 26,
        _ => 0,
    };
    lemma_named_bits(v, t, f, |g: ButtonFlag| vpad_button_bit(g), k);
}

/// The system's (WPAD) bit for each Wii Remote core button: the bit of the button of
/// the same name. Buttons that the controller does not have get no bit.
pub open spec fn wpad_button_bit(f: ButtonFlag) -> u32 {
    match f {
        ButtonFlag::Left => 0x0001u32,
        ButtonFlag::Right => 0x0002u32,
        ButtonFlag::Down => 0x0004u32,
        ButtonFlag::Up => 0x0008u32,
        ButtonFlag::Plus => 0x0010u32,
        ButtonFlag::Two => 0x0100u32,
        ButtonFlag::One => 0x0200u32,
        ButtonFlag::B => 0x0400u32,
        ButtonFlag::A => 0x0800u32,
        ButtonFlag::Minus => 0x1000u32,
        ButtonFlag::Z => 0x2000u32,
        ButtonFlag::C => 0x4000u32,
        ButtonFlag::Home => 0x8000u32,
        ButtonFlag::X | ButtonFlag::Y | ButtonFlag::L | ButtonFlag::R | ButtonFlag::ZL |
        ButtonFlag::ZR | ButtonFlag::Sync | ButtonFlag::R3 | ButtonFlag::L3 |
        ButtonFlag::RStickLeft | ButtonFlag::RStickRight | ButtonFlag::RStickUp |
        ButtonFlag::RStickDown | ButtonFlag::LStickLeft | ButtonFlag::LStickRight |
        ButtonFlag::LStickUp | ButtonFlag::LStickDown | ButtonFlag::TV => 0,
    }
}

/// The Wii Remote core mapping follows the system's named bits: for any native bits
/// `v`, the mapped set holds a button exactly when the WPAD bit of the button of
/// the same name is set in `v`, and never holds a button the controller does
/// not have.
pub proof fn lemma_wpad_named_bits(v: u32, f: ButtonFlag)
    ensures
        (remapped(v, wpad_table()) & flag_mask(f) != 0) == (v & wpad_button_bit(f) != 0),
{
    let t = wpad_table();
    lemma_bit_masks();
    assert forall|i: int| 0 <= i < t.len() implies #[trigger] t[i].0 < 32 by {}
    assert forall|i: int| 0 <= i < t.len() implies #[trigger] native_mask(t[i].0)
        == wpad_button_bit(t[i].1) by {}
    let k: int = match f {
        ButtonFlag::Left => 0,
        ButtonFlag::Right => 1,
        ButtonFlag::Down => 2,
        ButtonFlag::Up => 3,
        ButtonFlag::Plus => 4,
        ButtonFlag::Two => 5,
        ButtonFlag::One => 6,
        ButtonFlag::B => 7,
        ButtonFlag::A => 8,
        ButtonFlag::Minus => 9,
        ButtonFlag::Z => 10,
        ButtonFlag::C => 11,
        ButtonFlag::Home => 12,
        _ => 0,
    };
    lemma_named_bits(v, t, f, |g: ButtonFlag| wpad_button_bit(g), k);
}

/// The system's (WPAD Nunchuk) bit for each Nunchuk button: the bit of the button of
/// the same name. Buttons that the controller does not have get no bit.
pub open spec fn nunchuk_button_bit(f: ButtonFlag) -> u32 {
    match f {
        ButtonFlag::LStickLeft => 0x0001u32,
        ButtonFlag::LStickRight => 0x0002u32,
        ButtonFlag::LStickDown => 0x0004u32,
        ButtonFlag::LStickUp => 0x0008u32,
        ButtonFlag::Z => 0x2000u32,
        ButtonFlag::C => 0x4000u32,
        ButtonFlag::A | ButtonFlag::B | ButtonFlag::X | ButtonFlag::Y | ButtonFlag::Left |
        ButtonFlag::Right | ButtonFlag::Up | ButtonFlag::Down | ButtonFlag::L | ButtonFlag::R |
        ButtonFlag::ZL | ButtonFlag::ZR | ButtonFlag::Plus | ButtonFlag::Minus | ButtonFlag::Home |
        ButtonFlag::Sync | ButtonFlag::R3 | ButtonFlag::L3 | ButtonFlag::RStickLeft |
        ButtonFlag::RStickRight | ButtonFlag::RStickUp | ButtonFlag::RStickDown | ButtonFlag::One |
        ButtonFlag::Two | ButtonFlag::TV => 0,
    }
}

/// The Nunchuk mapping follows the system's named bits: for any native bits
/// `v`, the mapped set holds a button exactly when the WPAD Nunchuk bit of the button of
/// the same name is set in `v`, and never holds a button the controller does
/// not have.
pub proof fn lemma_nunchuk_named_bits(v: u32, f: ButtonFlag)
    ensures
        (remapped(v, nunchuk_table()) & flag_mask(f) != 0) == (v & nunchuk_button_bit(f) != 0),
{
    let t = nunchuk_table();
    lemma_bit_masks();
    assert forall|i: int| 0 <= i < t.len() implies #[trigger] t[i].0 < 32 by {}
    assert forall|i: int| 0 <= i < t.len() implies #[trigger] native_mask(t[i].0)
        == nunchuk_button_bit(t[i].1) by {}
    let k: int = match f {
        ButtonFlag::LStickLeft => 0,
        ButtonFlag::LStickRight => 1,
        ButtonFlag::LStickDown => 2,
        ButtonFlag::LStickUp => 3,
        ButtonFlag::Z => 4,
        ButtonFlag::C => 5,
        _ => 0,
    };
    lemma_named_bits(v, t, f, |g: ButtonFlag| nunchuk_button_bit(g), k);
}

/// The system's (WPAD Classic) bit for each Classic Controller button: the bit of the button of
/// the same name. Buttons that the controller does not have get no bit.
pub open spec fn classic_button_bit(f: ButtonFlag) -> u32 {
    match f {
        ButtonFlag::Up => 0x0001u32,
        ButtonFlag::Left => 0x0002u32,
        ButtonFlag::ZR => 0x0004u32,
        ButtonFlag::X => 0x0008u32,
        ButtonFlag::A => 0x0010u32,
        ButtonFlag::Y => 0x0020u32,
        ButtonFlag::B => 0x0040u32,
        ButtonFlag::ZL => 0x0080u32,
        ButtonFlag::R => 0x0200u32,
        ButtonFlag::Plus => 0x0400u32,
        ButtonFlag::Home => 0x0800u32,
        ButtonFlag::Minus => 0x1000u32,
        ButtonFlag::L => 0x2000u32,
        ButtonFlag::Down => 0x4000u32,
        ButtonFlag::Right => 0x8000u32,
        ButtonFlag::LStickLeft => 0x0001_0000u32,
        ButtonFlag::LStickRight => 0x0002_0000u32,
        ButtonFlag::LStickDown => 0x0004_0000u32,
        ButtonFlag::LStickUp => 0x0008_0000u32,
        ButtonFlag::RStickLeft => 0x0010_0000u32,
        ButtonFlag::RStickRight => 0x0020_0000u32,
        ButtonFlag::RStickDown => 0x0040_0000u32,
        ButtonFlag::RStickUp => 0x0080_0000u32,
        ButtonFlag::Sync | ButtonFlag::R3 | ButtonFlag::L3 | ButtonFlag::One | ButtonFlag::Two |
        ButtonFlag::Z | ButtonFlag::C | ButtonFlag::TV => 0,
    }
}

/// The Classic Controller mapping follows the system's named bits: for any native bits
/// `v`, the mapped set holds a button exactly when the WPAD Classic bit of the button of
/// the same name is set in `v`, and never holds a button the controller does
/// not have.
pub proof fn lemma_classic_named_bits(v: u32, f: ButtonFlag)
    ensures
        (remapped(v, classic_table()) & flag_mask(f) != 0) == (v & classic_button_bit(f) != 0),
{
    let t = classic_table();
    lemma_bit_masks();
    assert forall|i: int| 0 <= i < t.len() implies #[trigger] t[i].0 < 32 by {}
    assert forall|i: int| 0 <= i < t.len() implies #[trigger] native_mask(t[i].0)
        == classic_button_bit(t[i].1) by {}
    let k: int = match f {
        ButtonFlag::Up => 0,
        ButtonFlag::Left => 1,
        ButtonFlag::ZR => 2,
        ButtonFlag::X => 3,
        ButtonFlag::A => 4,
        ButtonFlag::Y => 5,
        ButtonFlag::B => 6,
        ButtonFlag::ZL => 7,
        ButtonFlag::R => 8,
        ButtonFlag::Plus => 9,
        ButtonFlag::Home => 10,
        ButtonFlag::Minus => 11,
        ButtonFlag::L => 12,
        ButtonFlag::Down => 13,
        ButtonFlag::Right => 14,
        ButtonFlag::LStickLeft => 15,
        ButtonFlag::LStickRight => 16,
        ButtonFlag::LStickDown => 17,
        ButtonFlag::LStickUp => 18,
        ButtonFlag::RStickLeft => 19,
        ButtonFlag::RStickRight => 20,
        ButtonFlag::RStickDown => 21,
        ButtonFlag::RStickUp => 22,
        _ => 0,
    };
    lemma_named_bits(v, t, f, |g: ButtonFlag| classic_button_bit(g), k);
}

/// The system's (WPAD Pro) bit for each Wii U Pro Controller button: the bit of the button of
/// the same name. Buttons that the controller does not have get no bit.
pub open spec fn urcc_button_bit(f: ButtonFlag) -> u32 {
    match f {
        ButtonFlag::Up => 0x0001u32,
        ButtonFlag::Left => 0x0002u32,
        ButtonFlag::ZR => 0x0004u32,
        ButtonFlag::X => 0x0008u32,
        ButtonFlag::A => 0x0010u32,
        ButtonFlag::Y => 0x0020u32,
        ButtonFlag::B => 0x0040u32,
        ButtonFlag::ZL => 0x0080u32,
        ButtonFlag::R => 0x0200u32,
        ButtonFlag::Plus => 0x0400u32,
        ButtonFlag::Home => 0x0800u32,
        ButtonFlag::Minus => 0x1000u32,
        ButtonFlag::L => 0x2000u32,
        ButtonFlag::Down => 0x4000u32,
        ButtonFlag::Right => 0x8000u32,
        ButtonFlag::R3 => 0x0001_0000u32,
        ButtonFlag::L3 => 0x0002_0000u32,
        ButtonFlag::LStickUp => 0x0020_0000u32,
        ButtonFlag::LStickDown => 0x0010_0000u32,
        ButtonFlag::LStickLeft => 0x0004_0000u32,
        ButtonFlag::LStickRight => 0x0008_0000u32,
        ButtonFlag::RStickUp => 0x0200_0000u32,
        ButtonFlag::RStickDown => 0x0100_0000u32,
        ButtonFlag::RStickLeft => 0x0040_0000u32,
        ButtonFlag::RStickRight => 0x0080_0000u32,
        ButtonFlag::Sync | ButtonFlag::One | ButtonFlag::Two | ButtonFlag::Z | ButtonFlag::C |
        ButtonFlag::TV => 0,
    }
}

/// The Wii U Pro Controller mapping follows the system's named bits: for any native bits
/// `v`, the mapped set holds a button exactly when the WPAD Pro bit of the button of
/// the same name is set in `v`, and never holds a button the controller does
/// not have.
pub proof fn lemma_urcc_named_bits(v: u32, f: ButtonFlag)
    ensures
        (remapped(v, urcc_table()) & flag_mask(f) != 0) == (v & urcc_button_bit(f) != 0),
{
    let t = urcc_table();
    lemma_bit_masks();
    assert forall|i: int| 0 <= i < t.len() implies #[trigger] t[i].0 < 32 by {}
    assert forall|i: int| 0 <= i < t.len() implies #[trigger] native_mask(t[i].0)
        == urcc_button_bit(t[i].1) by {}
    let k: int = match f {
        ButtonFlag::Up => 0,
        ButtonFlag::Left => 1,
        ButtonFlag::ZR => 2,
        ButtonFlag::X => 3,
        ButtonFlag::A => 4,
        ButtonFlag::Y => 5,
        ButtonFlag::B => 6,
        ButtonFlag::ZL => 7,
        ButtonFlag::R => 8,
        ButtonFlag::Plus => 9,
        ButtonFlag::Home => 10,
        ButtonFlag::Minus => 11,
        ButtonFlag::L => 12,
        ButtonFlag::Down => 13,
        ButtonFlag::Right => 14,
        ButtonFlag::R3 => 15,
        ButtonFlag::L3 => 16,
        ButtonFlag::LStickUp => 17,
        ButtonFlag::LStickDown => 18,
        ButtonFlag::LStickLeft => 19,
        ButtonFlag::LStickRight => 20,
        ButtonFlag::RStickUp => 21,
        ButtonFlag::RStickDown => 22,
        ButtonFlag::RStickLeft => 23,
        ButtonFlag::RStickRight => 24,
        _ => 0,
    };
    lemma_named_bits(v, t, f, |g: ButtonFlag| urcc_button_bit(g), k);
}

} // verus!
