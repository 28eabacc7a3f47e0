//! Process: title identifiers, and the answer given to the system's request to
//! release the foreground.

use vstd::prelude::*;
use crate::text::{
    all_digits, lemma_padded_read_back, numeral_value, padded, power, push_char, push_padded,
};

verus! {

/// Every application has an associated title ID.
///
/// Known title IDs are listed [here](https://wiiubrew.org/wiki/Title_database).
#[derive(Debug, Clone, Copy, PartialEq, Eq, PartialOrd, Ord, Hash, Structural)]
pub struct TitleID(pub u64);

/// The text of a title ID: its upper and lower 32 bits as eight upper-case
/// hexadecimal digits each, joined by `-`.
pub open spec fn title_text(id: u64) -> Seq<char> {
    padded((id >> 32u64) as nat, 16, 8) + seq!['-'] + padded((id & 0xFFFF_FFFFu64) as nat, 16, 8)
}

impl TitleID {
    /// Mii Maker (Japan).
    pub fn mii_maker_jpn() -> (r: Self)
        ensures
            r.0 == 0x00050010_1004A000u64,
    {
        TitleID(0x00050010_1004A000)
    }

    /// Mii Maker (USA).
    pub fn mii_maker_usa() -> (r: Self)
        ensures
            r.0 == 0x00050010_1004A100u64,
    {
        TitleID(0x00050010_1004A100)
    }

    /// Mii Maker (Europe).
    pub fn mii_maker_eur() -> (r: Self)
        ensures
            r.0 == 0x00050010_1004A200u64,
    {
        TitleID(0x00050010_1004A200)
    }

    pub fn from_u64(value: u64) -> (r: Self)
        ensures
            r.0 == value,
    {
        TitleID(value)
    }

    pub fn into_u64(self) -> (r: u64)
        ensures
            r == self.0,
    {
        self.0
    }

    /// Renders the ID as `XXXXXXXX-XXXXXXXX`.
    pub fn to_string(&self) -> (s: String)
        ensures
            s@ == title_text(self.0),
    {
        let mut s = String::new();
        push_padded(&mut s, self.0 >> 32, 16, 8);
        push_char(&mut s, '-');
        push_padded(&mut s, self.0 & 0xFFFF_FFFF, 16, 8);
        proof {
            assert(s@ =~= title_text(self.0));
        }
        s
    }
}

/// What the application's release callback returns to the system, and whether
/// the foreground must be declared ready for release: a callback that succeeded
/// answers `0` and releases, one that failed answers `1` and does not.
pub fn release_answer(callback_ok: bool) -> (r: (u32, bool))
    ensures
        callback_ok ==> r == (0u32, true),
        !callback_ok ==> r == (1u32, false),
{
    if callback_ok {
        (0, true)
    } else {
        (1, false)
    }
}

/// The text of a title ID reads back as the ID: two groups of eight
/// hexadecimal digits around a `-`, the first the upper 32 bits and the second
/// the lower 32 bits.
pub proof fn lemma_title_text_reads_back(id: u64)
    ensures
        title_text(id).len() == 17,
        title_text(id)[8] == '-',
        all_digits(title_text(id).subrange(0, 8), 16),
        all_digits(title_text(id).subrange(9, 17), 16),
        numeral_value(title_text(id).subrange(0, 8), 16) * 0x1_0000_0000 + numeral_value(
            title_text(id).subrange(9, 17),
            16,
        ) == id,
{
    let hi = id >> 32u64;
    let lo = id & 0xFFFF_FFFFu64;
    assert(hi < 0x1_0000_0000 && lo < 0x1_0000_0000 && hi * 0x1_0000_0000 + lo == id)
        by (bit_vector)
        requires
            hi == id >> 32u64,
            lo == id & 0xFFFF_FFFFu64,
    ;
    assert(power(16, 8) == 0x1_0000_0000) by {
        reveal_with_fuel(power, 9);
    }
    lemma_padded_read_back(hi as nat, 16, 8);
    lemma_padded_read_back(lo as nat, 16, 8);
    let t = title_text(id);
    assert(t.subrange(0, 8) =~= padded(hi as nat, 16, 8));
    assert(t.subrange(9, 17) =~= padded(lo as nat, 16, 8));
}

} // verus!
