//! The composite identifier: its groups, its text and its order.

use vstd::prelude::*;
use vstd::std_specs::cmp::PartialOrdSpec;
use vstd::string::StringExecFns;
use std::cmp::Ordering;
use crate::error::ModelError;
use crate::hex::{
    all_upper_hex, hex_numeral, hex_text, is_upper_hex_digit, lemma_hex_text_fits,
    lemma_hex_text_is_numeral, lemma_hex_text_reads_back, lemma_hex_value_writes_back, pow16,
    read_hex, write_hex,
};
use crate::text::{
    chars_of, is_free_of, lemma_split_on_one_more_piece, lemma_split_on_one_piece, piece_views,
    split, split_on,
};

verus! {

/// An identifier of five unsigned groups, 32, 16, 16, 16 and 64 bits wide.
///
/// Its canonical text is `XXXXXXXX-XXXX-XXXX-XXXX-XXXXXXXXXXXX`: the groups in
/// upper-case hexadecimal, padded with zeros to 8, 4, 4, 4 and 12 digits. Two
/// identifiers are equal when all five groups are. They are ordered by
/// [`Guid::composite`], which keeps only the low 48 bits of the last group:
/// among identifiers whose last groups fit 48 bits the order is total, while
/// two that differ above those bits only are different and compare as equal.
/// The type therefore has `PartialOrd` and a method `cmp`, and no `Ord`.
#[derive(Clone, Copy, Debug, PartialEq, Eq, Hash, Structural)]
pub struct Guid {
    pub group1: u32,
    pub group2: u16,
    pub group3: u16,
    pub group4: u16,
    pub group5: u64,
}

impl Guid {
    /// The canonical text of the identifier. A last group above 48 bits is
    /// written with all the digits that it needs.
    pub open spec fn text(self) -> Seq<char> {
        hex_text(self.group1 as nat, 8) + seq!['-'] + hex_text(self.group2 as nat, 4) + seq!['-']
            + hex_text(self.group3 as nat, 4) + seq!['-'] + hex_text(self.group4 as nat, 4)
            + seq!['-'] + hex_text(self.group5 as nat, 12)
    }

    /// The identifier that `text` denotes, if it denotes one: exactly five
    /// groups parted by hyphens, each at least one hexadecimal digit and
    /// nothing else, each a number that fits the width of its group. The
    /// number of digits is free.
    pub open spec fn parsed(text: Seq<char>) -> Option<Guid> {
        let groups = split_on(text, '-');
        if groups.len() != 5 {
            None
        } else {
            match (
                hex_numeral(groups[0], u32::MAX as nat),
                hex_numeral(groups[1], u16::MAX as nat),
                hex_numeral(groups[2], u16::MAX as nat),
                hex_numeral(groups[3], u16::MAX as nat),
                hex_numeral(groups[4], u64::MAX as nat),
            ) {
                (Some(g1), Some(g2), Some(g3), Some(g4), Some(g5)) => Some(
                    Guid {
                        group1: g1 as u32,
                        group2: g2 as u16,
                        group3: g3 as u16,
                        group4: g4 as u16,
                        group5: g5 as u64,
                    },
                ),
                _ => None,
            }
        }
    }

    /// The 128-bit number by which identifiers are ordered: the first group in
    /// bits 0 to 31, the second in bits 32 to 47, the third in bits 48 to 63,
    /// the fourth in bits 64 to 79 and the low 48 bits of the fifth in bits
    /// 80 to 127.
    pub open spec fn composite(self) -> nat {
        (self.group1 as nat) + (self.group2 as nat) * 0x1_0000_0000 + (self.group3 as nat)
            * 0x1_0000_0000_0000 + (self.group4 as nat) * 0x1_0000_0000_0000_0000 + (self.group5 as nat
            % 0x1_0000_0000_0000) * 0x1_0000_0000_0000_0000_0000
    }

    /// Whether `self` and `other` agree in all that the composite keeps: the
    /// first four groups and the low 48 bits of the fifth.
    pub open spec fn agrees_in_kept_bits(self, other: Guid) -> bool {
        &&& self.group1 == other.group1
        &&& self.group2 == other.group2
        &&& self.group3 == other.group3
        &&& self.group4 == other.group4
        &&& self.group5 % 0x1_0000_0000_0000 == other.group5 % 0x1_0000_0000_0000
    }

    /// Parses an identifier.
    pub fn from_str(s: &str) -> (r: Result<Guid, ModelError>)
        ensures
            match r {
                Ok(g) => Guid::parsed(s@) == Some(g),
                Err(e) => Guid::parsed(s@) is None && e == ModelError::MalformedIdentifier,
            },
    {
        let chars = chars_of(s);
        let groups = split(&chars, '-');
        if groups.len() != 5 {
            return Err(ModelError::MalformedIdentifier);
        }
        assert(forall|i: int|
            0 <= i < 5 ==> piece_views(groups@)[i] == (#[trigger] groups@[i])@);
        let g1 = read_hex(&groups[0], 0xFFFF_FFFF);
        let g2 = read_hex(&groups[1], 0xFFFF);
        let g3 = read_hex(&groups[2], 0xFFFF);
        let g4 = read_hex(&groups[3], 0xFFFF);
        let g5 = read_hex(&groups[4], 0xFFFF_FFFF_FFFF_FFFF);
        match (g1, g2, g3, g4, g5) {
            (Some(g1), Some(g2), Some(g3), Some(g4), Some(g5)) => Ok(
                Guid {
                    group1: g1 as u32,
                    group2: g2 as u16,
                    group3: g3 as u16,
                    group4: g4 as u16,
                    group5: g5,
                },
            ),
            _ => Err(ModelError::MalformedIdentifier),
        }
    }

    /// Writes the identifier in its canonical text.
    pub fn to_string(&self) -> (s: String)
        ensures
            s@ == self.text(),
    {
        proof {
            reveal_strlit("-");
        }
        let mut out = String::new();
        write_hex(&mut out, self.group1 as u64, 8);
        out.append("-");
        write_hex(&mut out, self.group2 as u64, 4);
        out.append("-");
        write_hex(&mut out, self.group3 as u64, 4);
        out.append("-");
        write_hex(&mut out, self.group4 as u64, 4);
        out.append("-");
        write_hex(&mut out, self.group5, 12);
        assert(out@ =~= self.text());
        out
    }

    /// Packs the identifier into the number by which it is ordered.
    pub fn packed(&self) -> (p: u128)
        ensures
            p == self.composite(),
    {
        let g1 = self.group1;
        let g2 = self.group2;
        let g3 = self.group3;
        let g4 = self.group4;
        let g5 = self.group5;
        let p = (g1 as u128) | ((g2 as u128) << 32) | ((g3 as u128) << 48) | ((g4 as u128) << 64)
            | ((g5 as u128) << 80);
        assert(p == (g1 as u128) + (g2 as u128) * 0x1_0000_0000 + (g3 as u128) * 0x1_0000_0000_0000
            + (g4 as u128) * 0x1_0000_0000_0000_0000 + ((g5 % 0x1_0000_0000_0000) as u128)
            * 0x1_0000_0000_0000_0000_0000) by (bit_vector)
            requires
                p == (g1 as u128) | ((g2 as u128) << 32) | ((g3 as u128) << 48) | ((g4 as u128)
                    << 64) | ((g5 as u128) << 80),
        ;
        p
    }
}

impl Guid {
    /// How `self` stands to `other` in the order of identifiers: as their
    /// composites stand as numbers.
    pub open spec fn order(self, other: Guid) -> Ordering {
        if self.composite() < other.composite() {
            Ordering::Less
        } else if self.composite() == other.composite() {
            Ordering::Equal
        } else {
            Ordering::Greater
        }
    }

    /// Compares two identifiers by their composites.
    pub fn cmp(&self, other: &Guid) -> (o: Ordering)
        ensures
            o == self.order(*other),
    {
        let a = self.packed();
        let b = other.packed();
        if a < b {
            Ordering::Less
        } else if a == b {
            Ordering::Equal
        } else {
            Ordering::Greater
        }
    }
}

impl PartialOrd for Guid {
    fn partial_cmp(&self, other: &Guid) -> (o: Option<Ordering>) {
        Some(self.cmp(other))
    }
}

impl vstd::std_specs::cmp::PartialOrdSpecImpl for Guid {
    open spec fn obeys_partial_cmp_spec() -> bool {
        true
    }

    open spec fn partial_cmp_spec(&self, other: &Guid) -> Option<Ordering> {
        Some(self.order(*other))
    }
}

/// The canonical text of an identifier denotes that identifier.
pub proof fn lemma_text_parses_back(guid: Guid)
    ensures
        Guid::parsed(guid.text()) == Some(guid),
{
    let h1 = hex_text(guid.group1 as nat, 8);
    let h2 = hex_text(guid.group2 as nat, 4);
    let h3 = hex_text(guid.group3 as nat, 4);
    let h4 = hex_text(guid.group4 as nat, 4);
    let h5 = hex_text(guid.group5 as nat, 12);
    let dash = seq!['-'];
    lemma_hex_text_is_numeral(guid.group1 as nat, 8);
    lemma_hex_text_is_numeral(guid.group2 as nat, 4);
    lemma_hex_text_is_numeral(guid.group3 as nat, 4);
    lemma_hex_text_is_numeral(guid.group4 as nat, 4);
    lemma_hex_text_is_numeral(guid.group5 as nat, 12);
    lemma_split_on_one_piece(h1, '-');
    lemma_split_on_one_more_piece(h1, h2, '-');
    lemma_split_on_one_more_piece(h1 + dash + h2, h3, '-');
    lemma_split_on_one_more_piece(h1 + dash + h2 + dash + h3, h4, '-');
    lemma_split_on_one_more_piece(h1 + dash + h2 + dash + h3 + dash + h4, h5, '-');
    assert(split_on(guid.text(), '-') == seq![h1, h2, h3, h4, h5]);
    lemma_hex_text_reads_back(guid.group1 as nat, 8, u32::MAX as nat);
    lemma_hex_text_reads_back(guid.group2 as nat, 4, u16::MAX as nat);
    lemma_hex_text_reads_back(guid.group3 as nat, 4, u16::MAX as nat);
    lemma_hex_text_reads_back(guid.group4 as nat, 4, u16::MAX as nat);
    lemma_hex_text_reads_back(guid.group5 as nat, 12, u64::MAX as nat);
}

/// Parsing is stable under writing and parsing again: whatever a text
/// denotes, the canonical text of that denotes the same. The canonical text
/// itself need not be the text that was parsed.
pub proof fn lemma_parse_is_stable(text: Seq<char>)
    requires
        Guid::parsed(text) is Some,
    ensures
        Guid::parsed(Guid::parsed(text).unwrap().text()) == Guid::parsed(text),
{
    lemma_text_parses_back(Guid::parsed(text).unwrap());
}

/// What is written of an identifier is what writing the identifier that it
/// denotes gives again, whether or not the last group fits 48 bits.
pub proof fn lemma_written_text_is_kept(guid: Guid)
    ensures
        Guid::parsed(guid.text()) is Some,
        Guid::parsed(guid.text()).unwrap().text() == guid.text(),
{
    lemma_text_parses_back(guid);
}

/// Whether `text` has the canonical form `XXXXXXXX-XXXX-XXXX-XXXX-XXXXXXXXXXXX`:
/// 36 characters, hyphens at the four places shown, upper-case hexadecimal
/// digits at all others.
pub open spec fn is_canonical(text: Seq<char>) -> bool {
    &&& text.len() == 36
    &&& forall|i: int|
        0 <= i < 36 ==> if i == 8 || i == 13 || i == 18 || i == 23 {
            #[trigger] text[i] == '-'
        } else {
            is_upper_hex_digit(text[i])
        }
}

/// An identifier whose last group fits 48 bits is written in canonical form.
pub proof fn lemma_text_is_canonical(guid: Guid)
    requires
        guid.group5 < 0x1_0000_0000_0000,
    ensures
        is_canonical(guid.text()),
{
    reveal_with_fuel(pow16, 13);
    lemma_hex_text_fits(guid.group1 as nat, 8);
    lemma_hex_text_fits(guid.group2 as nat, 4);
    lemma_hex_text_fits(guid.group3 as nat, 4);
    lemma_hex_text_fits(guid.group4 as nat, 4);
    lemma_hex_text_fits(guid.group5 as nat, 12);
    let h1 = hex_text(guid.group1 as nat, 8);
    let h2 = hex_text(guid.group2 as nat, 4);
    let h3 = hex_text(guid.group3 as nat, 4);
    let h4 = hex_text(guid.group4 as nat, 4);
    let h5 = hex_text(guid.group5 as nat, 12);
    let text = guid.text();
    assert forall|i: int| 0 <= i < 36 implies if i == 8 || i == 13 || i == 18 || i == 23 {
        #[trigger] text[i] == '-'
    } else {
        is_upper_hex_digit(text[i])
    } by {
        if i < 8 {
            assert(text[i] == h1[i]);
        } else if 9 <= i < 13 {
            assert(text[i] == h2[i - 9]);
        } else if 14 <= i < 18 {
            assert(text[i] == h3[i - 14]);
        } else if 19 <= i < 23 {
            assert(text[i] == h4[i - 19]);
        } else if 24 <= i {
            assert(text[i] == h5[i - 24]);
        }
    }
}

/// A text in canonical form denotes an identifier whose last group fits 48
/// bits, and is the canonical text of that identifier. So writing what was
/// parsed gives the text back exactly when the text was canonical or the
/// last group is wider than the form provides for.
pub proof fn lemma_canonical_text_is_kept_by_parsing(text: Seq<char>)
    requires
        is_canonical(text),
    ensures
        Guid::parsed(text) is Some,
        Guid::parsed(text).unwrap().group5 < 0x1_0000_0000_0000,
        Guid::parsed(text).unwrap().text() == text,
{
    reveal_with_fuel(pow16, 13);
    let d1 = text.subrange(0, 8);
    let d2 = text.subrange(9, 13);
    let d3 = text.subrange(14, 18);
    let d4 = text.subrange(19, 23);
    let d5 = text.subrange(24, 36);
    let dash = seq!['-'];
    assert(text == d1 + dash + d2 + dash + d3 + dash + d4 + dash + d5);
    assert(all_upper_hex(d1)) by {
        assert forall|i: int| 0 <= i < d1.len() implies is_upper_hex_digit(#[trigger] d1[i]) by {
            assert(d1[i] == text[i]);
        }
    }
    assert(all_upper_hex(d2)) by {
        assert forall|i: int| 0 <= i < d2.len() implies is_upper_hex_digit(#[trigger] d2[i]) by {
            assert(d2[i] == text[i + 9]);
        }
    }
    assert(all_upper_hex(d3)) by {
        assert forall|i: int| 0 <= i < d3.len() implies is_upper_hex_digit(#[trigger] d3[i]) by {
            assert(d3[i] == text[i + 14]);
        }
    }
    assert(all_upper_hex(d4)) by {
        assert forall|i: int| 0 <= i < d4.len() implies is_upper_hex_digit(#[trigger] d4[i]) by {
            assert(d4[i] == text[i + 19]);
        }
    }
    assert(all_upper_hex(d5)) by {
        assert forall|i: int| 0 <= i < d5.len() implies is_upper_hex_digit(#[trigger] d5[i]) by {
            assert(d5[i] == text[i + 24]);
        }
    }
    lemma_hex_value_writes_back(d1);
    lemma_hex_value_writes_back(d2);
    lemma_hex_value_writes_back(d3);
    lemma_hex_value_writes_back(d4);
    lemma_hex_value_writes_back(d5);
    assert(is_free_of(d1, '-') && is_free_of(d2, '-') && is_free_of(d3, '-') && is_free_of(d4, '-')
        && is_free_of(d5, '-')) by {
        assert forall|d: Seq<char>, i: int| all_upper_hex(d) && 0 <= i < d.len() implies #[trigger] d[i]
            != '-' by {
            assert(is_upper_hex_digit(d[i]));
        }
    }
    lemma_split_on_one_piece(d1, '-');
    lemma_split_on_one_more_piece(d1, d2, '-');
    lemma_split_on_one_more_piece(d1 + dash + d2, d3, '-');
    lemma_split_on_one_more_piece(d1 + dash + d2 + dash + d3, d4, '-');
    lemma_split_on_one_more_piece(d1 + dash + d2 + dash + d3 + dash + d4, d5, '-');
    assert(split_on(text, '-') == seq![d1, d2, d3, d4, d5]);
}

/// A number has one low digit and one rest in any base.
proof fn lemma_digit_and_rest(base: nat, low_a: nat, rest_a: nat, low_b: nat, rest_b: nat)
    by (nonlinear_arith)
    requires
        low_a < base,
        low_b < base,
        low_a + base * rest_a == low_b + base * rest_b,
    ensures
        low_a == low_b,
        rest_a == rest_b,
{
}

/// Two identifiers have the same composite exactly when they agree in all
/// that it keeps. Where both last groups fit 48 bits, that is when they are
/// the same.
pub proof fn lemma_composite_keeps_the_low_bits(a: Guid, b: Guid)
    ensures
        a.composite() == b.composite() <==> a.agrees_in_kept_bits(b),
        a.group5 < 0x1_0000_0000_0000 && b.group5 < 0x1_0000_0000_0000 ==> (a.agrees_in_kept_bits(
            b,
        ) <==> a == b),
{
    if a.composite() == b.composite() {
        let a5 = a.group5 as nat % 0x1_0000_0000_0000;
        let b5 = b.group5 as nat % 0x1_0000_0000_0000;
        let a4 = a.group4 as nat + 0x1_0000 * a5;
        let b4 = b.group4 as nat + 0x1_0000 * b5;
        let a3 = a.group3 as nat + 0x1_0000 * a4;
        let b3 = b.group3 as nat + 0x1_0000 * b4;
        let a2 = a.group2 as nat + 0x1_0000 * a3;
        let b2 = b.group2 as nat + 0x1_0000 * b3;
        assert(a.composite() == a.group1 as nat + 0x1_0000_0000 * a2);
        assert(b.composite() == b.group1 as nat + 0x1_0000_0000 * b2);
        lemma_digit_and_rest(0x1_0000_0000, a.group1 as nat, a2, b.group1 as nat, b2);
        lemma_digit_and_rest(0x1_0000, a.group2 as nat, a3, b.group2 as nat, b3);
        lemma_digit_and_rest(0x1_0000, a.group3 as nat, a4, b.group3 as nat, b4);
        lemma_digit_and_rest(0x1_0000, a.group4 as nat, a5, b.group4 as nat, b5);
    }
}

/// Of two identifiers exactly one holds: the first is less, they are equal,
/// or the first is greater; unless they are different and yet agree in all
/// that the composite keeps, in which case none holds. Two identifiers whose
/// last groups fit 48 bits are never such a pair. Which of the three holds
/// is decided by the composites as numbers, not by the texts.
pub proof fn lemma_order_is_total(a: Guid, b: Guid)
    requires
        a == b || !a.agrees_in_kept_bits(b),
    ensures
        a.partial_cmp_spec(&b) == Some(a.order(b)),
        a.order(b) == Ordering::Less <==> a.composite() < b.composite(),
        a.order(b) == Ordering::Equal <==> a == b,
        a.order(b) == Ordering::Greater <==> a.composite() > b.composite(),
        a.order(b) == Ordering::Less || a == b || a.order(b) == Ordering::Greater,
        !(a.order(b) == Ordering::Less && a == b),
        !(a.order(b) == Ordering::Greater && a == b),
        !(a.order(b) == Ordering::Less && a.order(b) == Ordering::Greater),
{
    lemma_composite_keeps_the_low_bits(a, b);
}

/// Two different identifiers that agree in all that the composite keeps
/// compare as equal: neither is less, neither is greater, and they are not
/// the same.
pub proof fn lemma_order_cannot_tell_high_bits(a: Guid, b: Guid)
    requires
        a != b,
        a.agrees_in_kept_bits(b),
    ensures
        a.order(b) == Ordering::Equal,
{
    lemma_composite_keeps_the_low_bits(a, b);
}

/// The order of identifiers has no cycles, whatever their last groups:
/// turning a comparison round turns its outcome round, and what is no
/// greater than something that is no greater than a third is no greater
/// than the third.
pub proof fn lemma_order_is_consistent(a: Guid, b: Guid, c: Guid)
    ensures
        a.order(a) == Ordering::Equal,
        a.order(b) == Ordering::Less <==> b.order(a) == Ordering::Greater,
        a.order(b) == Ordering::Equal <==> b.order(a) == Ordering::Equal,
        a.order(b) != Ordering::Greater && b.order(c) != Ordering::Greater ==> a.order(c)
            != Ordering::Greater,
{
}

} // verus!
