//! Sets of named flags: their validity, their text and the parsing of that
//! text.
//!
//! A flag table lists the flags of one set in a fixed order, each with its
//! name and its mask. The text of a set is the names of its flags in that
//! order, separated by `" | "`. Parsing accepts the names in any order, with
//! any white space around them, separated by `|`.
use crate::text::{append_text, chars_of, joined, same_chars, split, split_chars, trim, trimmed};
use vstd::prelude::*;

verus! {

/// A flag table as its names and masks.
pub open spec fn table_view(table: &[(&'static str, u16)]) -> Seq<(Seq<char>, u16)> {
    table@.map_values(|entry: (&'static str, u16)| (entry.0@, entry.1))
}

/// The bits of all flags of a table.
pub open spec fn all_bits(table: Seq<(Seq<char>, u16)>) -> u16
    decreases table.len(),
{
    if table.len() == 0 {
        0
    } else {
        all_bits(table.drop_last()) | table.last().1
    }
}

/// The names of the flags of `table` that `bits` holds, in the order of the
/// table.
pub open spec fn listed(table: Seq<(Seq<char>, u16)>, bits: u16) -> Seq<Seq<char>>
    decreases table.len(),
{
    if table.len() == 0 {
        Seq::empty()
    } else {
        let head = listed(table.drop_last(), bits);
        let mask = table.last().1;
        if mask != 0 && bits & mask == mask {
            head.push(table.last().0)
        } else {
            head
        }
    }
}

/// The text of the flags that `bits` holds.
pub open spec fn flags_text(table: Seq<(Seq<char>, u16)>, bits: u16) -> Seq<char> {
    joined(listed(table, bits), " | "@)
}

/// The mask of the first flag of `table` with the name `name`.
pub open spec fn mask_of(table: Seq<(Seq<char>, u16)>, name: Seq<char>) -> Option<u16>
    decreases table.len(),
{
    if table.len() == 0 {
        None
    } else if table[0].0 == name {
        Some(table[0].1)
    } else {
        mask_of(table.drop_first(), name)
    }
}

/// The bits that the pieces of a text name together. Every piece, without
/// the white space around it, has to be the name of a flag.
pub open spec fn parsed_pieces(table: Seq<(Seq<char>, u16)>, pieces: Seq<Seq<char>>) -> Option<
    u16,
>
    decreases pieces.len(),
{
    if pieces.len() == 0 {
        Some(0)
    } else {
        let name = trimmed(pieces.last());
        match (parsed_pieces(table, pieces.drop_last()), mask_of(table, name)) {
            (Some(bits), Some(mask)) => if name.len() > 0 {
                Some(bits | mask)
            } else {
                None
            },
            _ => None,
        }
    }
}

/// The bits that `text` names.
///
/// A text of nothing but white space names no flag. Any other text is cut at
/// every `|`; a piece that is empty or is not the name of a flag makes the
/// whole text invalid. Names are compared letter for letter.
pub open spec fn parsed(table: Seq<(Seq<char>, u16)>, text: Seq<char>) -> Option<u16> {
    if trimmed(text).len() == 0 {
        Some(0)
    } else {
        parsed_pieces(table, split(text, '|'))
    }
}

/// Whether every mask of the table fits eight bits.
pub open spec fn narrow(table: Seq<(Seq<char>, u16)>) -> bool {
    forall|i: int| 0 <= i < table.len() ==> (#[trigger] table[i]).1 <= 0xff
}

/// A mask that is found in a table is the mask of one of its entries.
pub proof fn lemma_mask_of(table: Seq<(Seq<char>, u16)>, name: Seq<char>)
    ensures
        mask_of(table, name) matches Some(mask) ==> exists|i: int|
            0 <= i < table.len() && (#[trigger] table[i]).1 == mask,
    decreases table.len(),
{
    if table.len() > 0 {
        if table[0].0 == name {
            assert(table[0].1 == mask_of(table, name)->0);
        } else {
            lemma_mask_of(table.drop_first(), name);
            if mask_of(table, name) is Some {
                let i = choose|i: int|
                    0 <= i < table.drop_first().len() && (#[trigger] table.drop_first()[i]).1
                        == mask_of(table, name)->0;
                assert(table[i + 1].1 == mask_of(table, name)->0);
            }
        }
    }
}

/// Computes the bits of all flags of a table.
pub fn known_bits(table: &[(&'static str, u16)]) -> (r: u16)
    ensures
        r == all_bits(table_view(table)),
{
    let ghost view = table_view(table);
    let mut bits: u16 = 0;
    let mut i: usize = 0;
    assert(view.take(0) =~= Seq::<(Seq<char>, u16)>::empty());
    while i < table.len()
        invariant
            i <= table.len(),
            view == table_view(table),
            bits == all_bits(view.take(i as int)),
        decreases table.len() - i,
    {
        assert(view.take(i + 1).drop_last() =~= view.take(i as int));
        bits = bits | table[i].1;
        i += 1;
    }
    assert(view.take(table.len() as int) =~= view);
    bits
}

/// Whether `bits` holds nothing but flags of the table.
pub fn valid_bits(table: &[(&'static str, u16)], bits: u16) -> (r: bool)
    ensures
        r == (bits & !all_bits(table_view(table)) == 0),
{
    bits & !known_bits(table) == 0
}

/// Writes the flags that `bits` holds as text.
pub fn format_flags(table: &[(&'static str, u16)], bits: u16) -> (r: String)
    ensures
        r@ == flags_text(table_view(table), bits),
{
    let ghost view = table_view(table);
    let mut out = String::new();
    let mut first = true;
    let mut i: usize = 0;
    assert(view.take(0) =~= Seq::<(Seq<char>, u16)>::empty());
    while i < table.len()
        invariant
            i <= table.len(),
            view == table_view(table),
            first == (listed(view.take(i as int), bits).len() == 0),
            out@ == joined(listed(view.take(i as int), bits), " | "@),
        decreases table.len() - i,
    {
        let ghost before = listed(view.take(i as int), bits);
        assert(view.take(i + 1).drop_last() =~= view.take(i as int));
        let (name, mask) = table[i];
        if mask != 0 && bits & mask == mask {
            if !first {
                append_text(&mut out, " | ");
            }
            append_text(&mut out, name);
            proof {
                let after = before.push(name@);
                assert(after.drop_last() =~= before);
                if before.len() == 0 {
                    assert(out@ =~= name@);
                }
            }
            first = false;
        }
        i += 1;
    }
    assert(view.take(table.len() as int) =~= view);
    out
}

/// Looks a flag up by its name.
pub fn find_flag(table: &[(&'static str, u16)], name: &[char]) -> (r: Option<u16>)
    ensures
        r == mask_of(table_view(table), name@),
{
    let ghost view = table_view(table);
    let mut i: usize = 0;
    assert(view.skip(0) =~= view);
    while i < table.len()
        invariant
            i <= table.len(),
            view == table_view(table),
            mask_of(view, name@) == mask_of(view.skip(i as int), name@),
        decreases table.len() - i,
    {
        let entry = chars_of(table[i].0);
        assert(view.skip(i as int)[0] == view[i as int]);
        assert(view.skip(i as int).drop_first() =~= view.skip(i + 1));
        if same_chars(entry.as_slice(), name) {
            return Some(table[i].1);
        }
        i += 1;
    }
    None
}

/// Parses the text of a set of flags.
pub fn parse_flags(table: &[(&'static str, u16)], text: &str) -> (r: Option<u16>)
    ensures
        r == parsed(table_view(table), text@),
        narrow(table_view(table)) ==> (r matches Some(bits) ==> bits <= 0xff),
{
    let chars = chars_of(text);
    let (start, end) = trim(chars.as_slice());
    if start == end {
        return Some(0);
    }
    let pieces = split_chars(chars.as_slice(), '|');
    let ghost view = |piece: Vec<char>| piece@;
    let ghost all = pieces@.map_values(view);
    let mut bits: u16 = 0;
    let mut i: usize = 0;
    assert(all.take(0) =~= Seq::<Seq<char>>::empty());
    while i < pieces.len()
        invariant
            i <= pieces.len(),
            view == |piece: Vec<char>| piece@,
            all == pieces@.map_values(view),
            all == split(text@, '|'),
            trimmed(text@).len() != 0,
            parsed_pieces(table_view(table), all.take(i as int)) == Some(bits),
            narrow(table_view(table)) ==> bits <= 0xff,
        decreases pieces.len() - i,
    {
        assert(all.take(i + 1).drop_last() =~= all.take(i as int));
        assert(all.take(i + 1).last() == pieces@[i as int]@);
        let piece = pieces[i].as_slice();
        let (from, to) = trim(piece);
        if from == to {
            proof {
                assert(trimmed(all.take(i + 1).last()).len() == 0);
                assert(parsed_pieces(table_view(table), all.take(i + 1)) is None);
                lemma_stays_invalid(table_view(table), all, i + 1);
            }
            return None;
        }
        let name = vstd::slice::slice_subrange(piece, from, to);
        match find_flag(table, name) {
            Some(mask) => {
                proof {
                    lemma_mask_of(table_view(table), name@);
                    if narrow(table_view(table)) {
                        assert(bits | mask <= 0xff) by (bit_vector)
                            requires
                                bits <= 0xff,
                                mask <= 0xff,
                        ;
                    }
                }
                bits = bits | mask;
            },
            None => {
                proof {
                    assert(name@ == trimmed(all.take(i + 1).last()));
                    assert(parsed_pieces(table_view(table), all.take(i + 1)) is None);
                    lemma_stays_invalid(table_view(table), all, i + 1);
                }
                return None;
            },
        }
        i += 1;
    }
    assert(all.take(pieces.len() as int) =~= all);
    Some(bits)
}

/// Once some of the first pieces are invalid, all pieces together are.
proof fn lemma_stays_invalid(table: Seq<(Seq<char>, u16)>, pieces: Seq<Seq<char>>, upto: int)
    requires
        0 <= upto <= pieces.len(),
        parsed_pieces(table, pieces.take(upto)) is None,
    ensures
        parsed_pieces(table, pieces) is None,
    decreases pieces.len() - upto,
{
    if upto < pieces.len() {
        assert(pieces.take(upto + 1).drop_last() =~= pieces.take(upto));
        lemma_stays_invalid(table, pieces, upto + 1);
    } else {
        assert(pieces.take(upto) =~= pieces);
    }
}

} // verus!
