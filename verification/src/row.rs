//! One row of a dump: up to sixteen consecutive addresses, each shown as a
//! hex cell and as an ASCII cell.

use crate::memory::{byte_at, lookup, SparseByteMap};
use crate::text::{byte_hex, label_of, offset_label, pad_right, pad_to, push_byte_hex, texts};
use vstd::prelude::*;
use vstd::string::*;

verus! {

/// How many addresses one row covers.
pub const ROW_BYTES: u64 = 16;

/// The width that the hex field of every row is padded to, so that the
/// ASCII fields of all rows start in the same column.
pub const HEX_FIELD_WIDTH: usize = 40;

/// The lowest byte that is shown as its own character.
pub const FIRST_PRINTABLE: u8 = 0x21;

/// The highest byte that is shown as its own character.
pub const LAST_PRINTABLE: u8 = 0x7E;

/// What the ASCII field shows for one address.
#[derive(Clone, Copy, Debug, PartialEq, Eq)]
pub enum Glyph {
    /// A resolved, printable byte: the character itself.
    Literal(char),
    /// A resolved byte outside the printable range.
    NonPrintable,
    /// An address that the map does not resolve.
    Absent,
}

/// Whether a byte is shown as its own character.
pub open spec fn is_printable(b: u8) -> bool {
    FIRST_PRINTABLE <= b <= LAST_PRINTABLE
}

/// The ASCII cell of an address, given what the map knows of it.
pub open spec fn glyph_of(byte: Option<u8>) -> Glyph {
    match byte {
        None => Glyph::Absent,
        Some(b) => if is_printable(b) {
            Glyph::Literal(b as char)
        } else {
            Glyph::NonPrintable
        },
    }
}

/// The two characters that the hex field shows for an address: the byte's
/// digits, or two stars where the address is unresolved.
pub open spec fn hex_pair(byte: Option<u8>) -> Seq<char> {
    match byte {
        Some(b) => byte_hex(b),
        None => seq!['*', '*'],
    }
}

/// What follows the pair of the address at offset `rel` from the start of
/// the dump: a blank after every second byte, nothing after the others.
pub open spec fn separator(rel: int) -> Seq<char> {
    if rel % 2 == 0 {
        Seq::empty()
    } else {
        seq![' ']
    }
}

/// The hex cell of the address at offset `rel`: its pair and its separator.
pub open spec fn hex_cell(byte: Option<u8>, rel: int) -> Seq<char> {
    hex_pair(byte) + separator(rel)
}

/// The text of an ASCII cell, given the texts that stand for an unresolved
/// address and for a byte that is not printable.
pub open spec fn glyph_text(g: Glyph, absent: Seq<char>, dot: Seq<char>) -> Seq<char> {
    match g {
        Glyph::Literal(c) => seq![c],
        Glyph::NonPrintable => dot,
        Glyph::Absent => absent,
    }
}

/// The number of rows of a dump of `size` bytes.
pub open spec fn row_count(size: nat) -> nat {
    (size + 15) / 16
}

/// The number of cells in row `k` of a dump of `size` bytes.
pub open spec fn row_len(size: nat, k: nat) -> nat {
    if size >= 16 * k + 16 {
        16
    } else if size > 16 * k {
        (size - 16 * k) as nat
    } else {
        0
    }
}

/// What the map knows of the address `rel` bytes after `loc`.
pub open spec fn cell_byte(loc: u64, data: Map<u64, u8>, rel: int) -> Option<u8> {
    byte_at(data, (loc + rel) as u64)
}

/// A row as a mathematical value.
pub struct RowModel {
    /// The offset label: the address of the row's first cell.
    pub label: Seq<char>,
    /// The hex cells, in address order.
    pub hex: Seq<Seq<char>>,
    /// The ASCII cells, in address order.
    pub ascii: Seq<Glyph>,
}

impl RowModel {
    /// The hex field: the hex cells one after the other, padded with blanks
    /// to the common width.
    pub open spec fn hex_field(self) -> Seq<char> {
        pad_right(self.hex.flatten(), HEX_FIELD_WIDTH as nat)
    }

    /// The ASCII field: the texts of the ASCII cells one after the other.
    pub open spec fn ascii_field(self, absent: Seq<char>, dot: Seq<char>) -> Seq<char> {
        self.ascii.map_values(|g: Glyph| glyph_text(g, absent, dot)).flatten()
    }

    /// The row as a line of text under the given label: the label, a blank,
    /// the hex field, a blank, the ASCII field.
    pub open spec fn line(self, label: Seq<char>, absent: Seq<char>, dot: Seq<char>) -> Seq<char> {
        label + seq![' '] + self.hex_field() + seq![' '] + self.ascii_field(absent, dot)
    }

    /// The row as a line of text without any styling: its own label, a star
    /// for an unresolved address, a dot for a byte that is not printable.
    pub open spec fn plain(self) -> Seq<char> {
        self.line(self.label, seq!['*'], seq!['.'])
    }
}

/// Row `k` of the dump of `size` bytes at `loc`.
pub open spec fn row_model(loc: u64, size: u64, data: Map<u64, u8>, k: nat) -> RowModel {
    RowModel {
        label: offset_label((loc + 16 * k) as nat),
        hex: Seq::new(
            row_len(size as nat, k),
            |j: int| hex_cell(cell_byte(loc, data, 16 * k + j), 16 * k + j),
        ),
        ascii: Seq::new(
            row_len(size as nat, k),
            |j: int| glyph_of(cell_byte(loc, data, 16 * k + j)),
        ),
    }
}

/// Whether the region of `size` bytes at `loc` lies inside the address space.
pub open spec fn in_address_space(loc: u64, size: u64) -> bool {
    loc + size <= 0x1_0000_0000_0000_0000
}

/// Whether the region of `size` bytes at `loc` lies inside the address space.
pub fn fits_address_space(loc: u64, size: u64) -> (fits: bool)
    ensures
        fits == in_address_space(loc, size),
{
    size == 0 || size - 1 <= u64::MAX - loc
}

/// The ASCII cell of an address, given what the map knows of it.
pub fn glyph_for(byte: Option<u8>) -> (g: Glyph)
    ensures
        g == glyph_of(byte),
{
    match byte {
        None => Glyph::Absent,
        Some(b) => if FIRST_PRINTABLE <= b && b <= LAST_PRINTABLE {
            Glyph::Literal(b as char)
        } else {
            Glyph::NonPrintable
        },
    }
}

/// The hex cell of the address at offset `rel` from the start of the dump.
pub fn hex_cell_text(byte: Option<u8>, rel: u64) -> (cell: String)
    ensures
        cell@ == hex_cell(byte, rel as int),
{
    let mut cell = String::new();
    match byte {
        Some(b) => {
            push_byte_hex(&mut cell, b);
        },
        None => {
            cell.push('*');
            cell.push('*');
        },
    }
    if rel % 2 != 0 {
        cell.push(' ');
    }
    assert(cell@ =~= hex_cell(byte, rel as int));
    cell
}

/// One row of a dump.
#[derive(Debug, PartialEq, Eq)]
pub struct DumpRow {
    /// The offset label: the address of the row's first cell.
    pub label: String,
    /// The hex cells, in address order.
    pub hex: Vec<String>,
    /// The ASCII cells, in address order.
    pub ascii: Vec<Glyph>,
}

impl View for DumpRow {
    type V = RowModel;

    open spec fn view(&self) -> RowModel {
        RowModel { label: self.label@, hex: texts(self.hex@), ascii: self.ascii@ }
    }
}

impl DumpRow {
    /// The row that starts `start` bytes into the dump of `size` bytes at
    /// `loc`.
    pub(crate) fn build(loc: u64, size: u64, start: u64, data: &SparseByteMap) -> (row: DumpRow)
        requires
            in_address_space(loc, size),
            start < size,
            start % 16 == 0,
        ensures
            row@ == row_model(loc, size, data@, (start / 16) as nat),
    {
        let ghost k: nat = (start / 16) as nat;
        let ghost want = row_model(loc, size, data@, k);
        let rest: u64 = size - start;
        let len: u64 = if rest < ROW_BYTES {
            rest
        } else {
            ROW_BYTES
        };
        assert(len == row_len(size as nat, k));
        let mut hex: Vec<String> = Vec::new();
        let mut ascii: Vec<Glyph> = Vec::new();
        let mut j: u64 = 0;
        while j < len
            invariant
                j <= len <= 16,
                start + len <= size,
                in_address_space(loc, size),
                16 * k == start,
                want == row_model(loc, size, data@, k),
                len == row_len(size as nat, k),
                hex@.len() == j,
                ascii@.len() == j,
                forall|i: int| 0 <= i < j ==> (#[trigger] hex@[i])@ == want.hex[i],
                forall|i: int| 0 <= i < j ==> #[trigger] ascii@[i] == want.ascii[i],
            decreases len - j,
        {
            let rel: u64 = start + j;
            let byte = lookup(data, loc + rel);
            hex.push(hex_cell_text(byte, rel));
            ascii.push(glyph_for(byte));
            j = j + 1;
        }
        let row = DumpRow { label: label_of(loc + start), hex, ascii };
        assert(row@.hex =~= want.hex);
        assert(row@.ascii =~= want.ascii);
        row
    }

    /// The hex field of the row.
    pub fn hex_field(&self) -> (out: String)
        ensures
            out@ == self@.hex_field(),
    {
        let ghost cells = texts(self.hex@);
        let mut out = String::new();
        let mut i: usize = 0;
        assert(cells.take(0).flatten() =~= Seq::<char>::empty());
        while i < self.hex.len()
            invariant
                i <= self.hex.len(),
                cells == texts(self.hex@),
                out@ == cells.take(i as int).flatten(),
            decreases self.hex.len() - i,
        {
            out.append(self.hex[i].as_str());
            proof {
                assert(cells.take(i + 1) =~= cells.take(i as int).push(cells[i as int]));
                cells.take(i as int).lemma_flatten_push(cells[i as int]);
            }
            i = i + 1;
        }
        assert(cells.take(i as int) =~= cells);
        pad_to(&mut out, HEX_FIELD_WIDTH);
        out
    }

    /// The ASCII field of the row, with `absent` standing for an unresolved
    /// address and `dot` for a byte that is not printable.
    pub fn ascii_field(&self, absent: &str, dot: &str) -> (out: String)
        ensures
            out@ == self@.ascii_field(absent@, dot@),
    {
        let ghost cells = self.ascii@.map_values(|g: Glyph| glyph_text(g, absent@, dot@));
        let mut out = String::new();
        let mut i: usize = 0;
        assert(cells.take(0).flatten() =~= Seq::<char>::empty());
        while i < self.ascii.len()
            invariant
                i <= self.ascii.len(),
                cells == self.ascii@.map_values(|g: Glyph| glyph_text(g, absent@, dot@)),
                out@ == cells.take(i as int).flatten(),
            decreases self.ascii.len() - i,
        {
            match self.ascii[i] {
                Glyph::Literal(c) => {
                    out.push(c);
                },
                Glyph::NonPrintable => {
                    out.append(dot);
                },
                Glyph::Absent => {
                    out.append(absent);
                },
            }
            proof {
                assert(cells.take(i + 1) =~= cells.take(i as int).push(cells[i as int]));
                cells.take(i as int).lemma_flatten_push(cells[i as int]);
                assert(out@ =~= cells.take(i as int).flatten() + cells[i as int]);
            }
            i = i + 1;
        }
        assert(cells.take(i as int) =~= cells);
        out
    }

    /// The row as a line of text under `label`, which stands in place of the
    /// row's own label.
    pub fn line(&self, label: &str, absent: &str, dot: &str) -> (out: String)
        ensures
            out@ == self@.line(label@, absent@, dot@),
    {
        let hex = self.hex_field();
        let ascii = self.ascii_field(absent, dot);
        let mut out = String::new();
        out.append(label);
        out.push(' ');
        out.append(hex.as_str());
        out.push(' ');
        out.append(ascii.as_str());
        assert(out@ =~= self@.line(label@, absent@, dot@));
        out
    }

    /// The row as a line of text without any styling.
    pub fn plain(&self) -> (out: String)
        ensures
            out@ == self@.plain(),
    {
        proof {
            reveal_strlit("*");
            reveal_strlit(".");
        }
        let out = self.line(self.label.as_str(), "*", ".");
        assert("*"@ =~= seq!['*']);
        assert("."@ =~= seq!['.']);
        out
    }
}

} // verus!
