//! What holds of every dump.

use crate::dump::{dump_rows, plain_lines, styled_lines, Look, BANNER};
use crate::row::{
    cell_byte, glyph_of, glyph_text, hex_cell, hex_pair, in_address_space, row_count, row_len,
    row_model, separator, Glyph, RowModel,
};
use crate::style::{foreground_on, painted, Rgb};
use crate::text::{byte_hex, spaces};
use vstd::prelude::*;

verus! {

/// Where the cell of the address `rel` bytes into a dump stands: in row
/// `rel / 16`, at place `rel % 16`.
pub proof fn cell_place(loc: u64, size: u64, data: Map<u64, u8>, rel: int)
    requires
        0 <= rel < size,
    ensures
        rel / 16 < row_count(size as nat),
        rel % 16 < row_len(size as nat, (rel / 16) as nat),
        row_model(loc, size, data, (rel / 16) as nat).hex[rel % 16] == hex_cell(
            cell_byte(loc, data, rel),
            rel,
        ),
        row_model(loc, size, data, (rel / 16) as nat).ascii[rel % 16] == glyph_of(
            cell_byte(loc, data, rel),
        ),
{
}

/// A dump of no bytes is the banner line and nothing else, whatever the
/// map holds.
pub proof fn empty_dump_is_banner_only(
    loc: u64,
    data: Map<u64, u8>,
    banner: Rgb,
    sentinel: Rgb,
    look: Look,
)
    ensures
        dump_rows(loc, 0, data).len() == 0,
        plain_lines(loc, 0, data) == seq![BANNER@],
        styled_lines(loc, 0, data, banner, sentinel, look) == seq![
            painted(BANNER@, banner, look.banner),
        ],
{
    assert(plain_lines(loc, 0, data) =~= seq![BANNER@]);
    assert(styled_lines(loc, 0, data, banner, sentinel, look) =~= seq![
        painted(BANNER@, banner, look.banner),
    ]);
}

/// With painting off everywhere, the styled dump is the plain dump.
pub proof fn unpainted_dump_is_plain(
    loc: u64,
    size: u64,
    data: Map<u64, u8>,
    banner: Rgb,
    sentinel: Rgb,
    look: Look,
)
    requires
        !look.banner,
        !look.absent,
        !look.dot,
        forall|k: int| 0 <= k < row_count(size as nat) ==> !look.labels[k],
    ensures
        styled_lines(loc, size, data, banner, sentinel, look) == plain_lines(loc, size, data),
{
    assert(styled_lines(loc, size, data, banner, sentinel, look) =~= plain_lines(
        loc,
        size,
        data,
    ));
}

/// Where the map resolves every address of the region, no hex cell holds a
/// star and no ASCII cell is the one of an unresolved address.
pub proof fn full_map_shows_no_sentinel(loc: u64, size: u64, data: Map<u64, u8>)
    requires
        in_address_space(loc, size),
        forall|a: u64| loc <= a < loc + size ==> data.contains_key(a),
    ensures
        forall|k: nat, j: int|
            k < row_count(size as nat) && 0 <= j < row_len(size as nat, k) ==> !(
            #[trigger] row_model(loc, size, data, k).hex[j]).contains('*'),
        forall|k: nat, j: int|
            k < row_count(size as nat) && 0 <= j < row_len(size as nat, k) ==> (
            #[trigger] row_model(loc, size, data, k).ascii[j]) != Glyph::Absent,
{
    assert forall|k: nat, j: int|
        k < row_count(size as nat) && 0 <= j < row_len(size as nat, k) implies !(
    #[trigger] row_model(loc, size, data, k).hex[j]).contains('*') by {
        let rel = 16 * k + j;
        let a = (loc + rel) as u64;
        assert(data.contains_key(a));
        let b = data[a];
        let cell = hex_cell(Some(b), rel);
        assert(row_model(loc, size, data, k).hex[j] == cell);
        assert forall|i: int| 0 <= i < cell.len() implies cell[i] != '*' by {
            assert(byte_hex(b)[0] != '*');
            assert(byte_hex(b)[1] != '*');
        }
    }
    assert forall|k: nat, j: int|
        k < row_count(size as nat) && 0 <= j < row_len(size as nat, k) implies (
    #[trigger] row_model(loc, size, data, k).ascii[j]) != Glyph::Absent by {
        let a = (loc + 16 * k + j) as u64;
        assert(data.contains_key(a));
    }
}

/// Where the map resolves every address of the region, the hex field of no
/// row holds a star.
pub proof fn full_map_shows_no_star(loc: u64, size: u64, data: Map<u64, u8>, k: nat)
    requires
        in_address_space(loc, size),
        forall|a: u64| loc <= a < loc + size ==> data.contains_key(a),
        k < row_count(size as nat),
    ensures
        !row_model(loc, size, data, k).hex_field().contains('*'),
{
    let row = row_model(loc, size, data, k);
    full_map_shows_no_sentinel(loc, size, data);
    assert forall|j: int| 0 <= j < row.hex.len() implies !(#[trigger] row.hex[j]).contains('*') by {
        assert(!row_model(loc, size, data, k).hex[j].contains('*'));
    }
    lemma_flatten_lacks(row.hex, '*');
    let flat = row.hex.flatten();
    let field = row.hex_field();
    assert forall|i: int| 0 <= i < field.len() implies field[i] != '*' by {
        if i < flat.len() {
            assert(flat.contains(flat[i]));
        }
    }
}

/// An address of the region that the map does not resolve shows as two
/// stars in its hex cell, before the separator, and as the cell of an
/// unresolved address in the ASCII field, which is another than the cell of
/// a byte that is not printable.
pub proof fn unresolved_address_shows_stars(loc: u64, size: u64, data: Map<u64, u8>, rel: int)
    requires
        in_address_space(loc, size),
        0 <= rel < size,
        !data.contains_key((loc + rel) as u64),
    ensures
        ({
            let row = row_model(loc, size, data, (rel / 16) as nat);
            &&& row.hex[rel % 16] == seq!['*', '*'] + separator(rel)
            &&& row.ascii[rel % 16] == Glyph::Absent
            &&& row.ascii[rel % 16] != Glyph::NonPrintable
        }),
{
    cell_place(loc, size, data, rel);
}

/// An address of the region that the map resolves shows as the two digits
/// of its byte in its hex cell. In the ASCII field a byte from `0x21` to
/// `0x7E` shows as its own character, and every other byte as the cell of a
/// byte that is not printable, which is another than the cell of an
/// unresolved address.
pub proof fn resolved_address_shows_byte(loc: u64, size: u64, data: Map<u64, u8>, rel: int)
    requires
        in_address_space(loc, size),
        0 <= rel < size,
        data.contains_key((loc + rel) as u64),
    ensures
        ({
            let row = row_model(loc, size, data, (rel / 16) as nat);
            let b = data[(loc + rel) as u64];
            &&& row.hex[rel % 16] == byte_hex(b) + separator(rel)
            &&& 0x21 <= b <= 0x7E ==> row.ascii[rel % 16] == Glyph::Literal(b as char)
            &&& !(0x21 <= b <= 0x7E) ==> row.ascii[rel % 16] == Glyph::NonPrintable
            &&& row.ascii[rel % 16] != Glyph::Absent
        }),
{
    cell_place(loc, size, data, rel);
}

/// A dump has as many rows as it takes to hold its bytes sixteen to a row.
/// Every row but the last holds sixteen cells of each kind; the last holds
/// the bytes that are left, sixteen where the size is a multiple of
/// sixteen.
pub proof fn rows_hold_the_bytes(loc: u64, size: u64, data: Map<u64, u8>)
    ensures
        dump_rows(loc, size, data).len() == row_count(size as nat),
        16 * (row_count(size as nat) - 1) < size <= 16 * row_count(size as nat),
        forall|k: int|
            0 <= k < row_count(size as nat) ==> {
                let row = #[trigger] dump_rows(loc, size, data)[k];
                let cells = if k + 1 < row_count(size as nat) || size % 16 == 0 {
                    16
                } else {
                    size % 16
                };
                row.hex.len() == cells && row.ascii.len() == cells
            },
{
}

/// Hex cells come in pairs: the cell of an even offset is its two
/// characters alone, the cell of an odd offset ends in one blank more.
pub proof fn hex_cells_pair_up(loc: u64, size: u64, data: Map<u64, u8>, rel: int)
    requires
        0 <= rel < size,
    ensures
        ({
            let cell = row_model(loc, size, data, (rel / 16) as nat).hex[rel % 16];
            let pair = hex_pair(cell_byte(loc, data, rel));
            &&& pair.len() == 2
            &&& pair[0] != ' '
            &&& pair[1] != ' '
            &&& rel % 2 == 0 ==> cell == pair
            &&& rel % 2 == 1 ==> cell == pair.push(' ')
        }),
{
    cell_place(loc, size, data, rel);
    let pair = hex_pair(cell_byte(loc, data, rel));
    assert(pair + Seq::<char>::empty() =~= pair);
    assert(pair + seq![' '] =~= pair.push(' '));
}

/// In the cells laid one after the other, cell `j` stands right behind the
/// cells before it.
proof fn lemma_cell_in_flatten(cells: Seq<Seq<char>>, j: int)
    requires
        0 <= j < cells.len(),
    ensures
        ({
            let at = cells.take(j).flatten().len() as int;
            &&& at + cells[j].len() <= cells.flatten().len()
            &&& cells.flatten().subrange(at, at + cells[j].len()) == cells[j]
        }),
    decreases cells.len(),
{
    let front = cells.drop_last();
    let at = cells.take(j).flatten().len() as int;
    assert(cells =~= front.push(cells.last()));
    front.lemma_flatten_push(cells.last());
    if j == cells.len() - 1 {
        assert(cells.take(j) =~= front);
        assert(cells.flatten().subrange(at, at + cells[j].len()) =~= cells[j]);
    } else {
        lemma_cell_in_flatten(front, j);
        assert(front.take(j) =~= cells.take(j));
        assert(cells.flatten().subrange(at, at + cells[j].len()) =~= front.flatten().subrange(
            at,
            at + cells[j].len(),
        ));
    }
}

/// Cells of which none holds `c`, laid one after the other, do not hold `c`.
proof fn lemma_flatten_lacks(cells: Seq<Seq<char>>, c: char)
    requires
        forall|j: int| 0 <= j < cells.len() ==> !(#[trigger] cells[j]).contains(c),
    ensures
        !cells.flatten().contains(c),
    decreases cells.len(),
{
    if cells.len() > 0 {
        let front = cells.drop_last();
        assert(cells =~= front.push(cells.last()));
        front.lemma_flatten_push(cells.last());
        assert forall|j: int| 0 <= j < front.len() implies !(#[trigger] front[j]).contains(c) by {
            assert(front[j] == cells[j]);
        }
        lemma_flatten_lacks(front, c);
        let flat = cells.flatten();
        assert forall|i: int| 0 <= i < flat.len() implies flat[i] != c by {
            if i < front.flatten().len() {
                assert(front.flatten().contains(front.flatten()[i]));
            } else {
                let last = cells[cells.len() - 1];
                assert(last.contains(last[i - front.flatten().len()]));
            }
        }
    }
}

/// The hex cells of the first `n` cells of a row that starts at an even
/// offset take five characters for every two cells.
proof fn lemma_cells_width(cells: Seq<Seq<char>>, n: int)
    requires
        0 <= n <= cells.len(),
        forall|j: int|
            0 <= j < cells.len() ==> (#[trigger] cells[j]).len() == if j % 2 == 0 {
                2int
            } else {
                3int
            },
    ensures
        cells.take(n).flatten().len() == 2 * n + n / 2,
    decreases n,
{
    if n == 0 {
        assert(cells.take(0) =~= Seq::<Seq<char>>::empty());
    } else {
        lemma_cells_width(cells, n - 1);
        assert(cells.take(n) =~= cells.take(n - 1).push(cells[n - 1]));
        cells.take(n - 1).lemma_flatten_push(cells[n - 1]);
    }
}

/// The hex field of every row is forty characters wide, so that the ASCII
/// fields of all rows start in the same column: the hex cells, which take
/// five characters for every two, and blanks behind them.
pub proof fn hex_field_is_forty_wide(loc: u64, size: u64, data: Map<u64, u8>, k: nat)
    ensures
        ({
            let row = row_model(loc, size, data, k);
            let n = row_len(size as nat, k);
            &&& row.hex.flatten().len() == 2 * n + n / 2
            &&& row.hex_field().len() == 40
            &&& row.hex_field() == row.hex.flatten() + spaces((40 - (2 * n + n / 2)) as nat)
        }),
{
    let row = row_model(loc, size, data, k);
    let n = row_len(size as nat, k);
    assert forall|j: int| 0 <= j < row.hex.len() implies (#[trigger] row.hex[j]).len() == if j % 2
        == 0 {
        2int
    } else {
        3int
    } by {
        let pair = hex_pair(cell_byte(loc, data, 16 * k + j));
        assert(pair.len() == 2);
    }
    lemma_cells_width(row.hex, n as int);
    assert(row.hex.take(n as int) =~= row.hex);
    if n == 16 {
        assert(row.hex.flatten() + spaces(0) =~= row.hex.flatten());
    }
}

/// The hex field shows the cell of every address in its own column: the
/// cell of place `j` of a row starts `2 * j + j / 2` characters into the hex
/// field.
pub proof fn hex_cell_column(loc: u64, size: u64, data: Map<u64, u8>, rel: int)
    requires
        0 <= rel < size,
    ensures
        ({
            let row = row_model(loc, size, data, (rel / 16) as nat);
            let j = rel % 16;
            let column = 2 * j + j / 2;
            &&& column + row.hex[j].len() <= 40
            &&& row.hex_field().subrange(column, column + row.hex[j].len()) == row.hex[j]
        }),
{
    let k = (rel / 16) as nat;
    let row = row_model(loc, size, data, k);
    let j = rel % 16;
    let column = 2 * j + j / 2;
    cell_place(loc, size, data, rel);
    hex_field_is_forty_wide(loc, size, data, k);
    assert forall|i: int| 0 <= i < row.hex.len() implies (#[trigger] row.hex[i]).len() == if i % 2
        == 0 {
        2int
    } else {
        3int
    } by {
        let pair = hex_pair(cell_byte(loc, data, 16 * k + i));
        assert(pair.len() == 2);
    }
    lemma_cells_width(row.hex, j);
    lemma_cell_in_flatten(row.hex, j);
    assert(row.hex_field().subrange(column, column + row.hex[j].len()) =~= row.hex.flatten().subrange(
        column,
        column + row.hex[j].len(),
    ));
}

/// The character that a plain dump shows for an ASCII cell.
pub open spec fn plain_glyph(g: Glyph) -> char {
    match g {
        Glyph::Literal(c) => c,
        Glyph::NonPrintable => '.',
        Glyph::Absent => '*',
    }
}

/// In a plain dump the ASCII field has one character for each cell, in the
/// order of the cells.
pub proof fn plain_ascii_column(row: RowModel)
    ensures
        row.ascii_field(seq!['*'], seq!['.']) == row.ascii.map_values(|g: Glyph| plain_glyph(g)),
{
    lemma_plain_ascii(row.ascii, row.ascii.len() as int);
    assert(row.ascii.take(row.ascii.len() as int) =~= row.ascii);
}

proof fn lemma_plain_ascii(cells: Seq<Glyph>, n: int)
    requires
        0 <= n <= cells.len(),
    ensures
        cells.take(n).map_values(|g: Glyph| glyph_text(g, seq!['*'], seq!['.'])).flatten()
            == cells.take(n).map_values(|g: Glyph| plain_glyph(g)),
    decreases n,
{
    let texts = |g: Glyph| glyph_text(g, seq!['*'], seq!['.']);
    let chars = |g: Glyph| plain_glyph(g);
    if n == 0 {
        assert(cells.take(0).map_values(texts) =~= Seq::<Seq<char>>::empty());
        assert(cells.take(0).map_values(chars) =~= Seq::<char>::empty());
    } else {
        lemma_plain_ascii(cells, n - 1);
        let front = cells.take(n - 1);
        let g = cells[n - 1];
        assert(cells.take(n) =~= front.push(g));
        assert(front.push(g).map_values(texts) =~= front.map_values(texts).push(texts(g)));
        front.map_values(texts).lemma_flatten_push(texts(g));
        assert(texts(g) =~= seq![chars(g)]);
        assert(front.push(g).map_values(chars) =~= front.map_values(chars) + seq![chars(g)]);
    }
}

/// The text of an unresolved address and the text of a byte that is not
/// printable differ, however the painting of either comes out.
pub proof fn sentinel_texts_differ(sentinel: Rgb, absent_on: bool, dot_on: bool)
    ensures
        painted(seq!['*'], sentinel, absent_on) != painted(seq!['.'], sentinel, dot_on),
{
    let star = painted(seq!['*'], sentinel, absent_on);
    let dot = painted(seq!['.'], sentinel, dot_on);
    let on = foreground_on(sentinel);
    if absent_on && dot_on {
        assert(star[on.len() as int] == '*');
        assert(dot[on.len() as int] == '.');
    } else if !absent_on && !dot_on {
        assert(star[0] == '*');
        assert(dot[0] == '.');
    } else {
        assert(star.len() != dot.len());
    }
}

} // verus!
