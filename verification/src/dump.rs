//! The dump as a whole: a banner line, then one line per row.

use crate::memory::SparseByteMap;
use crate::row::{in_address_space, row_count, row_model, DumpRow, RowModel, ROW_BYTES};
use crate::style::{paint_rgb, painted, Rgb};
use crate::text::texts;
use vstd::prelude::*;
use vstd::string::*;

verus! {

/// The first line of every dump: the column headers of the offset, of the
/// sixteen hex cells and of the sixteen ASCII cells.
pub const BANNER: &'static str =
    "- offset -  0 1  2 3  4 5  6 7  8 9  A B  C D  E F  0123456789ABCDEF";

/// The rows of the dump of `size` bytes at `loc`.
pub open spec fn dump_rows(loc: u64, size: u64, data: Map<u64, u8>) -> Seq<RowModel> {
    Seq::new(row_count(size as nat), |k: int| row_model(loc, size, data, k as nat))
}

/// The lines of the dump without any styling: the banner, then each row
/// with its plain text.
pub open spec fn plain_lines(loc: u64, size: u64, data: Map<u64, u8>) -> Seq<Seq<char>> {
    seq![BANNER@] + dump_rows(loc, size, data).map_values(|row: RowModel| row.plain())
}

/// Which of the painted texts of a dump came out decorated.
pub struct Look {
    /// The banner.
    pub banner: bool,
    /// The text that stands for an unresolved address.
    pub absent: bool,
    /// The text that stands for a byte that is not printable.
    pub dot: bool,
    /// The offset label of each row.
    pub labels: Seq<bool>,
}

/// Row `k` as a line of a styled dump.
pub open spec fn styled_row(row: RowModel, k: int, banner: Rgb, sentinel: Rgb, look: Look) -> Seq<
    char,
> {
    row.line(
        painted(row.label, banner, look.labels[k]),
        painted(seq!['*'], sentinel, look.absent),
        painted(seq!['.'], sentinel, look.dot),
    )
}

/// The lines of the styled dump: the banner and the offset labels painted
/// in `banner`, the two sentinel texts painted in `sentinel`, each of them
/// decorated or bare as `look` says.
pub open spec fn styled_lines(
    loc: u64,
    size: u64,
    data: Map<u64, u8>,
    banner: Rgb,
    sentinel: Rgb,
    look: Look,
) -> Seq<Seq<char>> {
    seq![painted(BANNER@, banner, look.banner)] + Seq::new(
        row_count(size as nat),
        |k: int| styled_row(row_model(loc, size, data, k as nat), k, banner, sentinel, look),
    )
}

/// Whether `lines` is the styled dump under some outcome of the painting.
pub open spec fn is_styled_dump(
    lines: Seq<Seq<char>>,
    loc: u64,
    size: u64,
    data: Map<u64, u8>,
    banner: Rgb,
    sentinel: Rgb,
) -> bool {
    exists|look: Look|
        {
            &&& look.labels.len() == row_count(size as nat)
            &&& lines == #[trigger] styled_lines(loc, size, data, banner, sentinel, look)
        }
}

/// The rows of the dump of `size` bytes at `loc`, in address order.
pub fn rows(loc: u64, size: u64, data: &SparseByteMap) -> (out: Vec<DumpRow>)
    requires
        in_address_space(loc, size),
    ensures
        out@.map_values(|row: DumpRow| row@) == dump_rows(loc, size, data@),
{
    let mut out: Vec<DumpRow> = Vec::new();
    let mut start: u64 = 0;
    let mut done: bool = size == 0;
    while !done
        invariant
            in_address_space(loc, size),
            start % 16 == 0,
            !done ==> start < size && out@.len() * 16 == start,
            done ==> out@.len() == row_count(size as nat),
            forall|k: int|
                0 <= k < out@.len() ==> (#[trigger] out@[k])@ == row_model(
                    loc,
                    size,
                    data@,
                    k as nat,
                ),
        decreases size - start + (if done { 0int } else { 1int }),
    {
        out.push(DumpRow::build(loc, size, start, data));
        if size - start <= ROW_BYTES {
            done = true;
        } else {
            start = start + ROW_BYTES;
        }
    }
    assert(out@.map_values(|row: DumpRow| row@) =~= dump_rows(loc, size, data@));
    out
}

/// The dump of `size` bytes at `loc` as lines of plain text, without line
/// ends: the banner, then one line per row.
pub fn render_plain(loc: u64, size: u64, data: &SparseByteMap) -> (lines: Vec<String>)
    requires
        in_address_space(loc, size),
    ensures
        texts(lines@) == plain_lines(loc, size, data@),
{
    let rows = rows(loc, size, data);
    let ghost models = dump_rows(loc, size, data@);
    let mut lines: Vec<String> = Vec::new();
    lines.push(BANNER.to_string());
    let mut k: usize = 0;
    while k < rows.len()
        invariant
            k <= rows.len(),
            rows@.map_values(|row: DumpRow| row@) == models,
            lines@.len() == 1 + k,
            lines@[0]@ == BANNER@,
            forall|i: int| 1 <= i <= k ==> (#[trigger] lines@[i])@ == models[i - 1].plain(),
        decreases rows.len() - k,
    {
        assert(rows@[k as int]@ == models[k as int]);
        lines.push(rows[k].plain());
        k = k + 1;
    }
    assert(texts(lines@) =~= plain_lines(loc, size, data@));
    lines
}

/// The dump of `size` bytes at `loc` as lines of text for a terminal,
/// without line ends: the banner and the offset labels in the colour
/// `banner`, the texts that stand for unresolved addresses and for bytes
/// that are not printable in the colour `sentinel`.
///
/// Whether a painted text comes out decorated is decided outside this
/// library, so the result is the styled dump under some outcome of the
/// painting.
pub fn render(loc: u64, size: u64, data: &SparseByteMap, banner: Rgb, sentinel: Rgb) -> (lines:
    Vec<String>)
    requires
        in_address_space(loc, size),
    ensures
        lines@.len() == 1 + row_count(size as nat),
        is_styled_dump(texts(lines@), loc, size, data@, banner, sentinel),
{
    let rows = rows(loc, size, data);
    let ghost models = dump_rows(loc, size, data@);
    proof {
        reveal_strlit("*");
        reveal_strlit(".");
    }
    let absent = paint_rgb(sentinel, "*");
    let dot = paint_rgb(sentinel, ".");
    assert("*"@ =~= seq!['*']);
    assert("."@ =~= seq!['.']);
    let head = paint_rgb(banner, BANNER);
    let ghost mut look = Look {
        banner: head@ != BANNER@,
        absent: absent@ != seq!['*'],
        dot: dot@ != seq!['.'],
        labels: Seq::empty(),
    };
    let mut lines: Vec<String> = Vec::new();
    lines.push(head);
    let mut k: usize = 0;
    while k < rows.len()
        invariant
            k <= rows.len(),
            rows@.map_values(|row: DumpRow| row@) == models,
            models == dump_rows(loc, size, data@),
            lines@.len() == 1 + k,
            look.labels.len() == k,
            lines@[0]@ == painted(BANNER@, banner, look.banner),
            absent@ == painted(seq!['*'], sentinel, look.absent),
            dot@ == painted(seq!['.'], sentinel, look.dot),
            forall|i: int|
                1 <= i <= k ==> (#[trigger] lines@[i])@ == styled_row(
                    models[i - 1],
                    i - 1,
                    banner,
                    sentinel,
                    look,
                ),
        decreases rows.len() - k,
    {
        assert(rows@[k as int]@ == models[k as int]);
        let row = &rows[k];
        let label = paint_rgb(banner, row.label.as_str());
        proof {
            let ghost before = look;
            look = Look { labels: look.labels.push(label@ != row.label@), ..look };
            assert forall|i: int| 0 <= i < k implies styled_row(
                models[i],
                i,
                banner,
                sentinel,
                look,
            ) == styled_row(models[i], i, banner, sentinel, before) by {
                assert(look.labels[i] == before.labels[i]);
            }
        }
        lines.push(row.line(label.as_str(), absent.as_str(), dot.as_str()));
        k = k + 1;
    }
    proof {
        let want = styled_lines(loc, size, data@, banner, sentinel, look);
        assert(want.len() == 1 + models.len());
        assert forall|i: int| 1 <= i < want.len() implies texts(lines@)[i] == want[i] by {
            assert(models[i - 1] == row_model(loc, size, data@, (i - 1) as nat));
        }
    }
    assert(texts(lines@) =~= styled_lines(loc, size, data@, banner, sentinel, look));
    lines
}

} // verus!
