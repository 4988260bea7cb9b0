use print_hex::dump::{render_plain, rows, BANNER};
use print_hex::memory::{lookup, SparseByteMap};
use print_hex::row::{fits_address_space, glyph_for, hex_cell_text, DumpRow, Glyph};
use print_hex::text::{label_of, pad_to, push_byte_hex, push_decimal, push_spaces};

fn alphabet(loc: u64, count: u64) -> SparseByteMap {
    let mut data = SparseByteMap::new();
    for i in 0..count {
        data.insert(loc + i, 0x41 + i as u8);
    }
    data
}

#[test]
fn banner_text_is_fixed() {
    assert_eq!(BANNER, "- offset -  0 1  2 3  4 5  6 7  8 9  A B  C D  E F  0123456789ABCDEF");
    assert_eq!(BANNER.len(), 68);
}

#[test]
fn size_zero_is_banner_only() {
    let data = alphabet(0x100, 16);
    let lines = render_plain(0x100, 0, &data);
    assert_eq!(lines, vec![BANNER.to_string()]);
    assert_eq!(render_plain(0, 0, &SparseByteMap::new()), vec![BANNER.to_string()]);
    assert!(rows(0x100, 0, &data).is_empty());
}

#[test]
fn eighteen_bytes_with_two_unresolved() {
    let data = alphabet(0x100, 16);
    let lines = render_plain(0x100, 18, &data);
    assert_eq!(lines.len(), 3);
    assert_eq!(lines[0], BANNER);
    assert_eq!(
        lines[1],
        "0x00000100 4142 4344 4546 4748 494a 4b4c 4d4e 4f50  ABCDEFGHIJKLMNOP"
    );
    assert_eq!(lines[2], format!("0x00000110 {: <40} {}", "**** ", "**"));
    assert_eq!(
        lines[2],
        "0x00000110 ****                                     **"
    );

    let table = rows(0x100, 18, &data);
    assert_eq!(table.len(), 2);
    assert_eq!(table[0].label, "0x00000100");
    assert_eq!(table[0].hex.len(), 16);
    assert!(table[0].hex.iter().all(|cell| !cell.contains('*')));
    assert!(table[0].ascii.iter().all(|g| matches!(g, Glyph::Literal(_))));
    assert_eq!(table[1].label, "0x00000110");
    assert_eq!(table[1].hex, vec!["**".to_string(), "** ".to_string()]);
    assert_eq!(table[1].ascii, vec![Glyph::Absent, Glyph::Absent]);
}

#[test]
fn fully_resolved_region_has_no_sentinel() {
    let mut data = SparseByteMap::new();
    for i in 0..40u64 {
        data.insert(0x2000 + i, (i * 7) as u8);
    }
    let table = rows(0x2000, 40, &data);
    assert_eq!(table.len(), 3);
    for row in &table {
        for cell in &row.hex {
            assert!(!cell.contains('*'));
        }
        for glyph in &row.ascii {
            assert_ne!(*glyph, Glyph::Absent);
        }
        assert!(!row.hex_field().contains('*'));
    }
}

#[test]
fn unresolved_address_is_two_stars_and_absent_glyph() {
    let mut data = SparseByteMap::new();
    data.insert(0x10, 0x00);
    data.insert(0x12, 0x41);
    let table = rows(0x10, 4, &data);
    assert_eq!(table.len(), 1);
    assert_eq!(table[0].hex, vec!["00", "** ", "41", "** "]);
    assert_eq!(
        table[0].ascii,
        vec![Glyph::NonPrintable, Glyph::Absent, Glyph::Literal('A'), Glyph::Absent]
    );
    let lines = render_plain(0x10, 4, &data);
    assert_eq!(lines[1], format!("0x00000010 {: <40} {}", "00** 41** ", ".*A*"));
}

#[test]
fn printable_range_is_0x21_to_0x7e() {
    assert_eq!(glyph_for(None), Glyph::Absent);
    assert_eq!(glyph_for(Some(0x00)), Glyph::NonPrintable);
    assert_eq!(glyph_for(Some(0x20)), Glyph::NonPrintable);
    assert_eq!(glyph_for(Some(0x21)), Glyph::Literal('!'));
    assert_eq!(glyph_for(Some(0x2a)), Glyph::Literal('*'));
    assert_eq!(glyph_for(Some(0x2e)), Glyph::Literal('.'));
    assert_eq!(glyph_for(Some(0x41)), Glyph::Literal('A'));
    assert_eq!(glyph_for(Some(0x7e)), Glyph::Literal('~'));
    assert_eq!(glyph_for(Some(0x7f)), Glyph::NonPrintable);
    assert_eq!(glyph_for(Some(0xff)), Glyph::NonPrintable);
    for b in 0..=255u8 {
        let expected = if (0x21..=0x7e).contains(&b) {
            Glyph::Literal(b as char)
        } else {
            Glyph::NonPrintable
        };
        assert_eq!(glyph_for(Some(b)), expected);
    }
}

#[test]
fn row_count_is_size_over_sixteen_rounded_up() {
    let data = SparseByteMap::new();
    let cases: [(u64, usize, usize); 9] = [
        (0, 0, 0),
        (1, 1, 1),
        (15, 1, 15),
        (16, 1, 16),
        (17, 2, 1),
        (31, 2, 15),
        (32, 2, 16),
        (33, 3, 1),
        (256, 16, 16),
    ];
    for (size, count, last) in cases {
        let table = rows(0x4000, size, &data);
        assert_eq!(table.len(), count, "size {}", size);
        assert_eq!(render_plain(0x4000, size, &data).len(), 1 + count);
        for (k, row) in table.iter().enumerate() {
            let cells = if k + 1 < count { 16 } else { last };
            assert_eq!(row.hex.len(), cells);
            assert_eq!(row.ascii.len(), cells);
            assert_eq!(row.label, format!("0x{:08x}", 0x4000 + 16 * k as u64));
        }
    }
}

#[test]
fn hex_bytes_pair_up_in_a_three_byte_window() {
    let data = alphabet(0, 3);
    let table = rows(0, 3, &data);
    assert_eq!(table.len(), 1);
    assert_eq!(table[0].hex, vec!["41", "42 ", "43"]);
    let lines = render_plain(0, 3, &data);
    assert_eq!(lines[1], format!("0x00000000 {: <40} {}", "4142 43", "ABC"));
}

#[test]
fn hex_bytes_pair_up_in_a_seventeen_byte_window() {
    let data = alphabet(0x20, 17);
    let table = rows(0x20, 17, &data);
    assert_eq!(table.len(), 2);
    for (j, cell) in table[0].hex.iter().enumerate() {
        assert_eq!(cell.len(), if j % 2 == 0 { 2 } else { 3 });
        assert_eq!(cell.ends_with(' '), j % 2 == 1);
    }
    assert_eq!(table[1].hex, vec!["51"]);
    let lines = render_plain(0x20, 17, &data);
    assert_eq!(
        lines[1],
        "0x00000020 4142 4344 4546 4748 494a 4b4c 4d4e 4f50  ABCDEFGHIJKLMNOP"
    );
    assert_eq!(lines[2], format!("0x00000030 {: <40} {}", "51", "Q"));
}

#[test]
fn pairing_follows_the_offset_from_the_start() {
    assert_eq!(hex_cell_text(Some(0xab), 0), "ab");
    assert_eq!(hex_cell_text(Some(0xab), 1), "ab ");
    assert_eq!(hex_cell_text(Some(0x05), 16), "05");
    assert_eq!(hex_cell_text(Some(0xf0), 17), "f0 ");
    assert_eq!(hex_cell_text(None, 2), "**");
    assert_eq!(hex_cell_text(None, 3), "** ");
    assert_eq!(hex_cell_text(None, u64::MAX), "** ");
}

#[test]
fn hex_field_is_forty_wide_in_every_row() {
    let data = alphabet(0, 20);
    for size in 1..=48u64 {
        for row in rows(0, size, &data) {
            assert_eq!(row.hex_field().chars().count(), 40);
        }
        for line in render_plain(0, size, &data).iter().skip(1) {
            assert_eq!(line.find("  ").map(|_| ()), Some(()));
            assert_eq!(&line[10..11], " ");
            assert_eq!(&line[51..52], " ");
        }
    }
}

#[test]
fn ascii_columns_align() {
    let data = alphabet(0x100, 18);
    let lines = render_plain(0x100, 18, &data);
    assert_eq!(&lines[1][52..], "ABCDEFGHIJKLMNOP");
    assert_eq!(&lines[2][52..], "QR");
}

#[test]
fn offset_labels() {
    assert_eq!(label_of(0), "0x00000000");
    assert_eq!(label_of(0x100), "0x00000100");
    assert_eq!(label_of(0xdead_beef), "0xdeadbeef");
    assert_eq!(label_of(0xffff_ffff), "0xffffffff");
    assert_eq!(label_of(0x1_0000_0000), "0x100000000");
    assert_eq!(label_of(0x1234_5678_9abc), "0x123456789abc");
    assert_eq!(label_of(u64::MAX), "0xffffffffffffffff");
    for addr in [1u64, 15, 16, 255, 4096, 0x7fff_ffff, 0xabcdef_0123, u64::MAX - 1] {
        assert_eq!(label_of(addr), format!("0x{:08x}", addr));
    }
}

#[test]
fn hex_digits_are_lower_case() {
    let mut digits = String::new();
    for b in [0x01u8, 0x23, 0x45, 0x67, 0x89, 0xab, 0xcd, 0xef] {
        push_byte_hex(&mut digits, b);
    }
    assert_eq!(digits, "0123456789abcdef");
    for b in 0..=255u8 {
        let mut out = String::from(">");
        push_byte_hex(&mut out, b);
        assert_eq!(out, format!(">{:02x}", b));
    }
}

#[test]
fn decimal_text() {
    for v in [0u64, 1, 9, 10, 99, 100, 255, 1000, 18_446_744_073_709_551_615] {
        let mut out = String::from("n=");
        push_decimal(&mut out, v);
        assert_eq!(out, format!("n={}", v));
    }
}

#[test]
fn padding_fills_to_the_width_and_never_cuts() {
    let mut out = String::from("ab");
    pad_to(&mut out, 5);
    assert_eq!(out, "ab   ");
    pad_to(&mut out, 5);
    assert_eq!(out, "ab   ");
    pad_to(&mut out, 3);
    assert_eq!(out, "ab   ");
    let mut empty = String::new();
    pad_to(&mut empty, 0);
    assert_eq!(empty, "");
    push_spaces(&mut empty, 3);
    assert_eq!(empty, "   ");
    push_spaces(&mut empty, 0);
    assert_eq!(empty, "   ");
}

#[test]
fn lookup_tells_unresolved_from_zero() {
    let mut data = SparseByteMap::new();
    data.insert(7, 0);
    data.insert(u64::MAX, 0xff);
    assert_eq!(lookup(&data, 7), Some(0));
    assert_eq!(lookup(&data, 8), None);
    assert_eq!(lookup(&data, u64::MAX), Some(0xff));
    assert_eq!(lookup(&SparseByteMap::new(), 0), None);
}

#[test]
fn entries_outside_the_region_do_not_show() {
    let mut data = alphabet(0x100, 4);
    data.insert(0xff, 0x5a);
    data.insert(0x104, 0x5a);
    let lines = render_plain(0x100, 4, &data);
    assert_eq!(lines.len(), 2);
    assert_eq!(lines[1], format!("0x00000100 {: <40} {}", "4142 4344 ", "ABCD"));
}

#[test]
fn region_may_end_with_the_address_space() {
    assert!(fits_address_space(0, 0));
    assert!(fits_address_space(u64::MAX, 0));
    assert!(fits_address_space(u64::MAX, 1));
    assert!(!fits_address_space(u64::MAX, 2));
    assert!(fits_address_space(0, u64::MAX));
    assert!(fits_address_space(1, u64::MAX));
    assert!(!fits_address_space(2, u64::MAX));
    assert!(!fits_address_space(u64::MAX, u64::MAX));
    assert!(fits_address_space(0xffff_ffff_ffff_fff0, 16));
    assert!(!fits_address_space(0xffff_ffff_ffff_fff0, 17));

    let mut data = SparseByteMap::new();
    data.insert(u64::MAX, 0x21);
    let lines = render_plain(0xffff_ffff_ffff_fffe, 2, &data);
    assert_eq!(lines.len(), 2);
    assert_eq!(lines[1], format!("0xfffffffffffffffe {: <40} {}", "**21 ", "*!"));
}

#[test]
fn a_row_takes_the_texts_it_is_given() {
    let data = alphabet(0x100, 1);
    let table = rows(0x100, 3, &data);
    let row = &table[0];
    assert_eq!(row.label, "0x00000100");
    assert_eq!(row.hex, vec!["41", "** ", "**"]);
    assert_eq!(row.hex_field(), format!("{: <40}", "41** **"));
    assert_eq!(row.ascii_field("?", "_"), "A??");
    assert_eq!(row.ascii_field("<gone>", "_"), "A<gone><gone>");
    assert_eq!(row.line("LABEL", "?", "_"), format!("LABEL {: <40} {}", "41** **", "A??"));
    assert_eq!(row.plain(), format!("0x00000100 {: <40} {}", "41** **", "A**"));

    let by_hand = DumpRow {
        label: String::from("here"),
        hex: vec![String::from("zz")],
        ascii: vec![Glyph::NonPrintable, Glyph::Literal('x'), Glyph::Absent],
    };
    assert_eq!(by_hand.line("there", "-", "+"), format!("there {: <40} {}", "zz", "+x-"));
}

#[test]
fn a_wide_hex_field_is_not_cut() {
    let wide = DumpRow {
        label: String::new(),
        hex: vec![String::from("0123456789012345678901234567890123456789xyz")],
        ascii: Vec::new(),
    };
    assert_eq!(wide.hex_field(), "0123456789012345678901234567890123456789xyz");
    assert_eq!(wide.plain(), " 0123456789012345678901234567890123456789xyz ");
}
