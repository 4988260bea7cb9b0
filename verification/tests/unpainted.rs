use print_hex::dump::{render, render_plain, BANNER};
use print_hex::memory::SparseByteMap;
use yansi::Paint;

#[test]
fn with_painting_disabled_the_styled_dump_is_the_plain_dump() {
    let mut data = SparseByteMap::new();
    for i in 0..16u64 {
        data.insert(0x100 + i, 0x41 + i as u8);
    }
    data.insert(0x112, 0x09);
    Paint::disable();
    let styled = render(0x100, 20, &data, (10, 200, 30), (255, 0, 7));
    assert_eq!(styled, render_plain(0x100, 20, &data));
    assert_eq!(styled[0], BANNER);
    assert_eq!(styled[2], format!("0x00000110 {: <40} {}", "**** 09** ", "**.*"));
    Paint::enable();
    assert_ne!(render(0x100, 20, &data, (10, 200, 30), (255, 0, 7)), styled);
}
