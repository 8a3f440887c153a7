use board_core::text::render_i16;

#[test]
fn render_i16_matches_the_standard_formatting() {
    assert_eq!(render_i16(0), "0");
    assert_eq!(render_i16(7), "7");
    assert_eq!(render_i16(9), "9");
    assert_eq!(render_i16(10), "10");
    assert_eq!(render_i16(-1), "-1");
    assert_eq!(render_i16(105), "105");
    assert_eq!(render_i16(-240), "-240");
    assert_eq!(render_i16(i16::MAX), "32767");
    assert_eq!(render_i16(i16::MIN), "-32768");
}

#[test]
fn render_i16_agrees_with_to_string_everywhere() {
    let mut n = i16::MIN;
    loop {
        assert_eq!(render_i16(n), n.to_string());
        if n == i16::MAX {
            break;
        }
        n += 1;
    }
}
