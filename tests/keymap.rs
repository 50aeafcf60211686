use yace::keymap::pad_key;

#[test]
fn keys_follow_the_pad_layout() {
    let rows = ["1234", "qwer", "asdf", "zxcv"];
    let pad = [[0x1, 0x2, 0x3, 0xC], [0x4, 0x5, 0x6, 0xD], [0x7, 0x8, 0x9, 0xE], [0xA, 0x0, 0xB, 0xF]];
    for (row, keys) in rows.iter().zip(pad.iter()) {
        for (c, &k) in row.chars().zip(keys.iter()) {
            assert_eq!(pad_key(c), Some(k));
        }
    }
}

#[test]
fn unbound_characters_have_no_key() {
    assert_eq!(pad_key('5'), None);
    assert_eq!(pad_key('Q'), None);
    assert_eq!(pad_key(' '), None);
}
