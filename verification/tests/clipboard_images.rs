use rust_clipboard_uploader::clipboard::{
    clipboard_png, image_fingerprint, watch_pause_millis, Watch,
};

#[test]
fn fingerprints_have_known_values() {
    assert_eq!(image_fingerprint(&[]), 0);
    assert_eq!(image_fingerprint(&[1]), 0x9e3779b97f4a7c14);
    assert_eq!(image_fingerprint(&[1, 2, 3]), 8815631994663839254);
    assert_eq!(image_fingerprint(&[255; 9]), 0xc8864680b583eb09);
    let hundred: Vec<u8> = (0..100).collect();
    assert_eq!(image_fingerprint(&hundred), 0x64);
}

#[test]
fn fingerprints_rest_on_the_front_and_the_length() {
    let a = vec![7u8; 100];
    let mut b = a.clone();
    b[64] = 8;
    assert_eq!(image_fingerprint(&a), image_fingerprint(&b));
    b[63] = 8;
    assert_ne!(image_fingerprint(&a), image_fingerprint(&b));
    assert_ne!(image_fingerprint(&a), image_fingerprint(&vec![7u8; 101]));
    assert_eq!(image_fingerprint(&a) ^ image_fingerprint(&vec![7u8; 3000]), 100 ^ 3000);
}

#[test]
fn pixels_become_a_png_file() {
    let pixels = vec![255, 0, 0, 255, 0, 255, 0, 128];
    let file = clipboard_png(&pixels, 2, 1).unwrap();
    assert_eq!(file[..8], [137, 80, 78, 71, 13, 10, 26, 10]);
    assert_eq!(file[16..24], [0, 0, 0, 2, 0, 0, 0, 1]);
    assert_eq!(file[24..26], [8, 6]);
    assert_eq!(clipboard_png(&pixels, 2, 1), Some(file));
    assert_ne!(clipboard_png(&pixels, 1, 2), clipboard_png(&pixels, 2, 1));
}

#[test]
fn an_image_without_size_gives_no_file() {
    assert_eq!(clipboard_png(&[], 0, 5), None);
    assert_eq!(clipboard_png(&[], 3, 0), None);
}

#[test]
fn the_watch_finds_an_image_once() {
    let mut watch = Watch::new();
    assert!(!watch.look(false, Some(9)));
    assert!(!watch.look(true, None));
    assert!(watch.look(true, Some(9)));
    assert!(!watch.look(true, Some(9)));
    assert!(!watch.look(false, Some(10)));
    assert!(!watch.look(true, Some(9)));
    assert!(watch.look(true, Some(10)));
    assert!(watch.look(true, Some(9)));
}

#[test]
fn a_first_fingerprint_of_zero_is_not_new() {
    let mut watch = Watch::new();
    assert!(!watch.look(true, Some(0)));
}

#[test]
fn the_watch_sleeps_longer_while_off() {
    assert_eq!(watch_pause_millis(true), 500);
    assert_eq!(watch_pause_millis(false), 2000);
}

#[test]
fn a_stopped_watch_has_no_more_rounds() {
    let mut watch = Watch::new();
    assert_eq!(watch.begin_round(false, true), Some(500));
    assert!(watch.look(true, Some(1)));
    assert_eq!(watch.begin_round(false, false), Some(2000));
    assert!(!watch.look(false, None));
    assert_eq!(watch.begin_round(true, true), None);
    assert!(!watch.look(true, Some(2)));
    assert_eq!(watch.begin_round(false, true), None);
    assert!(!watch.look(true, Some(3)));
}
