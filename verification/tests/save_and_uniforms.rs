use shady::save::{decimal_string, snapshot_png, window_title, SaveCounter};
use shady::uniforms::{is_valid_uniform_list, uniform_names, uniform_names_checked, Uniform};

#[test]
fn save_names_count_up_from_zero_without_gaps() {
    let mut c = SaveCounter::new();
    assert_eq!(c.taken(), 0);
    assert_eq!(c.next_name(), "save0.png");
    assert_eq!(c.next_name(), "save1.png");
    assert_eq!(c.next_name(), "save2.png");
    assert_eq!(c.taken(), 3);
}

#[test]
fn decimal_strings_are_exact() {
    assert_eq!(decimal_string(0), "0");
    assert_eq!(decimal_string(7), "7");
    assert_eq!(decimal_string(10), "10");
    assert_eq!(decimal_string(409), "409");
    assert_eq!(decimal_string(u64::MAX), "18446744073709551615");
}

#[test]
fn window_titles_carry_the_position() {
    assert_eq!(window_title(0), "Shady Image 0");
    assert_eq!(window_title(12), "Shady Image 12");
}

#[test]
fn snapshot_encodes_a_decodable_png_and_counts_up() {
    let mut c = SaveCounter::new();
    // 2x2 RGBA frame with four distinct pixels
    let pixels: Vec<u8> = vec![
        255, 0, 0, 255, 0, 255, 0, 255, 0, 0, 255, 255, 255, 255, 255, 128,
    ];
    let (name, bytes) = snapshot_png(&mut c, 2, 2, &pixels);
    assert_eq!(name, "save0.png");
    assert_eq!(c.taken(), 1);
    // the bytes are a real PNG holding exactly the frame that went in
    assert_ne!(bytes, pixels);
    let decoded = imagefmt::read_from(
        &mut std::io::Cursor::new(&bytes),
        imagefmt::ColFmt::RGBA,
    )
    .unwrap();
    assert_eq!(decoded.w, 2);
    assert_eq!(decoded.h, 2);
    assert_eq!(decoded.buf, pixels);

    let (name, _) = snapshot_png(&mut c, 2, 2, &pixels);
    assert_eq!(name, "save1.png");
}

#[test]
fn one_name_per_uniform_in_order() {
    let names = uniform_names(&vec![Uniform::Time, Uniform::MouseX]);
    assert_eq!(names, vec!["time".to_string(), "mouse_x".to_string()]);
    let names = uniform_names(&vec![Uniform::Time, Uniform::MouseX, Uniform::MouseY]);
    assert_eq!(
        names,
        vec![
            "time".to_string(),
            "mouse_x".to_string(),
            "mouse_y".to_string()
        ]
    );
    let names = uniform_names(&Vec::new());
    assert_eq!(names.len(), 0);
    let names = uniform_names(&vec![Uniform::MouseY]);
    assert_eq!(names, vec!["mouse_y".to_string()]);
}

#[test]
fn exactly_the_eight_subsets_are_valid() {
    let all = [Uniform::Time, Uniform::MouseX, Uniform::MouseY];
    let mut valid = 0;
    // every subset of the three kinds, in compiler order, is valid
    for mask in 0u32..8 {
        let mut us = Vec::new();
        for (bit, u) in all.iter().enumerate() {
            if mask & (1 << bit) != 0 {
                us.push(*u);
            }
        }
        assert!(is_valid_uniform_list(&us));
        assert!(uniform_names_checked(&us).is_some());
        valid += 1;
    }
    assert_eq!(valid, 8);
    // out of order or repeated kinds are not
    assert!(!is_valid_uniform_list(&vec![Uniform::MouseX, Uniform::Time]));
    assert!(!is_valid_uniform_list(&vec![Uniform::Time, Uniform::Time]));
    assert!(uniform_names_checked(&vec![
        Uniform::MouseY,
        Uniform::MouseX
    ])
    .is_none());
}
