use termframe::encode::{encode_cell, encode_frame, encode_frame_seq};
use termframe::frame::{Image, Pixel};
use termframe::pacer::Pacer;
use termframe::ring::DoubleBuffer;
use termframe::source::{get_path, image_paths, next_frame_index, path_for};

fn px(r: u8, g: u8, b: u8, a: u8) -> Pixel {
    Pixel { r, g, b, a }
}

fn image(width: u32, height: u32, pixels: Vec<Pixel>) -> Image {
    Image::new(width, height, pixels).expect("pixel count must match the grid")
}

#[test]
fn encodes_one_opaque_cell_exactly() {
    let img = image(1, 1, vec![px(1, 2, 3, 255)]);
    let out = encode_frame(&img, 1);
    assert_eq!(out, "\x1b[0;0H\x1b[38;2;1;2;3m██".as_bytes().to_vec());
}

#[test]
fn encodes_one_transparent_cell_as_blank() {
    let img = image(1, 1, vec![px(200, 100, 50, 0)]);
    let out = encode_frame(&img, 1);
    assert_eq!(out, "\x1b[0;0H\x1b[38;2;200;100;50m  ".as_bytes().to_vec());
}

#[test]
fn cursor_addressing_doubles_the_column() {
    let img = image(2, 1, vec![px(0, 0, 0, 1), px(255, 255, 255, 1)]);
    let out = encode_frame(&img, 1);
    let expected = "\x1b[0;0H\x1b[38;2;0;0;0m██\x1b[0;2H\x1b[38;2;255;255;255m██";
    assert_eq!(out, expected.as_bytes().to_vec());
}

#[test]
fn glyph_policy_ignores_color_and_follows_alpha() {
    for a in [0u8, 1, 2, 127, 255] {
        for rgb in [(0u8, 0u8, 0u8), (255, 0, 7), (12, 34, 56)] {
            let c = encode_cell(px(rgb.0, rgb.1, rgb.2, a));
            assert_eq!(c.filled, a > 0);
            assert_eq!((c.r, c.g, c.b), rgb);
        }
    }
}

fn gradient_image(width: u32, height: u32) -> Image {
    let mut pixels = Vec::new();
    for y in 0..height {
        for x in 0..width {
            let v = (x * 7 + y * 31) as u8;
            let a = if (x + y) % 3 == 0 { 0 } else { 255 };
            pixels.push(px(v, v.wrapping_add(10), v.wrapping_add(99), a));
        }
    }
    image(width, height, pixels)
}

#[test]
fn band_count_does_not_change_the_output() {
    let img = gradient_image(8, 12);
    let one = encode_frame(&img, 1);
    let two = encode_frame(&img, 2);
    let three = encode_frame(&img, 3);
    let twelve = encode_frame(&img, 12);
    assert!(!one.is_empty());
    assert_eq!(one, two);
    assert_eq!(one, three);
    assert_eq!(one, twelve);
}

#[test]
fn parallel_and_sequential_encoders_agree() {
    let img = gradient_image(5, 9);
    for n_bands in [1u32, 2, 3, 4, 9] {
        let par = encode_frame(&img, n_bands);
        let seq = encode_frame_seq(&img, n_bands);
        assert_eq!(par, seq);
    }
}

#[test]
fn rows_past_the_last_full_band_are_dropped() {
    let img = gradient_image(3, 5);
    // 2 bands over 5 rows: 2 full bands of 2 rows; the 5th row is not encoded.
    let banded = encode_frame(&img, 2);
    let four_rows = gradient_image(3, 4);
    let full = encode_frame(&four_rows, 1);
    assert_eq!(banded, full);
}

#[test]
fn image_new_rejects_a_mismatched_pixel_count() {
    assert!(Image::new(2, 2, vec![px(0, 0, 0, 0); 3]).is_none());
    assert!(Image::new(2, 2, vec![px(0, 0, 0, 0); 4]).is_some());
}

#[test]
fn image_get_reads_row_major() {
    let img = image(2, 2, vec![px(1, 0, 0, 1), px(2, 0, 0, 1), px(3, 0, 0, 1), px(4, 0, 0, 1)]);
    assert_eq!(img.get(0, 0).r, 1);
    assert_eq!(img.get(1, 0).r, 2);
    assert_eq!(img.get(0, 1).r, 3);
    assert_eq!(img.get(1, 1).r, 4);
}

#[test]
fn ring_publish_then_swap_moves_a_frame_to_front() {
    let mut db = DoubleBuffer::new(2, 2);
    assert_eq!(db.front().stamp, 0);
    assert!(db.front().data.is_empty());

    db.set_temp(vec![b'A'], 1);
    db.temp_to_back();
    // Published but not yet displayed: front still shows the blank frame.
    assert_eq!(db.front().stamp, 0);
    assert!(db.front().data.is_empty());

    db.swap();
    assert_eq!(db.front().stamp, 1);
    assert_eq!(db.front().data, vec![b'A']);
}

#[test]
fn ring_roles_never_alias() {
    let mut db = DoubleBuffer::new(1, 1);
    db.set_temp(vec![b'A'], 1);
    db.temp_to_back();
    db.swap();
    // Writing the producer slot never touches the display frame.
    db.set_temp(vec![b'B'], 2);
    assert_eq!(db.front().data, vec![b'A']);
    db.set_temp(vec![b'C'], 3);
    assert_eq!(db.front().data, vec![b'A']);
    db.temp_to_back();
    assert_eq!(db.front().data, vec![b'A']);
    db.swap();
    assert_eq!(db.front().data, vec![b'C']);
}

#[test]
fn ring_stamps_rise_in_display_order() {
    let mut db = DoubleBuffer::new(1, 1);
    let mut seen = Vec::new();
    for frame in 1u64..=5 {
        db.set_temp(vec![frame as u8], frame);
        db.temp_to_back();
        seen.push(db.front().stamp);
        db.swap();
    }
    seen.push(db.front().stamp);
    assert_eq!(seen, vec![0, 1, 2, 3, 4, 5]);
}

#[test]
fn pacer_sleeps_the_remainder_when_ahead() {
    let mut p = Pacer::new(16);
    assert_eq!(p.target_ms, 62);
    let sleep = p.step(30);
    assert_eq!(sleep, 32);
    assert_eq!(p.delay_ms, 0);
}

#[test]
fn pacer_carries_the_deficit_when_behind() {
    let mut p = Pacer::new(16);
    let sleep = p.step(100);
    assert_eq!(sleep, 0);
    assert_eq!(p.delay_ms, 38);
    // The next fast frame absorbs the deficit and the pacer catches up.
    let sleep = p.step(10);
    assert_eq!(sleep, 14);
    assert_eq!(p.delay_ms, 0);
}

#[test]
fn pacer_on_time_frames_keep_a_zero_deficit() {
    let mut p = Pacer::new(10);
    assert_eq!(p.target_ms, 100);
    let mut total: u64 = 0;
    for e in [40u64, 100, 0, 60, 99] {
        total += e + p.step(e);
    }
    assert_eq!(p.delay_ms, 0);
    assert_eq!(total, 5 * 100);
}

#[test]
fn path_list_is_complete_and_ordered() {
    let paths = get_path();
    assert_eq!(paths.len(), 4989);
    assert_eq!(paths[0], "target/images/1.jpeg");
    assert_eq!(paths[1], "target/images/2.jpeg");
    assert_eq!(paths[4988], "target/images/4989.jpeg");
}

#[test]
fn paths_format_their_index_in_decimal() {
    assert_eq!(path_for(0), "target/images/0.jpeg");
    assert_eq!(path_for(10), "target/images/10.jpeg");
    assert_eq!(path_for(30500), "target/images/30500.jpeg");
    let few = image_paths(3);
    assert_eq!(few.len(), 3);
    assert_eq!(few[2], "target/images/3.jpeg");
}

#[test]
fn frame_index_cycles() {
    assert_eq!(next_frame_index(0, 3), 1);
    assert_eq!(next_frame_index(1, 3), 2);
    assert_eq!(next_frame_index(2, 3), 0);
    assert_eq!(next_frame_index(0, 1), 0);
}
