use snrt::binary32::Binary32;
use snrt::render::{assemble, channel, row_buffer, set_pixel};

fn b(v: f32) -> Binary32 {
    Binary32::from_bits(v.to_bits())
}

#[test]
fn channel_truncates() {
    assert_eq!(channel(b(0.0)), 0);
    assert_eq!(channel(b(0.99)), 0);
    assert_eq!(channel(b(1.0)), 1);
    assert_eq!(channel(b(127.9)), 127);
    assert_eq!(channel(b(128.0)), 128);
    assert_eq!(channel(b(255.99)), 255);
}

#[test]
fn channel_saturates() {
    assert_eq!(channel(b(256.0)), 255);
    assert_eq!(channel(b(1e20)), 255);
    assert_eq!(channel(b(f32::INFINITY)), 255);
    assert_eq!(channel(b(-5.0)), 0);
    assert_eq!(channel(b(-0.5)), 0);
    assert_eq!(channel(b(f32::NAN)), 0);
    assert_eq!(channel(b(1e-42)), 0);
}

#[test]
fn channel_agrees_with_cast() {
    let mut v = -3.0f32;
    while v < 300.0 {
        assert_eq!(channel(b(v)), v as u8, "{}", v);
        v += 0.37;
    }
}

#[test]
fn row_buffer_is_black() {
    assert_eq!(row_buffer(4), vec![0u8; 12]);
    assert_eq!(row_buffer(0), Vec::<u8>::new());
}

#[test]
fn pixel_lands_at_its_offset() {
    let mut row = row_buffer(3);
    set_pixel(&mut row, 1, (10, 20, 30));
    assert_eq!(row, vec![0, 0, 0, 10, 20, 30, 0, 0, 0]);
    set_pixel(&mut row, 2, (1, 2, 3));
    assert_eq!(row, vec![0, 0, 0, 10, 20, 30, 1, 2, 3]);
}

#[test]
fn rows_are_joined_top_first() {
    let rows = vec![vec![1u8, 2, 3], vec![4, 5, 6], vec![7, 8, 9]];
    assert_eq!(assemble(rows), vec![7, 8, 9, 4, 5, 6, 1, 2, 3]);
    assert_eq!(assemble(vec![]), Vec::<u8>::new());
}

#[test]
fn frame_has_width_times_height_times_three_bytes() {
    let (width, height) = (4usize, 4usize);
    let rows: Vec<Vec<u8>> = (0..height).map(|_| row_buffer(width)).collect();
    assert_eq!(assemble(rows).len(), width * height * 3);
}
