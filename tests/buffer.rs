use framebuf::buffer::{set_pixel, Color, FrameError, PixelBuffer};

#[test]
fn new_buffer_is_zeroed_with_four_bytes_per_cell() {
    let b = PixelBuffer::new(3, 2).unwrap();
    assert_eq!(b.width, 3);
    assert_eq!(b.height, 2);
    assert_eq!(b.pixels.len(), 24);
    assert!(b.pixels.iter().all(|&v| v == 0));
}

#[test]
fn new_buffer_rejects_zero_width() {
    assert_eq!(PixelBuffer::new(0, 5).err(), Some(FrameError::InvalidDimension));
}

#[test]
fn new_buffer_rejects_zero_height() {
    assert_eq!(PixelBuffer::new(5, 0).err(), Some(FrameError::InvalidDimension));
}

#[test]
fn set_pixel_then_read_back_touches_only_that_cell() {
    let mut b = PixelBuffer::new(4, 3).unwrap();
    let c = Color { b: 1, g: 2, r: 3, a: 4 };
    assert_eq!(b.set_pixel(2, 1, c), Ok(()));
    assert_eq!(b.pixel(2, 1), Some(c));
    let off = (1 * 4 + 2) * 4;
    assert_eq!(&b.pixels[off..off + 4], &[1, 2, 3, 4]);
    for (i, v) in b.pixels.iter().enumerate() {
        if i < off || i >= off + 4 {
            assert_eq!(*v, 0);
        }
    }
}

#[test]
fn set_pixel_every_cell_reads_back() {
    let (w, h) = (5usize, 4usize);
    let mut b = PixelBuffer::new(w, h).unwrap();
    for y in 0..h {
        for x in 0..w {
            let c = Color { b: x as u8, g: y as u8, r: (x * y) as u8, a: 7 };
            b.set_pixel(x, y, c).unwrap();
        }
    }
    for y in 0..h {
        for x in 0..w {
            assert_eq!(b.pixel(x, y), Some(Color { b: x as u8, g: y as u8, r: (x * y) as u8, a: 7 }));
        }
    }
}

#[test]
fn set_pixel_out_of_bounds_is_refused_and_changes_nothing() {
    let mut b = PixelBuffer::new(2, 2).unwrap();
    let c = Color { b: 9, g: 9, r: 9, a: 9 };
    assert_eq!(b.set_pixel(2, 0, c), Err(FrameError::OutOfBounds));
    assert_eq!(b.set_pixel(0, 2, c), Err(FrameError::OutOfBounds));
    assert!(b.pixels.iter().all(|&v| v == 0));
    assert_eq!(b.pixel(2, 0), None);
    assert_eq!(b.pixel(0, 2), None);
}

#[test]
fn raw_set_pixel_writes_bgra_at_row_major_offset() {
    let mut raw = vec![0u8; 3 * 3 * 4];
    set_pixel(&mut raw, 3, 1, 2, 10, 20, 30, 40);
    let off = (2 * 3 + 1) * 4;
    assert_eq!(&raw[off..off + 4], &[10, 20, 30, 40]);
    assert_eq!(raw.iter().filter(|&&v| v != 0).count(), 4);
}
