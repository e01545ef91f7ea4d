use framebuf::buffer::{Color, FrameError, PixelBuffer};
use framebuf::render::{render, DEMO_POINT_X, DEMO_POINT_Y};

fn channels(width: usize, height: usize, t: f32) -> (Vec<u8>, Vec<u8>) {
    let reds = (0..width)
        .map(|x| (((x as f32 / width as f32 + t).sin() * 0.5 + 0.5) * 255.0).round() as u8)
        .collect();
    let greens = (0..height)
        .map(|y| (((y as f32 / width as f32 + t).cos() * 0.5 + 0.5) * 255.0).round() as u8)
        .collect();
    (reds, greens)
}

#[test]
fn ten_by_ten_frame_at_time_zero() {
    let mut b = PixelBuffer::new(10, 10).unwrap();
    let (reds, greens) = channels(10, 10, 0.0);
    assert_eq!(reds[5], 189);
    assert_eq!(greens[5], 239);
    let r = render(&mut b, &reds, &greens);
    assert_eq!(r, Err(FrameError::NoMarkerPoint));
    assert_eq!(b.pixel(5, 5), Some(Color { b: 255, g: 239, r: 189, a: 255 }));
    let off = (5 * 10 + 5) * 4;
    assert_eq!(&b.pixels[off..off + 4], &[255, 239, 189, 255]);
    assert_eq!(b.pixel(0, 0), Some(Color { b: 255, g: 255, r: 128, a: 255 }));
}

#[test]
fn every_cell_gets_its_column_red_and_row_green() {
    let (w, h) = (4usize, 3usize);
    let mut b = PixelBuffer::new(w, h).unwrap();
    let reds = vec![10, 11, 12, 13];
    let greens = vec![20, 21, 22];
    assert_eq!(render(&mut b, &reds, &greens), Err(FrameError::NoMarkerPoint));
    for y in 0..h {
        for x in 0..w {
            assert_eq!(b.pixel(x, y), Some(Color { b: 255, g: greens[y], r: reds[x], a: 255 }));
        }
    }
}

#[test]
fn marker_overrides_gradient_in_200_square() {
    let mut b = PixelBuffer::new(200, 200).unwrap();
    let (reds, greens) = channels(200, 200, 1.25);
    let r = render(&mut b, &reds, &greens);
    assert_eq!(r, Ok((90, 110)));
    assert_eq!(b.pixel(90, 110), Some(Color { b: 0, g: 0, r: 255, a: 255 }));
    assert_eq!(b.pixel(91, 110), Some(Color { b: 255, g: greens[110], r: reds[91], a: 255 }));
    assert_eq!(b.pixel(90, 109), Some(Color { b: 255, g: greens[109], r: reds[90], a: 255 }));
    let markers = (0..200)
        .flat_map(|y| (0..200).map(move |x| (x, y)))
        .filter(|&(x, y)| b.pixel(x, y) == Some(Color { b: 0, g: 0, r: 255, a: 255 }))
        .count();
    assert_eq!(markers, 1);
}

#[test]
fn marker_point_is_the_demonstration_point() {
    assert_eq!((DEMO_POINT_X, DEMO_POINT_Y), (-10, -10));
}

#[test]
fn rendering_twice_gives_identical_bytes() {
    let (reds, greens) = channels(30, 25, 2.5);
    let mut a = PixelBuffer::new(30, 25).unwrap();
    let mut b = PixelBuffer::new(30, 25).unwrap();
    let ra = render(&mut a, &reds, &greens);
    let rb = render(&mut b, &reds, &greens);
    assert_eq!(ra, rb);
    assert_eq!(ra, Ok((5, 22)));
    assert_eq!(a.pixels, b.pixels);
}

#[test]
fn rerendering_overwrites_previous_frame() {
    let mut b = PixelBuffer::new(8, 8).unwrap();
    let (r1, g1) = channels(8, 8, 0.0);
    let (r2, g2) = channels(8, 8, 3.0);
    render(&mut b, &r1, &g1).unwrap_err();
    render(&mut b, &r2, &g2).unwrap_err();
    let mut fresh = PixelBuffer::new(8, 8).unwrap();
    render(&mut fresh, &r2, &g2).unwrap_err();
    assert_eq!(b.pixels, fresh.pixels);
}

#[test]
fn non_square_gradient_uses_width_for_rows() {
    let (reds, greens) = channels(4, 8, 0.0);
    assert_eq!(reds.len(), 4);
    assert_eq!(greens.len(), 8);
    // Row 4 of a 4-wide buffer sits one full width down: cos(1.0).
    assert_eq!(greens[4], ((1.0f32.cos() * 0.5 + 0.5) * 255.0).round() as u8);
    let mut b = PixelBuffer::new(4, 8).unwrap();
    render(&mut b, &reds, &greens).unwrap_err();
    assert_eq!(b.pixel(0, 4).unwrap().g, greens[4]);
}
