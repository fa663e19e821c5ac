use parakeet_ptt::paint::{argb_pixel_premul, premultiply, scale_channel, Frame, Pixel, Rgb};

#[test]
fn premultiplied_pixel_is_bgra_in_memory() {
    assert_eq!(argb_pixel_premul([255, 0, 0], 255), [0, 0, 255, 255]);
    assert_eq!(
        argb_pixel_premul([255, 255, 255], 128),
        [128, 128, 128, 128]
    );
}

fn pixel(frame: &Frame, x: u32, y: u32) -> [u8; 4] {
    let at = ((y * frame.width + x) * 4) as usize;
    [
        frame.bytes[at],
        frame.bytes[at + 1],
        frame.bytes[at + 2],
        frame.bytes[at + 3],
    ]
}

#[test]
fn channels_are_scaled_and_rounded() {
    assert_eq!(scale_channel(255, 255), 255);
    assert_eq!(scale_channel(255, 0), 0);
    assert_eq!(scale_channel(200, 128), 100);
}

#[test]
fn an_opaque_pixel_hides_what_is_below() {
    let mut frame = Frame::new(2, 2).expect("a small frame");
    let red = premultiply(Rgb { r: 255, g: 0, b: 0 }, 255);
    let blue = premultiply(Rgb { r: 0, g: 0, b: 255 }, 255);
    frame.blend_premul(1, 0, red);
    frame.blend_premul(1, 0, blue);
    assert_eq!(pixel(&frame, 1, 0), [255, 0, 0, 255]);
    assert_eq!(pixel(&frame, 0, 0), [0, 0, 0, 0]);
}

#[test]
fn what_lies_outside_is_not_painted() {
    let mut frame = Frame::new(1, 1).expect("a small frame");
    let white = Pixel {
        b: 255,
        g: 255,
        r: 255,
        a: 255,
    };
    for (x, y) in [(-1, 0), (0, -1), (1, 0), (0, 1)] {
        frame.blend_premul(x, y, white);
    }
    assert_eq!(frame.bytes, vec![0, 0, 0, 0]);
}

#[test]
fn a_bitmap_is_stamped_where_it_falls() {
    let mut frame = Frame::new(3, 1).expect("a small frame");
    let white = Rgb {
        r: 255,
        g: 255,
        b: 255,
    };
    frame.blend_bitmap((1, 0), (3, 1), &vec![255, 0, 255], white, 255);
    assert_eq!(pixel(&frame, 0, 0), [0, 0, 0, 0]);
    assert_eq!(pixel(&frame, 1, 0), [255, 255, 255, 255]);
    assert_eq!(pixel(&frame, 2, 0), [0, 0, 0, 0]);
}

#[test]
fn opacity_scales_every_byte() {
    let mut frame = Frame::new(1, 1).expect("a small frame");
    frame.blend_premul(0, 0, premultiply(Rgb { r: 255, g: 255, b: 255 }, 255));
    frame.scale_alpha(128);
    assert_eq!(pixel(&frame, 0, 0), [128, 128, 128, 128]);
    frame.clear();
    assert_eq!(frame.bytes, vec![0, 0, 0, 0]);
}

#[test]
fn blending_keeps_colours_below_their_alpha() {
    let mut frame = Frame::new(1, 1).expect("a small frame");
    for (r, g, b, a) in [(200, 10, 90, 77), (3, 255, 128, 128), (255, 0, 1, 13)] {
        frame.blend_premul(0, 0, premultiply(Rgb { r, g, b }, a));
        let [b, g, r, a] = pixel(&frame, 0, 0);
        assert!(r <= a && g <= a && b <= a);
    }
}

#[test]
fn what_the_bytes_do_not_reach_is_not_painted() {
    let white = Pixel {
        b: 255,
        g: 255,
        r: 255,
        a: 255,
    };
    let mut short = Frame {
        bytes: vec![0; 7],
        width: 2,
        height: 2,
    };
    for (x, y) in [(1, 0), (0, 1), (1, 1)] {
        short.blend_premul(x, y, white);
    }
    assert_eq!(short.bytes, vec![0; 7]);
    short.blend_premul(0, 0, white);
    assert_eq!(short.bytes, vec![255, 255, 255, 255, 0, 0, 0]);

    let mut long = Frame {
        bytes: vec![1; 6],
        width: 1,
        height: 1,
    };
    let rgb = Rgb {
        r: 255,
        g: 255,
        b: 255,
    };
    long.blend_bitmap((0, 0), (2, 2), &vec![255; 4], rgb, 255);
    assert_eq!(long.bytes, vec![255, 255, 255, 255, 1, 1]);

    let mut huge = Frame {
        bytes: vec![0; 4],
        width: u32::MAX,
        height: 1,
    };
    huge.blend_premul(0, 0, white);
    assert_eq!(huge.bytes, vec![0; 4]);
}
