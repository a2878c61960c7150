use cockroach_reminder::sprite::{
    alpha_bounds, crop_frame, crop_size, decode_frame, fit_frames, resize_frame, sprite_bounds,
    swap_red_blue, PixelBuffer, SPRITE_FRAME_WIDTH,
};

fn image_with(width: u32, height: u32, opaque: &[(u32, u32)]) -> PixelBuffer {
    let mut data = vec![0u8; (width * height * 4) as usize];
    for (i, px) in data.chunks_mut(4).enumerate() {
        px[0] = i as u8;
        px[1] = 100;
        px[2] = 200;
    }
    for &(x, y) in opaque {
        data[((y * width + x) * 4 + 3) as usize] = 255;
    }
    PixelBuffer { width, height, data }
}

fn png_bytes(img: &PixelBuffer) -> Vec<u8> {
    let buf = image::RgbaImage::from_raw(img.width, img.height, img.data.clone()).unwrap();
    let mut out = std::io::Cursor::new(Vec::new());
    buf.write_to(&mut out, image::ImageFormat::Png).unwrap();
    out.into_inner()
}

#[test]
fn alpha_bounds_of_opaque_pixels() {
    let img = image_with(5, 4, &[(1, 2), (3, 1), (2, 3)]);
    assert_eq!(alpha_bounds(&img), (1, 1, 3, 3));
    let one = image_with(5, 4, &[(4, 0)]);
    assert_eq!(alpha_bounds(&one), (4, 0, 4, 0));
}

#[test]
fn alpha_bounds_of_transparent_image() {
    let img = image_with(5, 4, &[]);
    assert_eq!(alpha_bounds(&img), (5, 4, 0, 0));
    let empty = PixelBuffer { width: 0, height: 0, data: Vec::new() };
    assert_eq!(alpha_bounds(&empty), (0, 0, 0, 0));
}

#[test]
fn sprite_bounds_merge_every_frame() {
    let a = image_with(6, 6, &[(2, 2), (3, 4)]);
    let b = image_with(6, 6, &[(1, 3), (4, 3)]);
    let c = image_with(6, 6, &[]);
    assert_eq!(sprite_bounds(&vec![a, b, c]), (1, 2, 4, 4));
    assert_eq!(sprite_bounds(&Vec::new()), (u32::MAX, u32::MAX, 0, 0));
}

#[test]
fn crop_keeps_the_region() {
    let img = image_with(5, 4, &[(1, 1), (3, 2)]);
    let b = alpha_bounds(&img);
    assert_eq!(crop_size(b), (3, 2));
    let out = crop_frame(&img, b);
    assert_eq!((out.width, out.height), (3, 2));
    assert_eq!(out.data.len(), 3 * 2 * 4);
    for y in 0..2u32 {
        for x in 0..3u32 {
            for c in 0..4u32 {
                let o = ((y * 3 + x) * 4 + c) as usize;
                let i = (((y + 1) * 5 + x + 1) * 4 + c) as usize;
                assert_eq!(out.data[o], img.data[i]);
            }
        }
    }
}

#[test]
fn crop_is_clamped_to_the_image() {
    let img = image_with(4, 3, &[(3, 2)]);
    let out = crop_frame(&img, (2, 1, 9, 9));
    assert_eq!((out.width, out.height), (2, 2));
    assert_eq!(out.data[((1 * 2 + 1) * 4 + 3) as usize], 255);
}

#[test]
fn swap_turns_rgba_into_bgra_and_back() {
    let mut data = vec![1u8, 2, 3, 4, 5, 6, 7, 8, 9, 10];
    swap_red_blue(&mut data);
    assert_eq!(data, vec![3, 2, 1, 4, 7, 6, 5, 8, 9, 10]);
    swap_red_blue(&mut data);
    assert_eq!(data, vec![1, 2, 3, 4, 5, 6, 7, 8, 9, 10]);
}

#[test]
fn decode_reads_a_png() {
    let img = image_with(3, 2, &[(0, 0), (2, 1)]);
    let bytes = png_bytes(&img);
    let decoded = decode_frame(&bytes).expect("PNG frame");
    assert_eq!((decoded.width, decoded.height), (3, 2));
    assert_eq!(decoded.data, img.data);
    assert_eq!(alpha_bounds(&decoded), (0, 0, 2, 1));
}

#[test]
fn decode_refuses_garbage() {
    assert!(decode_frame(&[1, 2, 3, 4, 5]).is_none());
    assert!(decode_frame(&[]).is_none());
}

#[test]
fn resize_gives_the_new_size() {
    let img = image_with(8, 4, &[(0, 0), (7, 3)]);
    let out = resize_frame(&img, 4, 2);
    assert_eq!((out.width, out.height), (4, 2));
    assert_eq!(out.data.len(), 4 * 2 * 4);
    let same = resize_frame(&img, 8, 4);
    assert_eq!(same.data, img.data);
}

#[test]
fn resize_of_empty_image_gives_the_new_size() {
    let empty = PixelBuffer { width: 0, height: 3, data: Vec::new() };
    let out = resize_frame(&empty, 2, 2);
    assert_eq!((out.width, out.height), (2, 2));
    assert_eq!(out.data.len(), 16);
}

#[test]
fn fit_frames_crops_and_swaps_narrow_sprites() {
    let a = image_with(6, 5, &[(1, 1), (3, 3)]);
    let b = image_with(6, 5, &[(2, 2)]);
    let frames = vec![a, b];
    let bounds = sprite_bounds(&frames);
    assert_eq!(bounds, (1, 1, 3, 3));
    let out = fit_frames(&frames, bounds, 1);
    assert_eq!(out.len(), 2);
    for (frame, fitted) in frames.iter().zip(&out) {
        assert_eq!((fitted.width, fitted.height), (3, 3));
        let mut expected = crop_frame(frame, bounds).data;
        swap_red_blue(&mut expected);
        assert_eq!(fitted.data, expected);
        assert_eq!(fitted.data[0], frame.data[((1 * 6 + 1) * 4 + 2) as usize]);
    }
}

#[test]
fn fit_frames_shrinks_wide_sprites() {
    let a = image_with(400, 3, &[(0, 0), (399, 2)]);
    let b = image_with(400, 3, &[(10, 1)]);
    let frames = vec![a, b];
    let bounds = sprite_bounds(&frames);
    assert_eq!(bounds, (0, 0, 399, 2));
    let out = fit_frames(&frames, bounds, 2);
    assert_eq!(out.len(), 2);
    for fitted in &out {
        assert_eq!((fitted.width, fitted.height), (SPRITE_FRAME_WIDTH, 2));
        assert_eq!(fitted.data.len(), (SPRITE_FRAME_WIDTH * 2 * 4) as usize);
    }
}
