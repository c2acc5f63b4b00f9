use linkshot::editor::{crop_selection, export_source, finish_png, unpremultiply, unpremultiply_channel, Raster, RenderError};
use linkshot::{Shape, Tool};

#[test]
fn shapes_start_and_extend() {
    let mut pen: Shape<[i32; 2]> = Shape::start(Tool::Pen, [1, 1]);
    assert!(!pen.is_drawable());
    pen.extend([2, 3]);
    pen.extend([4, 5]);
    match &pen {
        Shape::Pen(pts) => assert_eq!(pts, &vec![[1, 1], [2, 3], [4, 5]]),
        _ => panic!("expected a stroke"),
    }
    assert!(pen.is_drawable());
    assert_eq!(pen.tool(), Tool::Pen);

    let mut arrow: Shape<[i32; 2]> = Shape::start(Tool::Arrow, [5, 5]);
    assert!(arrow.is_drawable());
    arrow.extend([9, 1]);
    arrow.extend([10, 0]);
    match arrow {
        Shape::Arrow(a, b) => {
            assert_eq!(a, [5, 5]);
            assert_eq!(b, [10, 0]);
        }
        _ => panic!("expected an arrow"),
    }
    assert_eq!(Shape::start(Tool::Rect, 0u8).tool(), Tool::Rect);
    assert_eq!(Shape::start(Tool::Line, 0u8).tool(), Tool::Line);
}

#[test]
fn unpremultiply_examples() {
    assert_eq!(unpremultiply_channel(0, 0), 0);
    assert_eq!(unpremultiply_channel(50, 0), 0);
    assert_eq!(unpremultiply_channel(64, 128), 128);
    assert_eq!(unpremultiply_channel(200, 100), 255);
    assert_eq!(unpremultiply_channel(1, 3), 85);
    let px = [10, 20, 30, 255, 64, 32, 0, 128, 9, 9, 9, 0];
    assert_eq!(unpremultiply(&px), vec![10, 20, 30, 255, 128, 64, 0, 128, 0, 0, 0, 0]);
}

#[test]
fn opaque_pixels_are_unchanged() {
    for c in 0..=255u8 {
        assert_eq!(unpremultiply_channel(c, 255), c);
    }
}

fn raster(w: u32, h: u32) -> Raster {
    let mut pixels = Vec::new();
    for y in 0..h {
        for x in 0..w {
            pixels.extend_from_slice(&[x as u8, y as u8, 7, 255]);
        }
    }
    Raster { width: w, height: h, pixels }
}

#[test]
fn crop_inside_the_image() {
    let out = crop_selection(raster(10, 8), 2, 3, 4, 2);
    assert_eq!((out.width, out.height), (4, 2));
    assert_eq!(&out.pixels[0..4], &[2, 3, 7, 255]);
    assert_eq!(&out.pixels[(1 * 4 + 3) * 4..(1 * 4 + 3) * 4 + 4], &[5, 4, 7, 255]);
}

#[test]
fn crop_is_cut_to_the_image_and_never_empty() {
    let out = crop_selection(raster(10, 8), 7, 6, 50, 50);
    assert_eq!((out.width, out.height), (3, 2));
    let out = crop_selection(raster(10, 8), 4, 4, 0, 0);
    assert_eq!((out.width, out.height), (1, 1));
    assert_eq!(&out.pixels[..], &[4, 4, 7, 255]);
    let out = crop_selection(raster(10, 8), 12, 2, 5, 5);
    assert_eq!((out.width, out.height), (0, 5));
    assert!(out.pixels.is_empty());
}

#[test]
fn finish_png_round_trips() {
    let premul = vec![10, 20, 30, 255, 64, 32, 0, 128, 1, 2, 3, 255, 0, 0, 0, 0, 5, 5, 5, 255, 90, 90, 90, 255];
    let png = finish_png(3, 2, &premul).ok().unwrap();
    let decoded = image::load_from_memory(&png).unwrap().to_rgba8();
    assert_eq!(decoded.dimensions(), (3, 2));
    assert_eq!(decoded.into_raw(), unpremultiply(&premul));
}

#[test]
fn finish_png_refuses_empty_images() {
    assert!(matches!(finish_png(0, 3, &[]), Err(RenderError::Encode(_))));
    assert!(matches!(finish_png(3, 0, &[]), Err(RenderError::Encode(_))));
    assert!(finish_png(1, 1, &[1, 2, 3, 4]).is_ok());
}

#[test]
fn render_error_messages() {
    assert_eq!(RenderError::NoImage.message(), "no image");
    assert_eq!(RenderError::NoSelection.message(), "no selection");
    assert_eq!(RenderError::BadSize.message(), "bad image size");
    assert_eq!(RenderError::Encode("e".to_string()).message(), "e");
}

#[test]
fn export_needs_image_then_selection() {
    let img = raster(2, 2);
    assert!(matches!(export_source::<Raster, u8>(None, None), Err(RenderError::NoImage)));
    assert!(matches!(export_source::<Raster, u8>(None, Some(1)), Err(RenderError::NoImage)));
    assert!(matches!(export_source::<Raster, u8>(Some(&img), None), Err(RenderError::NoSelection)));
    match export_source(Some(&img), Some(7u8)) {
        Ok((i, s)) => {
            assert_eq!(i.width, 2);
            assert_eq!(s, 7);
        }
        Err(_) => panic!("expected the image and selection"),
    }
}
