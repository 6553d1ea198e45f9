use tokyo::pixel::{ConverterKind, bgr_24, bgr_32, no_op};
use tokyo::render::{BufView, Color, FrameBufferInfo, PixelFormat, converter_for};

fn bgr24_info(width: usize, height: usize, stride: usize) -> FrameBufferInfo {
    FrameBufferInfo {
        byte_len: stride * height * 3,
        width,
        height,
        stride,
        bytes_per_pixel: 3,
        pixel_format: PixelFormat::Bgr,
    }
}

#[test]
fn color_construction() {
    let c = Color::new(1, 2, 3);
    assert_eq!(c.red, 1);
    assert_eq!(c.green, 2);
    assert_eq!(c.blue, 3);
    assert_eq!(Color::from((9, 8, 7)), Color::new(9, 8, 7));
}

#[test]
fn bgr24_writes_blue_green_red() {
    let mut buffer = vec![0u8; 6];
    bgr_24(0, &mut buffer, Color::new(10, 20, 30));
    assert_eq!(buffer, vec![30, 20, 10, 0, 0, 0]);
    bgr_24(3, &mut buffer, Color::new(1, 2, 3));
    assert_eq!(buffer, vec![30, 20, 10, 3, 2, 1]);
}

#[test]
fn bgr32_keeps_the_reserved_byte_empty() {
    let mut buffer = vec![9u8; 8];
    bgr_32(4, &mut buffer, Color::new(10, 20, 30));
    assert_eq!(buffer, vec![9, 9, 9, 9, 0, 30, 20, 10]);
}

#[test]
fn no_op_converter_writes_nothing() {
    let mut buffer = vec![7u8; 4];
    no_op(0, &mut buffer, Color::new(255, 255, 255));
    assert_eq!(buffer, vec![7, 7, 7, 7]);
}

#[test]
fn converter_selection_follows_the_reported_layout() {
    assert_eq!(converter_for(PixelFormat::Bgr, 3), Some(ConverterKind::Bgr24));
    assert_eq!(converter_for(PixelFormat::Bgr, 4), Some(ConverterKind::Bgr32));
    assert_eq!(converter_for(PixelFormat::Rgb, 3), None);
    assert_eq!(converter_for(PixelFormat::Grayscale, 1), None);
    assert_eq!(converter_for(PixelFormat::Unknown, 4), None);
    assert_eq!(converter_for(PixelFormat::Bgr, 2), None);
}

#[test]
fn view_rejects_an_unsupported_layout() {
    let mut info = bgr24_info(4, 3, 5);
    info.pixel_format = PixelFormat::Rgb;
    assert!(BufView::from_info(info).is_none());
}

#[test]
fn view_set_pixel_writes_exactly_one_pixel() {
    let info = bgr24_info(4, 3, 5);
    let mut view = BufView::from_info(info).expect("supported layout");
    assert_eq!(view.width(), 4);
    assert_eq!(view.height(), 3);
    assert_eq!(view.pixel_converter(), ConverterKind::Bgr24);
    assert_eq!(view.buffer().len(), 45);

    view.set_pixel((1, 2), Color::new(10, 20, 30));
    let base = (2 * 5 + 1) * 3;
    let bytes = view.buffer();
    assert_eq!(&bytes[base..base + 3], &[30, 20, 10]);
    for (i, b) in bytes.iter().enumerate() {
        if !(base..base + 3).contains(&i) {
            assert_eq!(*b, 0, "byte {} must stay untouched", i);
        }
    }
}

#[test]
fn view_clear_paints_every_visible_pixel_and_spares_the_padding() {
    let info = bgr24_info(4, 3, 5);
    let mut view = BufView::from_info(info).expect("supported layout");
    view.clear(Color::new(1, 2, 3));
    let bytes = view.buffer();
    for y in 0..3 {
        for x in 0..5 {
            let base = (y * 5 + x) * 3;
            if x < 4 {
                assert_eq!(&bytes[base..base + 3], &[3, 2, 1]);
            } else {
                // row padding stays untouched
                assert_eq!(&bytes[base..base + 3], &[0, 0, 0]);
            }
        }
    }
}

#[test]
fn view_with_four_byte_pixels_keeps_the_reserved_byte() {
    let info = FrameBufferInfo {
        byte_len: 3 * 2 * 4,
        width: 3,
        height: 2,
        stride: 3,
        bytes_per_pixel: 4,
        pixel_format: PixelFormat::Bgr,
    };
    let mut view = BufView::from_info(info).expect("supported layout");
    assert_eq!(view.pixel_converter(), ConverterKind::Bgr32);
    view.set_pixel((2, 1), Color::new(10, 20, 30));
    let base = (1 * 3 + 2) * 4;
    assert_eq!(&view.buffer()[base..base + 4], &[0, 30, 20, 10]);
}

#[test]
fn view_info_reports_the_boot_geometry() {
    let info = bgr24_info(7, 2, 9);
    let view = BufView::from_info(info).expect("supported layout");
    assert_eq!(view.info(), info);
}
