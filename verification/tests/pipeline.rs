use snappy_sc::codec::encode;
use snappy_sc::display::rect_for_display;
use snappy_sc::display::DisplayRect;
use snappy_sc::get_focused_display_info;
use snappy_sc::pixel::grab;
use snappy_sc::pixel::swap_channels;
use snappy_sc::resolve_region;
use snappy_sc::take_screenshot;
use snappy_sc::CaptureErrorKind;
use snappy_sc::CaptureFault;
use snappy_sc::CaptureRegion;
use snappy_sc::OutputFormat;
use snappy_sc::ScreenshotOptions;

fn two_displays() -> Vec<DisplayRect> {
    vec![
        DisplayRect { left: 0, top: 0, right: 1920, bottom: 1080 },
        DisplayRect { left: 1920, top: 0, right: 3840, bottom: 1080 },
    ]
}

#[test]
fn rect_lookup_second_display() {
    let displays = two_displays();
    assert_eq!(
        rect_for_display(&displays, 1),
        Some(DisplayRect { left: 1920, top: 0, right: 3840, bottom: 1080 })
    );
}

#[test]
fn rect_lookup_out_of_range_is_absent() {
    let displays = two_displays();
    assert_eq!(rect_for_display(&displays, 2), None);
}

#[test]
fn default_region_is_full_display() {
    let displays = two_displays();
    let options = ScreenshotOptions {
        display_id: 0,
        region: None,
        output_format: OutputFormat::Png,
    };
    let region = resolve_region(&options, &displays).unwrap();
    assert_eq!(
        region,
        CaptureRegion { start_x: 0, start_y: 0, end_x: 1920, end_y: 1080 }
    );
}

#[test]
fn default_region_fills_full_buffer() {
    let displays = two_displays();
    let options = ScreenshotOptions {
        display_id: 0,
        region: None,
        output_format: OutputFormat::Png,
    };
    let region = resolve_region(&options, &displays).unwrap();
    let raw = vec![0u8; 1920 * 1080 * 4];
    let buffer = grab(&region, Ok(raw)).unwrap();
    assert_eq!(buffer.data().len(), 1920 * 1080 * 4);
    assert_eq!(buffer.width(), 1920);
    assert_eq!(buffer.height(), 1080);
}

#[test]
fn grab_returns_exact_byte_count() {
    let region = CaptureRegion { start_x: 3, start_y: 7, end_x: 10, end_y: 12 };
    let raw = vec![9u8; 7 * 5 * 4];
    let buffer = grab(&region, Ok(raw)).unwrap();
    assert_eq!(buffer.data().len(), 7 * 5 * 4);
}

#[test]
fn display_id_out_of_range_fails_resolution() {
    let displays = two_displays();
    for id in [2u32, 3, u32::MAX] {
        let options = ScreenshotOptions {
            display_id: id,
            region: None,
            output_format: OutputFormat::Png,
        };
        let r = take_screenshot(&options, &displays, Ok(Vec::new()));
        assert_eq!(r, Err(CaptureErrorKind::DisplayResolutionError));
    }
}

#[test]
fn empty_region_fails_before_transfer_is_used() {
    let displays = two_displays();
    let degenerate = [
        CaptureRegion { start_x: 5, start_y: 0, end_x: 5, end_y: 10 },
        CaptureRegion { start_x: 6, start_y: 0, end_x: 5, end_y: 10 },
        CaptureRegion { start_x: 0, start_y: 10, end_x: 5, end_y: 10 },
        CaptureRegion { start_x: 0, start_y: 11, end_x: 5, end_y: 10 },
    ];
    for region in degenerate {
        let options = ScreenshotOptions {
            display_id: 0,
            region: Some(region),
            output_format: OutputFormat::Png,
        };
        assert_eq!(
            resolve_region(&options, &displays),
            Err(CaptureErrorKind::CaptureError(CaptureFault::EmptyRegion))
        );
        let r = take_screenshot(&options, &displays, Err(CaptureFault::DeviceContext));
        assert_eq!(
            r,
            Err(CaptureErrorKind::CaptureError(CaptureFault::EmptyRegion))
        );
    }
}

#[test]
fn device_context_fault_propagates() {
    let displays = two_displays();
    let options = ScreenshotOptions {
        display_id: 0,
        region: Some(CaptureRegion { start_x: 0, start_y: 0, end_x: 2, end_y: 2 }),
        output_format: OutputFormat::Png,
    };
    let r = take_screenshot(&options, &displays, Err(CaptureFault::DeviceContext));
    assert_eq!(
        r,
        Err(CaptureErrorKind::CaptureError(CaptureFault::DeviceContext))
    );
}

#[test]
fn missized_transfer_fails() {
    let displays = two_displays();
    let options = ScreenshotOptions {
        display_id: 0,
        region: Some(CaptureRegion { start_x: 0, start_y: 0, end_x: 2, end_y: 2 }),
        output_format: OutputFormat::Png,
    };
    let r = take_screenshot(&options, &displays, Ok(vec![0u8; 7]));
    assert_eq!(
        r,
        Err(CaptureErrorKind::CaptureError(CaptureFault::Transfer))
    );
}

#[test]
fn normalize_swaps_first_and_third_byte_of_each_pixel() {
    let mut data = vec![1u8, 2, 3, 4, 5, 6, 7, 8];
    swap_channels(&mut data);
    assert_eq!(data, vec![3, 2, 1, 4, 7, 6, 5, 8]);
}

#[test]
fn normalize_twice_is_identity() {
    let original: Vec<u8> = (0u8..=255).collect();
    let mut data = original.clone();
    swap_channels(&mut data);
    assert_ne!(data, original);
    swap_channels(&mut data);
    assert_eq!(data, original);
}

#[test]
fn encode_rejects_missized_buffer() {
    for format in [OutputFormat::Png, OutputFormat::Jpeg, OutputFormat::WebP] {
        let data = vec![0u8; 5];
        assert_eq!(
            encode(&data, 2, 2, &format),
            Err(CaptureErrorKind::EncodeError)
        );
    }
}

#[test]
fn encode_rejects_webp_dimensions_over_the_limit() {
    let data = vec![0u8; 16384 * 4];
    assert_eq!(
        encode(&data, 16384, 1, &OutputFormat::WebP),
        Err(CaptureErrorKind::EncodeError)
    );
}

#[test]
fn png_zero_buffer_round_trips_2x2() {
    let data = vec![0u8; 2 * 2 * 4];
    let bytes = encode(&data, 2, 2, &OutputFormat::Png).unwrap();
    let img = image::load_from_memory_with_format(&bytes, image::ImageFormat::Png).unwrap();
    assert_eq!(image::GenericImageView::dimensions(&img), (2, 2));
}

#[test]
fn jpeg_zero_buffer_round_trips_2x2() {
    let data = vec![0u8; 2 * 2 * 4];
    let bytes = encode(&data, 2, 2, &OutputFormat::Jpeg).unwrap();
    let img = image::load_from_memory_with_format(&bytes, image::ImageFormat::Jpeg).unwrap();
    assert_eq!(image::GenericImageView::dimensions(&img), (2, 2));
}

#[test]
fn webp_zero_buffer_round_trips_2x2() {
    let data = vec![0u8; 2 * 2 * 4];
    let bytes = encode(&data, 2, 2, &OutputFormat::WebP).unwrap();
    let img = webp::Decoder::new(&bytes).decode().unwrap();
    assert_eq!((img.width(), img.height()), (2, 2));
}

#[test]
fn take_screenshot_png_end_to_end() {
    let displays = two_displays();
    let options = ScreenshotOptions {
        display_id: 0,
        region: Some(CaptureRegion { start_x: 10, start_y: 20, end_x: 12, end_y: 21 }),
        output_format: OutputFormat::Png,
    };
    // Two pixels as the platform transfer hands them over: blue, green, red,
    // padding. After normalization the first pixel is RGBA (30, 20, 10, 255).
    let raw = vec![10u8, 20, 30, 255, 110, 120, 130, 255];
    let bytes = take_screenshot(&options, &displays, Ok(raw)).unwrap();
    let img = image::load_from_memory_with_format(&bytes, image::ImageFormat::Png)
        .unwrap()
        .to_rgba8();
    assert_eq!(image::GenericImageView::dimensions(&img), (2, 1));
    assert_eq!(img.get_pixel(0, 0).0, [30, 20, 10, 255]);
    assert_eq!(img.get_pixel(1, 0).0, [130, 120, 110, 255]);
}

#[test]
fn take_screenshot_webp_lossless_end_to_end() {
    let displays = two_displays();
    let options = ScreenshotOptions {
        display_id: 1,
        region: Some(CaptureRegion { start_x: 1920, start_y: 0, end_x: 1922, end_y: 1 }),
        output_format: OutputFormat::WebP,
    };
    let raw = vec![10u8, 20, 30, 255, 110, 120, 130, 255];
    let bytes = take_screenshot(&options, &displays, Ok(raw)).unwrap();
    let img = webp::Decoder::new(&bytes).decode().unwrap();
    assert_eq!((img.width(), img.height()), (2, 1));
    // Lossless mode preserves the normalized samples exactly; the decoder
    // hands fully opaque images back in a 3-byte RGB layout.
    assert_eq!(&img[..], &[30, 20, 10, 130, 120, 110]);
}

#[test]
fn focused_display_reports_position_and_size() {
    let displays = two_displays();
    let focused = Some(DisplayRect { left: 1920, top: 0, right: 3840, bottom: 1080 });
    assert_eq!(
        get_focused_display_info(&displays, focused),
        Some((1, 1920, 1080))
    );
}

#[test]
fn focused_display_absent_without_focus() {
    let displays = two_displays();
    assert_eq!(get_focused_display_info(&displays, None), None);
}

#[test]
fn focused_display_absent_when_not_enumerated() {
    let displays = two_displays();
    let focused = Some(DisplayRect { left: 7, top: 7, right: 8, bottom: 8 });
    assert_eq!(get_focused_display_info(&displays, focused), None);
}

#[test]
fn focused_display_absent_for_degenerate_rectangle() {
    let degenerate = DisplayRect { left: 5, top: 5, right: 5, bottom: 5 };
    let displays = vec![degenerate];
    assert_eq!(get_focused_display_info(&displays, Some(degenerate)), None);
}
