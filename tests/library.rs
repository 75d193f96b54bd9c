use std::io::Cursor;

use termvid::config::{detect_color_mode, parse_extension, ColorMode, ConfigError, Extension};
use termvid::pixels::{decode_frame, frame_from_decoded, rgb_luma, FrameError, PixelBuffer, Rgb};
use termvid::playback::{poll_timeout, Action, Event, Phase, Session, FRAME_INTERVAL_MICROS};
use termvid::render::render_frame;
use termvid::sampler::{quantize, sample_cell, two_tone_cell, Glyph, RenderableCell, THRESHOLD};
use termvid::store::{count_frames, frame_name_matches};
use termvid::surface::{scale_coord, Scale, TerminalSurface};

/// A buffer whose pixel at (x, y) is (x, y, x + y).
fn gradient(width: u32, height: u32) -> PixelBuffer {
    let mut data = Vec::new();
    for y in 0..height {
        for x in 0..width {
            data.push(x as u8);
            data.push(y as u8);
            data.push((x + y) as u8);
        }
    }
    PixelBuffer::from_rgb(width, height, data).unwrap()
}

fn filled(r: u8, g: u8, b: u8) -> RenderableCell {
    RenderableCell { glyph: Glyph::Filled, color: Some(Rgb { r, g, b }) }
}

#[test]
fn parse_known_extensions() {
    assert_eq!(parse_extension("bmp"), Ok(Extension::Bmp));
    assert_eq!(parse_extension("jpg"), Ok(Extension::Jpg));
    assert_eq!(parse_extension("jpeg"), Ok(Extension::Jpeg));
    assert_eq!(parse_extension("png"), Ok(Extension::Png));
    assert_eq!(Extension::Jpeg.as_str(), "jpeg");
}

#[test]
fn unknown_extension_is_refused() {
    assert_eq!(parse_extension("gif"), Err(ConfigError::UnknownExtension));
    assert_eq!(parse_extension(""), Err(ConfigError::UnknownExtension));
    assert_eq!(parse_extension("BMP"), Err(ConfigError::UnknownExtension));
    assert_eq!(parse_extension("bmpx"), Err(ConfigError::UnknownExtension));
}

#[test]
fn color_mode_from_environment() {
    assert_eq!(detect_color_mode(Some("truecolor"), None), ColorMode::TrueColor);
    assert_eq!(detect_color_mode(Some("24bit"), Some("Apple_Terminal")), ColorMode::TrueColor);
    assert_eq!(detect_color_mode(None, Some("Apple_Terminal")), ColorMode::TwoTone);
    assert_eq!(detect_color_mode(Some("256"), Some("Apple_Terminal")), ColorMode::TwoTone);
    assert_eq!(detect_color_mode(None, None), ColorMode::TrueColor);
    assert_eq!(detect_color_mode(None, Some("WezTerm")), ColorMode::TrueColor);
}

#[test]
fn frame_names() {
    assert!(frame_name_matches("1.bmp", Extension::Bmp));
    assert!(frame_name_matches("120.png", Extension::Png));
    assert!(!frame_name_matches("1.png", Extension::Bmp));
    assert!(!frame_name_matches("0.bmp", Extension::Bmp));
    assert!(!frame_name_matches("01.bmp", Extension::Bmp));
    assert!(!frame_name_matches("a.bmp", Extension::Bmp));
    assert!(!frame_name_matches(".bmp", Extension::Bmp));
    assert!(!frame_name_matches("1.jpeg", Extension::Jpg));
    assert!(frame_name_matches("1.jpeg", Extension::Jpeg));
    assert!(!frame_name_matches("1bmp", Extension::Bmp));
}

#[test]
fn counting_frames() {
    let names: Vec<String> = ["1.bmp", "2.bmp", "3.bmp", "4.bmp", "5.bmp", "notes.txt", "1.png", "cover.bmp"]
        .iter()
        .map(|s| s.to_string())
        .collect();
    assert_eq!(count_frames(&names, Extension::Bmp), 5);
    assert_eq!(count_frames(&names, Extension::Png), 1);
    assert_eq!(count_frames(&names, Extension::Jpg), 0);
    assert_eq!(count_frames(&Vec::new(), Extension::Bmp), 0);
}

#[test]
fn buffer_needs_three_bytes_per_pixel() {
    assert!(PixelBuffer::from_rgb(2, 1, vec![0; 6]).is_some());
    assert!(PixelBuffer::from_rgb(2, 1, vec![0; 5]).is_none());
    assert!(PixelBuffer::from_rgb(2, 1, vec![0; 9]).is_none());
    assert!(PixelBuffer::from_rgb(0, 1, vec![]).is_none());
    let b = gradient(4, 3);
    assert_eq!(b.pixel(3, 2), Rgb { r: 3, g: 2, b: 5 });
}

#[test]
fn decode_png_frame() {
    let mut img = image::RgbImage::new(3, 2);
    img.put_pixel(2, 1, image::Rgb([10, 20, 30]));
    img.put_pixel(0, 0, image::Rgb([200, 100, 50]));
    let mut bytes = Cursor::new(Vec::new());
    image::DynamicImage::ImageRgb8(img)
        .write_to(&mut bytes, image::ImageFormat::Png)
        .unwrap();
    let bytes = bytes.into_inner();
    let frame = decode_frame(&bytes, Extension::Png).unwrap();
    assert_eq!((frame.width(), frame.height()), (3, 2));
    assert_eq!(frame.pixel(2, 1), Rgb { r: 10, g: 20, b: 30 });
    assert_eq!(frame.pixel(0, 0), Rgb { r: 200, g: 100, b: 50 });
    assert_eq!(frame.pixel(1, 0), Rgb { r: 0, g: 0, b: 0 });
}

#[test]
fn decode_failure() {
    assert_eq!(decode_frame(b"not an image", Extension::Bmp).err(), Some(FrameError::Decode));
    assert_eq!(decode_frame(&[], Extension::Png).err(), Some(FrameError::Decode));
}

#[test]
fn resize_sets_both_scales() {
    let mut s = TerminalSurface::new(20, 10, 10, 5);
    assert_eq!(s.scale_x(), Scale { pixels: 20, cells: 10 });
    assert_eq!(s.scale_y(), Scale { pixels: 10, cells: 5 });
    s.resize(8, 4);
    assert_eq!((s.cols(), s.rows()), (8, 4));
    assert_eq!(s.scale_x(), Scale { pixels: 20, cells: 8 });
    assert_eq!(s.scale_y(), Scale { pixels: 10, cells: 4 });
    s.resize(0, 0);
    assert_eq!((s.cols(), s.rows()), (1, 1));
    assert_eq!(s.scale_x(), Scale { pixels: 20, cells: 1 });
    assert_eq!(s.scale_y(), Scale { pixels: 10, cells: 1 });
}

#[test]
fn scaled_coordinates_round_down() {
    assert_eq!(scale_coord(3, Scale { pixels: 20, cells: 10 }), 6);
    assert_eq!(scale_coord(3, Scale { pixels: 20, cells: 8 }), 7);
    assert_eq!(scale_coord(7, Scale { pixels: 20, cells: 8 }), 17);
    assert_eq!(scale_coord(65535, Scale { pixels: u32::MAX, cells: 1 }), 65535 * u32::MAX as u64);
}

#[test]
fn two_tone_threshold() {
    assert_eq!(THRESHOLD, 130);
    assert_eq!(two_tone_cell(130), RenderableCell { glyph: Glyph::Filled, color: None });
    assert_eq!(two_tone_cell(129), RenderableCell { glyph: Glyph::Blank, color: None });
    assert_eq!(two_tone_cell(255), RenderableCell { glyph: Glyph::Filled, color: None });
    assert_eq!(two_tone_cell(0), RenderableCell { glyph: Glyph::Blank, color: None });
}

#[test]
fn two_tone_uses_weighted_intensity() {
    // (2126 * 200) / 10000 = 42: dark, though the red channel is bright.
    let red = Rgb { r: 200, g: 0, b: 0 };
    assert_eq!(quantize(ColorMode::TwoTone, red), RenderableCell { glyph: Glyph::Blank, color: None });
    // (7152 * 200) / 10000 = 143.
    let green = Rgb { r: 0, g: 200, b: 0 };
    assert_eq!(quantize(ColorMode::TwoTone, green), RenderableCell { glyph: Glyph::Filled, color: None });
    // A gray of 130 keeps its intensity.
    let gray = Rgb { r: 130, g: 130, b: 130 };
    assert_eq!(quantize(ColorMode::TwoTone, gray), RenderableCell { glyph: Glyph::Filled, color: None });
    let gray = Rgb { r: 129, g: 129, b: 129 };
    assert_eq!(quantize(ColorMode::TwoTone, gray), RenderableCell { glyph: Glyph::Blank, color: None });
}

#[test]
fn true_color_keeps_the_pixel() {
    let p = Rgb { r: 1, g: 2, b: 3 };
    assert_eq!(quantize(ColorMode::TrueColor, p), filled(1, 2, 3));
}

#[test]
fn sampling_is_deterministic() {
    let b = gradient(20, 10);
    let s = TerminalSurface::new(20, 10, 7, 3);
    let first = sample_cell(&b, &s, ColorMode::TrueColor, 5, 2);
    let second = sample_cell(&b, &s, ColorMode::TrueColor, 5, 2);
    assert_eq!(first, second);
    assert_eq!(first, filled(14, 6, 20));
}

#[test]
fn sampling_clamps_to_a_smaller_frame() {
    let b = gradient(4, 2);
    let s = TerminalSurface::new(20, 10, 10, 5);
    assert_eq!(sample_cell(&b, &s, ColorMode::TrueColor, 9, 4), filled(3, 1, 4));
}

#[test]
fn five_frames_on_ten_by_five() {
    let names: Vec<String> = (1..=5).map(|n| format!("{n}.bmp")).collect();
    assert_eq!(count_frames(&names, Extension::Bmp), 5);
    let b = gradient(20, 10);
    let s = TerminalSurface::new(20, 10, 10, 5);
    assert_eq!(s.scale_x(), Scale { pixels: 20, cells: 10 });
    assert_eq!(s.scale_y(), Scale { pixels: 10, cells: 5 });
    assert_eq!(sample_cell(&b, &s, ColorMode::TrueColor, 3, 2), filled(6, 4, 10));
    let cells = render_frame(&b, &s, ColorMode::TrueColor);
    assert_eq!(cells.len(), 50);
    assert_eq!(cells[2 * 10 + 3], filled(6, 4, 10));
    assert_eq!(cells[0], filled(0, 0, 0));
    assert_eq!(cells[49], filled(18, 8, 26));
}

#[test]
fn render_is_row_major() {
    let b = gradient(3, 2);
    let s = TerminalSurface::new(3, 2, 3, 2);
    let cells = render_frame(&b, &s, ColorMode::TrueColor);
    let expected: Vec<RenderableCell> = vec![
        filled(0, 0, 0),
        filled(1, 0, 1),
        filled(2, 0, 2),
        filled(0, 1, 1),
        filled(1, 1, 2),
        filled(2, 1, 3),
    ];
    assert_eq!(cells, expected);
}

#[test]
fn resize_mid_wait_applies_to_next_render() {
    let b = gradient(20, 10);
    let (mut session, action) =
        Session::start(5, TerminalSurface::new(20, 10, 10, 5), ColorMode::TrueColor);
    assert_eq!(action, Action::Render { frame: 1 });
    assert_eq!(session.step(Event::Tick), Action::Render { frame: 2 });
    let next = session.step(Event::Resize { cols: 8, rows: 4 });
    // Frame 2 is not drawn again: the next frame comes with the new size.
    assert_eq!(next, Action::Render { frame: 3 });
    assert_eq!(session.frame(), 3);
    let s = session.surface();
    assert_eq!((s.cols(), s.rows()), (8, 4));
    assert_eq!(s.scale_x(), Scale { pixels: 20, cells: 8 });
    assert_eq!(s.scale_y(), Scale { pixels: 10, cells: 4 });
    let cells = render_frame(&b, s, session.mode());
    assert_eq!(cells.len(), 32);
    // Cell (3, 2) now samples pixel (7, 5).
    assert_eq!(cells[2 * 8 + 3], filled(7, 5, 12));
    assert_eq!(session.step(Event::Tick), Action::Render { frame: 4 });
}

#[test]
fn playback_runs_through_all_frames() {
    let (mut session, action) =
        Session::start(3, TerminalSurface::new(4, 4, 2, 2), ColorMode::TwoTone);
    assert_eq!(action, Action::Render { frame: 1 });
    assert_eq!(session.total(), 3);
    assert_eq!(session.step(Event::Tick), Action::Render { frame: 2 });
    assert_eq!(session.step(Event::Tick), Action::Render { frame: 3 });
    assert_eq!(session.step(Event::Tick), Action::Stop);
    assert_eq!(session.phase(), Phase::Stopping);
    assert_eq!(session.frame(), 3);
    assert_eq!(session.step(Event::Tick), Action::Idle);
    assert!(session.finish());
    assert_eq!(session.phase(), Phase::Stopped);
    assert!(!session.finish());
}

#[test]
fn quit_stops_and_restores_once() {
    let (mut session, _) =
        Session::start(10, TerminalSurface::new(4, 4, 2, 2), ColorMode::TrueColor);
    assert_eq!(session.step(Event::Tick), Action::Render { frame: 2 });
    assert_eq!(session.step(Event::Quit), Action::Stop);
    assert_eq!(session.phase(), Phase::Stopping);
    assert_eq!(session.step(Event::Tick), Action::Idle);
    assert_eq!(session.step(Event::Resize { cols: 3, rows: 3 }), Action::Idle);
    assert_eq!(session.surface().cols(), 2);
    assert!(session.finish());
    assert!(!session.finish());
    assert_eq!(session.step(Event::Quit), Action::Idle);
    assert!(!session.finish());
}

#[test]
fn failure_stops_playback() {
    let (mut session, _) =
        Session::start(10, TerminalSurface::new(4, 4, 2, 2), ColorMode::TrueColor);
    assert_eq!(session.step(Event::Failed), Action::Stop);
    assert!(session.finish());
    assert!(!session.finish());
}

#[test]
fn no_frames_stops_at_once() {
    let (mut session, action) =
        Session::start(0, TerminalSurface::new(4, 4, 2, 2), ColorMode::TrueColor);
    assert_eq!(action, Action::Stop);
    assert_eq!(session.phase(), Phase::Stopping);
    assert!(session.finish());
}

#[test]
fn finish_while_playing_restores_once() {
    let (mut session, _) =
        Session::start(2, TerminalSurface::new(4, 4, 2, 2), ColorMode::TrueColor);
    assert!(session.finish());
    assert_eq!(session.step(Event::Tick), Action::Idle);
    assert!(!session.finish());
}

#[test]
fn pacing_never_goes_negative() {
    assert_eq!(FRAME_INTERVAL_MICROS, 32520);
    assert_eq!(poll_timeout(0), 32520);
    assert_eq!(poll_timeout(20000), 12520);
    assert_eq!(poll_timeout(32520), 0);
    assert_eq!(poll_timeout(50000), 0);
    assert_eq!(poll_timeout(u64::MAX), 0);
}

#[test]
fn session_begins_after_setup() {
    let mut session = Session::new(ColorMode::TwoTone);
    assert_eq!(session.phase(), Phase::Starting);
    assert_eq!(session.step(Event::Tick), Action::Idle);
    let action = session.begin(4, TerminalSurface::new(20, 10, 10, 5));
    assert_eq!(action, Action::Render { frame: 1 });
    assert_eq!(session.phase(), Phase::Playing);
    assert_eq!(session.mode(), ColorMode::TwoTone);
    assert_eq!(session.surface().cols(), 10);
    assert_eq!(session.begin(9, TerminalSurface::new(1, 1, 1, 1)), Action::Idle);
    assert_eq!(session.total(), 4);
}

#[test]
fn failed_start_restores_once() {
    let mut session = Session::new(ColorMode::TrueColor);
    assert_eq!(session.step(Event::Failed), Action::Stop);
    assert_eq!(session.phase(), Phase::Stopping);
    assert_eq!(session.begin(3, TerminalSurface::new(4, 4, 2, 2)), Action::Idle);
    assert!(session.finish());
    assert!(!session.finish());
}

#[test]
fn decoded_results_are_checked() {
    assert_eq!(frame_from_decoded(None).err(), Some(FrameError::Decode));
    assert_eq!(frame_from_decoded(Some((0, 4, vec![]))).err(), Some(FrameError::Empty));
    assert_eq!(frame_from_decoded(Some((4, 0, vec![]))).err(), Some(FrameError::Empty));
    assert_eq!(frame_from_decoded(Some((2, 2, vec![0; 11]))).err(), Some(FrameError::Decode));
    let b = frame_from_decoded(Some((1, 2, vec![1, 2, 3, 4, 5, 6]))).unwrap();
    assert_eq!((b.width(), b.height()), (1, 2));
    assert_eq!(b.pixel(0, 1), Rgb { r: 4, g: 5, b: 6 });
}

#[test]
fn resize_after_last_frame_stops() {
    let (mut session, _) =
        Session::start(2, TerminalSurface::new(4, 4, 2, 2), ColorMode::TrueColor);
    assert_eq!(session.step(Event::Resize { cols: 3, rows: 1 }), Action::Render { frame: 2 });
    assert_eq!(session.step(Event::Resize { cols: 5, rows: 5 }), Action::Stop);
    assert_eq!(session.phase(), Phase::Stopping);
    assert_eq!(session.surface().cols(), 5);
    assert_eq!(session.frame(), 2);
    assert!(session.finish());
}

#[test]
fn luma_weights() {
    assert_eq!(rgb_luma(Rgb { r: 255, g: 255, b: 255 }), 255);
    assert_eq!(rgb_luma(Rgb { r: 200, g: 0, b: 0 }), 42);
    assert_eq!(rgb_luma(Rgb { r: 0, g: 200, b: 0 }), 143);
    assert_eq!(rgb_luma(Rgb { r: 0, g: 0, b: 200 }), 14);
    let image_luma = image::Pixel::to_luma(&image::Rgb([37u8, 190, 91])).0[0];
    assert_eq!(rgb_luma(Rgb { r: 37, g: 190, b: 91 }), image_luma);
}
