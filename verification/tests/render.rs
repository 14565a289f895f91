use lib::render::canvas::parse_rgba;
use lib::render::error::PdfRenderError;
use lib::render::wgpu::state::indices_for_outline;

#[test]
fn rgba_bytes() {
    assert_eq!(parse_rgba(0x00332211), [0x11, 0x22, 0x33, 0xff]);
    assert_eq!(parse_rgba(0xffffffff), [0xff, 0xff, 0xff, 0xff]);
    assert_eq!(parse_rgba(0), [0, 0, 0, 0xff]);
}

#[test]
fn outline_fan() {
    assert_eq!(indices_for_outline(4, 10), vec![10, 10, 11, 10, 11, 12, 10, 12, 13]);
    assert_eq!(indices_for_outline(1, 5), Vec::<u32>::new());
    assert_eq!(indices_for_outline(2, 0), vec![0, 0, 1]);
    for &i in &indices_for_outline(6, 100) {
        assert!((100..106).contains(&i));
    }
}

#[test]
fn render_error_text() {
    assert_eq!(PdfRenderError::StackUnderflow.to_string(), "StackUnderflow");
}
