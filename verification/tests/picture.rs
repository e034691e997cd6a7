//! Pictures and the command line that asks for them.

use graybox::canvas::Canvas;
use graybox::options::parse_args;
use graybox::picture::write_ppm;

#[test]
fn a_ppm_is_a_header_and_three_bytes_a_pixel() {
    let mut canvas = Canvas::new(2, 1);
    canvas.pixels[1] = 0x00AB_CDEF;
    let file = write_ppm(&canvas);
    assert!(file.starts_with(b"P6\n2 1\n255\n"));
    assert_eq!(&file[11..], &[0, 0, 0, 0xAB, 0xCD, 0xEF]);
}

#[test]
fn switches_come_out_of_the_paths() {
    let args: Vec<String> = [
        "game.nes", "--frames", "120", "--debug", "--line", "100", "--out", "shot.ppm",
    ]
    .iter()
    .map(|s| s.to_string())
    .collect();
    let (paths, options) = parse_args(&args);
    assert_eq!(paths, ["game.nes"]);
    assert_eq!(options.frames, 120);
    assert!(options.debug);
    assert_eq!(options.line, Some(100));
    assert_eq!(options.out.as_deref(), Some("shot.ppm"));
}
