use nodem_wasm::buffers::Buffers;
use nodem_wasm::command::{command_reply, parse_command, Command, RUN_CYCLES, STEP_CYCLES};
use nodem_wasm::framebuffer::{canvas_matches, framebuffer_size, paint};
use nodem_wasm::options::{
    command_mode_code, export_sources, image_settings, pkg_source, ImageSettings,
};
use nodem_wasm::text::text_or_empty;

const BLACK_WHITE: [u8; 8] = [0, 0, 0, 255, 255, 255, 255, 255];

#[test]
fn framebuffer_size_rounds_up_to_whole_bytes() {
    assert_eq!(framebuffer_size(2, 2), 1);
    assert_eq!(framebuffer_size(3, 3), 2);
    assert_eq!(framebuffer_size(8, 1), 1);
    assert_eq!(framebuffer_size(9, 1), 2);
    assert_eq!(framebuffer_size(0, 5), 0);
    assert_eq!(framebuffer_size(320, 200), 8000);
}

#[test]
fn canvas_must_hold_four_bytes_per_pixel() {
    assert!(canvas_matches(16, 2, 2));
    assert!(!canvas_matches(15, 2, 2));
    assert!(!canvas_matches(17, 2, 2));
    assert!(canvas_matches(0, 0, 7));
    assert!(!canvas_matches(usize::MAX, usize::MAX, 2));
    assert!(!canvas_matches(0, usize::MAX / 2, 3));
}

#[test]
fn paint_takes_leftmost_pixel_from_high_bit() {
    let fb = [0b1010_0000u8];
    let mut mem = [7u8; 16];
    paint(&fb, &BLACK_WHITE, &mut mem, 4);
    assert_eq!(
        mem,
        [255, 255, 255, 255, 0, 0, 0, 255, 255, 255, 255, 255, 0, 0, 0, 255]
    );
}

#[test]
fn paint_reads_across_bytes() {
    let fb = [0b0000_0001u8, 0b1000_0000u8];
    let mut mem = [0u8; 40];
    paint(&fb, &BLACK_WHITE, &mut mem, 10);
    for p in 0..10 {
        let expected: &[u8] = if p == 7 || p == 8 { &BLACK_WHITE[4..8] } else { &BLACK_WHITE[0..4] };
        assert_eq!(&mem[4 * p..4 * p + 4], expected);
    }
}

#[test]
fn new_buffers_hold_default_palette_and_blank_buffers() {
    let b = Buffers::new();
    assert_eq!(b.palette(), vec![48, 48, 48, 255, 220, 220, 255, 255]);
    assert_eq!(b.staged_pkg(), &[0u8][..]);
    assert_eq!(b.staged_xml(), Some("\0"));
}

#[test]
fn set_palette_overwrites_as_far_as_both_reach() {
    let mut b = Buffers::new();
    b.set_palette(&[1, 2, 3, 4, 5, 6, 7, 8, 9, 10]);
    assert_eq!(b.palette(), vec![1, 2, 3, 4, 5, 6, 7, 8]);
    b.set_palette(&[9, 9]);
    assert_eq!(b.palette(), vec![9, 9, 3, 4, 5, 6, 7, 8]);
    b.set_palette(&[]);
    assert_eq!(b.palette(), vec![9, 9, 3, 4, 5, 6, 7, 8]);
}

#[test]
fn staged_xml_reads_back_what_was_loaded() {
    let mut b = Buffers::new();
    let doc = "<N vertical padding=\"4 2\">h\u{e9}llo</N>";
    b.load_xml(doc);
    assert_eq!(b.staged_xml(), Some(doc));
    b.load_xml("");
    assert_eq!(b.staged_xml(), Some(""));
}

#[test]
fn staged_pkg_reads_back_what_was_loaded() {
    let mut b = Buffers::new();
    let pkg = [0xffu8, 0, 1, 2, 3, 0x80];
    b.load_pkg(&pkg);
    assert_eq!(b.staged_pkg(), &pkg[..]);
    b.load_pkg(&[5]);
    assert_eq!(b.staged_pkg(), &[5u8][..]);
}

#[test]
fn reset_blanks_buffers_and_keeps_palette() {
    let mut b = Buffers::new();
    b.set_palette(&[1, 2, 3]);
    b.load_pkg(&[1, 2, 3, 4]);
    b.load_xml("<N/>");
    b.fit_framebuffer(16, 16);
    b.reset();
    assert_eq!(b.palette(), vec![1, 2, 3, 255, 220, 220, 255, 255]);
    assert_eq!(b.staged_pkg(), &[0u8][..]);
    assert_eq!(b.staged_xml(), Some("\0"));
    assert_eq!(b.framebuffer_mut().len(), 1);
}

#[test]
fn fit_framebuffer_keeps_leading_bytes_and_zero_fills() {
    let mut b = Buffers::new();
    b.fit_framebuffer(3, 3);
    assert_eq!(b.framebuffer_mut(), &mut [0u8, 0u8][..]);
    b.framebuffer_mut()[0] = 0xab;
    b.framebuffer_mut()[1] = 0xcd;
    b.fit_framebuffer(3, 3);
    assert_eq!(b.framebuffer_mut(), &mut [0xabu8, 0xcd][..]);
    b.fit_framebuffer(2, 2);
    assert_eq!(b.framebuffer_mut(), &mut [0xabu8][..]);
    b.fit_framebuffer(4, 4);
    assert_eq!(b.framebuffer_mut(), &mut [0xabu8, 0][..]);
}

#[test]
fn prepare_render_refuses_mismatched_canvas() {
    let mut b = Buffers::new();
    b.framebuffer_mut()[0] = 0x55;
    assert!(!b.prepare_render(15, 2, 2));
    assert_eq!(b.framebuffer_mut(), &mut [0x55u8][..]);
    assert!(b.prepare_render(4 * 16, 4, 4));
    assert_eq!(b.framebuffer_mut(), &mut [0x55u8, 0][..]);
}

#[test]
fn render_paints_the_whole_canvas_in_palette_colours() {
    let mut b = Buffers::new();
    b.set_palette(&BLACK_WHITE);
    let mut mem = vec![1u8; 4 * 3 * 2];
    assert!(b.prepare_render(mem.len(), 3, 2));
    b.framebuffer_mut()[0] = 0b1001_0100;
    b.paint(&mut mem, 3, 2);
    let white = &BLACK_WHITE[4..8];
    let black = &BLACK_WHITE[0..4];
    let expected: Vec<&[u8]> = vec![white, black, black, white, black, white];
    for (p, colour) in expected.iter().enumerate() {
        assert_eq!(&mem[4 * p..4 * p + 4], *colour);
    }
}

#[test]
fn render_uses_default_palette() {
    let mut b = Buffers::new();
    let mut mem = vec![0u8; 8];
    assert!(b.prepare_render(mem.len(), 2, 1));
    b.framebuffer_mut()[0] = 0b0100_0000;
    b.paint(&mut mem, 2, 1);
    assert_eq!(mem, vec![48, 48, 48, 255, 220, 220, 255, 255]);
}

#[test]
fn framebuffer_text_draws_a_double_frame() {
    let mut b = Buffers::new();
    b.fit_framebuffer(2, 2);
    assert_eq!(b.framebuffer_text(2, 2), "╔══╗\n║  ║\n╚══╝\n");
    b.framebuffer_mut()[0] = 0b1100_0000;
    assert_eq!(b.framebuffer_text(2, 2), "╔══╗\n║██║\n╚══╝\n");
}

#[test]
fn framebuffer_text_pairs_rows_in_one_character() {
    let mut b = Buffers::new();
    b.fit_framebuffer(8, 2);
    b.framebuffer_mut()[0] = 0b1000_0001;
    b.framebuffer_mut()[1] = 0b0000_0011;
    assert_eq!(b.framebuffer_text(8, 2), "╔════════╗\n║▀     ▄█║\n╚════════╝\n");
}

#[test]
fn text_or_empty_decodes_valid_utf8_only() {
    assert_eq!(text_or_empty(b"vm ok"), "vm ok");
    assert_eq!(text_or_empty("\u{2588}".as_bytes()), "\u{2588}");
    assert_eq!(text_or_empty(&[]), "");
    assert_eq!(text_or_empty(&[0x61, 0xff]), "");
}

#[test]
fn parse_command_reads_the_first_line() {
    assert_eq!(parse_command(b"vm.stp"), Command::VmRun { cycles: STEP_CYCLES });
    assert_eq!(parse_command(b"vm.run"), Command::VmRun { cycles: RUN_CYCLES });
    assert_eq!(parse_command(b"vm.run\nanything else"), Command::VmRun { cycles: 1024 });
    assert_eq!(parse_command(b"vm.stp\n"), Command::VmRun { cycles: 1 });
    assert_eq!(parse_command(b"vm.fnc"), Command::VmFunctions);
    assert_eq!(parse_command(b"vm.dis\nx"), Command::VmDisassemble);
}

#[test]
fn parse_command_hands_everything_else_to_control() {
    assert_eq!(parse_command(b""), Command::Control);
    assert_eq!(parse_command(b"vm.runs"), Command::Control);
    assert_eq!(parse_command(b"vm.ru"), Command::Control);
    assert_eq!(parse_command(b" vm.run"), Command::Control);
    assert_eq!(parse_command(b"x\nvm.run"), Command::Control);
    assert_eq!(parse_command(b"vm.run\r\n"), Command::Control);
    assert_eq!(parse_command(b"pkg.mode"), Command::Control);
    assert_eq!(parse_command(&[b'v', b'm', b'.', b'r', b'u', b'n', b'\n', 0xff]), Command::Control);
}

#[test]
fn command_reply_carries_output_only_on_success() {
    assert_eq!(command_reply(true, b"done\n"), Some(String::from("done\n")));
    assert_eq!(command_reply(true, &[]), Some(String::new()));
    assert_eq!(command_reply(true, &[0xc3]), Some(String::new()));
    assert_eq!(command_reply(false, b"done"), None);
}

#[test]
fn option_defaults() {
    assert_eq!(pkg_source(None), 1);
    assert_eq!(pkg_source(Some(2)), 2);
    assert_eq!(export_sources(None), 0b1111_1110);
    assert_eq!(export_sources(Some(1)), 1);
    assert_eq!(
        image_settings(None, None, None),
        ImageSettings { alpha: true, threshold_0: 128, threshold_1: 128 }
    );
    assert_eq!(
        image_settings(Some(false), Some(3), None),
        ImageSettings { alpha: false, threshold_0: 3, threshold_1: 128 }
    );
    assert_eq!(command_mode_code(true), 1);
    assert_eq!(command_mode_code(false), 0);
}

#[test]
fn framebuffer_text_leaves_missing_last_row_blank() {
    let mut b = Buffers::new();
    b.fit_framebuffer(9, 3);
    b.framebuffer_mut()[0] = 0xff;
    assert_eq!(
        b.framebuffer_text(9, 3),
        "╔═════════╗\n║▀▀▀▀▀▀▀▀ ║\n║         ║\n╚═════════╝\n"
    );
    assert_eq!(b.framebuffer_text(0, 0), "╔╗\n╚╝\n");
}
