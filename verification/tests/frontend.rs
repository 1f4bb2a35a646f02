//! The launcher-side logic: parsers, ROM detection, framebuffers, the
//! boot-header reader, selector navigation and glyph drawing.

use retro_launcher::automation::{
    AutomationRecorder, MemoryRange, WatchFormat, encode_hex, format_dump_lines,
    parse_number_u16, parse_number_usize, parse_range_arg, parse_watch_spec,
};
use retro_launcher::controller::axis_to_buttons;
use retro_launcher::display::{FrameBuffer, GbColor, HEIGHT, WIDTH, rgb_to_u32};
use retro_launcher::c64::C64FrameBuffer;
use retro_launcher::draw::{draw_char, draw_text, fill_rect, glyph_for};
use retro_launcher::launcher::{
    Column, Layout, Panel, SelectorState, clamp_scroll, compute_layout, is_double_click,
};
use retro_launcher::metadata::{GamecubeMetadata, MetaError, dolphin_supports_batch, shorten_text, trim_str};
use retro_launcher::metadata::dolphin_candidate_bins;
use retro_launcher::plugins::{PluginSet, push_unique};
use retro_launcher::quicksave::QuickSaveFiles;
use retro_launcher::observe::{AiAction, BOARD_LEN, GameObservation, GbButton, decide_from_roll, hold_transition};
use retro_launcher::systems::{DetectError, GameSystem, detect_system};

#[test]
fn numbers_decimal_and_hex() {
    assert_eq!(parse_number_u16("123"), Ok(123));
    assert_eq!(parse_number_u16("0x1A"), Ok(26));
    assert_eq!(parse_number_u16("0XfF"), Ok(255));
    assert_eq!(parse_number_u16("65535"), Ok(65535));
    assert_eq!(
        parse_number_u16(""),
        Err("cannot parse integer from empty string".to_string())
    );
    assert_eq!(
        parse_number_u16("0x"),
        Err("cannot parse integer from empty string".to_string())
    );
    assert_eq!(
        parse_number_u16("12a"),
        Err("invalid digit found in string".to_string())
    );
    assert_eq!(
        parse_number_u16("65536"),
        Err("number too large to fit in target type".to_string())
    );
    assert_eq!(
        parse_number_u16("0x10000"),
        Err("number too large to fit in target type".to_string())
    );
    assert_eq!(parse_number_usize("0xC0A0"), Ok(0xC0A0));
    assert_eq!(
        parse_number_usize("abc"),
        Err("invalid digit found in string".to_string())
    );
}

#[test]
fn range_arguments() {
    assert_eq!(
        parse_range_arg("0xC0A0:200"),
        Ok(MemoryRange { start: 0xC0A0, length: 200 })
    );
    assert_eq!(parse_range_arg("10"), Err("expected START:LEN".to_string()));
    assert_eq!(
        parse_range_arg("1:2:3"),
        Err("too many components; expected START:LEN".to_string())
    );
    assert_eq!(
        parse_range_arg("1:0"),
        Err("length must be greater than zero".to_string())
    );
    assert_eq!(
        parse_range_arg("zz:5"),
        Err("invalid digit found in string".to_string())
    );
}

#[test]
fn watch_arguments() {
    let w = parse_watch_spec("score:0xC200:2").unwrap();
    assert_eq!(w.name, "score");
    assert_eq!(w.start, 0xC200);
    assert_eq!(w.length, 2);
    assert_eq!(
        parse_watch_spec("  :1:2"),
        Err("watch name cannot be empty".to_string())
    );
    assert_eq!(
        parse_watch_spec("a:1"),
        Err("expected NAME:START:LEN".to_string())
    );
    assert_eq!(
        parse_watch_spec("a:1:2:3"),
        Err("too many components; expected NAME:START:LEN".to_string())
    );
    assert_eq!(
        parse_watch_spec("a:1:0"),
        Err("watch length must be greater than zero".to_string())
    );
    assert_eq!(
        parse_watch_spec("a:xx:1"),
        Err("invalid digit found in string".to_string())
    );
}

#[test]
fn hex_encoding() {
    assert_eq!(encode_hex(&[]), "");
    assert_eq!(encode_hex(&[0x0F, 0xA0, 0x00, 0xFF]), "0FA000FF");
}

#[test]
fn dump_rendering() {
    let data: Vec<u8> = (0u8..18).collect();
    let lines = format_dump_lines(0xC0A0, &data);
    assert_eq!(lines.len(), 3);
    assert_eq!(lines[0], "Dumping 18 bytes from 0xC0A0");
    assert_eq!(
        lines[1],
        "0xC0A0: 00 01 02 03 04 05 06 07 08 09 0A 0B 0C 0D 0E 0F "
    );
    assert_eq!(lines[2], "0xC0B0: 10 11 ");
    let lines = format_dump_lines(5, &[]);
    assert_eq!(lines, vec!["Dumping 0 bytes from 0x0005".to_string()]);
}

#[test]
fn recorder_needs_a_watch() {
    let err = AutomationRecorder::new(vec![], WatchFormat::Json);
    assert_eq!(err.unwrap_err(), "at least one watch must be specified");
    let w = parse_watch_spec("lines:0xC201:1").unwrap();
    let rec = AutomationRecorder::new(vec![w], WatchFormat::Json).unwrap();
    assert_eq!(rec.specs.len(), 1);
}

#[test]
fn rom_detection_by_extension() {
    assert_eq!(detect_system(Some("gb")), Ok(GameSystem::GameBoy));
    assert_eq!(detect_system(Some("GBC")), Ok(GameSystem::GameBoy));
    assert_eq!(detect_system(Some("nes")), Ok(GameSystem::Nes));
    assert_eq!(detect_system(Some("SFC")), Ok(GameSystem::Snes));
    assert_eq!(detect_system(Some("nds")), Ok(GameSystem::Nds));
    assert_eq!(detect_system(Some("cue")), Ok(GameSystem::Ps1));
    assert_eq!(detect_system(Some("exe")), Ok(GameSystem::Ps1));
    assert_eq!(detect_system(Some("z64")), Ok(GameSystem::N64));
    assert_eq!(detect_system(Some("rvz")), Ok(GameSystem::GameCube));
    assert_eq!(detect_system(Some("txt")), Err(DetectError::Unsupported));
    assert_eq!(detect_system(None), Err(DetectError::NoExtension));
    assert_eq!(GameSystem::Ps1.label(), "PlayStation");
    assert_eq!(GameSystem::GameBoy.label(), "Game Boy / Color");
}

#[test]
fn gameboy_framebuffer() {
    let mut fb = FrameBuffer::new();
    assert_eq!(fb.pixels.len(), WIDTH * HEIGHT);
    assert_eq!(fb.pixels[0], 0xFFE0_F8D0);
    fb.map_pixel(0, GbColor::Black);
    assert_eq!(fb.pixels[0], 0xFF08_1820);
    fb.cgb_map_pixel(1, 1, 2, 3);
    assert_eq!(fb.pixels[1], 0xFF01_0203);
    // Out-of-range writes are ignored, not a fault.
    fb.map_pixel(WIDTH * HEIGHT, GbColor::Black);
    fb.cgb_map_pixel(usize::MAX, 9, 9, 9);
    let bytes = fb.as_bytes();
    assert_eq!(bytes.len(), 4 * WIDTH * HEIGHT);
    assert_eq!(&bytes[0..4], &[0x20, 0x18, 0x08, 0xFF]);
    assert_eq!(rgb_to_u32(1, 2, 3), 0xFF01_0203);
}

#[test]
fn observation_and_walker() {
    let mut board = [0u8; BOARD_LEN];
    board[0] = 1;
    board[5] = 7;
    board[199] = 255;
    let obs = GameObservation { frame: 3, board, level: 1, lines: 0, next_piece: 4 };
    assert_eq!(obs.filled_cells(), 3);

    assert_eq!(decide_from_roll(0), AiAction::Left);
    assert_eq!(decide_from_roll(199_999), AiAction::Left);
    assert_eq!(decide_from_roll(200_000), AiAction::Right);
    assert_eq!(decide_from_roll(400_000), AiAction::Down);
    assert_eq!(decide_from_roll(600_000), AiAction::Idle);
    assert_eq!(decide_from_roll(999_999), AiAction::Idle);

    assert_eq!(AiAction::Idle.button(), None);
    assert_eq!(AiAction::Start.button(), Some(GbButton::Start));

    assert_eq!(
        hold_transition(Some(GbButton::Left), Some(GbButton::Left)),
        (None, None)
    );
    assert_eq!(
        hold_transition(Some(GbButton::Left), Some(GbButton::Down)),
        (Some(GbButton::Left), Some(GbButton::Down))
    );
    assert_eq!(hold_transition(None, Some(GbButton::A)), (None, Some(GbButton::A)));
    assert_eq!(hold_transition(Some(GbButton::B), None), (Some(GbButton::B), None));
}

#[test]
fn gamecube_boot_header() {
    let mut image = vec![0u8; 0x200];
    image[0..4].copy_from_slice(b"GALE");
    image[4..6].copy_from_slice(b"01");
    image[6] = 0;
    image[7] = 2;
    image[8] = 1;
    image[0x20..0x2B].copy_from_slice(b"Hello World");
    let meta = GamecubeMetadata::parse(&image).unwrap();
    assert_eq!(meta.game_code, "GALE");
    assert_eq!(meta.maker_code, "01");
    assert_eq!(meta.disc_number, 0);
    assert_eq!(meta.version, 2);
    assert!(meta.streaming);
    assert_eq!(meta.title, "Hello World");

    // A blank title falls back to the placeholder.
    let blank = vec![0u8; 0x60];
    let meta = GamecubeMetadata::parse(&blank).unwrap();
    assert_eq!(meta.title, "Unknown Title");
    assert_eq!(meta.game_code, "");

    let short = vec![0u8; 0x5F];
    assert!(matches!(
        GamecubeMetadata::parse(&short),
        Err(MetaError::MissingBootHeader)
    ));
    assert_eq!(
        MetaError::MissingBootHeader.message(),
        "GameCube image is missing the boot header"
    );
}

#[test]
fn text_helpers() {
    assert_eq!(trim_str("  padded title\t\n"), "padded title");
    assert_eq!(trim_str(""), "");
    assert_eq!(trim_str(" \u{a0} "), "");
    assert_eq!(shorten_text("hello", 10), "hello");
    assert_eq!(shorten_text("abcdefghijk", 8), "abcde...");
    assert_eq!(dolphin_supports_batch(None), true);
    assert_eq!(dolphin_supports_batch(Some("dolphin-emu")), true);
    assert_eq!(dolphin_supports_batch(Some("dolphin-emu-NOGUI")), false);
    assert_eq!(dolphin_supports_batch(Some("Dolphin-Emu-NoGui.exe")), false);
}

#[test]
fn selector_geometry() {
    let layout = compute_layout(960, 640);
    assert_eq!(
        layout.consoles,
        Panel { x: 24, y: 24, width: 280, height: 538 }
    );
    assert_eq!(layout.games.x, 328);
    assert_eq!(layout.games.width, 608);
    assert_eq!(layout.games.height, 538);
    assert_eq!(layout.visible_rows, 18);
    assert_eq!(layout.footer_top, 598);

    let panel = Panel { x: 10, y: 20, width: 100, height: 200 };
    assert!(panel.contains((10, 20)));
    assert!(panel.contains((109, 219)));
    assert!(!panel.contains((110, 20)));
    assert!(!panel.contains((9, 20)));

    let l = Layout { consoles: panel, games: panel, visible_rows: 5, footer_top: 0 };
    assert_eq!(l.row_index(20, panel), None);
    assert_eq!(l.row_index(54, panel), Some(0));
    assert_eq!(l.row_index(54 + 28, panel), Some(1));
    assert_eq!(l.row_index(220, panel), None);
}

#[test]
fn scroll_clamping() {
    // A short list never scrolls.
    assert_eq!(clamp_scroll(3, 1, 4, 10), 0);
    // Selection above the window scrolls up to it.
    assert_eq!(clamp_scroll(5, 2, 20, 5), 2);
    // Selection below the window scrolls just enough.
    assert_eq!(clamp_scroll(0, 7, 20, 5), 3);
    // In-window selection keeps the scroll.
    assert_eq!(clamp_scroll(2, 4, 20, 5), 2);
    // Never past the end of the list.
    assert_eq!(clamp_scroll(19, 19, 20, 5), 15);
}

#[test]
fn selector_navigation() {
    let mut s = SelectorState::new();
    assert_eq!(s.active_column, Column::Systems);
    s.move_selection(1, 3, 10);
    assert_eq!(s.system_index, 1);
    assert_eq!(s.game_index, 0);
    s.move_selection(10, 3, 10);
    assert_eq!(s.system_index, 2);
    s.move_selection(-10, 3, 10);
    assert_eq!(s.system_index, 0);
    s.activate_games_column(10);
    assert_eq!(s.active_column, Column::Games);
    s.move_selection(4, 3, 10);
    assert_eq!(s.game_index, 4);
    s.move_to_edge(true, 3, 10);
    assert_eq!(s.game_index, 9);
    s.move_to_edge(false, 3, 10);
    assert_eq!(s.game_index, 0);
    // An empty games list cannot take focus.
    let mut s = SelectorState::new();
    s.activate_games_column(0);
    assert_eq!(s.active_column, Column::Systems);
}

#[test]
fn selector_paging() {
    let mut s = SelectorState::new();
    s.page_move(1, 18, 100, 0);
    assert_eq!(s.system_index, 18);
    s.page_move(-1, 18, 100, 0);
    assert_eq!(s.system_index, 0);
    s.page_move(-1, 18, 100, 0);
    assert_eq!(s.system_index, 0);
    s.page_move(1, 0, 100, 0);
    assert_eq!(s.system_index, 1);
}

#[test]
fn quick_save_names() {
    let q = QuickSaveFiles::new(Some("manic"));
    assert_eq!(q.latest, "manic.zx.last.sna");
    assert_eq!(q.previous, "manic.zx.prev.sna");
    let q = QuickSaveFiles::new(Some(""));
    assert_eq!(q.latest, "zx-spectrum.zx.last.sna");
    let q = QuickSaveFiles::new(None);
    assert_eq!(q.previous, "zx-spectrum.zx.prev.sna");
}

#[test]
fn plugin_bookkeeping() {
    let set = PluginSet {
        video: "v.so".to_string(),
        audio: "a.so".to_string(),
        input: "i.so".to_string(),
        rsp: "r.so".to_string(),
    };
    let ordered = set.ordered();
    assert_eq!(ordered[0], ("video", &set.video));
    assert_eq!(ordered[3], ("RSP", &set.rsp));

    let mut dirs: Vec<String> = Vec::new();
    push_unique(&mut dirs, "/usr/lib".to_string());
    push_unique(&mut dirs, "/opt".to_string());
    push_unique(&mut dirs, "/usr/lib".to_string());
    assert_eq!(dirs, vec!["/usr/lib".to_string(), "/opt".to_string()]);
}

#[test]
fn dolphin_binary_candidates() {
    assert_eq!(
        dolphin_candidate_bins(),
        vec!["dolphin-emu-nogui", "dolphin-emu", "dolphin", "Dolphin", "Dolphin.exe"]
    );
}

#[test]
fn double_click_detection() {
    assert!(!is_double_click(None, 3, 1000, 350));
    assert!(is_double_click(Some((3, 800)), 3, 1000, 350));
    assert!(!is_double_click(Some((2, 800)), 3, 1000, 350));
    assert!(!is_double_click(Some((3, 400)), 3, 1000, 350));
}

#[test]
fn glyphs_and_drawing() {
    // The font table hands back real, distinct bitmaps.
    let a = glyph_for('A');
    let b = glyph_for('B');
    assert_ne!(a, [0u8; 8]);
    assert_ne!(a, b);
    // Characters outside the basic range fall back to the question mark.
    assert_eq!(glyph_for('\u{1F600}'), glyph_for('?'));

    let mut fb = vec![0u32; 16 * 16];
    fill_rect(&mut fb, 16, 16, 1, 2, 3, 2, 7);
    for j in 0..16usize {
        for i in 0..16usize {
            let expected = if (1..4).contains(&i) && (2..4).contains(&j) { 7 } else { 0 };
            assert_eq!(fb[j * 16 + i], expected);
        }
    }

    let mut fb = vec![0u32; 16 * 16];
    draw_char(&mut fb, 16, 16, 0, 0, 'A', 9);
    for row in 0..8usize {
        for col in 0..8usize {
            let lit = (a[row] >> col) & 1 == 1;
            assert_eq!(fb[row * 16 + col], if lit { 9 } else { 0 });
        }
    }
    // Clipping: drawing at the right edge touches nothing outside.
    let mut fb = vec![0u32; 16 * 16];
    draw_char(&mut fb, 16, 16, 12, 12, 'A', 9);
    for j in 0..12usize {
        for i in 0..16usize {
            assert_eq!(fb[j * 16 + i], 0);
        }
    }
}

#[test]
fn text_layout_and_newlines() {
    let a = glyph_for('A');
    let b = glyph_for('B');
    let c = glyph_for('C');
    let mut fb = vec![0u32; 32 * 32];
    draw_text(&mut fb, 32, 32, 0, 0, "AB\nC", 5);
    for row in 0..8usize {
        for col in 0..8usize {
            assert_eq!(fb[row * 32 + col] == 5, (a[row] >> col) & 1 == 1);
            assert_eq!(fb[row * 32 + col + 8] == 5, (b[row] >> col) & 1 == 1);
            assert_eq!(fb[(row + 10) * 32 + col] == 5, (c[row] >> col) & 1 == 1);
        }
    }
}

#[test]
fn c64_framebuffer_palette() {
    let mut fb = C64FrameBuffer::new(4, 2);
    assert_eq!(fb.get_dimension(), (4, 2));
    assert_eq!(fb.pixels().len(), 8);
    fb.write(0, 1);
    assert_eq!(fb.pixels()[0], 0xFFFFFFFF);
    fb.write(1, 17);
    assert_eq!(fb.pixels()[1], 0xFFFFFFFF);
    fb.write(7, 2);
    assert_eq!(fb.pixels()[7], 0x68372BFF);
    // Out-of-range writes are ignored.
    fb.write(8, 3);
    fb.reset();
    assert_eq!(fb.pixels(), &vec![0u32; 8]);
}

#[test]
fn stick_directions() {
    let r = axis_to_buttons(0, 0);
    assert!(!r.left && !r.right && !r.up && !r.down);
    let r = axis_to_buttons(-9_000, 9_000);
    assert!(r.left && !r.right && !r.up && r.down);
    let r = axis_to_buttons(9_000, -9_000);
    assert!(!r.left && r.right && r.up && !r.down);
    let r = axis_to_buttons(-8_999, 8_999);
    assert!(!r.left && !r.right && !r.up && !r.down);
}
