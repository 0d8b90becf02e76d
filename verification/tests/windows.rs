use xue_hua_app_badge::platform::pixels::{downsample_2x, ink_bounds, mask_from_alpha};
use xue_hua_app_badge::platform::utf16::windows_string;
use xue_hua_app_badge::platform::win_impl::{
    self, badge_icon_size, resolve_dpi, resolve_hwnd, taskbar_state, OverlayCommand, OverlaySlot,
    TaskbarSetup, WindowSource,
};

fn bitmap(size: usize) -> Vec<u8> {
    vec![0u8; size * size * 4]
}

fn put(bits: &mut [u8], size: usize, x: usize, y: usize, bgra: [u8; 4]) {
    let i = (y * size + x) * 4;
    bits[i..i + 4].copy_from_slice(&bgra);
}

#[test]
fn overlay_command_for_counts() {
    assert!(matches!(win_impl::set_badge(0, 5), Ok(OverlayCommand::Clear)));
    match win_impl::set_badge(7, 5) {
        Ok(OverlayCommand::Show { label }) => assert_eq!(label, "7"),
        _ => panic!("expected an overlay"),
    }
    match win_impl::set_badge(250, 5) {
        Ok(OverlayCommand::Show { label }) => assert_eq!(label, "99"),
        _ => panic!("expected an overlay"),
    }
    assert!(matches!(win_impl::set_badge(3, 0), Err(e) if e == "No valid window handle found"));
}

#[test]
fn window_handle_resolution() {
    assert_eq!(resolve_hwnd(None), Ok(WindowSource::Active));
    assert_eq!(resolve_hwnd(Some(42)), Ok(WindowSource::Given(42)));
    assert_eq!(resolve_hwnd(Some(0)).unwrap_err(), "Provided window handle is null");
    assert_eq!(win_impl::request_badge_permission(), Ok(true));
    assert_eq!(win_impl::is_badge_permission_granted(), Ok(true));
}

#[test]
fn taskbar_state_outcomes() {
    let mut setup = TaskbarSetup::new();
    assert!(setup.needs_creation());
    assert_eq!(taskbar_state(&setup).unwrap_err(), "Taskbar init failed");
    setup.record_creation(Ok(()));
    assert!(!setup.needs_creation());
    assert_eq!(taskbar_state(&setup), Ok(()));
    setup.record_creation(Err("late".to_string()));
    assert_eq!(taskbar_state(&setup), Ok(()));

    let err = "CoCreateInstance(TaskbarList) failed: x".to_string();
    let mut failed = TaskbarSetup::new();
    failed.record_creation(Err(err.clone()));
    assert_eq!(taskbar_state(&failed), Err(err.clone()));
    failed.record_creation(Ok(()));
    assert!(!failed.needs_creation());
    assert_eq!(taskbar_state(&failed), Err(err));
}

#[test]
fn dpi_and_icon_size() {
    assert_eq!(resolve_dpi(144, 0), 144);
    assert_eq!(resolve_dpi(0, 120), 120);
    assert_eq!(resolve_dpi(0, 0), 96);
    let s = badge_icon_size(16, 96);
    assert_eq!((s.size, s.render, s.font_height), (32, 64, 44));
    let s = badge_icon_size(24, 288);
    assert_eq!((s.size, s.render, s.font_height), (48, 96, 66));
    let s = badge_icon_size(20, 600);
    assert_eq!((s.size, s.render, s.font_height), (100, 200, 137));
    let s = badge_icon_size(40, 96);
    assert_eq!((s.size, s.render, s.font_height), (40, 80, 55));
}

#[test]
fn overlay_slot_hands_back_replaced_icons() {
    let mut slot = OverlaySlot::new();
    assert_eq!(slot.apply_overlay(10), None);
    assert_eq!(slot.apply_overlay(11), Some(10));
    assert_eq!(slot.clear_overlay(), Some(11));
    assert_eq!(slot.clear_overlay(), None);
}

#[test]
fn windows_string_is_nul_terminated_utf16() {
    assert_eq!(windows_string(""), vec![0]);
    assert_eq!(windows_string("Segoe UI"), "Segoe UI".encode_utf16().chain(Some(0)).collect::<Vec<u16>>());
    for text in ["99+", "é€𝄞", "a\u{10FFFF}b"] {
        let expected: Vec<u16> = text.encode_utf16().chain(std::iter::once(0)).collect();
        assert_eq!(windows_string(text), expected);
    }
}

#[test]
fn ink_bounds_finds_the_glyph() {
    let size = 6;
    let mut bits = bitmap(size);
    assert_eq!(ink_bounds(&bits, size as i32), None);
    put(&mut bits, size, 2, 1, [0, 200, 0, 0]);
    put(&mut bits, size, 4, 3, [30, 0, 0, 0]);
    put(&mut bits, size, 1, 4, [21, 0, 0, 0]);
    put(&mut bits, size, 5, 5, [20, 20, 255, 255]);
    assert_eq!(ink_bounds(&bits, size as i32), Some((1, 1, 4, 4)));
    assert_eq!(ink_bounds(&[], 0), None);
}

#[test]
fn downsample_averages_blocks() {
    let size = 4;
    let mut bits = bitmap(size);
    put(&mut bits, size, 0, 0, [4, 8, 12, 255]);
    put(&mut bits, size, 1, 0, [0, 8, 0, 255]);
    put(&mut bits, size, 0, 1, [0, 0, 0, 255]);
    put(&mut bits, size, 1, 1, [3, 0, 0, 254]);
    put(&mut bits, size, 3, 3, [255, 255, 255, 255]);
    let out = downsample_2x(&bits, size as i32, 2);
    assert_eq!(out.len(), 16);
    assert_eq!(&out[0..4], &[1, 4, 3, 254]);
    assert_eq!(&out[4..8], &[0, 0, 0, 0]);
    assert_eq!(&out[12..16], &[63, 63, 63, 63]);
    let flat = vec![77u8; 8 * 8 * 4];
    assert!(downsample_2x(&flat, 8, 4).iter().all(|b| *b == 77));
    assert_eq!(downsample_2x(&bits, size as i32, 1), vec![1, 4, 3, 254]);
}

#[test]
fn mask_marks_transparent_pixels() {
    let width = 10;
    let height = 2;
    let mut bits = vec![255u8; width * height * 4];
    bits[(0 * width + 0) * 4 + 3] = 0;
    bits[(0 * width + 9) * 4 + 3] = 0;
    bits[(1 * width + 3) * 4 + 3] = 0;
    let mask = mask_from_alpha(&bits, width as i32, height as i32);
    assert_eq!(mask, vec![0x80, 0x40, 0x10, 0x00]);
    let clear = vec![0u8; 3 * 1 * 4];
    assert_eq!(mask_from_alpha(&clear, 3, 1), vec![0xE0, 0x00]);
    assert_eq!(mask_from_alpha(&[], 0, 0), Vec::<u8>::new());
}
