use nexustui::layout::{centered_rect, screen_layout, Area};
use nexustui::picker::FilePickerState;
use nexustui::view::{
    device_rows, input_line, log_rows, log_tone_of, message_panel_title, message_rows,
    message_tone_of, popup, Tone,
};
use ratatui::layout::{Constraint, Direction, Layout, Rect};

fn original_centered_rect(percent_x: u16, percent_y: u16, r: Rect) -> Rect {
    let popup_layout = Layout::default()
        .direction(Direction::Vertical)
        .constraints([
            Constraint::Percentage((100 - percent_y) / 2),
            Constraint::Percentage(percent_y),
            Constraint::Percentage((100 - percent_y) / 2),
        ])
        .split(r);
    Layout::default()
        .direction(Direction::Horizontal)
        .constraints([
            Constraint::Percentage((100 - percent_x) / 2),
            Constraint::Percentage(percent_x),
            Constraint::Percentage((100 - percent_x) / 2),
        ])
        .split(popup_layout[1])[1]
}

#[test]
fn popup_is_centred_like_ratatui_lays_it_out() {
    for (w, h) in [(120u16, 40u16), (80, 24), (33, 7), (0, 0)] {
        for (px, py) in [(60u16, 45u16), (65, 55)] {
            let got = centered_rect(px, py, Area { x: 0, y: 0, width: w, height: h });
            let want = original_centered_rect(px, py, Rect::new(0, 0, w, h));
            assert_eq!((got.x, got.y, got.width, got.height), (want.x, want.y, want.width, want.height));
        }
    }
}

#[test]
fn device_rows_mark_the_selection() {
    let devices = vec!["a".to_string(), "b".to_string()];
    let rows = device_rows(&devices, 1);
    assert_eq!(rows.len(), 2);
    assert_eq!((rows[0].prefix.as_str(), rows[0].text.as_str(), rows[0].tone), ("   ", "a", Tone::Cyan));
    assert_eq!((rows[1].prefix.as_str(), rows[1].text.as_str(), rows[1].tone), (" ▶ ", "b", Tone::CyanHighlighted));
    let empty = device_rows(&vec![], 0);
    assert_eq!(empty.len(), 1);
    assert_eq!(empty[0].text, " (Cihaz bekleniyor...)");
    assert_eq!(empty[0].tone, Tone::DarkGray);
}

#[test]
fn message_tones_and_scrolling() {
    assert_eq!(message_tone_of("[PANO] copied"), Tone::YellowBold);
    assert_eq!(message_tone_of("PANO: x"), Tone::YellowBold);
    assert_eq!(message_tone_of("[SISTEM] x"), Tone::MagentaBold);
    assert_eq!(message_tone_of("hi"), Tone::White);
    let msgs: Vec<String> = ["1", "2", "3"].iter().map(|s| s.to_string()).collect();
    let rows = message_rows(&msgs, 1);
    assert_eq!(rows.iter().map(|r| r.text.as_str()).collect::<Vec<_>>(), vec!["2", "3"]);
    assert!(message_rows(&msgs, 3).is_empty());
    assert_eq!(message_panel_title(12), " 💬 Canlı Akış & Pano [PgUp/PgDn: 12] ");
}

#[test]
fn log_shows_latest_six_with_tones() {
    assert_eq!(log_tone_of("❌ [ERROR]: x"), Tone::RedBold);
    assert_eq!(log_tone_of("some ERROR"), Tone::RedBold);
    assert_eq!(log_tone_of("⚠️ [SCRCPY]: w"), Tone::Yellow);
    assert_eq!(log_tone_of("✅ [COMPLETED]"), Tone::GreenBold);
    assert_eq!(log_tone_of("ℹ️ info"), Tone::Cyan);
    let lines: Vec<String> = (0..9).map(|i| format!("line {}", i)).collect();
    let rows = log_rows(&lines);
    assert_eq!(rows.len(), 6);
    assert_eq!(rows[0].text, "line 3");
    assert_eq!(rows[5].text, "line 8");
    let calm = log_rows(&vec![]);
    assert_eq!(calm[0].text, " ✔️ Sistem stabil, aktif hata yok.");
    assert_eq!(input_line("abc"), " > abc");
}

#[test]
fn popups_list_menu_entries() {
    assert!(popup(&FilePickerState::Closed).is_none());
    let folder = popup(&FilePickerState::FolderMenu).unwrap();
    assert_eq!((folder.percent_x, folder.percent_y, folder.frame), (60, 45, Tone::MagentaBold));
    assert_eq!(folder.rows.len(), 6);
    assert_eq!(folder.rows[4].text, "");
    let files = popup(&FilePickerState::FileMenu {
        folder_name: "Pictures".to_string(),
        files: vec![("a.png (3 KB)".to_string(), "/p/a.png".to_string())],
    })
    .unwrap();
    assert_eq!(files.title, " 📁 Pictures -> Telefona Gönder [1-9] ");
    assert_eq!(files.rows[0].text, " [1] 📄 a.png (3 KB)");
    assert_eq!(files.rows.len(), 3);
    let phone = popup(&FilePickerState::ReceiveMenu { files: (0..12).map(|i| format!("f{}", i)).collect() }).unwrap();
    assert_eq!(phone.rows[11].text, " [12] 📱 f11");
    assert_eq!(phone.rows[11].tone, Tone::LightBlueBold);
    let empty = popup(&FilePickerState::ReceiveMenu { files: vec![] }).unwrap();
    assert_eq!(empty.rows[0].text, " (Telefonda dosya bulunamadı)");
}

#[test]
fn popup_lies_within_the_screen() {
    for (x, y, w, h) in [(0u16, 0u16, 120u16, 40u16), (10, 5, 80, 24), (65000, 65000, 1000, 1000), (3, 4, 1, 1)] {
        let r = Area { x, y, width: w, height: h };
        let m = centered_rect(65, 55, r);
        let right = (x as u32 + w as u32).min(0xffff);
        let bottom = (y as u32 + h as u32).min(0xffff);
        assert!(m.x >= x && m.x as u32 + m.width as u32 <= right, "{:?} in {:?}", m, r);
        assert!(m.y >= y && m.y as u32 + m.height as u32 <= bottom, "{:?} in {:?}", m, r);
    }
}

fn far(start: u16, size: u16) -> i64 {
    (start as i64 + size as i64).min(0xffff)
}

fn near(part_start: u16, part_size: u16, start: u16, extent: i64, before: i64, share: i64) -> bool {
    let off = 100 * (part_start as i64 - start as i64) - extent * before;
    let size = 100 * part_size as i64 - extent * share;
    (-100..=100).contains(&off) && (-100..=100).contains(&size)
}

#[test]
fn percentage_splits_stay_within_a_cell_of_their_shares() {
    let share_sets: [&[u16]; 7] = [
        &[20, 60, 20],
        &[17, 65, 17],
        &[22, 55, 22],
        &[35, 65],
        &[60, 40],
        &[33, 33, 33],
        &[10, 0, 45, 5],
    ];
    let mut sizes: Vec<(u16, u16)> = (0..200u16).map(|n| (3 * n % 17, n)).collect();
    sizes.extend([(65000u16, 1000u16), (0, 65535), (1, 65535), (100, 999)]);
    for shares in share_sets {
        for &(start, size) in &sizes {
            for vertical in [true, false] {
                let area = if vertical { Rect::new(0, 0, 5, 5) } else { Rect::new(0, 0, 5, 5) };
                let area = if vertical {
                    Rect { y: start, height: size, ..area }
                } else {
                    Rect { x: start, width: size, ..area }
                };
                let parts = Layout::default()
                    .direction(if vertical { Direction::Vertical } else { Direction::Horizontal })
                    .constraints(shares.iter().map(|p| Constraint::Percentage(*p)))
                    .split(area);
                let extent = far(start, size) - start as i64;
                let mut before = 0i64;
                for (i, part) in parts.iter().enumerate() {
                    let (ps, pz) = if vertical { (part.y, part.height) } else { (part.x, part.width) };
                    assert!(
                        near(ps, pz, start, extent, before, shares[i] as i64),
                        "{:?} of {:?} at {} {}: {:?}",
                        shares,
                        area,
                        i,
                        vertical,
                        part
                    );
                    before += shares[i] as i64;
                }
            }
        }
    }
}

#[test]
fn popup_takes_its_share_of_the_screen() {
    for w in (0..260u16).step_by(7) {
        for h in (0..120u16).step_by(5) {
            for (px, py) in [(60u16, 45u16), (65, 55)] {
                let r = Area { x: 2, y: 1, width: w, height: h };
                let m = centered_rect(px, py, r);
                let we = far(2, w) - 2;
                let he = far(1, h) - 1;
                assert!(near(m.x, m.width, 2, we, ((100 - px) / 2) as i64, px as i64), "{:?} {:?}", r, m);
                assert!(near(m.y, m.height, 1, he, ((100 - py) / 2) as i64, py as i64), "{:?} {:?}", r, m);
            }
        }
    }
}

fn original_screen(size: Rect) -> Vec<Rect> {
    let chunks = Layout::default()
        .direction(Direction::Vertical)
        .constraints([Constraint::Length(3), Constraint::Min(10), Constraint::Length(3), Constraint::Length(1)])
        .split(size);
    let body = Layout::default()
        .direction(Direction::Horizontal)
        .constraints([Constraint::Percentage(35), Constraint::Percentage(65)])
        .split(chunks[1]);
    let right = Layout::default()
        .direction(Direction::Vertical)
        .constraints([Constraint::Percentage(60), Constraint::Percentage(40)])
        .split(body[1]);
    vec![chunks[0], body[0], right[0], right[1], chunks[2], chunks[3]]
}

#[test]
fn screen_panels_match_the_original_layout() {
    for (w, h) in [(120u16, 40u16), (80, 24), (200, 60), (20, 10), (0, 0)] {
        let s = screen_layout(Area { x: 0, y: 0, width: w, height: h });
        let got: Vec<(u16, u16, u16, u16)> = [s.header, s.devices, s.messages, s.log, s.input, s.shortcuts]
            .iter()
            .map(|a| (a.x, a.y, a.width, a.height))
            .collect();
        let want: Vec<(u16, u16, u16, u16)> = original_screen(Rect::new(0, 0, w, h))
            .iter()
            .map(|r| (r.x, r.y, r.width, r.height))
            .collect();
        assert_eq!(got, want);
    }
}

fn cell(v: i64) -> i64 {
    (2 * v + 101).div_euclid(200)
}

fn exact(part_start: u16, part_size: u16, start: u16, extent: i64, before: i64, share: i64) -> bool {
    let a = cell(100 * start as i64 + extent * before);
    let b = cell(100 * start as i64 + extent * (before + share));
    part_start as i64 == a && part_size as i64 == b - a
}

fn split_along(area: Rect, vertical: bool, constraints: Vec<Constraint>) -> Vec<(u16, u16)> {
    Layout::default()
        .direction(if vertical { Direction::Vertical } else { Direction::Horizontal })
        .constraints(constraints)
        .split(area)
        .iter()
        .map(|r| if vertical { (r.y, r.height) } else { (r.x, r.width) })
        .collect()
}

#[test]
fn percentage_splits_land_on_their_rounded_shares() {
    let share_sets: [&[u16]; 9] = [
        &[20, 60, 20],
        &[17, 65, 17],
        &[22, 55, 22],
        &[35, 65],
        &[60, 40],
        &[33, 33, 33],
        &[10, 0, 45, 5],
        &[1, 1, 1, 97],
        &[50],
    ];
    let mut sizes: Vec<(u16, u16)> = (0..400u16).map(|n| (7 * n % 23, n)).collect();
    sizes.extend([(65000u16, 1000u16), (0, 65535), (1, 65535), (100, 999), (30000, 35535)]);
    for shares in share_sets {
        for &(start, size) in &sizes {
            for vertical in [true, false] {
                let area = if vertical {
                    Rect { x: 0, y: start, width: 5, height: size }
                } else {
                    Rect { x: start, y: 0, width: size, height: 5 }
                };
                let parts = split_along(area, vertical, shares.iter().map(|p| Constraint::Percentage(*p)).collect());
                let extent = far(start, size) - start as i64;
                let mut before = 0i64;
                for (i, &(ps, pz)) in parts.iter().enumerate() {
                    assert!(exact(ps, pz, start, extent, before, shares[i] as i64), "{:?} of {:?} part {}", shares, area, i);
                    before += shares[i] as i64;
                }
            }
        }
    }
}

#[test]
fn fixed_lengths_around_one_minimum_are_exact() {
    let rule_sets: [&[(bool, u16)]; 5] = [
        &[(true, 3), (false, 10), (true, 3), (true, 1)],
        &[(false, 0), (true, 5)],
        &[(true, 2), (true, 2), (false, 4)],
        &[(false, 1)],
        &[(true, 0), (false, 7), (true, 9)],
    ];
    for rules in rule_sets {
        let need: i64 = rules.iter().map(|&(_, n)| n as i64).sum();
        let fixed: i64 = rules.iter().filter(|r| r.0).map(|&(_, n)| n as i64).sum();
        for (start, size) in (0..300u16).map(|n| (n % 11, n)).chain([(65000u16, 535u16), (0, 65535), (9, 65535)]) {
            for vertical in [true, false] {
                let extent = far(start, size) - start as i64;
                if extent < need {
                    continue;
                }
                let area = if vertical {
                    Rect { x: 0, y: start, width: 5, height: size }
                } else {
                    Rect { x: start, y: 0, width: size, height: 5 }
                };
                let constraints =
                    rules.iter().map(|&(len, n)| if len { Constraint::Length(n) } else { Constraint::Min(n) }).collect();
                let parts = split_along(area, vertical, constraints);
                let mut at = start as i64;
                for (i, &(ps, pz)) in parts.iter().enumerate() {
                    let want = if rules[i].0 { rules[i].1 as i64 } else { extent - fixed };
                    assert_eq!((ps as i64, pz as i64), (at, want), "{:?} of {:?} part {}", rules, area, i);
                    at += want;
                }
            }
        }
    }
}

#[test]
fn screen_rows_on_tall_screens() {
    for h in 17..200u16 {
        for w in [40u16, 133] {
            let s = screen_layout(Area { x: 0, y: 0, width: w, height: h });
            assert_eq!((s.header.y, s.header.height), (0, 3));
            assert_eq!((s.devices.y, s.devices.height), (3, h - 7));
            assert_eq!((s.input.y, s.input.height), (h - 4, 3));
            assert_eq!((s.shortcuts.y, s.shortcuts.height), (h - 1, 1));
            let want = original_screen(Rect::new(0, 0, w, h));
            assert_eq!((s.log.y, s.log.height, s.messages.width), (want[3].y, want[3].height, want[2].width));
        }
    }
}
