use spotify_tui::grid::{grid_cell, grid_layout, pad, GridItem};
use spotify_tui::state::Section;
use spotify_tui::text::{
    format_clock, list_page_size, paginate, section_label, truncate, wheel_cursor, wheel_hue,
};

#[test]
fn app_paginate_uses_selected_page() {
    let (_start, _end, page, pages) = paginate(20, 16, 5);
    assert_eq!(page, 4);
    assert_eq!(pages, 4);
}

#[test]
fn app_list_page_size_minimum() {
    assert_eq!(list_page_size(0), 5);
    assert_eq!(list_page_size(4), 5);
}

#[test]
fn text_paginate_uses_selected_page() {
    let (_start, _end, page, pages) = paginate(20, 16, 5);
    assert_eq!(page, 4);
    assert_eq!(pages, 4);
}

#[test]
fn text_list_page_size_minimum() {
    assert_eq!(list_page_size(0), 5);
    assert_eq!(list_page_size(4), 5);
}

#[test]
fn truncate_handles_multibyte_characters() {
    let title = "2000'S NAIJA HITS 🇳🇬🇳🇬";
    let got = truncate(title, 21);
    assert_eq!(got, "2000'S NAIJA HITS 🇳🇬…");
}

#[test]
fn paginate_window_around_selection() {
    assert_eq!(paginate(0, 3, 5), (0, 0, 0, 0));
    assert_eq!(paginate(20, 16, 5), (12, 17, 4, 4));
    assert_eq!(paginate(7, 2, 5), (0, 5, 1, 2));
    // a selection past the end is clamped to the last entry
    assert_eq!(paginate(7, 100, 5), (2, 7, 2, 2));
    // a page size of zero shows everything on one page
    assert_eq!(paginate(7, 3, 0), (0, 7, 1, 1));
}

#[test]
fn list_page_size_tall_panels() {
    assert_eq!(list_page_size(11), 5);
    assert_eq!(list_page_size(12), 6);
    assert_eq!(list_page_size(40), 34);
}

#[test]
fn truncate_edges() {
    assert_eq!(truncate("hello", 0), "");
    assert_eq!(truncate("hello", 1), "…");
    assert_eq!(truncate("hello", 5), "hello");
    assert_eq!(truncate("hello", 4), "hel…");
    assert_eq!(truncate("", 3), "");
}

#[test]
fn section_labels() {
    assert_eq!(section_label(Section::NowPlaying), "now playing");
    assert_eq!(section_label(Section::PlaylistTracks), "playlist tracks");
    assert_eq!(section_label(Section::Auth), "auth");
}

#[test]
fn clock_format() {
    assert_eq!(format_clock(0), "0:00");
    assert_eq!(format_clock(65), "1:05");
    assert_eq!(format_clock(600), "10:00");
    assert_eq!(format_clock(3599), "59:59");
}

#[test]
fn pad_fills_and_cuts() {
    assert_eq!(pad("ab", 4), "ab  ");
    assert_eq!(pad("abcdef", 4), "abc…");
    assert_eq!(pad("abcd", 4), "abcd");
}

#[test]
fn grid_layout_columns_and_pages() {
    let l = grid_layout(10, 0, 100, 20);
    assert_eq!(l.cols, 3);
    // 14 rows of list space make 4 grid rows of 3 cells: 12 per page
    assert_eq!((l.start, l.end, l.page, l.pages), (0, 10, 1, 1));
    assert_eq!(l.used_rows, 4);
    assert_eq!(l.cell_width, (100 - 6) / 3);
    let narrow = grid_layout(10, 9, 40, 12);
    assert_eq!(narrow.cols, 1);
    assert_eq!(narrow.cell_width, 38);
    assert_eq!((narrow.start, narrow.end, narrow.page, narrow.pages), (8, 10, 5, 5));
}

#[test]
fn grid_cell_text() {
    let item = GridItem {
        title: "My Mix".to_string(),
        subtitle: "12 Tracks".to_string(),
        meta: "Playlist".to_string(),
    };
    let (title, detail) = grid_cell(&item, true, 20);
    assert_eq!(title, "▸ my mix            ");
    assert_eq!(detail, "12 tracks | playlist");
    let (title, _) = grid_cell(&item, false, 20);
    assert!(title.starts_with("  my mix"));
}

#[test]
fn wheel_positions() {
    assert_eq!(wheel_cursor(10, 0), (24, 0));
    assert_eq!(wheel_cursor(36, 359), (36, 35));
    assert_eq!(wheel_cursor(36, 180), (36, 18));
    assert_eq!(wheel_hue(0, 24), 0);
    assert_eq!(wheel_hue(12, 24), 180);
    assert_eq!(wheel_hue(23, 24), 345);
}
