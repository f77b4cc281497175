//! Text helpers used by the interface: pagination, truncation and padding.

use vstd::prelude::*;

use crate::state::Section;
use crate::strs::{decimal, push_decimal};

verus! {

/// The name of a section, as the interface shows it.
pub open spec fn section_label_spec(section: Section) -> Seq<char> {
    match section {
        Section::NowPlaying => "now playing"@,
        Section::Playlists => "playlists"@,
        Section::Queue => "queue"@,
        Section::Liked => "liked"@,
        Section::Search => "search"@,
        Section::Devices => "devices"@,
        Section::PlaylistTracks => "playlist tracks"@,
        Section::Setup => "setup"@,
        Section::Help => "help"@,
        Section::Auth => "auth"@,
    }
}

/// The name of a section, as the interface shows it.
pub fn section_label(section: Section) -> (r: &'static str)
    ensures
        r@ == section_label_spec(section),
{
    match section {
        Section::NowPlaying => "now playing",
        Section::Playlists => "playlists",
        Section::Queue => "queue",
        Section::Liked => "liked",
        Section::Search => "search",
        Section::Devices => "devices",
        Section::PlaylistTracks => "playlist tracks",
        Section::Setup => "setup",
        Section::Help => "help",
        Section::Auth => "auth",
    }
}

/// The number of characters of `s`, as a `usize`.
pub fn char_count(s: &str) -> (n: usize)
    ensures
        n == s@.len(),
{
    s.unicode_len()
}

/// The window of a list that holds `selected`, as `(start, end, page, pages)`.
pub open spec fn paginate_spec(total: usize, selected: usize, page_size: usize) -> (usize, usize, usize, usize) {
    if total == 0 {
        (0, 0, 0, 0)
    } else {
        let ps = if page_size == 0 { total } else { page_size };
        let sel = if selected < total { selected } else { (total - 1) as usize };
        let start: usize = if sel >= ps { (sel - ps + 1) as usize } else { 0 };
        let end: usize = if start + ps < total { (start + ps) as usize } else { total };
        let pages: usize = (total / ps + if total % ps == 0 { 0int } else { 1int }) as usize;
        let page: usize = (sel / ps + 1) as usize;
        (start, end, page, pages)
    }
}

/// Computes the visible window of a list of `total` items around `selected`.
pub fn paginate(total: usize, selected: usize, page_size: usize) -> (r: (usize, usize, usize, usize))
    ensures
        r == paginate_spec(total, selected, page_size),
        total > 0 ==> {
            let sel = if selected < total { selected as int } else { total - 1 };
            let ps = if page_size == 0 { total as int } else { page_size as int };
            &&& r.0 <= sel < r.1 <= total
            &&& r.1 - r.0 <= ps
            &&& 1 <= r.2 <= r.3
            &&& (r.3 - 1) * ps < total <= r.3 * ps
        },
{
    if total == 0 {
        return (0, 0, 0, 0);
    }
    let page_size = if page_size == 0 { total } else { page_size };
    let selected = if selected < total { selected } else { total - 1 };
    let start = if selected >= page_size { selected - page_size + 1 } else { 0 };
    let end = if start + page_size < total { start + page_size } else { total };
    assert(total % page_size != 0 ==> total / page_size < total) by (nonlinear_arith)
        requires page_size > 0, total > 0;
    let pages = total / page_size + if total % page_size == 0 { 0 } else { 1 };
    let page = (selected / page_size) + 1;
    proof {
        let q = total / page_size;
        let r = total % page_size;
        assert(total == q * page_size + r) by (nonlinear_arith)
            requires page_size > 0, q == total / page_size, r == total % page_size;
        assert(selected / page_size <= q) by (nonlinear_arith)
            requires page_size > 0, selected < total, q == total / page_size;
        assert((selected / page_size) * page_size <= selected) by (nonlinear_arith)
            requires page_size > 0;
        if r == 0 {
            assert((pages - 1) * page_size < total) by (nonlinear_arith)
                requires pages == q, total == q * page_size, page_size > 0, total > 0;
            assert(total <= pages * page_size) by (nonlinear_arith)
                requires pages == q, total == q * page_size;
            assert(selected / page_size + 1 <= q) by (nonlinear_arith)
                requires page_size > 0, selected < total, total == q * page_size,
                    (selected / page_size) * page_size <= selected;
        } else {
            assert((pages - 1) * page_size < total) by (nonlinear_arith)
                requires pages == q + 1, total == q * page_size + r, 0 < r;
            assert(total <= pages * page_size) by (nonlinear_arith)
                requires pages == q + 1, total == q * page_size + r, r < page_size;
        }
    }
    (start, end, page, pages)
}

/// The number of list rows that fit in a panel of the given height.
pub open spec fn list_page_size_spec(height: u16) -> usize {
    if height <= 11 { 5 } else { (height - 6) as usize }
}

/// Returns how many list rows fit in a panel of `height` rows; never fewer than five.
pub fn list_page_size(height: u16) -> (n: usize)
    ensures
        n == list_page_size_spec(height),
        n >= 5,
        height > 11 ==> n + 6 == height,
{
    if height <= 6 {
        return 5;
    }
    let size = height - 6;
    if size < 5 {
        5
    } else {
        size as usize
    }
}

/// The ellipsis that marks a shortened text.
pub open spec fn ellipsis() -> char {
    '\u{2026}'
}

/// What `truncate` gives back: `s` itself when it fits in `max_len` characters,
/// otherwise its first `max_len - 1` characters and an ellipsis.
pub open spec fn truncate_spec(s: Seq<char>, max_len: nat) -> Seq<char> {
    if max_len == 0 {
        Seq::empty()
    } else if max_len == 1 {
        seq![ellipsis()]
    } else if s.len() <= max_len {
        s
    } else {
        s.take(max_len - 1).push(ellipsis())
    }
}

/// Shortens `s` to at most `max_len` characters, marking a cut with an ellipsis.
pub fn truncate(s: &str, max_len: usize) -> (r: String)
    ensures
        r@ == truncate_spec(s@, max_len as nat),
        r@.len() <= max_len,
        s@.len() <= max_len && max_len > 1 ==> r@ == s@,
{
    if max_len == 0 {
        return String::new();
    }
    if max_len == 1 {
        let mut out = String::new();
        push_ellipsis(&mut out);
        return out;
    }
    let n = char_count(s);
    if n <= max_len {
        return String::from_str(s);
    }
    let head = s.substring_char(0, max_len - 1);
    let mut out = String::from_str(head);
    push_ellipsis(&mut out);
    out
}

fn push_ellipsis(out: &mut String)
    ensures
        final(out)@ == old(out)@.push(ellipsis()),
{
    let e = "\u{2026}";
    proof {
        reveal_strlit("\u{2026}");
    }
    out.append(e);
    assert(final(out)@ =~= old(out)@.push(ellipsis()));
}

/// The lowercase form of `s`, by the Unicode case mapping that `str::to_lowercase` applies.
pub uninterp spec fn lowercase(s: Seq<char>) -> Seq<char>;

/// `str::to_lowercase`: the lowercase form of `s`. The Unicode mapping is named, not stated.
#[verifier::external_body]
pub(crate) fn to_lowercase(s: &str) -> (r: String)
    ensures
        r@ == lowercase(s@),
{
    s.to_lowercase()
}

/// A time of `secs` seconds as `m:ss`.
pub open spec fn clock_spec(secs: u64) -> Seq<char> {
    let m = secs / 60;
    let s = secs % 60;
    decimal(m as nat) + seq![':'] + if s < 10 {
        seq!['0'] + decimal(s as nat)
    } else {
        decimal(s as nat)
    }
}

/// Formats a time of `secs` whole seconds as minutes and two-digit seconds.
pub fn format_clock(secs: u64) -> (r: String)
    ensures
        r@ == clock_spec(secs),
{
    let mut out = String::new();
    push_decimal(&mut out, secs / 60);
    out.push(':');
    let s = secs % 60;
    if s < 10 {
        out.push('0');
    }
    push_decimal(&mut out, s);
    proof {
        assert(out@ =~= clock_spec(secs));
    }
    out
}

/// The length of the hue wheel for a panel `width` characters wide, and the position of the
/// marker for `hue` on it.
pub open spec fn wheel_cursor_spec(width: u16, hue: u16) -> (usize, usize) {
    let len: usize = if width >= 24 { width as usize } else { 24 };
    let idx = (hue * len / 360) as usize;
    (len, if idx < len { idx } else { (len - 1) as usize })
}

/// The length of the hue wheel and the position of the marker for `hue`; the marker is always
/// on the wheel.
pub fn wheel_cursor(width: u16, hue: u16) -> (r: (usize, usize))
    ensures
        r == wheel_cursor_spec(width, hue),
        r.1 < r.0,
{
    let len: usize = if width >= 24 { width as usize } else { 24 };
    assert(hue as usize * len <= 65535 * 65535) by (nonlinear_arith)
        requires len <= 65535;
    let idx = (hue as usize * len) / 360;
    (len, if idx < len { idx } else { len - 1 })
}

/// The hue of position `i` on a wheel of `count` positions.
pub open spec fn wheel_hue_spec(i: usize, count: usize) -> u16 {
    (i * 360 / count as int) as u16
}

/// The hue of position `i` on a wheel of `count` positions; it is below 360.
pub fn wheel_hue(i: usize, count: usize) -> (r: u16)
    requires
        i < count <= 65535,
    ensures
        r == wheel_hue_spec(i, count),
        r < 360,
{
    assert(i * 360 / (count as int) < 360) by (nonlinear_arith)
        requires i < count, count > 0;
    ((i * 360) / count) as u16
}

} // verus!
