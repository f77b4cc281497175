//! The grid in which the list panels show their entries: how many columns and
//! rows fit, which entries a page holds, and the text of each cell.

use vstd::prelude::*;

use crate::strs::push_str;
use crate::text::{
    char_count, ellipsis, list_page_size, list_page_size_spec, lowercase, paginate, paginate_spec,
    to_lowercase, truncate, truncate_spec,
};

verus! {

/// An entry of the grid: a title, and a subtitle and a note shown below it.
#[derive(Debug)]
pub struct GridItem {
    pub title: String,
    pub subtitle: String,
    pub meta: String,
}

/// `n` spaces.
pub open spec fn spaces(n: nat) -> Seq<char> {
    Seq::new(n, |i: int| ' ')
}

/// `s` brought to exactly `width` characters: shortened with an ellipsis, or filled with spaces.
pub open spec fn pad_spec(s: Seq<char>, width: nat) -> Seq<char> {
    if s.len() >= width {
        truncate_spec(s, width)
    } else {
        s + spaces((width - s.len()) as nat)
    }
}

/// Brings `input` to exactly `width` characters.
pub fn pad(input: &str, width: usize) -> (r: String)
    ensures
        r@ == pad_spec(input@, width as nat),
        r@.len() == width,
{
    let len = char_count(input);
    if len >= width {
        return truncate(input, width);
    }
    let mut out = String::from_str(input);
    let mut i = len;
    while i < width
        invariant
            len <= i <= width,
            len == input@.len(),
            out@ == input@ + spaces((i - len) as nat),
        decreases width - i,
    {
        out.push(' ');
        i += 1;
        assert(out@ =~= input@ + spaces((i - len) as nat));
    }
    out
}

/// How the grid is laid out.
#[derive(Debug, Clone, Copy)]
pub struct GridLayout {
    pub cols: usize,
    pub cell_width: usize,
    pub start: usize,
    pub end: usize,
    pub page: usize,
    pub pages: usize,
    pub used_rows: usize,
}

/// The number of columns for a panel `width` characters wide.
pub open spec fn grid_cols(width: u16) -> usize {
    if width >= 96 {
        3
    } else if width >= 64 {
        2
    } else {
        1
    }
}

/// The entries of one page of the grid.
pub open spec fn grid_page_size(width: u16, height: u16) -> usize {
    let rows = if list_page_size_spec(height) / 3 >= 1 { list_page_size_spec(height) / 3 } else { 1 };
    (rows * grid_cols(width)) as usize
}

/// The width of a cell: the panel less the gutters and the border, shared by the columns, and
/// never below 18.
pub open spec fn grid_cell_width(width: u16) -> usize {
    let cols = grid_cols(width);
    let used = 2 * (cols - 1) + 2;
    let w = if width >= used { ((width - used) / cols as int) as usize } else { 0 };
    if w >= 18 {
        w
    } else {
        18
    }
}

/// The layout of a grid of `total` entries, with `selected` on the page shown.
pub open spec fn grid_layout_spec(total: usize, selected: usize, width: u16, height: u16) -> GridLayout {
    let cols = grid_cols(width);
    let (start, end, page, pages) = paginate_spec(total, selected, grid_page_size(width, height));
    let count = end - start;
    GridLayout {
        cols,
        cell_width: grid_cell_width(width),
        start,
        end,
        page,
        pages,
        used_rows: (count / cols as int + if count % cols as int == 0 { 0int } else { 1int }) as usize,
    }
}

/// Lays out a grid of `total` entries in a panel of `width` by `height`, showing `selected`.
pub fn grid_layout(total: usize, selected: usize, width: u16, height: u16) -> (r: GridLayout)
    ensures
        r == grid_layout_spec(total, selected, width, height),
        1 <= r.cols <= 3,
        r.cell_width >= 18,
        r.start <= r.end <= total,
        r.used_rows * r.cols >= r.end - r.start,
        r.used_rows * r.cols < r.end - r.start + r.cols,
{
    let cols: usize = if width >= 96 {
        3
    } else if width >= 64 {
        2
    } else {
        1
    };
    let per_col = list_page_size(height) / 3;
    let rows = if per_col >= 1 { per_col } else { 1 };
    assert(rows <= 65535);
    let page_size = rows * cols;
    let (start, end, page, pages) = paginate(total, selected, page_size);
    let used: usize = 2 * (cols - 1) + 2;
    let w = if (width as usize) >= used { (width as usize - used) / cols } else { 0 };
    let cell_width = if w >= 18 { w } else { 18 };
    let count = end - start;
    let used_rows = count / cols + if count % cols == 0 { 0 } else { 1 };
    proof {
        let q = count / cols;
        let m = count % cols;
        assert(count == q * cols + m) by (nonlinear_arith)
            requires cols > 0, q == count / cols, m == count % cols;
        assert(0 <= m < cols);
        if m == 0 {
            assert(used_rows * cols == q * cols) by (nonlinear_arith)
                requires used_rows == q;
        } else {
            assert(used_rows * cols == q * cols + cols) by (nonlinear_arith)
                requires used_rows == q + 1;
        }
    }
    GridLayout { cols, cell_width, start, end, page, pages, used_rows }
}

/// The lead of a cell: a marker on the selected entry.
pub open spec fn cell_lead(selected: bool) -> char {
    if selected {
        '\u{25b8}'
    } else {
        ' '
    }
}

/// The first line of a cell: the lead and the lowercase title, brought to the cell's width.
pub open spec fn title_cell_spec(title: Seq<char>, selected: bool, cell_width: nat) -> Seq<char> {
    let w = if cell_width >= 2 { (cell_width - 2) as nat } else { 0 };
    pad_spec(seq![cell_lead(selected), ' '] + truncate_spec(lowercase(title), w), cell_width)
}

/// The second line of a cell: the lowercase subtitle and note, joined by ` | ` when both are
/// there, brought to the cell's width.
pub open spec fn detail_cell_spec(subtitle: Seq<char>, meta: Seq<char>, cell_width: nat) -> Seq<char> {
    let sub = truncate_spec(lowercase(subtitle), cell_width);
    let m = truncate_spec(lowercase(meta), cell_width);
    let detail = if m.len() == 0 {
        sub
    } else if sub.len() == 0 {
        m
    } else {
        truncate_spec(sub + " | "@ + m, cell_width)
    };
    pad_spec(detail, cell_width)
}

/// The two lines of the cell of `item`.
pub fn grid_cell(item: &GridItem, selected: bool, cell_width: usize) -> (r: (String, String))
    ensures
        r.0@ == title_cell_spec(item.title@, selected, cell_width as nat),
        r.1@ == detail_cell_spec(item.subtitle@, item.meta@, cell_width as nat),
        r.0@.len() == cell_width,
        r.1@.len() == cell_width,
{
    let mut head = String::new();
    if selected {
        push_str(&mut head, "\u{25b8}");
    } else {
        push_str(&mut head, " ");
    }
    proof {
        reveal_strlit("\u{25b8}");
        reveal_strlit(" ");
    }
    head.push(' ');
    let title_w = if cell_width >= 2 { cell_width - 2 } else { 0 };
    let title = truncate(to_lowercase(item.title.as_str()).as_str(), title_w);
    push_str(&mut head, title.as_str());
    assert(head@ =~= seq![cell_lead(selected), ' '] + truncate_spec(lowercase(item.title@), title_w as nat));
    let title_cell = pad(head.as_str(), cell_width);
    let sub = truncate(to_lowercase(item.subtitle.as_str()).as_str(), cell_width);
    let meta = truncate(to_lowercase(item.meta.as_str()).as_str(), cell_width);
    let detail = if char_count(meta.as_str()) == 0 {
        sub
    } else if char_count(sub.as_str()) == 0 {
        meta
    } else {
        let mut joined = sub;
        push_str(&mut joined, " | ");
        push_str(&mut joined, meta.as_str());
        truncate(joined.as_str(), cell_width)
    };
    let detail_cell = pad(detail.as_str(), cell_width);
    (title_cell, detail_cell)
}

} // verus!
