//! Colour themes of the terminal dashboard and their lookup by id or name.

use vstd::prelude::*;
use crate::text::{all_latin1, chars_eq, chars_of, latin1_lower, to_lowercase};
pub use crate::text::lowered;

verus! {

/// A terminal colour.
#[derive(Debug, Clone, Copy, PartialEq, Eq, Structural)]
pub enum Color {
    Black,
    Cyan,
    DarkGray,
    White,
    Yellow,
    LightCyan,
    LightGreen,
    LightRed,
    LightYellow,
    Rgb(u8, u8, u8),
}

/// The colours of the dashboard for one theme. A missing background keeps
/// the terminal's own (transparent) background.
#[derive(Debug, Clone, Copy)]
pub struct Theme {
    pub id: &'static str,
    pub name: &'static str,
    pub bg: Option<Color>,
    pub active_border: Color,
    pub inactive_border: Color,
    pub active_title: Color,
    pub inactive_title: Color,
    pub active_badge_fg: Color,
    pub active_badge_bg: Color,
    pub header_fg: Color,
    pub selected_row_fg: Color,
    pub selected_row_inactive_fg: Color,
    pub unselected_row_fg: Color,
    pub cursor_active: Color,
    pub cursor_inactive: Color,
    pub label_fg: Color,
    pub value_fg: Color,
    pub status_preserved: Color,
    pub status_restored: Color,
    pub status_purged: Color,
    pub status_excluded: Color,
    pub accent: Color,
    pub secondary: Color,
    pub warning: Color,
}

impl Theme {
    /// A theme built from a palette: borders, titles, cursor and badge take
    /// the accent, labels and headers the secondary colour, rows and values
    /// the text colour; the badge text is the background (black when
    /// transparent).
    pub fn new(
        id: &'static str,
        name: &'static str,
        bg: Option<Color>,
        accent: Color,
        secondary: Color,
        text: Color,
        muted: Color,
        comment: Color,
        green: Color,
        red: Color,
        yellow: Color,
        warning: Color,
    ) -> (r: Theme)
        ensures
            r.id == id && r.name == name && r.bg == bg,
            r.active_border == accent && r.inactive_border == muted,
            r.active_title == accent && r.inactive_title == comment,
            r.active_badge_fg == (match bg { Some(c) => c, None => Color::Black }),
            r.active_badge_bg == accent && r.header_fg == secondary,
            r.selected_row_fg == accent && r.selected_row_inactive_fg == comment,
            r.unselected_row_fg == text && r.cursor_active == accent && r.cursor_inactive == muted,
            r.label_fg == secondary && r.value_fg == text,
            r.status_preserved == green && r.status_restored == green,
            r.status_purged == red && r.status_excluded == yellow,
            r.accent == accent && r.secondary == secondary && r.warning == warning,
    {
        Theme {
            id,
            name,
            bg,
            active_border: accent,
            inactive_border: muted,
            active_title: accent,
            inactive_title: comment,
            active_badge_fg: match bg {
                Some(c) => c,
                None => Color::Black,
            },
            active_badge_bg: accent,
            header_fg: secondary,
            selected_row_fg: accent,
            selected_row_inactive_fg: comment,
            unselected_row_fg: text,
            cursor_active: accent,
            cursor_inactive: muted,
            label_fg: secondary,
            value_fg: text,
            status_preserved: green,
            status_restored: green,
            status_purged: red,
            status_excluded: yellow,
            accent,
            secondary,
            warning,
        }
    }
}

/// The ids of the themes, in order.
pub open spec fn theme_ids() -> Seq<Seq<char>> {
    seq!["default"@, "catppuccin"@, "solarized"@, "dracula"@, "gruvbox"@, "tokyo_night"@, "nord"@,
        "rose_pine"@, "one_dark"@, "monokai"@, "kanagawa"@, "cyberpunk"@]
}

/// The display names of the themes, in order.
pub open spec fn theme_names() -> Seq<Seq<char>> {
    seq!["Default"@, "Catppuccin Mocha"@, "Solarized Dark"@, "Dracula"@, "Gruvbox Dark"@, "Tokyo Night"@,
        "Nord"@, "Rosé Pine"@, "One Dark"@, "Monokai Pro"@, "Kanagawa"@, "Cyberpunk Neon"@]
}

/// The first theme at or after `k` whose id equals `lower`, or whose
/// lowercased name does; 0 (the default theme) when none does. (The names
/// are Latin-1 text, whose lower case `latin1_lower` gives.)
pub open spec fn theme_lookup_from(lower: Seq<char>, k: int) -> int
    decreases 12 - k,
{
    if k < 0 || k >= 12 {
        0
    } else if theme_ids()[k] == lower || latin1_lower(theme_names()[k]) == lower {
        k
    } else {
        theme_lookup_from(lower, k + 1)
    }
}

/// The position of the theme with the given id or name, compared without
/// case; 0 (the default theme) when there is none.
pub open spec fn theme_lookup(id_or_name: Seq<char>) -> int {
    theme_lookup_from(lowered(id_or_name), 0)
}

pub(crate) fn theme_id_at(k: usize) -> (r: &'static str)
    requires
        k < 12,
    ensures
        r@ == theme_ids()[k as int],
{
    let ids: [&'static str; 12] = ["default", "catppuccin", "solarized", "dracula", "gruvbox", "tokyo_night", "nord",
        "rose_pine", "one_dark", "monokai", "kanagawa", "cyberpunk"];
    assert(ids@.len() == 12);
    assert(theme_ids() =~= seq![ids@[0]@, ids@[1]@, ids@[2]@, ids@[3]@, ids@[4]@, ids@[5]@, ids@[6]@, ids@[7]@,
        ids@[8]@, ids@[9]@, ids@[10]@, ids@[11]@]);
    ids[k]
}

pub(crate) fn theme_name_at(k: usize) -> (r: &'static str)
    requires
        k < 12,
    ensures
        r@ == theme_names()[k as int],
{
    let names: [&'static str; 12] = ["Default", "Catppuccin Mocha", "Solarized Dark", "Dracula", "Gruvbox Dark",
        "Tokyo Night", "Nord", "Rosé Pine", "One Dark", "Monokai Pro", "Kanagawa", "Cyberpunk Neon"];
    assert(theme_names() =~= seq![names@[0]@, names@[1]@, names@[2]@, names@[3]@, names@[4]@, names@[5]@,
        names@[6]@, names@[7]@, names@[8]@, names@[9]@, names@[10]@, names@[11]@]);
    names[k]
}

/// The number of themes.
pub const THEME_COUNT: usize = 12;

/// The index of the theme whose id or name equals `id_or_name` without
/// regard to case, or 0 for the default theme.
pub fn theme_index(id_or_name: &str) -> (r: usize)
    ensures
        r as int == theme_lookup(id_or_name@),
        r < THEME_COUNT,
{
    let lower = to_lowercase(id_or_name);
    let l = chars_of(lower.as_str());
    let mut k: usize = 0;
    while k < 12
        invariant
            k <= 12,
            l@ == lowered(id_or_name@),
            theme_lookup(id_or_name@) == theme_lookup_from(l@, k as int),
        decreases 12 - k,
    {
        let id = chars_of(theme_id_at(k));
        proof {
            lemma_theme_entry(k as int);
        }
        let name_lower = to_lowercase(theme_name_at(k));
        let n = chars_of(name_lower.as_str());
        if chars_eq(id.as_slice(), l.as_slice()) || chars_eq(n.as_slice(), l.as_slice()) {
            return k;
        }
        k += 1;
    }
    0
}

} // verus!

verus! {

/// The colours a theme is painted from (see `Theme::new`).
#[derive(Debug, Clone, Copy)]
pub struct Palette {
    pub bg: Option<Color>,
    pub accent: Color,
    pub secondary: Color,
    pub text: Color,
    pub muted: Color,
    pub comment: Color,
    pub green: Color,
    pub red: Color,
    pub yellow: Color,
    pub warning: Color,
}

/// The theme is painted from the palette as `Theme::new` paints it.
pub open spec fn painted(t: Theme, p: Palette) -> bool {
    &&& t.bg == p.bg
    &&& t.active_border == p.accent && t.inactive_border == p.muted
    &&& t.active_title == p.accent && t.inactive_title == p.comment
    &&& t.active_badge_fg == (match p.bg { Some(c) => c, None => Color::Black })
    &&& t.active_badge_bg == p.accent && t.header_fg == p.secondary
    &&& t.selected_row_fg == p.accent && t.selected_row_inactive_fg == p.comment
    &&& t.unselected_row_fg == p.text && t.cursor_active == p.accent && t.cursor_inactive == p.muted
    &&& t.label_fg == p.secondary && t.value_fg == p.text
    &&& t.status_preserved == p.green && t.status_restored == p.green
    &&& t.status_purged == p.red && t.status_excluded == p.yellow
    &&& t.accent == p.accent && t.secondary == p.secondary && t.warning == p.warning
}

/// The palettes of the themes after the first, in order.
pub open spec fn palettes() -> Seq<Palette> {
    seq![
        Palette { bg: Some(Color::Rgb(30, 30, 46)), accent: Color::Rgb(203, 166, 247), secondary: Color::Rgb(137, 220, 235), text: Color::Rgb(205, 214, 244), muted: Color::Rgb(88, 91, 112), comment: Color::Rgb(147, 153, 178), green: Color::Rgb(166, 227, 161), red: Color::Rgb(243, 139, 168), yellow: Color::Rgb(249, 226, 175), warning: Color::Rgb(250, 179, 135) },
        Palette { bg: Some(Color::Rgb(0, 43, 54)), accent: Color::Rgb(42, 161, 152), secondary: Color::Rgb(38, 139, 210), text: Color::Rgb(238, 232, 213), muted: Color::Rgb(88, 110, 117), comment: Color::Rgb(101, 123, 131), green: Color::Rgb(133, 153, 0), red: Color::Rgb(220, 50, 47), yellow: Color::Rgb(181, 137, 0), warning: Color::Rgb(203, 75, 22) },
        Palette { bg: Some(Color::Rgb(40, 42, 54)), accent: Color::Rgb(189, 147, 249), secondary: Color::Rgb(139, 233, 253), text: Color::Rgb(248, 248, 242), muted: Color::Rgb(98, 114, 164), comment: Color::Rgb(98, 114, 164), green: Color::Rgb(80, 250, 123), red: Color::Rgb(255, 85, 85), yellow: Color::Rgb(241, 250, 140), warning: Color::Rgb(255, 184, 108) },
        Palette { bg: Some(Color::Rgb(40, 40, 40)), accent: Color::Rgb(254, 128, 25), secondary: Color::Rgb(131, 165, 152), text: Color::Rgb(235, 219, 178), muted: Color::Rgb(102, 92, 84), comment: Color::Rgb(146, 131, 116), green: Color::Rgb(184, 187, 38), red: Color::Rgb(251, 73, 52), yellow: Color::Rgb(250, 189, 47), warning: Color::Rgb(250, 189, 47) },
        Palette { bg: Some(Color::Rgb(26, 27, 38)), accent: Color::Rgb(187, 154, 247), secondary: Color::Rgb(125, 207, 255), text: Color::Rgb(192, 202, 245), muted: Color::Rgb(65, 72, 104), comment: Color::Rgb(86, 95, 137), green: Color::Rgb(158, 206, 106), red: Color::Rgb(247, 118, 142), yellow: Color::Rgb(224, 175, 104), warning: Color::Rgb(224, 175, 104) },
        Palette { bg: Some(Color::Rgb(46, 52, 64)), accent: Color::Rgb(136, 192, 208), secondary: Color::Rgb(129, 161, 193), text: Color::Rgb(236, 239, 244), muted: Color::Rgb(67, 76, 94), comment: Color::Rgb(94, 129, 172), green: Color::Rgb(163, 190, 140), red: Color::Rgb(191, 97, 106), yellow: Color::Rgb(235, 203, 139), warning: Color::Rgb(235, 203, 139) },
        Palette { bg: Some(Color::Rgb(25, 23, 36)), accent: Color::Rgb(235, 111, 146), secondary: Color::Rgb(156, 207, 216), text: Color::Rgb(224, 222, 244), muted: Color::Rgb(110, 106, 134), comment: Color::Rgb(144, 140, 170), green: Color::Rgb(49, 116, 143), red: Color::Rgb(235, 111, 146), yellow: Color::Rgb(246, 193, 119), warning: Color::Rgb(246, 193, 119) },
        Palette { bg: Some(Color::Rgb(40, 44, 52)), accent: Color::Rgb(97, 175, 239), secondary: Color::Rgb(198, 120, 221), text: Color::Rgb(171, 178, 191), muted: Color::Rgb(75, 82, 99), comment: Color::Rgb(92, 99, 112), green: Color::Rgb(152, 195, 121), red: Color::Rgb(224, 108, 117), yellow: Color::Rgb(229, 192, 123), warning: Color::Rgb(209, 154, 102) },
        Palette { bg: Some(Color::Rgb(45, 42, 46)), accent: Color::Rgb(255, 97, 136), secondary: Color::Rgb(120, 220, 232), text: Color::Rgb(252, 252, 250), muted: Color::Rgb(114, 112, 114), comment: Color::Rgb(147, 146, 147), green: Color::Rgb(169, 220, 106), red: Color::Rgb(255, 97, 136), yellow: Color::Rgb(255, 216, 102), warning: Color::Rgb(252, 152, 103) },
        Palette { bg: Some(Color::Rgb(31, 31, 40)), accent: Color::Rgb(155, 206, 180), secondary: Color::Rgb(126, 156, 216), text: Color::Rgb(220, 223, 228), muted: Color::Rgb(84, 84, 109), comment: Color::Rgb(114, 113, 133), green: Color::Rgb(152, 187, 108), red: Color::Rgb(232, 134, 138), yellow: Color::Rgb(230, 195, 132), warning: Color::Rgb(255, 160, 102) },
        Palette { bg: Some(Color::Rgb(20, 16, 38)), accent: Color::Rgb(255, 0, 127), secondary: Color::Rgb(0, 240, 255), text: Color::Rgb(240, 240, 255), muted: Color::Rgb(70, 50, 95), comment: Color::Rgb(115, 80, 155), green: Color::Rgb(57, 255, 20), red: Color::Rgb(255, 49, 49), yellow: Color::Rgb(255, 238, 0), warning: Color::Rgb(255, 140, 0) },
    ]
}

/// The colours of the first theme, which keeps the terminal's background.
pub open spec fn default_colors(t: Theme) -> bool {
    &&& t.bg is None
    &&& t.active_border == Color::LightCyan && t.inactive_border == Color::DarkGray
    &&& t.active_title == Color::LightCyan && t.inactive_title == Color::DarkGray
    &&& t.active_badge_fg == Color::Black && t.active_badge_bg == Color::LightCyan
    &&& t.header_fg == Color::LightCyan && t.selected_row_fg == Color::LightCyan
    &&& t.selected_row_inactive_fg == Color::DarkGray && t.unselected_row_fg == Color::White
    &&& t.cursor_active == Color::LightCyan && t.cursor_inactive == Color::DarkGray
    &&& t.label_fg == Color::LightCyan && t.value_fg == Color::White
    &&& t.status_preserved == Color::LightGreen && t.status_restored == Color::LightGreen
    &&& t.status_purged == Color::LightRed && t.status_excluded == Color::Yellow
    &&& t.accent == Color::LightCyan && t.secondary == Color::Cyan && t.warning == Color::LightYellow
}

/// All themes, in order; the first is the default, which keeps the
/// terminal's own background.
pub fn themes() -> (r: Vec<Theme>)
    ensures
        r@.len() == THEME_COUNT,
        forall|k: int| 0 <= k < r@.len() ==> (#[trigger] r@[k]).id@ == theme_ids()[k] && r@[k].name@ == theme_names()[k],
        default_colors(r@[0]),
        forall|k: int| 1 <= k < r@.len() ==> painted(#[trigger] r@[k], palettes()[k - 1]),
{
    let mut r: Vec<Theme> = Vec::new();
    r.push(Theme {
        id: theme_id_at(0),
        name: theme_name_at(0),
        bg: None,
        active_border: Color::LightCyan,
        inactive_border: Color::DarkGray,
        active_title: Color::LightCyan,
        inactive_title: Color::DarkGray,
        active_badge_fg: Color::Black,
        active_badge_bg: Color::LightCyan,
        header_fg: Color::LightCyan,
        selected_row_fg: Color::LightCyan,
        selected_row_inactive_fg: Color::DarkGray,
        unselected_row_fg: Color::White,
        cursor_active: Color::LightCyan,
        cursor_inactive: Color::DarkGray,
        label_fg: Color::LightCyan,
        value_fg: Color::White,
        status_preserved: Color::LightGreen,
        status_restored: Color::LightGreen,
        status_purged: Color::LightRed,
        status_excluded: Color::Yellow,
        accent: Color::LightCyan,
        secondary: Color::Cyan,
        warning: Color::LightYellow,
    });
    r.push(Theme::new(theme_id_at(1), theme_name_at(1), Some(Color::Rgb(30, 30, 46)),
        Color::Rgb(203, 166, 247), Color::Rgb(137, 220, 235), Color::Rgb(205, 214, 244), Color::Rgb(88, 91, 112),
        Color::Rgb(147, 153, 178), Color::Rgb(166, 227, 161), Color::Rgb(243, 139, 168), Color::Rgb(249, 226, 175),
        Color::Rgb(250, 179, 135)));
    r.push(Theme::new(theme_id_at(2), theme_name_at(2), Some(Color::Rgb(0, 43, 54)),
        Color::Rgb(42, 161, 152), Color::Rgb(38, 139, 210), Color::Rgb(238, 232, 213), Color::Rgb(88, 110, 117),
        Color::Rgb(101, 123, 131), Color::Rgb(133, 153, 0), Color::Rgb(220, 50, 47), Color::Rgb(181, 137, 0),
        Color::Rgb(203, 75, 22)));
    r.push(Theme::new(theme_id_at(3), theme_name_at(3), Some(Color::Rgb(40, 42, 54)),
        Color::Rgb(189, 147, 249), Color::Rgb(139, 233, 253), Color::Rgb(248, 248, 242), Color::Rgb(98, 114, 164),
        Color::Rgb(98, 114, 164), Color::Rgb(80, 250, 123), Color::Rgb(255, 85, 85), Color::Rgb(241, 250, 140),
        Color::Rgb(255, 184, 108)));
    r.push(Theme::new(theme_id_at(4), theme_name_at(4), Some(Color::Rgb(40, 40, 40)),
        Color::Rgb(254, 128, 25), Color::Rgb(131, 165, 152), Color::Rgb(235, 219, 178), Color::Rgb(102, 92, 84),
        Color::Rgb(146, 131, 116), Color::Rgb(184, 187, 38), Color::Rgb(251, 73, 52), Color::Rgb(250, 189, 47),
        Color::Rgb(250, 189, 47)));
    r.push(Theme::new(theme_id_at(5), theme_name_at(5), Some(Color::Rgb(26, 27, 38)),
        Color::Rgb(187, 154, 247), Color::Rgb(125, 207, 255), Color::Rgb(192, 202, 245), Color::Rgb(65, 72, 104),
        Color::Rgb(86, 95, 137), Color::Rgb(158, 206, 106), Color::Rgb(247, 118, 142), Color::Rgb(224, 175, 104),
        Color::Rgb(224, 175, 104)));
    r.push(Theme::new(theme_id_at(6), theme_name_at(6), Some(Color::Rgb(46, 52, 64)),
        Color::Rgb(136, 192, 208), Color::Rgb(129, 161, 193), Color::Rgb(236, 239, 244), Color::Rgb(67, 76, 94),
        Color::Rgb(94, 129, 172), Color::Rgb(163, 190, 140), Color::Rgb(191, 97, 106), Color::Rgb(235, 203, 139),
        Color::Rgb(235, 203, 139)));
    r.push(Theme::new(theme_id_at(7), theme_name_at(7), Some(Color::Rgb(25, 23, 36)),
        Color::Rgb(235, 111, 146), Color::Rgb(156, 207, 216), Color::Rgb(224, 222, 244), Color::Rgb(110, 106, 134),
        Color::Rgb(144, 140, 170), Color::Rgb(49, 116, 143), Color::Rgb(235, 111, 146), Color::Rgb(246, 193, 119),
        Color::Rgb(246, 193, 119)));
    r.push(Theme::new(theme_id_at(8), theme_name_at(8), Some(Color::Rgb(40, 44, 52)),
        Color::Rgb(97, 175, 239), Color::Rgb(198, 120, 221), Color::Rgb(171, 178, 191), Color::Rgb(75, 82, 99),
        Color::Rgb(92, 99, 112), Color::Rgb(152, 195, 121), Color::Rgb(224, 108, 117), Color::Rgb(229, 192, 123),
        Color::Rgb(209, 154, 102)));
    r.push(Theme::new(theme_id_at(9), theme_name_at(9), Some(Color::Rgb(45, 42, 46)),
        Color::Rgb(255, 97, 136), Color::Rgb(120, 220, 232), Color::Rgb(252, 252, 250), Color::Rgb(114, 112, 114),
        Color::Rgb(147, 146, 147), Color::Rgb(169, 220, 106), Color::Rgb(255, 97, 136), Color::Rgb(255, 216, 102),
        Color::Rgb(252, 152, 103)));
    r.push(Theme::new(theme_id_at(10), theme_name_at(10), Some(Color::Rgb(31, 31, 40)),
        Color::Rgb(155, 206, 180), Color::Rgb(126, 156, 216), Color::Rgb(220, 223, 228), Color::Rgb(84, 84, 109),
        Color::Rgb(114, 113, 133), Color::Rgb(152, 187, 108), Color::Rgb(232, 134, 138), Color::Rgb(230, 195, 132),
        Color::Rgb(255, 160, 102)));
    r.push(Theme::new(theme_id_at(11), theme_name_at(11), Some(Color::Rgb(20, 16, 38)),
        Color::Rgb(255, 0, 127), Color::Rgb(0, 240, 255), Color::Rgb(240, 240, 255), Color::Rgb(70, 50, 95),
        Color::Rgb(115, 80, 155), Color::Rgb(57, 255, 20), Color::Rgb(255, 49, 49), Color::Rgb(255, 238, 0),
        Color::Rgb(255, 140, 0)));
    r
}

/// The theme whose id or name equals `id_or_name` without regard to case,
/// or the default theme.
pub fn get_theme(id_or_name: &str) -> (r: Theme)
    ensures
        r.id@ == theme_ids()[theme_lookup(id_or_name@)],
        r.name@ == theme_names()[theme_lookup(id_or_name@)],
        theme_lookup(id_or_name@) == 0 ==> default_colors(r),
        theme_lookup(id_or_name@) > 0 ==> painted(r, palettes()[theme_lookup(id_or_name@) - 1]),
{
    let all = themes();
    let k = theme_index(id_or_name);
    all[k]
}

/// The display names of the themes in lower case.
pub open spec fn theme_lower_names() -> Seq<Seq<char>> {
    seq!["default"@, "catppuccin mocha"@, "solarized dark"@, "dracula"@, "gruvbox dark"@, "tokyo night"@,
        "nord"@, "rosé pine"@, "one dark"@, "monokai pro"@, "kanagawa"@, "cyberpunk neon"@]
}

/// Each theme's id is Latin-1 text already in lower case, and its name is
/// Latin-1 text whose lower case is the one in `theme_lower_names`.
proof fn lemma_theme_entry(k: int)
    requires
        0 <= k < 12,
    ensures
        all_latin1(theme_ids()[k]),
        latin1_lower(theme_ids()[k]) == theme_ids()[k],
        all_latin1(theme_names()[k]),
        latin1_lower(theme_names()[k]) == theme_lower_names()[k],
{
    if k == 0 {
        reveal_strlit("default");
        reveal_strlit("Default");
    } else if k == 1 {
        reveal_strlit("catppuccin");
        reveal_strlit("Catppuccin Mocha");
        reveal_strlit("catppuccin mocha");
    } else if k == 2 {
        reveal_strlit("solarized");
        reveal_strlit("Solarized Dark");
        reveal_strlit("solarized dark");
    } else if k == 3 {
        reveal_strlit("dracula");
        reveal_strlit("Dracula");
    } else if k == 4 {
        reveal_strlit("gruvbox");
        reveal_strlit("Gruvbox Dark");
        reveal_strlit("gruvbox dark");
    } else if k == 5 {
        reveal_strlit("tokyo_night");
        reveal_strlit("Tokyo Night");
        reveal_strlit("tokyo night");
    } else if k == 6 {
        reveal_strlit("nord");
        reveal_strlit("Nord");
    } else if k == 7 {
        reveal_strlit("rose_pine");
        reveal_strlit("Rosé Pine");
        reveal_strlit("rosé pine");
    } else if k == 8 {
        reveal_strlit("one_dark");
        reveal_strlit("One Dark");
        reveal_strlit("one dark");
    } else if k == 9 {
        reveal_strlit("monokai");
        reveal_strlit("Monokai Pro");
        reveal_strlit("monokai pro");
    } else if k == 10 {
        reveal_strlit("kanagawa");
        reveal_strlit("Kanagawa");
    } else {
        reveal_strlit("cyberpunk");
        reveal_strlit("Cyberpunk Neon");
        reveal_strlit("cyberpunk neon");
    }
    assert(latin1_lower(theme_ids()[k]) =~= theme_ids()[k]);
    assert(latin1_lower(theme_names()[k]) =~= theme_lower_names()[k]);
}

/// No earlier theme has the id or the lower-case name of a later one.
proof fn lemma_theme_distinct(j: int, k: int)
    requires
        0 <= j < k < 12,
    ensures
        theme_ids()[j] != theme_ids()[k],
        theme_ids()[j] != theme_lower_names()[k],
        theme_lower_names()[j] != theme_ids()[k],
        theme_lower_names()[j] != theme_lower_names()[k],
{
    reveal_strlit("catppuccin");
    reveal_strlit("catppuccin mocha");
    reveal_strlit("cyberpunk");
    reveal_strlit("cyberpunk neon");
    reveal_strlit("default");
    reveal_strlit("dracula");
    reveal_strlit("gruvbox");
    reveal_strlit("gruvbox dark");
    reveal_strlit("kanagawa");
    reveal_strlit("monokai");
    reveal_strlit("monokai pro");
    reveal_strlit("nord");
    reveal_strlit("one dark");
    reveal_strlit("one_dark");
    reveal_strlit("rose_pine");
    reveal_strlit("rosé pine");
    reveal_strlit("solarized");
    reveal_strlit("solarized dark");
    reveal_strlit("tokyo night");
    reveal_strlit("tokyo_night");
    // Texts of equal length differ at the position shown.
    assert(theme_ids()[0][1] != theme_ids()[3][1]);
    assert(theme_ids()[0][1] != theme_lower_names()[3][1]);
    assert(theme_lower_names()[0][1] != theme_ids()[3][1]);
    assert(theme_lower_names()[0][1] != theme_lower_names()[3][1]);
    assert(theme_ids()[0][0] != theme_ids()[4][0]);
    assert(theme_lower_names()[0][0] != theme_ids()[4][0]);
    assert(theme_ids()[3][0] != theme_ids()[4][0]);
    assert(theme_lower_names()[3][0] != theme_ids()[4][0]);
    assert(theme_ids()[2][0] != theme_ids()[7][0]);
    assert(theme_ids()[2][0] != theme_lower_names()[7][0]);
    assert(theme_ids()[0][0] != theme_ids()[9][0]);
    assert(theme_lower_names()[0][0] != theme_ids()[9][0]);
    assert(theme_ids()[3][0] != theme_ids()[9][0]);
    assert(theme_lower_names()[3][0] != theme_ids()[9][0]);
    assert(theme_ids()[4][0] != theme_ids()[9][0]);
    assert(theme_ids()[5][0] != theme_lower_names()[9][0]);
    assert(theme_lower_names()[5][0] != theme_lower_names()[9][0]);
    assert(theme_ids()[8][0] != theme_ids()[10][0]);
    assert(theme_ids()[8][0] != theme_lower_names()[10][0]);
    assert(theme_lower_names()[8][0] != theme_ids()[10][0]);
    assert(theme_lower_names()[8][0] != theme_lower_names()[10][0]);
    assert(theme_ids()[2][0] != theme_ids()[11][0]);
    assert(theme_lower_names()[2][0] != theme_lower_names()[11][0]);
    assert(theme_ids()[7][0] != theme_ids()[11][0]);
    assert(theme_lower_names()[7][0] != theme_ids()[11][0]);
    // The lengths, which tell most of the texts apart.
    assert(seq![
        theme_ids()[0].len(), theme_ids()[1].len(), theme_ids()[2].len(), theme_ids()[3].len(),
        theme_ids()[4].len(), theme_ids()[5].len(), theme_ids()[6].len(), theme_ids()[7].len(),
        theme_ids()[8].len(), theme_ids()[9].len(), theme_ids()[10].len(), theme_ids()[11].len(),
    ] =~= seq![7nat, 10nat, 9nat, 7nat, 7nat, 11nat, 4nat, 9nat, 8nat, 7nat, 8nat, 9nat]);
    assert(seq![
        theme_lower_names()[0].len(), theme_lower_names()[1].len(), theme_lower_names()[2].len(), theme_lower_names()[3].len(),
        theme_lower_names()[4].len(), theme_lower_names()[5].len(), theme_lower_names()[6].len(), theme_lower_names()[7].len(),
        theme_lower_names()[8].len(), theme_lower_names()[9].len(), theme_lower_names()[10].len(), theme_lower_names()[11].len(),
    ] =~= seq![7nat, 16nat, 14nat, 7nat, 12nat, 11nat, 4nat, 9nat, 8nat, 11nat, 8nat, 14nat]);
    // Each pair of positions in turn.
    assert(j == 0 || j == 1 || j == 2 || j == 3 || j == 4 || j == 5 || j == 6 || j == 7 || j == 8 || j == 9 || j == 10);
    assert(k == 1 || k == 2 || k == 3 || k == 4 || k == 5 || k == 6 || k == 7 || k == 8 || k == 9 || k == 10 || k == 11);
}

/// Looking from `j` on for the id or lower-case name of theme `k` (with
/// `j <= k`) finds theme `k`.
proof fn lemma_lookup_reaches(lower: Seq<char>, j: int, k: int)
    requires
        0 <= j <= k < 12,
        lower == theme_ids()[k] || lower == latin1_lower(theme_names()[k]),
    ensures
        theme_lookup_from(lower, j) == k,
    decreases k - j,
{
    lemma_theme_entry(k);
    if j < k {
        lemma_theme_entry(j);
        lemma_theme_distinct(j, k);
        lemma_lookup_reaches(lower, j + 1, k);
    }
}

/// Looking from `j` on for a text that is no theme's id or lower-case name
/// gives the default theme.
proof fn lemma_lookup_misses(lower: Seq<char>, j: int)
    requires
        0 <= j <= 12,
        forall|k: int| 0 <= k < 12 ==> theme_ids()[k] != lower && latin1_lower(theme_names()[k]) != lower,
    ensures
        theme_lookup_from(lower, j) == 0,
    decreases 12 - j,
{
    if j < 12 {
        lemma_lookup_misses(lower, j + 1);
    }
}

proof fn lemma_lookup_bounds(lower: Seq<char>, j: int)
    requires
        0 <= j <= 12,
    ensures
        0 <= theme_lookup_from(lower, j) < 12,
    decreases 12 - j,
{
    if j < 12 {
        lemma_lookup_bounds(lower, j + 1);
    }
}

/// Every theme is found by its id and by its name, whatever their case: a
/// text whose lower case is a theme's id or the lower case of its name
/// selects that theme.
pub proof fn every_theme_is_found_by_id_or_name(k: int, id_or_name: Seq<char>)
    requires
        0 <= k < 12,
        lowered(id_or_name) == theme_ids()[k] || lowered(id_or_name) == latin1_lower(theme_names()[k]),
    ensures
        theme_lookup(id_or_name) == k,
{
    lemma_lookup_reaches(lowered(id_or_name), 0, k);
}

/// In particular each theme's own id and own name select it.
pub proof fn themes_are_found_by_their_id_and_name(k: int)
    requires
        0 <= k < 12,
    ensures
        theme_lookup(theme_ids()[k]) == k,
        theme_lookup(theme_names()[k]) == k,
{
    lemma_theme_entry(k);
    every_theme_is_found_by_id_or_name(k, theme_ids()[k]);
    every_theme_is_found_by_id_or_name(k, theme_names()[k]);
}

/// A lookup always lands on one of the themes, and a text that is no
/// theme's id or name, in any case, gives the default theme.
pub proof fn unknown_texts_give_the_default_theme(id_or_name: Seq<char>)
    ensures
        0 <= theme_lookup(id_or_name) < 12,
        (forall|k: int| 0 <= k < 12 ==> theme_ids()[k] != lowered(id_or_name)
            && latin1_lower(theme_names()[k]) != lowered(id_or_name)) ==> theme_lookup(id_or_name) == 0,
{
    lemma_lookup_bounds(lowered(id_or_name), 0);
    if forall|k: int| 0 <= k < 12 ==> theme_ids()[k] != lowered(id_or_name)
        && latin1_lower(theme_names()[k]) != lowered(id_or_name) {
        lemma_lookup_misses(lowered(id_or_name), 0);
    }
}

} // verus!
