//! State of the interactive table: selected row, scroll position and colour
//! theme, and the transitions that navigation events make.
use vstd::prelude::*;
use crate::layout::{column_width, constraint_len_calculator};
use crate::repository::RepositoryInfo;
use vstd::arithmetic::div_mod::{lemma_mod_add_multiples_vanish, lemma_mod_self_0, lemma_small_mod};

verus! {

/// Height of one table row, in terminal lines.
pub const ITEM_HEIGHT: usize = 4;

/// Number of colour palettes that the theme cycles through.
pub const PALETTE_COUNT: usize = 4;

/// A hue of the colour scale.
#[derive(Clone, Copy, PartialEq, Eq, Structural, Debug)]
pub enum Hue {
    Slate,
    Blue,
    Emerald,
    Indigo,
    Red,
}

/// One colour of the scale: a hue at a shade (50 lightest to 950 darkest).
#[derive(Clone, Copy, PartialEq, Eq, Structural, Debug)]
pub struct Swatch {
    pub hue: Hue,
    pub shade: u16,
}

/// The colours of the table's parts under one palette.
#[derive(Clone, Copy, PartialEq, Eq, Structural, Debug)]
pub struct TableColors {
    pub buffer_bg: Swatch,
    pub header_bg: Swatch,
    pub header_fg: Swatch,
    pub row_fg: Swatch,
    pub selected_style_fg: Swatch,
    pub normal_row_color: Swatch,
    pub alt_row_color: Swatch,
    pub footer_border_color: Swatch,
}

/// The accent hue of palette `i`.
pub open spec fn palette_hue(i: int) -> Hue {
    if i == 0 {
        Hue::Blue
    } else if i == 1 {
        Hue::Emerald
    } else if i == 2 {
        Hue::Indigo
    } else {
        Hue::Red
    }
}

/// The accent hue of a palette.
pub fn palette(index: usize) -> (r: Hue)
    requires
        index < PALETTE_COUNT,
    ensures
        r == palette_hue(index as int),
{
    if index == 0 {
        Hue::Blue
    } else if index == 1 {
        Hue::Emerald
    } else if index == 2 {
        Hue::Indigo
    } else {
        Hue::Red
    }
}

/// A swatch as a value.
pub open spec fn swatch(hue: Hue, shade: u16) -> Swatch {
    Swatch { hue, shade }
}

impl TableColors {
    /// Slate for the body and text, the accent for the header, the
    /// selection and the footer border.
    pub open spec fn of(accent: Hue) -> TableColors {
        TableColors {
            buffer_bg: swatch(Hue::Slate, 950),
            header_bg: swatch(accent, 900),
            header_fg: swatch(Hue::Slate, 200),
            row_fg: swatch(Hue::Slate, 200),
            selected_style_fg: swatch(accent, 400),
            normal_row_color: swatch(Hue::Slate, 950),
            alt_row_color: swatch(Hue::Slate, 900),
            footer_border_color: swatch(accent, 400),
        }
    }

    pub fn new(accent: Hue) -> (r: Self)
        ensures
            r == Self::of(accent),
    {
        TableColors {
            buffer_bg: Swatch { hue: Hue::Slate, shade: 950 },
            header_bg: Swatch { hue: accent, shade: 900 },
            header_fg: Swatch { hue: Hue::Slate, shade: 200 },
            row_fg: Swatch { hue: Hue::Slate, shade: 200 },
            selected_style_fg: Swatch { hue: accent, shade: 400 },
            normal_row_color: Swatch { hue: Hue::Slate, shade: 950 },
            alt_row_color: Swatch { hue: Hue::Slate, shade: 900 },
            footer_border_color: Swatch { hue: accent, shade: 400 },
        }
    }
}

/// The theme after `cycle forward`.
pub open spec fn next_theme(i: int) -> int {
    (i + 1) % (PALETTE_COUNT as int)
}

/// The theme after `cycle backward`.
pub open spec fn previous_theme(i: int) -> int {
    (i + PALETTE_COUNT - 1) % (PALETTE_COUNT as int)
}

/// The theme after cycling forward `n` times.
pub open spec fn theme_after(i: int, n: nat) -> int
    decreases n,
{
    if n == 0 {
        i
    } else {
        next_theme(theme_after(i, (n - 1) as nat))
    }
}

/// The browser of a list of repositories.
pub struct App {
    /// Index of the selected row; 0 when there is none.
    pub selected: usize,
    pub items: Vec<RepositoryInfo>,
    /// Display width of each column over all rows.
    pub longest_item_lens: [usize; 7],
    /// Scroll position in lines: the selected row's top.
    pub scroll_position: usize,
    /// Scroll extent in lines: the last row's top.
    pub scroll_content_length: usize,
    pub colors: TableColors,
    pub color_index: usize,
}

impl App {
    /// The selection indexes a row whenever there is one, the scroll
    /// position follows it, and the theme indexes a palette.
    pub open spec fn wf(&self) -> bool {
        &&& self.items@.len() <= usize::MAX / ITEM_HEIGHT
        &&& (self.items@.len() == 0 ==> self.selected == 0)
        &&& (self.items@.len() > 0 ==> self.selected < self.items@.len())
        &&& self.scroll_position == self.selected * ITEM_HEIGHT
        &&& self.color_index < PALETTE_COUNT
    }

    /// First row selected, first palette active.
    pub fn new(profile_info: Vec<RepositoryInfo>) -> (r: App)
        requires
            profile_info@.len() <= usize::MAX / ITEM_HEIGHT,
        ensures
            r.wf(),
            r.items@ == profile_info@,
            r.selected == 0,
            r.color_index == 0,
            r.colors == TableColors::of(palette_hue(0)),
            forall|c: int| 0 <= c < 7 ==> #[trigger] r.longest_item_lens@[c] as nat
                == column_width(profile_info@, c),
            r.scroll_content_length == if profile_info@.len() == 0 {
                0
            } else {
                (profile_info@.len() - 1) * ITEM_HEIGHT
            },
    {
        let lens = constraint_len_calculator(&profile_info);
        let n = profile_info.len();
        let extent = if n == 0 {
            0
        } else {
            (n - 1) * ITEM_HEIGHT
        };
        App {
            selected: 0,
            longest_item_lens: lens,
            scroll_position: 0,
            scroll_content_length: extent,
            colors: TableColors::new(palette(0)),
            color_index: 0,
            items: profile_info,
        }
    }

    /// Selects the next row, wrapping from the last to the first; nothing
    /// changes when there are no rows.
    pub fn next(&mut self)
        requires
            old(self).wf(),
        ensures
            final(self).wf(),
            old(self).items@.len() == 0 ==> *final(self) == *old(self),
            old(self).items@.len() > 0 ==> final(self).selected == (old(self).selected + 1)
                % (old(self).items@.len() as int),
            old(self).items@.len() > 0 && old(self).selected == old(self).items@.len() - 1
                ==> final(self).selected == 0,
            final(self).items == old(self).items,
            final(self).longest_item_lens == old(self).longest_item_lens,
            final(self).scroll_content_length == old(self).scroll_content_length,
            final(self).colors == old(self).colors,
            final(self).color_index == old(self).color_index,
    {
        let n = self.items.len();
        if n == 0 {
            return;
        }
        let i = if self.selected >= n - 1 {
            0
        } else {
            self.selected + 1
        };
        proof {
            if self.selected >= n - 1 {
                lemma_mod_self_0(n as int);
            } else {
                lemma_small_mod((self.selected + 1) as nat, n as nat);
            }
        }
        self.selected = i;
        self.scroll_position = i * ITEM_HEIGHT;
    }

    /// Selects the previous row, wrapping from the first to the last;
    /// nothing changes when there are no rows.
    pub fn previous(&mut self)
        requires
            old(self).wf(),
        ensures
            final(self).wf(),
            old(self).items@.len() == 0 ==> *final(self) == *old(self),
            old(self).items@.len() > 0 ==> final(self).selected == (old(self).selected - 1
                + old(self).items@.len()) % (old(self).items@.len() as int),
            old(self).items@.len() > 0 && old(self).selected == 0 ==> final(self).selected
                == old(self).items@.len() - 1,
            final(self).items == old(self).items,
            final(self).longest_item_lens == old(self).longest_item_lens,
            final(self).scroll_content_length == old(self).scroll_content_length,
            final(self).colors == old(self).colors,
            final(self).color_index == old(self).color_index,
    {
        let n = self.items.len();
        if n == 0 {
            return;
        }
        let i = if self.selected == 0 {
            n - 1
        } else {
            self.selected - 1
        };
        proof {
            if self.selected == 0 {
                lemma_small_mod((n - 1) as nat, n as nat);
            } else {
                lemma_mod_add_multiples_vanish(self.selected - 1, n as int);
                lemma_small_mod((self.selected - 1) as nat, n as nat);
            }
        }
        self.selected = i;
        self.scroll_position = i * ITEM_HEIGHT;
    }

    /// Moves to the next palette, wrapping after the last.
    pub fn next_color(&mut self)
        requires
            old(self).wf(),
        ensures
            final(self).wf(),
            final(self).color_index == next_theme(old(self).color_index as int),
            final(self).selected == old(self).selected,
            final(self).scroll_position == old(self).scroll_position,
            final(self).items == old(self).items,
            final(self).colors == old(self).colors,
    {
        self.color_index = (self.color_index + 1) % PALETTE_COUNT;
    }

    /// Moves to the previous palette, wrapping before the first.
    pub fn previous_color(&mut self)
        requires
            old(self).wf(),
        ensures
            final(self).wf(),
            final(self).color_index == previous_theme(old(self).color_index as int),
            final(self).selected == old(self).selected,
            final(self).scroll_position == old(self).scroll_position,
            final(self).items == old(self).items,
            final(self).colors == old(self).colors,
    {
        let count = PALETTE_COUNT;
        self.color_index = (self.color_index + count - 1) % count;
    }

    /// Takes the colours of the current palette.
    pub fn set_colors(&mut self)
        requires
            old(self).wf(),
        ensures
            final(self).wf(),
            final(self).colors == TableColors::of(palette_hue(old(self).color_index as int)),
            final(self).color_index == old(self).color_index,
            final(self).selected == old(self).selected,
            final(self).items == old(self).items,
    {
        self.colors = TableColors::new(palette(self.color_index));
    }
}

/// Cycling the theme forward once per palette comes back to the theme it
/// started from.
pub proof fn lemma_theme_cycle(i: int)
    requires
        0 <= i < PALETTE_COUNT,
    ensures
        theme_after(i, PALETTE_COUNT as nat) == i,
{
    reveal_with_fuel(theme_after, 5);
}

/// Cycling the theme backward undoes cycling it forward, and forward undoes
/// backward.
pub proof fn lemma_theme_inverse(i: int)
    requires
        0 <= i < PALETTE_COUNT,
    ensures
        previous_theme(next_theme(i)) == i,
        next_theme(previous_theme(i)) == i,
{
}

} // verus!
