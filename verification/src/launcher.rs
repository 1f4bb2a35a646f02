//! The graphical game selector's pure logic: panel geometry, hit
//! testing, scroll clamping, keyboard navigation over the two columns,
//! and the double-click decision.

use vstd::prelude::*;

verus! {

pub const PADDING: usize = 24;

pub const PANEL_GAP: usize = 24;

pub const FOOTER_HEIGHT: usize = 54;

pub const HEADER_GAP: usize = 34;

pub const ROW_HEIGHT: usize = 28;

pub const CONSOLE_PANEL_WIDTH: usize = 280;

/// One rectangular panel of the selector window.
#[derive(Clone, Copy, Debug, PartialEq, Eq, Structural)]
pub struct Panel {
    pub x: usize,
    pub y: usize,
    pub width: usize,
    pub height: usize,
}

impl Panel {
    /// Whether a point lies inside the panel.
    pub fn contains(&self, point: (usize, usize)) -> (r: bool)
        requires
            self.x + self.width <= usize::MAX,
            self.y + self.height <= usize::MAX,
        ensures
            r == (self.x <= point.0 < self.x + self.width && self.y <= point.1 < self.y
                + self.height),
    {
        let (x, y) = point;
        x >= self.x && x < self.x + self.width && y >= self.y && y < self.y + self.height
    }
}

/// Where the two panels sit and how many rows each shows.
#[derive(Clone, Copy, Debug, PartialEq, Eq, Structural)]
pub struct Layout {
    pub consoles: Panel,
    pub games: Panel,
    pub visible_rows: usize,
    pub footer_top: usize,
}

impl Layout {
    /// The list row under a vertical position inside a panel's body,
    /// past its header.
    pub fn row_index(&self, y: usize, panel: Panel) -> (r: Option<usize>)
        requires
            panel.y + HEADER_GAP <= usize::MAX,
            panel.y + panel.height <= usize::MAX,
        ensures
            (y < panel.y + HEADER_GAP || y >= panel.y + panel.height) ==> r is None,
            (panel.y + HEADER_GAP <= y < panel.y + panel.height) ==> r == Some(
                (((y - panel.y) - HEADER_GAP) / (ROW_HEIGHT as int)) as usize,
            ),
    {
        if y < panel.y + HEADER_GAP || y >= panel.y + panel.height {
            return None;
        }
        Some((y - panel.y - HEADER_GAP) / ROW_HEIGHT)
    }
}

/// The saturating difference of two sizes.
pub open spec fn spec_sat_sub(a: nat, b: nat) -> nat {
    if a >= b {
        (a - b) as nat
    } else {
        0
    }
}

pub open spec fn spec_max(a: nat, b: nat) -> nat {
    if a >= b {
        a
    } else {
        b
    }
}

/// The selector's panel layout for a window size, exactly as drawn: a
/// fixed-width console panel, the games panel filling the rest, the
/// visible row count from the panel body's height.
pub fn compute_layout(width: usize, height: usize) -> (r: Layout)
    requires
        width <= 1_000_000_000,
        height <= 1_000_000_000,
    ensures
        ({
            let panel_height = spec_max(
                spec_sat_sub(height as nat, (PADDING * 2 + FOOTER_HEIGHT) as nat),
                (ROW_HEIGHT + HEADER_GAP) as nat,
            );
            let games_x = (PADDING + CONSOLE_PANEL_WIDTH + PANEL_GAP) as nat;
            &&& r.consoles == (Panel {
                x: PADDING,
                y: PADDING,
                width: CONSOLE_PANEL_WIDTH,
                height: panel_height as usize,
            })
            &&& r.games.x == games_x
            &&& r.games.y == PADDING
            &&& r.games.width == spec_max(
                spec_sat_sub(width as nat, games_x + PADDING as nat),
                CONSOLE_PANEL_WIDTH as nat,
            )
            &&& r.games.height == panel_height
            &&& r.visible_rows == spec_max(
                spec_max(spec_sat_sub(panel_height, HEADER_GAP as nat), ROW_HEIGHT as nat)
                    / ROW_HEIGHT as nat,
                1,
            )
            &&& r.footer_top == spec_sat_sub(height as nat, (FOOTER_HEIGHT - 12) as nat)
        }),
{
    let panel_floor = ROW_HEIGHT + HEADER_GAP;
    let reserved = PADDING * 2 + FOOTER_HEIGHT;
    let mut panel_height = if height >= reserved {
        height - reserved
    } else {
        0
    };
    if panel_height < panel_floor {
        panel_height = panel_floor;
    }
    let consoles = Panel { x: PADDING, y: PADDING, width: CONSOLE_PANEL_WIDTH, height: panel_height };
    let games_x = PADDING + CONSOLE_PANEL_WIDTH + PANEL_GAP;
    let mut games_width = if width >= games_x + PADDING {
        width - (games_x + PADDING)
    } else {
        0
    };
    if games_width < CONSOLE_PANEL_WIDTH {
        games_width = CONSOLE_PANEL_WIDTH;
    }
    let games = Panel { x: games_x, y: PADDING, width: games_width, height: panel_height };
    let mut body = if panel_height >= HEADER_GAP {
        panel_height - HEADER_GAP
    } else {
        0
    };
    if body < ROW_HEIGHT {
        body = ROW_HEIGHT;
    }
    let mut visible_rows = body / ROW_HEIGHT;
    if visible_rows < 1 {
        visible_rows = 1;
    }
    let footer_top = if height >= FOOTER_HEIGHT - 12 {
        height - (FOOTER_HEIGHT - 12)
    } else {
        0
    };
    Layout { consoles, games, visible_rows, footer_top }
}

/// Keeps a scroll offset such that the selected row stays visible:
/// scrolled up to the selection when it went above the window, down
/// just enough when it went below, and never past the end of the list.
pub fn clamp_scroll(scroll: usize, index: usize, total: usize, visible: usize) -> (r: usize)
    requires
        index < total,
        visible >= 1,
        scroll <= total,
        total + visible <= usize::MAX,
    ensures
        total <= visible ==> r == 0,
        total > visible ==> {
            &&& (index < scroll ==> r == (if index <= total - visible {
                index as int
            } else {
                (total - visible) as int
            }))
            &&& (scroll <= index < scroll + visible ==> r == (if scroll <= total - visible {
                scroll as int
            } else {
                (total - visible) as int
            }))
            &&& (index >= scroll + visible ==> r == (if index + 1 - visible <= total - visible {
                (index + 1 - visible) as int
            } else {
                (total - visible) as int
            }))
            &&& r <= index
            &&& index < r + visible
        },
{
    if total <= visible {
        return 0;
    }
    let mut s = scroll;
    if index < s {
        s = index;
    } else {
        let bottom_threshold = s + visible - 1;
        if index > bottom_threshold {
            s = index + 1 - visible;
        }
    }
    if s < total - visible {
        s
    } else {
        total - visible
    }
}

/// Which column of the selector has focus.
#[derive(Clone, Copy, Debug, PartialEq, Eq, Structural)]
pub enum Column {
    Systems,
    Games,
}

/// The selector's navigation state: the focused column, one selection
/// per column, one scroll offset per column.
#[derive(Clone, Copy, Debug, PartialEq, Eq, Structural)]
pub struct SelectorState {
    pub active_column: Column,
    pub system_index: usize,
    pub game_index: usize,
    pub system_scroll: usize,
    pub game_scroll: usize,
}

impl SelectorState {
    pub fn new() -> (r: SelectorState)
        ensures
            r == (SelectorState {
                active_column: Column::Systems,
                system_index: 0,
                game_index: 0,
                system_scroll: 0,
                game_scroll: 0,
            }),
    {
        SelectorState {
            active_column: Column::Systems,
            system_index: 0,
            game_index: 0,
            system_scroll: 0,
            game_scroll: 0,
        }
    }

    /// Moves the active column's selection by `delta` rows, clamped to
    /// the list; a change of system resets the game cursor.
    pub fn move_selection(&mut self, delta: i64, systems_len: usize, games_len: usize)
        requires
            systems_len <= 0x7fff_ffff,
            games_len <= 0x7fff_ffff,
            old(self).system_index <= 0x7fff_ffff,
            old(self).game_index <= 0x7fff_ffff,
            -0x7fff_ffff <= delta <= 0x7fff_ffff,
        ensures
            old(self).active_column is Systems ==> {
                &&& final(self).active_column == old(self).active_column
                &&& final(self).game_scroll == (if systems_len == 0 || spec_clamped(
                    old(self).system_index as int + delta,
                    systems_len as int,
                ) == old(self).system_index {
                    old(self).game_scroll as int
                } else {
                    0
                })
                &&& (systems_len == 0 ==> *final(self) == *old(self))
                &&& (systems_len > 0 ==> final(self).system_index == spec_clamped(
                    old(self).system_index as int + delta,
                    systems_len as int,
                ))
                &&& (systems_len > 0 && spec_clamped(
                    old(self).system_index as int + delta,
                    systems_len as int,
                ) != old(self).system_index ==> final(self).game_index == 0)
            },
            old(self).active_column is Games ==> {
                &&& final(self).active_column == old(self).active_column
                &&& final(self).system_index == old(self).system_index
                &&& (games_len == 0 ==> *final(self) == *old(self))
                &&& (games_len > 0 ==> final(self).game_index == spec_clamped(
                    old(self).game_index as int + delta,
                    games_len as int,
                ))
            },
    {
        match self.active_column {
            Column::Systems => {
                if systems_len == 0 {
                    return ;
                }
                let current = self.system_index as i64;
                let mut next = current + delta;
                if next < 0 {
                    next = 0;
                }
                if next > (systems_len - 1) as i64 {
                    next = (systems_len - 1) as i64;
                }
                if next as usize != self.system_index {
                    self.system_index = next as usize;
                    self.game_index = 0;
                    self.game_scroll = 0;
                }
            },
            Column::Games => {
                if games_len == 0 {
                    return ;
                }
                let current = self.game_index as i64;
                let mut next = current + delta;
                if next < 0 {
                    next = 0;
                }
                if next > (games_len - 1) as i64 {
                    next = (games_len - 1) as i64;
                }
                self.game_index = next as usize;
            },
        }
    }

    /// Moves the selection by whole pages of the visible row count.
    pub fn page_move(&mut self, delta: i64, visible_rows: usize, systems_len: usize, games_len: usize)
        requires
            systems_len <= 0x7fff_ffff,
            games_len <= 0x7fff_ffff,
            old(self).system_index <= 0x7fff_ffff,
            old(self).game_index <= 0x7fff_ffff,
            -0x7fff <= delta <= 0x7fff,
            visible_rows <= 0xffff,
        ensures
            ({
                let step = (if visible_rows >= 1 {
                    visible_rows as int
                } else {
                    1
                });
                old(self).active_column is Systems ==> {
                    &&& (systems_len == 0 ==> *final(self) == *old(self))
                    &&& (systems_len > 0 ==> final(self).system_index == spec_clamped(
                        old(self).system_index + step * delta,
                        systems_len as int,
                    ))
                }
            }),
            old(self).active_column is Games ==> {
                let step = (if visible_rows >= 1 {
                    visible_rows as int
                } else {
                    1
                });
                &&& final(self).system_index == old(self).system_index
                &&& (games_len == 0 ==> *final(self) == *old(self))
                &&& (games_len > 0 ==> final(self).game_index == spec_clamped(
                    old(self).game_index + step * delta,
                    games_len as int,
                ))
            },
    {
        let step: i64 = if visible_rows >= 1 {
            visible_rows as i64
        } else {
            1
        };
        proof {
            assert(-0x7fff_ffff <= step * delta <= 0x7fff_ffff) by (nonlinear_arith)
                requires
                    1 <= step <= 0x10000,
                    -0x7fff <= delta <= 0x7fff,
            ;
        }
        self.move_selection(step * delta, systems_len, games_len);
    }

    /// Jumps to the first or last row of the active column.
    pub fn move_to_edge(&mut self, end: bool, systems_len: usize, games_len: usize)
        ensures
            old(self).active_column is Systems ==> {
                &&& (systems_len == 0 ==> *final(self) == *old(self))
                &&& (systems_len > 0 ==> final(self).system_index == (if end {
                    systems_len - 1
                } else {
                    0
                }))
                &&& final(self).active_column == old(self).active_column
            },
            old(self).active_column is Games ==> {
                &&& (games_len == 0 ==> *final(self) == *old(self))
                &&& (games_len > 0 ==> final(self).game_index == (if end {
                    games_len - 1
                } else {
                    0
                }))
                &&& final(self).system_index == old(self).system_index
                &&& final(self).active_column == old(self).active_column
            },
    {
        match self.active_column {
            Column::Systems => {
                if systems_len == 0 {
                    return ;
                }
                let target = if end {
                    systems_len - 1
                } else {
                    0
                };
                if target != self.system_index {
                    self.system_index = target;
                    self.game_index = 0;
                    self.game_scroll = 0;
                }
            },
            Column::Games => {
                if games_len == 0 {
                    return ;
                }
                self.game_index = if end {
                    games_len - 1
                } else {
                    0
                };
            },
        }
    }

    /// Focuses the games column, but only when it has rows.
    pub fn activate_games_column(&mut self, games_len: usize)
        ensures
            games_len > 0 ==> *final(self) == (SelectorState {
                active_column: Column::Games,
                ..*old(self)
            }),
            games_len == 0 ==> *final(self) == *old(self),
    {
        if games_len > 0 {
            self.active_column = Column::Games;
        }
    }
}

/// A position clamped into `[0, len)`.
pub open spec fn spec_clamped(v: int, len: int) -> int {
    if v < 0 {
        0
    } else if v > len - 1 {
        len - 1
    } else {
        v
    }
}

/// The double-click decision: a second click on the same row within the
/// timeout activates it.
pub fn is_double_click(
    prev: Option<(usize, u64)>,
    index: usize,
    now_ms: u64,
    timeout_ms: u64,
) -> (r: bool)
    ensures
        r == (prev matches Some(p) && p.0 == index && p.1 <= now_ms && now_ms - p.1 <= timeout_ms),
{
    match prev {
        Some((prev_index, at)) => prev_index == index && at <= now_ms && now_ms - at <= timeout_ms,
        None => false,
    }
}

} // verus!
