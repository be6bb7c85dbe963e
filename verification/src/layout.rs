//! The grids of panels: how rows are divided and which panel stands in which cell.

use crate::amount::{clamp_units, mul_amounts, Amount, ONE};
use vstd::prelude::*;

verus! {

/// The rows of a grid.
pub const GRID_ROWS: usize = 6;

/// The columns of a grid.
pub const GRID_COLS: usize = 3;

/// The height of a row whose factor is one.
pub const ROW_HEIGHT: Amount = 14_000_000_000;

/// How a row of the bot window is divided.
#[derive(Clone, Copy, Debug, PartialEq, Eq, Structural)]
pub enum RowSpanMode {
    /// Three equal columns.
    Split3,
    /// A large column, then a small one.
    Left2Right1,
    /// A small column, then a large one.
    Left1Right2,
    /// One column over the whole width.
    Full,
}

/// A row of the bot window.
#[derive(Clone, Copy, Debug, PartialEq, Eq, Structural)]
pub struct RowConfig {
    pub height_factor: Amount,
    pub span_mode: RowSpanMode,
    /// The part of the width that the large column takes.
    pub big_ratio: Amount,
}

/// How a row of the grid window is divided.
#[derive(Clone, Copy, Debug, PartialEq, Eq, Structural)]
pub enum RowLayout {
    Three,
    Two12,
    Two23,
    One123,
}

/// What a cell of the grid window shows.
#[derive(Clone, Copy, Debug, PartialEq, Eq, Structural)]
pub enum CellKind {
    Empty,
    Summary,
    Candles,
    Volume,
    Depth,
    LaddersTrades,
    ScriptEngine,
    TradingPanel,
}

/// The panels that can be switched off.
#[derive(Clone, Copy, Debug, PartialEq, Eq, Structural)]
pub struct LayoutSettings {
    pub show_depth: bool,
    pub show_ladders: bool,
    pub show_trades: bool,
    pub show_volume: bool,
}

/// What a cell of the bot window shows.
#[derive(Clone, Copy, Debug, PartialEq, Eq, Structural)]
pub enum Panel {
    Chart,
    NoSnapshot,
    Depth,
    DepthHidden,
    Ladders,
    LaddersHidden,
    NoDepth,
    Trading,
    Script,
    BotStatus,
    Trades,
    TradesHidden,
    Free,
}

/// A cell of the bot window.
#[derive(Clone, Copy, Debug, PartialEq, Eq, Structural)]
pub struct GridCell {
    pub col: usize,
    pub width: Amount,
    pub panel: Panel,
}

/// A cell of the grid window: the column that it is named after, its place among the
/// kinds, and its width.
#[derive(Clone, Copy, Debug, PartialEq, Eq, Structural)]
pub struct KindCell {
    pub col: usize,
    pub index: usize,
    pub width: Amount,
}

/// The three widths of a row of the bot window.
pub open spec fn row_widths(cfg: RowConfig, total: Amount) -> (Amount, Amount, Amount) {
    let big = crate::amount::product(total, cfg.big_ratio);
    let small = crate::amount::sat(total - big);
    match cfg.span_mode {
        RowSpanMode::Split3 => {
            let w = (total / 3) as Amount;
            (w, w, w)
        },
        RowSpanMode::Left2Right1 => (big as Amount, small as Amount, 0),
        RowSpanMode::Left1Right2 => (small as Amount, big as Amount, 0),
        RowSpanMode::Full => (total, 0, 0),
    }
}

pub open spec fn cell(col: usize, width: Amount, panel: Panel) -> GridCell {
    GridCell { col, width, panel }
}

/// The cells of a row, those without width among them.
pub open spec fn planned(row: nat, w: (Amount, Amount, Amount), has_snapshot: bool, l: LayoutSettings) -> Seq<
    GridCell,
> {
    if row == 0 {
        seq![
            cell(
                0,
                w.0,
                if has_snapshot {
                    Panel::Chart
                } else {
                    Panel::NoSnapshot
                },
            ),
        ]
    } else if row == 1 {
        let trading = cell(
            2,
            if w.2 > w.1 {
                w.2
            } else {
                w.1
            },
            Panel::Trading,
        );
        if has_snapshot {
            seq![
                cell(
                    0,
                    w.0,
                    if l.show_depth {
                        Panel::Depth
                    } else {
                        Panel::DepthHidden
                    },
                ),
                cell(
                    1,
                    w.1,
                    if l.show_ladders {
                        Panel::Ladders
                    } else {
                        Panel::LaddersHidden
                    },
                ),
                trading,
            ]
        } else {
            seq![cell(0, w.0, Panel::NoDepth), trading]
        }
    } else if row == 2 {
        if has_snapshot {
            seq![
                cell(0, w.0, Panel::Script),
                cell(1, w.1, Panel::BotStatus),
                cell(
                    2,
                    w.2,
                    if l.show_trades {
                        Panel::Trades
                    } else {
                        Panel::TradesHidden
                    },
                ),
            ]
        } else {
            seq![cell(0, w.0, Panel::Script), cell(1, w.1, Panel::BotStatus)]
        }
    } else {
        seq![cell(0, w.0, Panel::Free)]
    }
}

/// The cells that have a width.
pub open spec fn with_width(s: Seq<GridCell>) -> Seq<GridCell>
    decreases s.len(),
{
    if s.len() == 0 {
        s
    } else if s.last().width > 0 {
        with_width(s.drop_last()).push(s.last())
    } else {
        with_width(s.drop_last())
    }
}

/// The cells of a row of the grid window.
pub open spec fn kind_cells(row: nat, layout: RowLayout, ratio: Amount, total: Amount) -> Seq<KindCell> {
    let big = crate::amount::product(total, ratio);
    let small = crate::amount::sat(total - big);
    let first = (row * 3) as usize;
    match layout {
        RowLayout::Three => {
            let w = (total / 3) as Amount;
            seq![
                KindCell { col: 0, index: first, width: w },
                KindCell { col: 1, index: (first + 1) as usize, width: w },
                KindCell { col: 2, index: (first + 2) as usize, width: w },
            ]
        },
        RowLayout::Two12 => seq![
            KindCell { col: 0, index: first, width: big as Amount },
            KindCell { col: 2, index: (first + 2) as usize, width: small as Amount },
        ],
        RowLayout::Two23 => seq![
            KindCell { col: 0, index: first, width: small as Amount },
            KindCell { col: 2, index: (first + 1) as usize, width: big as Amount },
        ],
        RowLayout::One123 => seq![KindCell { col: 0, index: first, width: total }],
    }
}

impl Default for RowConfig {
    fn default() -> (r: Self)
        ensures
            r.height_factor == ONE,
            r.span_mode == RowSpanMode::Split3,
            r.big_ratio == 66_000_000,
    {
        RowConfig { height_factor: ONE, span_mode: RowSpanMode::Split3, big_ratio: 66_000_000 }
    }
}

impl Default for LayoutSettings {
    fn default() -> (r: Self)
        ensures
            r == (LayoutSettings {
                show_depth: true,
                show_ladders: true,
                show_trades: true,
                show_volume: true,
            }),
    {
        LayoutSettings { show_depth: true, show_ladders: true, show_trades: true, show_volume: true }
    }
}

/// What the user does with a row of the bot window.
#[derive(Clone, Copy, Debug, PartialEq, Eq, Structural)]
pub enum RowEvent {
    Height { factor: Amount },
    Span { mode: RowSpanMode },
    Ratio { big: Amount },
}

/// A row after a control: its height between a half and three times, its large column
/// between three and eight tenths; only two columns have a ratio.
pub open spec fn row_after(cfg: RowConfig, e: RowEvent) -> RowConfig {
    match e {
        RowEvent::Height { factor } => RowConfig {
            height_factor: crate::amount::clamp_amount(factor, 50_000_000, 300_000_000),
            ..cfg
        },
        RowEvent::Span { mode } => RowConfig { span_mode: mode, ..cfg },
        RowEvent::Ratio { big } => if cfg.span_mode is Left2Right1 || cfg.span_mode is Left1Right2 {
            RowConfig {
                big_ratio: crate::amount::clamp_amount(big, 30_000_000, 80_000_000),
                ..cfg
            }
        } else {
            cfg
        },
    }
}

impl RowConfig {
    /// Does what the user asked for.
    pub fn handle(&mut self, e: &RowEvent)
        ensures
            *final(self) == row_after(*old(self), *e),
    {
        match e {
            RowEvent::Height { factor } => {
                self.height_factor = clamp_units(*factor, 50_000_000, 300_000_000);
            },
            RowEvent::Span { mode } => {
                self.span_mode = *mode;
            },
            RowEvent::Ratio { big } => {
                if matches!(self.span_mode, RowSpanMode::Left2Right1 | RowSpanMode::Left1Right2) {
                    self.big_ratio = clamp_units(*big, 30_000_000, 80_000_000);
                }
            },
        }
    }
}

/// The ratio of a row of the grid window: between two and eight tenths where the row has
/// two cells, else as it was.
pub fn grid_ratio(layout: RowLayout, ratio: Amount, big: Amount) -> (r: Amount)
    ensures
        r == (if layout is Two12 || layout is Two23 {
            crate::amount::clamp_amount(big, 20_000_000, 80_000_000)
        } else {
            ratio
        }),
{
    if matches!(layout, RowLayout::Two12 | RowLayout::Two23) {
        clamp_units(big, 20_000_000, 80_000_000)
    } else {
        ratio
    }
}

impl RowSpanMode {
    pub open spec fn label_text(self) -> Seq<char> {
        match self {
            RowSpanMode::Split3 => "3 cols"@,
            RowSpanMode::Left2Right1 => "2+1"@,
            RowSpanMode::Left1Right2 => "1+2"@,
            RowSpanMode::Full => "full"@,
        }
    }

    pub fn label(self) -> (r: &'static str)
        ensures
            r@ == self.label_text(),
    {
        match self {
            RowSpanMode::Split3 => "3 cols",
            RowSpanMode::Left2Right1 => "2+1",
            RowSpanMode::Left1Right2 => "1+2",
            RowSpanMode::Full => "full",
        }
    }
}

impl RowLayout {
    pub open spec fn label_text(self) -> Seq<char> {
        match self {
            RowLayout::Three => "3 cells (equal)"@,
            RowLayout::Two12 => "2 cells (Left big)"@,
            RowLayout::Two23 => "2 cells (Right big)"@,
            RowLayout::One123 => "1 cell (full row)"@,
        }
    }

    pub fn label(self) -> (r: &'static str)
        ensures
            r@ == self.label_text(),
    {
        match self {
            RowLayout::Three => "3 cells (equal)",
            RowLayout::Two12 => "2 cells (Left big)",
            RowLayout::Two23 => "2 cells (Right big)",
            RowLayout::One123 => "1 cell (full row)",
        }
    }
}

impl CellKind {
    pub open spec fn label_text(self) -> Seq<char> {
        match self {
            CellKind::Empty => "Empty"@,
            CellKind::Summary => "Summary"@,
            CellKind::Candles => "Candles"@,
            CellKind::Volume => "Volume"@,
            CellKind::Depth => "Depth"@,
            CellKind::LaddersTrades => "Ladders + Trades"@,
            CellKind::ScriptEngine => "Script Engine"@,
            CellKind::TradingPanel => "Trading Panel"@,
        }
    }

    pub fn label(self) -> (r: &'static str)
        ensures
            r@ == self.label_text(),
    {
        match self {
            CellKind::Empty => "Empty",
            CellKind::Summary => "Summary",
            CellKind::Candles => "Candles",
            CellKind::Volume => "Volume",
            CellKind::Depth => "Depth",
            CellKind::LaddersTrades => "Ladders + Trades",
            CellKind::ScriptEngine => "Script Engine",
            CellKind::TradingPanel => "Trading Panel",
        }
    }

    /// Every kind, in the order of the menu.
    pub open spec fn kinds() -> Seq<CellKind> {
        seq![
            CellKind::Empty,
            CellKind::Summary,
            CellKind::Candles,
            CellKind::Volume,
            CellKind::Depth,
            CellKind::LaddersTrades,
            CellKind::ScriptEngine,
            CellKind::TradingPanel,
        ]
    }

    pub fn all() -> (r: Vec<CellKind>)
        ensures
            r@ == CellKind::kinds(),
    {
        let r: Vec<CellKind> = vec![
            CellKind::Empty,
            CellKind::Summary,
            CellKind::Candles,
            CellKind::Volume,
            CellKind::Depth,
            CellKind::LaddersTrades,
            CellKind::ScriptEngine,
            CellKind::TradingPanel,
        ];
        assert(r@ =~= CellKind::kinds());
        r
    }
}

/// The rows of the bot window at the start: a tall chart over the whole width, two rows of
/// three panels, and free rows.
pub open spec fn first_rows() -> Seq<RowConfig> {
    let plain = RowConfig { height_factor: ONE, span_mode: RowSpanMode::Split3, big_ratio: 66_000_000 };
    let panels = RowConfig { height_factor: 140_000_000, ..plain };
    seq![
        RowConfig { height_factor: 200_000_000, span_mode: RowSpanMode::Full, big_ratio: 66_000_000 },
        panels,
        panels,
        plain,
        plain,
        plain,
    ]
}

/// The rows of the bot window at the start.
pub fn default_rows() -> (r: Vec<RowConfig>)
    ensures
        r@ == first_rows(),
{
    let plain = RowConfig { height_factor: ONE, span_mode: RowSpanMode::Split3, big_ratio: 66_000_000 };
    let panels = RowConfig {
        height_factor: 140_000_000,
        span_mode: RowSpanMode::Split3,
        big_ratio: 66_000_000,
    };
    let r: Vec<RowConfig> = vec![
        RowConfig { height_factor: 200_000_000, span_mode: RowSpanMode::Full, big_ratio: 66_000_000 },
        panels,
        panels,
        plain,
        plain,
        plain,
    ];
    assert(r@ =~= first_rows());
    r
}

/// The kinds of the cells of the grid window at the start.
pub fn default_cells() -> (r: Vec<CellKind>)
    ensures
        r@.len() == GRID_ROWS * GRID_COLS,
        r@[0] == CellKind::Summary,
        r@[1] == CellKind::Candles,
        r@[2] == CellKind::Depth,
        r@[3] == CellKind::Volume,
        r@[4] == CellKind::LaddersTrades,
        r@[6] == CellKind::ScriptEngine,
        r@[9] == CellKind::TradingPanel,
        forall|i: int|
            0 <= i < r@.len() && i > 4 && i != 6 && i != 9 ==> #[trigger] r@[i] == CellKind::Empty,
{
    vec![
        CellKind::Summary,
        CellKind::Candles,
        CellKind::Depth,
        CellKind::Volume,
        CellKind::LaddersTrades,
        CellKind::Empty,
        CellKind::ScriptEngine,
        CellKind::Empty,
        CellKind::Empty,
        CellKind::TradingPanel,
        CellKind::Empty,
        CellKind::Empty,
        CellKind::Empty,
        CellKind::Empty,
        CellKind::Empty,
        CellKind::Empty,
        CellKind::Empty,
        CellKind::Empty,
    ]
}

/// The place of a cell among the kinds.
pub fn cell_index(row: usize, col: usize) -> (r: usize)
    requires
        row < GRID_ROWS,
        col < GRID_COLS,
    ensures
        r == row * GRID_COLS + col,
        r < GRID_ROWS * GRID_COLS,
{
    row * 3 + col
}

fn third(total: Amount) -> (r: Amount)
    requires
        total >= 0,
    ensures
        r == total / 3,
{
    total / 3
}

/// The three widths of a row of the bot window.
pub fn cell_widths(cfg: &RowConfig, total: Amount) -> (r: (Amount, Amount, Amount))
    requires
        total >= 0,
    ensures
        r == row_widths(*cfg, total),
{
    match cfg.span_mode {
        RowSpanMode::Split3 => {
            let w: Amount = third(total);
            (w, w, w)
        },
        RowSpanMode::Left2Right1 => {
            let big: Amount = mul_amounts(total, cfg.big_ratio);
            (big, crate::amount::sat_sub(total, big), 0)
        },
        RowSpanMode::Left1Right2 => {
            let big: Amount = mul_amounts(total, cfg.big_ratio);
            (crate::amount::sat_sub(total, big), big, 0)
        },
        RowSpanMode::Full => (total, 0, 0),
    }
}

/// The height of a row of the bot window.
pub fn row_height(cfg: &RowConfig) -> (r: Amount)
    ensures
        r == crate::amount::product(ROW_HEIGHT, cfg.height_factor),
{
    mul_amounts(ROW_HEIGHT, cfg.height_factor)
}

/// The cells of a row of the bot window that are shown.
pub fn grid_cells(
    row: usize,
    cfg: &RowConfig,
    total: Amount,
    has_snapshot: bool,
    layout: &LayoutSettings,
) -> (r: Vec<GridCell>)
    requires
        total >= 0,
    ensures
        r@ == with_width(planned(row as nat, row_widths(*cfg, total), has_snapshot, *layout)),
{
    let w: (Amount, Amount, Amount) = cell_widths(cfg, total);
    let mut plan: Vec<GridCell> = Vec::new();
    if row == 0 {
        let panel: Panel = if has_snapshot {
            Panel::Chart
        } else {
            Panel::NoSnapshot
        };
        plan.push(GridCell { col: 0, width: w.0, panel });
    } else if row == 1 {
        if has_snapshot {
            let depth: Panel = if layout.show_depth {
                Panel::Depth
            } else {
                Panel::DepthHidden
            };
            let ladders: Panel = if layout.show_ladders {
                Panel::Ladders
            } else {
                Panel::LaddersHidden
            };
            plan.push(GridCell { col: 0, width: w.0, panel: depth });
            plan.push(GridCell { col: 1, width: w.1, panel: ladders });
        } else {
            plan.push(GridCell { col: 0, width: w.0, panel: Panel::NoDepth });
        }
        let width: Amount = if w.2 > w.1 {
            w.2
        } else {
            w.1
        };
        plan.push(GridCell { col: 2, width, panel: Panel::Trading });
    } else if row == 2 {
        plan.push(GridCell { col: 0, width: w.0, panel: Panel::Script });
        plan.push(GridCell { col: 1, width: w.1, panel: Panel::BotStatus });
        if has_snapshot {
            let trades: Panel = if layout.show_trades {
                Panel::Trades
            } else {
                Panel::TradesHidden
            };
            plan.push(GridCell { col: 2, width: w.2, panel: trades });
        }
    } else {
        plan.push(GridCell { col: 0, width: w.0, panel: Panel::Free });
    }
    assert(plan@ =~= planned(row as nat, w, has_snapshot, *layout));
    let n: usize = plan.len();
    let mut out: Vec<GridCell> = Vec::new();
    let mut i: usize = 0;
    assert(plan@.take(0) =~= Seq::empty());
    while i < n
        invariant
            i <= n,
            n == plan@.len(),
            out@ == with_width(plan@.take(i as int)),
        decreases n - i,
    {
        proof {
            assert(plan@.take(i + 1).drop_last() =~= plan@.take(i as int));
            assert(plan@.take(i + 1).last() == plan@[i as int]);
        }
        if plan[i].width > 0 {
            out.push(plan[i]);
        }
        i += 1;
    }
    assert(plan@.take(n as int) =~= plan@);
    out
}

/// The cells of a row of the grid window.
pub fn layout_cells(row: usize, layout: RowLayout, big_ratio: Amount, total: Amount) -> (r: Vec<KindCell>)
    requires
        row < GRID_ROWS,
        total >= 0,
    ensures
        r@ == kind_cells(row as nat, layout, big_ratio, total),
{
    let first: usize = cell_index(row, 0);
    let big: Amount = mul_amounts(total, big_ratio);
    let small: Amount = crate::amount::sat_sub(total, big);
    let r: Vec<KindCell> = match layout {
        RowLayout::Three => {
            let w: Amount = third(total);
            vec![
                KindCell { col: 0, index: first, width: w },
                KindCell { col: 1, index: first + 1, width: w },
                KindCell { col: 2, index: first + 2, width: w },
            ]
        },
        RowLayout::Two12 => vec![
            KindCell { col: 0, index: first, width: big },
            KindCell { col: 2, index: first + 2, width: small },
        ],
        RowLayout::Two23 => vec![
            KindCell { col: 0, index: first, width: small },
            KindCell { col: 2, index: first + 1, width: big },
        ],
        RowLayout::One123 => vec![KindCell { col: 0, index: first, width: total }],
    };
    assert(r@ =~= kind_cells(row as nat, layout, big_ratio, total));
    r
}

// ---------------------------------------------------------------------------
// Laws

/// Distinct cells of the grid have distinct places.
pub proof fn law_cells_do_not_collide(r1: nat, c1: nat, r2: nat, c2: nat)
    requires
        c1 < GRID_COLS,
        c2 < GRID_COLS,
        r1 * GRID_COLS + c1 == r2 * GRID_COLS + c2,
    ensures
        r1 == r2,
        c1 == c2,
{
}

/// The columns of a row never exceed its width, and fill it where it is not split into
/// three.
pub proof fn law_columns_fill_the_row(cfg: RowConfig, total: Amount)
    requires
        0 <= total,
        0 <= cfg.big_ratio <= ONE,
    ensures
        row_widths(cfg, total).0 + row_widths(cfg, total).1 + row_widths(cfg, total).2 <= total,
        cfg.span_mode != RowSpanMode::Split3 ==> row_widths(cfg, total).0 + row_widths(cfg, total).1
            + row_widths(cfg, total).2 == total,
        row_widths(cfg, total).0 >= 0 && row_widths(cfg, total).1 >= 0 && row_widths(cfg, total).2 >= 0,
{
    let p = total * cfg.big_ratio;
    assert(0 <= p <= total * 100_000_000) by (nonlinear_arith)
        requires
            p == total * cfg.big_ratio,
            0 <= total,
            0 <= cfg.big_ratio <= 100_000_000,
    ;
}

/// Every shown cell has a width.
pub proof fn law_shown_cells_have_width(s: Seq<GridCell>, i: int)
    requires
        0 <= i < with_width(s).len(),
    ensures
        with_width(s)[i].width > 0,
    decreases s.len(),
{
    if s.len() > 0 {
        let p = with_width(s.drop_last());
        if i < p.len() {
            law_shown_cells_have_width(s.drop_last(), i);
        }
    }
}

/// The menu lists every kind of cell exactly once.
pub proof fn law_menu_lists_every_kind(k: CellKind)
    ensures
        CellKind::kinds().contains(k),
        CellKind::kinds().no_duplicates(),
{
    let s = CellKind::kinds();
    match k {
        CellKind::Empty => assert(s[0] == k),
        CellKind::Summary => assert(s[1] == k),
        CellKind::Candles => assert(s[2] == k),
        CellKind::Volume => assert(s[3] == k),
        CellKind::Depth => assert(s[4] == k),
        CellKind::LaddersTrades => assert(s[5] == k),
        CellKind::ScriptEngine => assert(s[6] == k),
        CellKind::TradingPanel => assert(s[7] == k),
    }
}

/// In a row of two columns the large one stands left or right, and takes the chosen part of
/// the width; the other gets the rest.
pub proof fn law_large_columns_change_sides(cfg: RowConfig, total: Amount)
    requires
        0 <= total <= 1_000_000_000_000_000_000_000_000,
        0 <= cfg.big_ratio <= ONE,
    ensures
        ({
            let l = row_widths(RowConfig { span_mode: RowSpanMode::Left2Right1, ..cfg }, total);
            let r = row_widths(RowConfig { span_mode: RowSpanMode::Left1Right2, ..cfg }, total);
            let three = row_widths(RowConfig { span_mode: RowSpanMode::Split3, ..cfg }, total);
            let full = row_widths(RowConfig { span_mode: RowSpanMode::Full, ..cfg }, total);
            &&& l.0 == r.1 && l.1 == r.0 && l.2 == 0 && r.2 == 0
            &&& l.0 + l.1 == total
            &&& l.0 * ONE <= total * cfg.big_ratio < (l.0 + 1) * ONE
            &&& three.0 == three.1 == three.2 && 3 * three.0 <= total < 3 * three.0 + 3
            &&& full == (total, 0 as Amount, 0 as Amount)
        }),
{
    let p = total * cfg.big_ratio;
    assert(0 <= p <= total * 100_000_000) by (nonlinear_arith)
        requires
            p == total * cfg.big_ratio,
            0 <= total,
            0 <= cfg.big_ratio <= 100_000_000,
    ;
}

/// The cells of a row of the grid window belong to that row, and the large one stands left or
/// right as the layout says.
pub proof fn law_grid_cells_belong_to_their_row(row: nat, ratio: Amount, total: Amount)
    requires
        row <= 100,
        0 <= total <= 1_000_000_000_000_000_000_000_000,
        0 <= ratio <= ONE,
    ensures
        ({
            let three = kind_cells(row, RowLayout::Three, ratio, total);
            let left = kind_cells(row, RowLayout::Two12, ratio, total);
            let right = kind_cells(row, RowLayout::Two23, ratio, total);
            let one = kind_cells(row, RowLayout::One123, ratio, total);
            &&& three.len() == 3 && left.len() == 2 && right.len() == 2 && one.len() == 1
            &&& forall|i: int| 0 <= i < 3 ==> (#[trigger] three[i]).index == 3 * row + i && three[i].col == i
            &&& left[0].index == 3 * row && left[1].index == 3 * row + 2
            &&& right[0].index == 3 * row && right[1].index == 3 * row + 1
            &&& one[0].index == 3 * row && one[0].width == total
            &&& left[0].width == right[1].width && left[1].width == right[0].width
            &&& left[0].width + left[1].width == total
            &&& left[0].width * ONE <= total * ratio < (left[0].width + 1) * ONE
        }),
{
    let p = total * ratio;
    assert(0 <= p <= total * 100_000_000) by (nonlinear_arith)
        requires
            p == total * ratio,
            0 <= total,
            0 <= ratio <= 100_000_000,
    ;
}

/// A row takes over what its controls name, within their bounds, and nothing else.
pub proof fn law_row_controls_set_what_they_name(cfg: RowConfig, a: Amount, mode: RowSpanMode)
    ensures
        ({
            let h = row_after(cfg, RowEvent::Height { factor: a });
            let r = row_after(cfg, RowEvent::Ratio { big: a });
            let two = cfg.span_mode is Left2Right1 || cfg.span_mode is Left1Right2;
            &&& h == (RowConfig { height_factor: h.height_factor, ..cfg })
            &&& 50_000_000 <= h.height_factor <= 300_000_000
            &&& 50_000_000 <= a <= 300_000_000 ==> h.height_factor == a
            &&& row_after(cfg, RowEvent::Span { mode }) == (RowConfig { span_mode: mode, ..cfg })
            &&& r == (RowConfig { big_ratio: r.big_ratio, ..cfg })
            &&& !two ==> r == cfg
            &&& two ==> 30_000_000 <= r.big_ratio <= 80_000_000 && (30_000_000 <= a <= 80_000_000 ==> r.big_ratio
                == a)
        }),
{
}

/// The bot window shows its chart in the first row, the book and the trading panel in the
/// second, the script, the bot and the trades in the third, and says where a panel is hidden
/// or has nothing to show.
pub proof fn law_panels_have_their_place(w: (Amount, Amount, Amount), l: LayoutSettings)
    ensures
        planned(0, w, true, l)[0].panel == Panel::Chart,
        planned(0, w, false, l)[0].panel == Panel::NoSnapshot,
        l.show_depth ==> planned(1, w, true, l)[0].panel == Panel::Depth,
        !l.show_depth ==> planned(1, w, true, l)[0].panel == Panel::DepthHidden,
        l.show_ladders ==> planned(1, w, true, l)[1].panel == Panel::Ladders,
        !l.show_ladders ==> planned(1, w, true, l)[1].panel == Panel::LaddersHidden,
        planned(1, w, true, l)[2].panel == Panel::Trading,
        planned(1, w, false, l).last().panel == Panel::Trading,
        planned(2, w, true, l)[0].panel == Panel::Script,
        planned(2, w, true, l)[1].panel == Panel::BotStatus,
        l.show_trades ==> planned(2, w, true, l)[2].panel == Panel::Trades,
        !l.show_trades ==> planned(2, w, true, l)[2].panel == Panel::TradesHidden,
        forall|row: nat, has: bool| row > 2 ==> (#[trigger] planned(row, w, has, l))[0].panel == Panel::Free,
{
}

} // verus!
