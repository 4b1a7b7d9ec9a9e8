//! The sibling normalizer: before drawing, every `Full`-sized widget gets
//! a concrete percentage pair, an equal share of whatever percentage its
//! sibling group leaves unclaimed.
//!
//! Widths are grouped per row of the 3x3 position grid, heights per
//! column. For each parent's children the declared percentages of each
//! group are summed and validated against 100; each `Full` child then
//! receives `(100 - sum) / count` along both of its axes, where `count`
//! is the number of `Full` children in that same group.

use vstd::prelude::*;

use crate::enums::Col;
use crate::enums::Position;
use crate::enums::Row;
use crate::enums::Size;
use crate::enums::spec_col_of;
use crate::enums::spec_row_of;
use crate::error::AxisGroup;
use crate::error::Error;
use crate::frac::Frac;
use crate::frac::Rat;
use crate::frac::rat_add;
use crate::frac::rat_div;
use crate::frac::rat_in_bounds;
use crate::frac::rat_le;
use crate::frac::rat_of_int;
use crate::frac::rat_reduce;
use crate::frac::rat_sub;
use crate::ui::Ui;
use crate::ui::lemma_spec_find_some;
use crate::ui::spec_find;
use crate::widget::Id;
use crate::widget::Widget;

verus! {

/// The widget a child id refers to.
pub open spec fn child_widget(ws: Seq<Widget>, children: Seq<Id>, k: int) -> Widget {
    ws[spec_find(ws, children[k]@)->0]
}

/// How many of the first `k` children are `Full`-sized and sit in row
/// `row`.
pub open spec fn width_full_count(ws: Seq<Widget>, children: Seq<Id>, row: Row, k: nat) -> int
    decreases k,
{
    if k == 0 {
        0
    } else {
        let prev = width_full_count(ws, children, row, (k - 1) as nat);
        let w = child_widget(ws, children, k - 1);
        if w.spec_size() is Full && spec_row_of(w.spec_position()) == row {
            prev + 1
        } else {
            prev
        }
    }
}

/// How many of the first `k` children are `Full`-sized and sit in column
/// `col`.
pub open spec fn height_full_count(ws: Seq<Widget>, children: Seq<Id>, col: Col, k: nat) -> int
    decreases k,
{
    if k == 0 {
        0
    } else {
        let prev = height_full_count(ws, children, col, (k - 1) as nat);
        let w = child_widget(ws, children, k - 1);
        if w.spec_size() is Full && spec_col_of(w.spec_position()) == col {
            prev + 1
        } else {
            prev
        }
    }
}

/// The declared width percentages of the first `k` children sitting in
/// row `row`, summed in order, each partial sum in lowest terms.
pub open spec fn width_pct_sum(ws: Seq<Widget>, children: Seq<Id>, row: Row, k: nat) -> Rat
    decreases k,
{
    if k == 0 {
        rat_of_int(0)
    } else {
        let prev = width_pct_sum(ws, children, row, (k - 1) as nat);
        let w = child_widget(ws, children, k - 1);
        match w.spec_size() {
            Size::Full => prev,
            Size::Size(wp, hp) => if spec_row_of(w.spec_position()) == row {
                rat_reduce(rat_add(prev, wp@))
            } else {
                prev
            },
        }
    }
}

/// The declared height percentages of the first `k` children sitting in
/// column `col`, summed in order, each partial sum in lowest terms.
pub open spec fn height_pct_sum(ws: Seq<Widget>, children: Seq<Id>, col: Col, k: nat) -> Rat
    decreases k,
{
    if k == 0 {
        rat_of_int(0)
    } else {
        let prev = height_pct_sum(ws, children, col, (k - 1) as nat);
        let w = child_widget(ws, children, k - 1);
        match w.spec_size() {
            Size::Full => prev,
            Size::Size(wp, hp) => if spec_col_of(w.spec_position()) == col {
                rat_reduce(rat_add(prev, hp@))
            } else {
                prev
            },
        }
    }
}

/// Whether every partial width sum of row `row` stays inside the machine
/// bounds.
pub open spec fn width_sum_fits(ws: Seq<Widget>, children: Seq<Id>, row: Row, k: nat) -> bool
    decreases k,
{
    if k == 0 {
        true
    } else {
        &&& width_sum_fits(ws, children, row, (k - 1) as nat)
        &&& {
            let prev = width_pct_sum(ws, children, row, (k - 1) as nat);
            let w = child_widget(ws, children, k - 1);
            match w.spec_size() {
                Size::Full => true,
                Size::Size(wp, hp) => spec_row_of(w.spec_position()) == row ==> rat_in_bounds(
                    rat_reduce(rat_add(prev, wp@)),
                ),
            }
        }
    }
}

/// Whether every partial height sum of column `col` stays inside the
/// machine bounds.
pub open spec fn height_sum_fits(ws: Seq<Widget>, children: Seq<Id>, col: Col, k: nat) -> bool
    decreases k,
{
    if k == 0 {
        true
    } else {
        &&& height_sum_fits(ws, children, col, (k - 1) as nat)
        &&& {
            let prev = height_pct_sum(ws, children, col, (k - 1) as nat);
            let w = child_widget(ws, children, k - 1);
            match w.spec_size() {
                Size::Full => true,
                Size::Size(wp, hp) => spec_col_of(w.spec_position()) == col ==> rat_in_bounds(
                    rat_reduce(rat_add(prev, hp@)),
                ),
            }
        }
    }
}

/// Whether all six group sums of one sibling set can be computed inside
/// the machine bounds.
pub open spec fn entry_sums_fit(ws: Seq<Widget>, children: Seq<Id>) -> bool {
    &&& width_sum_fits(ws, children, Row::Top, children.len())
    &&& width_sum_fits(ws, children, Row::Center, children.len())
    &&& width_sum_fits(ws, children, Row::Bottom, children.len())
    &&& height_sum_fits(ws, children, Col::Left, children.len())
    &&& height_sum_fits(ws, children, Col::Center, children.len())
    &&& height_sum_fits(ws, children, Col::Right, children.len())
}

/// The first sibling group, in checking order, whose declared
/// percentages add up to more than 100.
pub open spec fn entry_first_over(ws: Seq<Widget>, children: Seq<Id>) -> Option<AxisGroup> {
    let n = children.len();
    if !rat_le(width_pct_sum(ws, children, Row::Top, n), rat_of_int(100)) {
        Some(AxisGroup::TopWidth)
    } else if !rat_le(width_pct_sum(ws, children, Row::Center, n), rat_of_int(100)) {
        Some(AxisGroup::CenterWidth)
    } else if !rat_le(width_pct_sum(ws, children, Row::Bottom, n), rat_of_int(100)) {
        Some(AxisGroup::BottomWidth)
    } else if !rat_le(height_pct_sum(ws, children, Col::Left, n), rat_of_int(100)) {
        Some(AxisGroup::LeftHeight)
    } else if !rat_le(height_pct_sum(ws, children, Col::Center, n), rat_of_int(100)) {
        Some(AxisGroup::CenterHeight)
    } else if !rat_le(height_pct_sum(ws, children, Col::Right, n), rat_of_int(100)) {
        Some(AxisGroup::RightHeight)
    } else {
        None
    }
}

/// The equal width share each `Full` child of row `row` receives: the
/// percentage the group leaves unclaimed, divided by the number of `Full`
/// children in the group.
pub open spec fn width_share(ws: Seq<Widget>, children: Seq<Id>, row: Row) -> Rat {
    rat_div(
        rat_sub(rat_of_int(100), width_pct_sum(ws, children, row, children.len())),
        rat_of_int(width_full_count(ws, children, row, children.len())),
    )
}

/// The equal height share each `Full` child of column `col` receives.
pub open spec fn height_share(ws: Seq<Widget>, children: Seq<Id>, col: Col) -> Rat {
    rat_div(
        rat_sub(rat_of_int(100), height_pct_sum(ws, children, col, children.len())),
        rat_of_int(height_full_count(ws, children, col, children.len())),
    )
}

/// Whether a row's width share can be computed inside the machine
/// bounds.
pub open spec fn width_share_fits(ws: Seq<Widget>, children: Seq<Id>, row: Row) -> bool {
    &&& rat_in_bounds(
        rat_sub(rat_of_int(100), width_pct_sum(ws, children, row, children.len())),
    )
    &&& rat_in_bounds(rat_of_int(width_full_count(ws, children, row, children.len())))
    &&& rat_in_bounds(width_share(ws, children, row))
}

/// Whether a column's height share can be computed inside the machine
/// bounds.
pub open spec fn height_share_fits(ws: Seq<Widget>, children: Seq<Id>, col: Col) -> bool {
    &&& rat_in_bounds(
        rat_sub(rat_of_int(100), height_pct_sum(ws, children, col, children.len())),
    )
    &&& rat_in_bounds(rat_of_int(height_full_count(ws, children, col, children.len())))
    &&& rat_in_bounds(height_share(ws, children, col))
}

/// Whether every needed share of one sibling set can be computed inside
/// the machine bounds.
pub open spec fn entry_shares_fit(ws: Seq<Widget>, children: Seq<Id>) -> bool {
    &&& width_full_count(ws, children, Row::Top, children.len()) > 0 ==> width_share_fits(
        ws,
        children,
        Row::Top,
    )
    &&& width_full_count(ws, children, Row::Center, children.len()) > 0 ==> width_share_fits(
        ws,
        children,
        Row::Center,
    )
    &&& width_full_count(ws, children, Row::Bottom, children.len()) > 0 ==> width_share_fits(
        ws,
        children,
        Row::Bottom,
    )
    &&& height_full_count(ws, children, Col::Left, children.len()) > 0 ==> height_share_fits(
        ws,
        children,
        Col::Left,
    )
    &&& height_full_count(ws, children, Col::Center, children.len()) > 0 ==> height_share_fits(
        ws,
        children,
        Col::Center,
    )
    &&& height_full_count(ws, children, Col::Right, children.len()) > 0 ==> height_share_fits(
        ws,
        children,
        Col::Right,
    )
}

/// What normalizing one sibling set can report: a numeric range failure
/// while summing, a group over 100, a numeric range failure while
/// computing shares, or nothing.
pub open spec fn entry_error(ws: Seq<Widget>, children: Seq<Id>) -> Option<Error> {
    if !entry_sums_fit(ws, children) {
        Some(Error::NumericRange)
    } else if entry_first_over(ws, children) is Some {
        Some(Error::LayoutOverflow(entry_first_over(ws, children)->0))
    } else if !entry_shares_fit(ws, children) {
        Some(Error::NumericRange)
    } else {
        None
    }
}

/// The first error among the hierarchy entries from `e` on, in order.
pub open spec fn normalize_first_error(
    ws: Seq<Widget>,
    h: Seq<(Id, Vec<Id>)>,
    e: nat,
) -> Option<Error>
    decreases h.len() - e,
{
    if e >= h.len() {
        None
    } else {
        match entry_error(ws, h[e as int].1@) {
            Some(err) => Some(err),
            None => normalize_first_error(ws, h, e + 1),
        }
    }
}

/// Whether some child of `children` refers to the widget at index `i`.
pub open spec fn entry_has_child(ws: Seq<Widget>, children: Seq<Id>, i: int) -> bool {
    exists|k: int| 0 <= k < children.len() && spec_find(ws, children[k]@) == Some(i)
}

/// Whether normalization replaces the size of the widget at index `i`:
/// it is `Full`-sized and listed as somebody's child.
pub open spec fn is_normalize_target(ws: Seq<Widget>, h: Seq<(Id, Vec<Id>)>, i: int) -> bool {
    &&& ws[i].spec_size() is Full
    &&& exists|e: int| 0 <= e < h.len() && entry_has_child(ws, #[trigger] h[e].1@, i)
}

/// What the widget at index `i` looks like after normalization against
/// the sibling set `children`: unchanged but for its size, which now
/// holds the equal shares of its row and column groups.
pub open spec fn normalized_as(
    ws: Seq<Widget>,
    children: Seq<Id>,
    i: int,
    w2: Widget,
) -> bool {
    &&& w2 == ws[i].spec_with_size(w2.spec_size())
    &&& w2.spec_size() matches Size::Size(wv, hv) && wv@ == width_share(
        ws,
        children,
        spec_row_of(ws[i].spec_position()),
    ) && hv@ == height_share(ws, children, spec_col_of(ws[i].spec_position()))
}

/// Group counts are never negative.
proof fn lemma_width_count_nonneg(ws: Seq<Widget>, children: Seq<Id>, row: Row, k: nat)
    ensures
        width_full_count(ws, children, row, k) >= 0,
    decreases k,
{
    if k > 0 {
        lemma_width_count_nonneg(ws, children, row, (k - 1) as nat);
    }
}

/// Group counts are never negative.
proof fn lemma_height_count_nonneg(ws: Seq<Widget>, children: Seq<Id>, col: Col, k: nat)
    ensures
        height_full_count(ws, children, col, k) >= 0,
    decreases k,
{
    if k > 0 {
        lemma_height_count_nonneg(ws, children, col, (k - 1) as nat);
    }
}

/// A `Full` child contributes to its row's count.
proof fn lemma_width_count_positive(ws: Seq<Widget>, children: Seq<Id>, row: Row, k: int, n: nat)
    requires
        0 <= k < n <= children.len(),
        child_widget(ws, children, k).spec_size() is Full,
        spec_row_of(child_widget(ws, children, k).spec_position()) == row,
    ensures
        width_full_count(ws, children, row, n) > 0,
    decreases n,
{
    if k < n - 1 {
        lemma_width_count_positive(ws, children, row, k, (n - 1) as nat);
    } else {
        lemma_width_count_nonneg(ws, children, row, (n - 1) as nat);
    }
}

/// A `Full` child contributes to its column's count.
proof fn lemma_height_count_positive(ws: Seq<Widget>, children: Seq<Id>, col: Col, k: int, n: nat)
    requires
        0 <= k < n <= children.len(),
        child_widget(ws, children, k).spec_size() is Full,
        spec_col_of(child_widget(ws, children, k).spec_position()) == col,
    ensures
        height_full_count(ws, children, col, n) > 0,
    decreases n,
{
    if k < n - 1 {
        lemma_height_count_positive(ws, children, col, k, (n - 1) as nat);
    } else {
        lemma_height_count_nonneg(ws, children, col, (n - 1) as nat);
    }
}

/// A sum that fits at `k2` children also fits at any prefix `k1`.
proof fn lemma_width_fits_mono(ws: Seq<Widget>, children: Seq<Id>, row: Row, k1: nat, k2: nat)
    requires
        k1 <= k2,
        width_sum_fits(ws, children, row, k2),
    ensures
        width_sum_fits(ws, children, row, k1),
    decreases k2,
{
    if k1 < k2 {
        lemma_width_fits_mono(ws, children, row, k1, (k2 - 1) as nat);
    }
}

/// A sum that fits at `k2` children also fits at any prefix `k1`.
proof fn lemma_height_fits_mono(ws: Seq<Widget>, children: Seq<Id>, col: Col, k1: nat, k2: nat)
    requires
        k1 <= k2,
        height_sum_fits(ws, children, col, k2),
    ensures
        height_sum_fits(ws, children, col, k1),
    decreases k2,
{
    if k1 < k2 {
        lemma_height_fits_mono(ws, children, col, k1, (k2 - 1) as nat);
    }
}

/// Entries known clean can be skipped when looking for the first error.
proof fn lemma_first_error_skip(ws: Seq<Widget>, h: Seq<(Id, Vec<Id>)>, e: nat)
    requires
        e <= h.len(),
        forall|j: int| 0 <= j < e ==> entry_error(ws, #[trigger] h[j].1@) is None,
    ensures
        normalize_first_error(ws, h, 0) == normalize_first_error(ws, h, e),
    decreases e,
{
    if e > 0 {
        lemma_first_error_skip(ws, h, (e - 1) as nat);
        assert(normalize_first_error(ws, h, (e - 1) as nat) == normalize_first_error(ws, h, e));
    }
}

/// The per-group equal shares of one sibling set, `None` for a group
/// without `Full` children.
struct EntryShares {
    w_top: Option<Frac>,
    w_center: Option<Frac>,
    w_bottom: Option<Frac>,
    h_left: Option<Frac>,
    h_center: Option<Frac>,
    h_right: Option<Frac>,
}

/// What phase one records for one hierarchy entry: the resolved index of
/// each child, and the equal shares of each group that has `Full`
/// children.
spec fn plan_ok(ws: Seq<Widget>, children: Seq<Id>, idxs: Seq<usize>, sh: EntryShares) -> bool {
    &&& idxs.len() == children.len()
    &&& forall|k: int|
        0 <= k < children.len() ==> spec_find(ws, children[k]@) == Some(#[trigger] idxs[k] as int)
    &&& forall|k: int| 0 <= k < children.len() ==> #[trigger] idxs[k] < ws.len()
    &&& (sh.w_top is Some <==> width_full_count(ws, children, Row::Top, children.len()) > 0)
    &&& (sh.w_center is Some <==> width_full_count(ws, children, Row::Center, children.len()) > 0)
    &&& (sh.w_bottom is Some <==> width_full_count(ws, children, Row::Bottom, children.len()) > 0)
    &&& (sh.h_left is Some <==> height_full_count(ws, children, Col::Left, children.len()) > 0)
    &&& (sh.h_center is Some <==> height_full_count(ws, children, Col::Center, children.len()) > 0)
    &&& (sh.h_right is Some <==> height_full_count(ws, children, Col::Right, children.len()) > 0)
    &&& sh.w_top matches Some(f) ==> f@ == width_share(ws, children, Row::Top)
    &&& sh.w_center matches Some(f) ==> f@ == width_share(ws, children, Row::Center)
    &&& sh.w_bottom matches Some(f) ==> f@ == width_share(ws, children, Row::Bottom)
    &&& sh.h_left matches Some(f) ==> f@ == height_share(ws, children, Col::Left)
    &&& sh.h_center matches Some(f) ==> f@ == height_share(ws, children, Col::Center)
    &&& sh.h_right matches Some(f) ==> f@ == height_share(ws, children, Col::Right)
}

impl Ui {
    /// Computes the child indices and group shares of the entry at `e`,
    /// or the entry's error.
    fn plan_entry(&self, e: usize) -> (r: Result<(Vec<usize>, EntryShares), Error>)
        requires
            self.wf(),
            e < self.heirarchy@.len(),
        ensures
            entry_error(self.widgets@, self.heirarchy@[e as int].1@) matches Some(err) ==> r
                == Err::<(Vec<usize>, EntryShares), Error>(err),
            entry_error(self.widgets@, self.heirarchy@[e as int].1@) is None ==> (r matches Ok(p)
                && plan_ok(self.widgets@, self.heirarchy@[e as int].1@, p.0@, p.1)),
    {
        let ghost ws = self.widgets@;
        let children = &self.heirarchy[e].1;
        let ghost ch = children@;
        let n = children.len();
        let mut idxs: Vec<usize> = Vec::new();
        let mut cnt_w_top: usize = 0;
        let mut cnt_w_center: usize = 0;
        let mut cnt_w_bottom: usize = 0;
        let mut cnt_h_left: usize = 0;
        let mut cnt_h_center: usize = 0;
        let mut cnt_h_right: usize = 0;
        let mut sum_w_top = Frac::from_int(0);
        let mut sum_w_center = Frac::from_int(0);
        let mut sum_w_bottom = Frac::from_int(0);
        let mut sum_h_left = Frac::from_int(0);
        let mut sum_h_center = Frac::from_int(0);
        let mut sum_h_right = Frac::from_int(0);
        let mut k: usize = 0;
        while k < n
            invariant
                self.wf(),
                e < self.heirarchy@.len(),
                ws == self.widgets@,
                ch == self.heirarchy@[e as int].1@,
                children@ == ch,
                n == ch.len(),
                0 <= k <= n,
                cnt_w_top <= k,
                cnt_w_center <= k,
                cnt_w_bottom <= k,
                cnt_h_left <= k,
                cnt_h_center <= k,
                cnt_h_right <= k,
                idxs@.len() == k,
                forall|j: int|
                    0 <= j < k ==> spec_find(ws, ch[j]@) == Some(#[trigger] idxs@[j] as int),
                forall|j: int| 0 <= j < k ==> #[trigger] idxs@[j] < ws.len(),
                cnt_w_top == width_full_count(ws, ch, Row::Top, k as nat),
                cnt_w_center == width_full_count(ws, ch, Row::Center, k as nat),
                cnt_w_bottom == width_full_count(ws, ch, Row::Bottom, k as nat),
                cnt_h_left == height_full_count(ws, ch, Col::Left, k as nat),
                cnt_h_center == height_full_count(ws, ch, Col::Center, k as nat),
                cnt_h_right == height_full_count(ws, ch, Col::Right, k as nat),
                sum_w_top@ == width_pct_sum(ws, ch, Row::Top, k as nat),
                sum_w_center@ == width_pct_sum(ws, ch, Row::Center, k as nat),
                sum_w_bottom@ == width_pct_sum(ws, ch, Row::Bottom, k as nat),
                sum_h_left@ == height_pct_sum(ws, ch, Col::Left, k as nat),
                sum_h_center@ == height_pct_sum(ws, ch, Col::Center, k as nat),
                sum_h_right@ == height_pct_sum(ws, ch, Col::Right, k as nat),
                width_sum_fits(ws, ch, Row::Top, k as nat),
                width_sum_fits(ws, ch, Row::Center, k as nat),
                width_sum_fits(ws, ch, Row::Bottom, k as nat),
                height_sum_fits(ws, ch, Col::Left, k as nat),
                height_sum_fits(ws, ch, Col::Center, k as nat),
                height_sum_fits(ws, ch, Col::Right, k as nat),
            decreases n - k,
        {
            let i = match self.find_widget(&children[k]) {
                Some(i) => i,
                None => {
                    proof {
                        assert(spec_find(ws, ch[k as int]@) is Some);
                        assert(false);
                    }
                    return Err(Error::DanglingParent);
                },
            };
            let w = &self.widgets[i];
            proof {
                assert(child_widget(ws, ch, k as int) == ws[i as int]);
            }
            match w.size() {
                Size::Full => {
                    match crate::enums::row_of(w.position()) {
                        Row::Top => cnt_w_top = cnt_w_top + 1,
                        Row::Center => cnt_w_center = cnt_w_center + 1,
                        Row::Bottom => cnt_w_bottom = cnt_w_bottom + 1,
                    }
                    match crate::enums::col_of(w.position()) {
                        Col::Left => cnt_h_left = cnt_h_left + 1,
                        Col::Center => cnt_h_center = cnt_h_center + 1,
                        Col::Right => cnt_h_right = cnt_h_right + 1,
                    }
                },
                Size::Size(wp, hp) => {
                    match crate::enums::row_of(w.position()) {
                        Row::Top => {
                            sum_w_top = match sum_w_top.add_red(wp) {
                                Some(v) => v,
                                None => {
                                    proof {
                                        assert(!width_sum_fits(ws, ch, Row::Top, (k + 1) as nat));
                                        if width_sum_fits(ws, ch, Row::Top, n as nat) {
                                            lemma_width_fits_mono(ws, ch, Row::Top, (k + 1) as nat, n as nat);
                                        }
                                    }
                                    return Err(Error::NumericRange);
                                },
                            };
                        },
                        Row::Center => {
                            sum_w_center = match sum_w_center.add_red(wp) {
                                Some(v) => v,
                                None => {
                                    proof {
                                        assert(!width_sum_fits(ws, ch, Row::Center, (k + 1) as nat));
                                        if width_sum_fits(ws, ch, Row::Center, n as nat) {
                                            lemma_width_fits_mono(ws, ch, Row::Center, (k + 1) as nat, n as nat);
                                        }
                                    }
                                    return Err(Error::NumericRange);
                                },
                            };
                        },
                        Row::Bottom => {
                            sum_w_bottom = match sum_w_bottom.add_red(wp) {
                                Some(v) => v,
                                None => {
                                    proof {
                                        assert(!width_sum_fits(ws, ch, Row::Bottom, (k + 1) as nat));
                                        if width_sum_fits(ws, ch, Row::Bottom, n as nat) {
                                            lemma_width_fits_mono(ws, ch, Row::Bottom, (k + 1) as nat, n as nat);
                                        }
                                    }
                                    return Err(Error::NumericRange);
                                },
                            };
                        },
                    }
                    match crate::enums::col_of(w.position()) {
                        Col::Left => {
                            sum_h_left = match sum_h_left.add_red(hp) {
                                Some(v) => v,
                                None => {
                                    proof {
                                        assert(!height_sum_fits(ws, ch, Col::Left, (k + 1) as nat));
                                        if height_sum_fits(ws, ch, Col::Left, n as nat) {
                                            lemma_height_fits_mono(ws, ch, Col::Left, (k + 1) as nat, n as nat);
                                        }
                                    }
                                    return Err(Error::NumericRange);
                                },
                            };
                        },
                        Col::Center => {
                            sum_h_center = match sum_h_center.add_red(hp) {
                                Some(v) => v,
                                None => {
                                    proof {
                                        assert(!height_sum_fits(ws, ch, Col::Center, (k + 1) as nat));
                                        if height_sum_fits(ws, ch, Col::Center, n as nat) {
                                            lemma_height_fits_mono(ws, ch, Col::Center, (k + 1) as nat, n as nat);
                                        }
                                    }
                                    return Err(Error::NumericRange);
                                },
                            };
                        },
                        Col::Right => {
                            sum_h_right = match sum_h_right.add_red(hp) {
                                Some(v) => v,
                                None => {
                                    proof {
                                        assert(!height_sum_fits(ws, ch, Col::Right, (k + 1) as nat));
                                        if height_sum_fits(ws, ch, Col::Right, n as nat) {
                                            lemma_height_fits_mono(ws, ch, Col::Right, (k + 1) as nat, n as nat);
                                        }
                                    }
                                    return Err(Error::NumericRange);
                                },
                            };
                        },
                    }
                },
            }
            idxs.push(i);
            k = k + 1;
        }
        let hundred = Frac::from_int(100);
        if !sum_w_top.le(hundred) {
            return Err(Error::LayoutOverflow(AxisGroup::TopWidth));
        }
        if !sum_w_center.le(hundred) {
            return Err(Error::LayoutOverflow(AxisGroup::CenterWidth));
        }
        if !sum_w_bottom.le(hundred) {
            return Err(Error::LayoutOverflow(AxisGroup::BottomWidth));
        }
        if !sum_h_left.le(hundred) {
            return Err(Error::LayoutOverflow(AxisGroup::LeftHeight));
        }
        if !sum_h_center.le(hundred) {
            return Err(Error::LayoutOverflow(AxisGroup::CenterHeight));
        }
        if !sum_h_right.le(hundred) {
            return Err(Error::LayoutOverflow(AxisGroup::RightHeight));
        }
        let w_top = match Self::group_share(sum_w_top, cnt_w_top) {
            Ok(v) => v,
            Err(err) => {
                return Err(err);
            },
        };
        let w_center = match Self::group_share(sum_w_center, cnt_w_center) {
            Ok(v) => v,
            Err(err) => {
                return Err(err);
            },
        };
        let w_bottom = match Self::group_share(sum_w_bottom, cnt_w_bottom) {
            Ok(v) => v,
            Err(err) => {
                return Err(err);
            },
        };
        let h_left = match Self::group_share(sum_h_left, cnt_h_left) {
            Ok(v) => v,
            Err(err) => {
                return Err(err);
            },
        };
        let h_center = match Self::group_share(sum_h_center, cnt_h_center) {
            Ok(v) => v,
            Err(err) => {
                return Err(err);
            },
        };
        let h_right = match Self::group_share(sum_h_right, cnt_h_right) {
            Ok(v) => v,
            Err(err) => {
                return Err(err);
            },
        };
        Ok((idxs, EntryShares { w_top, w_center, w_bottom, h_left, h_center, h_right }))
    }

    /// The equal share of a group: the percentage left unclaimed by
    /// `sum`, divided by `count`; `None` when the group has no `Full`
    /// children.
    fn group_share(sum: Frac, count: usize) -> (r: Result<Option<Frac>, Error>)
        ensures
            ({
                let share = rat_div(
                    rat_sub(rat_of_int(100), sum@),
                    rat_of_int(count as int),
                );
                let fits = rat_in_bounds(rat_sub(rat_of_int(100), sum@)) && rat_in_bounds(
                    rat_of_int(count as int),
                ) && rat_in_bounds(share);
                &&& count == 0 ==> r == Ok::<Option<Frac>, Error>(None::<Frac>)
                &&& count > 0 && fits ==> (r matches Ok(o) && o matches Some(f) && f@ == share)
                &&& count > 0 && !fits ==> r == Err::<Option<Frac>, Error>(Error::NumericRange)
            }),
    {
        if count == 0 {
            return Ok(None);
        }
        let hundred = Frac::from_int(100);
        let rem = match hundred.sub(sum) {
            Some(v) => v,
            None => {
                return Err(Error::NumericRange);
            },
        };
        let divisor = match Frac::new(count as i128, 1) {
            Some(v) => v,
            None => {
                return Err(Error::NumericRange);
            },
        };
        let share = match rem.div(divisor) {
            Some(v) => v,
            None => {
                return Err(Error::NumericRange);
            },
        };
        Ok(Some(share))
    }
}


/// Whether the widget at index `i` has already been processed when the
/// assignment pass stands at entry `e`, child `k`: it is `Full`-sized and
/// some lexicographically earlier child slot refers to it.
pub open spec fn pair_processed(
    ws: Seq<Widget>,
    h: Seq<(Id, Vec<Id>)>,
    i: int,
    e: int,
    k: int,
) -> bool {
    &&& ws[i].spec_size() is Full
    &&& exists|e2: int, k2: int|
        0 <= e2 < h.len() && 0 <= k2 < h[e2].1@.len() && (e2 < e || (e2 == e && k2 < k))
            && #[trigger] spec_find(ws, h[e2].1@[k2]@) == Some(i)
}


/// How a normalized tree relates to its input: same application id,
/// theme and hierarchy, same widgets but for the `Full`-sized children,
/// whose sizes now hold the equal shares of their row and column groups.
pub open spec fn spec_normalized(pre: Ui, post: Ui) -> bool {
    &&& post.app_id == pre.app_id
    &&& post.theme == pre.theme
    &&& post.heirarchy@.len() == pre.heirarchy@.len()
    &&& forall|e: int|
        0 <= e < pre.heirarchy@.len() ==> (#[trigger] post.heirarchy@[e]).0 == pre.heirarchy@[e].0
            && post.heirarchy@[e].1@ == pre.heirarchy@[e].1@
    &&& post.widgets@.len() == pre.widgets@.len()
    &&& forall|i: int|
        0 <= i < pre.widgets@.len() && !is_normalize_target(pre.widgets@, pre.heirarchy@, i)
            ==> #[trigger] post.widgets@[i] == pre.widgets@[i]
    &&& forall|i: int|
        0 <= i < pre.widgets@.len() && is_normalize_target(pre.widgets@, pre.heirarchy@, i)
            ==> exists|e: int|
            0 <= e < pre.heirarchy@.len() && entry_has_child(
                pre.widgets@,
                #[trigger] pre.heirarchy@[e].1@,
                i,
            ) && normalized_as(pre.widgets@, pre.heirarchy@[e].1@, i, #[trigger] post.widgets@[i])
}

/// Resolves every `Full` size in the tree to a concrete percentage pair:
/// each `Full` child receives an equal share of the percentage its row
/// and column groups leave unclaimed. The input tree is left untouched; a
/// new tree with the resolved sizes is returned, or the first error
/// found. Failure is atomic: on any error no resolved tree exists at all.
///
/// Besides the overflow validation, `Error::NumericRange` is reported in
/// the rare case that an exact running sum or share cannot be
/// represented within the machine bounds; the contract names those cases
/// precisely through the `fits` predicates.
pub fn normalize_sizes(ui: &Ui) -> (r: Result<Ui, Error>)
    requires
        ui.wf(),
    ensures
        normalize_first_error(ui.widgets@, ui.heirarchy@, 0) matches Some(err) ==> r == Err::<
            Ui,
            Error,
        >(err),
        normalize_first_error(ui.widgets@, ui.heirarchy@, 0) is None ==> (r matches Ok(u2)
            && spec_normalized(*ui, u2)),
{
    let ghost ws = ui.widgets@;
    let ghost h = ui.heirarchy@;
    let mut plans: Vec<(Vec<usize>, EntryShares)> = Vec::new();
    let mut e: usize = 0;
    while e < ui.heirarchy.len()
        invariant
            ui.wf(),
            ws == ui.widgets@,
            h == ui.heirarchy@,
            0 <= e <= h.len(),
            plans@.len() == e,
            forall|j: int| 0 <= j < e ==> entry_error(ws, #[trigger] h[j].1@) is None,
            forall|j: int|
                0 <= j < e ==> plan_ok(ws, h[j].1@, (#[trigger] plans@[j]).0@, plans@[j].1),
        decreases h.len() - e,
    {
        match ui.plan_entry(e) {
            Ok(p) => {
                plans.push(p);
            },
            Err(err) => {
                proof {
                    lemma_first_error_skip(ws, h, e as nat);
                }
                return Err(err);
            },
        }
        e = e + 1;
    }
    proof {
        lemma_first_error_skip(ws, h, h.len());
    }
    let mut out = ui.clone();
    let mut e: usize = 0;
    while e < plans.len()
        invariant
            ui.wf(),
            ws == ui.widgets@,
            h == ui.heirarchy@,
            plans@.len() == h.len(),
            forall|j: int|
                0 <= j < h.len() ==> plan_ok(ws, h[j].1@, (#[trigger] plans@[j]).0@, plans@[j].1),
            0 <= e <= h.len(),
            out.app_id == ui.app_id,
            out.theme == ui.theme,
            out.heirarchy@.len() == h.len(),
            forall|j: int|
                0 <= j < h.len() ==> (#[trigger] out.heirarchy@[j]).0 == h[j].0
                    && out.heirarchy@[j].1@ == h[j].1@,
            out.widgets@.len() == ws.len(),
            forall|i: int|
                0 <= i < ws.len() && !pair_processed(ws, h, i, e as int, 0) ==> #[trigger] out.widgets@[i]
                    == ws[i],
            forall|i: int|
                0 <= i < ws.len() && pair_processed(ws, h, i, e as int, 0) ==> exists|e2: int|
                    0 <= e2 < h.len() && entry_has_child(ws, #[trigger] h[e2].1@, i)
                        && normalized_as(ws, h[e2].1@, i, #[trigger] out.widgets@[i]),
        decreases plans@.len() - e,
    {
        let idx_count = plans[e].0.len();
        let mut k: usize = 0;
        while k < idx_count
            invariant
                ui.wf(),
                ws == ui.widgets@,
                h == ui.heirarchy@,
                plans@.len() == h.len(),
                forall|j: int|
                    0 <= j < h.len() ==> plan_ok(
                        ws,
                        h[j].1@,
                        (#[trigger] plans@[j]).0@,
                        plans@[j].1,
                    ),
                0 <= e < h.len(),
                idx_count == h[e as int].1@.len(),
                0 <= k <= idx_count,
                out.app_id == ui.app_id,
                out.theme == ui.theme,
                out.heirarchy@.len() == h.len(),
                forall|j: int|
                    0 <= j < h.len() ==> (#[trigger] out.heirarchy@[j]).0 == h[j].0
                        && out.heirarchy@[j].1@ == h[j].1@,
                out.widgets@.len() == ws.len(),
                forall|i: int|
                    0 <= i < ws.len() && !pair_processed(ws, h, i, e as int, k as int)
                        ==> #[trigger] out.widgets@[i] == ws[i],
                forall|i: int|
                    0 <= i < ws.len() && pair_processed(ws, h, i, e as int, k as int)
                        ==> exists|e2: int|
                        0 <= e2 < h.len() && entry_has_child(ws, #[trigger] h[e2].1@, i)
                            && normalized_as(ws, h[e2].1@, i, #[trigger] out.widgets@[i]),
            decreases idx_count - k,
        {
            let ghost ch = h[e as int].1@;
            let i = plans[e].0[k];
            proof {
                assert(spec_find(ws, ch[k as int]@) == Some(i as int));
                lemma_spec_find_some(ws, ch[k as int]@);
                assert forall|e2: int, k2: int|
                    0 <= e2 < h.len() && 0 <= k2 < h[e2].1@.len() && (e2 != e as int || k2
                        != k as int) implies #[trigger] spec_find(ws, h[e2].1@[k2]@) != Some(
                    i as int,
                ) by {
                    if spec_find(ws, h[e2].1@[k2]@) == Some(i as int) {
                        lemma_spec_find_some(ws, h[e2].1@[k2]@);
                        assert(h[e2].1@[k2]@ == ws[i as int].spec_id());
                        assert(ch[k as int]@ == ws[i as int].spec_id());
                    }
                }
                assert(!pair_processed(ws, h, i as int, e as int, k as int));
                assert(out.widgets@[i as int] == ws[i as int]);
            }
            let ghost prev_widgets = out.widgets@;
            let is_full = match out.widgets[i].size() {
                Size::Full => true,
                Size::Size(_, _) => false,
            };
            if is_full {
                let position = out.widgets[i].position();
                let row = crate::enums::row_of(position);
                let col = crate::enums::col_of(position);
                proof {
                    assert(child_widget(ws, ch, k as int) == ws[i as int]);
                    lemma_width_count_positive(ws, ch, spec_row_of(ws[i as int].spec_position()), k as int, ch.len());
                    lemma_height_count_positive(ws, ch, spec_col_of(ws[i as int].spec_position()), k as int, ch.len());
                }
                let share_w = match row {
                    Row::Top => plans[e].1.w_top,
                    Row::Center => plans[e].1.w_center,
                    Row::Bottom => plans[e].1.w_bottom,
                };
                let share_h = match col {
                    Col::Left => plans[e].1.h_left,
                    Col::Center => plans[e].1.h_center,
                    Col::Right => plans[e].1.h_right,
                };
                let sw = match share_w {
                    Some(f) => f,
                    None => {
                        proof {
                            assert(false);
                        }
                        return Err(Error::NumericRange);
                    },
                };
                let sh = match share_h {
                    Some(f) => f,
                    None => {
                        proof {
                            assert(false);
                        }
                        return Err(Error::NumericRange);
                    },
                };
                let mut wdg = out.widgets.remove(i);
                wdg.set_size(Size::Size(sw, sh));
                out.widgets.insert(i, wdg);
                proof {
                    assert(out.widgets@ =~= prev_widgets.update(i as int, out.widgets@[i as int]));
                    assert(normalized_as(ws, ch, i as int, out.widgets@[i as int]));
                }
            }
            proof {
                assert forall|i2: int|
                    0 <= i2 < ws.len() && !#[trigger] pair_processed(ws, h, i2, e as int, k + 1)
                    implies out.widgets@[i2] == ws[i2] by {
                    assert(!pair_processed(ws, h, i2, e as int, k as int));
                    assert(i2 != i as int || !(ws[i2].spec_size() is Full));
                }
                assert forall|i2: int|
                    0 <= i2 < ws.len() && #[trigger] pair_processed(ws, h, i2, e as int, k + 1)
                    implies exists|e2: int|
                        0 <= e2 < h.len() && entry_has_child(ws, #[trigger] h[e2].1@, i2)
                            && normalized_as(ws, h[e2].1@, i2, out.widgets@[i2]) by {
                    if pair_processed(ws, h, i2, e as int, k as int) {
                        assert(i2 != i as int);
                        assert(out.widgets@[i2] == prev_widgets[i2]);
                    } else {
                        assert(i2 == i as int);
                        assert(entry_has_child(ws, h[e as int].1@, i2));
                    }
                }
            }
            k = k + 1;
        }
        proof {
            assert forall|i2: int|
                0 <= i2 < ws.len() && !#[trigger] pair_processed(ws, h, i2, e + 1, 0) implies
                !pair_processed(ws, h, i2, e as int, idx_count as int) by {}
            assert forall|i2: int|
                0 <= i2 < ws.len() && #[trigger] pair_processed(ws, h, i2, e + 1, 0) implies
                pair_processed(ws, h, i2, e as int, idx_count as int) by {}
        }
        e = e + 1;
    }
    proof {
        assert forall|i: int|
            0 <= i < ws.len() && #[trigger] is_normalize_target(ws, h, i) implies pair_processed(
            ws,
            h,
            i,
            h.len() as int,
            0,
        ) by {
            let e2 = choose|e2: int| 0 <= e2 < h.len() && entry_has_child(ws, #[trigger] h[e2].1@, i);
            let k2 = choose|k2: int|
                0 <= k2 < h[e2].1@.len() && spec_find(ws, h[e2].1@[k2]@) == Some(i);
            assert(0 <= e2 < h.len() && 0 <= k2 < h[e2].1@.len() && (e2 < h.len() as int || (e2
                == h.len() as int && k2 < 0)) && spec_find(ws, h[e2].1@[k2 as int]@) == Some(i));
        }
        assert forall|i: int|
            0 <= i < ws.len() && #[trigger] pair_processed(ws, h, i, h.len() as int, 0) implies
            is_normalize_target(ws, h, i) by {
            let (e2, k2) = choose|e2: int, k2: int|
                0 <= e2 < h.len() && 0 <= k2 < h[e2].1@.len() && (e2 < h.len() as int || (e2
                    == h.len() as int && k2 < 0)) && #[trigger] spec_find(ws, h[e2].1@[k2]@)
                    == Some(i);
            assert(entry_has_child(ws, h[e2].1@, i));
        }
    }
    Ok(out)
}


/// Among children that are all `Full`-sized, the sums stay zero and the
/// counts track the child count.
proof fn lemma_all_full_prefix(ws: Seq<Widget>, children: Seq<Id>, p: Position, k: nat)
    requires
        k <= children.len(),
        forall|q: int|
            0 <= q < children.len() ==> (#[trigger] child_widget(ws, children, q)).spec_size()
                is Full && child_widget(ws, children, q).spec_position() == p,
    ensures
        width_pct_sum(ws, children, spec_row_of(p), k) == rat_of_int(0),
        width_full_count(ws, children, spec_row_of(p), k) == k,
        height_pct_sum(ws, children, spec_col_of(p), k) == rat_of_int(0),
        height_full_count(ws, children, spec_col_of(p), k) == k,
    decreases k,
{
    if k > 0 {
        lemma_all_full_prefix(ws, children, p, (k - 1) as nat);
    }
}

/// Equal-share law: when every child of a sibling set is `Full`-sized
/// and sits in the same position bucket, with no declared percentages in
/// its groups, each child's share is exactly `100 / n` along both axes,
/// where `n` is the number of children.
pub proof fn lemma_equal_shares(ws: Seq<Widget>, children: Seq<Id>, p: Position)
    requires
        children.len() > 0,
        forall|q: int|
            0 <= q < children.len() ==> (#[trigger] child_widget(ws, children, q)).spec_size()
                is Full && child_widget(ws, children, q).spec_position() == p,
    ensures
        width_share(ws, children, spec_row_of(p)) == (Rat {
            num: 100,
            den: children.len() as int,
        }),
        height_share(ws, children, spec_col_of(p)) == (Rat {
            num: 100,
            den: children.len() as int,
        }),
{
    lemma_all_full_prefix(ws, children, p, children.len());
    let row = spec_row_of(p);
    let col = spec_col_of(p);
    let n = children.len() as int;
    assert(width_pct_sum(ws, children, row, children.len()) == rat_of_int(0));
    assert(width_full_count(ws, children, row, children.len()) == n);
    assert(rat_sub(rat_of_int(100), rat_of_int(0)) == rat_of_int(100));
    assert(width_share(ws, children, row).num == 100);
    assert(width_share(ws, children, row).den == n);
    assert(height_share(ws, children, col).num == 100);
    assert(height_share(ws, children, col).den == n);
}

} // verus!
