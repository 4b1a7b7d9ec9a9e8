//! The hierarchy resolver: walking a widget's ancestor chain from the
//! root down, narrowing the canvas box at each level, and converting the
//! final box into the six vertices of two triangles.

use vstd::prelude::*;

use crate::enums::Size;
use crate::error::Error;
use crate::frac::Frac;
use crate::frac::Rat;
use crate::frac::rat_of_int;
use crate::frac::rat_sub;
use crate::geometry::DrawVertex;
use crate::geometry::RatBox;
use crate::geometry::Vertex;
use crate::geometry::box_fits;
use crate::geometry::box_reduce;
use crate::geometry::box_resolve;
use crate::geometry::calc_vertices;
use crate::geometry::device_fits;
use crate::geometry::root_box;
use crate::color::Color;
use crate::normalize::normalize_first_error;
use crate::normalize::spec_normalized;
use crate::normalize::normalize_sizes;
use crate::ui::Ui;
use crate::ui::spec_find;
use crate::widget::Id;
use crate::widget::Widget;

verus! {

/// The view of an optional id.
pub open spec fn opt_id_view(o: Option<Id>) -> Option<Seq<char>> {
    match o {
        None => None,
        Some(s) => Some(s@),
    }
}

/// What collecting an ancestor chain can come to: a parent id that
/// resolves to no widget, a chain that never reaches the root, or the
/// chain itself, immediate parent first, root last.
pub ghost enum ChainResult {
    /// Some ancestor's parent id resolves to no widget.
    Dangling,
    /// The parent links contain a cycle.
    Cyclic,
    /// The ancestor indices, immediate parent first.
    Chain(Seq<int>),
}

/// The ancestor chain reached by following parent ids for at most `fuel`
/// steps. Any chain in a tree of `n` widgets resolves within `n` steps,
/// so running out of fuel means the links loop.
pub open spec fn spec_chain_rec(
    ws: Seq<Widget>,
    pid: Option<Seq<char>>,
    fuel: nat,
) -> ChainResult
    decreases fuel,
{
    match pid {
        None => ChainResult::Chain(Seq::empty()),
        Some(p) => {
            if fuel == 0 {
                ChainResult::Cyclic
            } else {
                match spec_find(ws, p) {
                    None => ChainResult::Dangling,
                    Some(i) => {
                        match spec_chain_rec(ws, ws[i].spec_parent_id(), (fuel - 1) as nat) {
                            ChainResult::Chain(rest) => ChainResult::Chain(seq![i] + rest),
                            other => other,
                        }
                    },
                }
            }
        },
    }
}

/// The ancestor chain of `w` within `ws`.
pub open spec fn spec_chain(ws: Seq<Widget>, w: Widget) -> ChainResult {
    spec_chain_rec(ws, w.spec_parent_id(), ws.len())
}

/// What walking the chain from the root down can come to.
pub ghost enum WalkResult {
    /// Some widget along the way is invisible: nothing is drawn.
    Hidden,
    /// Some widget along the way still has a `Full` size.
    Unresolved,
    /// Some exact computation left the machine bounds.
    Range,
    /// The resolved box.
    Resolved(RatBox),
}

/// One narrowing step: the box of widget `w` within the box `b` of its
/// parent.
pub open spec fn walk_step(w: Widget, b: RatBox) -> WalkResult {
    if !w.spec_visible() {
        WalkResult::Hidden
    } else {
        match w.spec_size() {
            Size::Full => WalkResult::Unresolved,
            Size::Size(wp, hp) => {
                if box_fits(b, wp@, hp@, w.spec_position()) {
                    WalkResult::Resolved(box_reduce(box_resolve(b, wp@, hp@, w.spec_position())))
                } else {
                    WalkResult::Range
                }
            },
        }
    }
}

/// The box after applying the chain elements `chain[j..]`, starting from
/// the full canvas at the root end and narrowing towards index `j`.
pub open spec fn walk_from(ws: Seq<Widget>, chain: Seq<int>, j: nat) -> WalkResult
    decreases chain.len() - j,
{
    if j >= chain.len() {
        WalkResult::Resolved(root_box())
    } else {
        match walk_from(ws, chain, j + 1) {
            WalkResult::Resolved(b) => walk_step(ws[chain[j as int]], b),
            other => other,
        }
    }
}

/// A non-box outcome at `j2` is the outcome of the whole walk below it.
proof fn lemma_walk_propagate(ws: Seq<Widget>, chain: Seq<int>, j1: nat, j2: nat)
    requires
        j1 <= j2 <= chain.len(),
        !(walk_from(ws, chain, j2) is Resolved),
    ensures
        walk_from(ws, chain, j1) == walk_from(ws, chain, j2),
    decreases j2 - j1,
{
    if j1 < j2 {
        lemma_walk_propagate(ws, chain, (j1 + 1) as nat, j2);
    }
}

/// Everything drawing a visible widget decides before emitting vertices:
/// the outcome of its ancestor chain, then of the walk from the root
/// down, then of its own narrowing step.
pub ghost enum DrawOutcome {
    /// Some parent id resolves to no widget.
    Dangling,
    /// The parent links contain a cycle.
    Cyclic,
    /// Some ancestor is invisible: nothing is drawn, with no error.
    Hidden,
    /// The widget itself or some ancestor still has a `Full` size.
    Unresolved,
    /// Some exact computation left the machine bounds.
    Range,
    /// The widget's own resolved box.
    Resolved(RatBox),
}

/// The fully resolved box of `w` within the tree `ws`: its ancestor
/// chain, the walk from the root down to its parent, and its own step.
pub open spec fn spec_draw_box(ws: Seq<Widget>, w: Widget) -> DrawOutcome {
    match spec_chain(ws, w) {
        ChainResult::Dangling => DrawOutcome::Dangling,
        ChainResult::Cyclic => DrawOutcome::Cyclic,
        ChainResult::Chain(chain) => {
            match walk_from(ws, chain, 0) {
                WalkResult::Hidden => DrawOutcome::Hidden,
                WalkResult::Unresolved => DrawOutcome::Unresolved,
                WalkResult::Range => DrawOutcome::Range,
                WalkResult::Resolved(b) => {
                    match walk_step(w, b) {
                        WalkResult::Hidden => DrawOutcome::Hidden,
                        WalkResult::Unresolved => DrawOutcome::Unresolved,
                        WalkResult::Range => DrawOutcome::Range,
                        WalkResult::Resolved(b2) => DrawOutcome::Resolved(b2),
                    }
                },
            }
        },
    }
}

/// The indices a chain vector denotes.
pub open spec fn idxs_of(s: Seq<usize>) -> Seq<int> {
    s.map_values(|u: usize| u as int)
}

impl Widget {
    /// Calculate the six draw vertices of this widget: its box is
    /// resolved against every ancestor from the root down, re-biased to
    /// the [-1,1] device space, and emitted as two triangles in the order
    /// top-right, top-left, bottom-left, top-right, bottom-right,
    /// bottom-left, each vertex carrying the widget's color. An invisible
    /// widget, or one below an invisible ancestor, draws nothing and is
    /// no error.
    pub fn draw(&self, ui: &Ui) -> (r: Result<Vec<DrawVertex>, Error>)
        ensures
            !self.spec_visible() ==> (r matches Ok(v) && v@.len() == 0),
            self.spec_visible() ==> {
                let outcome = spec_draw_box(ui.widgets@, *self);
                &&& outcome is Dangling ==> r == Err::<Vec<DrawVertex>, Error>(
                    Error::DanglingParent,
                )
                &&& outcome is Cyclic ==> r == Err::<Vec<DrawVertex>, Error>(
                    Error::CyclicHierarchy,
                )
                &&& outcome is Hidden ==> (r matches Ok(v) && v@.len() == 0)
                &&& outcome is Unresolved ==> r == Err::<Vec<DrawVertex>, Error>(
                    Error::UnresolvedSize,
                )
                &&& outcome is Range ==> r == Err::<Vec<DrawVertex>, Error>(Error::NumericRange)
                &&& outcome matches DrawOutcome::Resolved(b) ==> {
                    &&& !device_fits(b) ==> r == Err::<Vec<DrawVertex>, Error>(Error::NumericRange)
                    &&& device_fits(b) ==> (r matches Ok(v) && {
                        let dbx = rat_sub(b.bx, rat_of_int(1));
                        let dby = rat_sub(b.by, rat_of_int(1));
                        let dtx = rat_sub(b.tx, rat_of_int(1));
                        let dty = rat_sub(b.ty, rat_of_int(1));
                        &&& v@.len() == 6
                        &&& v@[0].position.0@ == dtx && v@[0].position.1@ == dty
                        &&& v@[1].position.0@ == dbx && v@[1].position.1@ == dty
                        &&& v@[2].position.0@ == dbx && v@[2].position.1@ == dby
                        &&& v@[3].position.0@ == dtx && v@[3].position.1@ == dty
                        &&& v@[4].position.0@ == dtx && v@[4].position.1@ == dby
                        &&& v@[5].position.0@ == dbx && v@[5].position.1@ == dby
                        &&& forall|q: int| 0 <= q < 6 ==> (#[trigger] v@[q]).color
                            == self.spec_color()
                    })
                }
            },
    {
        let ghost ws = ui.widgets@;
        let mut vertices: Vec<DrawVertex> = Vec::new();
        if !self.visible() {
            return Ok(vertices);
        }
        let mut chain: Vec<usize> = Vec::new();
        let mut parent_id: Option<Id> = self.parent_id();
        let mut fuel: usize = ui.widgets.len();
        while parent_id.is_some()
            invariant
                self.spec_visible(),
                ws == ui.widgets@,
                fuel <= ws.len(),
                forall|q: int| 0 <= q < chain@.len() ==> #[trigger] chain@[q] < ws.len(),
                ({
                    let cur = spec_chain_rec(ws, opt_id_view(parent_id), fuel as nat);
                    let total = spec_chain_rec(ws, self.spec_parent_id(), ws.len());
                    match cur {
                        ChainResult::Chain(rest) => total == ChainResult::Chain(
                            idxs_of(chain@) + rest,
                        ),
                        _ => total == cur,
                    }
                }),
            decreases fuel,
        {
            let pid = match parent_id {
                Some(p) => p,
                None => {
                    proof {
                        assert(false);
                    }
                    return Err(Error::DanglingParent);
                },
            };
            if fuel == 0 {
                return Err(Error::CyclicHierarchy);
            }
            match ui.find_widget(&pid) {
                None => {
                    return Err(Error::DanglingParent);
                },
                Some(i) => {
                    let ghost g_pid = pid@;
                    let ghost fuel0 = fuel as nat;
                    let ghost prev_chain = chain@;
                    chain.push(i);
                    parent_id = ui.widgets[i].parent_id();
                    fuel = fuel - 1;
                    proof {
                        let cur_old = spec_chain_rec(ws, Some(g_pid), fuel0);
                        let cur = spec_chain_rec(ws, opt_id_view(parent_id), fuel as nat);
                        assert(spec_find(ws, g_pid) == Some(i as int));
                        assert(opt_id_view(parent_id) == ws[i as int].spec_parent_id());
                        assert(cur_old == match cur {
                            ChainResult::Chain(rest) => ChainResult::Chain(seq![i as int] + rest),
                            other => other,
                        });
                        assert(idxs_of(chain@) =~= idxs_of(prev_chain) + seq![i as int]);
                        if cur is Chain {
                            assert(idxs_of(prev_chain) + (seq![i as int] + cur->Chain_0)
                                =~= idxs_of(chain@) + cur->Chain_0);
                        }
                    }
                },
            }
        }
        proof {
            let total = spec_chain_rec(ws, self.spec_parent_id(), ws.len());
            assert(idxs_of(chain@) + Seq::<int>::empty() =~= idxs_of(chain@));
            assert(total == ChainResult::Chain(idxs_of(chain@)));
        }
        let ghost chain_idxs = idxs_of(chain@);
        let mut bl = Vertex::new(Frac::from_int(0), Frac::from_int(0));
        let mut tr = Vertex::new(Frac::from_int(2), Frac::from_int(2));
        let mut j: usize = chain.len();
        while j > 0
            invariant
                ws == ui.widgets@,
                j <= chain@.len(),
                forall|q: int| 0 <= q < chain@.len() ==> #[trigger] chain@[q] < ws.len(),
                chain_idxs == idxs_of(chain@),
                spec_chain_rec(ws, self.spec_parent_id(), ws.len()) == ChainResult::Chain(
                    chain_idxs,
                ),
                walk_from(ws, chain_idxs, j as nat) == WalkResult::Resolved(
                    RatBox { bx: bl.x@, by: bl.y@, tx: tr.x@, ty: tr.y@ },
                ),
                self.spec_visible(),
            decreases j,
        {
            j = j - 1;
            let i = chain[j];
            proof {
                assert(chain_idxs[j as int] == i as int);
            }
            let visible = ui.widgets[i].visible();
            if !visible {
                proof {
                    lemma_walk_propagate(ws, chain_idxs, 0, j as nat);
                }
                return Ok(Vec::new());
            }
            let size = ui.widgets[i].size();
            let position = ui.widgets[i].position();
            match calc_vertices(bl, tr, size, position) {
                Ok(p) => {
                    bl = p.0;
                    tr = p.1;
                },
                Err(err) => {
                    proof {
                        lemma_walk_propagate(ws, chain_idxs, 0, j as nat);
                    }
                    return Err(err);
                },
            }
        }
        let size = self.size();
        let own = match calc_vertices(bl, tr, size, self.position()) {
            Ok(p) => p,
            Err(err) => {
                return Err(err);
            },
        };
        let bl = own.0;
        let tr = own.1;
        let one = Frac::from_int(1);
        let dbx = match bl.x.sub(one) {
            Some(v) => v,
            None => {
                return Err(Error::NumericRange);
            },
        };
        let dby = match bl.y.sub(one) {
            Some(v) => v,
            None => {
                return Err(Error::NumericRange);
            },
        };
        let dtx = match tr.x.sub(one) {
            Some(v) => v,
            None => {
                return Err(Error::NumericRange);
            },
        };
        let dty = match tr.y.sub(one) {
            Some(v) => v,
            None => {
                return Err(Error::NumericRange);
            },
        };
        let color = self.color();
        vertices.push(DrawVertex::new((dtx, dty), color));
        vertices.push(DrawVertex::new((dbx, dty), color));
        vertices.push(DrawVertex::new((dbx, dby), color));
        vertices.push(DrawVertex::new((dtx, dty), color));
        vertices.push(DrawVertex::new((dtx, dby), color));
        vertices.push(DrawVertex::new((dbx, dby), color));
        Ok(vertices)
    }
}

/// The error drawing one widget reports; `None` when it draws its quad
/// or legitimately draws nothing.
pub open spec fn widget_draw_error(ws: Seq<Widget>, w: Widget) -> Option<Error> {
    if !w.spec_visible() {
        None
    } else {
        match spec_draw_box(ws, w) {
            DrawOutcome::Dangling => Some(Error::DanglingParent),
            DrawOutcome::Cyclic => Some(Error::CyclicHierarchy),
            DrawOutcome::Hidden => None,
            DrawOutcome::Unresolved => Some(Error::UnresolvedSize),
            DrawOutcome::Range => Some(Error::NumericRange),
            DrawOutcome::Resolved(b) => if device_fits(b) {
                None
            } else {
                Some(Error::NumericRange)
            },
        }
    }
}

/// Whether drawing `w` emits its six-vertex quad.
pub open spec fn widget_draws_quad(ws: Seq<Widget>, w: Widget) -> bool {
    &&& w.spec_visible()
    &&& spec_draw_box(ws, w) matches DrawOutcome::Resolved(b) && device_fits(b)
}

/// The resolved box of a quad-drawing widget.
pub open spec fn widget_quad_box(ws: Seq<Widget>, w: Widget) -> RatBox {
    spec_draw_box(ws, w)->Resolved_0
}

/// The first drawing error among the widgets from index `i` on.
pub open spec fn draw_first_error(ui: Ui, i: nat) -> Option<Error>
    decreases ui.widgets@.len() - i,
{
    if i >= ui.widgets@.len() {
        None
    } else {
        match widget_draw_error(ui.widgets@, ui.widgets@[i as int]) {
            Some(e) => Some(e),
            None => draw_first_error(ui, i + 1),
        }
    }
}

/// Widgets known to draw cleanly can be skipped when looking for the
/// first drawing error.
proof fn lemma_draw_first_error_skip(ui: Ui, i: nat)
    requires
        i <= ui.widgets@.len(),
        forall|j: int|
            0 <= j < i ==> widget_draw_error(ui.widgets@, #[trigger] ui.widgets@[j]) is None,
    ensures
        draw_first_error(ui, 0) == draw_first_error(ui, i),
    decreases i,
{
    if i > 0 {
        lemma_draw_first_error_skip(ui, (i - 1) as nat);
    }
}

/// How many of the first `i` widgets draw quads.
pub open spec fn quad_count(ui: Ui, i: nat) -> int
    decreases i,
{
    if i == 0 {
        0
    } else {
        quad_count(ui, (i - 1) as nat) + if widget_draws_quad(
            ui.widgets@,
            ui.widgets@[i - 1],
        ) {
            1int
        } else {
            0int
        }
    }
}

/// More widgets never draw fewer quads.
proof fn lemma_quad_count_mono(ui: Ui, i1: nat, i2: nat)
    requires
        i1 <= i2,
    ensures
        quad_count(ui, i1) <= quad_count(ui, i2),
    decreases i2,
{
    if i1 < i2 {
        lemma_quad_count_mono(ui, i1, (i2 - 1) as nat);
    }
}

/// Whether the six entries of `v` starting at `base` are the two
/// device-space triangles of box `b`, each vertex colored `c`.
pub open spec fn quad_matches(v: Seq<DrawVertex>, base: int, b: RatBox, c: Color) -> bool {
    let dbx = rat_sub(b.bx, rat_of_int(1));
    let dby = rat_sub(b.by, rat_of_int(1));
    let dtx = rat_sub(b.tx, rat_of_int(1));
    let dty = rat_sub(b.ty, rat_of_int(1));
    &&& v[base].position.0@ == dtx && v[base].position.1@ == dty
    &&& v[base + 1].position.0@ == dbx && v[base + 1].position.1@ == dty
    &&& v[base + 2].position.0@ == dbx && v[base + 2].position.1@ == dby
    &&& v[base + 3].position.0@ == dtx && v[base + 3].position.1@ == dty
    &&& v[base + 4].position.0@ == dtx && v[base + 4].position.1@ == dby
    &&& v[base + 5].position.0@ == dbx && v[base + 5].position.1@ == dby
    &&& forall|q: int| base <= q < base + 6 ==> (#[trigger] v[q]).color == c
}

/// A quad already present in a buffer stays in place when the buffer is
/// extended.
proof fn lemma_quad_matches_prefix(
    v1: Seq<DrawVertex>,
    v2: Seq<DrawVertex>,
    base: int,
    b: RatBox,
    c: Color,
)
    requires
        0 <= base,
        base + 6 <= v1.len(),
        v1.len() <= v2.len(),
        forall|q: int| 0 <= q < v1.len() ==> v1[q] == #[trigger] v2[q],
        quad_matches(v1, base, b, c),
    ensures
        quad_matches(v2, base, b, c),
{
    assert forall|q: int| base <= q < base + 6 implies (#[trigger] v2[q]).color == c by {
        assert(v1[q] == v2[q]);
        assert(v1[q].color == c);
    }
}

/// What drawing every widget of `ui` in arena order yields: the first
/// widget whose draw fails decides the error; otherwise the buffer is
/// the in-order concatenation of the six-vertex quad of every widget
/// that draws one.
pub open spec fn spec_draw_all_post(ui: Ui, r: Result<Vec<DrawVertex>, Error>) -> bool {
    &&& draw_first_error(ui, 0) matches Some(e) ==> r == Err::<Vec<DrawVertex>, Error>(e)
    &&& draw_first_error(ui, 0) is None ==> (r matches Ok(v) && v@.len() == 6 * quad_count(
        ui,
        ui.widgets@.len(),
    ) && forall|i: int|
        0 <= i < ui.widgets@.len() && widget_draws_quad(ui.widgets@, #[trigger] ui.widgets@[i])
            ==> quad_matches(
            v@,
            6 * quad_count(ui, i as nat),
            widget_quad_box(ui.widgets@, ui.widgets@[i]),
            ui.widgets@[i].spec_color(),
        ))
}

/// Draws every widget of the tree in arena order and concatenates the
/// resulting quads into one flat triangle list. The sizes must already
/// be concrete, so this is called on a normalized tree.
pub fn draw_all(ui: &Ui) -> (r: Result<Vec<DrawVertex>, Error>)
    ensures
        spec_draw_all_post(*ui, r),
{
    let ghost ws = ui.widgets@;
    let mut vertices: Vec<DrawVertex> = Vec::new();
    let mut i: usize = 0;
    while i < ui.widgets.len()
        invariant
            ws == ui.widgets@,
            0 <= i <= ws.len(),
            forall|j: int| 0 <= j < i ==> widget_draw_error(ws, #[trigger] ws[j]) is None,
            vertices@.len() == 6 * quad_count(*ui, i as nat),
            forall|j: int|
                0 <= j < i && widget_draws_quad(ws, #[trigger] ws[j]) ==> quad_matches(
                    vertices@,
                    6 * quad_count(*ui, j as nat),
                    widget_quad_box(ws, ws[j]),
                    ws[j].spec_color(),
                ),
        decreases ws.len() - i,
    {
        let ghost prev = vertices@;
        let mut v = match ui.widgets[i].draw(ui) {
            Ok(v) => v,
            Err(err) => {
                proof {
                    assert(widget_draw_error(ws, ws[i as int]) == Some(err));
                    lemma_draw_first_error_skip(*ui, i as nat);
                }
                return Err(err);
            },
        };
        let ghost v6 = v@;
        if v.len() == 6 {
            vertices.append(&mut v);
        }
        proof {
            let w = ws[i as int];
            assert(widget_draw_error(ws, w) is None);
            if widget_draws_quad(ws, w) {
                assert(v6.len() == 6);
                assert(vertices@ == prev + v6);
                assert(quad_count(*ui, (i + 1) as nat) == quad_count(*ui, i as nat) + 1);
                assert forall|q: int| 0 <= q < 6 implies vertices@[prev.len() + q] == v6[q] by {}
                assert(quad_matches(
                    vertices@,
                    6 * quad_count(*ui, i as nat),
                    widget_quad_box(ws, w),
                    w.spec_color(),
                ));
            } else {
                assert(v6.len() == 0);
                assert(vertices@ == prev);
                assert(quad_count(*ui, (i + 1) as nat) == quad_count(*ui, i as nat));
            }
            assert forall|j: int|
                0 <= j < i + 1 && widget_draws_quad(ws, #[trigger] ws[j]) implies quad_matches(
                vertices@,
                6 * quad_count(*ui, j as nat),
                widget_quad_box(ws, ws[j]),
                ws[j].spec_color(),
            ) by {
                if j < i {
                    lemma_quad_count_mono(*ui, 0, j as nat);
                    lemma_quad_count_mono(*ui, (j + 1) as nat, i as nat);
                    assert(quad_count(*ui, (j + 1) as nat) == quad_count(*ui, j as nat) + 1);
                    let base = 6 * quad_count(*ui, j as nat);
                    assert(base + 6 <= prev.len());
                    assert(quad_matches(
                        prev,
                        base,
                        widget_quad_box(ws, ws[j]),
                        ws[j].spec_color(),
                    ));
                    assert forall|q: int| 0 <= q < prev.len() implies prev[q]
                        == #[trigger] vertices@[q] by {
                        if widget_draws_quad(ws, w) {
                            assert(vertices@ == prev + v6);
                        } else {
                            assert(vertices@ == prev);
                        }
                    }
                    lemma_quad_matches_prefix(
                        prev,
                        vertices@,
                        base,
                        widget_quad_box(ws, ws[j]),
                        ws[j].spec_color(),
                    );
                } else {
                    assert(j == i as int);
                    assert(ws[j] == w);
                    assert(j as nat == i as nat);
                    assert(quad_matches(
                        vertices@,
                        6 * quad_count(*ui, i as nat),
                        widget_quad_box(ws, w),
                        w.spec_color(),
                    ));
                }
            }
        }
        i = i + 1;
    }
    proof {
        lemma_draw_first_error_skip(*ui, ws.len());
    }
    Ok(vertices)
}

/// Normalizes the tree and draws every widget in insertion order,
/// concatenating the six vertices of each drawn widget into one flat
/// triangle list: the composition of `normalize_sizes` and `draw_all`.
pub fn build_vertices(ui: &Ui) -> (r: Result<Vec<DrawVertex>, Error>)
    requires
        ui.wf(),
    ensures
        normalize_first_error(ui.widgets@, ui.heirarchy@, 0) matches Some(err) ==> r == Err::<
            Vec<DrawVertex>,
            Error,
        >(err),
        normalize_first_error(ui.widgets@, ui.heirarchy@, 0) is None ==> exists|u2: Ui|
            #[trigger] spec_normalized(*ui, u2) && spec_draw_all_post(u2, r),
{
    let resolved = match normalize_sizes(ui) {
        Ok(u) => u,
        Err(err) => {
            return Err(err);
        },
    };
    let r = draw_all(&resolved);
    proof {
        assert(spec_normalized(*ui, resolved) && spec_draw_all_post(resolved, r));
    }
    r
}

} // verus!
