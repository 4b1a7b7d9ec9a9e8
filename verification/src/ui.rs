//! The UI context: an arena of widgets plus the parent-to-children
//! hierarchy, both keyed by widget id.

use vstd::prelude::*;

use crate::theme::Theme;
use crate::widget::Id;
use crate::widget::Widget;

verus! {

/// The index of the first widget in `ws` carrying the id `id`.
pub open spec fn spec_find(ws: Seq<Widget>, id: Seq<char>) -> Option<int>
    decreases ws.len(),
{
    if ws.len() == 0 {
        None
    } else if ws[0].spec_id() == id {
        Some(0int)
    } else {
        match spec_find(ws.drop_first(), id) {
            None => None,
            Some(i) => Some(i + 1),
        }
    }
}

/// When no widget carries the id, the lookup comes up empty.
pub proof fn lemma_spec_find_none(ws: Seq<Widget>, id: Seq<char>)
    requires
        forall|j: int| 0 <= j < ws.len() ==> ws[j].spec_id() != id,
    ensures
        spec_find(ws, id) is None,
    decreases ws.len(),
{
    if ws.len() > 0 {
        lemma_spec_find_none(ws.drop_first(), id);
    }
}

/// When `i` is the first index carrying the id, the lookup returns it.
pub proof fn lemma_spec_find_first(ws: Seq<Widget>, id: Seq<char>, i: int)
    requires
        0 <= i < ws.len(),
        ws[i].spec_id() == id,
        forall|j: int| 0 <= j < i ==> ws[j].spec_id() != id,
    ensures
        spec_find(ws, id) == Some(i),
    decreases ws.len(),
{
    if i > 0 {
        lemma_spec_find_first(ws.drop_first(), id, i - 1);
    }
}

/// What a successful lookup means: the index is in range, carries the id,
/// and is the first to do so.
pub proof fn lemma_spec_find_some(ws: Seq<Widget>, id: Seq<char>)
    requires
        spec_find(ws, id) is Some,
    ensures
        0 <= spec_find(ws, id)->0 < ws.len(),
        ws[spec_find(ws, id)->0].spec_id() == id,
        forall|j: int| 0 <= j < spec_find(ws, id)->0 ==> ws[j].spec_id() != id,
    decreases ws.len(),
{
    if ws.len() > 0 && ws[0].spec_id() != id {
        lemma_spec_find_some(ws.drop_first(), id);
        let i = spec_find(ws, id)->0;
        assert forall|j: int| 0 <= j < i implies ws[j].spec_id() != id by {
            if j > 0 {
                assert(ws.drop_first()[j - 1] == ws[j]);
            }
        }
    }
}

/// Two widget sequences with pointwise equal ids look the same to the
/// lookup.
pub proof fn lemma_spec_find_same_ids(ws1: Seq<Widget>, ws2: Seq<Widget>, id: Seq<char>)
    requires
        ws1.len() == ws2.len(),
        forall|j: int| 0 <= j < ws1.len() ==> ws1[j].spec_id() == ws2[j].spec_id(),
    ensures
        spec_find(ws1, id) == spec_find(ws2, id),
    decreases ws1.len(),
{
    if ws1.len() > 0 {
        lemma_spec_find_same_ids(ws1.drop_first(), ws2.drop_first(), id);
    }
}

/// The index of the hierarchy entry whose key is `id`.
pub open spec fn spec_find_entry(h: Seq<(Id, Vec<Id>)>, id: Seq<char>) -> Option<int>
    decreases h.len(),
{
    if h.len() == 0 {
        None
    } else if h[0].0@ == id {
        Some(0int)
    } else {
        match spec_find_entry(h.drop_first(), id) {
            None => None,
            Some(i) => Some(i + 1),
        }
    }
}

/// When no entry carries the key, the lookup comes up empty.
pub proof fn lemma_spec_find_entry_none(h: Seq<(Id, Vec<Id>)>, id: Seq<char>)
    requires
        forall|j: int| 0 <= j < h.len() ==> h[j].0@ != id,
    ensures
        spec_find_entry(h, id) is None,
    decreases h.len(),
{
    if h.len() > 0 {
        lemma_spec_find_entry_none(h.drop_first(), id);
    }
}

/// When `i` is the first entry carrying the key, the lookup returns it.
pub proof fn lemma_spec_find_entry_first(h: Seq<(Id, Vec<Id>)>, id: Seq<char>, i: int)
    requires
        0 <= i < h.len(),
        h[i].0@ == id,
        forall|j: int| 0 <= j < i ==> h[j].0@ != id,
    ensures
        spec_find_entry(h, id) == Some(i),
    decreases h.len(),
{
    if i > 0 {
        lemma_spec_find_entry_first(h.drop_first(), id, i - 1);
    }
}


/// How adding `widget` transforms a UI context: the widget is appended
/// to the arena, and its id is registered under its parent's hierarchy
/// entry, a fresh entry when the parent had none yet.
pub open spec fn spec_added(pre: Ui, post: Ui, widget: Widget) -> bool {
    &&& post.app_id == pre.app_id
    &&& post.theme == pre.theme
    &&& post.widgets@ == pre.widgets@.push(widget)
    &&& widget.spec_parent_id() is None ==> post.heirarchy@ == pre.heirarchy@
    &&& widget.spec_parent_id() matches Some(pid) ==> {
        match spec_find_entry(pre.heirarchy@, pid) {
            None => {
                &&& post.heirarchy@.len() == pre.heirarchy@.len() + 1
                &&& post.heirarchy@.subrange(0, pre.heirarchy@.len() as int) == pre.heirarchy@
                &&& post.heirarchy@.last().0@ == pid
                &&& post.heirarchy@.last().1@.len() == 1
                &&& post.heirarchy@.last().1@[0]@ == widget.spec_id()
            },
            Some(e) => {
                &&& post.heirarchy@.len() == pre.heirarchy@.len()
                &&& forall|j: int|
                    0 <= j < pre.heirarchy@.len() && j != e ==> post.heirarchy@[j]
                        == pre.heirarchy@[j]
                &&& post.heirarchy@[e].0 == pre.heirarchy@[e].0
                &&& post.heirarchy@[e].1@.len() == pre.heirarchy@[e].1@.len() + 1
                &&& post.heirarchy@[e].1@.subrange(0, pre.heirarchy@[e].1@.len() as int)
                    == pre.heirarchy@[e].1@
                &&& post.heirarchy@[e].1@.last()@ == widget.spec_id()
            },
        }
    }
}

/// Whether hierarchy slot `(a, b)` comes lexicographically before slot
/// `(c, d)`.
pub open spec fn slot_before(a: int, b: int, c: int, d: int) -> bool {
    a < c || (a == c && b < d)
}

/// The main UI structure: the application id, the theme, the hierarchy
/// from parent id to the ordered ids of its children, and the widget
/// arena itself.
#[derive(Debug)]
pub struct Ui {
    /// The application id.
    pub app_id: Id,
    /// The theme used to color widgets built without an explicit color.
    pub theme: Theme,
    /// The ordered children of each parent id.
    pub heirarchy: Vec<(Id, Vec<Id>)>,
    /// All widgets, in insertion order.
    pub widgets: Vec<Widget>,
}

impl Clone for Ui {
    /// A copy that holds the same application id, theme, widgets and
    /// hierarchy contents.
    fn clone(&self) -> (r: Self)
        ensures
            r.app_id == self.app_id,
            r.theme == self.theme,
            r.widgets@ == self.widgets@,
            r.heirarchy@.len() == self.heirarchy@.len(),
            forall|e: int|
                0 <= e < self.heirarchy@.len() ==> (#[trigger] r.heirarchy@[e]).0
                    == self.heirarchy@[e].0 && r.heirarchy@[e].1@ == self.heirarchy@[e].1@,
    {
        let mut heirarchy: Vec<(Id, Vec<Id>)> = Vec::new();
        let mut i: usize = 0;
        while i < self.heirarchy.len()
            invariant
                0 <= i <= self.heirarchy.len(),
                heirarchy@.len() == i,
                forall|e: int|
                    0 <= e < i ==> (#[trigger] heirarchy@[e]).0 == self.heirarchy@[e].0
                        && heirarchy@[e].1@ == self.heirarchy@[e].1@,
            decreases self.heirarchy.len() - i,
        {
            let entry = &self.heirarchy[i];
            let mut children: Vec<Id> = Vec::new();
            let mut k: usize = 0;
            while k < entry.1.len()
                invariant
                    0 <= k <= entry.1.len(),
                    children@ == entry.1@.subrange(0, k as int),
                decreases entry.1.len() - k,
            {
                children.push(entry.1[k].clone());
                proof {
                    assert(children@ =~= entry.1@.subrange(0, k + 1));
                }
                k = k + 1;
            }
            proof {
                assert(children@ =~= entry.1@);
            }
            heirarchy.push((entry.0.clone(), children));
            i = i + 1;
        }
        let mut widgets: Vec<Widget> = Vec::new();
        let mut i: usize = 0;
        while i < self.widgets.len()
            invariant
                0 <= i <= self.widgets.len(),
                widgets@ == self.widgets@.subrange(0, i as int),
                heirarchy@.len() == self.heirarchy@.len(),
                forall|e: int|
                    0 <= e < self.heirarchy@.len() ==> (#[trigger] heirarchy@[e]).0
                        == self.heirarchy@[e].0 && heirarchy@[e].1@ == self.heirarchy@[e].1@,
            decreases self.widgets.len() - i,
        {
            widgets.push(self.widgets[i].clone());
            proof {
                assert(widgets@ =~= self.widgets@.subrange(0, i + 1));
            }
            i = i + 1;
        }
        proof {
            assert(widgets@ =~= self.widgets@);
        }
        Ui { app_id: self.app_id.clone(), theme: self.theme.clone(), heirarchy, widgets }
    }
}

impl Ui {
    /// A well-formed tree: widget ids are unique, hierarchy keys are
    /// unique, no id is listed as a child of two different positions, and
    /// every listed child resolves to a widget that is not the root.
    pub open spec fn wf(self) -> bool {
        &&& forall|i: int, j: int|
            0 <= i < j < self.widgets@.len() ==> self.widgets@[i].spec_id()
                != self.widgets@[j].spec_id()
        &&& forall|i: int, j: int|
            0 <= i < j < self.heirarchy@.len() ==> self.heirarchy@[i].0@ != self.heirarchy@[j].0@
        &&& forall|e1: int, k1: int, e2: int, k2: int|
            0 <= e1 < self.heirarchy@.len() && 0 <= k1 < self.heirarchy@[e1].1@.len() && 0 <= e2
                < self.heirarchy@.len() && 0 <= k2 < self.heirarchy@[e2].1@.len() && (e1 != e2 || k1
                != k2) ==> self.heirarchy@[e1].1@[k1]@ != self.heirarchy@[e2].1@[k2]@
        &&& forall|e: int, k: int|
            0 <= e < self.heirarchy@.len() && 0 <= k < self.heirarchy@[e].1@.len() ==> {
                let found = #[trigger] spec_find(self.widgets@, self.heirarchy@[e].1@[k]@);
                &&& found is Some
                &&& !(self.widgets@[found->0] matches Widget::WindowContainer(_))
            }
    }

    /// A new UI context from its parts.
    pub fn new(app_id: Id, theme: Theme, heirarchy: Vec<(Id, Vec<Id>)>, widgets: Vec<
        Widget,
    >) -> (r: Self)
        ensures
            r == (Ui { app_id, theme, heirarchy, widgets }),
    {
        Ui { app_id, theme, heirarchy, widgets }
    }

    /// An empty UI context with the default theme.
    pub fn init(app_id: &str) -> (r: Self)
        ensures
            r.app_id@ == app_id@,
            r.theme.bar@ == "#161B6DFF"@,
            r.theme.container@ == "#161B1DFF"@,
            r.theme.dock@ == "#161B6DFF"@,
            r.theme.label_text@ == "#FFFFFFFF"@,
            r.theme.label_background@ == "#161B1DFF"@,
            r.theme.window_container@ == "#161B3DFF"@,
            r.heirarchy@.len() == 0,
            r.widgets@.len() == 0,
    {
        Ui {
            app_id: String::from_str(app_id),
            theme: Theme::default(),
            heirarchy: Vec::new(),
            widgets: Vec::new(),
        }
    }

    /// An empty UI context with the given theme.
    pub fn init_with_theme(app_id: &str, theme: Theme) -> (r: Self)
        ensures
            r.app_id@ == app_id@,
            r.theme == theme,
            r.heirarchy@.len() == 0,
            r.widgets@.len() == 0,
    {
        Ui { app_id: String::from_str(app_id), theme, heirarchy: Vec::new(), widgets: Vec::new() }
    }

    /// The application id.
    pub fn app_id(&self) -> (r: Id)
        ensures
            r == self.app_id,
    {
        self.app_id.clone()
    }

    /// The theme set for this context.
    pub fn theme(&self) -> (r: Theme)
        ensures
            r == self.theme,
    {
        self.theme.clone()
    }

    /// The hierarchy from parent id to its ordered children ids.
    pub fn heirarchy(&self) -> (r: &Vec<(Id, Vec<Id>)>)
        ensures
            r@ == self.heirarchy@,
    {
        &self.heirarchy
    }

    /// All widgets, in insertion order.
    pub fn widgets(&self) -> (r: &Vec<Widget>)
        ensures
            r@ == self.widgets@,
    {
        &self.widgets
    }

    /// Executable form of the well-formedness predicate, for callers
    /// outside the verifier: it returns exactly [`Ui::wf`].
    pub fn check_wf(&self) -> (b: bool)
        ensures
            b == self.wf(),
    {
        let ghost ws = self.widgets@;
        let ghost h = self.heirarchy@;
        let n = self.widgets.len();
        let m = self.heirarchy.len();
        let mut i: usize = 0;
        while i < n
            invariant
                ws == self.widgets@,
                n == ws.len(),
                0 <= i <= n,
                forall|a: int, c: int|
                    #![trigger ws[a].spec_id(), ws[c].spec_id()]
                    0 <= a < c < n && a < i ==> ws[a].spec_id() != ws[c].spec_id(),
            decreases n - i,
        {
            let mut j: usize = i + 1;
            while j < n
                invariant
                    ws == self.widgets@,
                    n == ws.len(),
                    0 <= i < n,
                    i < j <= n,
                    forall|a: int, c: int|
                        #![trigger ws[a].spec_id(), ws[c].spec_id()]
                        0 <= a < c < n && a < i ==> ws[a].spec_id() != ws[c].spec_id(),
                    forall|c: int|
                        i < c < j ==> ws[i as int].spec_id() != (#[trigger] ws[c]).spec_id(),
                decreases n - j,
            {
                if self.widgets[i].id_ref().eq(self.widgets[j].id_ref()) {
                    proof {
                        assert(ws[i as int].spec_id() == ws[j as int].spec_id());
                        assert(!self.wf());
                    }
                    return false;
                }
                j = j + 1;
            }
            i = i + 1;
        }
        let mut i: usize = 0;
        while i < m
            invariant
                h == self.heirarchy@,
                m == h.len(),
                0 <= i <= m,
                forall|a: int, c: int|
                    #![trigger h[a].0, h[c].0]
                    0 <= a < c < m && a < i ==> h[a].0@ != h[c].0@,
            decreases m - i,
        {
            let mut j: usize = i + 1;
            while j < m
                invariant
                    h == self.heirarchy@,
                    m == h.len(),
                    0 <= i < m,
                    i < j <= m,
                    forall|a: int, c: int|
                        #![trigger h[a].0, h[c].0]
                        0 <= a < c < m && a < i ==> h[a].0@ != h[c].0@,
                    forall|c: int| i < c < j ==> h[i as int].0@ != (#[trigger] h[c]).0@,
                decreases m - j,
            {
                if self.heirarchy[i].0.eq(&self.heirarchy[j].0) {
                    proof {
                        assert(!self.wf());
                    }
                    return false;
                }
                j = j + 1;
            }
            i = i + 1;
        }
        let mut e1: usize = 0;
        while e1 < m
            invariant
                ws == self.widgets@,
                h == self.heirarchy@,
                m == h.len(),
                0 <= e1 <= m,
                forall|a1: int, b1: int, a2: int, b2: int|
                    #![trigger h[a1].1@[b1], h[a2].1@[b2]]
                    0 <= a1 < m && 0 <= b1 < h[a1].1@.len() && 0 <= a2 < m && 0 <= b2
                        < h[a2].1@.len() && (a1 != a2 || b1 != b2) && (slot_before(a1, b1, e1 as int, 0)
                        || slot_before(a2, b2, e1 as int, 0)) ==> h[a1].1@[b1]@ != h[a2].1@[b2]@,
            decreases m - e1,
        {
            let ch1_len = self.heirarchy[e1].1.len();
            let mut k1: usize = 0;
            while k1 < ch1_len
                invariant
                    ws == self.widgets@,
                    h == self.heirarchy@,
                    m == h.len(),
                    0 <= e1 < m,
                    ch1_len == h[e1 as int].1@.len(),
                    0 <= k1 <= ch1_len,
                    forall|a1: int, b1: int, a2: int, b2: int|
                        #![trigger h[a1].1@[b1], h[a2].1@[b2]]
                        0 <= a1 < m && 0 <= b1 < h[a1].1@.len() && 0 <= a2 < m && 0 <= b2
                            < h[a2].1@.len() && (a1 != a2 || b1 != b2) && (slot_before(
                            a1,
                            b1,
                            e1 as int,
                            k1 as int,
                        ) || slot_before(a2, b2, e1 as int, k1 as int)) ==> h[a1].1@[b1]@
                            != h[a2].1@[b2]@,
                decreases ch1_len - k1,
            {
                let mut e2: usize = e1;
                while e2 < m
                    invariant
                        ws == self.widgets@,
                        h == self.heirarchy@,
                        m == h.len(),
                        0 <= e1 < m,
                        ch1_len == h[e1 as int].1@.len(),
                        0 <= k1 < ch1_len,
                        e1 <= e2 <= m,
                        forall|a2: int, b2: int|
                            #![trigger h[a2].1@[b2]]
                            0 <= a2 < m && 0 <= b2 < h[a2].1@.len() && slot_before(
                                e1 as int,
                                k1 as int,
                                a2,
                                b2,
                            ) && a2 < e2 ==> h[e1 as int].1@[k1 as int]@ != h[a2].1@[b2]@,
                    decreases m - e2,
                {
                    let ch2_len = self.heirarchy[e2].1.len();
                    let mut k2: usize = if e2 == e1 {
                        k1 + 1
                    } else {
                        0
                    };
                    while k2 < ch2_len
                        invariant
                            ws == self.widgets@,
                            h == self.heirarchy@,
                            m == h.len(),
                            0 <= e1 < m,
                            ch1_len == h[e1 as int].1@.len(),
                            0 <= k1 < ch1_len,
                            e1 <= e2 < m,
                            ch2_len == h[e2 as int].1@.len(),
                            e2 == e1 ==> k1 < k2,
                            0 <= k2 <= ch2_len,
                            forall|a2: int, b2: int|
                                #![trigger h[a2].1@[b2]]
                                0 <= a2 < m && 0 <= b2 < h[a2].1@.len() && slot_before(
                                    e1 as int,
                                    k1 as int,
                                    a2,
                                    b2,
                                ) && a2 < e2 ==> h[e1 as int].1@[k1 as int]@ != h[a2].1@[b2]@,
                            forall|b2: int|
                                0 <= b2 < ch2_len && slot_before(
                                    e1 as int,
                                    k1 as int,
                                    e2 as int,
                                    b2,
                                ) && b2 < k2 ==> h[e1 as int].1@[k1 as int]@ != (#[trigger] h[
                                    e2 as int
                                ].1@[b2])@,
                        decreases ch2_len - k2,
                    {
                        if self.heirarchy[e1].1[k1].eq(&self.heirarchy[e2].1[k2]) {
                            proof {
                                assert(h[e1 as int].1@[k1 as int]@ == h[e2 as int].1@[k2 as int]@);
                                assert(e1 as int != e2 as int || k1 as int != k2 as int);
                                assert(!self.wf());
                            }
                            return false;
                        }
                        k2 = k2 + 1;
                    }
                    e2 = e2 + 1;
                }
                proof {
                    assert forall|a1: int, b1: int, a2: int, b2: int|
                        #![trigger h[a1].1@[b1], h[a2].1@[b2]]
                        0 <= a1 < m && 0 <= b1 < h[a1].1@.len() && 0 <= a2 < m && 0 <= b2
                            < h[a2].1@.len() && (a1 != a2 || b1 != b2) && (slot_before(
                            a1,
                            b1,
                            e1 as int,
                            k1 + 1,
                        ) || slot_before(a2, b2, e1 as int, k1 + 1)) implies h[a1].1@[b1]@
                            != h[a2].1@[b2]@ by {
                        if !(slot_before(a1, b1, e1 as int, k1 as int) || slot_before(
                            a2,
                            b2,
                            e1 as int,
                            k1 as int,
                        )) {
                            if a1 == e1 as int && b1 == k1 as int {
                                assert(slot_before(e1 as int, k1 as int, a2, b2));
                            } else {
                                assert(a2 == e1 as int && b2 == k1 as int);
                                assert(slot_before(e1 as int, k1 as int, a1, b1));
                            }
                        }
                    }
                }
                k1 = k1 + 1;
            }
            e1 = e1 + 1;
        }
        let mut e: usize = 0;
        while e < m
            invariant
                ws == self.widgets@,
                h == self.heirarchy@,
                m == h.len(),
                0 <= e <= m,
                forall|a: int, b: int|
                    0 <= a < m && a < e && 0 <= b < h[a].1@.len() ==> {
                        let found = #[trigger] spec_find(ws, h[a].1@[b]@);
                        &&& found is Some
                        &&& !(ws[found->0] matches Widget::WindowContainer(_))
                    },
            decreases m - e,
        {
            let ch_len = self.heirarchy[e].1.len();
            let mut k: usize = 0;
            while k < ch_len
                invariant
                    ws == self.widgets@,
                    h == self.heirarchy@,
                    m == h.len(),
                    0 <= e < m,
                    ch_len == h[e as int].1@.len(),
                    0 <= k <= ch_len,
                    forall|a: int, b: int|
                        0 <= a < m && a < e && 0 <= b < h[a].1@.len() ==> {
                            let found = #[trigger] spec_find(ws, h[a].1@[b]@);
                            &&& found is Some
                            &&& !(ws[found->0] matches Widget::WindowContainer(_))
                        },
                    forall|b: int|
                        0 <= b < k ==> {
                            let found = #[trigger] spec_find(ws, h[e as int].1@[b]@);
                            &&& found is Some
                            &&& !(ws[found->0] matches Widget::WindowContainer(_))
                        },
                decreases ch_len - k,
            {
                match self.find_widget(&self.heirarchy[e].1[k]) {
                    None => {
                        proof {
                            assert(!self.wf());
                        }
                        return false;
                    },
                    Some(idx) => {
                        let is_root = match &self.widgets[idx] {
                            Widget::WindowContainer(_) => true,
                            _ => false,
                        };
                        if is_root {
                            proof {
                                assert(!self.wf());
                            }
                            return false;
                        }
                    },
                }
                k = k + 1;
            }
            e = e + 1;
        }
        proof {
            assert(self.wf());
        }
        true
    }

    /// The index of the widget carrying `id`, if any.
    pub fn find_widget(&self, id: &Id) -> (r: Option<usize>)
        ensures
            r matches Some(u) ==> u < self.widgets@.len() && self.widgets@[u as int].spec_id()
                == id@ && spec_find(self.widgets@, id@) == Some(u as int),
            r is None ==> spec_find(self.widgets@, id@) is None,
    {
        let mut i: usize = 0;
        while i < self.widgets.len()
            invariant
                0 <= i <= self.widgets.len(),
                forall|j: int| 0 <= j < i ==> self.widgets@[j].spec_id() != id@,
            decreases self.widgets.len() - i,
        {
            let found = match &self.widgets[i] {
                Widget::WindowContainer(w) => w.id.eq(id),
                Widget::Toolbar(w) => w.id.eq(id),
                Widget::Dock(w) => w.id.eq(id),
                Widget::Container(w) => w.id.eq(id),
                Widget::Label(w) => w.id.eq(id),
                Widget::Button(w) => w.id.eq(id),
            };
            if found {
                proof {
                    lemma_spec_find_first(self.widgets@, id@, i as int);
                }
                return Some(i);
            }
            i = i + 1;
        }
        proof {
            lemma_spec_find_none(self.widgets@, id@);
        }
        None
    }

    /// The index of the hierarchy entry whose key is `id`, if any.
    fn find_entry(&self, id: &Id) -> (r: Option<usize>)
        ensures
            r matches Some(u) ==> u < self.heirarchy@.len() && self.heirarchy@[u as int].0@ == id@
                && spec_find_entry(self.heirarchy@, id@) == Some(u as int),
            r is None ==> spec_find_entry(self.heirarchy@, id@) is None,
    {
        let mut i: usize = 0;
        while i < self.heirarchy.len()
            invariant
                0 <= i <= self.heirarchy.len(),
                forall|j: int| 0 <= j < i ==> self.heirarchy@[j].0@ != id@,
            decreases self.heirarchy.len() - i,
        {
            if self.heirarchy[i].0.eq(id) {
                proof {
                    lemma_spec_find_entry_first(self.heirarchy@, id@, i as int);
                }
                return Some(i);
            }
            i = i + 1;
        }
        proof {
            lemma_spec_find_entry_none(self.heirarchy@, id@);
        }
        None
    }

    /// Add a widget to the arena, and register it under its parent's
    /// hierarchy entry (creating the entry if the parent has none yet).
    /// Ids are unique across the tree, so the widget's id must not be in
    /// use yet.
    pub fn add_widget(&mut self, widget: Widget)
        requires
            spec_find(old(self).widgets@, widget.spec_id()) is None,
        ensures
            spec_added(*old(self), *final(self), widget),
    {
        let id = widget.id();
        let parent_id = widget.parent_id();
        self.widgets.push(widget);
        if let Some(pid) = parent_id {
            match self.find_entry(&pid) {
                None => {
                    let mut children: Vec<Id> = Vec::new();
                    children.push(id);
                    self.heirarchy.push((pid, children));
                    proof {
                        assert(self.heirarchy@.subrange(0, old(self).heirarchy@.len() as int)
                            =~= old(self).heirarchy@);
                    }
                },
                Some(e) => {
                    let mut entry = self.heirarchy.remove(e);
                    entry.1.push(id);
                    self.heirarchy.insert(e, entry);
                    proof {
                        assert(self.heirarchy@[e as int].1@.subrange(
                            0,
                            old(self).heirarchy@[e as int].1@.len() as int,
                        ) =~= old(self).heirarchy@[e as int].1@);
                        assert(forall|j: int|
                            0 <= j < old(self).heirarchy@.len() && j != e ==> self.heirarchy@[j]
                                == old(self).heirarchy@[j]);
                    }
                },
            }
        }
    }
}

} // verus!
