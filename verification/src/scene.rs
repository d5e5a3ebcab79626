//! Keyed, measure-granularity scene reconciler.
//!
//! The library keeps its own model of the drawing surface: a viewBox,
//! the shared glyph-definition pool, and one keyed subtree per laid-out
//! measure, in sibling order. The external layout engine's output for a
//! measure — an ordered list of drawing primitives plus an integer
//! width — is handed in as plain values; reconciling a measure replaces
//! the subtree with its id in place, or appends a new one, and never
//! touches its siblings. The host mirrors this model onto the real
//! surface.

use vstd::prelude::*;

use crate::digits::{dec_seq, hex_seq, dec_string, hex_string};
use vstd::string::StringExecFns;

verus! {

/// A rectangle primitive from the layout engine.
#[derive(PartialEq, Clone, Debug)]
pub struct RectPrim {
    /// Left edge.
    pub x: i32,
    /// Top edge.
    pub y: i32,
    /// Width.
    pub width: i32,
    /// Height.
    pub height: i32,
    /// Horizontal corner radius, if rounded.
    pub rx: Option<i32>,
    /// Vertical corner radius, if rounded.
    pub ry: Option<i32>,
    /// Fill paint.
    pub fill: String,
}

/// A glyph-reference primitive: a stamp of one glyph from the shared
/// definition pool.
#[derive(PartialEq, Eq, Structural, Copy, Clone, Debug)]
pub struct UsePrim {
    /// Horizontal position.
    pub x: i32,
    /// Vertical position.
    pub y: i32,
    /// Identifier of the glyph in the definition pool.
    pub id: u32,
}

/// A free-form path primitive.
#[derive(PartialEq, Clone, Debug)]
pub struct PathPrim {
    /// The path data text.
    pub d: String,
}

/// One drawing primitive of a measure, as the layout engine reports it.
#[derive(PartialEq, Clone, Debug)]
pub enum Prim {
    /// A rectangle.
    Rect(RectPrim),
    /// A glyph reference.
    Use(UsePrim),
    /// A path.
    Path(PathPrim),
}

/// One node of a measure's subtree on the drawing surface.
#[derive(PartialEq, Clone, Debug)]
pub enum SurfaceElem {
    /// A rectangle node.
    Rect {
        /// Left edge.
        x: i32,
        /// Top edge.
        y: i32,
        /// Width.
        width: i32,
        /// Height.
        height: i32,
        /// Horizontal corner radius, written only when present.
        rx: Option<i32>,
        /// Vertical corner radius, written only when present.
        ry: Option<i32>,
        /// Fill paint.
        fill: String,
    },
    /// A glyph-reference node pointing into the definition pool.
    Use {
        /// Horizontal position.
        x: i32,
        /// Vertical position.
        y: i32,
        /// Reference target: `#` followed by the glyph id in
        /// lower-case hexadecimal.
        href: String,
    },
    /// A path node.
    Path {
        /// The path data text.
        d: String,
    },
}

/// The surface node a primitive turns into: positions and sizes carry
/// over field by field, and a glyph reference's target is the pool id
/// rendered as `#` plus hexadecimal digits.
pub open spec fn elem_matches(p: Prim, e: SurfaceElem) -> bool {
    match (p, e) {
        (Prim::Rect(r), SurfaceElem::Rect { x, y, width, height, rx, ry, fill }) => {
            &&& x == r.x
            &&& y == r.y
            &&& width == r.width
            &&& height == r.height
            &&& rx == r.rx
            &&& ry == r.ry
            &&& fill@ == r.fill@
        },
        (Prim::Use(u), SurfaceElem::Use { x, y, href }) => {
            &&& x == u.x
            &&& y == u.y
            &&& href@ == seq!['#'] + hex_seq(u.id as nat)
        },
        (Prim::Path(p), SurfaceElem::Path { d }) => d@ == p.d@,
        _ => false,
    }
}

/// A whole primitive list turned into surface nodes, in order.
pub open spec fn elems_match(ps: Seq<Prim>, es: Seq<SurfaceElem>) -> bool {
    es.len() == ps.len() && forall|i: int| 0 <= i < ps.len() ==> elem_matches(ps[i], #[trigger] es[i])
}

/// Create a drawing-surface node from one layout primitive.
pub fn create_elem(prim: &Prim) -> (e: SurfaceElem)
    ensures
        elem_matches(*prim, e),
{
    match prim {
        Prim::Rect(r) => SurfaceElem::Rect {
            x: r.x,
            y: r.y,
            width: r.width,
            height: r.height,
            rx: r.rx,
            ry: r.ry,
            fill: r.fill.clone(),
        },
        Prim::Use(u) => {
            let mut href = "#".to_owned();
            proof {
                reveal_strlit("#");
            }
            let digits = hex_string(u.id);
            href.append(digits.as_str());
            proof {
                assert(href@ =~= seq!['#'] + hex_seq(u.id as nat));
            }
            SurfaceElem::Use { x: u.x, y: u.y, href }
        },
        Prim::Path(p) => SurfaceElem::Path { d: p.d.clone() },
    }
}

/// The stable text id of the measure with index `i`: the letter `m`
/// followed by the index in decimal.
pub fn measure_id(i: usize) -> (r: String)
    ensures
        r@ == seq!['m'] + dec_seq(i as nat),
{
    let mut s = "m".to_owned();
    proof {
        reveal_strlit("m");
    }
    let digits = dec_string(i);
    s.append(digits.as_str());
    proof {
        assert(s@ =~= seq!['m'] + dec_seq(i as nat));
    }
    s
}

/// One measure's subtree on the surface: its stable key, its
/// horizontal offset (the `translate` transform), and its nodes.
#[derive(PartialEq, Clone, Debug)]
pub struct MeasureNode {
    /// The measure index this subtree is keyed by.
    pub id: usize,
    /// Horizontal offset: the prefix sum of the widths of the
    /// measures before this one.
    pub offset_x: i64,
    /// The subtree's drawing nodes, in layout order.
    pub elems: Vec<SurfaceElem>,
}

/// Position of the first node keyed `id`, if any.
pub open spec fn id_index(s: Seq<MeasureNode>, id: usize) -> Option<int>
    decreases s.len(),
{
    if s.len() == 0 {
        None
    } else if s[0].id == id {
        Some(0)
    } else {
        match id_index(s.skip(1), id) {
            Some(j) => Some(j + 1),
            None => None,
        }
    }
}

/// How many nodes are keyed `id`.
pub open spec fn count_id(s: Seq<MeasureNode>, id: usize) -> nat
    decreases s.len(),
{
    if s.len() == 0 {
        0
    } else {
        (if s[0].id == id {
            1nat
        } else {
            0nat
        }) + count_id(s.skip(1), id)
    }
}

/// What `id_index` finds: `None` means no node carries the id; a
/// position points at the first node that does.
pub proof fn lemma_id_index_props(s: Seq<MeasureNode>, id: usize)
    ensures
        id_index(s, id) is None ==> forall|k: int| 0 <= k < s.len() ==> s[k].id != id,
        id_index(s, id) matches Some(j) ==> 0 <= j < s.len() && s[j].id == id && forall|k: int|
            0 <= k < j ==> s[k].id != id,
    decreases s.len(),
{
    if s.len() > 0 && s[0].id != id {
        let t = s.skip(1);
        lemma_id_index_props(t, id);
        assert(forall|k: int| 0 <= k < t.len() ==> t[k] == s[k + 1]);
        if id_index(t, id) is None {
            assert forall|k: int| 0 <= k < s.len() implies s[k].id != id by {
                if k > 0 {
                    assert(t[k - 1] == s[k]);
                }
            }
        } else {
            let j = id_index(t, id)->Some_0;
            assert(s[j + 1] == t[j]);
            assert forall|k: int| 0 <= k < j + 1 implies s[k].id != id by {
                if k > 0 {
                    assert(t[k - 1] == s[k]);
                }
            }
        }
    }
}

/// The converse: a first occurrence is what `id_index` returns, and a
/// sequence without the id makes it `None`.
pub proof fn lemma_id_index_of_first(s: Seq<MeasureNode>, id: usize, j: int)
    requires
        0 <= j < s.len(),
        s[j].id == id,
        forall|k: int| 0 <= k < j ==> s[k].id != id,
    ensures
        id_index(s, id) == Some(j),
    decreases s.len(),
{
    if j > 0 {
        assert(forall|k: int| 0 <= k < s.skip(1).len() ==> s.skip(1)[k] == s[k + 1]);
        lemma_id_index_of_first(s.skip(1), id, j - 1);
    }
}

/// A sequence in which no node carries the id.
pub proof fn lemma_id_index_absent(s: Seq<MeasureNode>, id: usize)
    requires
        forall|k: int| 0 <= k < s.len() ==> s[k].id != id,
    ensures
        id_index(s, id) is None,
    decreases s.len(),
{
    if s.len() > 0 {
        assert(forall|k: int| 0 <= k < s.skip(1).len() ==> s.skip(1)[k] == s[k + 1]);
        lemma_id_index_absent(s.skip(1), id);
    }
}

/// Reconciliation on the node list: replace the node keyed like `n` in
/// place, or append `n` when no node has its key.
pub open spec fn reconcile_spec(s: Seq<MeasureNode>, n: MeasureNode) -> Seq<MeasureNode> {
    match id_index(s, n.id) {
        Some(j) => s.update(j, n),
        None => s.push(n),
    }
}

/// Every key appears on at most one node.
pub open spec fn keys_unique(s: Seq<MeasureNode>) -> bool {
    forall|i: int, j: int| 0 <= i < j < s.len() ==> s[i].id != s[j].id
}

/// One glyph definition of the shared pool.
#[derive(PartialEq, Clone, Debug)]
pub struct GlyphDef {
    /// The glyph's identifier, referenced by [`SurfaceElem::Use`]
    /// nodes.
    pub id: u32,
    /// The glyph outline's path data.
    pub d: String,
}

/// The scale of the drawing surface's coordinate space: the viewBox is
/// this wide, and as tall as the aspect ratio demands.
pub const SCALEDOWN: u64 = 25000;

/// The viewBox height for a client area: the fixed width scaled by the
/// client's aspect ratio, rounded down.
pub open spec fn viewbox_height(client_w: int, client_h: int) -> int {
    SCALEDOWN * client_h / client_w
}

/// The library's model of the persistent drawing surface: the viewBox
/// extent, the glyph-definition pool, and the page's measure subtrees
/// in sibling order.
#[derive(PartialEq, Clone, Debug)]
pub struct Surface {
    /// viewBox width.
    pub view_w: u64,
    /// viewBox height.
    pub view_h: u64,
    /// The shared glyph-definition pool, installed once per score
    /// (re)initialization.
    pub defs: Vec<GlyphDef>,
    /// The page's measure subtrees, keyed by measure index.
    pub nodes: Vec<MeasureNode>,
}

impl Surface {
    /// Measure keys never repeat among siblings.
    pub open spec fn wf(self) -> bool {
        keys_unique(self.nodes@)
    }

    /// A fresh, empty surface with the default square viewBox.
    pub fn new() -> (s: Surface)
        ensures
            s.wf(),
            s.view_w == SCALEDOWN,
            s.view_h == SCALEDOWN,
            s.defs@.len() == 0,
            s.nodes@.len() == 0,
    {
        Surface { view_w: SCALEDOWN, view_h: SCALEDOWN, defs: Vec::new(), nodes: Vec::new() }
    }

    /// Clear the surface for a full score (re)initialization: the page
    /// loses all measure subtrees and the glyph pool is emptied so it
    /// can be rebuilt. Must run before the first measure render.
    pub fn initialize_score(&mut self)
        ensures
            final(self).wf(),
            final(self).nodes@.len() == 0,
            final(self).defs@.len() == 0,
            final(self).view_w == old(self).view_w,
            final(self).view_h == old(self).view_h,
    {
        self.nodes.clear();
        self.defs.clear();
    }

    /// Recompute the viewBox from the surface's client dimensions: the
    /// width stays at the fixed scale and the height follows the
    /// client aspect ratio. Must run before measures are placed, so
    /// their offsets land in a correctly scaled space.
    pub fn resize(&mut self, client_w: u32, client_h: u32)
        requires
            client_w > 0,
        ensures
            final(self).view_w == SCALEDOWN,
            final(self).view_h as int == viewbox_height(client_w as int, client_h as int),
            final(self).defs == old(self).defs,
            final(self).nodes == old(self).nodes,
    {
        self.view_w = SCALEDOWN;
        self.view_h = SCALEDOWN * client_h as u64 / client_w as u64;
    }

    /// Install the glyph atlas into the shared definition pool,
    /// replacing whatever was there. Runs once per score
    /// (re)initialization, before any measure that references it.
    pub fn render_defs(&mut self, glyphs: Vec<GlyphDef>)
        ensures
            final(self).defs == glyphs,
            final(self).nodes == old(self).nodes,
            final(self).view_w == old(self).view_w,
            final(self).view_h == old(self).view_h,
    {
        self.defs = glyphs;
    }

    /// Reconcile one measure subtree: the existing node with the same
    /// key is replaced in place, keeping the sibling order; with no
    /// such node the subtree is appended.
    pub fn reconcile(&mut self, node: MeasureNode)
        requires
            old(self).wf(),
        ensures
            final(self).wf(),
            final(self).nodes@ == reconcile_spec(old(self).nodes@, node),
            final(self).defs == old(self).defs,
            final(self).view_w == old(self).view_w,
            final(self).view_h == old(self).view_h,
    {
        let ghost orig = self.nodes@;
        let n = self.nodes.len();
        let mut i: usize = 0;
        while i < n
            invariant
                n == self.nodes@.len(),
                self.nodes@ == orig,
                orig == old(self).nodes@,
                keys_unique(orig),
                self.defs == old(self).defs,
                self.view_w == old(self).view_w,
                self.view_h == old(self).view_h,
                i <= n,
                forall|k: int| 0 <= k < i ==> orig[k].id != node.id,
            decreases n - i,
        {
            if self.nodes[i].id == node.id {
                proof {
                    lemma_id_index_of_first(orig, node.id, i as int);
                }
                self.nodes[i] = node;
                return ;
            }
            i = i + 1;
        }
        proof {
            lemma_id_index_absent(orig, node.id);
        }
        self.nodes.push(node);
    }
}

/// Reconciliation leaves exactly one node with the reconciled key, in
/// a list whose keys are still unique, and every sibling with another
/// key keeps its position and content.
pub proof fn lemma_reconcile_exactly_one(s: Seq<MeasureNode>, n: MeasureNode)
    requires
        keys_unique(s),
    ensures
        keys_unique(reconcile_spec(s, n)),
        count_id(reconcile_spec(s, n), n.id) == 1,
        forall|k: int|
            0 <= k < s.len() && s[k].id != n.id ==> #[trigger] reconcile_spec(s, n)[k] == s[k],
{
    lemma_id_index_props(s, n.id);
    match id_index(s, n.id) {
        Some(j) => {
            lemma_count_id_single(s.update(j, n), n.id, j);
        },
        None => {
            lemma_count_id_single(s.push(n), n.id, s.len() as int);
        },
    }
}

/// A list whose only node keyed `id` stands at `j` counts that key
/// exactly once.
proof fn lemma_count_id_single(s: Seq<MeasureNode>, id: usize, j: int)
    requires
        0 <= j < s.len(),
        s[j].id == id,
        forall|k: int| 0 <= k < s.len() && k != j ==> s[k].id != id,
    ensures
        count_id(s, id) == 1,
    decreases s.len(),
{
    let t = s.skip(1);
    assert(forall|k: int| 0 <= k < t.len() ==> t[k] == s[k + 1]);
    if j == 0 {
        lemma_count_id_zero(t, id);
    } else {
        lemma_count_id_single(t, id, j - 1);
    }
}

/// A list with no node keyed `id` counts that key zero times.
proof fn lemma_count_id_zero(s: Seq<MeasureNode>, id: usize)
    requires
        forall|k: int| 0 <= k < s.len() ==> s[k].id != id,
    ensures
        count_id(s, id) == 0,
    decreases s.len(),
{
    if s.len() > 0 {
        let t = s.skip(1);
        assert(forall|k: int| 0 <= k < t.len() ==> t[k] == s[k + 1]);
        lemma_count_id_zero(t, id);
    }
}

/// The layout engine's output for one measure: its drawing primitives
/// and its reported width.
#[derive(PartialEq, Clone, Debug)]
pub struct MeasureLayout {
    /// The measure's drawing primitives, in order.
    pub prims: Vec<Prim>,
    /// The measure's reported width, used for sequential placement.
    pub width: i32,
}

/// The reported widths of a run of measures.
pub open spec fn widths_of(ms: Seq<MeasureLayout>) -> Seq<int> {
    ms.map_values(|m: MeasureLayout| m.width as int)
}

/// The horizontal offset of measure `i`: the running prefix sum of the
/// widths of the measures before it.
pub open spec fn offset_of(widths: Seq<int>, i: int) -> int
    decreases i,
{
    if i <= 0 {
        0
    } else {
        offset_of(widths, i - 1) + widths[i - 1]
    }
}

/// Measure offsets form the prefix sum of reported widths: the first
/// measure sits at zero, and each next offset adds the previous
/// measure's width.
pub proof fn lemma_offsets_prefix_sum(widths: Seq<int>, i: int)
    requires
        i >= 0,
    ensures
        offset_of(widths, 0) == 0,
        offset_of(widths, i + 1) == offset_of(widths, i) + widths[i],
{
}

/// When to stop laying measures out.
#[derive(PartialEq, Eq, Structural, Copy, Clone, Debug)]
pub enum StopPolicy {
    /// Render a fixed number of measures (fewer if the score is
    /// shorter).
    Count(usize),
    /// Fill the viewport: accumulate measures until the running offset
    /// would exceed this width, then stop, discarding the measure that
    /// overflowed.
    Fill(i64),
}

/// How many leading measures fit under the fill policy: scan forward
/// while the running offset after each measure stays within `maxw`.
pub open spec fn fill_count(widths: Seq<int>, maxw: int) -> int
    decreases widths.len(),
{
    if widths.len() == 0 {
        0
    } else if widths[0] > maxw {
        0
    } else {
        1 + fill_count(widths.skip(1), maxw - widths[0])
    }
}

/// How many measures a render pass places under a policy.
pub open spec fn rendered_count(widths: Seq<int>, policy: StopPolicy) -> int {
    match policy {
        StopPolicy::Count(n) => if n as int <= widths.len() {
            n as int
        } else {
            widths.len() as int
        },
        StopPolicy::Fill(m) => fill_count(widths, m as int),
    }
}

/// Dropping the first measure shifts every offset by its width.
proof fn lemma_offset_shift(w: Seq<int>, i: int)
    requires
        w.len() > 0,
        0 <= i <= w.len() - 1,
    ensures
        offset_of(w.skip(1), i) == offset_of(w, i + 1) - w[0],
    decreases i,
{
    if i > 0 {
        lemma_offset_shift(w, i - 1);
        assert(w.skip(1)[i - 1] == w[i]);
        assert(offset_of(w.skip(1), i) == offset_of(w.skip(1), i - 1) + w.skip(1)[i - 1]);
        assert(offset_of(w, i + 1) == offset_of(w, i) + w[i]);
    } else {
        assert(offset_of(w.skip(1), 0) == 0);
        assert(offset_of(w, 1) == offset_of(w, 0) + w[0]);
        assert(offset_of(w, 0) == 0);
    }
}

/// `fill_count` is the cutoff point: every rendered measure's offset
/// stays within the viewport, and the first discarded one would not.
pub proof fn lemma_fill_count_cutoff(w: Seq<int>, m: int)
    ensures
        0 <= fill_count(w, m) <= w.len(),
        forall|i: int| 0 <= i < fill_count(w, m) ==> #[trigger] offset_of(w, i + 1) <= m,
        fill_count(w, m) < w.len() ==> offset_of(w, fill_count(w, m) + 1) > m,
    decreases w.len(),
{
    if w.len() == 0 {
    } else if w[0] > m {
        assert(offset_of(w, 1) == offset_of(w, 0) + w[0]);
        assert(offset_of(w, 0) == 0);
    } else {
        let t = w.skip(1);
        lemma_fill_count_cutoff(t, m - w[0]);
        let c = fill_count(w, m);
        assert forall|i: int| 0 <= i < c implies #[trigger] offset_of(w, i + 1) <= m by {
            if i > 0 {
                lemma_offset_shift(w, i);
                assert(offset_of(t, ((i - 1) + 1)) <= m - w[0]);
            } else {
                assert(offset_of(w, 1) == offset_of(w, 0) + w[0]);
                assert(offset_of(w, 0) == 0);
            }
        }
        if c < w.len() {
            lemma_offset_shift(w, c);
        }
    }
}

/// The cutoff point determines `fill_count`: a count whose rendered
/// measures all fit and whose next measure (if any) would overflow is
/// the fill count.
pub proof fn lemma_fill_count_unique(w: Seq<int>, m: int, k: int)
    requires
        0 <= k <= w.len(),
        forall|i: int| 0 <= i < k ==> #[trigger] offset_of(w, i + 1) <= m,
        k < w.len() ==> offset_of(w, k + 1) > m,
    ensures
        k == fill_count(w, m),
{
    lemma_fill_count_cutoff(w, m);
    let c = fill_count(w, m);
    if c < k {
        assert(offset_of(w, c + 1) <= m);
        assert(false);
    }
    if k < c {
        assert(offset_of(w, k + 1) <= m);
        assert(false);
    }
}

/// One measure's subtree matches what the layout engine reported: the
/// right key, the right running offset, and the primitives turned into
/// surface nodes in order.
pub open spec fn node_matches(n: MeasureNode, id: usize, off: i64, prims: Seq<Prim>) -> bool {
    n.id == id && n.offset_x == off && elems_match(prims, n.elems@)
}

/// What rendering one measure does to the node list: the node keyed by
/// the measure index now matches the new layout — in its old sibling
/// position if it existed, appended otherwise — and every other node
/// is untouched.
pub open spec fn measure_rendered(
    pre: Seq<MeasureNode>,
    post: Seq<MeasureNode>,
    id: usize,
    off: i64,
    prims: Seq<Prim>,
) -> bool {
    match id_index(pre, id) {
        Some(j) => post.len() == pre.len() && node_matches(post[j], id, off, prims) && forall|
            k: int,
        | 0 <= k < pre.len() && k != j ==> post[k] == pre[k],
        None => post.len() == pre.len() + 1 && node_matches(post[pre.len() as int], id, off, prims)
            && forall|k: int| 0 <= k < pre.len() ==> post[k] == pre[k],
    }
}

/// Turn a measure's primitive list into surface nodes, in order.
fn convert_prims(prims: &Vec<Prim>) -> (es: Vec<SurfaceElem>)
    ensures
        elems_match(prims@, es@),
{
    let mut es: Vec<SurfaceElem> = Vec::new();
    let n = prims.len();
    let mut i: usize = 0;
    while i < n
        invariant
            n == prims@.len(),
            i <= n,
            es@.len() == i,
            forall|k: int| 0 <= k < i ==> elem_matches(prims@[k], #[trigger] es@[k]),
        decreases n - i,
    {
        es.push(create_elem(&prims[i]));
        i = i + 1;
    }
    es
}

impl Surface {
    /// Render one measure: build its subtree off-surface from the
    /// layout engine's output and reconcile it in under the measure's
    /// key, at the given horizontal offset.
    pub fn render_measure(&mut self, measure: usize, offset_x: i64, layout: &MeasureLayout)
        requires
            old(self).wf(),
        ensures
            final(self).wf(),
            measure_rendered(
                old(self).nodes@,
                final(self).nodes@,
                measure,
                offset_x,
                layout.prims@,
            ),
            final(self).defs == old(self).defs,
            final(self).view_w == old(self).view_w,
            final(self).view_h == old(self).view_h,
    {
        proof {
            lemma_id_index_props(old(self).nodes@, measure);
        }
        let elems = convert_prims(&layout.prims);
        let node = MeasureNode { id: measure, offset_x, elems };
        self.reconcile(node);
    }
}

/// Reconciling the same key twice keeps only the second content: the
/// first reconciliation is overwritten entirely, so the double
/// reconcile equals the single one — no duplicate and no leak.
pub proof fn lemma_reconcile_twice(s: Seq<MeasureNode>, n1: MeasureNode, n2: MeasureNode)
    requires
        keys_unique(s),
        n1.id == n2.id,
    ensures
        reconcile_spec(reconcile_spec(s, n1), n2) == reconcile_spec(s, n2),
{
    lemma_id_index_props(s, n1.id);
    match id_index(s, n1.id) {
        Some(j) => {
            let s1 = s.update(j, n1);
            assert(forall|k: int| 0 <= k < j ==> s1[k] == s[k]);
            lemma_id_index_of_first(s1, n2.id, j);
            assert(reconcile_spec(reconcile_spec(s, n1), n2) =~= reconcile_spec(s, n2));
        },
        None => {
            let s1 = s.push(n1);
            assert(forall|k: int| 0 <= k < s.len() ==> s1[k] == s[k]);
            lemma_id_index_of_first(s1, n2.id, s.len() as int);
            assert(reconcile_spec(reconcile_spec(s, n1), n2) =~= reconcile_spec(s, n2));
        },
    }
}


impl Surface {
    /// Re-render the page: clear it, then place the laid-out measures
    /// left to right. Each measure's subtree is keyed by its index and
    /// sits at the running prefix sum of the widths before it; the
    /// policy says where the run stops.
    pub fn render_measures(&mut self, measures: &Vec<MeasureLayout>, policy: StopPolicy)
        requires
            old(self).wf(),
            measures@.len() <= 0x1000_0000,
        ensures
            final(self).wf(),
            final(self).nodes@.len() == rendered_count(widths_of(measures@), policy),
            forall|i: int|
                0 <= i < final(self).nodes@.len() ==> {
                    &&& (#[trigger] final(self).nodes@[i]).id == i
                    &&& final(self).nodes@[i].offset_x as int == offset_of(widths_of(measures@), i)
                    &&& elems_match(measures@[i].prims@, final(self).nodes@[i].elems@)
                },
            final(self).defs == old(self).defs,
            final(self).view_w == old(self).view_w,
            final(self).view_h == old(self).view_h,
    {
        let ghost widths = widths_of(measures@);
        self.nodes.clear();
        match policy {
            StopPolicy::Count(n) => {
                let len = measures.len();
                let bound = if n <= len {
                    n
                } else {
                    len
                };
                let mut i: usize = 0;
                let mut off: i64 = 0;
                while i < bound
                    invariant
                        measures@.len() <= 0x1000_0000,
                        widths == widths_of(measures@),
                        bound <= measures@.len(),
                        bound == rendered_count(widths, StopPolicy::Count(n)),
                        i <= bound,
                        self.nodes@.len() == i as int,
                        forall|k: int| 0 <= k < i ==> (#[trigger] self.nodes@[k]).id == k,
                        forall|k: int|
                            0 <= k < i ==> (#[trigger] self.nodes@[k]).offset_x as int == offset_of(
                                widths,
                                k,
                            ),
                        forall|k: int|
                            0 <= k < i ==> elems_match(
                                measures@[k].prims@,
                                (#[trigger] self.nodes@[k]).elems@,
                            ),
                        off as int == offset_of(widths, i as int),
                        -((i as int) * 0x8000_0000) <= off as int <= (i as int) * 0x8000_0000,
                        self.defs == old(self).defs,
                        self.view_w == old(self).view_w,
                        self.view_h == old(self).view_h,
                    decreases bound - i,
                {
                    let layout = &measures[i];
                    let elems = convert_prims(&layout.prims);
                    self.nodes.push(MeasureNode { id: i, offset_x: off, elems });
                    proof {
                        assert(widths[i as int] == layout.width as int);
                        assert(offset_of(widths, i as int + 1) == offset_of(widths, i as int)
                            + widths[i as int]);
                        assert((i as int + 1) * 0x8000_0000 == (i as int) * 0x8000_0000
                            + 0x8000_0000);
                    }
                    off = off + layout.width as i64;
                    i = i + 1;
                }
                proof {
                    assert forall|a: int, b: int|
                        0 <= a < b < self.nodes@.len() implies self.nodes@[a].id
                        != self.nodes@[b].id by {
                        assert(self.nodes@[a].id == a);
                        assert(self.nodes@[b].id == b);
                    }
                }
            },
            StopPolicy::Fill(m) => {
                let len = measures.len();
                let mut i: usize = 0;
                let mut off: i64 = 0;
                while i < len
                    invariant
                        measures@.len() <= 0x1000_0000,
                        widths == widths_of(measures@),
                        len == measures@.len(),
                        i <= len,
                        self.nodes@.len() == i as int,
                        forall|k: int| 0 <= k < i ==> (#[trigger] self.nodes@[k]).id == k,
                        forall|k: int|
                            0 <= k < i ==> (#[trigger] self.nodes@[k]).offset_x as int == offset_of(
                                widths,
                                k,
                            ),
                        forall|k: int|
                            0 <= k < i ==> elems_match(
                                measures@[k].prims@,
                                (#[trigger] self.nodes@[k]).elems@,
                            ),
                        off as int == offset_of(widths, i as int),
                        -((i as int) * 0x8000_0000) <= off as int <= (i as int) * 0x8000_0000,
                        forall|k: int| 0 <= k < i ==> #[trigger] offset_of(widths, k + 1) <= m as int,
                        self.defs == old(self).defs,
                        self.view_w == old(self).view_w,
                        self.view_h == old(self).view_h,
                    ensures
                        widths == widths_of(measures@),
                        i <= len,
                        self.nodes@.len() == i as int,
                        forall|k: int| 0 <= k < i ==> (#[trigger] self.nodes@[k]).id == k,
                        forall|k: int|
                            0 <= k < i ==> (#[trigger] self.nodes@[k]).offset_x as int == offset_of(
                                widths,
                                k,
                            ),
                        forall|k: int|
                            0 <= k < i ==> elems_match(
                                measures@[k].prims@,
                                (#[trigger] self.nodes@[k]).elems@,
                            ),
                        forall|k: int| 0 <= k < i ==> #[trigger] offset_of(widths, k + 1) <= m as int,
                        (i as int) < widths.len() ==> offset_of(widths, i as int + 1) > m as int,
                        self.defs == old(self).defs,
                        self.view_w == old(self).view_w,
                        self.view_h == old(self).view_h,
                    decreases len - i,
                {
                    let layout = &measures[i];
                    proof {
                        assert(widths[i as int] == layout.width as int);
                        assert(offset_of(widths, i as int + 1) == offset_of(widths, i as int)
                            + widths[i as int]);
                        assert((i as int + 1) * 0x8000_0000 == (i as int) * 0x8000_0000
                            + 0x8000_0000);
                    }
                    let w64 = layout.width as i64;
                    if off + w64 > m {
                        break ;
                    }
                    let elems = convert_prims(&layout.prims);
                    self.nodes.push(MeasureNode { id: i, offset_x: off, elems });
                    off = off + w64;
                    i = i + 1;
                }
                proof {
                    lemma_fill_count_unique(widths, m as int, i as int);
                    assert forall|a: int, b: int|
                        0 <= a < b < self.nodes@.len() implies self.nodes@[a].id
                        != self.nodes@[b].id by {
                        assert(self.nodes@[a].id == a);
                        assert(self.nodes@[b].id == b);
                    }
                }
            },
        }
    }
}


impl Surface {
    /// Render the whole score: clear the surface, rescale the viewBox
    /// from the client dimensions, install the glyph atlas, and lay
    /// every measure out — in that order, so measure placement happens
    /// in a correctly scaled coordinate space with the definitions it
    /// references already in place.
    pub fn render_score(
        &mut self,
        client_w: u32,
        client_h: u32,
        atlas: Vec<GlyphDef>,
        measures: &Vec<MeasureLayout>,
        policy: StopPolicy,
    )
        requires
            old(self).wf(),
            client_w > 0,
            measures@.len() <= 0x1000_0000,
        ensures
            final(self).wf(),
            final(self).view_w == SCALEDOWN,
            final(self).view_h as int == viewbox_height(client_w as int, client_h as int),
            final(self).defs == atlas,
            final(self).nodes@.len() == rendered_count(widths_of(measures@), policy),
            forall|i: int|
                0 <= i < final(self).nodes@.len() ==> {
                    &&& (#[trigger] final(self).nodes@[i]).id == i
                    &&& final(self).nodes@[i].offset_x as int == offset_of(widths_of(measures@), i)
                    &&& elems_match(measures@[i].prims@, final(self).nodes@[i].elems@)
                },
    {
        self.initialize_score();
        self.resize(client_w, client_h);
        self.render_defs(atlas);
        self.render_measures(measures, policy);
    }
}

} // verus!
