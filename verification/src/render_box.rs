//! Render boxes: the leaves of the layout tree. A box cannot position
//! itself; it answers width/height/split/merge queries over its geometry,
//! its node's computed style, and its content, and emits its display items.

use vstd::prelude::*;
use vstd::string::StrSliceExecFns;
use std::rc::Rc;
use crate::geometry::{Rect, Point, Size, SideOffsets, rect_wf, MAX_AU, MAX_PX, AU_PER_PX,
    au_from_px, scale_by_hundredths};
use crate::display_list::{DisplayList, DisplayItem, DisplayItemView, BaseDisplayItem,
    SolidColorDisplayItem, BorderDisplayItem, TextDisplayItem, ImageDisplayItem, SideColors,
    SideStyles, list_view};
use crate::image_holder::ImageHolder;
use crate::model::{BoxModel, MaybeAuto, spec_resolve_auto, spec_specified_or_zero,
    spec_resolve_length_or_pct, resolve_length_or_pct};
use crate::node::{NodeTree, NodeKind, node_is_element, spec_nearest_ancestor_element,
    spec_propagated_text_decoration, spec_get_attr, spec_is_image_element};
use crate::range::{Range, range_end};
use crate::style::{ComputedStyle, FontStyle, FontStyleView, FontFamily, FontWeight,
    FontStyleKeyword, CssFontSize, TextDecoration, TextAlign, VerticalAlign, LineHeight,
    ClearKeyword, ClearType};
use crate::text_run::TextRun;

verus! {

/// Data common to all boxes: the node the box originates from, its
/// position relative to the owning flow, its box-model parameters, and a
/// debug id.
#[derive(Clone, Copy, Debug, PartialEq, Eq, Structural)]
pub struct RenderBoxBase {
    pub node: usize,
    pub position: Rect,
    pub model: BoxModel,
    pub id: i64,
}

/// Well-formedness of a box's common data against the tree it points into.
pub open spec fn base_wf(base: RenderBoxBase, tree: NodeTree) -> bool {
    &&& base.node < tree.nodes@.len()
    &&& rect_wf(base.position)
    &&& base.model.wf()
}

/// The box's own width contribution: specified width plus resolved margins,
/// padding and borders, with `auto` (and percentages of the zero containing
/// width used here) resolving to zero.
pub open spec fn spec_guess_width(style: ComputedStyle) -> int {
    spec_specified_or_zero(spec_resolve_auto(style.width, 0)) + spec_specified_or_zero(
        spec_resolve_auto(style.margin_left, 0)) + spec_specified_or_zero(
        spec_resolve_auto(style.margin_right, 0)) + spec_resolve_length_or_pct(style.padding_left,
        0) + spec_resolve_length_or_pct(style.padding_right, 0) + style.border_left_width
        + style.border_right_width
}

/// The characters of one font-family entry as it appears in a family list.
pub open spec fn family_name_chars(f: FontFamily) -> Seq<char> {
    match f {
        FontFamily::FamilyName(s) => s@,
        FontFamily::Serif => "serif"@,
        FontFamily::SansSerif => "sans-serif"@,
        FontFamily::Cursive => "cursive"@,
        FontFamily::Fantasy => "fantasy"@,
        FontFamily::Monospace => "monospace"@,
    }
}

/// The first `count` family names joined with `", "`.
pub open spec fn spec_joined_families(fams: Seq<FontFamily>, count: int) -> Seq<char>
    decreases count,
{
    if count <= 0 {
        Seq::empty()
    } else if count == 1 {
        family_name_chars(fams[0])
    } else {
        spec_joined_families(fams, count - 1) + ", "@ + family_name_chars(fams[count - 1])
    }
}

/// A computed font size in app units: pixel lengths as given, em factors
/// against the 16px default, anything else the 16px default itself.
pub open spec fn spec_font_size_au(fs: CssFontSize) -> int {
    match fs {
        CssFontSize::LengthPx(l) => l as int,
        CssFontSize::LengthEm(em) => 960 * em / 100,
        CssFontSize::Other => 960,
    }
}

/// The font description derived from the computed style of the nearest
/// ancestor-or-self element of `node`.
pub open spec fn spec_font_style(tree: NodeTree, node: int) -> FontStyleView {
    let e = spec_nearest_ancestor_element(&tree, node);
    let st = tree.nodes@[e].style;
    FontStyleView {
        pt_size: spec_font_size_au(st.font_size),
        weight: FontWeight::Weight300,
        italic: st.font_style == FontStyleKeyword::Italic,
        oblique: st.font_style == FontStyleKeyword::Oblique,
        families: spec_joined_families(st.font_family@, st.font_family@.len() as int),
    }
}

/// Appends one family name to the joined list being built.
fn append_family(families: &mut String, f: &FontFamily)
    ensures
        final(families)@ == old(families)@ + family_name_chars(*f),
{
    match f {
        FontFamily::FamilyName(s) => families.append(s.as_str()),
        FontFamily::Serif => families.append("serif"),
        FontFamily::SansSerif => families.append("sans-serif"),
        FontFamily::Cursive => families.append("cursive"),
        FontFamily::Fantasy => families.append("fantasy"),
        FontFamily::Monospace => families.append("monospace"),
    }
}

pub open spec fn is_digit_char(c: char) -> bool {
    48 <= c as int <= 57
}

pub open spec fn all_digits(s: Seq<char>) -> bool {
    forall|i: int| 0 <= i < s.len() ==> is_digit_char(#[trigger] s[i])
}

/// The numeric value of a digit string.
pub open spec fn digits_val(s: Seq<char>) -> int
    decreases s.len(),
{
    if s.len() == 0 {
        0
    } else {
        digits_val(s.drop_last()) * 10 + (s.last() as int - 48)
    }
}

proof fn lemma_digits_val_nonneg(s: Seq<char>)
    requires
        all_digits(s),
    ensures
        digits_val(s) >= 0,
    decreases s.len(),
{
    if s.len() > 0 {
        assert(all_digits(s.drop_last()));
        lemma_digits_val_nonneg(s.drop_last());
    }
}

/// A digit string's value only grows as digits are appended.
proof fn lemma_digits_val_prefix(s: Seq<char>, k: int)
    requires
        all_digits(s),
        0 <= k <= s.len(),
    ensures
        digits_val(s.subrange(0, k)) <= digits_val(s),
    decreases s.len() - k,
{
    if k < s.len() {
        lemma_digits_val_prefix(s, k + 1);
        let p = s.subrange(0, k + 1);
        assert(p.drop_last() =~= s.subrange(0, k));
        assert(all_digits(s.subrange(0, k)));
        lemma_digits_val_nonneg(s.subrange(0, k));
    } else {
        assert(s.subrange(0, k) =~= s);
    }
}

/// The value of a whole-pixel attribute string: an optional minus sign and
/// digits, accepted only while the magnitude stays within the pixel bound
/// the geometry can carry.
pub open spec fn spec_parse_px(s: Seq<char>) -> Option<int> {
    if s.len() > 0 && s[0] == '-' {
        let d = s.skip(1);
        if d.len() > 0 && all_digits(d) && digits_val(d) <= MAX_PX {
            Some(-digits_val(d))
        } else {
            None
        }
    } else if s.len() > 0 && all_digits(s) && digits_val(s) <= MAX_PX {
        Some(digits_val(s))
    } else {
        None
    }
}

/// Parses the digits of `s` from position `from` on.
fn parse_digits(s: &str, from: usize) -> (r: Option<i64>)
    requires
        from <= s@.len(),
    ensures
        ({
            let d = s@.subrange(from as int, s@.len() as int);
            match r {
                Some(v) => d.len() > 0 && all_digits(d) && digits_val(d) == v && 0 <= v <= MAX_PX,
                None => !(d.len() > 0 && all_digits(d) && digits_val(d) <= MAX_PX),
            }
        }),
{
    let n = s.unicode_len();
    if from >= n {
        return None;
    }
    let ghost whole = s@.subrange(from as int, s@.len() as int);
    let mut acc: i64 = 0;
    let mut i: usize = from;
    while i < n
        invariant
            n == s@.len(),
            from <= i <= n,
            whole == s@.subrange(from as int, n as int),
            acc == digits_val(s@.subrange(from as int, i as int)),
            0 <= acc <= MAX_PX,
            all_digits(s@.subrange(from as int, i as int)),
        decreases n - i,
    {
        let c = s.get_char(i);
        let u = c as u32;
        if !(48 <= u && u <= 57) {
            proof {
                assert(!is_digit_char(whole[i - from]));
            }
            return None;
        }
        let d = (u - 48) as i64;
        let next = acc * 10 + d;
        proof {
            let p = s@.subrange(from as int, i + 1);
            assert(p.drop_last() =~= s@.subrange(from as int, i as int));
            assert(all_digits(p));
        }
        if next > MAX_PX {
            proof {
                let p = s@.subrange(from as int, i + 1);
                if all_digits(whole) {
                    assert(p =~= whole.subrange(0, i + 1 - from));
                    lemma_digits_val_prefix(whole, i + 1 - from);
                }
            }
            return None;
        }
        acc = next;
        i = i + 1;
    }
    proof {
        assert(s@.subrange(from as int, i as int) =~= whole);
    }
    Some(acc)
}

/// Parses a whole-pixel attribute value: optional minus sign, then digits.
pub fn parse_px_attr(s: &str) -> (r: Option<i64>)
    ensures
        match r {
            Some(v) => spec_parse_px(s@) == Some(v as int) && -MAX_PX <= v <= MAX_PX,
            None => spec_parse_px(s@) is None,
        },
{
    let n = s.unicode_len();
    if n == 0 {
        return None;
    }
    if s.get_char(0) == '-' {
        proof {
            assert(s@.skip(1) =~= s@.subrange(1, s@.len() as int));
        }
        match parse_digits(s, 1) {
            Some(v) => Some(-v),
            None => None,
        }
    } else {
        proof {
            assert(s@.subrange(0, s@.len() as int) =~= s@);
        }
        match parse_digits(s, 0) {
            Some(v) => Some(v),
            None => None,
        }
    }
}

impl RenderBoxBase {
    /// Constructs the common data for a box of `node`, positioned nowhere
    /// with an empty box model.
    pub fn new(node: usize, id: i64) -> (r: RenderBoxBase)
        ensures
            r.node == node,
            r.id == id,
            r.position == (Rect {
                origin: Point { x: 0, y: 0 },
                size: Size { width: 0, height: 0 },
            }),
            r.model == (BoxModel {
                margin: SideOffsets { top: 0, right: 0, bottom: 0, left: 0 },
                border: SideOffsets { top: 0, right: 0, bottom: 0, left: 0 },
                padding: SideOffsets { top: 0, right: 0, bottom: 0, left: 0 },
            }),
    {
        RenderBoxBase { node, position: Rect::zero(), model: BoxModel::zero(), id }
    }

    /// The debug id reported to consumers: a fixed zero.
    pub fn id(&self) -> (r: i64)
        ensures
            r == 0,
    {
        0
    }

    /// The computed style of the box's own node.
    pub fn style<'a>(&self, tree: &'a NodeTree) -> (r: &'a ComputedStyle)
        requires
            self.node < tree.nodes@.len(),
        ensures
            *r == tree.nodes@[self.node as int].style,
    {
        &tree.nodes[self.node].style
    }

    /// The box's own width contribution under the auto-resolves-to-zero
    /// policy.
    pub fn guess_width(&self, tree: &NodeTree) -> (r: i64)
        requires
            tree.wf(),
            self.node < tree.nodes@.len(),
        ensures
            r == spec_guess_width(tree.nodes@[self.node as int].style),
            0 <= r <= 7 * MAX_AU,
    {
        let style = &tree.nodes[self.node].style;
        let width = MaybeAuto::from_width(style.width, 0).specified_or_zero();
        let margin_left = MaybeAuto::from_margin(style.margin_left, 0).specified_or_zero();
        let margin_right = MaybeAuto::from_margin(style.margin_right, 0).specified_or_zero();
        let padding_left = resolve_length_or_pct(style.padding_left, 0);
        let padding_right = resolve_length_or_pct(style.padding_right, 0);
        width + margin_left + margin_right + padding_left + padding_right
            + style.border_left_width + style.border_right_width
    }

    /// Resolves this box's padding against the containing block's width.
    pub fn compute_padding(&mut self, tree: &NodeTree, containing_block_width: i64)
        requires
            tree.wf(),
            old(self).node < tree.nodes@.len(),
            0 <= containing_block_width <= MAX_AU,
        ensures
            final(self).node == old(self).node,
            final(self).position == old(self).position,
            final(self).id == old(self).id,
            final(self).model.margin == old(self).model.margin,
            final(self).model.border == old(self).model.border,
            final(self).model.padding == (SideOffsets {
                top: spec_resolve_length_or_pct(tree.nodes@[old(self).node as int].style.padding_top,
                    containing_block_width as int) as i64,
                right: spec_resolve_length_or_pct(
                    tree.nodes@[old(self).node as int].style.padding_right,
                    containing_block_width as int) as i64,
                bottom: spec_resolve_length_or_pct(
                    tree.nodes@[old(self).node as int].style.padding_bottom,
                    containing_block_width as int) as i64,
                left: spec_resolve_length_or_pct(
                    tree.nodes@[old(self).node as int].style.padding_left,
                    containing_block_width as int) as i64,
            }),
            crate::geometry::side_offsets_wf(final(self).model.padding),
    {
        let style = &tree.nodes[self.node].style;
        self.model.compute_padding(style, containing_block_width);
    }

    /// The border and padding the box adds left and right of its content.
    pub fn get_noncontent_width(&self) -> (r: i64)
        requires
            self.model.wf(),
        ensures
            r == self.model.border.left + self.model.padding.left + self.model.border.right
                + self.model.padding.right,
    {
        self.model.border.left + self.model.padding.left + self.model.border.right
            + self.model.padding.right
    }

    /// The box formed by the content edge, relative to the owning flow.
    pub fn content_box(&self) -> (r: Rect)
        requires
            rect_wf(self.position),
            self.model.wf(),
        ensures
            r == spec_content_box(*self),
    {
        let origin = Point {
            x: self.position.origin.x + self.model.border.left + self.model.padding.left,
            y: self.position.origin.y,
        };
        let size = Size {
            width: self.position.size.width - self.get_noncontent_width(),
            height: self.position.size.height,
        };
        Rect { origin, size }
    }

    /// The box formed by the border edge. It is kept equal to the content
    /// box: a deliberate, documented simplification of this layout core.
    pub fn border_box(&self) -> (r: Rect)
        requires
            rect_wf(self.position),
            self.model.wf(),
        ensures
            r == spec_content_box(*self),
    {
        self.content_box()
    }

    /// The box formed by the margin edge. It is kept equal to the content
    /// box: a deliberate, documented simplification of this layout core.
    pub fn margin_box(&self) -> (r: Rect)
        requires
            rect_wf(self.position),
            self.model.wf(),
        ensures
            r == spec_content_box(*self),
    {
        self.content_box()
    }

    /// The nearest ancestor-or-self element of the box's node.
    pub fn nearest_ancestor_element(&self, tree: &NodeTree) -> (r: usize)
        requires
            tree.wf(),
            self.node < tree.nodes@.len(),
        ensures
            r == spec_nearest_ancestor_element(tree, self.node as int),
            r < tree.nodes@.len(),
            node_is_element(tree.nodes@[r as int]),
    {
        tree.nearest_ancestor_element(self.node)
    }

    /// Which floats, if any, this box's style clears.
    pub fn clear(&self, tree: &NodeTree) -> (r: Option<ClearType>)
        requires
            self.node < tree.nodes@.len(),
        ensures
            r == match tree.nodes@[self.node as int].style.clear {
                ClearKeyword::NoClear => Option::<ClearType>::None,
                ClearKeyword::Left => Some(ClearType::ClearLeft),
                ClearKeyword::Right => Some(ClearType::ClearRight),
                ClearKeyword::Both => Some(ClearType::ClearBoth),
            },
    {
        match tree.nodes[self.node].style.clear {
            ClearKeyword::NoClear => None,
            ClearKeyword::Left => Some(ClearType::ClearLeft),
            ClearKeyword::Right => Some(ClearType::ClearRight),
            ClearKeyword::Both => Some(ClearType::ClearBoth),
        }
    }

    /// The font description for rendering this box's content, from the
    /// nearest ancestor element's style.
    pub fn font_style(&self, tree: &NodeTree) -> (r: FontStyle)
        requires
            tree.wf(),
            self.node < tree.nodes@.len(),
        ensures
            r@ == spec_font_style(*tree, self.node as int),
    {
        let e = tree.nearest_ancestor_element(self.node);
        let st = &tree.nodes[e].style;
        let mut families = String::new();
        let mut i: usize = 0;
        while i < st.font_family.len()
            invariant
                i <= st.font_family@.len(),
                families@ == spec_joined_families(st.font_family@, i as int),
            decreases st.font_family@.len() - i,
        {
            if i > 0 {
                families.append(", ");
            }
            append_family(&mut families, &st.font_family[i]);
            proof {
                if i == 0 {
                    assert(families@ =~= spec_joined_families(st.font_family@, 1));
                }
            }
            i = i + 1;
        }
        let pt_size = match st.font_size {
            CssFontSize::LengthPx(l) => l,
            CssFontSize::LengthEm(em) => scale_by_hundredths(960, em),
            CssFontSize::Other => 960,
        };
        let (italic, oblique) = match st.font_style {
            FontStyleKeyword::NormalStyle => (false, false),
            FontStyleKeyword::Italic => (true, false),
            FontStyleKeyword::Oblique => (false, true),
        };
        let r = FontStyle { pt_size, weight: FontWeight::Weight300, italic, oblique, families };
        proof {
            assert(r@ =~= spec_font_style(*tree, self.node as int));
        }
        r
    }

    /// The text alignment of the nearest ancestor-or-self element.
    pub fn text_align(&self, tree: &NodeTree) -> (r: TextAlign)
        requires
            tree.wf(),
            self.node < tree.nodes@.len(),
        ensures
            r == tree.nodes@[spec_nearest_ancestor_element(tree,
                self.node as int)].style.text_align,
    {
        let e = tree.nearest_ancestor_element(self.node);
        tree.nodes[e].style.text_align
    }

    /// The line height of the nearest ancestor-or-self element.
    pub fn line_height(&self, tree: &NodeTree) -> (r: LineHeight)
        requires
            tree.wf(),
            self.node < tree.nodes@.len(),
        ensures
            r == tree.nodes@[spec_nearest_ancestor_element(tree,
                self.node as int)].style.line_height,
    {
        let e = tree.nearest_ancestor_element(self.node);
        tree.nodes[e].style.line_height
    }

    /// The vertical alignment of the nearest ancestor-or-self element.
    pub fn vertical_align(&self, tree: &NodeTree) -> (r: VerticalAlign)
        requires
            tree.wf(),
            self.node < tree.nodes@.len(),
        ensures
            r == tree.nodes@[spec_nearest_ancestor_element(tree,
                self.node as int)].style.vertical_align,
    {
        let e = tree.nearest_ancestor_element(self.node);
        tree.nodes[e].style.vertical_align
    }

    /// The text decoration propagated down to this box's node.
    pub fn text_decoration(&self, tree: &NodeTree) -> (r: TextDecoration)
        requires
            tree.wf(),
            self.node < tree.nodes@.len(),
        ensures
            r == spec_propagated_text_decoration(tree, self.node as int),
    {
        tree.propagated_text_decoration(self.node)
    }
}

/// A box that represents a generic (nonreplaced content) box, contributing
/// only borders, margins, padding and backgrounds.
#[derive(Clone, Debug)]
pub struct GenericRenderBox {
    pub base: RenderBoxBase,
}

impl GenericRenderBox {
    pub fn new(base: RenderBoxBase) -> (r: GenericRenderBox)
        ensures
            r.base == base,
    {
        GenericRenderBox { base }
    }
}

/// A box that represents a replaced-content image and its accompanying
/// borders and backgrounds.
#[derive(Clone, Debug)]
pub struct ImageRenderBox {
    pub base: RenderBoxBase,
    pub image: ImageHolder,
}

/// A pixel count read from an element attribute, if present and readable.
pub open spec fn spec_attr_px(tree: NodeTree, node: int, name: Seq<char>) -> Option<int> {
    match tree.nodes@[node].kind {
        NodeKind::Element(e) => match spec_get_attr(e.attrs@, name) {
            Some(v) => spec_parse_px(v),
            None => None,
        },
        NodeKind::Text(_) => None,
    }
}

/// The width of an image box in whole pixels: the `width` attribute when it
/// parses, else the holder's intrinsic width, else zero.
pub open spec fn spec_image_width_px(tree: NodeTree, node: int, holder: ImageHolder) -> int {
    match spec_attr_px(tree, node, "width"@) {
        Some(p) => p,
        None => match holder.size {
            Some(s) => s.0 as int,
            None => 0,
        },
    }
}

/// The height of an image box in whole pixels, symmetrically.
pub open spec fn spec_image_height_px(tree: NodeTree, node: int, holder: ImageHolder) -> int {
    match spec_attr_px(tree, node, "height"@) {
        Some(p) => p,
        None => match holder.size {
            Some(s) => s.1 as int,
            None => 0,
        },
    }
}

impl ImageRenderBox {
    /// An image box for the image element `base.node`, holding the image at
    /// `image_url`.
    pub fn new(tree: &NodeTree, base: RenderBoxBase, image_url: String) -> (r: ImageRenderBox)
        requires
            base.node < tree.nodes@.len(),
            spec_is_image_element(tree.nodes@[base.node as int]),
        ensures
            r.base == base,
            r.image.url@ == image_url@,
            r.image.size is None,
            r.image.image is None,
            r.image.wf(),
    {
        ImageRenderBox { base, image: ImageHolder::new(image_url) }
    }

    /// The attribute value of `name` on the box's node, if the node is an
    /// element carrying it.
    fn attr_px(&self, tree: &NodeTree, name: &str) -> (r: Option<i64>)
        requires
            self.base.node < tree.nodes@.len(),
        ensures
            match r {
                Some(v) => spec_attr_px(*tree, self.base.node as int, name@) == Some(v as int)
                    && -MAX_PX <= v <= MAX_PX,
                None => spec_attr_px(*tree, self.base.node as int, name@) is None,
            },
    {
        match &tree.nodes[self.base.node].kind {
            NodeKind::Element(e) => match e.get_attr(name) {
                Some(v) => parse_px_attr(v.as_str()),
                None => None,
            },
            NodeKind::Text(_) => None,
        }
    }

    /// The width of the image in app units, the `width` attribute taking
    /// precedence over the decoded size, with a zero fallback.
    pub fn image_width(&self, tree: &NodeTree) -> (r: i64)
        requires
            self.base.node < tree.nodes@.len(),
            self.image.wf(),
        ensures
            r == AU_PER_PX * spec_image_width_px(*tree, self.base.node as int, self.image),
            -MAX_AU <= r <= MAX_AU,
    {
        let px = match self.attr_px(tree, "width") {
            Some(p) => p,
            None => match self.image.get_size() {
                Some(s) => s.0,
                None => 0,
            },
        };
        au_from_px(px)
    }

    /// The height of the image in app units, symmetrically.
    pub fn image_height(&self, tree: &NodeTree) -> (r: i64)
        requires
            self.base.node < tree.nodes@.len(),
            self.image.wf(),
        ensures
            r == AU_PER_PX * spec_image_height_px(*tree, self.base.node as int, self.image),
            -MAX_AU <= r <= MAX_AU,
    {
        let px = match self.attr_px(tree, "height") {
            Some(p) => p,
            None => match self.image.get_size() {
                Some(s) => s.1,
                None => 0,
            },
        };
        au_from_px(px)
    }
}

/// A box for a run of text with one style. Several boxes produced by
/// splitting refer to sub-ranges of one shared, reference-counted run.
#[derive(Clone, Debug)]
pub struct TextRenderBox {
    pub base: RenderBoxBase,
    pub run: Rc<TextRun>,
    pub range: Range,
}

/// Makes a text box over `range` of `run`, reusing the splitting box's
/// common data.
pub fn adapt_textbox_with_range(base: RenderBoxBase, run: Rc<TextRun>, range: Range) -> (r:
    TextRenderBox)
    requires
        run.wf(),
        range.begin + range.length <= run.chars@.len(),
    ensures
        r.base == base,
        r.run == run,
        r.range == range,
{
    TextRenderBox { base, run, range }
}

/// The line height of a text box in app units, for a given font size:
/// `normal` scales the font size by 1.14; numbers, em factors and
/// percentages scale it by their ratio; pixel lengths stand alone.
pub open spec fn spec_line_height_au(lh: LineHeight, font_size: int) -> int {
    match lh {
        LineHeight::NormalHeight => font_size * 114 / 100,
        LineHeight::Number(h) => font_size * h / 100,
        LineHeight::Em(h) => font_size * h / 100,
        LineHeight::Px(l) => l as int,
        LineHeight::Percentage(p) => font_size * p / 10000,
    }
}

impl TextRenderBox {
    /// The line height for this box at the given font size, per the
    /// nearest ancestor element's line-height.
    pub fn calculate_line_height(&self, tree: &NodeTree, font_size: i64) -> (r: i64)
        requires
            tree.wf(),
            self.base.node < tree.nodes@.len(),
            0 <= font_size <= MAX_AU,
        ensures
            r == spec_line_height_au(tree.nodes@[spec_nearest_ancestor_element(tree,
                self.base.node as int)].style.line_height, font_size as int),
    {
        proof {
            crate::node::lemma_nearest_ancestor_element(tree, self.base.node as int);
            let e = spec_nearest_ancestor_element(tree, self.base.node as int);
            assert(tree.nodes@[e].style.wf());
        }
        match self.base.line_height(tree) {
            LineHeight::NormalHeight => scale_by_hundredths(font_size, 114),
            LineHeight::Number(h) => scale_by_hundredths(font_size, h),
            LineHeight::Em(h) => scale_by_hundredths(font_size, h),
            LineHeight::Px(l) => l,
            LineHeight::Percentage(p) => crate::model::resolve_pct(font_size, p),
        }
    }
}

/// Whether every character of a sequence is whitespace.
pub open spec fn spec_all_whitespace(s: Seq<char>) -> bool {
    forall|i: int| 0 <= i < s.len() ==> crate::text_run::is_ws_char(#[trigger] s[i])
}

/// The data for a text box that has not yet been scanned into a text run.
/// It is a transient pre-layout representation: width, height, splitting
/// and painting queries are off limits for it, and its cached font style
/// and text decoration serve merge-compatibility checks only.
#[derive(Clone, Debug)]
pub struct UnscannedTextRenderBox {
    pub base: RenderBoxBase,
    pub text: String,
    pub font_style: Option<FontStyle>,
    pub text_decoration: Option<TextDecoration>,
}

impl UnscannedTextRenderBox {
    /// An unscanned text box for the text node `base.node`.
    pub fn new(tree: &NodeTree, base: RenderBoxBase) -> (r: UnscannedTextRenderBox)
        requires
            base.node < tree.nodes@.len(),
            tree.nodes@[base.node as int].kind is Text,
        ensures
            r.base == base,
            tree.nodes@[base.node as int].kind matches NodeKind::Text(s) && r.text@ == s@,
            r.font_style is None,
            r.text_decoration is None,
    {
        let text = match &tree.nodes[base.node].kind {
            NodeKind::Text(s) => s.clone(),
            NodeKind::Element(_) => String::new(),
        };
        UnscannedTextRenderBox { base, text, font_style: None, text_decoration: None }
    }

    /// Copies out the raw text.
    pub fn raw_text(&self) -> (r: String)
        ensures
            r@ == self.text@,
    {
        self.text.clone()
    }

    /// Whether the box's text is nothing but whitespace.
    pub fn is_whitespace_only(&self) -> (r: bool)
        ensures
            r == spec_all_whitespace(self.text@),
    {
        let s = self.text.as_str();
        let n = s.unicode_len();
        let mut i: usize = 0;
        while i < n
            invariant
                n == self.text@.len(),
                s@ == self.text@,
                0 <= i <= n,
                forall|j: int| 0 <= j < i ==> crate::text_run::is_ws_char(
                    #[trigger] self.text@[j]),
            decreases n - i,
        {
            if !crate::text_run::char_is_whitespace(s.get_char(i)) {
                return false;
            }
            i = i + 1;
        }
        true
    }
}

/// The class of render box, as reported to flow construction.
#[derive(Clone, Copy, Debug, PartialEq, Eq, Structural)]
pub enum RenderBoxClass {
    GenericRenderBoxClass,
    ImageRenderBoxClass,
    TextRenderBoxClass,
    UnscannedTextRenderBoxClass,
}

/// A render box: the closed set of leaf layout units.
#[derive(Clone, Debug)]
pub enum RenderBox {
    Generic(GenericRenderBox),
    Image(ImageRenderBox),
    Text(TextRenderBox),
    UnscannedText(UnscannedTextRenderBox),
}

/// Represents the outcome of attempting to split a box. When splitting
/// succeeds, the left or right side can still be absent, because leading
/// or trailing trimmable whitespace vanished.
#[derive(Debug)]
pub enum SplitBoxResult {
    CannotSplit,
    SplitDidFit(Option<Box<RenderBox>>, Option<Box<RenderBox>>),
    SplitDidNotFit(Option<Box<RenderBox>>, Option<Box<RenderBox>>),
}

pub open spec fn spec_box_base(bx: RenderBox) -> RenderBoxBase {
    match bx {
        RenderBox::Generic(b) => b.base,
        RenderBox::Image(b) => b.base,
        RenderBox::Text(b) => b.base,
        RenderBox::UnscannedText(b) => b.base,
    }
}

pub open spec fn spec_box_class(bx: RenderBox) -> RenderBoxClass {
    match bx {
        RenderBox::Generic(_) => RenderBoxClass::GenericRenderBoxClass,
        RenderBox::Image(_) => RenderBoxClass::ImageRenderBoxClass,
        RenderBox::Text(_) => RenderBoxClass::TextRenderBoxClass,
        RenderBox::UnscannedText(_) => RenderBoxClass::UnscannedTextRenderBoxClass,
    }
}

/// The box with its common data replaced.
pub open spec fn spec_with_base(bx: RenderBox, base: RenderBoxBase) -> RenderBox {
    match bx {
        RenderBox::Generic(b) => RenderBox::Generic(GenericRenderBox { base }),
        RenderBox::Image(b) => RenderBox::Image(ImageRenderBox { base, ..b }),
        RenderBox::Text(b) => RenderBox::Text(TextRenderBox { base, ..b }),
        RenderBox::UnscannedText(b) => RenderBox::UnscannedText(UnscannedTextRenderBox {
            base,
            ..b
        }),
    }
}

/// Well-formedness of a box against the tree it points into: valid common
/// data; a text box's range within its well-formed run; an image holder's
/// sizes bounded and its node an image element; cached merge data, when
/// present, agreeing with the style it caches.
pub open spec fn box_wf(bx: RenderBox, tree: NodeTree) -> bool {
    &&& base_wf(spec_box_base(bx), tree)
    &&& match bx {
        RenderBox::Generic(_) => true,
        RenderBox::Image(b) => b.image.wf() && spec_is_image_element(
            tree.nodes@[b.base.node as int]),
        RenderBox::Text(b) => b.run.wf() && b.range.begin + b.range.length <= b.run.chars@.len(),
        RenderBox::UnscannedText(b) => {
            &&& match b.font_style {
                Some(f) => f@ == spec_font_style(tree, b.base.node as int),
                None => true,
            }
            &&& match b.text_decoration {
                Some(td) => td == spec_propagated_text_decoration(&tree, b.base.node as int),
                None => true,
            }
        },
    }
}

/// Whether two boxes can merge: only unscanned text boxes merge, and only
/// when their font styles and text decorations agree.
pub open spec fn spec_can_merge(tree: NodeTree, a: RenderBox, b: RenderBox) -> bool {
    &&& a is UnscannedText
    &&& b is UnscannedText
    &&& spec_font_style(tree, spec_box_base(a).node as int) == spec_font_style(tree,
        spec_box_base(b).node as int)
    &&& spec_propagated_text_decoration(&tree, spec_box_base(a).node as int)
        == spec_propagated_text_decoration(&tree, spec_box_base(b).node as int)
}

/// The mapping from exec splitting state to the algorithm's scan state.
pub open spec fn exec_split_state(remaining: i64, left: Range, right: Option<Range>, count: usize, done: bool) -> crate::split::SplitState {
    crate::split::SplitState {
        remaining: remaining as int,
        left_begin: left.begin as int,
        left_length: left.length as int,
        right: match right {
            Some(rr) => Some((rr.begin as int, rr.length as int)),
            None => None,
        },
        count: count as int,
        done,
    }
}

/// Whether `opt` is the sub-box a split side calls for: present exactly
/// when the side's range is, a text box sharing the splitting box's run
/// and common data, over exactly that range.
pub open spec fn spec_split_side_matches(opt: Option<Box<RenderBox>>, tb: TextRenderBox, begin: int, length: int, present: bool) -> bool {
    match opt {
        Some(b) => present && ((*b) matches RenderBox::Text(t) && t.base == tb.base && t.run
            == tb.run && t.range.begin == begin && t.range.length == length),
        None => !present,
    }
}

/// The full correctness of splitting a text box: the outcome is classified
/// by `split_did_fit` of the algorithm's final scan state, and the left and
/// right sub-boxes carry exactly the scan's left and right ranges.
pub open spec fn spec_text_split_matches(tb: TextRenderBox, max_width: int, starts_line: bool, r: SplitBoxResult) -> bool {
    let st = crate::split::split_result(tb.run.chars@, tb.run.advances@, tb.range, max_width,
        starts_line);
    match r {
        SplitBoxResult::CannotSplit => false,
        SplitBoxResult::SplitDidFit(l, rt) => {
            &&& crate::split::split_did_fit(st)
            &&& spec_split_side_matches(l, tb, st.left_begin, st.left_length, st.left_length > 0)
            &&& match st.right {
                Some(rr) => spec_split_side_matches(rt, tb, rr.0, rr.1, true),
                None => rt is None,
            }
        },
        SplitBoxResult::SplitDidNotFit(l, rt) => {
            &&& !crate::split::split_did_fit(st)
            &&& spec_split_side_matches(l, tb, st.left_begin, st.left_length, st.left_length > 0)
            &&& match st.right {
                Some(rr) => spec_split_side_matches(rt, tb, rr.0, rr.1, true),
                None => rt is None,
            }
        },
    }
}

impl TextRenderBox {
    /// Attempts to split this box so that its content is no wider than
    /// `max_width`, scanning the natural slices of its range in order.
    #[verifier::rlimit(60)]
    #[verifier::spinoff_prover]
    pub fn split_to_width(&self, max_width: i64, starts_line: bool) -> (r: SplitBoxResult)
        requires
            self.run.wf(),
            self.range.begin + self.range.length <= self.run.chars@.len(),
            -MAX_AU <= max_width <= MAX_AU,
        ensures
            spec_text_split_matches(*self, max_width as int, starts_line, r),
            !(r is CannotSplit),
    {
        let ghost chars = self.run.chars@;
        let ghost adv = self.run.advances@;
        let ghost rend_g = range_end(self.range);
        let slices = self.run.natural_slices(&self.range);
        let rend: usize = self.range.begin + self.range.length;
        let mut remaining: i64 = max_width;
        let mut left_range: Range = Range::new(self.range.begin, 0);
        let mut right_range: Option<Range> = None;
        let mut pieces_processed_count: usize = 0;
        let mut done: bool = false;
        let mut k: usize = 0;
        let ghost st0 = crate::split::initial_split_state(max_width as int,
            self.range.begin as int);
        let ghost target = crate::split::split_from(slices@, adv, rend_g, starts_line, 0, st0);
        while k < slices.len() && !done
            invariant
                self.run.wf(),
                self.range.begin + self.range.length <= self.run.chars@.len(),
                chars == self.run.chars@,
                adv == self.run.advances@,
                rend_g == range_end(self.range),
                rend == rend_g,
                slices@ == crate::text_run::slice_decomposition(chars, self.range.begin as int,
                    rend_g),
                crate::text_run::is_decomposition(slices@, chars, self.range.begin as int, rend_g),
                k <= slices@.len(),
                -MAX_AU <= remaining <= MAX_AU,
                self.range.begin <= left_range.begin,
                left_range.begin + left_range.length <= rend_g,
                !done ==> pieces_processed_count == k,
                !done ==> right_range is None,
                !done ==> left_range.begin + left_range.length == (if (k as int) < slices@.len() {
                    slices@[k as int].begin as int
                } else {
                    rend_g
                }),
                match right_range {
                    Some(rr) => rr.begin + rr.length == rend_g && self.range.begin <= rr.begin,
                    None => true,
                },
                crate::split::split_from(slices@, adv, rend_g, starts_line, k as int,
                    exec_split_state(remaining, left_range, right_range,
                    pieces_processed_count, done)) == target,
            decreases slices@.len() - k,
        {
            let ghost pre = exec_split_state(remaining, left_range, right_range,
                pieces_processed_count, done);
            let slice = slices[k];
            let advance = self.run.advance_for(slice.begin, slice.begin + slice.length);
            if advance <= remaining {
                if starts_line && pieces_processed_count == 0 && slice.whitespace {
                    // Leading trimmable whitespace on a fresh line: skip it.
                    left_range.shift_by(slice.length);
                } else {
                    remaining = remaining - advance;
                    left_range.extend_by(slice.length);
                }
            } else {
                // The slice does not fit.
                if slice.whitespace {
                    let slice_end = slice.begin + slice.length;
                    if slice_end < rend {
                        right_range = Some(Range::new(slice_end, rend - slice_end));
                    }
                } else {
                    right_range = Some(Range::new(slice.begin, rend - slice.begin));
                }
                done = true;
            }
            pieces_processed_count = pieces_processed_count + 1;
            k = k + 1;
            proof {
                let stepped = crate::split::split_step(slices@[k - 1], adv, rend_g, starts_line,
                    pre);
                assert(exec_split_state(remaining, left_range, right_range,
                    pieces_processed_count, done) == stepped);
            }
        }
        let ghost st = target;
        proof {
            assert(crate::split::split_from(slices@, adv, rend_g, starts_line, k as int,
                exec_split_state(remaining, left_range, right_range, pieces_processed_count,
                done)) == exec_split_state(remaining, left_range, right_range,
                pieces_processed_count, done));
        }
        let left_box: Option<Box<RenderBox>> = if left_range.length() > 0 {
            Some(Box::new(RenderBox::Text(adapt_textbox_with_range(self.base, self.run.clone(),
                left_range))))
        } else {
            None
        };
        let right_box: Option<Box<RenderBox>> = match right_range {
            Some(rr) => Some(Box::new(RenderBox::Text(adapt_textbox_with_range(self.base,
                self.run.clone(), rr)))),
            None => None,
        };
        if (pieces_processed_count == 1 && done) || left_range.length() == 0 {
            SplitBoxResult::SplitDidNotFit(left_box, right_box)
        } else {
            SplitBoxResult::SplitDidFit(left_box, right_box)
        }
    }
}

/// The minimum and preferred widths of a box as layout consumes them:
/// both are the guessed own contribution, plus for an image its intrinsic
/// width, and for text the widest unbreakable slice (minimum) or the
/// unbroken single-line width (preferred).
pub open spec fn spec_minimum_and_preferred_widths(bx: RenderBox, tree: NodeTree) -> (int, int) {
    let g = spec_guess_width(tree.nodes@[spec_box_base(bx).node as int].style);
    match bx {
        RenderBox::Generic(_) => (g, g),
        RenderBox::Image(b) => {
            let iw = AU_PER_PX * spec_image_width_px(tree, b.base.node as int, b.image);
            (g + iw, g + iw)
        },
        RenderBox::Text(b) => (g + crate::text_run::spec_min_width(b.run.chars@, b.run.advances@,
            b.range.begin as int, range_end(b.range)), g + crate::text_run::advance_total(
            b.run.advances@, b.range.begin as int, range_end(b.range))),
        RenderBox::UnscannedText(_) => (0, 0),
    }
}

/// The height a box reports: zero for generic boxes, the intrinsic image
/// height (zero until resolved) for image boxes, the line height at the
/// run's em height for text boxes.
pub open spec fn spec_box_height(bx: RenderBox, tree: NodeTree) -> int {
    match bx {
        RenderBox::Generic(_) => 0,
        RenderBox::Image(b) => AU_PER_PX * (match b.image.size {
            Some(s) => s.1 as int,
            None => 0,
        }),
        RenderBox::Text(b) => spec_line_height_au(tree.nodes@[spec_nearest_ancestor_element(&tree,
            b.base.node as int)].style.line_height, b.run.em_height as int),
        RenderBox::UnscannedText(_) => 0,
    }
}

/// A box's common data with the position height replaced.
pub open spec fn spec_set_height(base: RenderBoxBase, h: int) -> RenderBoxBase {
    RenderBoxBase {
        position: Rect {
            origin: base.position.origin,
            size: Size { width: base.position.size.width, height: h as i64 },
        },
        ..base
    }
}

/// A box's common data with the position width replaced.
pub open spec fn spec_set_width(base: RenderBoxBase, w: int) -> RenderBoxBase {
    RenderBoxBase {
        position: Rect {
            origin: base.position.origin,
            size: Size { width: w as i64, height: base.position.size.height },
        },
        ..base
    }
}

/// The width `assign_width` gives a box: the guessed own contribution for
/// a generic box, the intrinsic image width for an image box, and the
/// already-assigned width for a (preinitialized) text box.
pub open spec fn spec_assigned_width(bx: RenderBox, tree: NodeTree) -> int {
    match bx {
        RenderBox::Generic(b) => {
            let g = spec_guess_width(tree.nodes@[b.base.node as int].style);
            if g > MAX_AU {
                MAX_AU as int
            } else {
                g
            }
        },
        RenderBox::Image(b) => AU_PER_PX * spec_image_width_px(tree, b.base.node as int, b.image),
        RenderBox::Text(b) => b.base.position.size.width as int,
        RenderBox::UnscannedText(b) => b.base.position.size.width as int,
    }
}

pub open spec fn spec_debug_str(bx: RenderBox) -> Seq<char> {
    match bx {
        RenderBox::Generic(_) => "box b0: "@ + "GenericRenderBox"@,
        RenderBox::Image(_) => "box b0: "@ + "ImageRenderBox"@,
        RenderBox::Text(_) => "box b0: "@ + "TextRenderBox"@,
        RenderBox::UnscannedText(_) => "box b0: "@ + "UnscannedTextRenderBox"@,
    }
}

impl RenderBox {
    /// The data common to all boxes.
    pub fn base(&self) -> (r: &RenderBoxBase)
        ensures
            *r == spec_box_base(*self),
    {
        match self {
            RenderBox::Generic(b) => &b.base,
            RenderBox::Image(b) => &b.base,
            RenderBox::Text(b) => &b.base,
            RenderBox::UnscannedText(b) => &b.base,
        }
    }

    /// The data common to all boxes, for mutation.
    pub fn mut_base(&mut self) -> (r: &mut RenderBoxBase)
        ensures
            *r == spec_box_base(*old(self)),
            *final(self) == spec_with_base(*old(self), *final(r)),
    {
        match self {
            RenderBox::Generic(b) => &mut b.base,
            RenderBox::Image(b) => &mut b.base,
            RenderBox::Text(b) => &mut b.base,
            RenderBox::UnscannedText(b) => &mut b.base,
        }
    }

    /// The class of render box that this is.
    pub fn class(&self) -> (r: RenderBoxClass)
        ensures
            r == spec_box_class(*self),
    {
        match self {
            RenderBox::Generic(_) => RenderBoxClass::GenericRenderBoxClass,
            RenderBox::Image(_) => RenderBoxClass::ImageRenderBoxClass,
            RenderBox::Text(_) => RenderBoxClass::TextRenderBoxClass,
            RenderBox::UnscannedText(_) => RenderBoxClass::UnscannedTextRenderBoxClass,
        }
    }

    /// The underlying image box. Callers establish the variant first, so a
    /// wrong-variant downcast is unrepresentable rather than a run-time
    /// failure.
    pub fn as_image_render_box(&self) -> (r: &ImageRenderBox)
        requires
            self is Image,
        ensures
            *self == RenderBox::Image(*r),
    {
        match self {
            RenderBox::Image(b) => b,
            _ => unreached(),
        }
    }

    /// The underlying text box. Callers establish the variant first.
    pub fn as_text_render_box(&self) -> (r: &TextRenderBox)
        requires
            self is Text,
        ensures
            *self == RenderBox::Text(*r),
    {
        match self {
            RenderBox::Text(b) => b,
            _ => unreached(),
        }
    }

    /// The underlying unscanned text box. Callers establish the variant
    /// first.
    pub fn as_unscanned_text_render_box(&self) -> (r: &UnscannedTextRenderBox)
        requires
            self is UnscannedText,
        ensures
            *self == RenderBox::UnscannedText(*r),
    {
        match self {
            RenderBox::UnscannedText(b) => b,
            _ => unreached(),
        }
    }

    /// Whether this box is replaced content (true exactly for images).
    pub fn is_replaced(&self) -> (r: bool)
        ensures
            r == (spec_box_class(*self) == RenderBoxClass::ImageRenderBoxClass),
    {
        self.class() == RenderBoxClass::ImageRenderBoxClass
    }

    /// Whether this box can be split (true exactly for text boxes).
    pub fn can_split(&self) -> (r: bool)
        ensures
            r == (spec_box_class(*self) == RenderBoxClass::TextRenderBoxClass),
    {
        self.class() == RenderBoxClass::TextRenderBoxClass
    }

    /// The left and right fringe used by this box: none, a deliberate
    /// simplification of this layout core.
    pub fn get_used_width(&self) -> (r: (i64, i64))
        ensures
            r == (0i64, 0i64),
    {
        (0, 0)
    }

    /// The top and bottom fringe used by this box: none, a deliberate
    /// simplification of this layout core.
    pub fn get_used_height(&self) -> (r: (i64, i64))
        ensures
            r == (0i64, 0i64),
    {
        (0, 0)
    }

    /// Whether this box is an unscanned text box holding only whitespace.
    pub fn is_whitespace_only(&self) -> (r: bool)
        ensures
            r == (self matches RenderBox::UnscannedText(b) && spec_all_whitespace(b.text@)),
    {
        match self {
            RenderBox::UnscannedText(b) => b.is_whitespace_only(),
            _ => false,
        }
    }

    /// Whether this box can merge with `other`: only unscanned text boxes
    /// merge, and only when font style and text decoration agree.
    pub fn can_merge_with_box(&self, tree: &NodeTree, other: &RenderBox) -> (r: bool)
        requires
            tree.wf(),
            spec_box_base(*self).node < tree.nodes@.len(),
            spec_box_base(*other).node < tree.nodes@.len(),
        ensures
            r == spec_can_merge(*tree, *self, *other),
    {
        match (self, other) {
            (RenderBox::UnscannedText(a), RenderBox::UnscannedText(b)) => {
                let fs_a = a.base.font_style(tree);
                let fs_b = b.base.font_style(tree);
                let td_a = a.base.text_decoration(tree);
                let td_b = b.base.text_decoration(tree);
                fs_a.same_as(&fs_b) && td_a == td_b
            },
            _ => false,
        }
    }

    /// The font description for this box's content, memoized on unscanned
    /// text boxes, which are the only boxes that query it repeatedly
    /// during merging.
    pub fn font_style(&mut self, tree: &NodeTree) -> (r: FontStyle)
        requires
            tree.wf(),
            box_wf(*old(self), *tree),
        ensures
            r@ == spec_font_style(*tree, spec_box_base(*old(self)).node as int),
            box_wf(*final(self), *tree),
            spec_box_base(*final(self)) == spec_box_base(*old(self)),
            spec_box_class(*final(self)) == spec_box_class(*old(self)),
            !((*old(self)) is UnscannedText) ==> *final(self) == *old(self),
            (*old(self)) matches RenderBox::UnscannedText(u) ==> ((*final(self))
                matches RenderBox::UnscannedText(u2) && u2.text == u.text && u2.text_decoration
                == u.text_decoration),
    {
        match self {
            RenderBox::UnscannedText(b) => {
                match &b.font_style {
                    Some(f) => f.duplicate(),
                    None => {
                        let f = b.base.font_style(tree);
                        b.font_style = Some(f.duplicate());
                        f
                    },
                }
            },
            RenderBox::Generic(b) => b.base.font_style(tree),
            RenderBox::Image(b) => b.base.font_style(tree),
            RenderBox::Text(b) => b.base.font_style(tree),
        }
    }

    /// The propagated text decoration for this box, memoized on unscanned
    /// text boxes.
    pub fn text_decoration(&mut self, tree: &NodeTree) -> (r: TextDecoration)
        requires
            tree.wf(),
            box_wf(*old(self), *tree),
        ensures
            r == spec_propagated_text_decoration(tree, spec_box_base(*old(self)).node as int),
            box_wf(*final(self), *tree),
            spec_box_base(*final(self)) == spec_box_base(*old(self)),
            spec_box_class(*final(self)) == spec_box_class(*old(self)),
            !((*old(self)) is UnscannedText) ==> *final(self) == *old(self),
            (*old(self)) matches RenderBox::UnscannedText(u) ==> ((*final(self))
                matches RenderBox::UnscannedText(u2) && u2.text == u.text && u2.font_style
                == u.font_style),
    {
        match self {
            RenderBox::UnscannedText(b) => {
                match b.text_decoration {
                    Some(td) => td,
                    None => {
                        let td = b.base.text_decoration(tree);
                        b.text_decoration = Some(td);
                        td
                    },
                }
            },
            RenderBox::Generic(b) => b.base.text_decoration(tree),
            RenderBox::Image(b) => b.base.text_decoration(tree),
            RenderBox::Text(b) => b.base.text_decoration(tree),
        }
    }

    /// The minimum and preferred widths of this box as defined by CSS 2.1.
    /// Unscanned text boxes must be scanned before width queries reach
    /// them.
    pub fn minimum_and_preferred_widths(&self, tree: &NodeTree) -> (r: (i64, i64))
        requires
            tree.wf(),
            box_wf(*self, *tree),
            !(self is UnscannedText),
        ensures
            (r.0 as int, r.1 as int) == spec_minimum_and_preferred_widths(*self, *tree),
    {
        match self {
            RenderBox::Generic(b) => {
                let g = b.base.guess_width(tree);
                (g, g)
            },
            RenderBox::Image(b) => {
                let g = b.base.guess_width(tree);
                let iw = b.image_width(tree);
                (g + iw, g + iw)
            },
            RenderBox::Text(b) => {
                let g = b.base.guess_width(tree);
                let min_w = b.run.min_width_for_range(&b.range);
                let max_w = b.run.max_line_width_for_range(&b.range);
                proof {
                    crate::text_run::lemma_advance_total_bounds(b.run.advances@,
                        b.range.begin as int, range_end(b.range));
                }
                (g + min_w, g + max_w)
            },
            RenderBox::UnscannedText(_) => unreached(),
        }
    }

    /// The height this box occupies; an image box also records it as its
    /// position height. Unscanned text boxes must be scanned first.
    pub fn box_height(&mut self, tree: &NodeTree) -> (r: i64)
        requires
            tree.wf(),
            box_wf(*old(self), *tree),
            !((*old(self)) is UnscannedText),
        ensures
            r == spec_box_height(*old(self), *tree),
            *final(self) == if (*old(self)) is Image {
                spec_with_base(*old(self), spec_set_height(spec_box_base(*old(self)),
                    spec_box_height(*old(self), *tree)))
            } else {
                *old(self)
            },
            box_wf(*final(self), *tree),
    {
        match self {
            RenderBox::Generic(_) => 0,
            RenderBox::Image(b) => {
                let height = match b.image.get_size() {
                    Some(s) => au_from_px(s.1),
                    None => 0,
                };
                b.base.position.size.height = height;
                height
            },
            RenderBox::Text(b) => {
                let metrics = b.run.metrics_for_range(&b.range);
                let em_size = metrics.bounding_box.size.height;
                b.calculate_line_height(tree, em_size)
            },
            RenderBox::UnscannedText(_) => unreached(),
        }
    }

    /// Assigns the box's width: its own guessed contribution for a generic
    /// box, the intrinsic image width for an image box; text boxes are
    /// preinitialized. Unscanned text boxes must be scanned first.
    pub fn assign_width(&mut self, tree: &NodeTree)
        requires
            tree.wf(),
            box_wf(*old(self), *tree),
            !((*old(self)) is UnscannedText),
        ensures
            *final(self) == if (*old(self)) is Text {
                *old(self)
            } else {
                spec_with_base(*old(self), spec_set_width(spec_box_base(*old(self)),
                    spec_assigned_width(*old(self), *tree)))
            },
            box_wf(*final(self), *tree),
    {
        match self {
            RenderBox::Generic(b) => {
                let w = b.base.guess_width(tree);
                let w = if w > MAX_AU {
                    MAX_AU
                } else {
                    w
                };
                b.base.position.size.width = w;
            },
            RenderBox::Image(b) => {
                let w = b.image_width(tree);
                b.base.position.size.width = w;
            },
            RenderBox::Text(_) => {
            },
            RenderBox::UnscannedText(_) => unreached(),
        }
    }

    /// Attempts to split this box to fit `max_width`. Generic and image
    /// boxes cannot split; unscanned text boxes must be scanned first.
    pub fn split_to_width(&self, max_width: i64, starts_line: bool) -> (r: SplitBoxResult)
        requires
            !(self is UnscannedText),
            self matches RenderBox::Text(tb) ==> tb.run.wf() && tb.range.begin + tb.range.length
                <= tb.run.chars@.len(),
            -MAX_AU <= max_width <= MAX_AU,
        ensures
            match *self {
                RenderBox::Text(tb) => spec_text_split_matches(tb, max_width as int, starts_line,
                    r),
                _ => r is CannotSplit,
            },
    {
        match self {
            RenderBox::Generic(_) => SplitBoxResult::CannotSplit,
            RenderBox::Image(_) => SplitBoxResult::CannotSplit,
            RenderBox::Text(b) => b.split_to_width(max_width, starts_line),
            RenderBox::UnscannedText(_) => unreached(),
        }
    }

    /// A short description of this box for debugging.
    pub fn debug_str(&self) -> (r: String)
        ensures
            r@ == spec_debug_str(*self),
    {
        let mut s = String::new();
        s.append("box b0: ");
        match self {
            RenderBox::Generic(_) => s.append("GenericRenderBox"),
            RenderBox::Image(_) => s.append("ImageRenderBox"),
            RenderBox::Text(_) => s.append("TextRenderBox"),
            RenderBox::UnscannedText(_) => s.append("UnscannedTextRenderBox"),
        }
        proof {
            assert(s@ =~= spec_debug_str(*self));
        }
        s
    }
}

/// The background item a box contributes: a solid color covering its
/// absolute bounds, when the nearest ancestor element's background has any
/// alpha.
pub open spec fn spec_background_items(bx: RenderBox, tree: NodeTree, abs: Rect) -> Seq<DisplayItemView> {
    let base = spec_box_base(bx);
    let e = spec_nearest_ancestor_element(&tree, base.node as int);
    let bg = tree.nodes@[e].style.background_color;
    if bg.a != 0 {
        seq![DisplayItemView::SolidColor {
            bounds: abs,
            renderbox_uniq: base.id as int,
            color: bg,
        }]
    } else {
        Seq::empty()
    }
}

/// The content item a box contributes: its text for a text box, its
/// decoded image (when available, with no placeholder otherwise) for an
/// image box, and nothing for a generic box.
pub open spec fn spec_content_items(bx: RenderBox, tree: NodeTree, abs: Rect) -> Seq<DisplayItemView> {
    let base = spec_box_base(bx);
    match bx {
        RenderBox::Generic(_) => Seq::empty(),
        RenderBox::Text(b) => {
            let e = spec_nearest_ancestor_element(&tree, base.node as int);
            seq![DisplayItemView::Text {
                bounds: abs,
                renderbox_uniq: base.id as int,
                run: crate::text_run::TextRunView {
                    chars: b.run.chars@,
                    advances: b.run.advances@,
                    em_height: b.run.em_height as int,
                    ascent: b.run.ascent as int,
                },
                range: b.range,
                color: tree.nodes@[e].style.color,
            }]
        },
        RenderBox::Image(b) => match b.image.image {
            Some(img) => seq![DisplayItemView::Image {
                bounds: abs,
                renderbox_uniq: base.id as int,
                image: img@,
            }],
            None => Seq::empty(),
        },
        RenderBox::UnscannedText(_) => Seq::empty(),
    }
}

/// The border item a box contributes, when any border width is non-zero:
/// per-side widths from the box model, per-side colors and styles from the
/// box's own style.
pub open spec fn spec_border_items(bx: RenderBox, tree: NodeTree, abs: Rect) -> Seq<DisplayItemView> {
    let base = spec_box_base(bx);
    let st = tree.nodes@[base.node as int].style;
    if base.model.border == (SideOffsets { top: 0, right: 0, bottom: 0, left: 0 }) {
        Seq::empty()
    } else {
        seq![DisplayItemView::Border {
            bounds: abs,
            renderbox_uniq: base.id as int,
            border: base.model.border,
            color: SideColors {
                top: st.border_top_color,
                right: st.border_right_color,
                bottom: st.border_bottom_color,
                left: st.border_left_color,
            },
            style: SideStyles {
                top: st.border_top_style,
                right: st.border_right_style,
                bottom: st.border_bottom_style,
                left: st.border_left_style,
            },
        }]
    }
}

/// Everything a box adds to the display list for one paint pass: nothing
/// at all when its absolute bounds miss the dirty rectangle, else its
/// background, its content and its border, in paint order.
pub open spec fn spec_display_items(bx: RenderBox, tree: NodeTree, dirty: Rect, offset: Point) -> Seq<DisplayItemView> {
    let abs = crate::geometry::spec_translate(spec_box_base(bx).position, offset);
    if !crate::geometry::spec_intersects(abs, dirty) {
        Seq::empty()
    } else {
        spec_background_items(bx, tree, abs) + spec_content_items(bx, tree, abs)
            + spec_border_items(bx, tree, abs)
    }
}

impl RenderBox {
    /// Appends the solid-color background item for this box, if the
    /// nearest ancestor element's background color has any alpha.
    pub fn paint_background_if_applicable(&self, tree: &NodeTree, list: &mut DisplayList, absolute_bounds: &Rect)
        requires
            tree.wf(),
            spec_box_base(*self).node < tree.nodes@.len(),
        ensures
            list_view(final(list).list@) == list_view(old(list).list@) + spec_background_items(
                *self, *tree, *absolute_bounds),
    {
        let e = tree.nearest_ancestor_element(self.base().node);
        let background_color = tree.nodes[e].style.background_color;
        if background_color.a != 0 {
            let item = DisplayItem::SolidColor(SolidColorDisplayItem {
                base: BaseDisplayItem {
                    bounds: *absolute_bounds,
                    renderbox_uniq: self.base().id,
                },
                color: background_color,
            });
            let ghost before = list.list@;
            let ghost item_g = item;
            list.append_item(item);
            proof {
                crate::display_list::lemma_list_view_push(before, item_g);
                assert(list_view(list.list@) =~= list_view(before) + spec_background_items(*self,
                    *tree, *absolute_bounds));
            }
        } else {
            proof {
                assert(list_view(list.list@) =~= list_view(list.list@) + Seq::<
                    DisplayItemView>::empty());
            }
        }
    }

    /// Appends the border item for this box, if any of its border widths
    /// is non-zero.
    pub fn paint_borders_if_applicable(&self, tree: &NodeTree, list: &mut DisplayList, abs_bounds: &Rect)
        requires
            tree.wf(),
            spec_box_base(*self).node < tree.nodes@.len(),
        ensures
            list_view(final(list).list@) == list_view(old(list).list@) + spec_border_items(*self,
                *tree, *abs_bounds),
    {
        let base = self.base();
        let border = base.model.border;
        if border.is_zero() {
            proof {
                assert(list_view(list.list@) =~= list_view(list.list@) + Seq::<
                    DisplayItemView>::empty());
            }
            return;
        }
        let st = &tree.nodes[base.node].style;
        let item = DisplayItem::Border(BorderDisplayItem {
            base: BaseDisplayItem { bounds: *abs_bounds, renderbox_uniq: base.id },
            border,
            color: SideColors {
                top: st.border_top_color,
                right: st.border_right_color,
                bottom: st.border_bottom_color,
                left: st.border_left_color,
            },
            style: SideStyles {
                top: st.border_top_style,
                right: st.border_right_style,
                bottom: st.border_bottom_style,
                left: st.border_left_style,
            },
        });
        let ghost before = list.list@;
        let ghost item_g = item;
        list.append_item(item);
        proof {
            crate::display_list::lemma_list_view_push(before, item_g);
            assert(list_view(list.list@) =~= list_view(before) + spec_border_items(*self, *tree,
                *abs_bounds));
        }
    }

    /// Adds the display items for this box to the given display list:
    /// nothing at all when the box's absolute bounds do not meet the dirty
    /// rectangle, else background, content and border in paint order.
    /// Unscanned text boxes must be scanned before any paint pass reaches
    /// them.
    pub fn build_display_list(&self, tree: &NodeTree, dirty: &Rect, offset: &Point, list: &mut DisplayList)
        requires
            tree.wf(),
            box_wf(*self, *tree),
            !(self is UnscannedText),
            rect_wf(*dirty),
            crate::geometry::point_wf(*offset),
        ensures
            list_view(final(list).list@) == list_view(old(list).list@) + spec_display_items(
                *self, *tree, *dirty, *offset),
            !crate::geometry::spec_intersects(crate::geometry::spec_translate(spec_box_base(
                *self).position, *offset), *dirty) ==> *final(list) == *old(list),
    {
        let base = self.base();
        let absolute_box_bounds = base.position.translate(offset);
        if !absolute_box_bounds.intersects(dirty) {
            proof {
                assert(list_view(list.list@) =~= list_view(list.list@) + Seq::<
                    DisplayItemView>::empty());
            }
            return;
        }
        let ghost at_entry = list.list@;
        self.paint_background_if_applicable(tree, list, &absolute_box_bounds);
        match self {
            RenderBox::Generic(_) => {
                proof {
                    assert(list_view(list.list@) =~= list_view(list.list@) + Seq::<
                        DisplayItemView>::empty());
                }
            },
            RenderBox::Text(b) => {
                let e = tree.nearest_ancestor_element(base.node);
                let color = tree.nodes[e].style.color;
                let item = DisplayItem::Text(TextDisplayItem {
                    base: BaseDisplayItem { bounds: absolute_box_bounds, renderbox_uniq: base.id },
                    text_run: b.run.duplicate(),
                    range: b.range,
                    color,
                });
                let ghost before = list.list@;
                let ghost item_g = item;
                list.append_item(item);
                proof {
                    crate::display_list::lemma_list_view_push(before, item_g);
                    assert(list_view(list.list@) =~= list_view(before) + spec_content_items(
                        *self, *tree, absolute_box_bounds));
                }
            },
            RenderBox::Image(b) => {
                match b.image.get_image() {
                    Some(image) => {
                        let item = DisplayItem::Image(ImageDisplayItem {
                            base: BaseDisplayItem {
                                bounds: absolute_box_bounds,
                                renderbox_uniq: base.id,
                            },
                            image: image.duplicate(),
                        });
                        let ghost before = list.list@;
                        let ghost item_g = item;
                        list.append_item(item);
                        proof {
                            crate::display_list::lemma_list_view_push(before, item_g);
                            assert(list_view(list.list@) =~= list_view(before)
                                + spec_content_items(*self, *tree, absolute_box_bounds));
                        }
                    },
                    None => {
                        // No image data yet: paint nothing, no placeholder.
                        proof {
                            assert(list_view(list.list@) =~= list_view(list.list@) + Seq::<
                                DisplayItemView>::empty());
                        }
                    },
                }
            },
            RenderBox::UnscannedText(_) => {
                proof {
                    assert(false);
                }
            },
        }
        self.paint_borders_if_applicable(tree, list, &absolute_box_bounds);
        proof {
            assert(list_view(list.list@) =~= list_view(at_entry) + spec_display_items(*self,
                *tree, *dirty, *offset));
        }
    }
}

/// The content box: the position moved
/// right past border and padding, narrowed by the noncontent width.
pub open spec fn spec_content_box(base: RenderBoxBase) -> Rect {
    Rect {
        origin: Point {
            x: (base.position.origin.x + base.model.border.left + base.model.padding.left) as i64,
            y: base.position.origin.y,
        },
        size: Size {
            width: (base.position.size.width - (base.model.border.left + base.model.padding.left
                + base.model.border.right + base.model.padding.right)) as i64,
            height: base.position.size.height,
        },
    }
}

} // verus!
