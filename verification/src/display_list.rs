//! The display list: an append-only, ordered sequence of primitive paint
//! commands. Paint order is append order (painter's algorithm); an external
//! rasterizer executes the commands.

use vstd::prelude::*;
use crate::geometry::{Rect, Point, SideOffsets, rect_wf, MAX_AU};
use crate::image_base::Image;
use crate::range::Range;
use crate::style::{Color, BorderStyle};
use crate::text_run::TextRun;

verus! {

/// Per-side border colors.
#[derive(Clone, Copy, Debug, PartialEq, Eq, Structural)]
pub struct SideColors {
    pub top: Color,
    pub right: Color,
    pub bottom: Color,
    pub left: Color,
}

/// Per-side border styles.
#[derive(Clone, Copy, Debug, PartialEq, Eq, Structural)]
pub struct SideStyles {
    pub top: BorderStyle,
    pub right: BorderStyle,
    pub bottom: BorderStyle,
    pub left: BorderStyle,
}

/// Information common to all display items: the item's boundaries and the
/// id of the render box that produced it.
#[derive(Clone, Debug)]
pub struct BaseDisplayItem {
    pub bounds: Rect,
    pub renderbox_uniq: i64,
}

/// Renders a solid color.
#[derive(Clone, Debug)]
pub struct SolidColorDisplayItem {
    pub base: BaseDisplayItem,
    pub color: Color,
}

/// Renders a sub-range of a text run.
#[derive(Clone, Debug)]
pub struct TextDisplayItem {
    pub base: BaseDisplayItem,
    pub text_run: TextRun,
    pub range: Range,
    pub color: Color,
}

/// Renders a decoded image.
#[derive(Clone, Debug)]
pub struct ImageDisplayItem {
    pub base: BaseDisplayItem,
    pub image: Image,
}

/// Renders a border with per-side widths, colors and styles.
#[derive(Clone, Debug)]
pub struct BorderDisplayItem {
    pub base: BaseDisplayItem,
    pub border: SideOffsets,
    pub color: SideColors,
    pub style: SideStyles,
}

/// One drawing command in the list.
#[derive(Clone, Debug)]
pub enum DisplayItem {
    SolidColor(SolidColorDisplayItem),
    Text(TextDisplayItem),
    Image(ImageDisplayItem),
    Border(BorderDisplayItem),
}

/// The kind tag of a display item.
#[derive(Clone, Copy, Debug, PartialEq, Eq, Structural, Hash)]
pub enum DisplayItemType {
    SolidColorType,
    TextType,
    ImageType,
    BorderType,
}

/// The identity used to correlate display items across passes without
/// holding a reference to the producing box.
#[derive(Clone, Copy, Debug, PartialEq, Eq, Structural, Hash)]
pub struct DisplayItemKey {
    pub renderbox_uniq: i64,
    pub ty: DisplayItemType,
}

/// The mathematical value of a display item, with text runs and images
/// replaced by their values.
#[verifier::ext_equal]
pub enum DisplayItemView {
    SolidColor { bounds: Rect, renderbox_uniq: int, color: Color },
    Text {
        bounds: Rect,
        renderbox_uniq: int,
        run: crate::text_run::TextRunView,
        range: Range,
        color: Color,
    },
    Image { bounds: Rect, renderbox_uniq: int, image: crate::image_base::ImageView },
    Border {
        bounds: Rect,
        renderbox_uniq: int,
        border: SideOffsets,
        color: SideColors,
        style: SideStyles,
    },
}

impl View for DisplayItem {
    type V = DisplayItemView;

    open spec fn view(&self) -> DisplayItemView {
        match *self {
            DisplayItem::SolidColor(i) => DisplayItemView::SolidColor {
                bounds: i.base.bounds,
                renderbox_uniq: i.base.renderbox_uniq as int,
                color: i.color,
            },
            DisplayItem::Text(i) => DisplayItemView::Text {
                bounds: i.base.bounds,
                renderbox_uniq: i.base.renderbox_uniq as int,
                run: i.text_run@,
                range: i.range,
                color: i.color,
            },
            DisplayItem::Image(i) => DisplayItemView::Image {
                bounds: i.base.bounds,
                renderbox_uniq: i.base.renderbox_uniq as int,
                image: i.image@,
            },
            DisplayItem::Border(i) => DisplayItemView::Border {
                bounds: i.base.bounds,
                renderbox_uniq: i.base.renderbox_uniq as int,
                border: i.border,
                color: i.color,
                style: i.style,
            },
        }
    }
}

/// The item-by-item value of a display list.
pub open spec fn list_view(items: Seq<DisplayItem>) -> Seq<DisplayItemView> {
    items.map_values(|it: DisplayItem| it@)
}

/// Appending an item appends its value.
pub proof fn lemma_list_view_push(items: Seq<DisplayItem>, item: DisplayItem)
    ensures
        list_view(items.push(item)) == list_view(items).push(item@),
{
    assert(list_view(items.push(item)) =~= list_view(items).push(item@));
}

pub open spec fn spec_item_base(item: DisplayItem) -> BaseDisplayItem {
    match item {
        DisplayItem::SolidColor(i) => i.base,
        DisplayItem::Text(i) => i.base,
        DisplayItem::Image(i) => i.base,
        DisplayItem::Border(i) => i.base,
    }
}

pub open spec fn spec_item_type(item: DisplayItem) -> DisplayItemType {
    match item {
        DisplayItem::SolidColor(_) => DisplayItemType::SolidColorType,
        DisplayItem::Text(_) => DisplayItemType::TextType,
        DisplayItem::Image(_) => DisplayItemType::ImageType,
        DisplayItem::Border(_) => DisplayItemType::BorderType,
    }
}

pub open spec fn spec_item_key(item: DisplayItem) -> DisplayItemKey {
    DisplayItemKey {
        renderbox_uniq: spec_item_base(item).renderbox_uniq,
        ty: spec_item_type(item),
    }
}

impl DisplayItem {
    /// The information common to all item kinds.
    pub fn base(&self) -> (r: &BaseDisplayItem)
        ensures
            *r == spec_item_base(*self),
    {
        match self {
            DisplayItem::SolidColor(i) => &i.base,
            DisplayItem::Text(i) => &i.base,
            DisplayItem::Image(i) => &i.base,
            DisplayItem::Border(i) => &i.base,
        }
    }

    /// The kind tag of this item.
    pub fn ty(&self) -> (r: DisplayItemType)
        ensures
            r == spec_item_type(*self),
    {
        match self {
            DisplayItem::SolidColor(_) => DisplayItemType::SolidColorType,
            DisplayItem::Text(_) => DisplayItemType::TextType,
            DisplayItem::Image(_) => DisplayItemType::ImageType,
            DisplayItem::Border(_) => DisplayItemType::BorderType,
        }
    }

    pub fn bounds(&self) -> (r: Rect)
        ensures
            r == spec_item_base(*self).bounds,
    {
        self.base().bounds
    }
}

impl TextDisplayItem {
    /// Where the text's baseline starts when the item is drawn: the item
    /// origin moved down by the font ascent.
    pub fn baseline_origin(&self, ascent: i64) -> (r: Point)
        requires
            rect_wf(self.base.bounds),
            0 <= ascent <= MAX_AU,
        ensures
            r == (Point {
                x: self.base.bounds.origin.x,
                y: (self.base.bounds.origin.y + ascent) as i64,
            }),
    {
        Point { x: self.base.bounds.origin.x, y: self.base.bounds.origin.y + ascent }
    }

    /// The rectangle an underline bar covers: starting at the baseline,
    /// as wide as the item and as tall as the underline.
    pub fn underline_bounds(&self, ascent: i64, underline_size: i64) -> (r: Rect)
        requires
            rect_wf(self.base.bounds),
            0 <= ascent <= MAX_AU,
            0 <= underline_size <= MAX_AU,
        ensures
            r.origin == (Point {
                x: self.base.bounds.origin.x,
                y: (self.base.bounds.origin.y + ascent) as i64,
            }),
            r.size.width == self.base.bounds.size.width,
            r.size.height == underline_size,
    {
        let origin = self.baseline_origin(ascent);
        Rect {
            origin,
            size: crate::geometry::Size {
                width: self.base.bounds.size.width,
                height: underline_size,
            },
        }
    }
}

/// A list of rendering operations to be performed, in order.
#[derive(Clone, Debug)]
pub struct DisplayList {
    pub list: Vec<DisplayItem>,
}

impl DisplayList {
    /// Creates a new, empty display list.
    pub fn new() -> (r: DisplayList)
        ensures
            r.list@.len() == 0,
    {
        DisplayList { list: Vec::new() }
    }

    /// Appends the given item to the display list. Construction is
    /// append-only: no item already in the list moves or changes.
    pub fn append_item(&mut self, item: DisplayItem)
        ensures
            final(self).list@ == old(self).list@.push(item),
    {
        self.list.push(item);
    }

    pub fn len(&self) -> (r: usize)
        ensures
            r == self.list@.len(),
    {
        self.list.len()
    }

    /// The correlation keys of the items, recomputed on demand, parallel to
    /// the list itself.
    pub fn keys(&self) -> (r: Vec<DisplayItemKey>)
        ensures
            r@.len() == self.list@.len(),
            forall|i: int| 0 <= i < r@.len() ==> r@[i] == spec_item_key(#[trigger] self.list@[i]),
    {
        let mut out: Vec<DisplayItemKey> = Vec::new();
        let mut i: usize = 0;
        while i < self.list.len()
            invariant
                0 <= i <= self.list@.len(),
                out@.len() == i,
                forall|j: int| 0 <= j < i ==> out@[j] == spec_item_key(#[trigger] self.list@[j]),
            decreases self.list@.len() - i,
        {
            let item = &self.list[i];
            out.push(DisplayItemKey { renderbox_uniq: item.base().renderbox_uniq, ty: item.ty() });
            i = i + 1;
        }
        out
    }
}

} // verus!
