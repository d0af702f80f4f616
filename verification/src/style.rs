//! The style builder.
//!
//! A `Style` is an ordered list of properties. Each builder method appends
//! exactly one property and hands the builder back, so calls can be chained;
//! rendering writes the properties in the order in which they were added,
//! with one space between neighbours.
use crate::number::Decimal;
use crate::properties::transition::optional_text;
use crate::properties::{
    border, border_bottom, border_left, border_right, border_top, color, declared, display, flex,
    font, grid, layout, position, size, size_ext, transition, Declaration, Property,
};
use crate::properties::border::border_text;
use crate::text::Render;
use crate::values::{
    transition_text, AlignItems, BorderStyle, BoxShadow, Color, Cursor, Display, FlexDirection,
    FontSize, FontWeight, JustifyContent, LineHeight, Overflow, Position, Size, TextAlign,
    TextDecoration, Transition, Visibility, ZIndex,
};
use crate::variable::{normalize, normalized};
use vstd::prelude::*;

verus! {

/// The text of a declaration block: the declarations in order, with one
/// space between neighbours. The empty block is the empty text.
pub open spec fn block_text(items: Seq<Declaration>) -> Seq<char>
    decreases items.len(),
{
    if items.len() == 0 {
        Seq::empty()
    } else if items.len() == 1 {
        items[0].text()
    } else {
        block_text(items.drop_last()) + seq![' '] + items.last().text()
    }
}

/// The empty block is written as the empty text.
pub proof fn lemma_block_text_empty()
    ensures
        block_text(Seq::<Declaration>::empty()) == Seq::<char>::empty(),
{
}

/// A block made of two non-empty blocks, one after the other, is written as
/// the text of the first, one space, and the text of the second.
pub proof fn lemma_block_text_concat(a: Seq<Declaration>, b: Seq<Declaration>)
    requires
        a.len() > 0,
        b.len() > 0,
    ensures
        block_text(a + b) == block_text(a) + seq![' '] + block_text(b),
    decreases b.len(),
{
    let ab = a + b;
    assert(ab.last() == b.last());
    if b.len() == 1 {
        assert(ab.drop_last() =~= a);
        assert(block_text(b) == b.last().text());
    } else {
        let front = b.drop_last();
        assert(ab.drop_last() =~= a + front);
        lemma_block_text_concat(a, front);
        assert(block_text(ab) =~= block_text(a) + seq![' '] + block_text(b));
    }
}

/// Adding one declaration to a non-empty block adds a space and the
/// declaration's text; added to the empty block it stands alone.
pub proof fn lemma_block_text_push(items: Seq<Declaration>, d: Declaration)
    ensures
        block_text(items.push(d)) == if items.len() == 0 {
            d.text()
        } else {
            block_text(items) + seq![' '] + d.text()
        },
{
    assert(items.push(d).drop_last() =~= items);
}

/// An ordered collection of CSS properties.
#[derive(Debug)]
pub struct Style {
    properties: Vec<Property>,
}

impl View for Style {
    type V = Seq<Declaration>;

    closed spec fn view(&self) -> Seq<Declaration> {
        self.properties@.map_values(|p: Property| p@)
    }
}

impl Default for Style {
    fn default() -> (s: Style)
        ensures
            s@ == Seq::<Declaration>::empty(),
    {
        Style::new()
    }
}

impl Render for Style {
    open spec fn text(&self) -> Seq<char> {
        block_text(self@)
    }

    fn render(&self) -> (out: String) {
        let mut out = String::new();
        let n = self.properties.len();
        let mut i: usize = 0;
        while i < n
            invariant
                n == self.properties.len(),
                i <= n,
                out@ == block_text(self@.take(i as int)),
            decreases n - i,
        {
            if i > 0 {
                out.append(" ");
            }
            out.append(self.properties[i].render().as_str());
            proof {
                reveal_strlit(" ");
                let done = self@.take(i as int);
                assert(self@.take(i + 1) =~= done.push(self@[i as int]));
                lemma_block_text_push(done, self@[i as int]);
                assert(out@ =~= block_text(self@.take(i + 1)));
            }
            i += 1;
        }
        assert(self@.take(n as int) =~= self@);
        out
    }
}

impl Style {
    /// A style with no properties.
    pub fn new() -> (s: Style)
        ensures
            s@ == Seq::<Declaration>::empty(),
    {
        let s = Style { properties: Vec::new() };
        assert(s@ =~= Seq::<Declaration>::empty());
        s
    }

    /// Appends `property` and hands the builder back.
    pub fn add_property(&mut self, property: Property) -> (ret: &mut Style)
        ensures
            ret@ == old(self)@.push(property@),
            *final(self) == *final(ret),
    {
        self.properties.push(property);
        assert(self@ =~= old(self)@.push(property@));
        self
    }

    /// The declaration block of the properties added so far.
    pub fn apply(&self) -> (out: String)
        ensures
            out@ == block_text(self@),
    {
        self.render()
    }

    /// The declaration block of the properties added so far; the same text
    /// as `apply` gives.
    pub fn build(&self) -> (out: String)
        ensures
            out@ == block_text(self@),
    {
        self.apply()
    }

    /// Appends the property `name` with the text of `value`, whatever the
    /// name is.
    pub fn custom_property<T: Render>(&mut self, name: &str, value: T) -> (ret: &mut Style)
        ensures
            ret@ == old(self)@.push(declared(name@, value.text())),
            *final(self) == *final(ret),
    {
        self.add_property(Property::new(name, value))
    }

    /// Defines the custom property `name`, given with or without its leading
    /// `--`: appends a property whose name is the normal form of `name` and
    /// whose value is the text of `value`.
    pub fn set_var<T: Render>(&mut self, name: &str, value: T) -> (ret: &mut Style)
        ensures
            ret@ == old(self)@.push(declared(normalized(name@), value.text())),
            *final(self) == *final(ret),
    {
        let var_name = normalize(name);
        self.custom_property(var_name.as_str(), value)
    }

    /// Appends the `color` property.
    pub fn color(&mut self, value: Color) -> (ret: &mut Style)
        ensures
            ret@ == old(self)@.push(declared("color"@, value.text())),
            *final(self) == *final(ret),
    {
        self.add_property(color::color(value))
    }

    /// Appends the `background-color` property.
    pub fn background_color(&mut self, value: Color) -> (ret: &mut Style)
        ensures
            ret@ == old(self)@.push(declared("background-color"@, value.text())),
            *final(self) == *final(ret),
    {
        self.add_property(color::background_color(value))
    }

    /// Appends the `border-color` property.
    pub fn border_color(&mut self, value: Color) -> (ret: &mut Style)
        ensures
            ret@ == old(self)@.push(declared("border-color"@, value.text())),
            *final(self) == *final(ret),
    {
        self.add_property(color::border_color(value))
    }

    /// Appends the `width` property.
    pub fn width(&mut self, value: Size) -> (ret: &mut Style)
        ensures
            ret@ == old(self)@.push(declared("width"@, value.text())),
            *final(self) == *final(ret),
    {
        self.add_property(size::width(value))
    }

    /// Appends the `height` property.
    pub fn height(&mut self, value: Size) -> (ret: &mut Style)
        ensures
            ret@ == old(self)@.push(declared("height"@, value.text())),
            *final(self) == *final(ret),
    {
        self.add_property(size::height(value))
    }

    /// Appends the `margin` property.
    pub fn margin(&mut self, value: Size) -> (ret: &mut Style)
        ensures
            ret@ == old(self)@.push(declared("margin"@, value.text())),
            *final(self) == *final(ret),
    {
        self.add_property(size::margin(value))
    }

    /// Appends the `margin-top` property.
    pub fn margin_top(&mut self, value: Size) -> (ret: &mut Style)
        ensures
            ret@ == old(self)@.push(declared("margin-top"@, value.text())),
            *final(self) == *final(ret),
    {
        self.add_property(size::margin_top(value))
    }

    /// Appends the `margin-right` property.
    pub fn margin_right(&mut self, value: Size) -> (ret: &mut Style)
        ensures
            ret@ == old(self)@.push(declared("margin-right"@, value.text())),
            *final(self) == *final(ret),
    {
        self.add_property(size::margin_right(value))
    }

    /// Appends the `margin-bottom` property.
    pub fn margin_bottom(&mut self, value: Size) -> (ret: &mut Style)
        ensures
            ret@ == old(self)@.push(declared("margin-bottom"@, value.text())),
            *final(self) == *final(ret),
    {
        self.add_property(size::margin_bottom(value))
    }

    /// Appends the `margin-left` property.
    pub fn margin_left(&mut self, value: Size) -> (ret: &mut Style)
        ensures
            ret@ == old(self)@.push(declared("margin-left"@, value.text())),
            *final(self) == *final(ret),
    {
        self.add_property(size::margin_left(value))
    }

    /// Appends the `padding` property.
    pub fn padding(&mut self, value: Size) -> (ret: &mut Style)
        ensures
            ret@ == old(self)@.push(declared("padding"@, value.text())),
            *final(self) == *final(ret),
    {
        self.add_property(size::padding(value))
    }

    /// Appends the `padding-top` property.
    pub fn padding_top(&mut self, value: Size) -> (ret: &mut Style)
        ensures
            ret@ == old(self)@.push(declared("padding-top"@, value.text())),
            *final(self) == *final(ret),
    {
        self.add_property(size::padding_top(value))
    }

    /// Appends the `padding-right` property.
    pub fn padding_right(&mut self, value: Size) -> (ret: &mut Style)
        ensures
            ret@ == old(self)@.push(declared("padding-right"@, value.text())),
            *final(self) == *final(ret),
    {
        self.add_property(size::padding_right(value))
    }

    /// Appends the `padding-bottom` property.
    pub fn padding_bottom(&mut self, value: Size) -> (ret: &mut Style)
        ensures
            ret@ == old(self)@.push(declared("padding-bottom"@, value.text())),
            *final(self) == *final(ret),
    {
        self.add_property(size::padding_bottom(value))
    }

    /// Appends the `padding-left` property.
    pub fn padding_left(&mut self, value: Size) -> (ret: &mut Style)
        ensures
            ret@ == old(self)@.push(declared("padding-left"@, value.text())),
            *final(self) == *final(ret),
    {
        self.add_property(size::padding_left(value))
    }

    /// Appends the `font-size` property.
    pub fn font_size(&mut self, value: Size) -> (ret: &mut Style)
        ensures
            ret@ == old(self)@.push(declared("font-size"@, value.text())),
            *final(self) == *final(ret),
    {
        self.add_property(size::font_size(value))
    }

    /// Appends the `line-height` property.
    pub fn line_height(&mut self, value: Size) -> (ret: &mut Style)
        ensures
            ret@ == old(self)@.push(declared("line-height"@, value.text())),
            *final(self) == *final(ret),
    {
        self.add_property(size::line_height(value))
    }

    /// Appends the `border-width` property.
    pub fn border_width(&mut self, value: Size) -> (ret: &mut Style)
        ensures
            ret@ == old(self)@.push(declared("border-width"@, value.text())),
            *final(self) == *final(ret),
    {
        self.add_property(size::border_width(value))
    }

    /// Appends the `display` property.
    pub fn display(&mut self, value: Display) -> (ret: &mut Style)
        ensures
            ret@ == old(self)@.push(declared("display"@, value.text())),
            *final(self) == *final(ret),
    {
        self.add_property(display::display(value))
    }

    /// Appends the `position` property.
    pub fn position(&mut self, value: Position) -> (ret: &mut Style)
        ensures
            ret@ == old(self)@.push(declared("position"@, value.text())),
            *final(self) == *final(ret),
    {
        self.add_property(display::position(value))
    }

    /// Appends the `flex-direction` property.
    pub fn flex_direction(&mut self, value: FlexDirection) -> (ret: &mut Style)
        ensures
            ret@ == old(self)@.push(declared("flex-direction"@, value.text())),
            *final(self) == *final(ret),
    {
        self.add_property(display::flex_direction(value))
    }

    /// Appends the `justify-content` property.
    pub fn justify_content(&mut self, value: JustifyContent) -> (ret: &mut Style)
        ensures
            ret@ == old(self)@.push(declared("justify-content"@, value.text())),
            *final(self) == *final(ret),
    {
        self.add_property(display::justify_content(value))
    }

    /// Appends the `align-items` property.
    pub fn align_items(&mut self, value: AlignItems) -> (ret: &mut Style)
        ensures
            ret@ == old(self)@.push(declared("align-items"@, value.text())),
            *final(self) == *final(ret),
    {
        self.add_property(display::align_items(value))
    }

    /// Appends the `font-weight` property.
    pub fn font_weight(&mut self, value: FontWeight) -> (ret: &mut Style)
        ensures
            ret@ == old(self)@.push(declared("font-weight"@, value.text())),
            *final(self) == *final(ret),
    {
        self.add_property(font::font_weight(value))
    }

    /// Appends the `font-family` property.
    pub fn font_family(&mut self, value: &str) -> (ret: &mut Style)
        ensures
            ret@ == old(self)@.push(declared("font-family"@, value@)),
            *final(self) == *final(ret),
    {
        self.add_property(font::font_family(value))
    }

    /// Appends the `text-align` property.
    pub fn text_align(&mut self, value: TextAlign) -> (ret: &mut Style)
        ensures
            ret@ == old(self)@.push(declared("text-align"@, value.text())),
            *final(self) == *final(ret),
    {
        self.add_property(font::text_align(value))
    }

    /// Appends the `font-size` property.
    pub fn font_size_enum(&mut self, value: FontSize) -> (ret: &mut Style)
        ensures
            ret@ == old(self)@.push(declared("font-size"@, value.text())),
            *final(self) == *final(ret),
    {
        self.add_property(font::font_size_enum(value))
    }

    /// Appends the `line-height` property.
    pub fn line_height_enum(&mut self, value: LineHeight) -> (ret: &mut Style)
        ensures
            ret@ == old(self)@.push(declared("line-height"@, value.text())),
            *final(self) == *final(ret),
    {
        self.add_property(font::line_height_enum(value))
    }

    /// Appends the `text-decoration` property.
    pub fn text_decoration(&mut self, value: TextDecoration) -> (ret: &mut Style)
        ensures
            ret@ == old(self)@.push(declared("text-decoration"@, value.text())),
            *final(self) == *final(ret),
    {
        self.add_property(font::text_decoration(value))
    }

    /// Appends the `border-style` property.
    pub fn border_style(&mut self, value: BorderStyle) -> (ret: &mut Style)
        ensures
            ret@ == old(self)@.push(declared("border-style"@, value.text())),
            *final(self) == *final(ret),
    {
        self.add_property(border::border_style(value))
    }

    /// Appends the `border-radius` property.
    pub fn border_radius(&mut self, value: Size) -> (ret: &mut Style)
        ensures
            ret@ == old(self)@.push(declared("border-radius"@, value.text())),
            *final(self) == *final(ret),
    {
        self.add_property(border::border_radius(value))
    }

    /// Appends the `border` shorthand: the width, the style and the color.
    pub fn border(&mut self, width: Size, style: BorderStyle, color: Color) -> (ret: &mut Style)
        ensures
            ret@ == old(self)@.push(
                declared("border"@, border_text(Some(width), style, Some(color))),
            ),
            *final(self) == *final(ret),
    {
        self.add_property(border::border_with_width_and_color(width, style, color))
    }

    /// Appends the `border-top` shorthand: the width, the style and the color.
    pub fn border_top(&mut self, width: Size, style: BorderStyle, color: Color) -> (ret: &mut Style)
        ensures
            ret@ == old(self)@.push(
                declared("border-top"@, border_text(Some(width), style, Some(color))),
            ),
            *final(self) == *final(ret),
    {
        self.add_property(border_top::border_top_with_width_and_color(width, style, color))
    }

    /// Appends the `border-right` shorthand: the width, the style and the color.
    pub fn border_right(&mut self, width: Size, style: BorderStyle, color: Color) -> (ret: &mut Style)
        ensures
            ret@ == old(self)@.push(
                declared("border-right"@, border_text(Some(width), style, Some(color))),
            ),
            *final(self) == *final(ret),
    {
        self.add_property(border_right::border_right_with_width_and_color(width, style, color))
    }

    /// Appends the `border-bottom` shorthand: the width, the style and the color.
    pub fn border_bottom(&mut self, width: Size, style: BorderStyle, color: Color) -> (ret: &mut Style)
        ensures
            ret@ == old(self)@.push(
                declared("border-bottom"@, border_text(Some(width), style, Some(color))),
            ),
            *final(self) == *final(ret),
    {
        self.add_property(border_bottom::border_bottom_with_width_and_color(width, style, color))
    }

    /// Appends the `border-left` shorthand: the width, the style and the color.
    pub fn border_left(&mut self, width: Size, style: BorderStyle, color: Color) -> (ret: &mut Style)
        ensures
            ret@ == old(self)@.push(
                declared("border-left"@, border_text(Some(width), style, Some(color))),
            ),
            *final(self) == *final(ret),
    {
        self.add_property(border_left::border_left_with_width_and_color(width, style, color))
    }

    /// Appends the `box-shadow` property.
    pub fn box_shadow(&mut self, value: BoxShadow) -> (ret: &mut Style)
        ensures
            ret@ == old(self)@.push(declared("box-shadow"@, value.text())),
            *final(self) == *final(ret),
    {
        self.add_property(border::box_shadow(value))
    }

    /// Appends the `box-shadow` property with the value `none`.
    pub fn box_shadow_none(&mut self) -> (ret: &mut Style)
        ensures
            ret@ == old(self)@.push(declared("box-shadow"@, "none"@)),
            *final(self) == *final(ret),
    {
        self.add_property(border::box_shadow_none())
    }

    /// Appends the `top` property.
    pub fn top(&mut self, value: Size) -> (ret: &mut Style)
        ensures
            ret@ == old(self)@.push(declared("top"@, value.text())),
            *final(self) == *final(ret),
    {
        self.add_property(position::top(value))
    }

    /// Appends the `right` property.
    pub fn right(&mut self, value: Size) -> (ret: &mut Style)
        ensures
            ret@ == old(self)@.push(declared("right"@, value.text())),
            *final(self) == *final(ret),
    {
        self.add_property(position::right(value))
    }

    /// Appends the `bottom` property.
    pub fn bottom(&mut self, value: Size) -> (ret: &mut Style)
        ensures
            ret@ == old(self)@.push(declared("bottom"@, value.text())),
            *final(self) == *final(ret),
    {
        self.add_property(position::bottom(value))
    }

    /// Appends the `left` property.
    pub fn left(&mut self, value: Size) -> (ret: &mut Style)
        ensures
            ret@ == old(self)@.push(declared("left"@, value.text())),
            *final(self) == *final(ret),
    {
        self.add_property(position::left(value))
    }

    /// Appends the `z-index` property.
    pub fn z_index(&mut self, value: ZIndex) -> (ret: &mut Style)
        ensures
            ret@ == old(self)@.push(declared("z-index"@, value.text())),
            *final(self) == *final(ret),
    {
        self.add_property(position::z_index(value))
    }

    /// Appends the `overflow` property.
    pub fn overflow(&mut self, value: Overflow) -> (ret: &mut Style)
        ensures
            ret@ == old(self)@.push(declared("overflow"@, value.text())),
            *final(self) == *final(ret),
    {
        self.add_property(layout::overflow(value))
    }

    /// Appends the `overflow-x` property.
    pub fn overflow_x(&mut self, value: Overflow) -> (ret: &mut Style)
        ensures
            ret@ == old(self)@.push(declared("overflow-x"@, value.text())),
            *final(self) == *final(ret),
    {
        self.add_property(layout::overflow_x(value))
    }

    /// Appends the `overflow-y` property.
    pub fn overflow_y(&mut self, value: Overflow) -> (ret: &mut Style)
        ensures
            ret@ == old(self)@.push(declared("overflow-y"@, value.text())),
            *final(self) == *final(ret),
    {
        self.add_property(layout::overflow_y(value))
    }

    /// Appends the `visibility` property.
    pub fn visibility(&mut self, value: Visibility) -> (ret: &mut Style)
        ensures
            ret@ == old(self)@.push(declared("visibility"@, value.text())),
            *final(self) == *final(ret),
    {
        self.add_property(layout::visibility(value))
    }

    /// Appends the `opacity` property, the value brought into the range from
    /// zero to one.
    pub fn opacity(&mut self, value: Decimal) -> (ret: &mut Style)
        ensures
            ret@ == old(self)@.push(declared("opacity"@, value.clamped().text())),
            *final(self) == *final(ret),
    {
        self.add_property(layout::opacity(value))
    }

    /// Appends the `cursor` property.
    pub fn cursor(&mut self, value: Cursor) -> (ret: &mut Style)
        ensures
            ret@ == old(self)@.push(declared("cursor"@, value.text())),
            *final(self) == *final(ret),
    {
        self.add_property(layout::cursor(value))
    }

    /// Appends the `gap` property.
    pub fn gap(&mut self, value: Size) -> (ret: &mut Style)
        ensures
            ret@ == old(self)@.push(declared("gap"@, value.text())),
            *final(self) == *final(ret),
    {
        self.add_property(flex::gap(value))
    }

    /// Appends the `row-gap` property.
    pub fn row_gap(&mut self, value: Size) -> (ret: &mut Style)
        ensures
            ret@ == old(self)@.push(declared("row-gap"@, value.text())),
            *final(self) == *final(ret),
    {
        self.add_property(flex::row_gap(value))
    }

    /// Appends the `column-gap` property.
    pub fn column_gap(&mut self, value: Size) -> (ret: &mut Style)
        ensures
            ret@ == old(self)@.push(declared("column-gap"@, value.text())),
            *final(self) == *final(ret),
    {
        self.add_property(flex::column_gap(value))
    }

    /// Appends the `grid-template-columns` property.
    pub fn grid_template_columns(&mut self, value: &str) -> (ret: &mut Style)
        ensures
            ret@ == old(self)@.push(declared("grid-template-columns"@, value@)),
            *final(self) == *final(ret),
    {
        self.add_property(grid::grid_template_columns(value))
    }

    /// Appends the `grid-template-rows` property.
    pub fn grid_template_rows(&mut self, value: &str) -> (ret: &mut Style)
        ensures
            ret@ == old(self)@.push(declared("grid-template-rows"@, value@)),
            *final(self) == *final(ret),
    {
        self.add_property(grid::grid_template_rows(value))
    }

    /// Appends the `transition` property.
    pub fn transition(&mut self, value: Transition) -> (ret: &mut Style)
        ensures
            ret@ == old(self)@.push(declared("transition"@, value.text())),
            *final(self) == *final(ret),
    {
        self.add_property(transition::transition(value))
    }

    /// Appends the `transition` property with the value `none`.
    pub fn transition_none(&mut self) -> (ret: &mut Style)
        ensures
            ret@ == old(self)@.push(declared("transition"@, "none"@)),
            *final(self) == *final(ret),
    {
        self.add_property(transition::transition_none())
    }

    /// Appends the `transition` property for all properties.
    pub fn transition_all(
        &mut self,
        duration: Decimal,
        timing_function: Option<&str>,
        delay: Option<Decimal>,
    ) -> (ret: &mut Style)
        ensures
            ret@ == old(self)@.push(
                declared(
                    "transition"@,
                    transition_text("all"@, duration, optional_text(timing_function), delay),
                ),
            ),
            *final(self) == *final(ret),
    {
        self.add_property(transition::transition_all(duration, timing_function, delay))
    }

    /// Appends the `max-width` property.
    pub fn max_width(&mut self, value: Size) -> (ret: &mut Style)
        ensures
            ret@ == old(self)@.push(declared("max-width"@, value.text())),
            *final(self) == *final(ret),
    {
        self.add_property(size_ext::max_width(value))
    }

    /// Appends the `min-width` property.
    pub fn min_width(&mut self, value: Size) -> (ret: &mut Style)
        ensures
            ret@ == old(self)@.push(declared("min-width"@, value.text())),
            *final(self) == *final(ret),
    {
        self.add_property(size_ext::min_width(value))
    }

    /// Appends the `max-height` property.
    pub fn max_height(&mut self, value: Size) -> (ret: &mut Style)
        ensures
            ret@ == old(self)@.push(declared("max-height"@, value.text())),
            *final(self) == *final(ret),
    {
        self.add_property(size_ext::max_height(value))
    }

    /// Appends the `min-height` property.
    pub fn min_height(&mut self, value: Size) -> (ret: &mut Style)
        ensures
            ret@ == old(self)@.push(declared("min-height"@, value.text())),
            *final(self) == *final(ret),
    {
        self.add_property(size_ext::min_height(value))
    }
}

/// A style with no properties: the entry point of the builder.
pub fn style() -> (s: Style)
    ensures
        s@ == Seq::<Declaration>::empty(),
{
    Style::new()
}

} // verus!
