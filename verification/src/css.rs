//! CSS properties and the ordered `Style` collection that aggregates them.

use vstd::prelude::*;
use vstd::string::StringExecFns;

verus! {

/// The mathematical content of a CSS property: its wire name and its value.
pub struct PropView {
    pub name: Seq<char>,
    pub value: Seq<char>,
}

/// The serialized form of one CSS property: `name: value;`, the value verbatim.
pub open spec fn spec_prop_token(p: PropView) -> Seq<char> {
    p.name + ": "@ + p.value + ";"@
}

/// The capability of serializing to a `name: value;` property token.
pub trait CssProp {
    /// The property as a wire name paired with a value.
    spec fn model(&self) -> PropView;

    /// Serializes the property to its `name: value;` token.
    fn to_string(&self) -> (s: String)
        ensures
            s@ == spec_prop_token(self.model()),
    ;
}

/// The serialized form of a property sequence: each token in order, with no
/// separator (every token ends with its own `;`).
pub open spec fn spec_prop_tokens(props: Seq<PropView>) -> Seq<char>
    decreases props.len(),
{
    if props.len() == 0 {
        Seq::empty()
    } else {
        spec_prop_tokens(props.drop_last()) + spec_prop_token(props.last())
    }
}

/// One CSS property, a wire name paired with an unvalidated value.
///
/// Every property of the closed accessor table is carried by this one type;
/// the accessors only fix the wire name.
pub struct Property {
    name: String,
    value: String,
}

impl View for Property {
    type V = PropView;

    closed spec fn view(&self) -> PropView {
        PropView { name: self.name@, value: self.value@ }
    }
}

impl Property {
    /// Builds a property from an arbitrary wire name and value. Construction
    /// never fails and the value is not validated.
    pub fn new(name: &str, value: &str) -> (p: Property)
        ensures
            p@ == (PropView { name: name@, value: value@ }),
    {
        Property { name: name.to_owned(), value: value.to_owned() }
    }
}

impl CssProp for Property {
    open spec fn model(&self) -> PropView {
        self@
    }

    fn to_string(&self) -> (s: String)
        ensures
            s@ == spec_prop_token(self@),
    {
        let mut s = String::new();
        s.append(self.name.as_str());
        s.append(": ");
        s.append(self.value.as_str());
        s.append(";");
        proof {
            assert(s@ =~= spec_prop_token(self@));
        }
        s
    }
}

/// An ordered sequence of CSS properties. Insertion order is preserved and
/// determines the serialized order; duplicate names are all kept.
pub struct Style {
    props: Vec<Property>,
}

impl View for Style {
    type V = Seq<PropView>;

    closed spec fn view(&self) -> Seq<PropView> {
        Seq::new(self.props@.len(), |i: int| self.props@[i]@)
    }
}

impl Style {
    /// An empty style block.
    pub fn new() -> (s: Style)
        ensures
            s@ == Seq::<PropView>::empty(),
    {
        let s = Style { props: Vec::new() };
        proof {
            assert(s@ =~= Seq::<PropView>::empty());
        }
        s
    }

    /// Appends one property, preserving insertion order.
    pub fn with_prop(&mut self, item: Property)
        ensures
            final(self)@ == old(self)@.push(item@),
    {
        self.props.push(item);
        proof {
            assert(self@ =~= old(self)@.push(item@));
        }
    }

    /// Serializes the style block: the concatenation of each property's token.
    pub fn to_string(&self) -> (s: String)
        ensures
            s@ == spec_prop_tokens(self@),
    {
        let mut s = String::new();
        let mut i: usize = 0;
        proof {
            assert(self@.take(0int) =~= Seq::<PropView>::empty());
        }
        while i < self.props.len()
            invariant
                i <= self.props@.len(),
                s@ == spec_prop_tokens(self@.take(i as int)),
            decreases self.props@.len() - i,
        {
            let token = self.props[i].to_string();
            s.append(token.as_str());
            proof {
                assert(self@.take(i + 1int).drop_last() =~= self@.take(i as int));
                assert(self@.take(i + 1int).last() == self.props@[i as int]@);
            }
            i = i + 1;
        }
        proof {
            assert(self@.take(self.props@.len() as int) =~= self@);
        }
        s
    }
}

/// The `align-content` CSS property.
pub fn align_content(value: &str) -> (p: Property)
    ensures
        p@ == (PropView { name: "align-content"@, value: value@ }),
{
    Property::new("align-content", value)
}

/// The `align-items` CSS property.
pub fn align_items(value: &str) -> (p: Property)
    ensures
        p@ == (PropView { name: "align-items"@, value: value@ }),
{
    Property::new("align-items", value)
}

/// The `align-self` CSS property.
pub fn align_self(value: &str) -> (p: Property)
    ensures
        p@ == (PropView { name: "align-self"@, value: value@ }),
{
    Property::new("align-self", value)
}

/// The `all` CSS property.
pub fn all(value: &str) -> (p: Property)
    ensures
        p@ == (PropView { name: "all"@, value: value@ }),
{
    Property::new("all", value)
}

/// The `animation` CSS property.
pub fn animation(value: &str) -> (p: Property)
    ensures
        p@ == (PropView { name: "animation"@, value: value@ }),
{
    Property::new("animation", value)
}

/// The `animation-delay` CSS property.
pub fn animation_delay(value: &str) -> (p: Property)
    ensures
        p@ == (PropView { name: "animation-delay"@, value: value@ }),
{
    Property::new("animation-delay", value)
}

/// The `animation-direction` CSS property.
pub fn animation_direction(value: &str) -> (p: Property)
    ensures
        p@ == (PropView { name: "animation-direction"@, value: value@ }),
{
    Property::new("animation-direction", value)
}

/// The `animation-duration` CSS property.
pub fn animation_duration(value: &str) -> (p: Property)
    ensures
        p@ == (PropView { name: "animation-duration"@, value: value@ }),
{
    Property::new("animation-duration", value)
}

/// The `animation-fill-mode` CSS property.
pub fn animation_fill_mode(value: &str) -> (p: Property)
    ensures
        p@ == (PropView { name: "animation-fill-mode"@, value: value@ }),
{
    Property::new("animation-fill-mode", value)
}

/// The `animation-iteration-count` CSS property.
pub fn animation_iteration_count(value: &str) -> (p: Property)
    ensures
        p@ == (PropView { name: "animation-iteration-count"@, value: value@ }),
{
    Property::new("animation-iteration-count", value)
}

/// The `animation-name` CSS property.
pub fn animation_name(value: &str) -> (p: Property)
    ensures
        p@ == (PropView { name: "animation-name"@, value: value@ }),
{
    Property::new("animation-name", value)
}

/// The `animation-play-state` CSS property.
pub fn animation_play_state(value: &str) -> (p: Property)
    ensures
        p@ == (PropView { name: "animation-play-state"@, value: value@ }),
{
    Property::new("animation-play-state", value)
}

/// The `animation-timing-function` CSS property.
pub fn animation_timing_function(value: &str) -> (p: Property)
    ensures
        p@ == (PropView { name: "animation-timing-function"@, value: value@ }),
{
    Property::new("animation-timing-function", value)
}

/// The `backface-visibility` CSS property.
pub fn backface_visibility(value: &str) -> (p: Property)
    ensures
        p@ == (PropView { name: "backface-visibility"@, value: value@ }),
{
    Property::new("backface-visibility", value)
}

/// The `background` CSS property.
pub fn background(value: &str) -> (p: Property)
    ensures
        p@ == (PropView { name: "background"@, value: value@ }),
{
    Property::new("background", value)
}

/// The `background-attachment` CSS property.
pub fn background_attachment(value: &str) -> (p: Property)
    ensures
        p@ == (PropView { name: "background-attachment"@, value: value@ }),
{
    Property::new("background-attachment", value)
}

/// The `background-blend-mode` CSS property.
pub fn background_blend_mode(value: &str) -> (p: Property)
    ensures
        p@ == (PropView { name: "background-blend-mode"@, value: value@ }),
{
    Property::new("background-blend-mode", value)
}

/// The `background-clip` CSS property.
pub fn background_clip(value: &str) -> (p: Property)
    ensures
        p@ == (PropView { name: "background-clip"@, value: value@ }),
{
    Property::new("background-clip", value)
}

/// The `background-color` CSS property.
pub fn background_color(value: &str) -> (p: Property)
    ensures
        p@ == (PropView { name: "background-color"@, value: value@ }),
{
    Property::new("background-color", value)
}

/// The `background-image` CSS property.
pub fn background_image(value: &str) -> (p: Property)
    ensures
        p@ == (PropView { name: "background-image"@, value: value@ }),
{
    Property::new("background-image", value)
}

/// The `background-origin` CSS property.
pub fn background_origin(value: &str) -> (p: Property)
    ensures
        p@ == (PropView { name: "background-origin"@, value: value@ }),
{
    Property::new("background-origin", value)
}

/// The `background-position` CSS property.
pub fn background_position(value: &str) -> (p: Property)
    ensures
        p@ == (PropView { name: "background-position"@, value: value@ }),
{
    Property::new("background-position", value)
}

/// The `background-repeat` CSS property.
pub fn background_repeat(value: &str) -> (p: Property)
    ensures
        p@ == (PropView { name: "background-repeat"@, value: value@ }),
{
    Property::new("background-repeat", value)
}

/// The `background-size` CSS property.
pub fn background_size(value: &str) -> (p: Property)
    ensures
        p@ == (PropView { name: "background-size"@, value: value@ }),
{
    Property::new("background-size", value)
}

/// The `border` CSS property.
pub fn border(value: &str) -> (p: Property)
    ensures
        p@ == (PropView { name: "border"@, value: value@ }),
{
    Property::new("border", value)
}

/// The `border-bottom` CSS property.
pub fn border_bottom(value: &str) -> (p: Property)
    ensures
        p@ == (PropView { name: "border-bottom"@, value: value@ }),
{
    Property::new("border-bottom", value)
}

/// The `border-bottom-color` CSS property.
pub fn border_bottom_color(value: &str) -> (p: Property)
    ensures
        p@ == (PropView { name: "border-bottom-color"@, value: value@ }),
{
    Property::new("border-bottom-color", value)
}

/// The `border-bottom-left-radius` CSS property.
pub fn border_bottom_left_radius(value: &str) -> (p: Property)
    ensures
        p@ == (PropView { name: "border-bottom-left-radius"@, value: value@ }),
{
    Property::new("border-bottom-left-radius", value)
}

/// The `border-bottom-right-radius` CSS property.
pub fn border_bottom_right_radius(value: &str) -> (p: Property)
    ensures
        p@ == (PropView { name: "border-bottom-right-radius"@, value: value@ }),
{
    Property::new("border-bottom-right-radius", value)
}

/// The `border-bottom-style` CSS property.
pub fn border_bottom_style(value: &str) -> (p: Property)
    ensures
        p@ == (PropView { name: "border-bottom-style"@, value: value@ }),
{
    Property::new("border-bottom-style", value)
}

/// The `border-bottom-width` CSS property.
pub fn border_bottom_width(value: &str) -> (p: Property)
    ensures
        p@ == (PropView { name: "border-bottom-width"@, value: value@ }),
{
    Property::new("border-bottom-width", value)
}

/// The `border-collapse` CSS property.
pub fn border_collapse(value: &str) -> (p: Property)
    ensures
        p@ == (PropView { name: "border-collapse"@, value: value@ }),
{
    Property::new("border-collapse", value)
}

/// The `border-color` CSS property.
pub fn border_color(value: &str) -> (p: Property)
    ensures
        p@ == (PropView { name: "border-color"@, value: value@ }),
{
    Property::new("border-color", value)
}

/// The `border-image` CSS property.
pub fn border_image(value: &str) -> (p: Property)
    ensures
        p@ == (PropView { name: "border-image"@, value: value@ }),
{
    Property::new("border-image", value)
}

/// The `border-image-outset` CSS property.
pub fn border_image_outset(value: &str) -> (p: Property)
    ensures
        p@ == (PropView { name: "border-image-outset"@, value: value@ }),
{
    Property::new("border-image-outset", value)
}

/// The `border-image-repeat` CSS property.
pub fn border_image_repeat(value: &str) -> (p: Property)
    ensures
        p@ == (PropView { name: "border-image-repeat"@, value: value@ }),
{
    Property::new("border-image-repeat", value)
}

/// The `border-image-slice` CSS property.
pub fn border_image_slice(value: &str) -> (p: Property)
    ensures
        p@ == (PropView { name: "border-image-slice"@, value: value@ }),
{
    Property::new("border-image-slice", value)
}

/// The `border-image-source` CSS property.
pub fn border_image_source(value: &str) -> (p: Property)
    ensures
        p@ == (PropView { name: "border-image-source"@, value: value@ }),
{
    Property::new("border-image-source", value)
}

/// The `border-image-width` CSS property.
pub fn border_image_width(value: &str) -> (p: Property)
    ensures
        p@ == (PropView { name: "border-image-width"@, value: value@ }),
{
    Property::new("border-image-width", value)
}

/// The `border-left` CSS property.
pub fn border_left(value: &str) -> (p: Property)
    ensures
        p@ == (PropView { name: "border-left"@, value: value@ }),
{
    Property::new("border-left", value)
}

/// The `border-left-color` CSS property.
pub fn border_left_color(value: &str) -> (p: Property)
    ensures
        p@ == (PropView { name: "border-left-color"@, value: value@ }),
{
    Property::new("border-left-color", value)
}

/// The `border-left-style` CSS property.
pub fn border_left_style(value: &str) -> (p: Property)
    ensures
        p@ == (PropView { name: "border-left-style"@, value: value@ }),
{
    Property::new("border-left-style", value)
}

/// The `border-left-width` CSS property.
pub fn border_left_width(value: &str) -> (p: Property)
    ensures
        p@ == (PropView { name: "border-left-width"@, value: value@ }),
{
    Property::new("border-left-width", value)
}

/// The `border-radius` CSS property.
pub fn border_radius(value: &str) -> (p: Property)
    ensures
        p@ == (PropView { name: "border-radius"@, value: value@ }),
{
    Property::new("border-radius", value)
}

/// The `border-right` CSS property.
pub fn border_right(value: &str) -> (p: Property)
    ensures
        p@ == (PropView { name: "border-right"@, value: value@ }),
{
    Property::new("border-right", value)
}

/// The `border-right-color` CSS property.
pub fn border_right_color(value: &str) -> (p: Property)
    ensures
        p@ == (PropView { name: "border-right-color"@, value: value@ }),
{
    Property::new("border-right-color", value)
}

/// The `border-right-style` CSS property.
pub fn border_right_style(value: &str) -> (p: Property)
    ensures
        p@ == (PropView { name: "border-right-style"@, value: value@ }),
{
    Property::new("border-right-style", value)
}

/// The `border-right-width` CSS property.
pub fn border_right_width(value: &str) -> (p: Property)
    ensures
        p@ == (PropView { name: "border-right-width"@, value: value@ }),
{
    Property::new("border-right-width", value)
}

/// The `border-spacing` CSS property.
pub fn border_spacing(value: &str) -> (p: Property)
    ensures
        p@ == (PropView { name: "border-spacing"@, value: value@ }),
{
    Property::new("border-spacing", value)
}

/// The `border-style` CSS property.
pub fn border_style(value: &str) -> (p: Property)
    ensures
        p@ == (PropView { name: "border-style"@, value: value@ }),
{
    Property::new("border-style", value)
}

/// The `border-top` CSS property.
pub fn border_top(value: &str) -> (p: Property)
    ensures
        p@ == (PropView { name: "border-top"@, value: value@ }),
{
    Property::new("border-top", value)
}

/// The `border-top-color` CSS property.
pub fn border_top_color(value: &str) -> (p: Property)
    ensures
        p@ == (PropView { name: "border-top-color"@, value: value@ }),
{
    Property::new("border-top-color", value)
}

/// The `border-top-left-radius` CSS property.
pub fn border_top_left_radius(value: &str) -> (p: Property)
    ensures
        p@ == (PropView { name: "border-top-left-radius"@, value: value@ }),
{
    Property::new("border-top-left-radius", value)
}

/// The `border-top-right-radius` CSS property.
pub fn border_top_right_radius(value: &str) -> (p: Property)
    ensures
        p@ == (PropView { name: "border-top-right-radius"@, value: value@ }),
{
    Property::new("border-top-right-radius", value)
}

/// The `border-top-style` CSS property.
pub fn border_top_style(value: &str) -> (p: Property)
    ensures
        p@ == (PropView { name: "border-top-style"@, value: value@ }),
{
    Property::new("border-top-style", value)
}

/// The `border-top-width` CSS property.
pub fn border_top_width(value: &str) -> (p: Property)
    ensures
        p@ == (PropView { name: "border-top-width"@, value: value@ }),
{
    Property::new("border-top-width", value)
}

/// The `border-width` CSS property.
pub fn border_width(value: &str) -> (p: Property)
    ensures
        p@ == (PropView { name: "border-width"@, value: value@ }),
{
    Property::new("border-width", value)
}

/// The `bottom` CSS property.
pub fn bottom(value: &str) -> (p: Property)
    ensures
        p@ == (PropView { name: "bottom"@, value: value@ }),
{
    Property::new("bottom", value)
}

/// The `box-shadow` CSS property.
pub fn box_shadow(value: &str) -> (p: Property)
    ensures
        p@ == (PropView { name: "box-shadow"@, value: value@ }),
{
    Property::new("box-shadow", value)
}

/// The `box-sizing` CSS property.
pub fn box_sizing(value: &str) -> (p: Property)
    ensures
        p@ == (PropView { name: "box-sizing"@, value: value@ }),
{
    Property::new("box-sizing", value)
}

/// The `caption-side` CSS property.
pub fn caption_side(value: &str) -> (p: Property)
    ensures
        p@ == (PropView { name: "caption-side"@, value: value@ }),
{
    Property::new("caption-side", value)
}

/// The `caret-color` CSS property.
pub fn caret_color(value: &str) -> (p: Property)
    ensures
        p@ == (PropView { name: "caret-color"@, value: value@ }),
{
    Property::new("caret-color", value)
}

/// The `clear` CSS property.
pub fn clear(value: &str) -> (p: Property)
    ensures
        p@ == (PropView { name: "clear"@, value: value@ }),
{
    Property::new("clear", value)
}

/// The `clip` CSS property.
pub fn clip(value: &str) -> (p: Property)
    ensures
        p@ == (PropView { name: "clip"@, value: value@ }),
{
    Property::new("clip", value)
}

/// The `clip-path` CSS property.
pub fn clip_path(value: &str) -> (p: Property)
    ensures
        p@ == (PropView { name: "clip-path"@, value: value@ }),
{
    Property::new("clip-path", value)
}

/// The `color` CSS property.
pub fn color(value: &str) -> (p: Property)
    ensures
        p@ == (PropView { name: "color"@, value: value@ }),
{
    Property::new("color", value)
}

/// The `column-count` CSS property.
pub fn column_count(value: &str) -> (p: Property)
    ensures
        p@ == (PropView { name: "column-count"@, value: value@ }),
{
    Property::new("column-count", value)
}

/// The `column-fill` CSS property.
pub fn column_fill(value: &str) -> (p: Property)
    ensures
        p@ == (PropView { name: "column-fill"@, value: value@ }),
{
    Property::new("column-fill", value)
}

/// The `column-gap` CSS property.
pub fn column_gap(value: &str) -> (p: Property)
    ensures
        p@ == (PropView { name: "column-gap"@, value: value@ }),
{
    Property::new("column-gap", value)
}

/// The `column-rule` CSS property.
pub fn column_rule(value: &str) -> (p: Property)
    ensures
        p@ == (PropView { name: "column-rule"@, value: value@ }),
{
    Property::new("column-rule", value)
}

/// The `column-rule-color` CSS property.
pub fn column_rule_color(value: &str) -> (p: Property)
    ensures
        p@ == (PropView { name: "column-rule-color"@, value: value@ }),
{
    Property::new("column-rule-color", value)
}

/// The `column-rule-style` CSS property.
pub fn column_rule_style(value: &str) -> (p: Property)
    ensures
        p@ == (PropView { name: "column-rule-style"@, value: value@ }),
{
    Property::new("column-rule-style", value)
}

/// The `column-rule-width` CSS property.
pub fn column_rule_width(value: &str) -> (p: Property)
    ensures
        p@ == (PropView { name: "column-rule-width"@, value: value@ }),
{
    Property::new("column-rule-width", value)
}

/// The `column-span` CSS property.
pub fn column_span(value: &str) -> (p: Property)
    ensures
        p@ == (PropView { name: "column-span"@, value: value@ }),
{
    Property::new("column-span", value)
}

/// The `column-width` CSS property.
pub fn column_width(value: &str) -> (p: Property)
    ensures
        p@ == (PropView { name: "column-width"@, value: value@ }),
{
    Property::new("column-width", value)
}

/// The `columns` CSS property.
pub fn columns(value: &str) -> (p: Property)
    ensures
        p@ == (PropView { name: "columns"@, value: value@ }),
{
    Property::new("columns", value)
}

/// The `content` CSS property.
pub fn content(value: &str) -> (p: Property)
    ensures
        p@ == (PropView { name: "content"@, value: value@ }),
{
    Property::new("content", value)
}

/// The `counter-increment` CSS property.
pub fn counter_increment(value: &str) -> (p: Property)
    ensures
        p@ == (PropView { name: "counter-increment"@, value: value@ }),
{
    Property::new("counter-increment", value)
}

/// The `counter-reset` CSS property.
pub fn counter_reset(value: &str) -> (p: Property)
    ensures
        p@ == (PropView { name: "counter-reset"@, value: value@ }),
{
    Property::new("counter-reset", value)
}

/// The `cursor` CSS property.
pub fn cursor(value: &str) -> (p: Property)
    ensures
        p@ == (PropView { name: "cursor"@, value: value@ }),
{
    Property::new("cursor", value)
}

/// The `direction-level` CSS property.
pub fn direction_level(value: &str) -> (p: Property)
    ensures
        p@ == (PropView { name: "direction-level"@, value: value@ }),
{
    Property::new("direction-level", value)
}

/// The `display` CSS property.
pub fn display(value: &str) -> (p: Property)
    ensures
        p@ == (PropView { name: "display"@, value: value@ }),
{
    Property::new("display", value)
}

/// The `empty-cells` CSS property.
pub fn empty_cells(value: &str) -> (p: Property)
    ensures
        p@ == (PropView { name: "empty-cells"@, value: value@ }),
{
    Property::new("empty-cells", value)
}

/// The `filter` CSS property.
pub fn filter(value: &str) -> (p: Property)
    ensures
        p@ == (PropView { name: "filter"@, value: value@ }),
{
    Property::new("filter", value)
}

/// The `flex` CSS property.
pub fn flex(value: &str) -> (p: Property)
    ensures
        p@ == (PropView { name: "flex"@, value: value@ }),
{
    Property::new("flex", value)
}

/// The `flex-basis` CSS property.
pub fn flex_basis(value: &str) -> (p: Property)
    ensures
        p@ == (PropView { name: "flex-basis"@, value: value@ }),
{
    Property::new("flex-basis", value)
}

/// The `flex-direction` CSS property.
pub fn flex_direction(value: &str) -> (p: Property)
    ensures
        p@ == (PropView { name: "flex-direction"@, value: value@ }),
{
    Property::new("flex-direction", value)
}

/// The `flex-flow` CSS property.
pub fn flex_flow(value: &str) -> (p: Property)
    ensures
        p@ == (PropView { name: "flex-flow"@, value: value@ }),
{
    Property::new("flex-flow", value)
}

/// The `flex-grow` CSS property.
pub fn flex_grow(value: &str) -> (p: Property)
    ensures
        p@ == (PropView { name: "flex-grow"@, value: value@ }),
{
    Property::new("flex-grow", value)
}

/// The `flex-shrink` CSS property.
pub fn flex_shrink(value: &str) -> (p: Property)
    ensures
        p@ == (PropView { name: "flex-shrink"@, value: value@ }),
{
    Property::new("flex-shrink", value)
}

/// The `flex-wrap` CSS property.
pub fn flex_wrap(value: &str) -> (p: Property)
    ensures
        p@ == (PropView { name: "flex-wrap"@, value: value@ }),
{
    Property::new("flex-wrap", value)
}

/// The `float` CSS property.
pub fn float(value: &str) -> (p: Property)
    ensures
        p@ == (PropView { name: "float"@, value: value@ }),
{
    Property::new("float", value)
}

/// The `font` CSS property.
pub fn font(value: &str) -> (p: Property)
    ensures
        p@ == (PropView { name: "font"@, value: value@ }),
{
    Property::new("font", value)
}

/// The `font-family` CSS property.
pub fn font_family(value: &str) -> (p: Property)
    ensures
        p@ == (PropView { name: "font-family"@, value: value@ }),
{
    Property::new("font-family", value)
}

/// The `font-kerning` CSS property.
pub fn font_kerning(value: &str) -> (p: Property)
    ensures
        p@ == (PropView { name: "font-kerning"@, value: value@ }),
{
    Property::new("font-kerning", value)
}

/// The `font-size` CSS property.
pub fn font_size(value: &str) -> (p: Property)
    ensures
        p@ == (PropView { name: "font-size"@, value: value@ }),
{
    Property::new("font-size", value)
}

/// The `font-size-adjust-back` CSS property.
pub fn font_size_adjust_back(value: &str) -> (p: Property)
    ensures
        p@ == (PropView { name: "font-size-adjust-back"@, value: value@ }),
{
    Property::new("font-size-adjust-back", value)
}

/// The `font-stretch` CSS property.
pub fn font_stretch(value: &str) -> (p: Property)
    ensures
        p@ == (PropView { name: "font-stretch"@, value: value@ }),
{
    Property::new("font-stretch", value)
}

/// The `font-style` CSS property.
pub fn font_style(value: &str) -> (p: Property)
    ensures
        p@ == (PropView { name: "font-style"@, value: value@ }),
{
    Property::new("font-style", value)
}

/// The `font-variant-caps` CSS property.
pub fn font_variant_caps(value: &str) -> (p: Property)
    ensures
        p@ == (PropView { name: "font-variant-caps"@, value: value@ }),
{
    Property::new("font-variant-caps", value)
}

/// The `font-weight` CSS property.
pub fn font_weight(value: &str) -> (p: Property)
    ensures
        p@ == (PropView { name: "font-weight"@, value: value@ }),
{
    Property::new("font-weight", value)
}

/// The `grid` CSS property.
pub fn grid(value: &str) -> (p: Property)
    ensures
        p@ == (PropView { name: "grid"@, value: value@ }),
{
    Property::new("grid", value)
}

/// The `grid-area` CSS property.
pub fn grid_area(value: &str) -> (p: Property)
    ensures
        p@ == (PropView { name: "grid-area"@, value: value@ }),
{
    Property::new("grid-area", value)
}

/// The `grid-auto-columns` CSS property.
pub fn grid_auto_columns(value: &str) -> (p: Property)
    ensures
        p@ == (PropView { name: "grid-auto-columns"@, value: value@ }),
{
    Property::new("grid-auto-columns", value)
}

/// The `grid-auto-flow` CSS property.
pub fn grid_auto_flow(value: &str) -> (p: Property)
    ensures
        p@ == (PropView { name: "grid-auto-flow"@, value: value@ }),
{
    Property::new("grid-auto-flow", value)
}

/// The `grid-auto-rows` CSS property.
pub fn grid_auto_rows(value: &str) -> (p: Property)
    ensures
        p@ == (PropView { name: "grid-auto-rows"@, value: value@ }),
{
    Property::new("grid-auto-rows", value)
}

/// The `grid-column` CSS property.
pub fn grid_column(value: &str) -> (p: Property)
    ensures
        p@ == (PropView { name: "grid-column"@, value: value@ }),
{
    Property::new("grid-column", value)
}

/// The `grid-column-end-line` CSS property.
pub fn grid_column_end_line(value: &str) -> (p: Property)
    ensures
        p@ == (PropView { name: "grid-column-end-line"@, value: value@ }),
{
    Property::new("grid-column-end-line", value)
}

/// The `grid-column-gap` CSS property.
pub fn grid_column_gap(value: &str) -> (p: Property)
    ensures
        p@ == (PropView { name: "grid-column-gap"@, value: value@ }),
{
    Property::new("grid-column-gap", value)
}

/// The `grid-column-start` CSS property.
pub fn grid_column_start(value: &str) -> (p: Property)
    ensures
        p@ == (PropView { name: "grid-column-start"@, value: value@ }),
{
    Property::new("grid-column-start", value)
}

/// The `grid-gap` CSS property.
pub fn grid_gap(value: &str) -> (p: Property)
    ensures
        p@ == (PropView { name: "grid-gap"@, value: value@ }),
{
    Property::new("grid-gap", value)
}

/// The `grid-row` CSS property.
pub fn grid_row(value: &str) -> (p: Property)
    ensures
        p@ == (PropView { name: "grid-row"@, value: value@ }),
{
    Property::new("grid-row", value)
}

/// The `grid-row-end-line` CSS property.
pub fn grid_row_end_line(value: &str) -> (p: Property)
    ensures
        p@ == (PropView { name: "grid-row-end-line"@, value: value@ }),
{
    Property::new("grid-row-end-line", value)
}

/// The `grid-row-gap` CSS property.
pub fn grid_row_gap(value: &str) -> (p: Property)
    ensures
        p@ == (PropView { name: "grid-row-gap"@, value: value@ }),
{
    Property::new("grid-row-gap", value)
}

/// The `grid-row-start` CSS property.
pub fn grid_row_start(value: &str) -> (p: Property)
    ensures
        p@ == (PropView { name: "grid-row-start"@, value: value@ }),
{
    Property::new("grid-row-start", value)
}

/// The `grid-template` CSS property.
pub fn grid_template(value: &str) -> (p: Property)
    ensures
        p@ == (PropView { name: "grid-template"@, value: value@ }),
{
    Property::new("grid-template", value)
}

/// The `grid-template-areas` CSS property.
pub fn grid_template_areas(value: &str) -> (p: Property)
    ensures
        p@ == (PropView { name: "grid-template-areas"@, value: value@ }),
{
    Property::new("grid-template-areas", value)
}

/// The `grid-template-columns` CSS property.
pub fn grid_template_columns(value: &str) -> (p: Property)
    ensures
        p@ == (PropView { name: "grid-template-columns"@, value: value@ }),
{
    Property::new("grid-template-columns", value)
}

/// The `grid-template-rows` CSS property.
pub fn grid_template_rows(value: &str) -> (p: Property)
    ensures
        p@ == (PropView { name: "grid-template-rows"@, value: value@ }),
{
    Property::new("grid-template-rows", value)
}

/// The `height` CSS property.
pub fn height(value: &str) -> (p: Property)
    ensures
        p@ == (PropView { name: "height"@, value: value@ }),
{
    Property::new("height", value)
}

/// The `hyphens` CSS property.
pub fn hyphens(value: &str) -> (p: Property)
    ensures
        p@ == (PropView { name: "hyphens"@, value: value@ }),
{
    Property::new("hyphens", value)
}

/// The `justify-content` CSS property.
pub fn justify_content(value: &str) -> (p: Property)
    ensures
        p@ == (PropView { name: "justify-content"@, value: value@ }),
{
    Property::new("justify-content", value)
}

/// The `left` CSS property.
pub fn left(value: &str) -> (p: Property)
    ensures
        p@ == (PropView { name: "left"@, value: value@ }),
{
    Property::new("left", value)
}

/// The `letter-spacing` CSS property.
pub fn letter_spacing(value: &str) -> (p: Property)
    ensures
        p@ == (PropView { name: "letter-spacing"@, value: value@ }),
{
    Property::new("letter-spacing", value)
}

/// The `line-height` CSS property.
pub fn line_height(value: &str) -> (p: Property)
    ensures
        p@ == (PropView { name: "line-height"@, value: value@ }),
{
    Property::new("line-height", value)
}

/// The `list-style` CSS property.
pub fn list_style(value: &str) -> (p: Property)
    ensures
        p@ == (PropView { name: "list-style"@, value: value@ }),
{
    Property::new("list-style", value)
}

/// The `list-style-image` CSS property.
pub fn list_style_image(value: &str) -> (p: Property)
    ensures
        p@ == (PropView { name: "list-style-image"@, value: value@ }),
{
    Property::new("list-style-image", value)
}

/// The `list-style-position` CSS property.
pub fn list_style_position(value: &str) -> (p: Property)
    ensures
        p@ == (PropView { name: "list-style-position"@, value: value@ }),
{
    Property::new("list-style-position", value)
}

/// The `list-style-type` CSS property.
pub fn list_style_type(value: &str) -> (p: Property)
    ensures
        p@ == (PropView { name: "list-style-type"@, value: value@ }),
{
    Property::new("list-style-type", value)
}

/// The `margin` CSS property.
pub fn margin(value: &str) -> (p: Property)
    ensures
        p@ == (PropView { name: "margin"@, value: value@ }),
{
    Property::new("margin", value)
}

/// The `margin-bottom` CSS property.
pub fn margin_bottom(value: &str) -> (p: Property)
    ensures
        p@ == (PropView { name: "margin-bottom"@, value: value@ }),
{
    Property::new("margin-bottom", value)
}

/// The `margin-left` CSS property.
pub fn margin_left(value: &str) -> (p: Property)
    ensures
        p@ == (PropView { name: "margin-left"@, value: value@ }),
{
    Property::new("margin-left", value)
}

/// The `margin-right` CSS property.
pub fn margin_right(value: &str) -> (p: Property)
    ensures
        p@ == (PropView { name: "margin-right"@, value: value@ }),
{
    Property::new("margin-right", value)
}

/// The `margin-top` CSS property.
pub fn margin_top(value: &str) -> (p: Property)
    ensures
        p@ == (PropView { name: "margin-top"@, value: value@ }),
{
    Property::new("margin-top", value)
}

/// The `max-height` CSS property.
pub fn max_height(value: &str) -> (p: Property)
    ensures
        p@ == (PropView { name: "max-height"@, value: value@ }),
{
    Property::new("max-height", value)
}

/// The `max-width` CSS property.
pub fn max_width(value: &str) -> (p: Property)
    ensures
        p@ == (PropView { name: "max-width"@, value: value@ }),
{
    Property::new("max-width", value)
}

/// The `min-height` CSS property.
pub fn min_height(value: &str) -> (p: Property)
    ensures
        p@ == (PropView { name: "min-height"@, value: value@ }),
{
    Property::new("min-height", value)
}

/// The `min-width` CSS property.
pub fn min_width(value: &str) -> (p: Property)
    ensures
        p@ == (PropView { name: "min-width"@, value: value@ }),
{
    Property::new("min-width", value)
}

/// The `object-fit` CSS property.
pub fn object_fit(value: &str) -> (p: Property)
    ensures
        p@ == (PropView { name: "object-fit"@, value: value@ }),
{
    Property::new("object-fit", value)
}

/// The `object-position` CSS property.
pub fn object_position(value: &str) -> (p: Property)
    ensures
        p@ == (PropView { name: "object-position"@, value: value@ }),
{
    Property::new("object-position", value)
}

/// The `opacity` CSS property.
pub fn opacity(value: &str) -> (p: Property)
    ensures
        p@ == (PropView { name: "opacity"@, value: value@ }),
{
    Property::new("opacity", value)
}

/// The `order` CSS property.
pub fn order(value: &str) -> (p: Property)
    ensures
        p@ == (PropView { name: "order"@, value: value@ }),
{
    Property::new("order", value)
}

/// The `outline` CSS property.
pub fn outline(value: &str) -> (p: Property)
    ensures
        p@ == (PropView { name: "outline"@, value: value@ }),
{
    Property::new("outline", value)
}

/// The `outline-color` CSS property.
pub fn outline_color(value: &str) -> (p: Property)
    ensures
        p@ == (PropView { name: "outline-color"@, value: value@ }),
{
    Property::new("outline-color", value)
}

/// The `outline-offset` CSS property.
pub fn outline_offset(value: &str) -> (p: Property)
    ensures
        p@ == (PropView { name: "outline-offset"@, value: value@ }),
{
    Property::new("outline-offset", value)
}

/// The `outline-style` CSS property.
pub fn outline_style(value: &str) -> (p: Property)
    ensures
        p@ == (PropView { name: "outline-style"@, value: value@ }),
{
    Property::new("outline-style", value)
}

/// The `outline-width` CSS property.
pub fn outline_width(value: &str) -> (p: Property)
    ensures
        p@ == (PropView { name: "outline-width"@, value: value@ }),
{
    Property::new("outline-width", value)
}

/// The `overflow` CSS property.
pub fn overflow(value: &str) -> (p: Property)
    ensures
        p@ == (PropView { name: "overflow"@, value: value@ }),
{
    Property::new("overflow", value)
}

/// The `overflow-x` CSS property.
pub fn overflow_x(value: &str) -> (p: Property)
    ensures
        p@ == (PropView { name: "overflow-x"@, value: value@ }),
{
    Property::new("overflow-x", value)
}

/// The `overflow-y` CSS property.
pub fn overflow_y(value: &str) -> (p: Property)
    ensures
        p@ == (PropView { name: "overflow-y"@, value: value@ }),
{
    Property::new("overflow-y", value)
}

/// The `padding` CSS property.
pub fn padding(value: &str) -> (p: Property)
    ensures
        p@ == (PropView { name: "padding"@, value: value@ }),
{
    Property::new("padding", value)
}

/// The `padding-bottom` CSS property.
pub fn padding_bottom(value: &str) -> (p: Property)
    ensures
        p@ == (PropView { name: "padding-bottom"@, value: value@ }),
{
    Property::new("padding-bottom", value)
}

/// The `padding-left` CSS property.
pub fn padding_left(value: &str) -> (p: Property)
    ensures
        p@ == (PropView { name: "padding-left"@, value: value@ }),
{
    Property::new("padding-left", value)
}

/// The `padding-right` CSS property.
pub fn padding_right(value: &str) -> (p: Property)
    ensures
        p@ == (PropView { name: "padding-right"@, value: value@ }),
{
    Property::new("padding-right", value)
}

/// The `padding-top` CSS property.
pub fn padding_top(value: &str) -> (p: Property)
    ensures
        p@ == (PropView { name: "padding-top"@, value: value@ }),
{
    Property::new("padding-top", value)
}

/// The `page-break-after-break` CSS property.
pub fn page_break_after_break(value: &str) -> (p: Property)
    ensures
        p@ == (PropView { name: "page-break-after-break"@, value: value@ }),
{
    Property::new("page-break-after-break", value)
}

/// The `page-break-before-break` CSS property.
pub fn page_break_before_break(value: &str) -> (p: Property)
    ensures
        p@ == (PropView { name: "page-break-before-break"@, value: value@ }),
{
    Property::new("page-break-before-break", value)
}

/// The `page-break-inside-break` CSS property.
pub fn page_break_inside_break(value: &str) -> (p: Property)
    ensures
        p@ == (PropView { name: "page-break-inside-break"@, value: value@ }),
{
    Property::new("page-break-inside-break", value)
}

/// The `perspective-positioned` CSS property.
pub fn perspective_positioned(value: &str) -> (p: Property)
    ensures
        p@ == (PropView { name: "perspective-positioned"@, value: value@ }),
{
    Property::new("perspective-positioned", value)
}

/// The `perspective-origin-positioned` CSS property.
pub fn perspective_origin_positioned(value: &str) -> (p: Property)
    ensures
        p@ == (PropView { name: "perspective-origin-positioned"@, value: value@ }),
{
    Property::new("perspective-origin-positioned", value)
}

/// The `pointer-events` CSS property.
pub fn pointer_events(value: &str) -> (p: Property)
    ensures
        p@ == (PropView { name: "pointer-events"@, value: value@ }),
{
    Property::new("pointer-events", value)
}

/// The `position` CSS property.
pub fn position(value: &str) -> (p: Property)
    ensures
        p@ == (PropView { name: "position"@, value: value@ }),
{
    Property::new("position", value)
}

/// The `quotes` CSS property.
pub fn quotes(value: &str) -> (p: Property)
    ensures
        p@ == (PropView { name: "quotes"@, value: value@ }),
{
    Property::new("quotes", value)
}

/// The `right` CSS property.
pub fn right(value: &str) -> (p: Property)
    ensures
        p@ == (PropView { name: "right"@, value: value@ }),
{
    Property::new("right", value)
}

/// The `scroll-behavior` CSS property.
pub fn scroll_behavior(value: &str) -> (p: Property)
    ensures
        p@ == (PropView { name: "scroll-behavior"@, value: value@ }),
{
    Property::new("scroll-behavior", value)
}

/// The `table-layout` CSS property.
pub fn table_layout(value: &str) -> (p: Property)
    ensures
        p@ == (PropView { name: "table-layout"@, value: value@ }),
{
    Property::new("table-layout", value)
}

/// The `text-align` CSS property.
pub fn text_align(value: &str) -> (p: Property)
    ensures
        p@ == (PropView { name: "text-align"@, value: value@ }),
{
    Property::new("text-align", value)
}

/// The `text-align-last` CSS property.
pub fn text_align_last(value: &str) -> (p: Property)
    ensures
        p@ == (PropView { name: "text-align-last"@, value: value@ }),
{
    Property::new("text-align-last", value)
}

/// The `text-decoration` CSS property.
pub fn text_decoration(value: &str) -> (p: Property)
    ensures
        p@ == (PropView { name: "text-decoration"@, value: value@ }),
{
    Property::new("text-decoration", value)
}

/// The `text-decoration-color` CSS property.
pub fn text_decoration_color(value: &str) -> (p: Property)
    ensures
        p@ == (PropView { name: "text-decoration-color"@, value: value@ }),
{
    Property::new("text-decoration-color", value)
}

/// The `text-decoration-line` CSS property.
pub fn text_decoration_line(value: &str) -> (p: Property)
    ensures
        p@ == (PropView { name: "text-decoration-line"@, value: value@ }),
{
    Property::new("text-decoration-line", value)
}

/// The `text-decoration-style` CSS property.
pub fn text_decoration_style(value: &str) -> (p: Property)
    ensures
        p@ == (PropView { name: "text-decoration-style"@, value: value@ }),
{
    Property::new("text-decoration-style", value)
}

/// The `text-indent` CSS property.
pub fn text_indent(value: &str) -> (p: Property)
    ensures
        p@ == (PropView { name: "text-indent"@, value: value@ }),
{
    Property::new("text-indent", value)
}

/// The `text-justify` CSS property.
pub fn text_justify(value: &str) -> (p: Property)
    ensures
        p@ == (PropView { name: "text-justify"@, value: value@ }),
{
    Property::new("text-justify", value)
}

/// The `text-overflow` CSS property.
pub fn text_overflow(value: &str) -> (p: Property)
    ensures
        p@ == (PropView { name: "text-overflow"@, value: value@ }),
{
    Property::new("text-overflow", value)
}

/// The `text-shadow` CSS property.
pub fn text_shadow(value: &str) -> (p: Property)
    ensures
        p@ == (PropView { name: "text-shadow"@, value: value@ }),
{
    Property::new("text-shadow", value)
}

/// The `text-transform` CSS property.
pub fn text_transform(value: &str) -> (p: Property)
    ensures
        p@ == (PropView { name: "text-transform"@, value: value@ }),
{
    Property::new("text-transform", value)
}

/// The `top` CSS property.
pub fn top(value: &str) -> (p: Property)
    ensures
        p@ == (PropView { name: "top"@, value: value@ }),
{
    Property::new("top", value)
}

/// The `transform` CSS property.
pub fn transform(value: &str) -> (p: Property)
    ensures
        p@ == (PropView { name: "transform"@, value: value@ }),
{
    Property::new("transform", value)
}

/// The `transform-origin` CSS property.
pub fn transform_origin(value: &str) -> (p: Property)
    ensures
        p@ == (PropView { name: "transform-origin"@, value: value@ }),
{
    Property::new("transform-origin", value)
}

/// The `transform-style` CSS property.
pub fn transform_style(value: &str) -> (p: Property)
    ensures
        p@ == (PropView { name: "transform-style"@, value: value@ }),
{
    Property::new("transform-style", value)
}

/// The `transition` CSS property.
pub fn transition(value: &str) -> (p: Property)
    ensures
        p@ == (PropView { name: "transition"@, value: value@ }),
{
    Property::new("transition", value)
}

/// The `transition-delay` CSS property.
pub fn transition_delay(value: &str) -> (p: Property)
    ensures
        p@ == (PropView { name: "transition-delay"@, value: value@ }),
{
    Property::new("transition-delay", value)
}

/// The `transition-duration` CSS property.
pub fn transition_duration(value: &str) -> (p: Property)
    ensures
        p@ == (PropView { name: "transition-duration"@, value: value@ }),
{
    Property::new("transition-duration", value)
}

/// The `transition-property` CSS property.
pub fn transition_property(value: &str) -> (p: Property)
    ensures
        p@ == (PropView { name: "transition-property"@, value: value@ }),
{
    Property::new("transition-property", value)
}

/// The `transition-timing-function` CSS property.
pub fn transition_timing_function(value: &str) -> (p: Property)
    ensures
        p@ == (PropView { name: "transition-timing-function"@, value: value@ }),
{
    Property::new("transition-timing-function", value)
}

/// The `user-select` CSS property.
pub fn user_select(value: &str) -> (p: Property)
    ensures
        p@ == (PropView { name: "user-select"@, value: value@ }),
{
    Property::new("user-select", value)
}

/// The `vertical-align` CSS property.
pub fn vertical_align(value: &str) -> (p: Property)
    ensures
        p@ == (PropView { name: "vertical-align"@, value: value@ }),
{
    Property::new("vertical-align", value)
}

/// The `visibility` CSS property.
pub fn visibility(value: &str) -> (p: Property)
    ensures
        p@ == (PropView { name: "visibility"@, value: value@ }),
{
    Property::new("visibility", value)
}

/// The `white-space-space` CSS property.
pub fn white_space_space(value: &str) -> (p: Property)
    ensures
        p@ == (PropView { name: "white-space-space"@, value: value@ }),
{
    Property::new("white-space-space", value)
}

/// The `width` CSS property.
pub fn width(value: &str) -> (p: Property)
    ensures
        p@ == (PropView { name: "width"@, value: value@ }),
{
    Property::new("width", value)
}

/// The `word-break` CSS property.
pub fn word_break(value: &str) -> (p: Property)
    ensures
        p@ == (PropView { name: "word-break"@, value: value@ }),
{
    Property::new("word-break", value)
}

/// The `word-spacing` CSS property.
pub fn word_spacing(value: &str) -> (p: Property)
    ensures
        p@ == (PropView { name: "word-spacing"@, value: value@ }),
{
    Property::new("word-spacing", value)
}

/// The `word-wrap` CSS property.
pub fn word_wrap(value: &str) -> (p: Property)
    ensures
        p@ == (PropView { name: "word-wrap"@, value: value@ }),
{
    Property::new("word-wrap", value)
}

/// The `writing-mode` CSS property.
pub fn writing_mode(value: &str) -> (p: Property)
    ensures
        p@ == (PropView { name: "writing-mode"@, value: value@ }),
{
    Property::new("writing-mode", value)
}

/// The `z-index` CSS property.
pub fn z_index(value: &str) -> (p: Property)
    ensures
        p@ == (PropView { name: "z-index"@, value: value@ }),
{
    Property::new("z-index", value)
}

} // verus!
