use html_dsl::attr;
use html_dsl::attr::{custom, Attribute};
use html_dsl::css;
use html_dsl::css::CssProp;
use html_dsl::nodes;
use html_dsl::nodes::{
    AttributableNode, Child, ContainerElement, Node, ParentNode, StylableNode, Text, VoidElement,
};
use html_dsl::remove_whitespace;

#[test]
fn empty_container_kinds() {
    assert_eq!(nodes::div().to_string(), "<div></div>");
    assert_eq!(nodes::p().to_string(), "<p></p>");
    assert_eq!(nodes::html().to_string(), "<html></html>");
    assert_eq!(nodes::body().to_string(), "<body></body>");
    assert_eq!(nodes::h1().to_string(), "<h1></h1>");
    assert_eq!(nodes::h6().to_string(), "<h6></h6>");
    assert_eq!(nodes::blockquote().to_string(), "<blockquote></blockquote>");
    assert_eq!(nodes::option().to_string(), "<option></option>");
}

#[test]
fn empty_void_kinds() {
    assert_eq!(nodes::br().to_string(), "<br>");
    assert_eq!(nodes::img().to_string(), "<img>");
    assert_eq!(nodes::meta().to_string(), "<meta>");
    assert_eq!(nodes::hr().to_string(), "<hr>");
    assert_eq!(nodes::wbr().to_string(), "<wbr>");
}

#[test]
fn custom_element_names() {
    assert_eq!(ContainerElement::new("widget").to_string(), "<widget></widget>");
    assert_eq!(VoidElement::new("probe").to_string(), "<probe>");
}

#[test]
fn attribute_tokens() {
    assert_eq!(attr::charset("utf-8").to_string(), "charset=\"utf-8\"");
    assert_eq!(attr::accept_charset("utf-8").to_string(), "accept-charset=\"utf-8\"");
    assert_eq!(attr::http_equiv("refresh").to_string(), "http-equiv=\"refresh\"");
    assert_eq!(attr::lang("en").to_string(), "lang=\"en\"");
    assert_eq!(attr::class("").to_string(), "class=\"\"");
    assert_eq!(attr::type_("text").to_string(), "type=\"text\"");
    assert_eq!(attr::for_("name").to_string(), "for=\"name\"");
    assert_eq!(attr::value("7").to_string(), "value=\"7\"");
}

#[test]
fn custom_attribute_tokens() {
    assert_eq!(custom("data-x", "1").to_string(), "data-x=\"1\"");
    assert_eq!(custom("x", "").to_string(), "x=\"\"");
}

#[test]
fn css_property_tokens() {
    assert_eq!(css::color("red").to_string(), "color: red;");
    assert_eq!(css::font_family("monospace").to_string(), "font-family: monospace;");
    assert_eq!(css::background_color("#fff").to_string(), "background-color: #fff;");
    assert_eq!(css::z_index("3").to_string(), "z-index: 3;");
    assert_eq!(css::float("left").to_string(), "float: left;");
}

#[test]
fn attribute_order_is_preserved() {
    let mut d = nodes::div();
    d.attribute(attr::class("a"));
    d.attribute(attr::id("b"));
    assert_eq!(d.to_string(), "<div class=\"a\" id=\"b\"></div>");
}

#[test]
fn duplicate_attributes_both_render() {
    let mut d = nodes::div();
    d.attribute(attr::class("a"));
    d.attribute(attr::class("b"));
    assert_eq!(d.to_string(), "<div class=\"a\" class=\"b\"></div>");
}

#[test]
fn style_tokens_concatenate_in_order() {
    let mut style = css::Style::new();
    style.with_prop(css::color("red"));
    style.with_prop(css::font_size("14pt"));
    assert_eq!(style.to_string(), "color: red;font-size: 14pt;");
}

#[test]
fn duplicate_style_properties_both_render() {
    let mut style = css::Style::new();
    style.with_prop(css::color("red"));
    style.with_prop(css::color("blue"));
    assert_eq!(style.to_string(), "color: red;color: blue;");
}

#[test]
fn second_style_replaces_first() {
    let mut d = nodes::div();
    let mut first = css::Style::new();
    first.with_prop(css::color("red"));
    let mut second = css::Style::new();
    second.with_prop(css::font_size("14pt"));
    d.style(first);
    d.style(second);
    assert_eq!(d.to_string(), "<div style=\"font-size: 14pt;\"></div>");
}

#[test]
fn style_renders_after_attributes_whatever_the_call_order() {
    let mut p = nodes::p();
    let mut style = css::Style::new();
    style.with_prop(css::color("red"));
    p.style(style);
    p.attribute(attr::class("x"));
    assert_eq!(p.to_string(), "<p class=\"x\" style=\"color: red;\"></p>");
}

#[test]
fn void_element_with_style() {
    let mut b = nodes::br();
    let mut style = css::Style::new();
    style.with_prop(css::color("red"));
    b.style(style);
    assert_eq!(b.to_string(), "<br style=\"color: red;\">");
}

#[test]
fn text_renders_verbatim() {
    assert_eq!(Text::new("a < b & c").to_string(), "a < b & c");
    assert_eq!(Text::new("").to_string(), "");
}

#[test]
fn child_sum_keeps_the_serialization() {
    let mut d = nodes::div();
    d.child(Text::new("x").into_child());
    let c: Child = d.into_child();
    assert_eq!(c.to_string(), "<div>x</div>");
}

#[test]
fn paragraph_with_style_and_text() {
    let mut p = nodes::p();
    let mut style = css::Style::new();
    style.with_prop(css::font_size("14pt"));
    p.style(style);
    p.child(Text::new("This is some paragraph text."));
    assert_eq!(
        p.to_string(),
        "<p style=\"font-size: 14pt;\">This is some paragraph text.</p>"
    );
}

#[test]
fn meta_with_charset() {
    let mut m = nodes::meta();
    m.attribute(attr::charset("utf-8"));
    assert_eq!(m.to_string(), "<meta charset=\"utf-8\">");
}

#[test]
fn nested_containers() {
    let mut heading = nodes::h4();
    let mut heading_style = css::Style::new();
    heading_style.with_prop(css::color("red"));
    heading_style.with_prop(css::font_family("monospace"));
    heading.style(heading_style);
    heading.child(Text::new("Heading"));

    let mut d = nodes::div();
    d.child(heading);
    let mut b = nodes::body();
    b.child(d);
    let mut page = nodes::html();
    page.attribute(attr::lang("en"));
    page.child(b);

    assert_eq!(
        page.to_string(),
        "<html lang=\"en\"><body><div><h4 style=\"color: red;font-family: monospace;\">\
         Heading</h4></div></body></html>"
    );
}

#[test]
fn remove_whitespace_strips_every_whitespace_character() {
    assert_eq!(remove_whitespace("accept - charset"), "accept-charset");
    assert_eq!(remove_whitespace("  a \t b\nc "), "abc");
    assert_eq!(remove_whitespace(""), "");
    assert_eq!(remove_whitespace(" \t\n"), "");
    assert_eq!(remove_whitespace("plain"), "plain");
}
