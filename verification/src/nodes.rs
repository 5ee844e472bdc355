//! The node tree: leaf text, void elements and container elements, and the
//! serializer that turns a tree into HTML text.

use vstd::prelude::*;
use vstd::string::StringExecFns;

use crate::attr::{spec_attr_token, AttrView, Attribute, Custom};
use crate::css::{spec_prop_tokens, PropView, Style};

verus! {

/// The mathematical model of a node: a leaf of raw text, a void element
/// (never any children) or a container element with ordered children.
pub enum NodeView {
    Text { text: Seq<char> },
    Void { name: Seq<char>, attributes: Seq<AttrView>, style: Option<Seq<PropView>> },
    Container {
        name: Seq<char>,
        attributes: Seq<AttrView>,
        style: Option<Seq<PropView>>,
        children: Seq<NodeView>,
    },
}

/// The serialized attribute list: one space before each attribute token, in
/// insertion order.
pub open spec fn spec_attr_tokens(attrs: Seq<AttrView>) -> Seq<char>
    decreases attrs.len(),
{
    if attrs.len() == 0 {
        Seq::empty()
    } else {
        spec_attr_tokens(attrs.drop_last()) + " "@ + spec_attr_token(attrs.last())
    }
}

/// The serialized style block: ` style="..."` when a style is set, nothing
/// otherwise.
pub open spec fn spec_style_block(style: Option<Seq<PropView>>) -> Seq<char> {
    match style {
        Option::None => Seq::empty(),
        Option::Some(props) => " style=\""@ + spec_prop_tokens(props) + "\""@,
    }
}

/// The serialized opening tag: `<name`, the attribute list, the style block,
/// then `>`.
pub open spec fn spec_open_tag(
    name: Seq<char>,
    attrs: Seq<AttrView>,
    style: Option<Seq<PropView>>,
) -> Seq<char> {
    "<"@ + name + spec_attr_tokens(attrs) + spec_style_block(style) + ">"@
}

/// The serialized form of a node: text verbatim for a leaf, the opening tag
/// alone for a void element, and opening tag, children in order and closing
/// tag for a container.
pub open spec fn render(n: NodeView) -> Seq<char>
    decreases n,
{
    match n {
        NodeView::Text { text } => text,
        NodeView::Void { name, attributes, style } => spec_open_tag(name, attributes, style),
        NodeView::Container { name, attributes, style, children } => spec_open_tag(
            name,
            attributes,
            style,
        ) + render_seq(children) + "</"@ + name + ">"@,
    }
}

/// The concatenated serialization of a sequence of nodes, in order.
pub open spec fn render_seq(children: Seq<NodeView>) -> Seq<char>
    decreases children,
{
    if children.len() == 0 {
        Seq::empty()
    } else {
        render_seq(children.drop_last()) + render(children.last())
    }
}

/// Appending a child to a container's model.
pub open spec fn spec_add_child(n: NodeView, c: NodeView) -> NodeView {
    match n {
        NodeView::Container { name, attributes, style, children } => NodeView::Container {
            name,
            attributes,
            style,
            children: children.push(c),
        },
        _ => n,
    }
}

/// Appending an attribute to an element's model.
pub open spec fn spec_add_attr(n: NodeView, a: AttrView) -> NodeView {
    match n {
        NodeView::Void { name, attributes, style } => NodeView::Void {
            name,
            attributes: attributes.push(a),
            style,
        },
        NodeView::Container { name, attributes, style, children } => NodeView::Container {
            name,
            attributes: attributes.push(a),
            style,
            children,
        },
        NodeView::Text { .. } => n,
    }
}

/// Replacing an element's style block in its model: the previous block, if
/// any, is discarded whole.
pub open spec fn spec_set_style(n: NodeView, props: Seq<PropView>) -> NodeView {
    match n {
        NodeView::Void { name, attributes, style } => NodeView::Void {
            name,
            attributes,
            style: Option::Some(props),
        },
        NodeView::Container { name, attributes, style, children } => NodeView::Container {
            name,
            attributes,
            style: Option::Some(props),
            children,
        },
        NodeView::Text { .. } => n,
    }
}

/// The views of a sequence of attributes, in order.
pub open spec fn attr_views(attrs: Seq<Custom>) -> Seq<AttrView> {
    Seq::new(attrs.len(), |i: int| attrs[i]@)
}

/// The view of an optional style block.
pub open spec fn style_views(css_props: Option<Style>) -> Option<Seq<PropView>> {
    match css_props {
        Option::None => Option::None,
        Option::Some(s) => Option::Some(s@),
    }
}

/// The capability of serializing to an HTML fragment.
pub trait Node {
    /// The node as a value of the mathematical tree model.
    spec fn model(&self) -> NodeView;

    /// Serializes the node, depth first; the output is pinned by `render`.
    fn to_string(&self) -> (s: String)
        ensures
            s@ == render(self.model()),
    ;

    /// Wraps the node into the closed sum of node kinds, keeping its model.
    fn into_child(self) -> (c: Child)
        ensures
            c@ == self.model(),
    ;
}

/// The capability of holding an ordered sequence of child nodes.
pub trait ParentNode: Node {
    /// Appends one child; every other part of the node is unchanged.
    fn child<N: Node>(&mut self, child: N)
        ensures
            final(self).model() == spec_add_child(old(self).model(), child.model()),
    ;
}

/// The capability of carrying a style block.
pub trait StylableNode: Node {
    /// Sets the style block, replacing a previously set one whole; every
    /// other part of the node is unchanged.
    fn style(&mut self, style: Style)
        ensures
            final(self).model() == spec_set_style(old(self).model(), style@),
    ;
}

/// The capability of carrying attributes.
pub trait AttributableNode: Node {
    /// Appends one attribute, with no de-duplication; every other part of
    /// the node is unchanged.
    fn attribute(&mut self, attribute: Custom)
        ensures
            final(self).model() == spec_add_attr(old(self).model(), attribute@),
    ;
}

/// A leaf node holding raw text, emitted verbatim.
pub struct Text {
    value: String,
}

impl View for Text {
    type V = Seq<char>;

    closed spec fn view(&self) -> Seq<char> {
        self.value@
    }
}

impl Text {
    /// A leaf holding the given text.
    pub fn new(value: &str) -> (t: Text)
        ensures
            t@ == value@,
    {
        Text { value: value.to_owned() }
    }
}

/// An element that never carries children, such as a line break or an image.
///
/// There is no child-adding operation on this type at all, so no program
/// state can put a child under a void element.
pub struct VoidElement {
    name: String,
    attributes: Vec<Custom>,
    css_props: Option<Style>,
}

/// An element holding an ordered sequence of child nodes.
pub struct ContainerElement {
    name: String,
    attributes: Vec<Custom>,
    css_props: Option<Style>,
    children: Vec<Child>,
}

/// The closed sum of node kinds: every node of a document tree is a leaf, a
/// void element or a container element.
pub enum Child {
    Text(Text),
    Void(VoidElement),
    Container(ContainerElement),
}

impl View for VoidElement {
    type V = NodeView;

    closed spec fn view(&self) -> NodeView {
        NodeView::Void {
            name: self.name@,
            attributes: attr_views(self.attributes@),
            style: style_views(self.css_props),
        }
    }
}

/// The models of a sequence of child nodes, in order.
pub closed spec fn child_views(children: Seq<Child>) -> Seq<NodeView>
    decreases children,
    via child_views_decreases
{
    if children.len() == 0 {
        Seq::empty()
    } else {
        child_views(children.drop_last()).push(children.last().spec_view())
    }
}

#[via_fn]
proof fn child_views_decreases(children: Seq<Child>) {
    if children.len() > 0 {
        assert(children.drop_last() =~= children.subrange(0, children.len() - 1));
        assert(decreases_to!(children => children.subrange(0, children.len() - 1)));
        assert(children.last() == children[children.len() - 1]);
        assert(decreases_to!(children => children[children.len() - 1]));
    }
}

/// The length and the entries of `child_views`, stated index by index.
pub proof fn lemma_child_views(children: Seq<Child>)
    ensures
        child_views(children).len() == children.len(),
        forall|i: int|
            0 <= i < children.len() ==> #[trigger] child_views(children)[i]
                == children[i].spec_view(),
    decreases children.len(),
{
    if children.len() > 0 {
        lemma_child_views(children.drop_last());
    }
}

impl ContainerElement {
    /// The model of the element, taken recursively over its children.
    pub closed spec fn spec_view(&self) -> NodeView
        decreases *self,
    {
        proof {
            assert(decreases_to!(*self => self.children));
            assert(decreases_to!(self.children => self.children@));
        }
        NodeView::Container {
            name: self.name@,
            attributes: attr_views(self.attributes@),
            style: style_views(self.css_props),
            children: child_views(self.children@),
        }
    }
}

impl View for ContainerElement {
    type V = NodeView;

    open spec fn view(&self) -> NodeView {
        self.spec_view()
    }
}

impl Child {
    /// The model of the node, taken recursively for a container.
    pub closed spec fn spec_view(&self) -> NodeView
        decreases *self,
    {
        match self {
            Child::Text(t) => NodeView::Text { text: t@ },
            Child::Void(v) => v@,
            Child::Container(c) => c.spec_view(),
        }
    }
}

impl View for Child {
    type V = NodeView;

    open spec fn view(&self) -> NodeView {
        self.spec_view()
    }
}

/// Builds the opening tag of an element: `<name`, one space and one token for
/// each attribute in order, the style block if one is set, then `>`.
fn open_tag_string(name: &String, attributes: &Vec<Custom>, css_props: &Option<Style>) -> (s: String)
    ensures
        s@ == spec_open_tag(name@, attr_views(attributes@), style_views(*css_props)),
{
    let mut s = String::new();
    s.append("<");
    s.append(name.as_str());
    let ghost views = attr_views(attributes@);
    let mut i: usize = 0;
    proof {
        assert(views.take(0int) =~= Seq::<AttrView>::empty());
        assert(s@ =~= "<"@ + name@ + spec_attr_tokens(views.take(0int)));
    }
    while i < attributes.len()
        invariant
            i <= attributes@.len(),
            views == attr_views(attributes@),
            s@ == "<"@ + name@ + spec_attr_tokens(views.take(i as int)),
        decreases attributes@.len() - i,
    {
        s.append(" ");
        let token = attributes[i].to_string();
        s.append(token.as_str());
        proof {
            assert(views.take(i + 1int).drop_last() =~= views.take(i as int));
            assert(views.take(i + 1int).last() == attributes@[i as int]@);
            assert(s@ =~= "<"@ + name@ + spec_attr_tokens(views.take(i + 1int)));
        }
        i = i + 1;
    }
    proof {
        assert(views.take(attributes@.len() as int) =~= views);
    }
    match css_props {
        Option::None => {},
        Option::Some(style) => {
            s.append(" style=\"");
            let block = style.to_string();
            s.append(block.as_str());
            s.append("\"");
        },
    }
    s.append(">");
    proof {
        assert(s@ =~= spec_open_tag(name@, attr_views(attributes@), style_views(*css_props)));
    }
    s
}

/// Serializes one node, depth first.
fn render_child(child: &Child) -> (s: String)
    ensures
        s@ == render(child@),
    decreases *child,
{
    match child {
        Child::Text(t) => t.value.clone(),
        Child::Void(v) => open_tag_string(&v.name, &v.attributes, &v.css_props),
        Child::Container(c) => render_container(c),
    }
}

/// Serializes a container element: opening tag, each child in order, then the
/// closing tag.
fn render_container(e: &ContainerElement) -> (s: String)
    ensures
        s@ == render(e.spec_view()),
    decreases *e,
{
    let mut s = open_tag_string(&e.name, &e.attributes, &e.css_props);
    let ghost views = child_views(e.children@);
    let ghost tag = spec_open_tag(e.name@, attr_views(e.attributes@), style_views(e.css_props));
    let mut i: usize = 0;
    proof {
        lemma_child_views(e.children@);
        assert(views.take(0int) =~= Seq::<NodeView>::empty());
        assert(s@ =~= tag + render_seq(views.take(0int)));
    }
    while i < e.children.len()
        invariant
            i <= e.children@.len(),
            views == child_views(e.children@),
            views.len() == e.children@.len(),
            tag == spec_open_tag(e.name@, attr_views(e.attributes@), style_views(e.css_props)),
            s@ == tag + render_seq(views.take(i as int)),
        decreases e.children@.len() - i,
    {
        let rendered = render_child(&e.children[i]);
        s.append(rendered.as_str());
        proof {
            lemma_child_views(e.children@);
            assert(views.take(i + 1int).drop_last() =~= views.take(i as int));
            assert(views.take(i + 1int).last() == e.children@[i as int].spec_view());
            assert(s@ =~= tag + render_seq(views.take(i + 1int)));
        }
        i = i + 1;
    }
    proof {
        assert(views.take(e.children@.len() as int) =~= views);
    }
    s.append("</");
    s.append(e.name.as_str());
    s.append(">");
    proof {
        assert(s@ =~= render(e.spec_view()));
    }
    s
}

/// A freshly built container element, with no attributes, no style and no
/// children, serializes to exactly `<name></name>`.
pub proof fn lemma_empty_container(name: Seq<char>)
    ensures
        render(
            NodeView::Container {
                name,
                attributes: Seq::empty(),
                style: Option::None,
                children: Seq::empty(),
            },
        ) == "<"@ + name + ">"@ + "</"@ + name + ">"@,
{
    let n = NodeView::Container {
        name,
        attributes: Seq::empty(),
        style: Option::None,
        children: Seq::empty(),
    };
    assert(spec_attr_tokens(Seq::empty()) == Seq::<char>::empty());
    assert(render_seq(Seq::empty()) == Seq::<char>::empty());
    assert(render(n) =~= "<"@ + name + ">"@ + "</"@ + name + ">"@);
}

/// A freshly built void element, with no attributes and no style, serializes
/// to exactly `<name>`: the opening tag alone, with no closing tag.
pub proof fn lemma_empty_void(name: Seq<char>)
    ensures
        render(NodeView::Void { name, attributes: Seq::empty(), style: Option::None }) == "<"@
            + name + ">"@,
{
    let n = NodeView::Void { name, attributes: Seq::empty(), style: Option::None };
    assert(spec_attr_tokens(Seq::empty()) == Seq::<char>::empty());
    assert(render(n) =~= "<"@ + name + ">"@);
}

/// Attribute order is preserved: when a1 is added before a2, the serialized
/// attribute list holds a1's token strictly before a2's token.
pub proof fn lemma_attr_order(attrs: Seq<AttrView>, a1: AttrView, a2: AttrView)
    ensures
        spec_attr_tokens(attrs.push(a1).push(a2)) == spec_attr_tokens(attrs) + " "@
            + spec_attr_token(a1) + " "@ + spec_attr_token(a2),
{
    reveal_with_fuel(spec_attr_tokens, 3);
    assert(attrs.push(a1).push(a2).drop_last() =~= attrs.push(a1));
    assert(attrs.push(a1).push(a2).last() == a2);
    assert(attrs.push(a1).drop_last() =~= attrs);
    assert(attrs.push(a1).last() == a1);
    assert(spec_attr_tokens(attrs.push(a1)) == spec_attr_tokens(attrs) + " "@ + spec_attr_token(
        a1,
    ));
    assert(spec_attr_tokens(attrs.push(a1).push(a2)) =~= spec_attr_tokens(attrs) + " "@
        + spec_attr_token(a1) + " "@ + spec_attr_token(a2));
}

/// Setting a style replaces any style set before: after two calls only the
/// second style's properties are left in the model, whatever was set first.
pub proof fn lemma_style_replace(n: NodeView, s1: Seq<PropView>, s2: Seq<PropView>)
    ensures
        spec_set_style(spec_set_style(n, s1), s2) == spec_set_style(n, s2),
{
}

/// A void element's serialization is its opening tag alone: no child output
/// can ever follow it, and its model has no place for children at all.
pub proof fn lemma_void_has_no_children(name: Seq<char>, attrs: Seq<AttrView>, style: Option<
    Seq<PropView>>)
    ensures
        render(NodeView::Void { name, attributes: attrs, style }) == spec_open_tag(
            name,
            attrs,
            style,
        ),
{
}

impl VoidElement {
    /// A void element with the given wire name, no attributes and no style.
    pub fn new(name: &str) -> (e: VoidElement)
        ensures
            e@ == (NodeView::Void {
                name: name@,
                attributes: Seq::empty(),
                style: Option::None,
            }),
    {
        let e = VoidElement {
            name: name.to_owned(),
            attributes: Vec::new(),
            css_props: Option::None,
        };
        proof {
            assert(attr_views(e.attributes@) =~= Seq::<AttrView>::empty());
        }
        e
    }
}

impl ContainerElement {
    /// A container element with the given wire name, no attributes, no style
    /// and no children.
    pub fn new(name: &str) -> (e: ContainerElement)
        ensures
            e@ == (NodeView::Container {
                name: name@,
                attributes: Seq::empty(),
                style: Option::None,
                children: Seq::empty(),
            }),
    {
        let e = ContainerElement {
            name: name.to_owned(),
            attributes: Vec::new(),
            css_props: Option::None,
            children: Vec::new(),
        };
        proof {
            assert(attr_views(e.attributes@) =~= Seq::<AttrView>::empty());
            assert(child_views(e.children@) =~= Seq::<NodeView>::empty());
        }
        e
    }
}

impl Node for Text {
    open spec fn model(&self) -> NodeView {
        NodeView::Text { text: self@ }
    }

    fn to_string(&self) -> String {
        self.value.clone()
    }

    fn into_child(self) -> Child {
        Child::Text(self)
    }
}

impl Node for VoidElement {
    open spec fn model(&self) -> NodeView {
        self@
    }

    fn to_string(&self) -> String {
        open_tag_string(&self.name, &self.attributes, &self.css_props)
    }

    fn into_child(self) -> Child {
        Child::Void(self)
    }
}

impl Node for ContainerElement {
    open spec fn model(&self) -> NodeView {
        self.spec_view()
    }

    fn to_string(&self) -> String {
        render_container(self)
    }

    fn into_child(self) -> Child {
        Child::Container(self)
    }
}

impl Node for Child {
    open spec fn model(&self) -> NodeView {
        self.spec_view()
    }

    fn to_string(&self) -> String {
        render_child(self)
    }

    fn into_child(self) -> Child {
        self
    }
}

impl ParentNode for ContainerElement {
    fn child<N: Node>(&mut self, child: N) {
        let ghost cv = child.model();
        let c = child.into_child();
        self.children.push(c);
        proof {
            assert(self.children@.drop_last() =~= old(self).children@);
            assert(child_views(self.children@) == child_views(old(self).children@).push(cv));
            assert(self.spec_view() == spec_add_child(old(self).spec_view(), cv));
        }
    }
}

impl StylableNode for VoidElement {
    fn style(&mut self, style: Style) {
        let ghost sv = style@;
        self.css_props = Option::Some(style);
        proof {
            assert(self@ == spec_set_style(old(self)@, sv));
        }
    }
}

impl StylableNode for ContainerElement {
    fn style(&mut self, style: Style) {
        let ghost sv = style@;
        self.css_props = Option::Some(style);
        proof {
            assert(self.spec_view() == spec_set_style(old(self).spec_view(), sv));
        }
    }
}

impl AttributableNode for VoidElement {
    fn attribute(&mut self, attribute: Custom) {
        let ghost av = attribute@;
        self.attributes.push(attribute);
        proof {
            assert(attr_views(self.attributes@) =~= attr_views(old(self).attributes@).push(av));
            assert(self@ == spec_add_attr(old(self)@, av));
        }
    }
}

impl AttributableNode for ContainerElement {
    fn attribute(&mut self, attribute: Custom) {
        let ghost av = attribute@;
        self.attributes.push(attribute);
        proof {
            assert(attr_views(self.attributes@) =~= attr_views(old(self).attributes@).push(av));
            assert(self.spec_view() == spec_add_attr(old(self).spec_view(), av));
        }
    }
}

/// The `a` container element.
pub fn a() -> (e: ContainerElement)
    ensures
        e@ == (NodeView::Container {
            name: "a"@,
            attributes: Seq::empty(),
            style: Option::None,
            children: Seq::empty(),
        }),
{
    ContainerElement::new("a")
}

/// The `abbr` container element.
pub fn abbr() -> (e: ContainerElement)
    ensures
        e@ == (NodeView::Container {
            name: "abbr"@,
            attributes: Seq::empty(),
            style: Option::None,
            children: Seq::empty(),
        }),
{
    ContainerElement::new("abbr")
}

/// The `address` container element.
pub fn address() -> (e: ContainerElement)
    ensures
        e@ == (NodeView::Container {
            name: "address"@,
            attributes: Seq::empty(),
            style: Option::None,
            children: Seq::empty(),
        }),
{
    ContainerElement::new("address")
}

/// The `article` container element.
pub fn article() -> (e: ContainerElement)
    ensures
        e@ == (NodeView::Container {
            name: "article"@,
            attributes: Seq::empty(),
            style: Option::None,
            children: Seq::empty(),
        }),
{
    ContainerElement::new("article")
}

/// The `aside` container element.
pub fn aside() -> (e: ContainerElement)
    ensures
        e@ == (NodeView::Container {
            name: "aside"@,
            attributes: Seq::empty(),
            style: Option::None,
            children: Seq::empty(),
        }),
{
    ContainerElement::new("aside")
}

/// The `audio` container element.
pub fn audio() -> (e: ContainerElement)
    ensures
        e@ == (NodeView::Container {
            name: "audio"@,
            attributes: Seq::empty(),
            style: Option::None,
            children: Seq::empty(),
        }),
{
    ContainerElement::new("audio")
}

/// The `b` container element.
pub fn b() -> (e: ContainerElement)
    ensures
        e@ == (NodeView::Container {
            name: "b"@,
            attributes: Seq::empty(),
            style: Option::None,
            children: Seq::empty(),
        }),
{
    ContainerElement::new("b")
}

/// The `bdi` container element.
pub fn bdi() -> (e: ContainerElement)
    ensures
        e@ == (NodeView::Container {
            name: "bdi"@,
            attributes: Seq::empty(),
            style: Option::None,
            children: Seq::empty(),
        }),
{
    ContainerElement::new("bdi")
}

/// The `bdo` container element.
pub fn bdo() -> (e: ContainerElement)
    ensures
        e@ == (NodeView::Container {
            name: "bdo"@,
            attributes: Seq::empty(),
            style: Option::None,
            children: Seq::empty(),
        }),
{
    ContainerElement::new("bdo")
}

/// The `blockquote` container element.
pub fn blockquote() -> (e: ContainerElement)
    ensures
        e@ == (NodeView::Container {
            name: "blockquote"@,
            attributes: Seq::empty(),
            style: Option::None,
            children: Seq::empty(),
        }),
{
    ContainerElement::new("blockquote")
}

/// The `body` container element.
pub fn body() -> (e: ContainerElement)
    ensures
        e@ == (NodeView::Container {
            name: "body"@,
            attributes: Seq::empty(),
            style: Option::None,
            children: Seq::empty(),
        }),
{
    ContainerElement::new("body")
}

/// The `button` container element.
pub fn button() -> (e: ContainerElement)
    ensures
        e@ == (NodeView::Container {
            name: "button"@,
            attributes: Seq::empty(),
            style: Option::None,
            children: Seq::empty(),
        }),
{
    ContainerElement::new("button")
}

/// The `canvas` container element.
pub fn canvas() -> (e: ContainerElement)
    ensures
        e@ == (NodeView::Container {
            name: "canvas"@,
            attributes: Seq::empty(),
            style: Option::None,
            children: Seq::empty(),
        }),
{
    ContainerElement::new("canvas")
}

/// The `caption` container element.
pub fn caption() -> (e: ContainerElement)
    ensures
        e@ == (NodeView::Container {
            name: "caption"@,
            attributes: Seq::empty(),
            style: Option::None,
            children: Seq::empty(),
        }),
{
    ContainerElement::new("caption")
}

/// The `cite` container element.
pub fn cite() -> (e: ContainerElement)
    ensures
        e@ == (NodeView::Container {
            name: "cite"@,
            attributes: Seq::empty(),
            style: Option::None,
            children: Seq::empty(),
        }),
{
    ContainerElement::new("cite")
}

/// The `code` container element.
pub fn code() -> (e: ContainerElement)
    ensures
        e@ == (NodeView::Container {
            name: "code"@,
            attributes: Seq::empty(),
            style: Option::None,
            children: Seq::empty(),
        }),
{
    ContainerElement::new("code")
}

/// The `colgroup` container element.
pub fn colgroup() -> (e: ContainerElement)
    ensures
        e@ == (NodeView::Container {
            name: "colgroup"@,
            attributes: Seq::empty(),
            style: Option::None,
            children: Seq::empty(),
        }),
{
    ContainerElement::new("colgroup")
}

/// The `data` container element.
pub fn data() -> (e: ContainerElement)
    ensures
        e@ == (NodeView::Container {
            name: "data"@,
            attributes: Seq::empty(),
            style: Option::None,
            children: Seq::empty(),
        }),
{
    ContainerElement::new("data")
}

/// The `datalist` container element.
pub fn datalist() -> (e: ContainerElement)
    ensures
        e@ == (NodeView::Container {
            name: "datalist"@,
            attributes: Seq::empty(),
            style: Option::None,
            children: Seq::empty(),
        }),
{
    ContainerElement::new("datalist")
}

/// The `dd` container element.
pub fn dd() -> (e: ContainerElement)
    ensures
        e@ == (NodeView::Container {
            name: "dd"@,
            attributes: Seq::empty(),
            style: Option::None,
            children: Seq::empty(),
        }),
{
    ContainerElement::new("dd")
}

/// The `del` container element.
pub fn del() -> (e: ContainerElement)
    ensures
        e@ == (NodeView::Container {
            name: "del"@,
            attributes: Seq::empty(),
            style: Option::None,
            children: Seq::empty(),
        }),
{
    ContainerElement::new("del")
}

/// The `details` container element.
pub fn details() -> (e: ContainerElement)
    ensures
        e@ == (NodeView::Container {
            name: "details"@,
            attributes: Seq::empty(),
            style: Option::None,
            children: Seq::empty(),
        }),
{
    ContainerElement::new("details")
}

/// The `dfn` container element.
pub fn dfn() -> (e: ContainerElement)
    ensures
        e@ == (NodeView::Container {
            name: "dfn"@,
            attributes: Seq::empty(),
            style: Option::None,
            children: Seq::empty(),
        }),
{
    ContainerElement::new("dfn")
}

/// The `dialog` container element.
pub fn dialog() -> (e: ContainerElement)
    ensures
        e@ == (NodeView::Container {
            name: "dialog"@,
            attributes: Seq::empty(),
            style: Option::None,
            children: Seq::empty(),
        }),
{
    ContainerElement::new("dialog")
}

/// The `div` container element.
pub fn div() -> (e: ContainerElement)
    ensures
        e@ == (NodeView::Container {
            name: "div"@,
            attributes: Seq::empty(),
            style: Option::None,
            children: Seq::empty(),
        }),
{
    ContainerElement::new("div")
}

/// The `dl` container element.
pub fn dl() -> (e: ContainerElement)
    ensures
        e@ == (NodeView::Container {
            name: "dl"@,
            attributes: Seq::empty(),
            style: Option::None,
            children: Seq::empty(),
        }),
{
    ContainerElement::new("dl")
}

/// The `dt` container element.
pub fn dt() -> (e: ContainerElement)
    ensures
        e@ == (NodeView::Container {
            name: "dt"@,
            attributes: Seq::empty(),
            style: Option::None,
            children: Seq::empty(),
        }),
{
    ContainerElement::new("dt")
}

/// The `em` container element.
pub fn em() -> (e: ContainerElement)
    ensures
        e@ == (NodeView::Container {
            name: "em"@,
            attributes: Seq::empty(),
            style: Option::None,
            children: Seq::empty(),
        }),
{
    ContainerElement::new("em")
}

/// The `fieldset` container element.
pub fn fieldset() -> (e: ContainerElement)
    ensures
        e@ == (NodeView::Container {
            name: "fieldset"@,
            attributes: Seq::empty(),
            style: Option::None,
            children: Seq::empty(),
        }),
{
    ContainerElement::new("fieldset")
}

/// The `figcaption` container element.
pub fn figcaption() -> (e: ContainerElement)
    ensures
        e@ == (NodeView::Container {
            name: "figcaption"@,
            attributes: Seq::empty(),
            style: Option::None,
            children: Seq::empty(),
        }),
{
    ContainerElement::new("figcaption")
}

/// The `figure` container element.
pub fn figure() -> (e: ContainerElement)
    ensures
        e@ == (NodeView::Container {
            name: "figure"@,
            attributes: Seq::empty(),
            style: Option::None,
            children: Seq::empty(),
        }),
{
    ContainerElement::new("figure")
}

/// The `footer` container element.
pub fn footer() -> (e: ContainerElement)
    ensures
        e@ == (NodeView::Container {
            name: "footer"@,
            attributes: Seq::empty(),
            style: Option::None,
            children: Seq::empty(),
        }),
{
    ContainerElement::new("footer")
}

/// The `form` container element.
pub fn form() -> (e: ContainerElement)
    ensures
        e@ == (NodeView::Container {
            name: "form"@,
            attributes: Seq::empty(),
            style: Option::None,
            children: Seq::empty(),
        }),
{
    ContainerElement::new("form")
}

/// The `h1` container element.
pub fn h1() -> (e: ContainerElement)
    ensures
        e@ == (NodeView::Container {
            name: "h1"@,
            attributes: Seq::empty(),
            style: Option::None,
            children: Seq::empty(),
        }),
{
    ContainerElement::new("h1")
}

/// The `h2` container element.
pub fn h2() -> (e: ContainerElement)
    ensures
        e@ == (NodeView::Container {
            name: "h2"@,
            attributes: Seq::empty(),
            style: Option::None,
            children: Seq::empty(),
        }),
{
    ContainerElement::new("h2")
}

/// The `h3` container element.
pub fn h3() -> (e: ContainerElement)
    ensures
        e@ == (NodeView::Container {
            name: "h3"@,
            attributes: Seq::empty(),
            style: Option::None,
            children: Seq::empty(),
        }),
{
    ContainerElement::new("h3")
}

/// The `h4` container element.
pub fn h4() -> (e: ContainerElement)
    ensures
        e@ == (NodeView::Container {
            name: "h4"@,
            attributes: Seq::empty(),
            style: Option::None,
            children: Seq::empty(),
        }),
{
    ContainerElement::new("h4")
}

/// The `h5` container element.
pub fn h5() -> (e: ContainerElement)
    ensures
        e@ == (NodeView::Container {
            name: "h5"@,
            attributes: Seq::empty(),
            style: Option::None,
            children: Seq::empty(),
        }),
{
    ContainerElement::new("h5")
}

/// The `h6` container element.
pub fn h6() -> (e: ContainerElement)
    ensures
        e@ == (NodeView::Container {
            name: "h6"@,
            attributes: Seq::empty(),
            style: Option::None,
            children: Seq::empty(),
        }),
{
    ContainerElement::new("h6")
}

/// The `head` container element.
pub fn head() -> (e: ContainerElement)
    ensures
        e@ == (NodeView::Container {
            name: "head"@,
            attributes: Seq::empty(),
            style: Option::None,
            children: Seq::empty(),
        }),
{
    ContainerElement::new("head")
}

/// The `header` container element.
pub fn header() -> (e: ContainerElement)
    ensures
        e@ == (NodeView::Container {
            name: "header"@,
            attributes: Seq::empty(),
            style: Option::None,
            children: Seq::empty(),
        }),
{
    ContainerElement::new("header")
}

/// The `html` container element.
pub fn html() -> (e: ContainerElement)
    ensures
        e@ == (NodeView::Container {
            name: "html"@,
            attributes: Seq::empty(),
            style: Option::None,
            children: Seq::empty(),
        }),
{
    ContainerElement::new("html")
}

/// The `i` container element.
pub fn i() -> (e: ContainerElement)
    ensures
        e@ == (NodeView::Container {
            name: "i"@,
            attributes: Seq::empty(),
            style: Option::None,
            children: Seq::empty(),
        }),
{
    ContainerElement::new("i")
}

/// The `iframe` container element.
pub fn iframe() -> (e: ContainerElement)
    ensures
        e@ == (NodeView::Container {
            name: "iframe"@,
            attributes: Seq::empty(),
            style: Option::None,
            children: Seq::empty(),
        }),
{
    ContainerElement::new("iframe")
}

/// The `ins` container element.
pub fn ins() -> (e: ContainerElement)
    ensures
        e@ == (NodeView::Container {
            name: "ins"@,
            attributes: Seq::empty(),
            style: Option::None,
            children: Seq::empty(),
        }),
{
    ContainerElement::new("ins")
}

/// The `kbd` container element.
pub fn kbd() -> (e: ContainerElement)
    ensures
        e@ == (NodeView::Container {
            name: "kbd"@,
            attributes: Seq::empty(),
            style: Option::None,
            children: Seq::empty(),
        }),
{
    ContainerElement::new("kbd")
}

/// The `label` container element.
pub fn label() -> (e: ContainerElement)
    ensures
        e@ == (NodeView::Container {
            name: "label"@,
            attributes: Seq::empty(),
            style: Option::None,
            children: Seq::empty(),
        }),
{
    ContainerElement::new("label")
}

/// The `legend` container element.
pub fn legend() -> (e: ContainerElement)
    ensures
        e@ == (NodeView::Container {
            name: "legend"@,
            attributes: Seq::empty(),
            style: Option::None,
            children: Seq::empty(),
        }),
{
    ContainerElement::new("legend")
}

/// The `li` container element.
pub fn li() -> (e: ContainerElement)
    ensures
        e@ == (NodeView::Container {
            name: "li"@,
            attributes: Seq::empty(),
            style: Option::None,
            children: Seq::empty(),
        }),
{
    ContainerElement::new("li")
}

/// The `main` container element.
pub fn main() -> (e: ContainerElement)
    ensures
        e@ == (NodeView::Container {
            name: "main"@,
            attributes: Seq::empty(),
            style: Option::None,
            children: Seq::empty(),
        }),
{
    ContainerElement::new("main")
}

/// The `map` container element.
pub fn map() -> (e: ContainerElement)
    ensures
        e@ == (NodeView::Container {
            name: "map"@,
            attributes: Seq::empty(),
            style: Option::None,
            children: Seq::empty(),
        }),
{
    ContainerElement::new("map")
}

/// The `mark` container element.
pub fn mark() -> (e: ContainerElement)
    ensures
        e@ == (NodeView::Container {
            name: "mark"@,
            attributes: Seq::empty(),
            style: Option::None,
            children: Seq::empty(),
        }),
{
    ContainerElement::new("mark")
}

/// The `meter` container element.
pub fn meter() -> (e: ContainerElement)
    ensures
        e@ == (NodeView::Container {
            name: "meter"@,
            attributes: Seq::empty(),
            style: Option::None,
            children: Seq::empty(),
        }),
{
    ContainerElement::new("meter")
}

/// The `nav` container element.
pub fn nav() -> (e: ContainerElement)
    ensures
        e@ == (NodeView::Container {
            name: "nav"@,
            attributes: Seq::empty(),
            style: Option::None,
            children: Seq::empty(),
        }),
{
    ContainerElement::new("nav")
}

/// The `noscript` container element.
pub fn noscript() -> (e: ContainerElement)
    ensures
        e@ == (NodeView::Container {
            name: "noscript"@,
            attributes: Seq::empty(),
            style: Option::None,
            children: Seq::empty(),
        }),
{
    ContainerElement::new("noscript")
}

/// The `object` container element.
pub fn object() -> (e: ContainerElement)
    ensures
        e@ == (NodeView::Container {
            name: "object"@,
            attributes: Seq::empty(),
            style: Option::None,
            children: Seq::empty(),
        }),
{
    ContainerElement::new("object")
}

/// The `ol` container element.
pub fn ol() -> (e: ContainerElement)
    ensures
        e@ == (NodeView::Container {
            name: "ol"@,
            attributes: Seq::empty(),
            style: Option::None,
            children: Seq::empty(),
        }),
{
    ContainerElement::new("ol")
}

/// The `optgroup` container element.
pub fn optgroup() -> (e: ContainerElement)
    ensures
        e@ == (NodeView::Container {
            name: "optgroup"@,
            attributes: Seq::empty(),
            style: Option::None,
            children: Seq::empty(),
        }),
{
    ContainerElement::new("optgroup")
}

/// The `option` container element.
pub fn option() -> (e: ContainerElement)
    ensures
        e@ == (NodeView::Container {
            name: "option"@,
            attributes: Seq::empty(),
            style: Option::None,
            children: Seq::empty(),
        }),
{
    ContainerElement::new("option")
}

/// The `output` container element.
pub fn output() -> (e: ContainerElement)
    ensures
        e@ == (NodeView::Container {
            name: "output"@,
            attributes: Seq::empty(),
            style: Option::None,
            children: Seq::empty(),
        }),
{
    ContainerElement::new("output")
}

/// The `p` container element.
pub fn p() -> (e: ContainerElement)
    ensures
        e@ == (NodeView::Container {
            name: "p"@,
            attributes: Seq::empty(),
            style: Option::None,
            children: Seq::empty(),
        }),
{
    ContainerElement::new("p")
}

/// The `picture` container element.
pub fn picture() -> (e: ContainerElement)
    ensures
        e@ == (NodeView::Container {
            name: "picture"@,
            attributes: Seq::empty(),
            style: Option::None,
            children: Seq::empty(),
        }),
{
    ContainerElement::new("picture")
}

/// The `pre` container element.
pub fn pre() -> (e: ContainerElement)
    ensures
        e@ == (NodeView::Container {
            name: "pre"@,
            attributes: Seq::empty(),
            style: Option::None,
            children: Seq::empty(),
        }),
{
    ContainerElement::new("pre")
}

/// The `progress` container element.
pub fn progress() -> (e: ContainerElement)
    ensures
        e@ == (NodeView::Container {
            name: "progress"@,
            attributes: Seq::empty(),
            style: Option::None,
            children: Seq::empty(),
        }),
{
    ContainerElement::new("progress")
}

/// The `q` container element.
pub fn q() -> (e: ContainerElement)
    ensures
        e@ == (NodeView::Container {
            name: "q"@,
            attributes: Seq::empty(),
            style: Option::None,
            children: Seq::empty(),
        }),
{
    ContainerElement::new("q")
}

/// The `rp` container element.
pub fn rp() -> (e: ContainerElement)
    ensures
        e@ == (NodeView::Container {
            name: "rp"@,
            attributes: Seq::empty(),
            style: Option::None,
            children: Seq::empty(),
        }),
{
    ContainerElement::new("rp")
}

/// The `rt` container element.
pub fn rt() -> (e: ContainerElement)
    ensures
        e@ == (NodeView::Container {
            name: "rt"@,
            attributes: Seq::empty(),
            style: Option::None,
            children: Seq::empty(),
        }),
{
    ContainerElement::new("rt")
}

/// The `ruby` container element.
pub fn ruby() -> (e: ContainerElement)
    ensures
        e@ == (NodeView::Container {
            name: "ruby"@,
            attributes: Seq::empty(),
            style: Option::None,
            children: Seq::empty(),
        }),
{
    ContainerElement::new("ruby")
}

/// The `s` container element.
pub fn s() -> (e: ContainerElement)
    ensures
        e@ == (NodeView::Container {
            name: "s"@,
            attributes: Seq::empty(),
            style: Option::None,
            children: Seq::empty(),
        }),
{
    ContainerElement::new("s")
}

/// The `samp` container element.
pub fn samp() -> (e: ContainerElement)
    ensures
        e@ == (NodeView::Container {
            name: "samp"@,
            attributes: Seq::empty(),
            style: Option::None,
            children: Seq::empty(),
        }),
{
    ContainerElement::new("samp")
}

/// The `script` container element.
pub fn script() -> (e: ContainerElement)
    ensures
        e@ == (NodeView::Container {
            name: "script"@,
            attributes: Seq::empty(),
            style: Option::None,
            children: Seq::empty(),
        }),
{
    ContainerElement::new("script")
}

/// The `section` container element.
pub fn section() -> (e: ContainerElement)
    ensures
        e@ == (NodeView::Container {
            name: "section"@,
            attributes: Seq::empty(),
            style: Option::None,
            children: Seq::empty(),
        }),
{
    ContainerElement::new("section")
}

/// The `select` container element.
pub fn select() -> (e: ContainerElement)
    ensures
        e@ == (NodeView::Container {
            name: "select"@,
            attributes: Seq::empty(),
            style: Option::None,
            children: Seq::empty(),
        }),
{
    ContainerElement::new("select")
}

/// The `small` container element.
pub fn small() -> (e: ContainerElement)
    ensures
        e@ == (NodeView::Container {
            name: "small"@,
            attributes: Seq::empty(),
            style: Option::None,
            children: Seq::empty(),
        }),
{
    ContainerElement::new("small")
}

/// The `span` container element.
pub fn span() -> (e: ContainerElement)
    ensures
        e@ == (NodeView::Container {
            name: "span"@,
            attributes: Seq::empty(),
            style: Option::None,
            children: Seq::empty(),
        }),
{
    ContainerElement::new("span")
}

/// The `strong` container element.
pub fn strong() -> (e: ContainerElement)
    ensures
        e@ == (NodeView::Container {
            name: "strong"@,
            attributes: Seq::empty(),
            style: Option::None,
            children: Seq::empty(),
        }),
{
    ContainerElement::new("strong")
}

/// The `sub` container element.
pub fn sub() -> (e: ContainerElement)
    ensures
        e@ == (NodeView::Container {
            name: "sub"@,
            attributes: Seq::empty(),
            style: Option::None,
            children: Seq::empty(),
        }),
{
    ContainerElement::new("sub")
}

/// The `summary` container element.
pub fn summary() -> (e: ContainerElement)
    ensures
        e@ == (NodeView::Container {
            name: "summary"@,
            attributes: Seq::empty(),
            style: Option::None,
            children: Seq::empty(),
        }),
{
    ContainerElement::new("summary")
}

/// The `sup` container element.
pub fn sup() -> (e: ContainerElement)
    ensures
        e@ == (NodeView::Container {
            name: "sup"@,
            attributes: Seq::empty(),
            style: Option::None,
            children: Seq::empty(),
        }),
{
    ContainerElement::new("sup")
}

/// The `svg` container element.
pub fn svg() -> (e: ContainerElement)
    ensures
        e@ == (NodeView::Container {
            name: "svg"@,
            attributes: Seq::empty(),
            style: Option::None,
            children: Seq::empty(),
        }),
{
    ContainerElement::new("svg")
}

/// The `table` container element.
pub fn table() -> (e: ContainerElement)
    ensures
        e@ == (NodeView::Container {
            name: "table"@,
            attributes: Seq::empty(),
            style: Option::None,
            children: Seq::empty(),
        }),
{
    ContainerElement::new("table")
}

/// The `tbody` container element.
pub fn tbody() -> (e: ContainerElement)
    ensures
        e@ == (NodeView::Container {
            name: "tbody"@,
            attributes: Seq::empty(),
            style: Option::None,
            children: Seq::empty(),
        }),
{
    ContainerElement::new("tbody")
}

/// The `td` container element.
pub fn td() -> (e: ContainerElement)
    ensures
        e@ == (NodeView::Container {
            name: "td"@,
            attributes: Seq::empty(),
            style: Option::None,
            children: Seq::empty(),
        }),
{
    ContainerElement::new("td")
}

/// The `template` container element.
pub fn template() -> (e: ContainerElement)
    ensures
        e@ == (NodeView::Container {
            name: "template"@,
            attributes: Seq::empty(),
            style: Option::None,
            children: Seq::empty(),
        }),
{
    ContainerElement::new("template")
}

/// The `textarea` container element.
pub fn textarea() -> (e: ContainerElement)
    ensures
        e@ == (NodeView::Container {
            name: "textarea"@,
            attributes: Seq::empty(),
            style: Option::None,
            children: Seq::empty(),
        }),
{
    ContainerElement::new("textarea")
}

/// The `tfoot` container element.
pub fn tfoot() -> (e: ContainerElement)
    ensures
        e@ == (NodeView::Container {
            name: "tfoot"@,
            attributes: Seq::empty(),
            style: Option::None,
            children: Seq::empty(),
        }),
{
    ContainerElement::new("tfoot")
}

/// The `th` container element.
pub fn th() -> (e: ContainerElement)
    ensures
        e@ == (NodeView::Container {
            name: "th"@,
            attributes: Seq::empty(),
            style: Option::None,
            children: Seq::empty(),
        }),
{
    ContainerElement::new("th")
}

/// The `thead` container element.
pub fn thead() -> (e: ContainerElement)
    ensures
        e@ == (NodeView::Container {
            name: "thead"@,
            attributes: Seq::empty(),
            style: Option::None,
            children: Seq::empty(),
        }),
{
    ContainerElement::new("thead")
}

/// The `time` container element.
pub fn time() -> (e: ContainerElement)
    ensures
        e@ == (NodeView::Container {
            name: "time"@,
            attributes: Seq::empty(),
            style: Option::None,
            children: Seq::empty(),
        }),
{
    ContainerElement::new("time")
}

/// The `title` container element.
pub fn title() -> (e: ContainerElement)
    ensures
        e@ == (NodeView::Container {
            name: "title"@,
            attributes: Seq::empty(),
            style: Option::None,
            children: Seq::empty(),
        }),
{
    ContainerElement::new("title")
}

/// The `tr` container element.
pub fn tr() -> (e: ContainerElement)
    ensures
        e@ == (NodeView::Container {
            name: "tr"@,
            attributes: Seq::empty(),
            style: Option::None,
            children: Seq::empty(),
        }),
{
    ContainerElement::new("tr")
}

/// The `u` container element.
pub fn u() -> (e: ContainerElement)
    ensures
        e@ == (NodeView::Container {
            name: "u"@,
            attributes: Seq::empty(),
            style: Option::None,
            children: Seq::empty(),
        }),
{
    ContainerElement::new("u")
}

/// The `ul` container element.
pub fn ul() -> (e: ContainerElement)
    ensures
        e@ == (NodeView::Container {
            name: "ul"@,
            attributes: Seq::empty(),
            style: Option::None,
            children: Seq::empty(),
        }),
{
    ContainerElement::new("ul")
}

/// The `var` container element.
pub fn var() -> (e: ContainerElement)
    ensures
        e@ == (NodeView::Container {
            name: "var"@,
            attributes: Seq::empty(),
            style: Option::None,
            children: Seq::empty(),
        }),
{
    ContainerElement::new("var")
}

/// The `video` container element.
pub fn video() -> (e: ContainerElement)
    ensures
        e@ == (NodeView::Container {
            name: "video"@,
            attributes: Seq::empty(),
            style: Option::None,
            children: Seq::empty(),
        }),
{
    ContainerElement::new("video")
}

/// The `area` void element.
pub fn area() -> (e: VoidElement)
    ensures
        e@ == (NodeView::Void { name: "area"@, attributes: Seq::empty(), style: Option::None }),
{
    VoidElement::new("area")
}

/// The `base` void element.
pub fn base() -> (e: VoidElement)
    ensures
        e@ == (NodeView::Void { name: "base"@, attributes: Seq::empty(), style: Option::None }),
{
    VoidElement::new("base")
}

/// The `br` void element.
pub fn br() -> (e: VoidElement)
    ensures
        e@ == (NodeView::Void { name: "br"@, attributes: Seq::empty(), style: Option::None }),
{
    VoidElement::new("br")
}

/// The `col` void element.
pub fn col() -> (e: VoidElement)
    ensures
        e@ == (NodeView::Void { name: "col"@, attributes: Seq::empty(), style: Option::None }),
{
    VoidElement::new("col")
}

/// The `embed` void element.
pub fn embed() -> (e: VoidElement)
    ensures
        e@ == (NodeView::Void { name: "embed"@, attributes: Seq::empty(), style: Option::None }),
{
    VoidElement::new("embed")
}

/// The `hr` void element.
pub fn hr() -> (e: VoidElement)
    ensures
        e@ == (NodeView::Void { name: "hr"@, attributes: Seq::empty(), style: Option::None }),
{
    VoidElement::new("hr")
}

/// The `img` void element.
pub fn img() -> (e: VoidElement)
    ensures
        e@ == (NodeView::Void { name: "img"@, attributes: Seq::empty(), style: Option::None }),
{
    VoidElement::new("img")
}

/// The `input` void element.
pub fn input() -> (e: VoidElement)
    ensures
        e@ == (NodeView::Void { name: "input"@, attributes: Seq::empty(), style: Option::None }),
{
    VoidElement::new("input")
}

/// The `link` void element.
pub fn link() -> (e: VoidElement)
    ensures
        e@ == (NodeView::Void { name: "link"@, attributes: Seq::empty(), style: Option::None }),
{
    VoidElement::new("link")
}

/// The `meta` void element.
pub fn meta() -> (e: VoidElement)
    ensures
        e@ == (NodeView::Void { name: "meta"@, attributes: Seq::empty(), style: Option::None }),
{
    VoidElement::new("meta")
}

/// The `param` void element.
pub fn param() -> (e: VoidElement)
    ensures
        e@ == (NodeView::Void { name: "param"@, attributes: Seq::empty(), style: Option::None }),
{
    VoidElement::new("param")
}

/// The `source` void element.
pub fn source() -> (e: VoidElement)
    ensures
        e@ == (NodeView::Void { name: "source"@, attributes: Seq::empty(), style: Option::None }),
{
    VoidElement::new("source")
}

/// The `track` void element.
pub fn track() -> (e: VoidElement)
    ensures
        e@ == (NodeView::Void { name: "track"@, attributes: Seq::empty(), style: Option::None }),
{
    VoidElement::new("track")
}

/// The `wbr` void element.
pub fn wbr() -> (e: VoidElement)
    ensures
        e@ == (NodeView::Void { name: "wbr"@, attributes: Seq::empty(), style: Option::None }),
{
    VoidElement::new("wbr")
}

} // verus!
