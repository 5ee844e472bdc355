//! HTML attributes: name-value pairs that serialize to `name="value"`.

use vstd::prelude::*;
use vstd::string::StringExecFns;

verus! {

/// The mathematical content of an attribute: its wire name and its value.
pub struct AttrView {
    pub name: Seq<char>,
    pub value: Seq<char>,
}

/// The serialized form of one attribute: `name="value"`, the value verbatim.
pub open spec fn spec_attr_token(a: AttrView) -> Seq<char> {
    a.name + "=\""@ + a.value + "\""@
}

/// The capability of serializing to a `name="value"` attribute token.
pub trait Attribute {
    /// The attribute as a wire name paired with a value.
    spec fn model(&self) -> AttrView;

    /// Serializes the attribute to its `name="value"` token.
    fn to_string(&self) -> (s: String)
        ensures
            s@ == spec_attr_token(self.model()),
    ;
}

/// An attribute with a caller-chosen wire name.
///
/// Every attribute of the closed accessor table is also carried by this one
/// type; the accessors only fix the wire name.
pub struct Custom {
    attr: String,
    value: String,
}

impl View for Custom {
    type V = AttrView;

    closed spec fn view(&self) -> AttrView {
        AttrView { name: self.attr@, value: self.value@ }
    }
}

/// Builds an attribute from an arbitrary wire name and value. Construction
/// never fails and the value is not validated.
pub fn custom(attr: &str, value: &str) -> (a: Custom)
    ensures
        a@ == (AttrView { name: attr@, value: value@ }),
{
    Custom { attr: attr.to_owned(), value: value.to_owned() }
}

impl Attribute for Custom {
    open spec fn model(&self) -> AttrView {
        self@
    }

    fn to_string(&self) -> (s: String)
        ensures
            s@ == spec_attr_token(self@),
    {
        let mut s = String::new();
        s.append(self.attr.as_str());
        s.append("=\"");
        s.append(self.value.as_str());
        s.append("\"");
        proof {
            assert(s@ =~= spec_attr_token(self@));
        }
        s
    }
}

/// The `accept` attribute.
pub fn accept(value: &str) -> (a: Custom)
    ensures
        a@ == (AttrView { name: "accept"@, value: value@ }),
{
    custom("accept", value)
}

/// The `accept-charset` attribute.
pub fn accept_charset(value: &str) -> (a: Custom)
    ensures
        a@ == (AttrView { name: "accept-charset"@, value: value@ }),
{
    custom("accept-charset", value)
}

/// The `accesskey` attribute.
pub fn accesskey(value: &str) -> (a: Custom)
    ensures
        a@ == (AttrView { name: "accesskey"@, value: value@ }),
{
    custom("accesskey", value)
}

/// The `action` attribute.
pub fn action(value: &str) -> (a: Custom)
    ensures
        a@ == (AttrView { name: "action"@, value: value@ }),
{
    custom("action", value)
}

/// The `alt` attribute.
pub fn alt(value: &str) -> (a: Custom)
    ensures
        a@ == (AttrView { name: "alt"@, value: value@ }),
{
    custom("alt", value)
}

/// The `async` attribute.
pub fn async_(value: &str) -> (a: Custom)
    ensures
        a@ == (AttrView { name: "async"@, value: value@ }),
{
    custom("async", value)
}

/// The `autocomplete` attribute.
pub fn autocomplete(value: &str) -> (a: Custom)
    ensures
        a@ == (AttrView { name: "autocomplete"@, value: value@ }),
{
    custom("autocomplete", value)
}

/// The `autofocus` attribute.
pub fn autofocus(value: &str) -> (a: Custom)
    ensures
        a@ == (AttrView { name: "autofocus"@, value: value@ }),
{
    custom("autofocus", value)
}

/// The `autoplay` attribute.
pub fn autoplay(value: &str) -> (a: Custom)
    ensures
        a@ == (AttrView { name: "autoplay"@, value: value@ }),
{
    custom("autoplay", value)
}

/// The `charset` attribute.
pub fn charset(value: &str) -> (a: Custom)
    ensures
        a@ == (AttrView { name: "charset"@, value: value@ }),
{
    custom("charset", value)
}

/// The `checked` attribute.
pub fn checked(value: &str) -> (a: Custom)
    ensures
        a@ == (AttrView { name: "checked"@, value: value@ }),
{
    custom("checked", value)
}

/// The `cite` attribute.
pub fn cite(value: &str) -> (a: Custom)
    ensures
        a@ == (AttrView { name: "cite"@, value: value@ }),
{
    custom("cite", value)
}

/// The `class` attribute.
pub fn class(value: &str) -> (a: Custom)
    ensures
        a@ == (AttrView { name: "class"@, value: value@ }),
{
    custom("class", value)
}

/// The `cols` attribute.
pub fn cols(value: &str) -> (a: Custom)
    ensures
        a@ == (AttrView { name: "cols"@, value: value@ }),
{
    custom("cols", value)
}

/// The `colspan` attribute.
pub fn colspan(value: &str) -> (a: Custom)
    ensures
        a@ == (AttrView { name: "colspan"@, value: value@ }),
{
    custom("colspan", value)
}

/// The `content` attribute.
pub fn content(value: &str) -> (a: Custom)
    ensures
        a@ == (AttrView { name: "content"@, value: value@ }),
{
    custom("content", value)
}

/// The `contenteditable` attribute.
pub fn contenteditable(value: &str) -> (a: Custom)
    ensures
        a@ == (AttrView { name: "contenteditable"@, value: value@ }),
{
    custom("contenteditable", value)
}

/// The `controls` attribute.
pub fn controls(value: &str) -> (a: Custom)
    ensures
        a@ == (AttrView { name: "controls"@, value: value@ }),
{
    custom("controls", value)
}

/// The `coords` attribute.
pub fn coords(value: &str) -> (a: Custom)
    ensures
        a@ == (AttrView { name: "coords"@, value: value@ }),
{
    custom("coords", value)
}

/// The `data` attribute.
pub fn data(value: &str) -> (a: Custom)
    ensures
        a@ == (AttrView { name: "data"@, value: value@ }),
{
    custom("data", value)
}

/// The `datetime` attribute.
pub fn datetime(value: &str) -> (a: Custom)
    ensures
        a@ == (AttrView { name: "datetime"@, value: value@ }),
{
    custom("datetime", value)
}

/// The `default` attribute.
pub fn default(value: &str) -> (a: Custom)
    ensures
        a@ == (AttrView { name: "default"@, value: value@ }),
{
    custom("default", value)
}

/// The `defer` attribute.
pub fn defer(value: &str) -> (a: Custom)
    ensures
        a@ == (AttrView { name: "defer"@, value: value@ }),
{
    custom("defer", value)
}

/// The `dir` attribute.
pub fn dir(value: &str) -> (a: Custom)
    ensures
        a@ == (AttrView { name: "dir"@, value: value@ }),
{
    custom("dir", value)
}

/// The `dirname` attribute.
pub fn dirname(value: &str) -> (a: Custom)
    ensures
        a@ == (AttrView { name: "dirname"@, value: value@ }),
{
    custom("dirname", value)
}

/// The `disabled` attribute.
pub fn disabled(value: &str) -> (a: Custom)
    ensures
        a@ == (AttrView { name: "disabled"@, value: value@ }),
{
    custom("disabled", value)
}

/// The `download` attribute.
pub fn download(value: &str) -> (a: Custom)
    ensures
        a@ == (AttrView { name: "download"@, value: value@ }),
{
    custom("download", value)
}

/// The `draggable` attribute.
pub fn draggable(value: &str) -> (a: Custom)
    ensures
        a@ == (AttrView { name: "draggable"@, value: value@ }),
{
    custom("draggable", value)
}

/// The `enctype` attribute.
pub fn enctype(value: &str) -> (a: Custom)
    ensures
        a@ == (AttrView { name: "enctype"@, value: value@ }),
{
    custom("enctype", value)
}

/// The `for` attribute.
pub fn for_(value: &str) -> (a: Custom)
    ensures
        a@ == (AttrView { name: "for"@, value: value@ }),
{
    custom("for", value)
}

/// The `form` attribute.
pub fn form(value: &str) -> (a: Custom)
    ensures
        a@ == (AttrView { name: "form"@, value: value@ }),
{
    custom("form", value)
}

/// The `formaction` attribute.
pub fn formaction(value: &str) -> (a: Custom)
    ensures
        a@ == (AttrView { name: "formaction"@, value: value@ }),
{
    custom("formaction", value)
}

/// The `headers` attribute.
pub fn headers(value: &str) -> (a: Custom)
    ensures
        a@ == (AttrView { name: "headers"@, value: value@ }),
{
    custom("headers", value)
}

/// The `height` attribute.
pub fn height(value: &str) -> (a: Custom)
    ensures
        a@ == (AttrView { name: "height"@, value: value@ }),
{
    custom("height", value)
}

/// The `hidden` attribute.
pub fn hidden(value: &str) -> (a: Custom)
    ensures
        a@ == (AttrView { name: "hidden"@, value: value@ }),
{
    custom("hidden", value)
}

/// The `high` attribute.
pub fn high(value: &str) -> (a: Custom)
    ensures
        a@ == (AttrView { name: "high"@, value: value@ }),
{
    custom("high", value)
}

/// The `href` attribute.
pub fn href(value: &str) -> (a: Custom)
    ensures
        a@ == (AttrView { name: "href"@, value: value@ }),
{
    custom("href", value)
}

/// The `hreflang` attribute.
pub fn hreflang(value: &str) -> (a: Custom)
    ensures
        a@ == (AttrView { name: "hreflang"@, value: value@ }),
{
    custom("hreflang", value)
}

/// The `http-equiv` attribute.
pub fn http_equiv(value: &str) -> (a: Custom)
    ensures
        a@ == (AttrView { name: "http-equiv"@, value: value@ }),
{
    custom("http-equiv", value)
}

/// The `id` attribute.
pub fn id(value: &str) -> (a: Custom)
    ensures
        a@ == (AttrView { name: "id"@, value: value@ }),
{
    custom("id", value)
}

/// The `ismap` attribute.
pub fn ismap(value: &str) -> (a: Custom)
    ensures
        a@ == (AttrView { name: "ismap"@, value: value@ }),
{
    custom("ismap", value)
}

/// The `kind` attribute.
pub fn kind(value: &str) -> (a: Custom)
    ensures
        a@ == (AttrView { name: "kind"@, value: value@ }),
{
    custom("kind", value)
}

/// The `label` attribute.
pub fn label(value: &str) -> (a: Custom)
    ensures
        a@ == (AttrView { name: "label"@, value: value@ }),
{
    custom("label", value)
}

/// The `lang` attribute.
pub fn lang(value: &str) -> (a: Custom)
    ensures
        a@ == (AttrView { name: "lang"@, value: value@ }),
{
    custom("lang", value)
}

/// The `list` attribute.
pub fn list(value: &str) -> (a: Custom)
    ensures
        a@ == (AttrView { name: "list"@, value: value@ }),
{
    custom("list", value)
}

/// The `loop` attribute.
pub fn loop_(value: &str) -> (a: Custom)
    ensures
        a@ == (AttrView { name: "loop"@, value: value@ }),
{
    custom("loop", value)
}

/// The `low` attribute.
pub fn low(value: &str) -> (a: Custom)
    ensures
        a@ == (AttrView { name: "low"@, value: value@ }),
{
    custom("low", value)
}

/// The `max` attribute.
pub fn max(value: &str) -> (a: Custom)
    ensures
        a@ == (AttrView { name: "max"@, value: value@ }),
{
    custom("max", value)
}

/// The `maxlength` attribute.
pub fn maxlength(value: &str) -> (a: Custom)
    ensures
        a@ == (AttrView { name: "maxlength"@, value: value@ }),
{
    custom("maxlength", value)
}

/// The `media` attribute.
pub fn media(value: &str) -> (a: Custom)
    ensures
        a@ == (AttrView { name: "media"@, value: value@ }),
{
    custom("media", value)
}

/// The `method` attribute.
pub fn method(value: &str) -> (a: Custom)
    ensures
        a@ == (AttrView { name: "method"@, value: value@ }),
{
    custom("method", value)
}

/// The `min` attribute.
pub fn min(value: &str) -> (a: Custom)
    ensures
        a@ == (AttrView { name: "min"@, value: value@ }),
{
    custom("min", value)
}

/// The `multiple` attribute.
pub fn multiple(value: &str) -> (a: Custom)
    ensures
        a@ == (AttrView { name: "multiple"@, value: value@ }),
{
    custom("multiple", value)
}

/// The `muted` attribute.
pub fn muted(value: &str) -> (a: Custom)
    ensures
        a@ == (AttrView { name: "muted"@, value: value@ }),
{
    custom("muted", value)
}

/// The `name` attribute.
pub fn name(value: &str) -> (a: Custom)
    ensures
        a@ == (AttrView { name: "name"@, value: value@ }),
{
    custom("name", value)
}

/// The `novalidate` attribute.
pub fn novalidate(value: &str) -> (a: Custom)
    ensures
        a@ == (AttrView { name: "novalidate"@, value: value@ }),
{
    custom("novalidate", value)
}

/// The `onabort` attribute.
pub fn onabort(value: &str) -> (a: Custom)
    ensures
        a@ == (AttrView { name: "onabort"@, value: value@ }),
{
    custom("onabort", value)
}

/// The `onafterprint` attribute.
pub fn onafterprint(value: &str) -> (a: Custom)
    ensures
        a@ == (AttrView { name: "onafterprint"@, value: value@ }),
{
    custom("onafterprint", value)
}

/// The `onbeforeprint` attribute.
pub fn onbeforeprint(value: &str) -> (a: Custom)
    ensures
        a@ == (AttrView { name: "onbeforeprint"@, value: value@ }),
{
    custom("onbeforeprint", value)
}

/// The `onbeforeunload` attribute.
pub fn onbeforeunload(value: &str) -> (a: Custom)
    ensures
        a@ == (AttrView { name: "onbeforeunload"@, value: value@ }),
{
    custom("onbeforeunload", value)
}

/// The `onblur` attribute.
pub fn onblur(value: &str) -> (a: Custom)
    ensures
        a@ == (AttrView { name: "onblur"@, value: value@ }),
{
    custom("onblur", value)
}

/// The `oncanplay` attribute.
pub fn oncanplay(value: &str) -> (a: Custom)
    ensures
        a@ == (AttrView { name: "oncanplay"@, value: value@ }),
{
    custom("oncanplay", value)
}

/// The `oncanplaythrough` attribute.
pub fn oncanplaythrough(value: &str) -> (a: Custom)
    ensures
        a@ == (AttrView { name: "oncanplaythrough"@, value: value@ }),
{
    custom("oncanplaythrough", value)
}

/// The `onchange` attribute.
pub fn onchange(value: &str) -> (a: Custom)
    ensures
        a@ == (AttrView { name: "onchange"@, value: value@ }),
{
    custom("onchange", value)
}

/// The `onclick` attribute.
pub fn onclick(value: &str) -> (a: Custom)
    ensures
        a@ == (AttrView { name: "onclick"@, value: value@ }),
{
    custom("onclick", value)
}

/// The `oncontextmenu` attribute.
pub fn oncontextmenu(value: &str) -> (a: Custom)
    ensures
        a@ == (AttrView { name: "oncontextmenu"@, value: value@ }),
{
    custom("oncontextmenu", value)
}

/// The `oncopy` attribute.
pub fn oncopy(value: &str) -> (a: Custom)
    ensures
        a@ == (AttrView { name: "oncopy"@, value: value@ }),
{
    custom("oncopy", value)
}

/// The `oncuechange` attribute.
pub fn oncuechange(value: &str) -> (a: Custom)
    ensures
        a@ == (AttrView { name: "oncuechange"@, value: value@ }),
{
    custom("oncuechange", value)
}

/// The `oncut` attribute.
pub fn oncut(value: &str) -> (a: Custom)
    ensures
        a@ == (AttrView { name: "oncut"@, value: value@ }),
{
    custom("oncut", value)
}

/// The `ondblclick` attribute.
pub fn ondblclick(value: &str) -> (a: Custom)
    ensures
        a@ == (AttrView { name: "ondblclick"@, value: value@ }),
{
    custom("ondblclick", value)
}

/// The `ondrag` attribute.
pub fn ondrag(value: &str) -> (a: Custom)
    ensures
        a@ == (AttrView { name: "ondrag"@, value: value@ }),
{
    custom("ondrag", value)
}

/// The `ondragend` attribute.
pub fn ondragend(value: &str) -> (a: Custom)
    ensures
        a@ == (AttrView { name: "ondragend"@, value: value@ }),
{
    custom("ondragend", value)
}

/// The `ondragenter` attribute.
pub fn ondragenter(value: &str) -> (a: Custom)
    ensures
        a@ == (AttrView { name: "ondragenter"@, value: value@ }),
{
    custom("ondragenter", value)
}

/// The `ondragleave` attribute.
pub fn ondragleave(value: &str) -> (a: Custom)
    ensures
        a@ == (AttrView { name: "ondragleave"@, value: value@ }),
{
    custom("ondragleave", value)
}

/// The `ondragover` attribute.
pub fn ondragover(value: &str) -> (a: Custom)
    ensures
        a@ == (AttrView { name: "ondragover"@, value: value@ }),
{
    custom("ondragover", value)
}

/// The `ondragstart` attribute.
pub fn ondragstart(value: &str) -> (a: Custom)
    ensures
        a@ == (AttrView { name: "ondragstart"@, value: value@ }),
{
    custom("ondragstart", value)
}

/// The `ondrop` attribute.
pub fn ondrop(value: &str) -> (a: Custom)
    ensures
        a@ == (AttrView { name: "ondrop"@, value: value@ }),
{
    custom("ondrop", value)
}

/// The `ondurationchange` attribute.
pub fn ondurationchange(value: &str) -> (a: Custom)
    ensures
        a@ == (AttrView { name: "ondurationchange"@, value: value@ }),
{
    custom("ondurationchange", value)
}

/// The `onemptied` attribute.
pub fn onemptied(value: &str) -> (a: Custom)
    ensures
        a@ == (AttrView { name: "onemptied"@, value: value@ }),
{
    custom("onemptied", value)
}

/// The `onended` attribute.
pub fn onended(value: &str) -> (a: Custom)
    ensures
        a@ == (AttrView { name: "onended"@, value: value@ }),
{
    custom("onended", value)
}

/// The `onerror` attribute.
pub fn onerror(value: &str) -> (a: Custom)
    ensures
        a@ == (AttrView { name: "onerror"@, value: value@ }),
{
    custom("onerror", value)
}

/// The `onfocus` attribute.
pub fn onfocus(value: &str) -> (a: Custom)
    ensures
        a@ == (AttrView { name: "onfocus"@, value: value@ }),
{
    custom("onfocus", value)
}

/// The `onhashchange` attribute.
pub fn onhashchange(value: &str) -> (a: Custom)
    ensures
        a@ == (AttrView { name: "onhashchange"@, value: value@ }),
{
    custom("onhashchange", value)
}

/// The `oninput` attribute.
pub fn oninput(value: &str) -> (a: Custom)
    ensures
        a@ == (AttrView { name: "oninput"@, value: value@ }),
{
    custom("oninput", value)
}

/// The `oninvalid` attribute.
pub fn oninvalid(value: &str) -> (a: Custom)
    ensures
        a@ == (AttrView { name: "oninvalid"@, value: value@ }),
{
    custom("oninvalid", value)
}

/// The `onkeydown` attribute.
pub fn onkeydown(value: &str) -> (a: Custom)
    ensures
        a@ == (AttrView { name: "onkeydown"@, value: value@ }),
{
    custom("onkeydown", value)
}

/// The `onkeypress` attribute.
pub fn onkeypress(value: &str) -> (a: Custom)
    ensures
        a@ == (AttrView { name: "onkeypress"@, value: value@ }),
{
    custom("onkeypress", value)
}

/// The `onkeyup` attribute.
pub fn onkeyup(value: &str) -> (a: Custom)
    ensures
        a@ == (AttrView { name: "onkeyup"@, value: value@ }),
{
    custom("onkeyup", value)
}

/// The `onload` attribute.
pub fn onload(value: &str) -> (a: Custom)
    ensures
        a@ == (AttrView { name: "onload"@, value: value@ }),
{
    custom("onload", value)
}

/// The `onloadeddata` attribute.
pub fn onloadeddata(value: &str) -> (a: Custom)
    ensures
        a@ == (AttrView { name: "onloadeddata"@, value: value@ }),
{
    custom("onloadeddata", value)
}

/// The `onloadedmetadata` attribute.
pub fn onloadedmetadata(value: &str) -> (a: Custom)
    ensures
        a@ == (AttrView { name: "onloadedmetadata"@, value: value@ }),
{
    custom("onloadedmetadata", value)
}

/// The `onloadstart` attribute.
pub fn onloadstart(value: &str) -> (a: Custom)
    ensures
        a@ == (AttrView { name: "onloadstart"@, value: value@ }),
{
    custom("onloadstart", value)
}

/// The `onmousedown` attribute.
pub fn onmousedown(value: &str) -> (a: Custom)
    ensures
        a@ == (AttrView { name: "onmousedown"@, value: value@ }),
{
    custom("onmousedown", value)
}

/// The `onmousemove` attribute.
pub fn onmousemove(value: &str) -> (a: Custom)
    ensures
        a@ == (AttrView { name: "onmousemove"@, value: value@ }),
{
    custom("onmousemove", value)
}

/// The `onmouseout` attribute.
pub fn onmouseout(value: &str) -> (a: Custom)
    ensures
        a@ == (AttrView { name: "onmouseout"@, value: value@ }),
{
    custom("onmouseout", value)
}

/// The `onmouseover` attribute.
pub fn onmouseover(value: &str) -> (a: Custom)
    ensures
        a@ == (AttrView { name: "onmouseover"@, value: value@ }),
{
    custom("onmouseover", value)
}

/// The `onmouseup` attribute.
pub fn onmouseup(value: &str) -> (a: Custom)
    ensures
        a@ == (AttrView { name: "onmouseup"@, value: value@ }),
{
    custom("onmouseup", value)
}

/// The `onmousewheel` attribute.
pub fn onmousewheel(value: &str) -> (a: Custom)
    ensures
        a@ == (AttrView { name: "onmousewheel"@, value: value@ }),
{
    custom("onmousewheel", value)
}

/// The `onoffline` attribute.
pub fn onoffline(value: &str) -> (a: Custom)
    ensures
        a@ == (AttrView { name: "onoffline"@, value: value@ }),
{
    custom("onoffline", value)
}

/// The `ononline` attribute.
pub fn ononline(value: &str) -> (a: Custom)
    ensures
        a@ == (AttrView { name: "ononline"@, value: value@ }),
{
    custom("ononline", value)
}

/// The `onpagehide` attribute.
pub fn onpagehide(value: &str) -> (a: Custom)
    ensures
        a@ == (AttrView { name: "onpagehide"@, value: value@ }),
{
    custom("onpagehide", value)
}

/// The `onpageshow` attribute.
pub fn onpageshow(value: &str) -> (a: Custom)
    ensures
        a@ == (AttrView { name: "onpageshow"@, value: value@ }),
{
    custom("onpageshow", value)
}

/// The `onpaste` attribute.
pub fn onpaste(value: &str) -> (a: Custom)
    ensures
        a@ == (AttrView { name: "onpaste"@, value: value@ }),
{
    custom("onpaste", value)
}

/// The `onpause` attribute.
pub fn onpause(value: &str) -> (a: Custom)
    ensures
        a@ == (AttrView { name: "onpause"@, value: value@ }),
{
    custom("onpause", value)
}

/// The `onplay` attribute.
pub fn onplay(value: &str) -> (a: Custom)
    ensures
        a@ == (AttrView { name: "onplay"@, value: value@ }),
{
    custom("onplay", value)
}

/// The `onplaying` attribute.
pub fn onplaying(value: &str) -> (a: Custom)
    ensures
        a@ == (AttrView { name: "onplaying"@, value: value@ }),
{
    custom("onplaying", value)
}

/// The `onpopstate` attribute.
pub fn onpopstate(value: &str) -> (a: Custom)
    ensures
        a@ == (AttrView { name: "onpopstate"@, value: value@ }),
{
    custom("onpopstate", value)
}

/// The `onprogress` attribute.
pub fn onprogress(value: &str) -> (a: Custom)
    ensures
        a@ == (AttrView { name: "onprogress"@, value: value@ }),
{
    custom("onprogress", value)
}

/// The `onratechange` attribute.
pub fn onratechange(value: &str) -> (a: Custom)
    ensures
        a@ == (AttrView { name: "onratechange"@, value: value@ }),
{
    custom("onratechange", value)
}

/// The `onreset` attribute.
pub fn onreset(value: &str) -> (a: Custom)
    ensures
        a@ == (AttrView { name: "onreset"@, value: value@ }),
{
    custom("onreset", value)
}

/// The `onresize` attribute.
pub fn onresize(value: &str) -> (a: Custom)
    ensures
        a@ == (AttrView { name: "onresize"@, value: value@ }),
{
    custom("onresize", value)
}

/// The `onscroll` attribute.
pub fn onscroll(value: &str) -> (a: Custom)
    ensures
        a@ == (AttrView { name: "onscroll"@, value: value@ }),
{
    custom("onscroll", value)
}

/// The `onsearch` attribute.
pub fn onsearch(value: &str) -> (a: Custom)
    ensures
        a@ == (AttrView { name: "onsearch"@, value: value@ }),
{
    custom("onsearch", value)
}

/// The `onseeked` attribute.
pub fn onseeked(value: &str) -> (a: Custom)
    ensures
        a@ == (AttrView { name: "onseeked"@, value: value@ }),
{
    custom("onseeked", value)
}

/// The `onseeking` attribute.
pub fn onseeking(value: &str) -> (a: Custom)
    ensures
        a@ == (AttrView { name: "onseeking"@, value: value@ }),
{
    custom("onseeking", value)
}

/// The `onselect` attribute.
pub fn onselect(value: &str) -> (a: Custom)
    ensures
        a@ == (AttrView { name: "onselect"@, value: value@ }),
{
    custom("onselect", value)
}

/// The `onstalled` attribute.
pub fn onstalled(value: &str) -> (a: Custom)
    ensures
        a@ == (AttrView { name: "onstalled"@, value: value@ }),
{
    custom("onstalled", value)
}

/// The `onstorage` attribute.
pub fn onstorage(value: &str) -> (a: Custom)
    ensures
        a@ == (AttrView { name: "onstorage"@, value: value@ }),
{
    custom("onstorage", value)
}

/// The `onsubmit` attribute.
pub fn onsubmit(value: &str) -> (a: Custom)
    ensures
        a@ == (AttrView { name: "onsubmit"@, value: value@ }),
{
    custom("onsubmit", value)
}

/// The `onsuspend` attribute.
pub fn onsuspend(value: &str) -> (a: Custom)
    ensures
        a@ == (AttrView { name: "onsuspend"@, value: value@ }),
{
    custom("onsuspend", value)
}

/// The `ontimeupdate` attribute.
pub fn ontimeupdate(value: &str) -> (a: Custom)
    ensures
        a@ == (AttrView { name: "ontimeupdate"@, value: value@ }),
{
    custom("ontimeupdate", value)
}

/// The `ontoggle` attribute.
pub fn ontoggle(value: &str) -> (a: Custom)
    ensures
        a@ == (AttrView { name: "ontoggle"@, value: value@ }),
{
    custom("ontoggle", value)
}

/// The `onunload` attribute.
pub fn onunload(value: &str) -> (a: Custom)
    ensures
        a@ == (AttrView { name: "onunload"@, value: value@ }),
{
    custom("onunload", value)
}

/// The `onvolumechange` attribute.
pub fn onvolumechange(value: &str) -> (a: Custom)
    ensures
        a@ == (AttrView { name: "onvolumechange"@, value: value@ }),
{
    custom("onvolumechange", value)
}

/// The `onwaiting` attribute.
pub fn onwaiting(value: &str) -> (a: Custom)
    ensures
        a@ == (AttrView { name: "onwaiting"@, value: value@ }),
{
    custom("onwaiting", value)
}

/// The `onwheel` attribute.
pub fn onwheel(value: &str) -> (a: Custom)
    ensures
        a@ == (AttrView { name: "onwheel"@, value: value@ }),
{
    custom("onwheel", value)
}

/// The `open` attribute.
pub fn open(value: &str) -> (a: Custom)
    ensures
        a@ == (AttrView { name: "open"@, value: value@ }),
{
    custom("open", value)
}

/// The `optimum` attribute.
pub fn optimum(value: &str) -> (a: Custom)
    ensures
        a@ == (AttrView { name: "optimum"@, value: value@ }),
{
    custom("optimum", value)
}

/// The `pattern` attribute.
pub fn pattern(value: &str) -> (a: Custom)
    ensures
        a@ == (AttrView { name: "pattern"@, value: value@ }),
{
    custom("pattern", value)
}

/// The `placeholder` attribute.
pub fn placeholder(value: &str) -> (a: Custom)
    ensures
        a@ == (AttrView { name: "placeholder"@, value: value@ }),
{
    custom("placeholder", value)
}

/// The `poster` attribute.
pub fn poster(value: &str) -> (a: Custom)
    ensures
        a@ == (AttrView { name: "poster"@, value: value@ }),
{
    custom("poster", value)
}

/// The `preload` attribute.
pub fn preload(value: &str) -> (a: Custom)
    ensures
        a@ == (AttrView { name: "preload"@, value: value@ }),
{
    custom("preload", value)
}

/// The `readonly` attribute.
pub fn readonly(value: &str) -> (a: Custom)
    ensures
        a@ == (AttrView { name: "readonly"@, value: value@ }),
{
    custom("readonly", value)
}

/// The `rel` attribute.
pub fn rel(value: &str) -> (a: Custom)
    ensures
        a@ == (AttrView { name: "rel"@, value: value@ }),
{
    custom("rel", value)
}

/// The `required` attribute.
pub fn required(value: &str) -> (a: Custom)
    ensures
        a@ == (AttrView { name: "required"@, value: value@ }),
{
    custom("required", value)
}

/// The `reversed` attribute.
pub fn reversed(value: &str) -> (a: Custom)
    ensures
        a@ == (AttrView { name: "reversed"@, value: value@ }),
{
    custom("reversed", value)
}

/// The `rows` attribute.
pub fn rows(value: &str) -> (a: Custom)
    ensures
        a@ == (AttrView { name: "rows"@, value: value@ }),
{
    custom("rows", value)
}

/// The `rowspan` attribute.
pub fn rowspan(value: &str) -> (a: Custom)
    ensures
        a@ == (AttrView { name: "rowspan"@, value: value@ }),
{
    custom("rowspan", value)
}

/// The `sandbox` attribute.
pub fn sandbox(value: &str) -> (a: Custom)
    ensures
        a@ == (AttrView { name: "sandbox"@, value: value@ }),
{
    custom("sandbox", value)
}

/// The `scope` attribute.
pub fn scope(value: &str) -> (a: Custom)
    ensures
        a@ == (AttrView { name: "scope"@, value: value@ }),
{
    custom("scope", value)
}

/// The `selected` attribute.
pub fn selected(value: &str) -> (a: Custom)
    ensures
        a@ == (AttrView { name: "selected"@, value: value@ }),
{
    custom("selected", value)
}

/// The `shape` attribute.
pub fn shape(value: &str) -> (a: Custom)
    ensures
        a@ == (AttrView { name: "shape"@, value: value@ }),
{
    custom("shape", value)
}

/// The `size` attribute.
pub fn size(value: &str) -> (a: Custom)
    ensures
        a@ == (AttrView { name: "size"@, value: value@ }),
{
    custom("size", value)
}

/// The `sizes` attribute.
pub fn sizes(value: &str) -> (a: Custom)
    ensures
        a@ == (AttrView { name: "sizes"@, value: value@ }),
{
    custom("sizes", value)
}

/// The `span` attribute.
pub fn span(value: &str) -> (a: Custom)
    ensures
        a@ == (AttrView { name: "span"@, value: value@ }),
{
    custom("span", value)
}

/// The `spellcheck` attribute.
pub fn spellcheck(value: &str) -> (a: Custom)
    ensures
        a@ == (AttrView { name: "spellcheck"@, value: value@ }),
{
    custom("spellcheck", value)
}

/// The `src` attribute.
pub fn src(value: &str) -> (a: Custom)
    ensures
        a@ == (AttrView { name: "src"@, value: value@ }),
{
    custom("src", value)
}

/// The `srcdoc` attribute.
pub fn srcdoc(value: &str) -> (a: Custom)
    ensures
        a@ == (AttrView { name: "srcdoc"@, value: value@ }),
{
    custom("srcdoc", value)
}

/// The `srclang` attribute.
pub fn srclang(value: &str) -> (a: Custom)
    ensures
        a@ == (AttrView { name: "srclang"@, value: value@ }),
{
    custom("srclang", value)
}

/// The `srcset` attribute.
pub fn srcset(value: &str) -> (a: Custom)
    ensures
        a@ == (AttrView { name: "srcset"@, value: value@ }),
{
    custom("srcset", value)
}

/// The `start` attribute.
pub fn start(value: &str) -> (a: Custom)
    ensures
        a@ == (AttrView { name: "start"@, value: value@ }),
{
    custom("start", value)
}

/// The `step` attribute.
pub fn step(value: &str) -> (a: Custom)
    ensures
        a@ == (AttrView { name: "step"@, value: value@ }),
{
    custom("step", value)
}

/// The `style` attribute.
pub fn style(value: &str) -> (a: Custom)
    ensures
        a@ == (AttrView { name: "style"@, value: value@ }),
{
    custom("style", value)
}

/// The `tabindex` attribute.
pub fn tabindex(value: &str) -> (a: Custom)
    ensures
        a@ == (AttrView { name: "tabindex"@, value: value@ }),
{
    custom("tabindex", value)
}

/// The `target` attribute.
pub fn target(value: &str) -> (a: Custom)
    ensures
        a@ == (AttrView { name: "target"@, value: value@ }),
{
    custom("target", value)
}

/// The `title` attribute.
pub fn title(value: &str) -> (a: Custom)
    ensures
        a@ == (AttrView { name: "title"@, value: value@ }),
{
    custom("title", value)
}

/// The `translate` attribute.
pub fn translate(value: &str) -> (a: Custom)
    ensures
        a@ == (AttrView { name: "translate"@, value: value@ }),
{
    custom("translate", value)
}

/// The `type` attribute.
pub fn type_(value: &str) -> (a: Custom)
    ensures
        a@ == (AttrView { name: "type"@, value: value@ }),
{
    custom("type", value)
}

/// The `usemap` attribute.
pub fn usemap(value: &str) -> (a: Custom)
    ensures
        a@ == (AttrView { name: "usemap"@, value: value@ }),
{
    custom("usemap", value)
}

/// The `value` attribute.
pub fn value(val: &str) -> (a: Custom)
    ensures
        a@ == (AttrView { name: "value"@, value: val@ }),
{
    custom("value", val)
}

/// The `width` attribute.
pub fn width(value: &str) -> (a: Custom)
    ensures
        a@ == (AttrView { name: "width"@, value: value@ }),
{
    custom("width", value)
}

/// The `wrap` attribute.
pub fn wrap(value: &str) -> (a: Custom)
    ensures
        a@ == (AttrView { name: "wrap"@, value: value@ }),
{
    custom("wrap", value)
}

} // verus!
