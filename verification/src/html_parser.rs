//! The decisions the HTML tree builder makes on plain values: which
//! element type a tag name denotes, and which external resource a freshly
//! created element asks the discovery pipeline for. The parser itself, the
//! fetching, and the channel plumbing are external collaborators.

use vstd::prelude::*;
use crate::node::{NodeTree, NodeKind, spec_get_attr};
use crate::style::str_eq;

verus! {

/// The level of a heading element.
#[derive(Clone, Copy, Debug, PartialEq, Eq, Structural)]
pub enum HeadingLevel {
    Heading1,
    Heading2,
    Heading3,
    Heading4,
    Heading5,
    Heading6,
}

/// The element type a tag name denotes.
#[derive(Clone, Copy, Debug, PartialEq, Eq, Structural)]
pub enum ElementType {
    HTMLAnchorElement,
    HTMLAppletElement,
    HTMLAreaElement,
    HTMLBaseElement,
    HTMLBRElement,
    HTMLBodyElement,
    HTMLButtonElement,
    HTMLCanvasElement,
    HTMLDataElement,
    HTMLDataListElement,
    HTMLDirectoryElement,
    HTMLDivElement,
    HTMLDListElement,
    HTMLEmbedElement,
    HTMLFieldSetElement,
    HTMLFontElement,
    HTMLFormElement,
    HTMLFrameElement,
    HTMLFrameSetElement,
    HTMLHRElement,
    HTMLHeadElement,
    HTMLHtmlElement,
    HTMLInputElement,
    HTMLLabelElement,
    HTMLLegendElement,
    HTMLLinkElement,
    HTMLLIElement,
    HTMLMapElement,
    HTMLMetaElement,
    HTMLMeterElement,
    HTMLModElement,
    HTMLObjectElement,
    HTMLOListElement,
    HTMLOptionElement,
    HTMLOptGroupElement,
    HTMLOutputElement,
    HTMLParagraphElement,
    HTMLParamElement,
    HTMLPreElement,
    HTMLProgressElement,
    HTMLQuoteElement,
    HTMLScriptElement,
    HTMLSelectElement,
    HTMLSourceElement,
    HTMLSpanElement,
    HTMLStyleElement,
    HTMLTableElement,
    HTMLTableCaptionElement,
    HTMLTableColElement,
    HTMLTableSectionElement,
    HTMLTemplateElement,
    HTMLTextAreaElement,
    HTMLTimeElement,
    HTMLTitleElement,
    HTMLTableRowElement,
    HTMLTrackElement,
    HTMLUListElement,
    HTMLImageElement,
    HTMLIframeElement,
    HTMLElement,
    HTMLAudioElement,
    HTMLVideoElement,
    HTMLTableDataCellElement,
    HTMLTableHeaderCellElement,
    HTMLHeadingElement(HeadingLevel),
    HTMLUnknownElement,
}

/// The element type for each tag name; unknown tags map to the unknown
/// element.
pub open spec fn spec_element_type(tag: Seq<char>) -> ElementType {
    if tag == "a"@ {
        ElementType::HTMLAnchorElement
    } else if tag == "applet"@ {
        ElementType::HTMLAppletElement
    } else if tag == "area"@ {
        ElementType::HTMLAreaElement
    } else if tag == "base"@ {
        ElementType::HTMLBaseElement
    } else if tag == "br"@ {
        ElementType::HTMLBRElement
    } else if tag == "body"@ {
        ElementType::HTMLBodyElement
    } else if tag == "button"@ {
        ElementType::HTMLButtonElement
    } else if tag == "canvas"@ {
        ElementType::HTMLCanvasElement
    } else if tag == "data"@ {
        ElementType::HTMLDataElement
    } else if tag == "datalist"@ {
        ElementType::HTMLDataListElement
    } else if tag == "directory"@ {
        ElementType::HTMLDirectoryElement
    } else if tag == "div"@ {
        ElementType::HTMLDivElement
    } else if tag == "dl"@ {
        ElementType::HTMLDListElement
    } else if tag == "embed"@ {
        ElementType::HTMLEmbedElement
    } else if tag == "fieldset"@ {
        ElementType::HTMLFieldSetElement
    } else if tag == "font"@ {
        ElementType::HTMLFontElement
    } else if tag == "form"@ {
        ElementType::HTMLFormElement
    } else if tag == "frame"@ {
        ElementType::HTMLFrameElement
    } else if tag == "frameset"@ {
        ElementType::HTMLFrameSetElement
    } else if tag == "hr"@ {
        ElementType::HTMLHRElement
    } else if tag == "head"@ {
        ElementType::HTMLHeadElement
    } else if tag == "html"@ {
        ElementType::HTMLHtmlElement
    } else if tag == "input"@ {
        ElementType::HTMLInputElement
    } else if tag == "label"@ {
        ElementType::HTMLLabelElement
    } else if tag == "legend"@ {
        ElementType::HTMLLegendElement
    } else if tag == "link"@ {
        ElementType::HTMLLinkElement
    } else if tag == "li"@ {
        ElementType::HTMLLIElement
    } else if tag == "map"@ {
        ElementType::HTMLMapElement
    } else if tag == "meta"@ {
        ElementType::HTMLMetaElement
    } else if tag == "meter"@ {
        ElementType::HTMLMeterElement
    } else if tag == "mod"@ {
        ElementType::HTMLModElement
    } else if tag == "object"@ {
        ElementType::HTMLObjectElement
    } else if tag == "ol"@ {
        ElementType::HTMLOListElement
    } else if tag == "option"@ {
        ElementType::HTMLOptionElement
    } else if tag == "optgroup"@ {
        ElementType::HTMLOptGroupElement
    } else if tag == "output"@ {
        ElementType::HTMLOutputElement
    } else if tag == "p"@ {
        ElementType::HTMLParagraphElement
    } else if tag == "param"@ {
        ElementType::HTMLParamElement
    } else if tag == "pre"@ {
        ElementType::HTMLPreElement
    } else if tag == "progress"@ {
        ElementType::HTMLProgressElement
    } else if tag == "q"@ {
        ElementType::HTMLQuoteElement
    } else if tag == "script"@ {
        ElementType::HTMLScriptElement
    } else if tag == "select"@ {
        ElementType::HTMLSelectElement
    } else if tag == "source"@ {
        ElementType::HTMLSourceElement
    } else if tag == "span"@ {
        ElementType::HTMLSpanElement
    } else if tag == "style"@ {
        ElementType::HTMLStyleElement
    } else if tag == "table"@ {
        ElementType::HTMLTableElement
    } else if tag == "caption"@ {
        ElementType::HTMLTableCaptionElement
    } else if tag == "col"@ {
        ElementType::HTMLTableColElement
    } else if tag == "colgroup"@ {
        ElementType::HTMLTableColElement
    } else if tag == "tbody"@ {
        ElementType::HTMLTableSectionElement
    } else if tag == "template"@ {
        ElementType::HTMLTemplateElement
    } else if tag == "textarea"@ {
        ElementType::HTMLTextAreaElement
    } else if tag == "time"@ {
        ElementType::HTMLTimeElement
    } else if tag == "title"@ {
        ElementType::HTMLTitleElement
    } else if tag == "tr"@ {
        ElementType::HTMLTableRowElement
    } else if tag == "track"@ {
        ElementType::HTMLTrackElement
    } else if tag == "ul"@ {
        ElementType::HTMLUListElement
    } else if tag == "img"@ {
        ElementType::HTMLImageElement
    } else if tag == "iframe"@ {
        ElementType::HTMLIframeElement
    } else if tag == "h1"@ {
        ElementType::HTMLHeadingElement(HeadingLevel::Heading1)
    } else if tag == "h2"@ {
        ElementType::HTMLHeadingElement(HeadingLevel::Heading2)
    } else if tag == "h3"@ {
        ElementType::HTMLHeadingElement(HeadingLevel::Heading3)
    } else if tag == "h4"@ {
        ElementType::HTMLHeadingElement(HeadingLevel::Heading4)
    } else if tag == "h5"@ {
        ElementType::HTMLHeadingElement(HeadingLevel::Heading5)
    } else if tag == "h6"@ {
        ElementType::HTMLHeadingElement(HeadingLevel::Heading6)
    } else if tag == "aside"@ {
        ElementType::HTMLElement
    } else if tag == "b"@ {
        ElementType::HTMLElement
    } else if tag == "i"@ {
        ElementType::HTMLElement
    } else if tag == "section"@ {
        ElementType::HTMLElement
    } else if tag == "small"@ {
        ElementType::HTMLElement
    } else if tag == "audio"@ {
        ElementType::HTMLAudioElement
    } else if tag == "video"@ {
        ElementType::HTMLVideoElement
    } else if tag == "td"@ {
        ElementType::HTMLTableDataCellElement
    } else if tag == "th"@ {
        ElementType::HTMLTableHeaderCellElement
    } else {
        ElementType::HTMLUnknownElement
    }
}

/// Maps a tag name to the element type to construct for it.
#[verifier::rlimit(60)]
#[verifier::spinoff_prover]
pub fn build_element_from_tag(tag: &str) -> (r: ElementType)
    ensures
        r == spec_element_type(tag@),
{
    if str_eq(tag, "a") {
        ElementType::HTMLAnchorElement
    } else if str_eq(tag, "applet") {
        ElementType::HTMLAppletElement
    } else if str_eq(tag, "area") {
        ElementType::HTMLAreaElement
    } else if str_eq(tag, "base") {
        ElementType::HTMLBaseElement
    } else if str_eq(tag, "br") {
        ElementType::HTMLBRElement
    } else if str_eq(tag, "body") {
        ElementType::HTMLBodyElement
    } else if str_eq(tag, "button") {
        ElementType::HTMLButtonElement
    } else if str_eq(tag, "canvas") {
        ElementType::HTMLCanvasElement
    } else if str_eq(tag, "data") {
        ElementType::HTMLDataElement
    } else if str_eq(tag, "datalist") {
        ElementType::HTMLDataListElement
    } else if str_eq(tag, "directory") {
        ElementType::HTMLDirectoryElement
    } else if str_eq(tag, "div") {
        ElementType::HTMLDivElement
    } else if str_eq(tag, "dl") {
        ElementType::HTMLDListElement
    } else if str_eq(tag, "embed") {
        ElementType::HTMLEmbedElement
    } else if str_eq(tag, "fieldset") {
        ElementType::HTMLFieldSetElement
    } else if str_eq(tag, "font") {
        ElementType::HTMLFontElement
    } else if str_eq(tag, "form") {
        ElementType::HTMLFormElement
    } else if str_eq(tag, "frame") {
        ElementType::HTMLFrameElement
    } else if str_eq(tag, "frameset") {
        ElementType::HTMLFrameSetElement
    } else if str_eq(tag, "hr") {
        ElementType::HTMLHRElement
    } else if str_eq(tag, "head") {
        ElementType::HTMLHeadElement
    } else if str_eq(tag, "html") {
        ElementType::HTMLHtmlElement
    } else if str_eq(tag, "input") {
        ElementType::HTMLInputElement
    } else if str_eq(tag, "label") {
        ElementType::HTMLLabelElement
    } else if str_eq(tag, "legend") {
        ElementType::HTMLLegendElement
    } else if str_eq(tag, "link") {
        ElementType::HTMLLinkElement
    } else if str_eq(tag, "li") {
        ElementType::HTMLLIElement
    } else if str_eq(tag, "map") {
        ElementType::HTMLMapElement
    } else if str_eq(tag, "meta") {
        ElementType::HTMLMetaElement
    } else if str_eq(tag, "meter") {
        ElementType::HTMLMeterElement
    } else if str_eq(tag, "mod") {
        ElementType::HTMLModElement
    } else if str_eq(tag, "object") {
        ElementType::HTMLObjectElement
    } else if str_eq(tag, "ol") {
        ElementType::HTMLOListElement
    } else if str_eq(tag, "option") {
        ElementType::HTMLOptionElement
    } else if str_eq(tag, "optgroup") {
        ElementType::HTMLOptGroupElement
    } else if str_eq(tag, "output") {
        ElementType::HTMLOutputElement
    } else if str_eq(tag, "p") {
        ElementType::HTMLParagraphElement
    } else if str_eq(tag, "param") {
        ElementType::HTMLParamElement
    } else if str_eq(tag, "pre") {
        ElementType::HTMLPreElement
    } else if str_eq(tag, "progress") {
        ElementType::HTMLProgressElement
    } else if str_eq(tag, "q") {
        ElementType::HTMLQuoteElement
    } else if str_eq(tag, "script") {
        ElementType::HTMLScriptElement
    } else if str_eq(tag, "select") {
        ElementType::HTMLSelectElement
    } else if str_eq(tag, "source") {
        ElementType::HTMLSourceElement
    } else if str_eq(tag, "span") {
        ElementType::HTMLSpanElement
    } else if str_eq(tag, "style") {
        ElementType::HTMLStyleElement
    } else if str_eq(tag, "table") {
        ElementType::HTMLTableElement
    } else if str_eq(tag, "caption") {
        ElementType::HTMLTableCaptionElement
    } else if str_eq(tag, "col") {
        ElementType::HTMLTableColElement
    } else if str_eq(tag, "colgroup") {
        ElementType::HTMLTableColElement
    } else if str_eq(tag, "tbody") {
        ElementType::HTMLTableSectionElement
    } else if str_eq(tag, "template") {
        ElementType::HTMLTemplateElement
    } else if str_eq(tag, "textarea") {
        ElementType::HTMLTextAreaElement
    } else if str_eq(tag, "time") {
        ElementType::HTMLTimeElement
    } else if str_eq(tag, "title") {
        ElementType::HTMLTitleElement
    } else if str_eq(tag, "tr") {
        ElementType::HTMLTableRowElement
    } else if str_eq(tag, "track") {
        ElementType::HTMLTrackElement
    } else if str_eq(tag, "ul") {
        ElementType::HTMLUListElement
    } else if str_eq(tag, "img") {
        ElementType::HTMLImageElement
    } else if str_eq(tag, "iframe") {
        ElementType::HTMLIframeElement
    } else if str_eq(tag, "h1") {
        ElementType::HTMLHeadingElement(HeadingLevel::Heading1)
    } else if str_eq(tag, "h2") {
        ElementType::HTMLHeadingElement(HeadingLevel::Heading2)
    } else if str_eq(tag, "h3") {
        ElementType::HTMLHeadingElement(HeadingLevel::Heading3)
    } else if str_eq(tag, "h4") {
        ElementType::HTMLHeadingElement(HeadingLevel::Heading4)
    } else if str_eq(tag, "h5") {
        ElementType::HTMLHeadingElement(HeadingLevel::Heading5)
    } else if str_eq(tag, "h6") {
        ElementType::HTMLHeadingElement(HeadingLevel::Heading6)
    } else if str_eq(tag, "aside") {
        ElementType::HTMLElement
    } else if str_eq(tag, "b") {
        ElementType::HTMLElement
    } else if str_eq(tag, "i") {
        ElementType::HTMLElement
    } else if str_eq(tag, "section") {
        ElementType::HTMLElement
    } else if str_eq(tag, "small") {
        ElementType::HTMLElement
    } else if str_eq(tag, "audio") {
        ElementType::HTMLAudioElement
    } else if str_eq(tag, "video") {
        ElementType::HTMLVideoElement
    } else if str_eq(tag, "td") {
        ElementType::HTMLTableDataCellElement
    } else if str_eq(tag, "th") {
        ElementType::HTMLTableHeaderCellElement
    } else {
        ElementType::HTMLUnknownElement
    }
}


/// One JavaScript source delivered by the discovery pipeline.
#[derive(Clone, Debug)]
pub struct JSFile {
    pub data: String,
    pub url: String,
}

/// A message generated by the tree builder upon discovery of additional
/// resources: a stylesheet's source text, an iframe (its URL, subpage id
/// and sandbox flag), or the collected scripts.
#[derive(Clone, Debug)]
pub enum HtmlDiscoveryMessage {
    HtmlDiscoveredStyle(String),
    HtmlDiscoveredIFrame(String, u64, bool),
    HtmlDiscoveredScript(Vec<JSFile>),
}

/// What building the tree hands back: the root node's id in the arena and
/// the document's final URL.
#[derive(Clone, Debug)]
pub struct HtmlParserResult {
    pub root: usize,
    pub url: String,
}

/// The external resource a freshly created element asks for.
#[derive(Clone, Debug)]
pub enum DiscoveryRequest {
    LoadStylesheet(String),
    LoadIFrame(String, bool),
    UpdateImage(Option<String>),
}

/// The text payloads of a node's text children below `upto`, concatenated
/// in arena order.
pub open spec fn spec_concat_text_children(tree: NodeTree, node: int, upto: int) -> Seq<char>
    decreases upto,
{
    if upto <= 0 {
        Seq::empty()
    } else {
        let prev = spec_concat_text_children(tree, node, upto - 1);
        let nd = tree.nodes@[upto - 1];
        if nd.parent == Some(node as usize) && nd.kind is Text {
            prev + nd.kind->Text_0@
        } else {
            prev
        }
    }
}

/// What running a completed script element asks for: fetching its `src`,
/// or running the concatenated text of its children inline.
#[derive(Clone, Debug)]
pub enum ScriptAction {
    ExternalScript(String),
    InlineScript(String),
}

impl NodeTree {
    /// The concatenated text of `node`'s text children, in order.
    pub fn concat_text_children(&self, node: usize) -> (r: String)
        requires
            node < self.nodes@.len(),
        ensures
            r@ == spec_concat_text_children(*self, node as int, self.nodes@.len() as int),
    {
        let mut out = String::new();
        let len = self.nodes.len();
        let mut i: usize = 0;
        while i < len
            invariant
                len == self.nodes@.len(),
                0 <= i <= len,
                out@ == spec_concat_text_children(*self, node as int, i as int),
            decreases len - i,
        {
            let is_text_child = match self.nodes[i].parent {
                Some(p) => p == node,
                None => false,
            };
            if is_text_child {
                match &self.nodes[i].kind {
                    NodeKind::Text(t) => {
                        out.append(t.as_str());
                    },
                    NodeKind::Element(_) => {},
                }
            }
            i = i + 1;
        }
        out
    }

    /// What a completed script element asks for: its `src` attribute when
    /// it has one, else its children's text as an inline script.
    pub fn script_action(&self, node: usize) -> (r: ScriptAction)
        requires
            node < self.nodes@.len(),
            self.nodes@[node as int].kind is Element,
        ensures
            match r {
                ScriptAction::ExternalScript(src) => (self.nodes@[node as int].kind
                    matches NodeKind::Element(e) && spec_get_attr(e.attrs@, "src"@)
                    == Some(src@)),
                ScriptAction::InlineScript(text) => (self.nodes@[node as int].kind
                    matches NodeKind::Element(e) && spec_get_attr(e.attrs@, "src"@) is None)
                    && text@ == spec_concat_text_children(*self, node as int,
                    self.nodes@.len() as int),
            },
    {
        let src = match &self.nodes[node].kind {
            NodeKind::Element(e) => match e.get_attr("src") {
                Some(v) => Some(v.clone()),
                None => None,
            },
            NodeKind::Text(_) => None,
        };
        match src {
            Some(v) => ScriptAction::ExternalScript(v),
            None => ScriptAction::InlineScript(self.concat_text_children(node)),
        }
    }

    /// The external resource a freshly created element asks the discovery
    /// pipeline for: the stylesheet a `link rel="stylesheet"` points at,
    /// the page an `iframe` embeds (with its sandbox flag), or an image
    /// update for an `img`.
    pub fn discovery_request(&self, node: usize) -> (r: Option<DiscoveryRequest>)
        requires
            node < self.nodes@.len(),
            self.nodes@[node as int].kind is Element,
        ensures
            ({
                let e = self.nodes@[node as int].kind->Element_0;
                let kind = spec_element_type(e.tag@);
                match r {
                    Some(DiscoveryRequest::LoadStylesheet(href)) => {
                        &&& kind == ElementType::HTMLLinkElement
                        &&& spec_get_attr(e.attrs@, "rel"@) == Some("stylesheet"@)
                        &&& spec_get_attr(e.attrs@, "href"@) == Some(href@)
                    },
                    Some(DiscoveryRequest::LoadIFrame(src, sandboxed)) => {
                        &&& kind == ElementType::HTMLIframeElement
                        &&& spec_get_attr(e.attrs@, "src"@) == Some(src@)
                        &&& sandboxed == (spec_get_attr(e.attrs@, "sandbox"@) is Some)
                    },
                    Some(DiscoveryRequest::UpdateImage(src)) => {
                        &&& kind == ElementType::HTMLImageElement
                        &&& match src {
                            Some(v) => spec_get_attr(e.attrs@, "src"@) == Some(v@),
                            None => spec_get_attr(e.attrs@, "src"@) is None,
                        }
                    },
                    None => {
                        &&& !(kind == ElementType::HTMLLinkElement && spec_get_attr(e.attrs@,
                            "rel"@) == Some("stylesheet"@) && spec_get_attr(e.attrs@,
                            "href"@) is Some)
                        &&& !(kind == ElementType::HTMLIframeElement && spec_get_attr(e.attrs@,
                            "src"@) is Some)
                        &&& kind != ElementType::HTMLImageElement
                    },
                }
            }),
    {
        let e = match &self.nodes[node].kind {
            NodeKind::Element(e) => e,
            NodeKind::Text(_) => {
                return None;
            },
        };
        let kind = build_element_from_tag(e.tag.as_str());
        match kind {
            ElementType::HTMLLinkElement => {
                let rel = e.get_attr("rel");
                let href = e.get_attr("href");
                match (rel, href) {
                    (Some(rel), Some(href)) => {
                        if str_eq(rel.as_str(), "stylesheet") {
                            Some(DiscoveryRequest::LoadStylesheet(href.clone()))
                        } else {
                            None
                        }
                    },
                    _ => None,
                }
            },
            ElementType::HTMLIframeElement => {
                let sandboxed = match e.get_attr("sandbox") {
                    Some(_) => true,
                    None => false,
                };
                match e.get_attr("src") {
                    Some(src) => Some(DiscoveryRequest::LoadIFrame(src.clone(), sandboxed)),
                    None => None,
                }
            },
            ElementType::HTMLImageElement => {
                match e.get_attr("src") {
                    Some(src) => Some(DiscoveryRequest::UpdateImage(Some(src.clone()))),
                    None => Some(DiscoveryRequest::UpdateImage(None)),
                }
            },
            _ => None,
        }
    }
}

} // verus!
