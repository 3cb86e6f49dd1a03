use std::borrow::Cow;
use vstd::prelude::*;

use crate::audio::{Audio, AudioView};
use crate::breaks::{Break, BreakView};
use crate::custom::{DynElement, DynElementView};
use crate::emphasis::{Emphasis, EmphasisView};
use crate::error::Error;
use crate::group::Group;
use crate::lang::{Lang, LangView};
use crate::mark::{render_mark, Mark};
use crate::mstts;
use crate::prosody::{Prosody, ProsodyView};
use crate::say_as::{SayAs, SayAsView};
use crate::text::Text;
use crate::util;
use crate::voice::{Voice, VoiceView};
use crate::xml::{WriterView, XmlWriter};
use crate::{Meta, MetaView, Outcome, Serialize, SerializeOptions};

verus! {

/// Represents all SSML elements.
#[derive(Debug)]
#[non_exhaustive]
pub enum Element<'s> {
    Text(Text<'s>),
    Audio(Audio<'s>),
    Voice(Voice<'s>),
    Meta(Meta<'s>),
    Break(Break),
    Emphasis(Emphasis<'s>),
    Mark(Mark<'s>),
    SayAs(SayAs<'s>),
    Prosody(Prosody<'s>),
    Lang(Lang<'s>),
    /// An element that only one flavor knows.
    FlavorMSTTS(mstts::Element<'s>),
    /// An element that this library has no type for.
    Custom(CustomElement<'s>),
    /// An element of the caller's making, behind a handle.
    Dyn(DynElement),
    /// A sequence of elements that stands where one element is expected.
    Group(Group<'s>),
}

/// The mathematical content of an [`Element`]: what it holds, whether
/// borrowed or owned.
pub enum ElementView {
    Text(Seq<char>),
    Audio(AudioView),
    Voice(VoiceView),
    Meta(MetaView),
    Break(BreakView),
    Emphasis(EmphasisView),
    Mark(Seq<char>),
    SayAs(SayAsView),
    Prosody(ProsodyView),
    Lang(LangView),
    FlavorMSTTS(mstts::ElementView),
    Custom(CustomElementView),
    Dyn(DynElementView),
    Group(Seq<ElementView>),
}

/// The contents of a list of elements.
pub open spec fn views(elements: Seq<Element<'_>>) -> Seq<ElementView>
    decreases elements,
{
    Seq::new(
        elements.len(),
        |i: int|
            if 0 <= i < elements.len() {
                elements[i]@
            } else {
                ElementView::Text(Seq::empty())
            },
    )
}

impl ElementView {
    /// What serializing the element into a writer in state `writer` does:
    /// each kind of element renders itself.
    pub open spec fn render(self, writer: WriterView, options: SerializeOptions) -> Outcome
        decreases self,
    {
        match self {
            ElementView::Text(text) => Outcome::of(writer).text(text),
            ElementView::Audio(audio) => audio.render(writer, options),
            ElementView::Voice(voice) => voice.render(writer, options),
            ElementView::Meta(meta) => meta.render(writer, options),
            ElementView::Break(pause) => pause.render(writer),
            ElementView::Emphasis(emphasis) => emphasis.render(writer, options),
            ElementView::Mark(name) => render_mark(name, writer, options),
            ElementView::SayAs(say_as) => say_as.render(writer, options),
            ElementView::Prosody(prosody) => prosody.render(writer, options),
            ElementView::Lang(lang) => lang.render(writer, options),
            ElementView::FlavorMSTTS(vendor) => vendor.render(writer, options),
            ElementView::Custom(custom) => custom.render(writer, options),
            ElementView::Dyn(custom) => custom.render(writer, options),
            ElementView::Group(children) => util::render_all(
                children,
                0,
                Outcome::of(writer),
                options,
                false,
            ),
        }
    }
}

impl ElementView {
    /// Whether the element writes nothing: only a group does, where its
    /// elements write nothing.
    pub open spec fn is_void(self) -> bool
        decreases self,
    {
        match self {
            ElementView::Group(children) => util::all_void(children, 0),
            _ => false,
        }
    }
}

impl ElementView {
    /// Whether no element of the caller's making in it fails for the flavor.
    pub open spec fn is_reliable(self, flavor: crate::Flavor) -> bool
        decreases self,
    {
        match self {
            ElementView::Dyn(custom) => custom.rendering(flavor) is Ok,
            ElementView::Audio(audio) => util::all_reliable(audio.alternate, 0, flavor),
            ElementView::Voice(voice) => util::all_reliable(voice.children, 0, flavor),
            ElementView::Emphasis(emphasis) => util::all_reliable(emphasis.children, 0, flavor),
            ElementView::Prosody(prosody) => util::all_reliable(prosody.children, 0, flavor),
            ElementView::Lang(lang) => util::all_reliable(lang.children, 0, flavor),
            ElementView::FlavorMSTTS(mstts::ElementView::Express(express)) => util::all_reliable(
                express.children,
                0,
                flavor,
            ),
            ElementView::Custom(custom) => util::all_reliable(custom.children, 0, flavor),
            ElementView::Group(children) => util::all_reliable(children, 0, flavor),
            _ => true,
        }
    }
}

impl<'s> Element<'s> {
    pub open spec fn view(&self) -> ElementView
        decreases self,
    {
        match self {
            Element::Text(el) => ElementView::Text(el@),
            Element::Audio(el) => ElementView::Audio(el@),
            Element::Voice(el) => ElementView::Voice(el@),
            Element::Meta(el) => ElementView::Meta(el@),
            Element::Break(el) => ElementView::Break(el@),
            Element::Emphasis(el) => ElementView::Emphasis(el@),
            Element::Mark(el) => ElementView::Mark(el@),
            Element::SayAs(el) => ElementView::SayAs(el@),
            Element::Prosody(el) => ElementView::Prosody(el@),
            Element::Lang(el) => ElementView::Lang(el@),
            Element::FlavorMSTTS(el) => ElementView::FlavorMSTTS(el@),
            Element::Custom(el) => ElementView::Custom(el@),
            Element::Dyn(el) => ElementView::Dyn(el@),
            Element::Group(el) => ElementView::Group(el@),
        }
    }

    /// Whether the element is a plain text.
    pub fn is_text(&self) -> (r: bool)
        ensures
            r == (self@ is Text),
    {
        match self {
            Element::Text(_) => true,
            _ => false,
        }
    }

    /// A copy that borrows nothing.
    pub fn to_owned(&self) -> (r: Element<'static>)
        ensures
            r@ == self@,
        decreases self,
    {
        match self {
            Element::Text(el) => Element::Text(el.to_owned()),
            Element::Audio(el) => {
                proof {
                    assert(decreases_to!(*self => self->Audio_0));
                }
                Element::Audio(el.to_owned())
            },
            Element::Voice(el) => {
                proof {
                    assert(decreases_to!(*self => self->Voice_0));
                }
                Element::Voice(el.to_owned())
            },
            Element::Meta(el) => Element::Meta(el.to_owned()),
            Element::Break(el) => Element::Break(el.clone()),
            Element::Emphasis(el) => {
                proof {
                    assert(decreases_to!(*self => self->Emphasis_0));
                }
                Element::Emphasis(el.to_owned())
            },
            Element::Mark(el) => Element::Mark(el.to_owned()),
            Element::SayAs(el) => Element::SayAs(el.to_owned()),
            Element::Prosody(el) => {
                proof {
                    assert(decreases_to!(*self => self->Prosody_0));
                }
                Element::Prosody(el.to_owned())
            },
            Element::Lang(el) => {
                proof {
                    assert(decreases_to!(*self => self->Lang_0));
                }
                Element::Lang(el.to_owned())
            },
            Element::FlavorMSTTS(el) => {
                proof {
                    assert(decreases_to!(*self => self->FlavorMSTTS_0));
                }
                Element::FlavorMSTTS(el.to_owned())
            },
            Element::Custom(el) => {
                proof {
                    assert(decreases_to!(*self => self->Custom_0));
                }
                Element::Custom(el.to_owned())
            },
            Element::Dyn(el) => Element::Dyn(el.clone()),
            Element::Group(el) => {
                proof {
                    assert(decreases_to!(*self => self->Group_0));
                }
                Element::Group(el.to_owned())
            },
        }
    }

    /// The same element, borrowing nothing.
    pub fn into_owned(self) -> (r: Element<'static>)
        ensures
            r@ == self@,
        decreases self,
    {
        match self {
            Element::Text(el) => Element::Text(el.into_owned()),
            Element::Audio(el) => Element::Audio(el.into_owned()),
            Element::Voice(el) => Element::Voice(el.into_owned()),
            Element::Meta(el) => Element::Meta(el.into_owned()),
            Element::Break(el) => Element::Break(el),
            Element::Emphasis(el) => Element::Emphasis(el.into_owned()),
            Element::Mark(el) => Element::Mark(el.into_owned()),
            Element::SayAs(el) => Element::SayAs(el.into_owned()),
            Element::Prosody(el) => Element::Prosody(el.into_owned()),
            Element::Lang(el) => Element::Lang(el.into_owned()),
            Element::FlavorMSTTS(el) => Element::FlavorMSTTS(el.into_owned()),
            Element::Custom(el) => Element::Custom(el.into_owned()),
            Element::Dyn(el) => Element::Dyn(el),
            Element::Group(el) => Element::Group(el.into_owned()),
        }
    }
}

impl<'s> Clone for Element<'s> {
    fn clone(&self) -> (r: Self)
        ensures
            r@ == self@,
    {
        self.to_owned()
    }
}

/// Owned copies of a list of elements.
pub(crate) fn owned_all(elements: &Vec<Element<'_>>) -> (r: Vec<Element<'static>>)
    ensures
        views(r@) == views(elements@),
    decreases elements,
{
    let mut out: Vec<Element<'static>> = Vec::new();
    let mut i: usize = 0;
    while i < elements.len()
        invariant
            i <= elements.len(),
            out.len() == i,
            forall|j: int| 0 <= j < i ==> out[j]@ == elements[j]@,
        decreases elements.len() - i,
    {
        proof {
            vstd::std_specs::vec::axiom_vec_index_decreases(*elements, i as int);
        }
        let el = elements[i].to_owned();
        out.push(el);
        i += 1;
    }
    assert(views(out@) =~= views(elements@));
    out
}

/// A list of elements as elements that borrow nothing.
pub(crate) fn into_owned_all(elements: Vec<Element<'_>>) -> (r: Vec<Element<'static>>)
    ensures
        views(r@) == views(elements@),
    decreases elements,
{
    let mut out: Vec<Element<'static>> = Vec::new();
    for el in it: elements.into_iter()
        invariant
            it.seq() == elements@,
            out.len() == it.index(),
            forall|j: int| 0 <= j < it.index() ==> out[j]@ == elements[j]@,
    {
        proof {
            vstd::std_specs::vec::axiom_vec_index_decreases(elements, it.index() as int);
        }
        out.push(el.into_owned());
    }
    assert(views(out@) =~= views(elements@));
    out
}

impl<'s> Serialize for Element<'s> {
    open spec fn rendered(&self, writer: WriterView, options: SerializeOptions) -> Outcome {
        self@.render(writer, options)
    }

    fn serialize_xml(&self, writer: &mut XmlWriter, options: &SerializeOptions) -> (r: Result<(), Error>)
        decreases self,
    {
        assert(self.rendered(writer@, *options) == self@.render(writer@, *options));
        match self {
            Element::Text(el) => {
                assert(el.rendered(writer@, *options) == self@.render(writer@, *options));
                el.serialize_xml(writer, options)
            },
            Element::Audio(el) => {
                proof {
                    assert(decreases_to!(*self => self->Audio_0));
                }
                assert(el.rendered(writer@, *options) == self@.render(writer@, *options));
                el.serialize_xml(writer, options)
            },
            Element::Voice(el) => {
                proof {
                    assert(decreases_to!(*self => self->Voice_0));
                }
                assert(el.rendered(writer@, *options) == self@.render(writer@, *options));
                el.serialize_xml(writer, options)
            },
            Element::Meta(el) => {
                assert(el.rendered(writer@, *options) == self@.render(writer@, *options));
                el.serialize_xml(writer, options)
            },
            Element::Break(el) => {
                assert(el.rendered(writer@, *options) == self@.render(writer@, *options));
                el.serialize_xml(writer, options)
            },
            Element::Emphasis(el) => {
                proof {
                    assert(decreases_to!(*self => self->Emphasis_0));
                }
                assert(el.rendered(writer@, *options) == self@.render(writer@, *options));
                el.serialize_xml(writer, options)
            },
            Element::Mark(el) => {
                assert(el.rendered(writer@, *options) == self@.render(writer@, *options));
                el.serialize_xml(writer, options)
            },
            Element::SayAs(el) => {
                assert(el.rendered(writer@, *options) == self@.render(writer@, *options));
                el.serialize_xml(writer, options)
            },
            Element::Prosody(el) => {
                proof {
                    assert(decreases_to!(*self => self->Prosody_0));
                }
                assert(el.rendered(writer@, *options) == self@.render(writer@, *options));
                el.serialize_xml(writer, options)
            },
            Element::Lang(el) => {
                proof {
                    assert(decreases_to!(*self => self->Lang_0));
                }
                assert(el.rendered(writer@, *options) == self@.render(writer@, *options));
                el.serialize_xml(writer, options)
            },
            Element::FlavorMSTTS(el) => {
                proof {
                    assert(decreases_to!(*self => self->FlavorMSTTS_0));
                }
                assert(el.rendered(writer@, *options) == self@.render(writer@, *options));
                el.serialize_xml(writer, options)
            },
            Element::Custom(el) => {
                proof {
                    assert(decreases_to!(*self => self->Custom_0));
                }
                assert(el.rendered(writer@, *options) == self@.render(writer@, *options)) by {
                    reveal(CustomElementView::render);
                }
                el.serialize_xml(writer, options)
            },
            Element::Dyn(el) => {
                assert(el.rendered(writer@, *options) == self@.render(writer@, *options));
                el.serialize_xml(writer, options)
            },
            Element::Group(el) => {
                proof {
                    assert(decreases_to!(*self => self->Group_0));
                }
                assert(el.rendered(writer@, *options) == self@.render(writer@, *options));
                el.serialize_xml(writer, options)
            },
        }
    }
}

/// An element under a tag of the caller's choice, with attributes and
/// children: the way to write what this library has no type for.
#[derive(Debug)]
pub struct CustomElement<'s> {
    tag: Cow<'s, str>,
    attrs: Vec<(Cow<'s, str>, Cow<'s, str>)>,
    children: Vec<Element<'s>>,
}

/// The mathematical content of a [`CustomElement`].
pub struct CustomElementView {
    pub tag: Seq<char>,
    pub attrs: Seq<(Seq<char>, Seq<char>)>,
    pub children: Seq<ElementView>,
}

impl CustomElementView {
    /// What is written inside the element: its attributes in the order in
    /// which they were given, then its children.
    pub open spec fn render_body(self, writer: WriterView, options: SerializeOptions) -> Outcome
        decreases self, 0nat,
    {
        util::render_all(
            self.children,
            0,
            util::render_attrs(self.attrs, 0, Outcome::of(writer)),
            options,
            true,
        )
    }

    /// An element under the given tag around the children.
    #[verifier::opaque]
    pub open spec fn render(self, writer: WriterView, options: SerializeOptions) -> Outcome
        decreases self, 1nat,
    {
        self.render_body(writer.opened(self.tag), options).close(self.tag, writer.indent)
    }
}

impl<'s> CustomElement<'s> {
    pub closed spec fn view(&self) -> CustomElementView
        decreases self,
    {
        CustomElementView {
            tag: self.tag@,
            attrs: util::pairs(self.attrs@),
            children: views(self.children@),
        }
    }

    /// An element under the given tag, without attributes or children.
    pub fn new(tag: Cow<'s, str>) -> (r: Self)
        ensures
            r@ == (CustomElementView { tag: tag@, attrs: Seq::empty(), children: Seq::empty() }),
    {
        let r = CustomElement { tag, attrs: Vec::new(), children: Vec::new() };
        assert(util::pairs(r.attrs@) =~= Seq::empty());
        assert(views(r.children@) =~= Seq::empty());
        r
    }

    /// The same element with one more attribute, after those it has.
    pub fn with_attr(self, name: Cow<'s, str>, value: Cow<'s, str>) -> (r: Self)
        ensures
            r@ == (CustomElementView { attrs: self@.attrs.push((name@, value@)), ..self@ }),
    {
        let mut attrs = self.attrs;
        attrs.push((name, value));
        assert(util::pairs(attrs@) =~= util::pairs(self.attrs@).push((name@, value@)));
        CustomElement { tag: self.tag, attrs, children: self.children }
    }

    /// The same element with one more child, after those it has.
    pub fn with_child(self, element: Element<'s>) -> (r: Self)
        ensures
            r@ == (CustomElementView { children: self@.children.push(element@), ..self@ }),
    {
        let mut children = self.children;
        children.push(element);
        assert(views(children@) =~= views(self.children@).push(element@));
        CustomElement { tag: self.tag, attrs: self.attrs, children }
    }

    /// The same element with more children, after those it has.
    pub fn with_children(self, elements: Vec<Element<'s>>) -> (r: Self)
        ensures
            r@ == (CustomElementView { children: self@.children + views(elements@), ..self@ }),
    {
        let mut children = self.children;
        let mut tail = elements;
        children.append(&mut tail);
        assert(views(children@) =~= views(self.children@) + views(elements@));
        CustomElement { tag: self.tag, attrs: self.attrs, children }
    }

    /// A copy that borrows nothing.
    pub fn to_owned(&self) -> (r: CustomElement<'static>)
        ensures
            r@ == self@,
        decreases self,
    {
        CustomElement {
            tag: util::owned(&self.tag),
            attrs: util::owned_attrs(&self.attrs),
            children: owned_all(&self.children),
        }
    }

    /// The same element, borrowing nothing.
    pub fn into_owned(self) -> (r: CustomElement<'static>)
        ensures
            r@ == self@,
        decreases self,
    {
        CustomElement {
            tag: util::into_owned(self.tag),
            attrs: util::into_owned_attrs(self.attrs),
            children: into_owned_all(self.children),
        }
    }
}

impl<'s> Clone for CustomElement<'s> {
    fn clone(&self) -> (r: Self)
        ensures
            r@ == self@,
    {
        self.to_owned()
    }
}

impl<'s> Serialize for CustomElement<'s> {
    open spec fn rendered(&self, writer: WriterView, options: SerializeOptions) -> Outcome {
        self@.render(writer, options)
    }

    fn serialize_xml(&self, writer: &mut XmlWriter, options: &SerializeOptions) -> (r: Result<(), Error>)
        decreases self,
    {
        assert(self.rendered(writer@, *options) == self@.render(writer@, *options));
        reveal(CustomElementView::render);
        let body = |writer: &mut XmlWriter| -> (r: Result<(), Error>)
            ensures
                self@.render_body(old(writer)@, *options).describes(final(writer)@, r),
            {
                util::serialize_attrs(writer, &self.attrs)?;
                util::serialize_elements(writer, &self.children, options)
            };
        writer.element(util::cow_str(&self.tag), body)
    }
}

impl<'s> From<Text<'s>> for Element<'s> {
    fn from(val: Text<'s>) -> (r: Element<'s>) {
        Element::Text(val)
    }
}

impl<'s> vstd::std_specs::convert::FromSpecImpl<Text<'s>> for Element<'s> {
    open spec fn obeys_from_spec() -> bool {
        true
    }

    open spec fn from_spec(val: Text<'s>) -> Element<'s> {
        Element::Text(val)
    }
}

impl<'s> From<Audio<'s>> for Element<'s> {
    fn from(val: Audio<'s>) -> (r: Element<'s>) {
        Element::Audio(val)
    }
}

impl<'s> vstd::std_specs::convert::FromSpecImpl<Audio<'s>> for Element<'s> {
    open spec fn obeys_from_spec() -> bool {
        true
    }

    open spec fn from_spec(val: Audio<'s>) -> Element<'s> {
        Element::Audio(val)
    }
}

impl<'s> From<Voice<'s>> for Element<'s> {
    fn from(val: Voice<'s>) -> (r: Element<'s>) {
        Element::Voice(val)
    }
}

impl<'s> vstd::std_specs::convert::FromSpecImpl<Voice<'s>> for Element<'s> {
    open spec fn obeys_from_spec() -> bool {
        true
    }

    open spec fn from_spec(val: Voice<'s>) -> Element<'s> {
        Element::Voice(val)
    }
}

impl<'s> From<Meta<'s>> for Element<'s> {
    fn from(val: Meta<'s>) -> (r: Element<'s>) {
        Element::Meta(val)
    }
}

impl<'s> vstd::std_specs::convert::FromSpecImpl<Meta<'s>> for Element<'s> {
    open spec fn obeys_from_spec() -> bool {
        true
    }

    open spec fn from_spec(val: Meta<'s>) -> Element<'s> {
        Element::Meta(val)
    }
}

impl<'s> From<Break> for Element<'s> {
    fn from(val: Break) -> (r: Element<'s>) {
        Element::Break(val)
    }
}

impl<'s> vstd::std_specs::convert::FromSpecImpl<Break> for Element<'s> {
    open spec fn obeys_from_spec() -> bool {
        true
    }

    open spec fn from_spec(val: Break) -> Element<'s> {
        Element::Break(val)
    }
}

impl<'s> From<Emphasis<'s>> for Element<'s> {
    fn from(val: Emphasis<'s>) -> (r: Element<'s>) {
        Element::Emphasis(val)
    }
}

impl<'s> vstd::std_specs::convert::FromSpecImpl<Emphasis<'s>> for Element<'s> {
    open spec fn obeys_from_spec() -> bool {
        true
    }

    open spec fn from_spec(val: Emphasis<'s>) -> Element<'s> {
        Element::Emphasis(val)
    }
}

impl<'s> From<Mark<'s>> for Element<'s> {
    fn from(val: Mark<'s>) -> (r: Element<'s>) {
        Element::Mark(val)
    }
}

impl<'s> vstd::std_specs::convert::FromSpecImpl<Mark<'s>> for Element<'s> {
    open spec fn obeys_from_spec() -> bool {
        true
    }

    open spec fn from_spec(val: Mark<'s>) -> Element<'s> {
        Element::Mark(val)
    }
}

impl<'s> From<SayAs<'s>> for Element<'s> {
    fn from(val: SayAs<'s>) -> (r: Element<'s>) {
        Element::SayAs(val)
    }
}

impl<'s> vstd::std_specs::convert::FromSpecImpl<SayAs<'s>> for Element<'s> {
    open spec fn obeys_from_spec() -> bool {
        true
    }

    open spec fn from_spec(val: SayAs<'s>) -> Element<'s> {
        Element::SayAs(val)
    }
}

impl<'s> From<Prosody<'s>> for Element<'s> {
    fn from(val: Prosody<'s>) -> (r: Element<'s>) {
        Element::Prosody(val)
    }
}

impl<'s> vstd::std_specs::convert::FromSpecImpl<Prosody<'s>> for Element<'s> {
    open spec fn obeys_from_spec() -> bool {
        true
    }

    open spec fn from_spec(val: Prosody<'s>) -> Element<'s> {
        Element::Prosody(val)
    }
}

impl<'s> From<Lang<'s>> for Element<'s> {
    fn from(val: Lang<'s>) -> (r: Element<'s>) {
        Element::Lang(val)
    }
}

impl<'s> vstd::std_specs::convert::FromSpecImpl<Lang<'s>> for Element<'s> {
    open spec fn obeys_from_spec() -> bool {
        true
    }

    open spec fn from_spec(val: Lang<'s>) -> Element<'s> {
        Element::Lang(val)
    }
}

impl<'s> From<mstts::Element<'s>> for Element<'s> {
    fn from(val: mstts::Element<'s>) -> (r: Element<'s>) {
        Element::FlavorMSTTS(val)
    }
}

impl<'s> vstd::std_specs::convert::FromSpecImpl<mstts::Element<'s>> for Element<'s> {
    open spec fn obeys_from_spec() -> bool {
        true
    }

    open spec fn from_spec(val: mstts::Element<'s>) -> Element<'s> {
        Element::FlavorMSTTS(val)
    }
}

impl<'s> From<CustomElement<'s>> for Element<'s> {
    fn from(val: CustomElement<'s>) -> (r: Element<'s>) {
        Element::Custom(val)
    }
}

impl<'s> vstd::std_specs::convert::FromSpecImpl<CustomElement<'s>> for Element<'s> {
    open spec fn obeys_from_spec() -> bool {
        true
    }

    open spec fn from_spec(val: CustomElement<'s>) -> Element<'s> {
        Element::Custom(val)
    }
}

impl<'s> From<DynElement> for Element<'s> {
    fn from(val: DynElement) -> (r: Element<'s>) {
        Element::Dyn(val)
    }
}

impl<'s> vstd::std_specs::convert::FromSpecImpl<DynElement> for Element<'s> {
    open spec fn obeys_from_spec() -> bool {
        true
    }

    open spec fn from_spec(val: DynElement) -> Element<'s> {
        Element::Dyn(val)
    }
}

impl<'s> From<Group<'s>> for Element<'s> {
    fn from(val: Group<'s>) -> (r: Element<'s>) {
        Element::Group(val)
    }
}

impl<'s> vstd::std_specs::convert::FromSpecImpl<Group<'s>> for Element<'s> {
    open spec fn obeys_from_spec() -> bool {
        true
    }

    open spec fn from_spec(val: Group<'s>) -> Element<'s> {
        Element::Group(val)
    }
}

impl<'s> From<&'s str> for Element<'s> {
    fn from(val: &'s str) -> (r: Element<'s>)
        ensures
            r@ == ElementView::Text(val@),
    {
        Element::Text(crate::text::text(Cow::Borrowed(val)))
    }
}

impl<'s> vstd::std_specs::convert::FromSpecImpl<&'s str> for Element<'s> {
    open spec fn obeys_from_spec() -> bool {
        false
    }

    open spec fn from_spec(val: &'s str) -> Element<'s> {
        arbitrary()
    }
}

impl<'s> From<String> for Element<'s> {
    fn from(val: String) -> (r: Element<'s>)
        ensures
            r@ == ElementView::Text(val@),
    {
        Element::Text(crate::text::text(Cow::Owned(val)))
    }
}

impl<'s> vstd::std_specs::convert::FromSpecImpl<String> for Element<'s> {
    open spec fn obeys_from_spec() -> bool {
        false
    }

    open spec fn from_spec(val: String) -> Element<'s> {
        arbitrary()
    }
}

/// What can stand as an element of a document.
pub trait IntoElement<'s> {
    /// The content of the element that the value becomes.
    spec fn element_view(&self) -> ElementView;

    /// The value as an element.
    fn into_element(self) -> (r: Element<'s>)
        ensures
            r@ == self.element_view(),
    ;
}

impl<'s> IntoElement<'s> for Element<'s> {
    open spec fn element_view(&self) -> ElementView {
        self@
    }

    fn into_element(self) -> (r: Element<'s>) {
        self
    }
}

impl<'s> IntoElement<'s> for &'s str {
    open spec fn element_view(&self) -> ElementView {
        ElementView::Text(self@)
    }

    fn into_element(self) -> (r: Element<'s>) {
        Element::Text(crate::text::text(Cow::Borrowed(self)))
    }
}

impl<'s> IntoElement<'s> for String {
    open spec fn element_view(&self) -> ElementView {
        ElementView::Text(self@)
    }

    fn into_element(self) -> (r: Element<'s>) {
        Element::Text(crate::text::text(Cow::Owned(self)))
    }
}

impl<'s> IntoElement<'s> for Text<'s> {
    open spec fn element_view(&self) -> ElementView {
        ElementView::Text(self@)
    }

    fn into_element(self) -> (r: Element<'s>) {
        Element::Text(self)
    }
}

impl<'s> IntoElement<'s> for Audio<'s> {
    open spec fn element_view(&self) -> ElementView {
        ElementView::Audio(self@)
    }

    fn into_element(self) -> (r: Element<'s>) {
        Element::Audio(self)
    }
}

impl<'s> IntoElement<'s> for Break {
    open spec fn element_view(&self) -> ElementView {
        ElementView::Break(self@)
    }

    fn into_element(self) -> (r: Element<'s>) {
        Element::Break(self)
    }
}

impl<'s> IntoElement<'s> for Voice<'s> {
    open spec fn element_view(&self) -> ElementView {
        ElementView::Voice(self@)
    }

    fn into_element(self) -> (r: Element<'s>) {
        Element::Voice(self)
    }
}

impl<'s> IntoElement<'s> for Meta<'s> {
    open spec fn element_view(&self) -> ElementView {
        ElementView::Meta(self@)
    }

    fn into_element(self) -> (r: Element<'s>) {
        Element::Meta(self)
    }
}

impl<'s> IntoElement<'s> for Emphasis<'s> {
    open spec fn element_view(&self) -> ElementView {
        ElementView::Emphasis(self@)
    }

    fn into_element(self) -> (r: Element<'s>) {
        Element::Emphasis(self)
    }
}

impl<'s> IntoElement<'s> for Mark<'s> {
    open spec fn element_view(&self) -> ElementView {
        ElementView::Mark(self@)
    }

    fn into_element(self) -> (r: Element<'s>) {
        Element::Mark(self)
    }
}

impl<'s> IntoElement<'s> for SayAs<'s> {
    open spec fn element_view(&self) -> ElementView {
        ElementView::SayAs(self@)
    }

    fn into_element(self) -> (r: Element<'s>) {
        Element::SayAs(self)
    }
}

impl<'s> IntoElement<'s> for Prosody<'s> {
    open spec fn element_view(&self) -> ElementView {
        ElementView::Prosody(self@)
    }

    fn into_element(self) -> (r: Element<'s>) {
        Element::Prosody(self)
    }
}

impl<'s> IntoElement<'s> for Lang<'s> {
    open spec fn element_view(&self) -> ElementView {
        ElementView::Lang(self@)
    }

    fn into_element(self) -> (r: Element<'s>) {
        Element::Lang(self)
    }
}

impl<'s> IntoElement<'s> for mstts::Express<'s> {
    open spec fn element_view(&self) -> ElementView {
        ElementView::FlavorMSTTS(mstts::ElementView::Express(self@))
    }

    fn into_element(self) -> (r: Element<'s>) {
        self.into_el()
    }
}

impl<'s> IntoElement<'s> for CustomElement<'s> {
    open spec fn element_view(&self) -> ElementView {
        ElementView::Custom(self@)
    }

    fn into_element(self) -> (r: Element<'s>) {
        Element::Custom(self)
    }
}

impl<'s> IntoElement<'s> for DynElement {
    open spec fn element_view(&self) -> ElementView {
        ElementView::Dyn(self@)
    }

    fn into_element(self) -> (r: Element<'s>) {
        Element::Dyn(self)
    }
}

impl<'s> IntoElement<'s> for Group<'s> {
    open spec fn element_view(&self) -> ElementView {
        ElementView::Group(self@)
    }

    fn into_element(self) -> (r: Element<'s>) {
        Element::Group(self)
    }
}

} // verus!
