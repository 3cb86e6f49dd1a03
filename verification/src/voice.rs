use std::borrow::Cow;
use vstd::prelude::*;
use vstd::string::StringExecFns;

use crate::element::{into_owned_all, owned_all, views, Element, ElementView};
use crate::error::Error;
use crate::util;
use crate::xml::{EscapedDisplay, WriterView, XmlWriter};
use crate::{Outcome, Serialize, SerializeOptions};

verus! {

broadcast use vstd::string::group_string_axioms;

/// The gender of the voice that is asked for.
#[derive(Debug, Clone, Copy, PartialEq, Eq, Structural)]
pub enum VoiceGender {
    Unspecified,
    Neutral,
    Female,
    Male,
}

impl Default for VoiceGender {
    fn default() -> (r: Self)
        ensures
            r == VoiceGender::Unspecified,
    {
        VoiceGender::Unspecified
    }
}

impl VoiceGender {
    /// The name of the gender in SSML; an unspecified gender has none.
    pub open spec fn name(self) -> Seq<char> {
        match self {
            VoiceGender::Unspecified => ""@,
            VoiceGender::Neutral => "neutral"@,
            VoiceGender::Female => "female"@,
            VoiceGender::Male => "male"@,
        }
    }

    /// The name of the gender in SSML.
    pub fn as_str(&self) -> (r: &'static str)
        ensures
            r@ == self.name(),
    {
        match self {
            VoiceGender::Unspecified => "",
            VoiceGender::Neutral => "neutral",
            VoiceGender::Female => "female",
            VoiceGender::Male => "male",
        }
    }
}

impl EscapedDisplay for VoiceGender {
    open spec fn escaped_text(&self) -> Seq<char> {
        self.name()
    }

    fn escaped_fmt(&self, w: &mut String) {
        proof {
            reveal_strlit("");
            reveal_strlit("neutral");
            reveal_strlit("female");
            reveal_strlit("male");
        }
        w.append(self.as_str());
    }
}

impl EscapedDisplay for u8 {
    open spec fn escaped_text(&self) -> Seq<char> {
        util::decimal(*self as nat)
    }

    fn escaped_fmt(&self, w: &mut String) {
        proof {
            util::lemma_decimal_is_inert(*self as nat);
        }
        util::write_decimal(w, *self);
    }
}

/// Configuration for the [`Voice`] element.
#[derive(Debug, Clone)]
pub struct VoiceConfig<'s> {
    pub gender: Option<VoiceGender>,
    pub age: Option<u8>,
    pub names: Option<Vec<Cow<'s, str>>>,
    pub variant: Option<Cow<'s, str>>,
    pub languages: Option<Vec<Cow<'s, str>>>,
}

/// The mathematical content of a [`VoiceConfig`].
pub struct VoiceConfigView {
    pub gender: Option<VoiceGender>,
    pub age: Option<u8>,
    pub names: Option<Seq<Seq<char>>>,
    pub variant: Option<Seq<char>>,
    pub languages: Option<Seq<Seq<char>>>,
}

impl VoiceConfigView {
    /// A configuration that asks for nothing.
    pub open spec fn empty() -> VoiceConfigView {
        VoiceConfigView { gender: None, age: None, names: None, variant: None, languages: None }
    }

    /// The attributes that select the voice: each one that is set, in the
    /// order gender, age, name, variant, language.
    #[verifier::opaque]
    pub open spec fn render(self, so_far: Outcome) -> Outcome {
        so_far.attr_opt(
            "gender"@,
            match self.gender {
                Some(gender) => Some(gender.name()),
                None => None,
            },
        ).attr_opt(
            "age"@,
            match self.age {
                Some(age) => Some(util::decimal(age as nat)),
                None => None,
            },
        ).attr_opt("name"@, util::escaped_list(self.names)).attr_opt(
            "variant"@,
            util::escaped_opt(self.variant),
        ).attr_opt("language"@, util::escaped_list(self.languages))
    }
}

impl<'s> VoiceConfig<'s> {
    pub open spec fn view(&self) -> VoiceConfigView {
        VoiceConfigView {
            gender: self.gender,
            age: self.age,
            names: util::texts_opt(self.names),
            variant: util::opt_view(self.variant),
            languages: util::texts_opt(self.languages),
        }
    }

    /// Creates a new [`VoiceConfig`] with the specified voice name and no
    /// other attributes.
    pub fn named(name: Cow<'s, str>) -> (r: Self)
        ensures
            r@ == (VoiceConfigView { names: Some(seq![name@]), ..VoiceConfigView::empty() }),
    {
        let mut names: Vec<Cow<'s, str>> = Vec::new();
        names.push(name);
        assert(util::texts(names@) =~= seq![name@]);
        VoiceConfig { gender: None, age: None, names: Some(names), variant: None, languages: None }
    }

    /// A copy that borrows nothing.
    pub fn to_owned(&self) -> (r: VoiceConfig<'static>)
        ensures
            r@ == self@,
    {
        VoiceConfig {
            gender: self.gender,
            age: self.age,
            names: util::owned_list_opt(&self.names),
            variant: util::owned_opt(&self.variant),
            languages: util::owned_list_opt(&self.languages),
        }
    }

    /// The same configuration, borrowing nothing.
    pub fn into_owned(self) -> (r: VoiceConfig<'static>)
        ensures
            r@ == self@,
    {
        VoiceConfig {
            gender: self.gender,
            age: self.age,
            names: util::into_owned_list_opt(self.names),
            variant: util::into_owned_opt(self.variant),
            languages: util::into_owned_list_opt(self.languages),
        }
    }
}

impl<'s> Default for VoiceConfig<'s> {
    fn default() -> (r: Self)
        ensures
            r@ == VoiceConfigView::empty(),
    {
        VoiceConfig { gender: None, age: None, names: None, variant: None, languages: None }
    }
}

impl<'s> From<Cow<'s, str>> for VoiceConfig<'s> {
    fn from(value: Cow<'s, str>) -> (r: VoiceConfig<'s>)
        ensures
            r@ == (VoiceConfigView { names: Some(seq![value@]), ..VoiceConfigView::empty() }),
    {
        VoiceConfig::named(value)
    }
}

impl<'s> vstd::std_specs::convert::FromSpecImpl<Cow<'s, str>> for VoiceConfig<'s> {
    open spec fn obeys_from_spec() -> bool {
        false
    }

    open spec fn from_spec(value: Cow<'s, str>) -> VoiceConfig<'s> {
        arbitrary()
    }
}

impl<'s> From<&'s str> for VoiceConfig<'s> {
    fn from(value: &'s str) -> (r: VoiceConfig<'s>)
        ensures
            r@ == (VoiceConfigView { names: Some(seq![value@]), ..VoiceConfigView::empty() }),
    {
        VoiceConfig::named(Cow::Borrowed(value))
    }
}

impl<'s> vstd::std_specs::convert::FromSpecImpl<&'s str> for VoiceConfig<'s> {
    open spec fn obeys_from_spec() -> bool {
        false
    }

    open spec fn from_spec(value: &'s str) -> VoiceConfig<'s> {
        arbitrary()
    }
}

impl<'s> Serialize for VoiceConfig<'s> {
    open spec fn rendered(&self, writer: WriterView, options: SerializeOptions) -> Outcome {
        self@.render(Outcome::of(writer))
    }

    fn serialize_xml(&self, writer: &mut XmlWriter, options: &SerializeOptions) -> (r: Result<(), Error>) {
        assert(self.rendered(writer@, *options) == self@.render(Outcome::of(writer@)));
        reveal(VoiceConfigView::render);
        writer.attr_opt("gender", self.gender)?;
        writer.attr_opt("age", self.age)?;
        writer.attr_opt("name", util::join_opt(&self.names))?;
        writer.attr_opt("variant", util::cow_str_opt(&self.variant))?;
        writer.attr_opt("language", util::join_opt(&self.languages))
    }
}

/// The [`Voice`] element allows you to specify a voice or use multiple
/// different voices in one document.
#[derive(Debug)]
pub struct Voice<'s> {
    children: Vec<Element<'s>>,
    attrs: Vec<(Cow<'s, str>, Cow<'s, str>)>,
    config: VoiceConfig<'s>,
}

/// The mathematical content of a [`Voice`].
pub struct VoiceView {
    pub children: Seq<ElementView>,
    /// Attributes beyond those of the configuration, by name and value.
    pub attrs: Seq<(Seq<char>, Seq<char>)>,
    pub config: VoiceConfigView,
}

impl VoiceView {
    /// What is written inside the element: the attributes of the
    /// configuration, the further attributes, then the children.
    pub open spec fn render_body(self, writer: WriterView, options: SerializeOptions) -> Outcome
        decreases self, 0nat,
    {
        util::render_all(
            self.children,
            0,
            util::render_attrs(self.attrs, 0, self.config.render(Outcome::of(writer))),
            options,
            true,
        )
    }

    /// A `voice` element around the children.
    #[verifier::opaque]
    pub open spec fn render(self, writer: WriterView, options: SerializeOptions) -> Outcome
        decreases self, 1nat,
    {
        self.render_body(writer.opened("voice"@), options).close("voice"@, writer.indent)
    }
}

impl<'s> Voice<'s> {
    pub closed spec fn view(&self) -> VoiceView
        decreases self,
    {
        VoiceView {
            children: views(self.children@),
            attrs: util::pairs(self.attrs@),
            config: self.config@,
        }
    }

    /// Creates a new `voice` element to change the voice of a section of
    /// spoken elements.
    pub fn new(config: VoiceConfig<'s>, elements: Vec<Element<'s>>) -> (r: Self)
        ensures
            r@ == (VoiceView { children: views(elements@), attrs: Seq::empty(), config: config@ }),
    {
        let r = Voice { children: elements, attrs: Vec::new(), config };
        assert(util::pairs(r.attrs@) =~= Seq::empty());
        r
    }

    /// Modifies the voice configuration of this `voice` section.
    pub fn with_config(self, config: VoiceConfig<'s>) -> (r: Self)
        ensures
            r@ == (VoiceView { config: config@, ..self@ }),
    {
        Voice { children: self.children, attrs: self.attrs, config }
    }

    /// Returns the voice configuration used by this element.
    pub fn config(&self) -> (r: &VoiceConfig<'s>)
        ensures
            r@ == self@.config,
    {
        &self.config
    }

    /// Replaces the voice configuration of this `voice` section.
    pub fn set_config(&mut self, config: VoiceConfig<'s>)
        ensures
            final(self)@ == (VoiceView { config: config@, ..old(self)@ }),
    {
        self.config = config;
    }

    /// Extend this `voice` section with an additional element.
    pub fn push(&mut self, element: Element<'s>)
        ensures
            final(self)@ == (VoiceView { children: old(self)@.children.push(element@), ..old(self)@ }),
    {
        self.children.push(element);
        assert(views(self.children@) =~= views(old(self).children@).push(element@));
    }

    /// Extend this `voice` section with additional elements.
    pub fn extend(&mut self, elements: Vec<Element<'s>>)
        ensures
            final(self)@ == (VoiceView { children: old(self)@.children + views(elements@), ..old(self)@ }),
    {
        let mut tail = elements;
        self.children.append(&mut tail);
        assert(views(self.children@) =~= views(old(self).children@) + views(elements@));
    }

    /// Puts an element before the others of this `voice` section.
    pub(crate) fn push_front(&mut self, element: Element<'s>)
        ensures
            final(self)@ == (VoiceView { children: seq![element@] + old(self)@.children, ..old(self)@ }),
    {
        self.children.insert(0, element);
        assert(views(self.children@) =~= seq![element@] + views(old(self).children@));
    }

    /// Adds an attribute after those that the section has.
    pub(crate) fn push_attr(&mut self, name: Cow<'s, str>, value: Cow<'s, str>)
        ensures
            final(self)@ == (VoiceView { attrs: old(self)@.attrs.push((name@, value@)), ..old(self)@ }),
    {
        self.attrs.push((name, value));
        assert(util::pairs(self.attrs@) =~= util::pairs(old(self).attrs@).push((name@, value@)));
    }

    /// Returns a reference to the elements contained within this `voice`
    /// section.
    pub fn children(&self) -> (r: &Vec<Element<'s>>)
        ensures
            views(r@) == self@.children,
    {
        &self.children
    }

    /// Returns a mutable reference to the elements contained within this
    /// `voice` section.
    pub fn children_mut(&mut self) -> (r: &mut Vec<Element<'s>>)
        ensures
            views(r@) == old(self)@.children,
            final(self)@ == (VoiceView { children: views(final(r)@), ..old(self)@ }),
    {
        &mut self.children
    }

    /// A copy that borrows nothing.
    pub fn to_owned(&self) -> (r: Voice<'static>)
        ensures
            r@ == self@,
        decreases self,
    {
        Voice {
            children: owned_all(&self.children),
            attrs: util::owned_attrs(&self.attrs),
            config: self.config.to_owned(),
        }
    }

    /// The same section, borrowing nothing.
    pub fn into_owned(self) -> (r: Voice<'static>)
        ensures
            r@ == self@,
        decreases self,
    {
        Voice {
            children: into_owned_all(self.children),
            attrs: util::into_owned_attrs(self.attrs),
            config: self.config.into_owned(),
        }
    }
}

impl<'s> Clone for Voice<'s> {
    fn clone(&self) -> (r: Self)
        ensures
            r@ == self@,
    {
        self.to_owned()
    }
}

impl<'s> Serialize for Voice<'s> {
    open spec fn rendered(&self, writer: WriterView, options: SerializeOptions) -> Outcome {
        self@.render(writer, options)
    }

    fn serialize_xml(&self, writer: &mut XmlWriter, options: &SerializeOptions) -> (r: Result<(), Error>)
        decreases self,
    {
        assert(self.rendered(writer@, *options) == self@.render(writer@, *options));
        reveal(VoiceView::render);
        let body = |writer: &mut XmlWriter| -> (r: Result<(), Error>)
            ensures
                self@.render_body(old(writer)@, *options).describes(final(writer)@, r),
            {
                assert(self.config.rendered(writer@, *options) == self@.config.render(Outcome::of(writer@)));
                self.config.serialize_xml(writer, options)?;
                util::serialize_attrs(writer, &self.attrs)?;
                util::serialize_elements(writer, &self.children, options)
            };
        writer.element("voice", body)
    }
}

impl<'s> core::ops::Add<Element<'s>> for Voice<'s> {
    type Output = Voice<'s>;

    /// The section with one more element at its end.
    fn add(self, rhs: Element<'s>) -> (r: Voice<'s>)
        ensures
            r@ == (VoiceView { children: self@.children.push(rhs@), ..self@ }),
    {
        let mut sum = self;
        sum.push(rhs);
        sum
    }
}

impl<'s> core::ops::AddAssign<Element<'s>> for Voice<'s> {
    /// Adds an element at the end of the section.
    fn add_assign(&mut self, rhs: Element<'s>)
        ensures
            final(self)@ == (VoiceView { children: old(self)@.children.push(rhs@), ..old(self)@ }),
    {
        self.push(rhs);
    }
}

impl<'s> vstd::std_specs::ops::AddSpecImpl<Element<'s>> for Voice<'s> {
    open spec fn obeys_add_spec() -> bool {
        false
    }

    open spec fn add_req(self, rhs: Element<'s>) -> bool {
        true
    }

    open spec fn add_spec(self, rhs: Element<'s>) -> Voice<'s> {
        arbitrary()
    }
}

/// Creates a new `voice` element to change the voice of a section of spoken
/// elements.
pub fn voice<'s>(config: VoiceConfig<'s>, elements: Vec<Element<'s>>) -> (r: Voice<'s>)
    ensures
        r@ == (VoiceView { children: views(elements@), attrs: Seq::empty(), config: config@ }),
{
    Voice::new(config, elements)
}

} // verus!
