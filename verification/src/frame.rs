//! What serialization leaves as it was, whatever the document.

use vstd::prelude::*;

use crate::audio::AudioView;
use crate::breaks::BreakView;
use crate::element::{CustomElementView, ElementView};
use crate::emphasis::EmphasisView;
use crate::lang::LangView;
use crate::mstts;
use crate::prosody::{ProsodyControlView, ProsodyView};
use crate::say_as::SayAsView;
use crate::util::{self, all_reliable, all_void, escaped, is_joint, render_all, render_attrs};
use crate::voice::{VoiceConfigView, VoiceView};
use crate::xml::{WriterView, XmlState};
use crate::{MetaView, Outcome, SerializeOptions};

verus! {

/// Attributes change nothing but the output: the writer stays where it
/// stands, and in a start tag that is open every attribute is accepted.
pub proof fn lemma_render_attrs_frame(attrs: Seq<(Seq<char>, Seq<char>)>, from: int, so_far: Outcome)
    requires
        0 <= from,
    ensures
        ({
            let after = render_attrs(attrs, from, so_far);
            &&& after.writer.pretty == so_far.writer.pretty
            &&& after.writer.indent == so_far.writer.indent
            &&& after.writer.state == so_far.writer.state
            &&& so_far.failure is None && so_far.writer.state != XmlState::ElementClosed ==> after.failure is None
        }),
    decreases attrs.len() - from,
{
    if so_far.failure is None && from < attrs.len() {
        lemma_render_attrs_frame(attrs, from + 1, so_far.attr(attrs[from].0, escaped(attrs[from].1)));
    }
}

/// What serializing a list of elements leaves as it was: the layout and the
/// depth. Elements that write nothing change nothing at all; any other
/// element, once written, leaves the writer past the start tag, where it
/// stays.
pub proof fn lemma_render_all_frame(
    nodes: Seq<ElementView>,
    from: int,
    so_far: Outcome,
    options: SerializeOptions,
    join: bool,
)
    requires
        0 <= from,
    ensures
        ({
            let after = render_all(nodes, from, so_far, options, join);
            &&& after.writer.pretty == so_far.writer.pretty
            &&& after.writer.indent == so_far.writer.indent
            &&& all_void(nodes, from) ==> after == so_far
            &&& after.failure is None && so_far.writer.state == XmlState::ElementClosed
                ==> after.writer.state == XmlState::ElementClosed
            &&& after.failure is None && !all_void(nodes, from) ==> after.writer.state
                == XmlState::ElementClosed
        }),
    decreases nodes, nodes.len() - from,
{
    if so_far.failure is None && from < nodes.len() {
        let one = nodes[from].render(so_far.writer, options);
        lemma_render_frame(nodes[from], so_far.writer, options);
        let joined = if is_joint(nodes, from, one.writer.pretty, join) {
            one.emit(seq![' '])
        } else {
            one
        };
        lemma_render_all_frame(nodes, from + 1, joined, options, join);
        if nodes[from].is_void() {
            assert(one == so_far);
            assert(joined == so_far);
        }
    }
}

/// Whether a writer that went from `before` to `after` kept its layout and
/// its depth and, where `after` is no failure, stands past the start tag of
/// what surrounds it.
pub open spec fn kept(before: WriterView, after: Outcome) -> bool {
    &&& after.writer.pretty == before.pretty
    &&& after.writer.indent == before.indent
    &&& after.failure is None ==> after.writer.state == XmlState::ElementClosed
}

/// Whether serializing `node` leaves the layout and the depth as they were,
/// changes nothing where `node` writes nothing, and else, where it ends
/// well, leaves the writer past the start tag of what surrounds `node`.
pub open spec fn keeps_frame(node: ElementView, writer: WriterView, options: SerializeOptions) -> bool {
    let after = node.render(writer, options);
    &&& after.writer.pretty == writer.pretty
    &&& after.writer.indent == writer.indent
    &&& node.is_void() ==> after == Outcome::of(writer)
    &&& !node.is_void() && after.failure is None ==> after.writer.state == XmlState::ElementClosed
}

proof fn lemma_audio_frame(audio: AudioView, writer: WriterView, options: SerializeOptions)
    ensures
        kept(writer, audio.render(writer, options)),
    decreases audio,
{
    reveal(AudioView::render);
    reveal(AudioView::render_attrs);
    let start = writer.opened("audio"@);
    let before = audio.render_desc(audio.render_attrs(start));
    lemma_render_all_frame(audio.alternate, 0, before, options, true);
    assert(audio.render_body(start, options) == render_all(audio.alternate, 0, before, options, true));
}

proof fn lemma_voice_frame(voice: VoiceView, writer: WriterView, options: SerializeOptions)
    ensures
        kept(writer, voice.render(writer, options)),
    decreases voice,
{
    reveal(VoiceView::render);
    reveal(VoiceConfigView::render);
    let start = writer.opened("voice"@);
    let config = voice.config.render(Outcome::of(start));
    let before = render_attrs(voice.attrs, 0, config);
    lemma_render_attrs_frame(voice.attrs, 0, config);
    lemma_render_all_frame(voice.children, 0, before, options, true);
    assert(voice.render_body(start, options) == render_all(voice.children, 0, before, options, true));
}

proof fn lemma_emphasis_frame(emphasis: EmphasisView, writer: WriterView, options: SerializeOptions)
    ensures
        kept(writer, emphasis.render(writer, options)),
    decreases emphasis,
{
    reveal(EmphasisView::render);
    let start = writer.opened("emphasis"@);
    let before = Outcome::of(start).attr("level"@, escaped(emphasis.level.name()));
    lemma_render_all_frame(emphasis.children, 0, before, options, true);
    assert(emphasis.render_body(start, options) == render_all(emphasis.children, 0, before, options, true));
}

proof fn lemma_prosody_frame(prosody: ProsodyView, writer: WriterView, options: SerializeOptions)
    ensures
        kept(writer, prosody.render(writer, options)),
    decreases prosody,
{
    reveal(ProsodyView::render);
    reveal(ProsodyControlView::render);
    let start = writer.opened("prosody"@);
    let before = prosody.control.render(Outcome::of(start));
    lemma_render_all_frame(prosody.children, 0, before, options, true);
    assert(prosody.render_body(start, options) == render_all(prosody.children, 0, before, options, true));
}

proof fn lemma_lang_frame(lang: LangView, writer: WriterView, options: SerializeOptions)
    ensures
        kept(writer, lang.render(writer, options)),
    decreases lang,
{
    reveal(LangView::render);
    let start = writer.opened("lang"@);
    let before = Outcome::of(start).attr("xml:lang"@, escaped(lang.language)).attr_opt(
        "onlangfailure"@,
        match lang.failure_behavior {
            Some(behavior) => Some(escaped(behavior.name())),
            None => None,
        },
    );
    lemma_render_all_frame(lang.children, 0, before, options, true);
    assert(lang.render_body(start, options) == render_all(lang.children, 0, before, options, true));
}

proof fn lemma_express_frame(express: mstts::ExpressView, writer: WriterView, options: SerializeOptions)
    ensures
        kept(writer, express.render(writer, options)),
    decreases express,
{
    reveal(mstts::ExpressView::render);
    let start = writer.opened("mstts:express-as"@);
    let before = Outcome::of(start).attr("style"@, escaped(express.expression.style.name())).attr(
        "styledegree"@,
        express.expression.degree.plain_text(),
    );
    lemma_render_all_frame(express.children, 0, before, options, true);
    assert(express.render_body(start, options) == render_all(express.children, 0, before, options, true));
}

proof fn lemma_custom_frame(custom: CustomElementView, writer: WriterView, options: SerializeOptions)
    ensures
        kept(writer, custom.render(writer, options)),
    decreases custom,
{
    reveal(CustomElementView::render);
    let start = writer.opened(custom.tag);
    let before = render_attrs(custom.attrs, 0, Outcome::of(start));
    lemma_render_attrs_frame(custom.attrs, 0, Outcome::of(start));
    lemma_render_all_frame(custom.children, 0, before, options, true);
    assert(custom.render_body(start, options) == render_all(custom.children, 0, before, options, true));
}

/// What serializing an element leaves as it was: the layout, and the depth,
/// whether serialization ends well or fails part of the way. An element
/// that writes nothing changes nothing at all; any other element, once
/// written, leaves the writer past the start tag of what surrounds it, so
/// that no attribute can follow.
pub proof fn lemma_render_frame(node: ElementView, writer: WriterView, options: SerializeOptions)
    ensures
        keeps_frame(node, writer, options),
    decreases node,
{
    match node {
        ElementView::Text(_) => {},
        ElementView::Audio(audio) => {
            lemma_audio_frame(audio, writer, options);
            assert(node.render(writer, options) == audio.render(writer, options)) by {
                reveal(AudioView::render);
            }
        },
        ElementView::Voice(voice) => {
            lemma_voice_frame(voice, writer, options);
            assert(node.render(writer, options) == voice.render(writer, options)) by {
                reveal(VoiceView::render);
            }
        },
        ElementView::Meta(_) => {
            reveal(MetaView::render);
        },
        ElementView::Break(_) => {
            reveal(BreakView::render);
        },
        ElementView::Emphasis(emphasis) => {
            lemma_emphasis_frame(emphasis, writer, options);
            assert(node.render(writer, options) == emphasis.render(writer, options)) by {
                reveal(EmphasisView::render);
            }
        },
        ElementView::Mark(_) => {},
        ElementView::SayAs(_) => {
            reveal(SayAsView::render);
        },
        ElementView::Prosody(prosody) => {
            lemma_prosody_frame(prosody, writer, options);
            assert(node.render(writer, options) == prosody.render(writer, options)) by {
                reveal(ProsodyView::render);
            }
        },
        ElementView::Lang(lang) => {
            lemma_lang_frame(lang, writer, options);
            assert(node.render(writer, options) == lang.render(writer, options)) by {
                reveal(LangView::render);
            }
        },
        ElementView::FlavorMSTTS(vendor) => {
            match vendor {
                mstts::ElementView::Express(express) => {
                    lemma_express_frame(express, writer, options);
                    assert(node.render(writer, options) == express.render(writer, options)) by {
                        reveal(mstts::ExpressView::render);
                    }
                },
            }
        },
        ElementView::Custom(custom) => {
            lemma_custom_frame(custom, writer, options);
            assert(node.render(writer, options) == custom.render(writer, options)) by {
                reveal(CustomElementView::render);
            }
        },
        ElementView::Dyn(_) => {},
        ElementView::Group(children) => {
            lemma_render_all_frame(children, 0, Outcome::of(writer), options, false);
        },
    }
}

/// After an element that writes something, no attribute can be written:
/// attributes belong before the children, whatever the children are.
pub proof fn lemma_no_attribute_after_element(
    node: ElementView,
    writer: WriterView,
    options: SerializeOptions,
    name: Seq<char>,
    value: Seq<char>,
)
    requires
        !node.is_void(),
        node.render(writer, options).failure is None,
    ensures
        node.render(writer, options).writer.with_attr(name, value) == Err::<WriterView, crate::error::Error>(
            crate::error::Error::AttributesInChildContext,
        ),
{
    lemma_render_frame(node, writer, options);
}

/// The two forms of an element. One whose children write nothing, or that
/// has none, closes its own start tag after its attributes: `<tag a="v"/>`,
/// with a space before the slash in pretty mode. One with a child that writes
/// something ends in an end tag: `<tag a="v">...</tag>`, in pretty mode on a
/// line of its own, as deep as the start tag.
pub proof fn lemma_element_forms(element: CustomElementView, writer: WriterView, options: SerializeOptions)
    requires
        element.render(writer, options).failure is None,
    ensures
        ({
            let start = Outcome::of(writer.opened(element.tag));
            let attrs = render_attrs(element.attrs, 0, start);
            let body = element.render_body(writer.opened(element.tag), options);
            let after = element.render(writer, options).writer;
            &&& all_void(element.children, 0) ==> after.out == attrs.writer.out + if writer.pretty {
                seq![' ', '/', '>']
            } else {
                seq!['/', '>']
            }
            &&& !all_void(element.children, 0) ==> after.out == body.writer.out + writer.line_break() + seq![
                '<',
                '/',
            ] + element.tag + seq!['>']
        }),
{
    reveal(CustomElementView::render);
    let start = Outcome::of(writer.opened(element.tag));
    let attrs = render_attrs(element.attrs, 0, start);
    lemma_render_attrs_frame(element.attrs, 0, start);
    lemma_render_all_frame(element.children, 0, attrs, options, true);
    let body = element.render_body(writer.opened(element.tag), options);
    assert(body == render_all(element.children, 0, attrs, options, true));
    assert((WriterView { indent: writer.indent, ..body.writer }).line_break() == writer.line_break());
}

/// With the compatibility checks switched off, a list of elements is
/// serialized in full, unless an element of the caller's making fails.
pub proof fn lemma_render_all_unchecked(
    nodes: Seq<ElementView>,
    from: int,
    so_far: Outcome,
    options: SerializeOptions,
    join: bool,
)
    requires
        0 <= from,
        !options.perform_checks,
        all_reliable(nodes, from, options.flavor),
        so_far.failure is None,
    ensures
        render_all(nodes, from, so_far, options, join).failure is None,
    decreases nodes, nodes.len() - from,
{
    if from < nodes.len() {
        let one = nodes[from].render(so_far.writer, options);
        lemma_render_unchecked(nodes[from], so_far.writer, options);
        let joined = if is_joint(nodes, from, one.writer.pretty, join) {
            one.emit(seq![' '])
        } else {
            one
        };
        lemma_render_all_unchecked(nodes, from + 1, joined, options, join);
    }
}

proof fn lemma_audio_unchecked(audio: AudioView, writer: WriterView, options: SerializeOptions)
    requires
        !options.perform_checks,
        all_reliable(audio.alternate, 0, options.flavor),
    ensures
        audio.render(writer, options).failure is None,
    decreases audio,
{
    reveal(AudioView::render);
    reveal(AudioView::render_attrs);
    let start = writer.opened("audio"@);
    let attrs = audio.render_attrs(start);
    assert(attrs.failure is None && attrs.writer.state == XmlState::ElementUnclosed);
    let before = audio.render_desc(attrs);
    assert(before.failure is None);
    lemma_render_all_unchecked(audio.alternate, 0, before, options, true);
    assert(audio.render_body(start, options) == render_all(audio.alternate, 0, before, options, true));
}

proof fn lemma_voice_unchecked(voice: VoiceView, writer: WriterView, options: SerializeOptions)
    requires
        !options.perform_checks,
        all_reliable(voice.children, 0, options.flavor),
    ensures
        voice.render(writer, options).failure is None,
    decreases voice,
{
    reveal(VoiceView::render);
    reveal(VoiceConfigView::render);
    let start = writer.opened("voice"@);
    let config = voice.config.render(Outcome::of(start));
    assert(config.failure is None && config.writer.state == XmlState::ElementUnclosed);
    let before = render_attrs(voice.attrs, 0, config);
    lemma_render_attrs_frame(voice.attrs, 0, config);
    lemma_render_all_unchecked(voice.children, 0, before, options, true);
    assert(voice.render_body(start, options) == render_all(voice.children, 0, before, options, true));
}

proof fn lemma_emphasis_unchecked(emphasis: EmphasisView, writer: WriterView, options: SerializeOptions)
    requires
        !options.perform_checks,
        all_reliable(emphasis.children, 0, options.flavor),
    ensures
        emphasis.render(writer, options).failure is None,
    decreases emphasis,
{
    reveal(EmphasisView::render);
    let start = writer.opened("emphasis"@);
    let before = Outcome::of(start).attr("level"@, escaped(emphasis.level.name()));
    lemma_render_all_unchecked(emphasis.children, 0, before, options, true);
    assert(emphasis.render_body(start, options) == render_all(emphasis.children, 0, before, options, true));
}

proof fn lemma_prosody_unchecked(prosody: ProsodyView, writer: WriterView, options: SerializeOptions)
    requires
        !options.perform_checks,
        all_reliable(prosody.children, 0, options.flavor),
    ensures
        prosody.render(writer, options).failure is None,
    decreases prosody,
{
    reveal(ProsodyView::render);
    reveal(ProsodyControlView::render);
    let start = writer.opened("prosody"@);
    let before = prosody.control.render(Outcome::of(start));
    assert(before.failure is None);
    lemma_render_all_unchecked(prosody.children, 0, before, options, true);
    assert(prosody.render_body(start, options) == render_all(prosody.children, 0, before, options, true));
}

proof fn lemma_lang_unchecked(lang: LangView, writer: WriterView, options: SerializeOptions)
    requires
        !options.perform_checks,
        all_reliable(lang.children, 0, options.flavor),
    ensures
        lang.render(writer, options).failure is None,
    decreases lang,
{
    reveal(LangView::render);
    let start = writer.opened("lang"@);
    let before = Outcome::of(start).attr("xml:lang"@, escaped(lang.language)).attr_opt(
        "onlangfailure"@,
        match lang.failure_behavior {
            Some(behavior) => Some(escaped(behavior.name())),
            None => None,
        },
    );
    assert(before.failure is None);
    lemma_render_all_unchecked(lang.children, 0, before, options, true);
    assert(lang.render_body(start, options) == render_all(lang.children, 0, before, options, true));
}

proof fn lemma_express_unchecked(express: mstts::ExpressView, writer: WriterView, options: SerializeOptions)
    requires
        !options.perform_checks,
        all_reliable(express.children, 0, options.flavor),
    ensures
        express.render(writer, options).failure is None,
    decreases express,
{
    reveal(mstts::ExpressView::render);
    let start = writer.opened("mstts:express-as"@);
    let before = Outcome::of(start).attr("style"@, escaped(express.expression.style.name())).attr(
        "styledegree"@,
        express.expression.degree.plain_text(),
    );
    assert(before.failure is None);
    lemma_render_all_unchecked(express.children, 0, before, options, true);
    assert(express.render_body(start, options) == render_all(express.children, 0, before, options, true));
}

proof fn lemma_custom_unchecked(custom: CustomElementView, writer: WriterView, options: SerializeOptions)
    requires
        !options.perform_checks,
        all_reliable(custom.children, 0, options.flavor),
    ensures
        custom.render(writer, options).failure is None,
    decreases custom,
{
    reveal(CustomElementView::render);
    let start = writer.opened(custom.tag);
    let before = render_attrs(custom.attrs, 0, Outcome::of(start));
    lemma_render_attrs_frame(custom.attrs, 0, Outcome::of(start));
    lemma_render_all_unchecked(custom.children, 0, before, options, true);
    assert(custom.render_body(start, options) == render_all(custom.children, 0, before, options, true));
}

/// With the compatibility checks switched off, every element is serialized
/// in full, whatever the flavor and wherever the writer stands, unless an
/// element of the caller's making fails.
pub proof fn lemma_render_unchecked(node: ElementView, writer: WriterView, options: SerializeOptions)
    requires
        !options.perform_checks,
        node.is_reliable(options.flavor),
    ensures
        node.render(writer, options).failure is None,
    decreases node,
{
    match node {
        ElementView::Text(_) => {},
        ElementView::Audio(audio) => {
            lemma_audio_unchecked(audio, writer, options);
            assert(node.render(writer, options) == audio.render(writer, options)) by {
                reveal(AudioView::render);
            }
        },
        ElementView::Voice(voice) => {
            lemma_voice_unchecked(voice, writer, options);
            assert(node.render(writer, options) == voice.render(writer, options)) by {
                reveal(VoiceView::render);
            }
        },
        ElementView::Meta(_) => {
            reveal(MetaView::render);
        },
        ElementView::Break(_) => {
            reveal(BreakView::render);
        },
        ElementView::Emphasis(emphasis) => {
            lemma_emphasis_unchecked(emphasis, writer, options);
            assert(node.render(writer, options) == emphasis.render(writer, options)) by {
                reveal(EmphasisView::render);
            }
        },
        ElementView::Mark(_) => {},
        ElementView::SayAs(_) => {
            reveal(SayAsView::render);
        },
        ElementView::Prosody(prosody) => {
            lemma_prosody_unchecked(prosody, writer, options);
            assert(node.render(writer, options) == prosody.render(writer, options)) by {
                reveal(ProsodyView::render);
            }
        },
        ElementView::Lang(lang) => {
            lemma_lang_unchecked(lang, writer, options);
            assert(node.render(writer, options) == lang.render(writer, options)) by {
                reveal(LangView::render);
            }
        },
        ElementView::FlavorMSTTS(vendor) => {
            match vendor {
                mstts::ElementView::Express(express) => {
                    lemma_express_unchecked(express, writer, options);
                    assert(node.render(writer, options) == express.render(writer, options)) by {
                        reveal(mstts::ExpressView::render);
                    }
                },
            }
        },
        ElementView::Custom(custom) => {
            lemma_custom_unchecked(custom, writer, options);
            assert(node.render(writer, options) == custom.render(writer, options)) by {
                reveal(CustomElementView::render);
            }
        },
        ElementView::Dyn(_) => {},
        ElementView::Group(children) => {
            lemma_render_all_unchecked(children, 0, Outcome::of(writer), options, false);
        },
    }
}

/// With the compatibility checks switched off, every document is serialized
/// in full, unless an element of the caller's making fails.
pub proof fn lemma_document_unchecked(document: crate::SpeakView, writer: WriterView, options: SerializeOptions)
    requires
        !options.perform_checks,
        all_reliable(document.children, 0, options.flavor),
    ensures
        document.render(writer, options).failure is None,
{
    let start = Outcome::of(writer.opened("speak"@));
    let heading = crate::SpeakView::render_heading(start, options);
    let lang = heading.attr_opt("xml:lang"@, util::escaped_opt(document.lang));
    let vendor = crate::SpeakView::render_vendor(lang, options);
    let marks = vendor.attr_opt("startmark"@, util::escaped_opt(document.start_mark)).attr_opt(
        "endmark"@,
        util::escaped_opt(document.end_mark),
    );
    assert(marks.failure is None);
    lemma_render_all_unchecked(document.children, 0, marks, options, true);
}

} // verus!
