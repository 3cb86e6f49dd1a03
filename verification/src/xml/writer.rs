use vstd::prelude::*;
use vstd::string::StringExecFns;

use crate::error::Error;
use crate::util;

verus! {

/// Where a writer stands in the document.
#[derive(Debug, Clone, Copy, PartialEq, Eq, Structural)]
pub enum XmlState {
    /// Nothing has been written yet.
    DocumentStart,
    /// A start tag is open: attributes may follow.
    ElementUnclosed,
    /// Content has been written: the start tag of the current element is complete.
    ElementClosed,
}

/// `n` tab characters.
pub open spec fn tabs(n: nat) -> Seq<char> {
    Seq::new(n, |i: int| '\t')
}

/// The mathematical state of an [`XmlWriter`]: the text written so far, the
/// nesting depth, the layout and the position in the document.
pub struct WriterView {
    /// Everything written so far.
    pub out: Seq<char>,
    /// How many elements are open around the current position.
    pub indent: u8,
    /// Whether the output is laid out for a human reader.
    pub pretty: bool,
    /// Where the writer stands.
    pub state: XmlState,
}

impl WriterView {
    /// A writer that has written nothing but `out`.
    pub open spec fn start(out: Seq<char>, pretty: bool) -> WriterView {
        WriterView { out, indent: 0, pretty, state: XmlState::DocumentStart }
    }

    /// The same writer with `text` appended to its output.
    pub open spec fn append(self, text: Seq<char>) -> WriterView {
        WriterView { out: self.out + text, ..self }
    }

    /// The depth inside one more element; the counter stops at its maximum.
    pub open spec fn indent_in(self) -> u8 {
        if self.indent < u8::MAX {
            (self.indent + 1) as u8
        } else {
            self.indent
        }
    }

    /// What separates two nodes: in pretty mode a new line and one tab for
    /// each open element, in compact mode nothing.
    pub open spec fn line_break(self) -> Seq<char> {
        if self.pretty {
            seq!['\n'] + tabs(self.indent as nat)
        } else {
            Seq::empty()
        }
    }

    /// What is written before a new node: the end of a start tag that is still
    /// open, and a line break unless the node is the first of the document.
    pub open spec fn lead_in(self) -> Seq<char> {
        let close = if self.state == XmlState::ElementUnclosed {
            seq!['>']
        } else {
            Seq::empty()
        };
        let line = if self.state != XmlState::DocumentStart {
            self.line_break()
        } else {
            Seq::empty()
        };
        close + line
    }

    /// The writer after `content` has been written as a child node, verbatim.
    pub open spec fn with_content(self, content: Seq<char>) -> WriterView {
        WriterView {
            out: self.out + self.lead_in() + content,
            state: XmlState::ElementClosed,
            ..self
        }
    }

    /// The writer inside a new element `tag`, before its attributes.
    pub open spec fn opened(self, tag: Seq<char>) -> WriterView {
        WriterView {
            out: self.out + self.lead_in() + seq!['<'] + tag,
            indent: self.indent_in(),
            state: XmlState::ElementUnclosed,
            ..self
        }
    }

    /// How an element ends: a childless one closes its own start tag, one with
    /// content gets an end tag, in pretty mode on a line of its own at the
    /// depth `outer` of what surrounds the element.
    pub open spec fn closing(self, tag: Seq<char>, outer: u8) -> Seq<char> {
        match self.state {
            XmlState::ElementUnclosed => if self.pretty {
                seq![' ', '/', '>']
            } else {
                seq!['/', '>']
            },
            XmlState::ElementClosed => (WriterView { indent: outer, ..self }).line_break()
                + seq!['<', '/'] + tag + seq!['>'],
            XmlState::DocumentStart => Seq::empty(),
        }
    }

    /// The writer after the element `tag`, whose body it has just written:
    /// it is back at the depth `outer` of what surrounds the element.
    pub open spec fn closed(self, tag: Seq<char>, outer: u8) -> WriterView {
        WriterView {
            out: self.out + self.closing(tag, outer),
            indent: outer,
            state: XmlState::ElementClosed,
            ..self
        }
    }

    /// The writer after it has given up an element whose body failed: nothing
    /// more is written, and it is back at the depth `outer` of what surrounds
    /// the element.
    pub open spec fn abandoned(self, outer: u8) -> WriterView {
        WriterView { indent: outer, ..self }
    }

    /// The writer after the body of an element `tag` ended, well or not.
    pub open spec fn finished(self, tag: Seq<char>, ok: bool, outer: u8) -> WriterView {
        if ok {
            self.closed(tag, outer)
        } else {
            self.abandoned(outer)
        }
    }

    /// The text of one attribute, `value` being its escaped or canonical form.
    pub open spec fn attr_text(name: Seq<char>, value: Seq<char>) -> Seq<char> {
        seq![' '] + name + seq!['=', '"'] + value + seq!['"']
    }

    /// Writing an attribute: refused once the element has content, since
    /// attributes belong to the start tag.
    pub open spec fn with_attr(self, name: Seq<char>, value: Seq<char>) -> Result<WriterView, Error> {
        if self.state == XmlState::ElementClosed {
            Err(Error::AttributesInChildContext)
        } else {
            Ok(self.append(Self::attr_text(name, value)))
        }
    }

    /// Writing an attribute that may be absent.
    pub open spec fn with_attr_opt(self, name: Seq<char>, value: Option<Seq<char>>) -> Result<
        WriterView,
        Error,
    > {
        match value {
            Some(value) => self.with_attr(name, value),
            None => Ok(self),
        }
    }
}

/// Attributes come before children. In a start tag that is open an attribute
/// is written and leaves the tag open; once the element has content, be it
/// text, raw XML or a whole child element, an attribute is refused.
pub proof fn lemma_attributes_precede_content(
    writer: WriterView,
    tag: Seq<char>,
    content: Seq<char>,
    name: Seq<char>,
    value: Seq<char>,
)
    ensures
        writer.opened(tag).with_attr(name, value) is Ok,
        writer.opened(tag).with_attr(name, value)->Ok_0.state == XmlState::ElementUnclosed,
        writer.with_content(content).with_attr(name, value) == Err::<WriterView, Error>(
            Error::AttributesInChildContext,
        ),
        writer.closed(tag, writer.indent).with_attr(name, value) == Err::<WriterView, Error>(
            Error::AttributesInChildContext,
        ),
{
}

/// An element without content closes its own start tag: `<tag name="value"/>`,
/// with a space before the slash in pretty mode.
pub proof fn lemma_childless_element(writer: WriterView, tag: Seq<char>, name: Seq<char>, value: Seq<char>)
    ensures
        writer.opened(tag).with_attr(name, value)->Ok_0.closed(tag, writer.indent).out == writer.out
            + writer.lead_in()
            + seq!['<'] + tag + WriterView::attr_text(name, value) + if writer.pretty {
            seq![' ', '/', '>']
        } else {
            seq!['/', '>']
        },
        writer.opened(tag).with_attr(name, value)->Ok_0.closed(tag, writer.indent).state
            == XmlState::ElementClosed,
        writer.opened(tag).with_attr(name, value)->Ok_0.closed(tag, writer.indent).indent == writer.indent,
{
}

/// An element with content gets an end tag: `<tag name="value">content</tag>`,
/// in pretty mode with the content on a line of its own, one tab deeper,
/// and the end tag on the next, as deep as the start tag.
pub proof fn lemma_element_with_content(
    writer: WriterView,
    tag: Seq<char>,
    name: Seq<char>,
    value: Seq<char>,
    content: Seq<char>,
)
    ensures
        ({
            let start = writer.opened(tag).with_attr(name, value)->Ok_0;
            let body = start.with_content(content);
            body.closed(tag, writer.indent).out == writer.out + writer.lead_in() + seq!['<'] + tag
                + WriterView::attr_text(name, value) + seq!['>'] + start.line_break() + content
                + writer.line_break() + seq!['<', '/'] + tag + seq!['>']
        }),
{
    let start = writer.opened(tag).with_attr(name, value)->Ok_0;
    let body = start.with_content(content);
    assert(start.lead_in() =~= seq!['>'] + start.line_break());
    assert((WriterView { indent: writer.indent, ..body }).line_break() == writer.line_break());
    assert(body.closed(tag, writer.indent).out =~= writer.out + writer.lead_in() + seq!['<'] + tag
        + WriterView::attr_text(name, value) + seq!['>'] + start.line_break() + content + writer.line_break()
        + seq!['<', '/'] + tag + seq!['>']);
}

/// A value that can stand inside an attribute: it knows the text that
/// represents it there. Strings are escaped; the values that this library
/// formats itself write their canonical form, which needs no escaping.
pub trait EscapedDisplay {
    /// The text that represents the value inside an attribute.
    spec fn escaped_text(&self) -> Seq<char>;

    /// Appends the value's text to `w`. The text cannot end the attribute it
    /// stands in, nor open a tag.
    fn escaped_fmt(&self, w: &mut String)
        ensures
            final(w)@ == old(w)@ + self.escaped_text(),
            util::is_inert(self.escaped_text()),
    ;
}

impl EscapedDisplay for &str {
    open spec fn escaped_text(&self) -> Seq<char> {
        util::escaped(self@)
    }

    fn escaped_fmt(&self, w: &mut String) {
        proof {
            util::lemma_escaped_is_inert(self@);
        }
        util::escape(w, self)
    }
}

impl EscapedDisplay for String {
    open spec fn escaped_text(&self) -> Seq<char> {
        util::escaped(self@)
    }

    fn escaped_fmt(&self, w: &mut String) {
        proof {
            util::lemma_escaped_is_inert(self@);
        }
        util::escape(w, self.as_str())
    }
}

/// A utility for writing optionally formatted XML into a string.
pub struct XmlWriter {
    write: String,
    indent_level: u8,
    pretty: bool,
    state: XmlState,
}

impl View for XmlWriter {
    type V = WriterView;

    closed spec fn view(&self) -> WriterView {
        WriterView {
            out: self.write@,
            indent: self.indent_level,
            pretty: self.pretty,
            state: self.state,
        }
    }
}

impl XmlWriter {
    /// Creates a new [`XmlWriter`] that continues the text in `writer`.
    pub fn new(writer: String, pretty: bool) -> (w: Self)
        ensures
            w@ == WriterView::start(writer@, pretty),
    {
        XmlWriter { write: writer, indent_level: 0, pretty, state: XmlState::DocumentStart }
    }

    /// Gives back the text written so far.
    pub fn into_inner(self) -> (out: String)
        ensures
            out@ == self@.out,
    {
        self.write
    }

    /// Whether this writer lays its output out for a human reader.
    pub fn is_pretty(&self) -> (pretty: bool)
        ensures
            pretty == self@.pretty,
    {
        self.pretty
    }

    /// Appends one character to the output, as it is.
    pub(crate) fn write_char(&mut self, c: char)
        ensures
            final(self)@ == old(self)@.append(seq![c]),
    {
        self.write.push(c);
        assert(old(self)@.out.push(c) =~= old(self)@.out + seq![c]);
    }

    fn pretty_break(&mut self)
        ensures
            final(self)@ == old(self)@.append(old(self)@.line_break()),
    {
        if self.pretty {
            self.write.push('\n');
            let mut i: u8 = 0;
            while i < self.indent_level
                invariant
                    i <= self.indent_level,
                    self.indent_level == old(self).indent_level,
                    self.pretty == old(self).pretty,
                    self.state == old(self).state,
                    self.write@ == old(self).write@ + seq!['\n'] + tabs(i as nat),
                decreases self.indent_level - i,
            {
                self.write.push('\t');
                assert(tabs(i as nat).push('\t') =~= tabs((i + 1) as nat));
                assert(self.write@ =~= old(self).write@ + seq!['\n'] + tabs((i + 1) as nat));
                i += 1;
            }
            assert(self.write@ =~= old(self).write@ + (seq!['\n'] + tabs(self.indent_level as nat)));
        } else {
            assert(self.write@ =~= old(self).write@ + Seq::<char>::empty());
        }
    }

    fn lead_in(&mut self)
        ensures
            final(self)@ == old(self)@.append(old(self)@.lead_in()),
    {
        if self.state == XmlState::ElementUnclosed {
            self.write.push('>');
        }
        if self.state != XmlState::DocumentStart {
            self.pretty_break();
        }
        assert(self.write@ =~= old(self).write@ + old(self)@.lead_in());
    }

    /// Starts an XML element context: writes the start tag, lets `ctx` write
    /// the attributes and then the children, and ends the element, with an end
    /// tag if `ctx` wrote any content. Afterwards the writer is back at the
    /// depth of the caller, also when `ctx` fails.
    ///
    /// Note that child elements **must** be written *after* any attributes.
    pub fn element<F: FnOnce(&mut XmlWriter) -> Result<(), Error>>(&mut self, tag_name: &str, ctx: F) -> (r:
        Result<(), Error>)
        requires
            forall|w: &mut XmlWriter| w@ == old(self)@.opened(tag_name@) ==> call_requires(ctx, (w,)),
        ensures
            exists|w: &mut XmlWriter|
                #![trigger call_ensures(ctx, (w,), r)]
                {
                    &&& w@ == old(self)@.opened(tag_name@)
                    &&& call_ensures(ctx, (w,), r)
                    &&& final(self)@ == final(w)@.finished(tag_name@, r is Ok, old(self)@.indent)
                },
    {
        let outer = self.indent_level;
        self.lead_in();
        self.write.push('<');
        self.write.append(tag_name);
        self.state = XmlState::ElementUnclosed;
        if self.indent_level < u8::MAX {
            self.indent_level = self.indent_level + 1;
        }
        assert(self@.out =~= old(self)@.out + old(self)@.lead_in() + seq!['<'] + tag_name@);
        assert(self@ == old(self)@.opened(tag_name@));

        let r = ctx(self);

        let ghost body = self@;
        self.indent_level = outer;
        if r.is_err() {
            return r;
        }
        match self.state {
            XmlState::ElementUnclosed => {
                if self.pretty {
                    self.write.push(' ');
                }
                self.write.push('/');
                self.write.push('>');
            },
            XmlState::ElementClosed => {
                self.pretty_break();
                self.write.push('<');
                self.write.push('/');
                self.write.append(tag_name);
                self.write.push('>');
            },
            XmlState::DocumentStart => {},
        }
        self.state = XmlState::ElementClosed;
        assert(self@.out =~= body.out + body.closing(tag_name@, outer));
        r
    }

    /// Writes an attribute of the element whose start tag is open.
    ///
    /// Note that attributes **must** be written *before* any child elements:
    /// after a child the call fails and writes nothing.
    pub fn attr<V: EscapedDisplay>(&mut self, attr_name: &str, attr_value: V) -> (r: Result<(), Error>)
        ensures
            match old(self)@.with_attr(attr_name@, attr_value.escaped_text()) {
                Ok(w) => r is Ok && final(self)@ == w && util::is_inert(attr_value.escaped_text()),
                Err(e) => r == Err::<(), Error>(e) && final(self)@ == old(self)@,
            },
    {
        if self.state == XmlState::ElementClosed {
            return Err(Error::AttributesInChildContext);
        }
        self.write.push(' ');
        self.write.append(attr_name);
        self.write.push('=');
        self.write.push('"');
        attr_value.escaped_fmt(&mut self.write);
        self.write.push('"');
        assert(self.write@ =~= old(self).write@ + WriterView::attr_text(
            attr_name@,
            attr_value.escaped_text(),
        ));
        Ok(())
    }

    /// Writes an attribute if the given `attr_value` is `Some`.
    ///
    /// Note that attributes **must** be written *before* any child elements.
    pub fn attr_opt<V: EscapedDisplay>(&mut self, attr_name: &str, attr_value: Option<V>) -> (r: Result<
        (),
        Error,
    >)
        ensures
            match old(self)@.with_attr_opt(
                attr_name@,
                match attr_value {
                    Some(v) => Some(v.escaped_text()),
                    None => None,
                },
            ) {
                Ok(w) => r is Ok && final(self)@ == w,
                Err(e) => r == Err::<(), Error>(e) && final(self)@ == old(self)@,
            },
    {
        if let Some(attr_value) = attr_value {
            self.attr(attr_name, attr_value)
        } else {
            Ok(())
        }
    }

    /// Escapes and inserts the given text into the XML stream.
    pub fn text(&mut self, contents: &str) -> (r: Result<(), Error>)
        ensures
            r is Ok,
            final(self)@ == old(self)@.with_content(util::escaped(contents@)),
    {
        self.lead_in();
        util::escape(&mut self.write, contents);
        self.state = XmlState::ElementClosed;
        Ok(())
    }

    /// Inserts the given text into the XML stream verbatim, closing any open
    /// start tag, with no escaping performed.
    pub fn raw(&mut self, contents: &str) -> (r: Result<(), Error>)
        ensures
            r is Ok,
            final(self)@ == old(self)@.with_content(contents@),
    {
        self.lead_in();
        self.write.append(contents);
        self.state = XmlState::ElementClosed;
        Ok(())
    }
}

} // verus!
