//! Utilities for serializing XML.

use std::borrow::Cow;
use vstd::prelude::*;
use vstd::string::StringExecFns;

use crate::element::{views, Element, ElementView};
use crate::error::Error;
use crate::xml::{WriterView, XmlWriter};
use crate::{Flavor, Outcome, Serialize, SerializeOptions};

verus! {

broadcast use vstd::string::group_string_axioms;

/// What a list of elements does to a writer: each element is serialized in
/// turn, from index `from` on, until one fails. With `join`, in compact mode
/// a single space is written between two adjacent texts, so that their words
/// do not run together; in pretty mode the layout separates them.
pub open spec fn render_all(
    nodes: Seq<ElementView>,
    from: int,
    so_far: Outcome,
    options: SerializeOptions,
    join: bool,
) -> Outcome
    decreases nodes, nodes.len() - from,
{
    if so_far.failure is Some || from < 0 || from >= nodes.len() {
        so_far
    } else {
        let one = nodes[from].render(so_far.writer, options);
        let joined = if is_joint(nodes, from, one.writer.pretty, join) {
            one.emit(seq![' '])
        } else {
            one
        };
        render_all(nodes, from + 1, joined, options, join)
    }
}

/// Whether a space is due after the node at `at`: only in compact mode, and
/// only between two texts.
pub open spec fn is_joint(nodes: Seq<ElementView>, at: int, pretty: bool, join: bool) -> bool {
    &&& join
    &&& !pretty
    &&& 0 <= at && at + 1 < nodes.len()
    &&& nodes[at] is Text
    &&& nodes[at + 1] is Text
}

/// Two texts side by side: in compact mode exactly one space is written
/// between them, in pretty mode none, since each text stands on a line of its
/// own.
pub proof fn lemma_adjacent_texts(first: Seq<char>, second: Seq<char>, writer: WriterView, options: SerializeOptions)
    ensures
        ({
            let nodes = seq![ElementView::Text(first), ElementView::Text(second)];
            let after = render_all(nodes, 0, Outcome::of(writer), options, true);
            let between = if writer.pretty {
                writer.line_break()
            } else {
                seq![' ']
            };
            &&& after.failure is None
            &&& after.writer.out == writer.out + writer.lead_in() + escaped(first) + between + escaped(second)
        }),
{
    let nodes = seq![ElementView::Text(first), ElementView::Text(second)];
    let start = Outcome::of(writer);
    let one = nodes[0].render(writer, options);
    assert(one == Outcome::of(writer.with_content(escaped(first))));
    let joined = if is_joint(nodes, 0, one.writer.pretty, true) {
        one.emit(seq![' '])
    } else {
        one
    };
    assert(render_all(nodes, 0, start, options, true) == render_all(nodes, 1, joined, options, true));
    let two = nodes[1].render(joined.writer, options);
    assert(two == Outcome::of(joined.writer.with_content(escaped(second))));
    assert(!is_joint(nodes, 1, two.writer.pretty, true));
    assert(render_all(nodes, 1, joined, options, true) == render_all(nodes, 2, two, options, true));
    assert(render_all(nodes, 2, two, options, true) == two);
    let between = if writer.pretty {
        writer.line_break()
    } else {
        seq![' ']
    };
    assert(two.writer.out =~= writer.out + writer.lead_in() + escaped(first) + between + escaped(second));
}

/// Serialize a list of elements, inserting spaces between adjacent text
/// elements where needed.
pub fn serialize_elements(writer: &mut XmlWriter, elements: &Vec<Element<'_>>, options: &SerializeOptions) -> (r:
    Result<(), Error>)
    ensures
        render_all(views(elements@), 0, Outcome::of(old(writer)@), *options, true).describes(
            final(writer)@,
            r,
        ),
    decreases elements,
{
    let ghost nodes = views(elements@);
    let ghost goal = render_all(nodes, 0, Outcome::of(old(writer)@), *options, true);
    let mut i: usize = 0;
    while i < elements.len()
        invariant
            i <= elements.len(),
            nodes == views(elements@),
            goal == render_all(nodes, 0, Outcome::of(old(writer)@), *options, true),
            goal == render_all(nodes, i as int, Outcome::of(writer@), *options, true),
        decreases elements.len() - i,
    {
        proof {
            vstd::std_specs::vec::axiom_vec_index_decreases(*elements, i as int);
        }
        let el = &elements[i];
        let ghost before = writer@;
        let ghost one = nodes[i as int].render(before, *options);
        assert(el.rendered(before, *options) == one);
        let r = el.serialize_xml(writer, options);
        let ghost joined = if is_joint(nodes, i as int, one.writer.pretty, true) {
            one.emit(seq![' '])
        } else {
            one
        };
        assert(nodes[i as int] == elements[i as int]@);
        assert(one.describes(writer@, r));
        assert(goal == render_all(nodes, i + 1, joined, *options, true));
        if r.is_err() {
            assert(render_all(nodes, i + 1, one, *options, true) == one);
            return r;
        }
        if !writer.is_pretty() && el.is_text() {
            if i + 1 < elements.len() {
                assert(nodes[i + 1] == elements[i + 1]@);
                if elements[i + 1].is_text() {
                    writer.write_char(' ');
                }
            }
        }
        assert(joined == Outcome::of(writer@));
        i += 1;
    }
    Ok(())
}

/// Serialize a list of elements, one after the other.
pub(crate) fn serialize_each(writer: &mut XmlWriter, elements: &Vec<Element<'_>>, options: &SerializeOptions) -> (r:
    Result<(), Error>)
    ensures
        render_all(views(elements@), 0, Outcome::of(old(writer)@), *options, false).describes(
            final(writer)@,
            r,
        ),
    decreases elements,
{
    let ghost nodes = views(elements@);
    let ghost goal = render_all(nodes, 0, Outcome::of(old(writer)@), *options, false);
    let mut i: usize = 0;
    while i < elements.len()
        invariant
            i <= elements.len(),
            nodes == views(elements@),
            goal == render_all(nodes, 0, Outcome::of(old(writer)@), *options, false),
            goal == render_all(nodes, i as int, Outcome::of(writer@), *options, false),
        decreases elements.len() - i,
    {
        proof {
            vstd::std_specs::vec::axiom_vec_index_decreases(*elements, i as int);
        }
        let ghost before = writer@;
        let ghost one = nodes[i as int].render(before, *options);
        assert(elements[i as int].rendered(before, *options) == one);
        let r = elements[i].serialize_xml(writer, options);
        assert(nodes[i as int] == elements[i as int]@);
        assert(one.describes(writer@, r));
        assert(goal == render_all(nodes, i + 1, one, *options, false));
        if r.is_err() {
            assert(render_all(nodes, i + 1, one, *options, false) == one);
            return r;
        }
        i += 1;
    }
    Ok(())
}

/// What a list of attributes does to a writer: each is written in turn, its
/// value escaped, from index `from` on, until one is refused.
pub open spec fn render_attrs(attrs: Seq<(Seq<char>, Seq<char>)>, from: int, so_far: Outcome) -> Outcome
    decreases attrs.len() - from,
{
    if so_far.failure is Some || from < 0 || from >= attrs.len() {
        so_far
    } else {
        render_attrs(attrs, from + 1, so_far.attr(attrs[from].0, escaped(attrs[from].1)))
    }
}

/// Whether the elements from index `from` on all write nothing.
pub open spec fn all_void(nodes: Seq<ElementView>, from: int) -> bool
    decreases nodes, nodes.len() - from,
{
    from < 0 || from >= nodes.len() || (nodes[from].is_void() && all_void(nodes, from + 1))
}

/// Whether, from index `from` on, no element of the caller's making in the
/// list fails for the flavor.
pub open spec fn all_reliable(nodes: Seq<ElementView>, from: int, flavor: Flavor) -> bool
    decreases nodes, nodes.len() - from,
{
    from < 0 || from >= nodes.len() || (nodes[from].is_reliable(flavor) && all_reliable(
        nodes,
        from + 1,
        flavor,
    ))
}

/// The names and values of a list of attributes.
pub open spec fn pairs(attrs: Seq<(Cow<'_, str>, Cow<'_, str>)>) -> Seq<(Seq<char>, Seq<char>)> {
    Seq::new(attrs.len(), |i: int| (attrs[i].0@, attrs[i].1@))
}

/// The texts of a list of strings.
pub open spec fn texts(list: Seq<Cow<'_, str>>) -> Seq<Seq<char>> {
    Seq::new(list.len(), |i: int| list[i]@)
}

/// The texts of a list of strings that may be absent.
pub open spec fn texts_opt(list: Option<Vec<Cow<'_, str>>>) -> Option<Seq<Seq<char>>> {
    match list {
        Some(list) => Some(texts(list@)),
        None => None,
    }
}

/// The items of `list` from index `from` on, each but the first of the
/// whole list preceded by a space.
pub open spec fn joined(list: Seq<Seq<char>>, from: int) -> Seq<char>
    decreases list.len() - from,
{
    if from < 0 || from >= list.len() {
        Seq::empty()
    } else if from == 0 {
        list[from] + joined(list, from + 1)
    } else {
        seq![' '] + list[from] + joined(list, from + 1)
    }
}

/// The items of a list, separated by single spaces.
pub fn join(list: &Vec<Cow<'_, str>>) -> (r: String)
    ensures
        r@ == joined(texts(list@), 0),
{
    let ghost items = texts(list@);
    let mut out = String::new();
    let mut i: usize = 0;
    assert(out@ + joined(items, 0) =~= joined(items, 0));
    while i < list.len()
        invariant
            i <= list.len(),
            items == texts(list@),
            out@ + joined(items, i as int) == joined(items, 0),
        decreases list.len() - i,
    {
        let ghost before = out@;
        if i > 0 {
            out.push(' ');
        }
        out.append(cow_str(&list[i]));
        assert(items[i as int] == list[i as int]@);
        assert(out@ + joined(items, i + 1) =~= before + joined(items, i as int));
        i += 1;
    }
    assert(out@ + joined(items, i as int) =~= out@);
    out
}

/// The items of a list that may be absent, separated by single spaces.
pub fn join_opt(list: &Option<Vec<Cow<'_, str>>>) -> (r: Option<String>)
    ensures
        r is Some == list is Some,
        r is Some ==> r->0@ == joined(texts(list->0@), 0),
{
    match list {
        Some(list) => Some(join(list)),
        None => None,
    }
}

/// Writes a list of attributes, escaping their values.
pub fn serialize_attrs(writer: &mut XmlWriter, attrs: &Vec<(Cow<'_, str>, Cow<'_, str>)>) -> (r: Result<
    (),
    Error,
>)
    ensures
        render_attrs(pairs(attrs@), 0, Outcome::of(old(writer)@)).describes(final(writer)@, r),
{
    let ghost list = pairs(attrs@);
    let ghost goal = render_attrs(list, 0, Outcome::of(old(writer)@));
    let mut i: usize = 0;
    while i < attrs.len()
        invariant
            i <= attrs.len(),
            list == pairs(attrs@),
            goal == render_attrs(list, 0, Outcome::of(old(writer)@)),
            goal == render_attrs(list, i as int, Outcome::of(writer@)),
        decreases attrs.len() - i,
    {
        let ghost before = writer@;
        let ghost one = Outcome::of(before).attr(list[i as int].0, escaped(list[i as int].1));
        let r = writer.attr(cow_str(&attrs[i].0), cow_str(&attrs[i].1));
        assert(goal == render_attrs(list, i + 1, one));
        if r.is_err() {
            assert(render_attrs(list, i + 1, one) == one);
            return r;
        }
        assert(one == Outcome::of(writer@));
        i += 1;
    }
    Ok(())
}

/// Owned copies of a list of attributes.
pub fn owned_attrs(attrs: &Vec<(Cow<'_, str>, Cow<'_, str>)>) -> (r: Vec<(Cow<'static, str>, Cow<'static, str>)>)
    ensures
        pairs(r@) == pairs(attrs@),
{
    let mut out: Vec<(Cow<'static, str>, Cow<'static, str>)> = Vec::new();
    let mut i: usize = 0;
    while i < attrs.len()
        invariant
            i <= attrs.len(),
            out.len() == i,
            forall|j: int| 0 <= j < i ==> out[j].0@ == attrs[j].0@ && out[j].1@ == attrs[j].1@,
        decreases attrs.len() - i,
    {
        out.push((owned(&attrs[i].0), owned(&attrs[i].1)));
        i += 1;
    }
    assert(pairs(out@) =~= pairs(attrs@));
    out
}

/// Owned copies of a list of strings.
pub fn owned_list(list: &Vec<Cow<'_, str>>) -> (r: Vec<Cow<'static, str>>)
    ensures
        texts(r@) == texts(list@),
{
    let mut out: Vec<Cow<'static, str>> = Vec::new();
    let mut i: usize = 0;
    while i < list.len()
        invariant
            i <= list.len(),
            out.len() == i,
            forall|j: int| 0 <= j < i ==> out[j]@ == list[j]@,
        decreases list.len() - i,
    {
        out.push(owned(&list[i]));
        i += 1;
    }
    assert(texts(out@) =~= texts(list@));
    out
}

/// A string as an owned string: a borrowed one is copied, an owned one is
/// kept.
pub fn into_owned(text: Cow<'_, str>) -> (r: Cow<'static, str>)
    ensures
        r@ == text@,
        r is Owned,
{
    match text {
        Cow::Borrowed(borrowed) => Cow::Owned(borrowed.to_owned()),
        Cow::Owned(owned) => Cow::Owned(owned),
    }
}

/// A list of strings as owned strings.
pub fn into_owned_list(list: Vec<Cow<'_, str>>) -> (r: Vec<Cow<'static, str>>)
    ensures
        texts(r@) == texts(list@),
{
    let mut out: Vec<Cow<'static, str>> = Vec::new();
    for text in it: list.into_iter()
        invariant
            it.seq() == list@,
            out.len() == it.index(),
            forall|j: int| 0 <= j < it.index() ==> out[j]@ == list[j]@,
    {
        out.push(into_owned(text));
    }
    assert(texts(out@) =~= texts(list@));
    out
}

/// A string that may be absent as an owned string.
pub fn into_owned_opt(text: Option<Cow<'_, str>>) -> (r: Option<Cow<'static, str>>)
    ensures
        opt_view(r) == opt_view(text),
{
    match text {
        Some(text) => Some(into_owned(text)),
        None => None,
    }
}

/// A list of strings that may be absent as owned strings.
pub fn into_owned_list_opt(list: Option<Vec<Cow<'_, str>>>) -> (r: Option<Vec<Cow<'static, str>>>)
    ensures
        texts_opt(r) == texts_opt(list),
{
    match list {
        Some(list) => Some(into_owned_list(list)),
        None => None,
    }
}

/// A list of attributes with owned names and values.
pub fn into_owned_attrs(attrs: Vec<(Cow<'_, str>, Cow<'_, str>)>) -> (r: Vec<(Cow<'static, str>, Cow<'static, str>)>)
    ensures
        pairs(r@) == pairs(attrs@),
{
    let mut out: Vec<(Cow<'static, str>, Cow<'static, str>)> = Vec::new();
    for attr in it: attrs.into_iter()
        invariant
            it.seq() == attrs@,
            out.len() == it.index(),
            forall|j: int| 0 <= j < it.index() ==> out[j].0@ == attrs[j].0@ && out[j].1@ == attrs[j].1@,
    {
        out.push((into_owned(attr.0), into_owned(attr.1)));
    }
    assert(pairs(out@) =~= pairs(attrs@));
    out
}

/// Owned copies of a list of strings that may be absent.
pub fn owned_list_opt(list: &Option<Vec<Cow<'_, str>>>) -> (r: Option<Vec<Cow<'static, str>>>)
    ensures
        texts_opt(r) == texts_opt(*list),
{
    match list {
        Some(list) => Some(owned_list(list)),
        None => None,
    }
}

/// The character that stands for a decimal digit.
pub open spec fn digit_char(digit: nat) -> char {
    ((48 + digit) as u8) as char
}

/// A natural number in decimal notation.
pub open spec fn decimal(n: nat) -> Seq<char>
    decreases n,
{
    if n < 10 {
        seq![digit_char(n)]
    } else {
        decimal(n / 10).push(digit_char(n % 10))
    }
}

/// Decimal notation holds digits only, so it is inert.
pub proof fn lemma_decimal_is_inert(n: nat)
    ensures
        is_inert(decimal(n)),
    decreases n,
{
    if n >= 10 {
        lemma_decimal_is_inert(n / 10);
    }
}

/// Appends a small number in decimal notation.
pub fn write_decimal(writer: &mut String, n: u8)
    ensures
        final(writer)@ == old(writer)@ + decimal(n as nat),
{
    let ghost start = writer@;
    if n >= 100 {
        writer.push((48u8 + n / 100) as char);
    }
    if n >= 10 {
        writer.push((48u8 + (n / 10) % 10) as char);
    }
    writer.push((48u8 + n % 10) as char);
    proof {
        let m = n as nat;
        if m >= 100 {
            assert(decimal(m / 100) =~= seq![digit_char(m / 100)]);
            assert(decimal(m / 10) =~= decimal(m / 100).push(digit_char((m / 10) % 10)));
            assert((m / 10) / 10 == m / 100);
        } else if m >= 10 {
            assert(decimal(m / 10) =~= seq![digit_char(m / 10)]);
            assert((m / 10) % 10 == m / 10);
        }
        assert(writer@ =~= start + decimal(m));
    }
}

/// The characters of a string.
pub fn chars_of(s: &str) -> (r: Vec<char>)
    ensures
        r@ == s@,
{
    let mut out: Vec<char> = Vec::new();
    assert(s@.take(0) =~= Seq::<char>::empty());
    for c in it: s.chars()
        invariant
            it.seq() == s@,
            out@ == s@.take(it.index() as int),
    {
        out.push(c);
        assert(s@.take(it.index() + 1) =~= s@.take(it.index() as int).push(c));
    }
    assert(s@.take(s@.len() as int) =~= s@);
    out
}

/// The text of a string that is borrowed or owned.
pub fn cow_str<'a>(text: &'a Cow<'_, str>) -> (r: &'a str)
    ensures
        r@ == text@,
{
    match text {
        Cow::Borrowed(borrowed) => *borrowed,
        Cow::Owned(owned) => owned.as_str(),
    }
}

/// The text of a string that may be absent.
pub fn cow_str_opt<'a>(text: &'a Option<Cow<'_, str>>) -> (r: Option<&'a str>)
    ensures
        r is Some == text is Some,
        r is Some ==> r->0@ == text->0@,
{
    match text {
        Some(text) => Some(cow_str(text)),
        None => None,
    }
}

/// The text of a string that may be absent.
pub open spec fn opt_view(text: Option<Cow<'_, str>>) -> Option<Seq<char>> {
    match text {
        Some(text) => Some(text@),
        None => None,
    }
}

/// An owned copy of a string.
pub fn owned(text: &Cow<'_, str>) -> (r: Cow<'static, str>)
    ensures
        r@ == text@,
        r is Owned,
{
    Cow::Owned(cow_str(text).to_owned())
}

/// An owned copy of a string that may be absent.
pub fn owned_opt(text: &Option<Cow<'_, str>>) -> (r: Option<Cow<'static, str>>)
    ensures
        opt_view(r) == opt_view(*text),
{
    match text {
        Some(text) => Some(owned(text)),
        None => None,
    }
}

/// Whether `flavor` is among `flavors`.
pub fn has_flavor(flavors: &Vec<Flavor>, flavor: Flavor) -> (r: bool)
    ensures
        r == flavors@.contains(flavor),
{
    let mut i: usize = 0;
    while i < flavors.len()
        invariant
            i <= flavors.len(),
            forall|j: int| 0 <= j < i ==> flavors@[j] != flavor,
        decreases flavors.len() - i,
    {
        if flavors[i] == flavor {
            return true;
        }
        i += 1;
    }
    false
}

/// A copy of a list of flavors.
pub fn copy_flavors(flavors: &Vec<Flavor>) -> (r: Vec<Flavor>)
    ensures
        r@ == flavors@,
{
    let mut out: Vec<Flavor> = Vec::new();
    let mut i: usize = 0;
    while i < flavors.len()
        invariant
            i <= flavors.len(),
            out@ == flavors@.take(i as int),
        decreases flavors.len() - i,
    {
        out.push(flavors[i]);
        assert(flavors@.take(i + 1) =~= flavors@.take(i as int).push(flavors@[i as int]));
        i += 1;
    }
    assert(flavors@.take(flavors@.len() as int) =~= flavors@);
    out
}

/// `String::push` appends the given character to the end of the string.
pub assume_specification[ String::push ](s: &mut String, c: char)
    ensures
        final(s)@ == old(s)@.push(c),
;

/// `Cow::clone` is what the derived `Clone` of the element types calls for
/// their strings. Nothing is claimed of its result.
pub assume_specification<'a, B: ?Sized + ToOwned>[ <Cow<'a, B> as Clone>::clone ](c: &Cow<'a, B>) -> (r:
    Cow<'a, B>)
;

/// What one character of text becomes in XML: the five characters that XML
/// gives a meaning are replaced by their named entities, every other
/// character stands for itself.
pub open spec fn escaped_char(c: char) -> Seq<char> {
    if c == '"' {
        seq!['&', 'q', 'u', 'o', 't', ';']
    } else if c == '\'' {
        seq!['&', 'a', 'p', 'o', 's', ';']
    } else if c == '<' {
        seq!['&', 'l', 't', ';']
    } else if c == '>' {
        seq!['&', 'g', 't', ';']
    } else if c == '&' {
        seq!['&', 'a', 'm', 'p', ';']
    } else {
        seq![c]
    }
}

/// The XML form of a text: each character escaped in turn.
pub open spec fn escaped(text: Seq<char>) -> Seq<char>
    decreases text.len(),
{
    if text.len() == 0 {
        Seq::empty()
    } else {
        escaped_char(text[0]) + escaped(text.drop_first())
    }
}

/// Escaping a text that ends in `c` is escaping what precedes `c` and then `c`.
pub proof fn lemma_escaped_push(text: Seq<char>, c: char)
    ensures
        escaped(text.push(c)) == escaped(text) + escaped_char(c),
    decreases text.len(),
{
    if text.len() == 0 {
        assert(text.push(c).drop_first() =~= Seq::<char>::empty());
        assert(escaped(text.push(c).drop_first()) =~= Seq::<char>::empty());
        assert(escaped(text.push(c)) =~= escaped_char(c));
        assert(escaped(text) + escaped_char(c) =~= escaped_char(c));
    } else {
        lemma_escaped_push(text.drop_first(), c);
        assert(text.push(c).drop_first() =~= text.drop_first().push(c));
        assert(escaped(text.push(c)) =~= escaped(text) + escaped_char(c));
    }
}

/// A text that cannot end a quoted attribute value nor open or close a tag:
/// it holds none of `"`, `'`, `<` and `>`.
pub open spec fn is_inert(text: Seq<char>) -> bool {
    forall|i: int|
        0 <= i < text.len() ==> text[i] != '"' && text[i] != '\'' && text[i] != '<' && text[i] != '>'
}

/// Whether a text begins with another.
pub open spec fn has_prefix(text: Seq<char>, prefix: Seq<char>) -> bool {
    text.len() >= prefix.len() && text.take(prefix.len() as int) == prefix
}

/// The text that an XML parser reads from character data: each of the five
/// named entities stands for its character, every other character for
/// itself.
pub open spec fn unescaped(xml: Seq<char>) -> Seq<char>
    decreases xml.len(),
{
    if xml.len() == 0 {
        Seq::empty()
    } else if has_prefix(xml, escaped_char('"')) {
        seq!['"'] + unescaped(xml.skip(6))
    } else if has_prefix(xml, escaped_char('\'')) {
        seq!['\''] + unescaped(xml.skip(6))
    } else if has_prefix(xml, escaped_char('<')) {
        seq!['<'] + unescaped(xml.skip(4))
    } else if has_prefix(xml, escaped_char('>')) {
        seq!['>'] + unescaped(xml.skip(4))
    } else if has_prefix(xml, escaped_char('&')) {
        seq!['&'] + unescaped(xml.skip(5))
    } else {
        seq![xml[0]] + unescaped(xml.drop_first())
    }
}

/// Escaping loses nothing: what a parser reads from an escaped text is the
/// text.
pub proof fn lemma_unescaped_escaped(text: Seq<char>)
    ensures
        unescaped(escaped(text)) == text,
    decreases text.len(),
{
    if text.len() > 0 {
        let c = text[0];
        let rest = text.drop_first();
        let head = escaped_char(c);
        let xml = escaped(text);
        lemma_unescaped_escaped(rest);
        assert(xml == head + escaped(rest));
        assert(xml.skip(head.len() as int) =~= escaped(rest));
        assert(xml.take(head.len() as int) =~= head);
        assert(text =~= seq![c] + rest);
        if c == '"' {
        } else if c == '\'' {
            assert(xml[1] == 'a');
            assert(!has_prefix(xml, escaped_char('"'))) by {
                if has_prefix(xml, escaped_char('"')) {
                    assert(xml.take(6)[1] == 'q');
                }
            }
        } else if c == '<' {
            assert(xml[1] == 'l');
            assert(!has_prefix(xml, escaped_char('"'))) by {
                if has_prefix(xml, escaped_char('"')) {
                    assert(xml.take(6)[1] == 'q');
                }
            }
            assert(!has_prefix(xml, escaped_char('\''))) by {
                if has_prefix(xml, escaped_char('\'')) {
                    assert(xml.take(6)[1] == 'a');
                }
            }
        } else if c == '>' {
            assert(xml[1] == 'g');
            assert(!has_prefix(xml, escaped_char('"'))) by {
                if has_prefix(xml, escaped_char('"')) {
                    assert(xml.take(6)[1] == 'q');
                }
            }
            assert(!has_prefix(xml, escaped_char('\''))) by {
                if has_prefix(xml, escaped_char('\'')) {
                    assert(xml.take(6)[1] == 'a');
                }
            }
            assert(!has_prefix(xml, escaped_char('<'))) by {
                if has_prefix(xml, escaped_char('<')) {
                    assert(xml.take(4)[1] == 'l');
                }
            }
        } else if c == '&' {
            assert(xml[1] == 'a');
            assert(xml[2] == 'm');
            assert(!has_prefix(xml, escaped_char('"'))) by {
                if has_prefix(xml, escaped_char('"')) {
                    assert(xml.take(6)[1] == 'q');
                }
            }
            assert(!has_prefix(xml, escaped_char('\''))) by {
                if has_prefix(xml, escaped_char('\'')) {
                    assert(xml.take(6)[2] == 'p');
                }
            }
            assert(!has_prefix(xml, escaped_char('<'))) by {
                if has_prefix(xml, escaped_char('<')) {
                    assert(xml.take(4)[1] == 'l');
                }
            }
            assert(!has_prefix(xml, escaped_char('>'))) by {
                if has_prefix(xml, escaped_char('>')) {
                    assert(xml.take(4)[1] == 'g');
                }
            }
        } else {
            assert(xml[0] == c);
            assert(!has_prefix(xml, escaped_char('"'))) by {
                if has_prefix(xml, escaped_char('"')) {
                    assert(xml.take(6)[0] == '&');
                }
            }
            assert(!has_prefix(xml, escaped_char('\''))) by {
                if has_prefix(xml, escaped_char('\'')) {
                    assert(xml.take(6)[0] == '&');
                }
            }
            assert(!has_prefix(xml, escaped_char('<'))) by {
                if has_prefix(xml, escaped_char('<')) {
                    assert(xml.take(4)[0] == '&');
                }
            }
            assert(!has_prefix(xml, escaped_char('>'))) by {
                if has_prefix(xml, escaped_char('>')) {
                    assert(xml.take(4)[0] == '&');
                }
            }
            assert(!has_prefix(xml, escaped_char('&'))) by {
                if has_prefix(xml, escaped_char('&')) {
                    assert(xml.take(5)[0] == '&');
                }
            }
            assert(xml.drop_first() =~= escaped(rest));
        }
    } else {
        assert(text =~= Seq::<char>::empty());
    }
}

/// The escaped form of a text, where there is one.
pub open spec fn escaped_opt(text: Option<Seq<char>>) -> Option<Seq<char>> {
    match text {
        Some(text) => Some(escaped(text)),
        None => None,
    }
}

/// The escaped form of a list, joined by spaces, where there is a list.
pub open spec fn escaped_list(list: Option<Seq<Seq<char>>>) -> Option<Seq<char>> {
    match list {
        Some(list) => Some(escaped(joined(list, 0))),
        None => None,
    }
}

/// An escaped text is inert, whatever the text was.
pub proof fn lemma_escaped_is_inert(text: Seq<char>)
    ensures
        is_inert(escaped(text)),
    decreases text.len(),
{
    if text.len() > 0 {
        lemma_escaped_is_inert(text.drop_first());
    }
}

/// Escape the given text for use in XML, appending the result to `writer`.
pub fn escape(writer: &mut String, text: &str)
    ensures
        final(writer)@ == old(writer)@ + escaped(text@),
{
    let ghost start = writer@;
    assert(text@.take(0) =~= Seq::<char>::empty());
    assert(start + escaped(text@.take(0)) =~= start);
    for c in it: text.chars()
        invariant
            it.seq() == text@,
            writer@ == start + escaped(text@.take(it.index() as int)),
    {
        let ghost before = writer@;
        let ghost done = text@.take(it.index() as int);
        proof {
            lemma_escaped_push(done, c);
            assert(text@.take(it.index() + 1) =~= done.push(c));
        }
        if c == '"' {
            proof { reveal_strlit("&quot;"); }
            writer.append("&quot;");
            assert("&quot;"@ =~= escaped_char(c));
        } else if c == '\'' {
            proof { reveal_strlit("&apos;"); }
            writer.append("&apos;");
            assert("&apos;"@ =~= escaped_char(c));
        } else if c == '<' {
            proof { reveal_strlit("&lt;"); }
            writer.append("&lt;");
            assert("&lt;"@ =~= escaped_char(c));
        } else if c == '>' {
            proof { reveal_strlit("&gt;"); }
            writer.append("&gt;");
            assert("&gt;"@ =~= escaped_char(c));
        } else if c == '&' {
            proof { reveal_strlit("&amp;"); }
            writer.append("&amp;");
            assert("&amp;"@ =~= escaped_char(c));
        } else {
            writer.push(c);
            assert(before.push(c) =~= before + escaped_char(c));
        }
        assert(writer@ =~= start + escaped(done.push(c)));
    }
    assert(text@.take(text@.len() as int) =~= text@);
}

/// Escape the given text for use in XML, as a new string.
pub fn escape_to_string(text: &str) -> (out: String)
    ensures
        out@ == escaped(text@),
{
    let mut out = String::new();
    escape(&mut out, text);
    assert(Seq::<char>::empty() + escaped(text@) =~= escaped(text@));
    out
}

} // verus!
