use ssml::util::{escape, escape_to_string};
use ssml::{Error, XmlWriter};

#[test]
fn escape_replaces_the_five_characters() {
    assert_eq!(escape_to_string("One & two"), "One &amp; two");
    assert_eq!(escape_to_string("<\"'>"), "&lt;&quot;&apos;&gt;");
    assert_eq!(escape_to_string(""), "");
    assert_eq!(escape_to_string("pl\u{e4}in \u{1f600}"), "pl\u{e4}in \u{1f600}");
    assert_eq!(escape_to_string("&amp;"), "&amp;amp;");
    let mut out = String::from("x");
    escape(&mut out, "a<b");
    assert_eq!(out, "xa&lt;b");
}

#[test]
fn element_without_content_closes_itself() {
    let mut writer = XmlWriter::new(String::new(), false);
    writer.element("tag", |w| w.attr("attr", "v")).unwrap();
    assert_eq!(writer.into_inner(), "<tag attr=\"v\"/>");
    let mut writer = XmlWriter::new(String::new(), true);
    writer.element("tag", |w| w.attr("attr", "v")).unwrap();
    assert_eq!(writer.into_inner(), "<tag attr=\"v\" />");
}

#[test]
fn element_with_content_gets_an_end_tag() {
    let mut writer = XmlWriter::new(String::new(), false);
    writer
        .element("tag", |w| {
            w.attr("attr", "v")?;
            w.text("child")
        })
        .unwrap();
    assert_eq!(writer.into_inner(), "<tag attr=\"v\">child</tag>");
    let mut writer = XmlWriter::new(String::new(), true);
    writer
        .element("tag", |w| {
            w.attr("attr", "v")?;
            w.element("inner", |w| w.raw("<raw/>"))
        })
        .unwrap();
    assert_eq!(writer.into_inner(), "<tag attr=\"v\">\n\t<inner>\n\t\t<raw/>\n\t</inner>\n</tag>");
}

#[test]
fn attribute_after_text_is_refused() {
    let mut writer = XmlWriter::new(String::new(), false);
    let result = writer.element("tag", |w| {
        w.text("child")?;
        w.attr("late", "v")
    });
    assert_eq!(result, Err(Error::AttributesInChildContext));
    assert_eq!(writer.into_inner(), "<tag>child");
}

#[test]
fn attribute_after_raw_or_element_is_refused() {
    let mut writer = XmlWriter::new(String::new(), false);
    let result = writer.element("tag", |w| {
        w.raw("<x/>")?;
        w.attr("late", "v")
    });
    assert_eq!(result, Err(Error::AttributesInChildContext));
    let mut writer = XmlWriter::new(String::new(), false);
    let result = writer.element("tag", |w| {
        w.element("child", |_| Ok(()))?;
        w.attr_opt("late", Some("v"))
    });
    assert_eq!(result, Err(Error::AttributesInChildContext));
    let mut writer = XmlWriter::new(String::new(), false);
    let result = writer.element("tag", |w| {
        w.text("child")?;
        w.attr_opt("late", None::<&str>)
    });
    assert_eq!(result, Ok(()));
}

#[test]
fn attribute_values_are_escaped() {
    let mut writer = XmlWriter::new(String::new(), false);
    writer
        .element("t", |w| {
            w.attr("a", "x\"y")?;
            w.attr("b", String::from("<&>"))?;
            w.attr("n", 7u8)?;
            w.attr_opt("o", Some("'"))?;
            w.attr_opt("p", None::<&str>)
        })
        .unwrap();
    assert_eq!(writer.into_inner(), "<t a=\"x&quot;y\" b=\"&lt;&amp;&gt;\" n=\"7\" o=\"&apos;\"/>");
}

#[test]
fn a_failing_body_leaves_the_depth_as_it_was() {
    let mut writer = XmlWriter::new(String::new(), true);
    let result = writer.element("outer", |w| {
        w.element("inner", |w| {
            w.text("x")?;
            w.attr("late", "v")
        })
    });
    assert_eq!(result, Err(Error::AttributesInChildContext));
    writer.text("after").unwrap();
    assert_eq!(writer.into_inner(), "<outer>\n\t<inner>\n\t\tx\nafter");
}

#[test]
fn text_and_raw_at_the_start_of_a_document() {
    let mut writer = XmlWriter::new(String::from("pre"), true);
    assert!(writer.is_pretty());
    writer.text("a&b").unwrap();
    writer.raw("<c/>").unwrap();
    assert_eq!(writer.into_inner(), "prea&amp;b\n<c/>");
}

#[test]
fn deeply_nested_elements_keep_their_depth() {
    fn nest(w: &mut XmlWriter, depth: usize) -> Result<(), Error> {
        if depth == 0 {
            w.text("x")
        } else {
            w.element("d", |w| nest(w, depth - 1))
        }
    }
    let mut writer = XmlWriter::new(String::new(), true);
    nest(&mut writer, 300).unwrap();
    writer.text("end").unwrap();
    let out = writer.into_inner();
    assert!(out.ends_with("\n</d>\nend"), "{:?}", &out[out.len() - 20..]);
}
