use hearth_web::html::{Markup, Template};
use hearth_web::model::{Timestamp, Uuid, MINUTE};

#[test]
fn text_is_escaped() {
    assert_eq!(
        Markup::text("<a href=\"x\">Tom & 'Jerry'</a>").into_string(),
        "&lt;a href=&quot;x&quot;&gt;Tom &amp; 'Jerry'&lt;/a&gt;"
    );
    assert_eq!(Markup::text("plain é").into_string(), "plain é");
}

#[test]
fn holes_are_filled_in_order() {
    let id = Uuid { value: 0x0123_4567_89ab_cdef_0123_4567_89ab_cdef };
    let t = Timestamp::new(0, 0).unwrap();
    let m = Template::new("[¤|¤|¤|¤|¤|¤|¤]")
        .text("a<b")
        .raw("<i>")
        .num(-7)
        .char('&')
        .uuid(id)
        .date(&t, MINUTE)
        .when(true, "!")
        .done();
    assert_eq!(
        m.into_string(),
        "[a&lt;b|<i>|-7|&amp;|01234567-89ab-cdef-0123-456789abcdef|1970-01-01 00:00 UTC|!]"
    );
}

#[test]
fn a_hole_mark_in_a_text_is_not_a_hole() {
    let m = Template::new("¤-¤").text("¤").text("b").done();
    assert_eq!(m.into_string(), "¤-b");
}

#[test]
fn a_template_with_no_hole_left_appends() {
    assert_eq!(Template::new("a").html(&Markup::raw("<b>")).done().into_string(), "a<b>");
    assert_eq!(Markup::when(false, "x").into_string(), "");
    assert_eq!(Markup::raw("a").then_html(&Markup::raw("b")).as_str(), "ab");
}
