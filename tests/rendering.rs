use blades::date::DateTime;
use blades::path::{Ancestors, Segment};
use blades::render::{decimal_text, signed_decimal_text, two_digit_text, Piece, SectionContext};
use blades::templates::{Registry, Templates};
use blades::value::Any;

fn num(t: &str) -> Any {
    Any::Number(t.to_string())
}

fn text(t: &str) -> Any {
    Any::String(t.to_string())
}

fn date(s: &str) -> DateTime {
    DateTime::parse(s).expect("a readable date")
}

fn joined(ps: &[Piece]) -> String {
    ps.iter().map(|p| p.text.clone()).collect::<Vec<_>>().join("")
}

fn crumbs(gs: &[Segment]) -> Vec<(String, String)> {
    gs.iter().map(|g| (g.name.clone(), g.full.clone())).collect()
}

fn pair(a: &str, b: &str) -> (String, String) {
    (a.to_string(), b.to_string())
}

#[test]
fn collections_are_truthy_when_not_empty() {
    assert!(!Any::List(vec![]).is_truthy());
    assert!(Any::List(vec![num("1")]).is_truthy());
    assert!(!Any::Table(vec![]).is_truthy());
    assert!(Any::Table(vec![("k".to_string(), num("1"))]).is_truthy());
}

#[test]
fn scalars_are_never_truthy() {
    assert!(!num("1").is_truthy());
    assert!(!num("0").is_truthy());
    assert!(!text("yes").is_truthy());
    assert!(!text("").is_truthy());
    assert!(!Any::DateTime(date("2020-03-05")).is_truthy());
}

#[test]
fn number_renders_its_text_in_both_modes() {
    let v = num("3.5");
    let e = v.render_escaped();
    let u = v.render_unescaped();
    assert_eq!(joined(&e), "3.5");
    assert_eq!(joined(&u), "3.5");
    assert!(!e[0].escape);
    assert!(!u[0].escape);
}

#[test]
fn text_is_escaped_only_when_asked() {
    let v = text("<b>");
    assert_eq!(v.render_escaped().len(), 1);
    assert!(v.render_escaped()[0].escape);
    assert!(!v.render_unescaped()[0].escape);
    assert_eq!(joined(&v.render_unescaped()), "<b>");
}

#[test]
fn collections_and_dates_render_nothing_directly() {
    assert!(Any::List(vec![num("1")]).render_escaped().is_empty());
    assert!(Any::Table(vec![("x".to_string(), num("1"))]).render_unescaped().is_empty());
    assert!(Any::DateTime(date("2020-03-05")).render_escaped().is_empty());
}

#[test]
fn list_section_visits_each_element_in_order() {
    let v = Any::List(vec![text("a"), text("b")]);
    assert_eq!(v.render_section(), vec![SectionContext::Element(0), SectionContext::Element(1)]);
    assert!(Any::List(vec![]).render_section().is_empty());
}

#[test]
fn map_section_renders_once_as_itself() {
    let v = Any::Table(vec![("x".to_string(), num("1"))]);
    assert_eq!(v.render_section(), vec![SectionContext::Itself]);
    assert_eq!(joined(&v.render_field_escaped("x").unwrap()), "1");
    assert!(Any::Table(vec![]).render_section().is_empty());
}

#[test]
fn scalar_section_renders_once_unchanged() {
    assert_eq!(num("2").render_section(), vec![SectionContext::Unchanged]);
    assert_eq!(text("s").render_section(), vec![SectionContext::Unchanged]);
    assert_eq!(Any::DateTime(date("2020-03-05")).render_section(), vec![SectionContext::Unchanged]);
}

#[test]
fn inverse_section_renders_for_falsy_values() {
    assert_eq!(num("2").render_inverse(), vec![SectionContext::Unchanged]);
    assert_eq!(Any::List(vec![]).render_inverse(), vec![SectionContext::Unchanged]);
    assert!(Any::List(vec![num("1")]).render_inverse().is_empty());
}

#[test]
fn map_field_lookup() {
    let v = Any::Table(vec![("x".to_string(), num("1"))]);
    assert_eq!(joined(&v.render_field_escaped("x").unwrap()), "1");
    assert_eq!(joined(&v.render_field_unescaped("x").unwrap()), "1");
    assert!(v.render_field_escaped("y").is_none());
    assert!(v.field("y").is_none());
    assert!(v.field("x").is_some());
}

#[test]
fn map_field_lookup_finds_later_entries() {
    let v = Any::Table(vec![
        ("a".to_string(), text("first")),
        ("b".to_string(), text("second")),
    ]);
    assert_eq!(joined(&v.render_field_unescaped("b").unwrap()), "second");
    assert!(v.render_field_unescaped("b").unwrap()[0].escape == false);
}

#[test]
fn other_values_have_no_fields() {
    for v in [num("1"), text("x"), Any::DateTime(date("2020-03-05")), Any::List(vec![num("1")])] {
        assert!(v.render_field_escaped("x").is_none());
        assert!(v.render_field_unescaped("0").is_none());
        assert!(v.field("x").is_none());
    }
}

#[test]
fn date_fields() {
    let d = date("2020-03-05T07:08:09");
    let f = |n: &str| d.render_field_escaped(n);
    assert_eq!(f("y").as_deref(), Some("2020"));
    assert_eq!(f("m").as_deref(), Some("03"));
    assert_eq!(f("d").as_deref(), Some("05"));
    assert_eq!(f("e").as_deref(), Some("5"));
    assert_eq!(f("H").as_deref(), Some("07"));
    assert_eq!(f("M").as_deref(), Some("08"));
    assert_eq!(f("S").as_deref(), Some("09"));
    assert_eq!(f("a").as_deref(), Some("Thu"));
    assert_eq!(f("b").as_deref(), Some("Mar"));
    assert_eq!(d.render_field_unescaped("b").as_deref(), Some("Mar"));
}

#[test]
fn date_fields_refuse_other_names() {
    let d = date("2020-03-05T07:08:09");
    for n in ["yy", "ym", "year", "", "z", "Y", "é"] {
        assert!(d.render_field_escaped(n).is_none(), "{}", n);
        assert!(d.render_field_unescaped(n).is_none(), "{}", n);
    }
}

#[test]
fn date_fields_at_extremes() {
    let d = DateTime::new(1999, 12, 31, 23, 59, 59, 0).unwrap();
    assert_eq!(d.render_field_escaped("b").as_deref(), Some("Dec"));
    assert_eq!(d.render_field_escaped("e").as_deref(), Some("31"));
    assert_eq!(d.render_field_escaped("H").as_deref(), Some("23"));
    assert_eq!(d.render_field_escaped("S").as_deref(), Some("59"));
    assert_eq!(d.render_field_escaped("a").as_deref(), Some("Fri"));
    let early = DateTime::new(-44, 1, 1, 0, 0, 0, 0).unwrap();
    assert_eq!(early.render_field_escaped("y").as_deref(), Some("-44"));
    assert_eq!(early.render_field_escaped("b").as_deref(), Some("Jan"));
    assert_eq!(early.render_field_escaped("M").as_deref(), Some("00"));
}

#[test]
fn weekdays_follow_the_calendar() {
    let names = ["Sun", "Mon", "Tue", "Wed", "Thu", "Fri", "Sat"];
    for (k, name) in names.iter().enumerate() {
        let d = DateTime::new(2023, 1, 1 + k as u32, 12, 0, 0, 0).unwrap();
        assert_eq!(d.render_field_escaped("a").as_deref(), Some(*name));
    }
}

#[test]
fn offset_date_is_moved_to_utc() {
    let d = date("2021-01-01T10:20:30+02:00");
    assert_eq!(d, DateTime::new(2021, 1, 1, 8, 20, 30, 0).unwrap());
}

#[test]
fn offset_date_may_cross_midnight() {
    let d = date("2021-01-01T01:00:00+02:00");
    assert_eq!(d, DateTime::new(2020, 12, 31, 23, 0, 0, 0).unwrap());
}

#[test]
fn bare_date_is_midnight() {
    assert_eq!(date("2020-03-05"), DateTime::new(2020, 3, 5, 0, 0, 0, 0).unwrap());
}

#[test]
fn iso_date_time_with_fraction() {
    assert_eq!(
        date("2020-03-05T07:08:09.25"),
        DateTime::new(2020, 3, 5, 7, 8, 9, 250_000_000).unwrap()
    );
}

#[test]
fn space_separated_date_time() {
    assert_eq!(date("2020-03-05 07:08:09"), DateTime::new(2020, 3, 5, 7, 8, 9, 0).unwrap());
    assert_eq!(
        date("2020-03-05 07:08:09.5"),
        DateTime::new(2020, 3, 5, 7, 8, 9, 500_000_000).unwrap()
    );
}

#[test]
fn unreadable_date_names_its_input() {
    let e = DateTime::parse("not-a-date").unwrap_err();
    assert_eq!(e.input, "not-a-date");
    assert!(e.message().contains("not-a-date"));
    assert_eq!(e.message(), "unable to parse date and time from not-a-date");
    assert!(DateTime::parse("").is_err());
    assert!(DateTime::parse("2021-02-30").is_err());
}

#[test]
fn readings_are_tried_in_order() {
    let a = DateTime::new(2000, 1, 2, 3, 4, 5, 0).unwrap();
    let b = DateTime::new(2001, 1, 2, 3, 4, 5, 0).unwrap();
    assert_eq!(DateTime::from_readings(Some(a), Some((2002, 2, 2)), Some(b), None, "t"), Ok(a));
    assert_eq!(
        DateTime::from_readings(None, Some((2002, 2, 2)), Some(b), Some(a), "t"),
        Ok(DateTime::new(2002, 2, 2, 0, 0, 0, 0).unwrap())
    );
    assert_eq!(DateTime::from_readings(None, None, Some(b), Some(a), "t"), Ok(b));
    assert_eq!(DateTime::from_readings(None, None, None, Some(a), "t"), Ok(a));
    let e = DateTime::from_readings(None, None, None, None, "t").unwrap_err();
    assert_eq!(e.input, "t");
}

#[test]
fn calendar_validity() {
    assert!(DateTime::new(2020, 2, 29, 0, 0, 0, 0).is_some());
    assert!(DateTime::new(2021, 2, 29, 0, 0, 0, 0).is_none());
    assert!(DateTime::new(1900, 2, 29, 0, 0, 0, 0).is_none());
    assert!(DateTime::new(2000, 2, 29, 0, 0, 0, 0).is_some());
    assert!(DateTime::new(2020, 4, 31, 0, 0, 0, 0).is_none());
    assert!(DateTime::new(2020, 13, 1, 0, 0, 0, 0).is_none());
    assert!(DateTime::new(2020, 0, 1, 0, 0, 0, 0).is_none());
    assert!(DateTime::new(2020, 1, 0, 0, 0, 0, 0).is_none());
    assert!(DateTime::new(2020, 1, 1, 24, 0, 0, 0).is_none());
    assert!(DateTime::new(2020, 1, 1, 0, 60, 0, 0).is_none());
    assert!(DateTime::new(2020, 1, 1, 0, 0, 60, 0).is_none());
    assert!(DateTime::new(2020, 1, 1, 23, 59, 59, 1_500_000_000).is_some());
    assert!(DateTime::new(2020, 1, 1, 23, 59, 58, 1_500_000_000).is_none());
    assert!(DateTime::new(2020, 1, 1, 23, 59, 59, 2_000_000_000).is_none());
    assert!(DateTime::new(262142, 12, 31, 0, 0, 0, 0).is_some());
    assert!(DateTime::new(262143, 1, 1, 0, 0, 0, 0).is_none());
    assert!(DateTime::new(-262143, 1, 1, 0, 0, 0, 0).is_some());
    assert!(DateTime::new(-262144, 1, 1, 0, 0, 0, 0).is_none());
}

#[test]
fn now_is_a_real_date() {
    let d = DateTime::now();
    assert!(d.year >= 2020);
    assert!(DateTime::new(d.year, d.month, d.day, d.hour, d.minute, d.second, d.nanosecond).is_some());
}

#[test]
fn path_segments_split_at_separators() {
    let p = Ancestors::from("a/b/c".to_string());
    assert_eq!(crumbs(&p.render_section()), vec![pair("a", "a"), pair("b", "a/b")]);
    assert_eq!(joined(&p.render_escaped()), "/a/b/c");
    assert!(!p.render_escaped()[0].escape);
    assert!(p.render_escaped()[1].escape);
    assert!(p.is_truthy());
}

#[test]
fn path_segments_with_trailing_separator() {
    let p = Ancestors::from("a/b/c/".to_string());
    assert_eq!(
        crumbs(&p.render_section()),
        vec![pair("a", "a"), pair("b", "a/b"), pair("c", "a/b/c")]
    );
}

#[test]
fn path_single_segment() {
    let p = Ancestors::from("a".to_string());
    assert_eq!(crumbs(&p.render_section()), vec![pair("a", "a")]);
    assert_eq!(joined(&p.render_unescaped()), "/a");
    assert!(!p.render_unescaped()[1].escape);
}

#[test]
fn path_empty() {
    let p = Ancestors::from(String::new());
    assert!(!p.is_truthy());
    assert!(p.render_section().is_empty());
    assert!(p.render_escaped().is_empty());
    assert!(p.render_unescaped().is_empty());
    let d = Ancestors::default();
    assert_eq!(d.as_str(), "");
}

#[test]
fn path_segments_with_given_marks() {
    let p = Ancestors::from("x-y".to_string());
    assert_eq!(
        crumbs(&p.segments_with(&vec![false, true, false])),
        vec![pair("x", "x")]
    );
    assert_eq!(crumbs(&p.segments_with(&vec![false, false, false])), vec![pair("x-y", "x-y")]);
    assert!(Ancestors::from("ab".to_string()).segments_with(&vec![true, true]).len() == 2);
}

#[test]
fn decimal_texts() {
    assert_eq!(decimal_text(0), "0");
    assert_eq!(decimal_text(4_294_967_295), "4294967295");
    assert_eq!(signed_decimal_text(-2_147_483_648), "-2147483648");
    assert_eq!(signed_decimal_text(305), "305");
    assert_eq!(two_digit_text(7), "07");
    assert_eq!(two_digit_text(42), "42");
}

#[test]
fn missing_template_names_itself() {
    let t = Templates::new(None, None);
    let e = t.get("page.html").unwrap_err();
    assert_eq!(e.name, "page.html");
}

#[test]
fn templates_are_looked_up_locally_then_in_the_theme() {
    let mut local: Registry = Registry::lazy(".").unwrap();
    local.insert("local {{x}}", "page.html").unwrap();
    let mut theme: Registry = Registry::lazy(".").unwrap();
    theme.insert("theme {{x}}", "page.html").unwrap();
    theme.insert("theme only", "other.html").unwrap();
    let t = Templates::new(Some(local), Some(theme));
    assert_eq!(t.get("page.html").unwrap().source(), "local {{x}}");
    assert_eq!(t.get("other.html").unwrap().source(), "theme only");
    assert!(t.get("none.html").is_err());
}

#[test]
fn validity_of_stored_dates() {
    assert!(date("2020-03-05T07:08:09").is_valid());
    assert!(DateTime::now().is_valid());
    let mut d = date("2020-02-29");
    assert!(d.is_valid());
    d.year = 2021;
    assert!(!d.is_valid());
    d.year = 2020;
    d.hour = 24;
    assert!(!d.is_valid());
}

#[test]
fn tables_refuse_repeated_names() {
    let ok = Any::table(vec![("a".to_string(), num("1")), ("b".to_string(), num("2"))]);
    assert!(matches!(ok, Some(Any::Table(ref es)) if es.len() == 2 && es[1].0 == "b"));
    let dup = Any::table(vec![
        ("a".to_string(), num("1")),
        ("b".to_string(), num("2")),
        ("a".to_string(), num("3")),
    ]);
    assert!(dup.is_none());
    assert!(matches!(Any::table(vec![]), Some(Any::Table(ref es)) if es.is_empty()));
}

#[test]
fn weekdays_far_from_today() {
    assert_eq!(DateTime::new(0, 1, 1, 0, 0, 0, 0).unwrap().render_field_escaped("a").as_deref(), Some("Sat"));
    assert_eq!(DateTime::new(1600, 2, 29, 0, 0, 0, 0).unwrap().render_field_escaped("a").as_deref(), Some("Tue"));
    assert_eq!(DateTime::new(-1, 12, 31, 0, 0, 0, 0).unwrap().render_field_escaped("a").as_deref(), Some("Fri"));
}

#[test]
fn backslash_paths_split_only_where_the_platform_says() {
    let p = Ancestors::from("a\\b".to_string());
    let crumbs_of = crumbs(&p.render_section());
    if std::path::is_separator('\\') {
        assert_eq!(crumbs_of, vec![pair("a", "a")]);
    } else {
        assert_eq!(crumbs_of, vec![pair("a\\b", "a\\b")]);
    }
}
