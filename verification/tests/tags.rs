use tagpage::shell::tag_list_action;
use tagpage::tags::FetchError;
use tagpage::tags::StyleClass;
use tagpage::tags::TagFetch;
use tagpage::tags::TagWidget;
use tagpage::tags::WidgetView;
use tagpage::tags::toggle;

#[test]
fn toggle_selects_then_clears() {
    let none = String::new();
    let brave = String::from("brave");
    let first = toggle(&none, &brave);
    assert_eq!(first, "brave");
    let second = toggle(&first, &brave);
    assert_eq!(second, "");
}

#[test]
fn toggle_replaces_other_selection() {
    let none = String::new();
    let brave = String::from("brave");
    let and = String::from("and");
    let first = toggle(&none, &brave);
    let second = toggle(&first, &and);
    assert_eq!(second, "and");
}

#[test]
fn click_toggles_widget_selection() {
    let mut w = TagWidget::new();
    w.click(&String::from("brave"));
    assert_eq!(w.selected, "brave");
    w.click(&String::from("brave"));
    assert_eq!(w.selected, "");
    w.click(&String::from("brave"));
    w.click(&String::from("and"));
    assert_eq!(w.selected, "and");
}

#[test]
fn widget_renders_loading_before_resolution() {
    let mut w = TagWidget::new();
    assert_eq!(w.render(), WidgetView::Loading);
    w.mount();
    assert!(matches!(w.fetch, TagFetch::Pending));
    assert_eq!(w.render(), WidgetView::Loading);
}

#[test]
fn widget_renders_five_elements_in_order() {
    let mut w = TagWidget::new();
    w.mount();
    w.resolve(tag_list_action());
    match w.render() {
        WidgetView::Tags(links) => {
            let labels: Vec<&str> = links.iter().map(|l| l.label.as_str()).collect();
            assert_eq!(labels, ["Hello", "brave", "and", "courageous", "world"]);
            for link in &links {
                assert_eq!(link.class, StyleClass::Normal);
                assert_eq!(link.on_click, link.label);
            }
        },
        other => panic!("expected the tag elements, got {:?}", other),
    }
}

#[test]
fn exactly_one_element_highlighted_after_activation() {
    let mut w = TagWidget::new();
    w.mount();
    w.resolve(tag_list_action());
    w.click(&String::from("and"));
    match w.render() {
        WidgetView::Tags(links) => {
            assert_eq!(links.len(), 5);
            let highlighted: Vec<&str> = links
                .iter()
                .filter(|l| l.class == StyleClass::Highlighted)
                .map(|l| l.label.as_str())
                .collect();
            assert_eq!(highlighted, ["and"]);
            assert_eq!(links[2].on_click, "");
        },
        other => panic!("expected the tag elements, got {:?}", other),
    }
}

#[test]
fn failed_fetch_renders_only_the_static_error() {
    let mut w = TagWidget::new();
    w.mount();
    w.resolve(Err(FetchError { message: String::from("connection reset") }));
    let first = w.render();
    assert_eq!(first, WidgetView::Failure(String::from("Something went wrong.")));
    let second = w.render();
    assert_eq!(second, first);
}

#[test]
fn css_class_strings() {
    assert_eq!(StyleClass::Normal.css(), "tag-pill tag-default");
    assert_eq!(StyleClass::Highlighted.css(), "tag-pill tag-default tag-primary");
}
