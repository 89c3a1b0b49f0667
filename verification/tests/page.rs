use adaptive_rate::page::{get_html_content, index, PAGE};

#[test]
fn page_is_the_calculator_form() {
    let page = get_html_content();
    assert_eq!(page, PAGE);
    assert!(page.contains("<title>Interest Rate Calculator</title>"));
    assert!(page.contains("<form id=\"calculatorForm\">"));
    assert!(page.contains("fetch('/calculate', {"));
    assert!(page.trim_end().ends_with("</html>"));
}

#[test]
fn page_has_a_field_for_each_input() {
    let page = get_html_content();
    for name in [
        "current_utilization",
        "elapsed_time_seconds",
        "curve_steepness",
        "initial_rate",
        "adjustment_speed",
        "target_utilization",
        "min_rate",
        "max_rate",
    ] {
        assert!(page.contains(&format!("name=\"{}\"", name)));
        assert!(page.contains(&format!("id=\"{}\"", name)));
    }
}

#[test]
fn page_offers_the_default_configuration() {
    let page = get_html_content();
    for (name, value) in [
        ("curve_steepness", "4"),
        ("initial_rate", "4"),
        ("adjustment_speed", "50"),
        ("target_utilization", "90"),
        ("min_rate", "0.1"),
        ("max_rate", "200"),
    ] {
        assert!(page.contains(&format!("getElementById('{}').value = '{}';", name, value)));
    }
}

#[test]
fn page_has_single_braces() {
    let page = get_html_content();
    assert!(!page.contains("{{"));
    assert!(!page.contains("}}"));
}

#[test]
fn index_serves_the_page() {
    assert_eq!(index(), get_html_content());
    assert!(!index().is_empty());
}
