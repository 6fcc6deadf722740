use croque::template::substitute;

#[test]
fn placeholders_replace_in_one_pass() {
    let patterns = vec!["{{.user}}", "{{.host}}"];
    let replacements = vec!["ayaka", "castle"];
    assert_eq!(
        substitute(" {{.user}}@{{.host}} ", &patterns, &replacements),
        " ayaka@castle "
    );
}

#[test]
fn absent_placeholders_are_simply_unused() {
    let patterns = vec!["{{.a}}", "{{.b}}"];
    let replacements = vec!["1", "2"];
    assert_eq!(substitute("no placeholders", &patterns, &replacements), "no placeholders");
    assert_eq!(substitute("{{.b}} only", &patterns, &replacements), "2 only");
}

#[test]
fn replacement_text_is_never_rescanned() {
    let patterns = vec!["{{.a}}", "{{.b}}"];
    let replacements = vec!["{{.b}}", "never"];
    // the replacement of the first placeholder contains the second
    // placeholder, and stays as it is
    assert_eq!(substitute("{{.a}}", &patterns, &replacements), "{{.b}}");
}

#[test]
fn every_occurrence_is_replaced() {
    let patterns = vec!["ab"];
    let replacements = vec!["X"];
    assert_eq!(substitute("ababab", &patterns, &replacements), "XXX");
    // occurrences never overlap: the scan resumes after the match
    let patterns = vec!["aa"];
    let replacements = vec!["-"];
    assert_eq!(substitute("aaa", &patterns, &replacements), "-a");
}

#[test]
fn first_pattern_in_order_wins() {
    let patterns = vec!["ab", "abc"];
    let replacements = vec!["1", "2"];
    // at the same position the earlier pattern is taken
    assert_eq!(substitute("abc", &patterns, &replacements), "1c");
}
