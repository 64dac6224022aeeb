use avalanche_report::i18n::{display_languages, order_languages};

fn tags(list: &[&str]) -> Vec<String> {
    list.iter().map(|s| s.to_string()).collect()
}

#[test]
fn displays_a_language_list() {
    assert_eq!(display_languages(&tags(&["en-UK", "ka-GE", "bg-BG"])), "[en-UK, ka-GE, bg-BG]");
}

#[test]
fn displays_a_single_language() {
    assert_eq!(display_languages(&tags(&["en"])), "[en]");
}

#[test]
fn displays_an_empty_list() {
    assert_eq!(display_languages(&tags(&[])), "[]");
}

#[test]
fn orders_by_the_given_order() {
    let ordered = order_languages(tags(&["en", "ka", "bg"]), &tags(&["bg", "en"]));
    assert_eq!(ordered, tags(&["bg", "en", "ka"]));
}

#[test]
fn unmatched_tags_keep_their_order_at_the_end() {
    let ordered = order_languages(tags(&["en", "ka", "bg"]), &tags(&["fr", "ka"]));
    assert_eq!(ordered, tags(&["ka", "en", "bg"]));
}

#[test]
fn empty_order_changes_nothing() {
    let ordered = order_languages(tags(&["en", "ka"]), &tags(&[]));
    assert_eq!(ordered, tags(&["en", "ka"]));
}

#[test]
fn a_repeated_item_moves_once_per_order_entry() {
    let ordered = order_languages(tags(&["en", "bg", "en"]), &tags(&["en"]));
    assert_eq!(ordered, tags(&["en", "bg", "en"]));
    let ordered = order_languages(tags(&["en", "bg", "en"]), &tags(&["bg"]));
    assert_eq!(ordered, tags(&["bg", "en", "en"]));
}
