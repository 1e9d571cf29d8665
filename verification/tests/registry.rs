use pageserve::templates::{LoadError, PageField, Templates};

#[test]
fn loads_full_entry_and_defaults_script() {
    let source = "[home]\ntitle = \"Home\"\nurl = \"/index.html\"\nnav = true\n";
    let templates = Templates::load(source).unwrap();
    let page = templates.get_page("/index.html").unwrap();
    assert_eq!(page.title, "Home");
    assert_eq!(page.url, "/index.html");
    assert!(page.navigable);
    assert!(page.scripted);
}

#[test]
fn omitted_nav_and_script_take_defaults() {
    let source = "[about]\ntitle = \"About\"\nurl = \"/about.html\"\n";
    let templates = Templates::load(source).unwrap();
    let page = templates.get_page("/about.html").unwrap();
    assert_eq!(page.title, "About");
    assert_eq!(page.url, "/about.html");
    assert!(!page.navigable);
    assert!(page.scripted);
}

#[test]
fn explicit_flags_are_kept() {
    let source = "[contact]\ntitle = \"Contact\"\nurl = \"/contact.html\"\nnav = false\nscript = false\n";
    let templates = Templates::load(source).unwrap();
    let page = templates.get_page("/contact.html").unwrap();
    assert!(!page.navigable);
    assert!(!page.scripted);
}

#[test]
fn wrong_typed_flags_take_defaults() {
    let source = "[home]\ntitle = \"Home\"\nurl = \"/index.html\"\nnav = \"yes\"\nscript = 1\n";
    let templates = Templates::load(source).unwrap();
    let page = templates.get_page("/index.html").unwrap();
    assert!(!page.navigable);
    assert!(page.scripted);
}

#[test]
fn missing_title_names_the_entry() {
    let source = "[broken]\nurl = \"/broken.html\"\n";
    match Templates::load(source) {
        Err(err) => {
            assert_eq!(
                err.message(),
                "'title' field for page broken is missing, or not a string."
            );
            match err {
                LoadError::MissingField { page, field } => {
                    assert_eq!(page, "broken");
                    assert_eq!(field, PageField::Title);
                }
                LoadError::Parse { .. } => panic!("expected a missing-field error"),
            }
        }
        other => panic!("expected a missing-field error, got {:?}", other.is_ok()),
    }
}

#[test]
fn missing_url_names_the_entry() {
    let source = "[partial]\ntitle = \"Partial\"\n";
    match Templates::load(source) {
        Err(LoadError::MissingField { page, field }) => {
            assert_eq!(page, "partial");
            assert_eq!(field, PageField::Url);
        }
        other => panic!("expected a missing-field error, got {:?}", other.is_ok()),
    }
}

#[test]
fn non_string_title_is_a_field_error() {
    let source = "[odd]\ntitle = 3\nurl = \"/odd.html\"\n";
    match Templates::load(source) {
        Err(LoadError::MissingField { page, field }) => {
            assert_eq!(page, "odd");
            assert_eq!(field, PageField::Title);
        }
        other => panic!("expected a missing-field error, got {:?}", other.is_ok()),
    }
}

#[test]
fn invalid_document_is_a_parse_error() {
    let source = "not = [ valid";
    match Templates::load(source) {
        Err(LoadError::Parse { message }) => assert!(!message.is_empty()),
        other => panic!("expected a parse error, got {:?}", other.is_ok()),
    }
}

#[test]
fn first_offending_entry_wins() {
    // Top-level entries arrive in document order, not sorted by identifier,
    // so the first entry without a url is the one named.
    let source = "[zeta]\ntitle = \"Zeta\"\n\n[alpha]\ntitle = \"Alpha\"\n";
    match Templates::load(source) {
        Err(LoadError::MissingField { page, field }) => {
            assert_eq!(page, "zeta");
            assert_eq!(field, PageField::Url);
        }
        other => panic!("expected a missing-field error, got {:?}", other.is_ok()),
    }
}

#[test]
fn duplicate_url_keeps_last_descriptor() {
    // Later in document order wins, even when its identifier sorts first.
    let source = "[zebra]\ntitle = \"Zebra\"\nurl = \"/page.html\"\n\n[apple]\ntitle = \"Apple\"\nurl = \"/page.html\"\n";
    let templates = Templates::load(source).unwrap();
    let page = templates.get_page("/page.html").unwrap();
    assert_eq!(page.title, "Apple");
}

#[test]
fn lookup_miss_is_not_an_error() {
    let source = "[home]\ntitle = \"Home\"\nurl = \"/index.html\"\n";
    let templates = Templates::load(source).unwrap();
    assert!(templates.get_page("/absent.html").is_none());
}

#[test]
fn lookup_is_deterministic() {
    let source = "[home]\ntitle = \"Home\"\nurl = \"/index.html\"\n";
    let templates = Templates::load(source).unwrap();
    let first = templates.get_page("/index.html").unwrap();
    let second = templates.get_page("/index.html").unwrap();
    assert_eq!(first.title, second.title);
    assert_eq!(first.url, second.url);
    assert_eq!(first.navigable, second.navigable);
    assert_eq!(first.scripted, second.scripted);
    assert!(templates.get_page("/gone").is_none());
    assert!(templates.get_page("/gone").is_none());
}
