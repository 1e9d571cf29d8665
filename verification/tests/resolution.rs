use pageserve::config::{AppEnv, Config, ConfigError};
use pageserve::resolve::{
    full_request_path, not_found_context, resolve, template_name_of, CommonPageContext, Resolution,
};
use pageserve::templates::Templates;

fn sample_config() -> Config {
    Config {
        branding: String::from("Pok\u{e9}bargains"),
        s3_region: String::from("us-east-1"),
        s3_endpoint_url: String::from("https://lon1.digitaloceanspaces.com"),
        s3_bucket: String::from("assets"),
    }
}

#[test]
fn template_identifier_derivation() {
    assert_eq!(template_name_of("/about.html"), "about");
    assert_eq!(template_name_of("/index.html"), "index");
    assert_eq!(template_name_of("/team"), "/team");
    assert_eq!(template_name_of("plain"), "plain");
    assert_eq!(template_name_of("about.html"), "about");
}

#[test]
fn registered_path_renders_and_reads_no_file() {
    let source = "[home]\ntitle = \"Home\"\nurl = \"/index.html\"\nnav = true\n";
    let templates = Templates::load(source).unwrap();
    match resolve(&templates, "/index.html") {
        Resolution::Rendered { template_name, page } => {
            assert_eq!(template_name, "index");
            assert_eq!(page.template_name, "index");
            assert_eq!(page.title, "Home");
            assert!(page.scripted);
        }
        Resolution::StaticCandidate => panic!("expected a rendered page"),
    }
}

#[test]
fn unregistered_path_falls_back_to_static() {
    let source = "[home]\ntitle = \"Home\"\nurl = \"/index.html\"\n";
    let templates = Templates::load(source).unwrap();
    assert!(matches!(
        resolve(&templates, "/logo.png"),
        Resolution::StaticCandidate
    ));
    assert!(matches!(
        resolve(&templates, "/missing"),
        Resolution::StaticCandidate
    ));
}

#[test]
fn suffixless_url_renders_verbatim_identifier() {
    let source = "[team]\ntitle = \"Team\"\nurl = \"/team\"\n";
    let templates = Templates::load(source).unwrap();
    match resolve(&templates, "/team") {
        Resolution::Rendered { template_name, page } => {
            assert_eq!(template_name, "/team");
            assert_eq!(page.title, "Team");
        }
        Resolution::StaticCandidate => panic!("expected a rendered page"),
    }
}

#[test]
fn route_segments_make_a_canonical_path() {
    assert_eq!(full_request_path("logo.png"), "/logo.png");
    assert_eq!(full_request_path("img/logo.png"), "/img/logo.png");
    assert_eq!(full_request_path(""), "/");
}

#[test]
fn not_found_page_is_fixed() {
    let context = not_found_context();
    assert_eq!(context.template_name, "404");
    assert_eq!(context.title, "Not Found");
    assert!(!context.scripted);
}

#[test]
fn common_context_carries_process_state() {
    let config = sample_config();
    let context = CommonPageContext::from_state(Some(&config), false, "/index.html").unwrap();
    assert_eq!(context.branding, "Pok\u{e9}bargains");
    assert!(!context.prod);
    assert_eq!(context.url, "/index.html");
}

#[test]
fn missing_configuration_is_an_internal_error() {
    match CommonPageContext::from_state(None, true, "/index.html") {
        Err(message) => assert_eq!(message, "missing Config in request state"),
        Ok(_) => panic!("expected an internal-configuration error"),
    }
}

#[test]
fn config_error_keeps_its_message() {
    let err = ConfigError::new(String::from("bad config file"));
    assert_eq!(err.message().as_str(), "bad config file");
}

#[test]
fn app_env_needs_every_variable() {
    let r = AppEnv::new_from_env(
        Some(String::from("postgres://db")),
        Some(String::from("a")),
        Some(String::from("r")),
        Some(String::from("user")),
        Some(String::from("pass")),
        Some(String::from("*")),
        Some(String::from("rocketkey")),
        Some(String::from("static")),
    );
    let env = r.unwrap();
    assert_eq!(env.database_url, "postgres://db");
    assert_eq!(env.smtp_username, "user");

    let r = AppEnv::new_from_env(
        Some(String::from("postgres://db")),
        None,
        Some(String::from("r")),
        Some(String::from("user")),
        Some(String::from("pass")),
        Some(String::from("*")),
        Some(String::from("key")),
        Some(String::from("static")),
    );
    assert_eq!(
        r.unwrap_err(),
        "environment variable not found: ACCESS_TOKEN_KEY"
    );
}
