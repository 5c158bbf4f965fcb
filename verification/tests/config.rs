use accessors::annotation::{Annotation, Argument, Literal};
use accessors::config::{config_from, recognizes, Configuration};
use accessors::error::GenError;

fn text(s: &str) -> String {
    s.to_string()
}

fn keys(names: &[&str]) -> Vec<String> {
    names.iter().map(|name| name.to_string()).collect()
}

fn list(name: &str, arguments: Vec<Argument>) -> Annotation {
    Annotation::List(text(name), arguments)
}

fn word(name: &str) -> Argument {
    Argument::Word(text(name))
}

fn pair(name: &str, value: Literal) -> Argument {
    Argument::NameValue(text(name), value)
}

#[test]
fn empty_configuration_sets_nothing() {
    let config = Configuration::new();
    assert_eq!(config.get("into"), None);
    assert_eq!(config.get(""), None);
}

#[test]
fn with_sets_and_replaces() {
    let config = Configuration::new()
        .with(text("into"), Literal::Bool(false))
        .with(text("ignore"), Literal::Str(text("x")))
        .with(text("into"), Literal::Bool(true));
    assert_eq!(config.get("into"), Some(&Literal::Bool(true)));
    assert_eq!(config.get("ignore"), Some(&Literal::Str(text("x"))));
    assert_eq!(config.get("return_type"), None);
}

#[test]
fn recognizes_only_listed_names() {
    let known = keys(&["ignore", "return_type"]);
    assert!(recognizes(&known, &text("ignore")));
    assert!(recognizes(&known, &text("return_type")));
    assert!(!recognizes(&known, &text("into")));
    assert!(!recognizes(&known, &text("Ignore")));
    assert!(!recognizes(&keys(&[]), &text("ignore")));
}

#[test]
fn no_sites_give_an_empty_configuration() {
    let config = config_from(&vec![], "setters", &keys(&["into"])).unwrap();
    assert_eq!(config.get("into"), None);
}

#[test]
fn bare_key_is_recorded_as_true() {
    let sites = vec![list("setters", vec![word("into")])];
    let config = config_from(&sites, "setters", &keys(&["into"])).unwrap();
    assert_eq!(config.get("into"), Some(&Literal::Bool(true)));
}

#[test]
fn key_with_literal_is_recorded_as_the_literal() {
    let sites = vec![list(
        "getters",
        vec![
            pair("return_type", Literal::Str(text("&str"))),
            pair("ignore", Literal::Other(text("7"))),
        ],
    )];
    let config = config_from(&sites, "getters", &keys(&["ignore", "return_type"])).unwrap();
    assert_eq!(config.get("return_type"), Some(&Literal::Str(text("&str"))));
    assert_eq!(config.get("ignore"), Some(&Literal::Other(text("7"))));
}

#[test]
fn later_site_overwrites_earlier_one() {
    let sites = vec![
        list("setters", vec![pair("into", Literal::Bool(true))]),
        list("setters", vec![pair("into", Literal::Bool(false))]),
    ];
    let config = config_from(&sites, "setters", &keys(&["into"])).unwrap();
    assert_eq!(config.get("into"), Some(&Literal::Bool(false)));
}

#[test]
fn later_argument_overwrites_earlier_one() {
    let sites = vec![list(
        "setters",
        vec![pair("into", Literal::Bool(false)), word("into")],
    )];
    let config = config_from(&sites, "setters", &keys(&["into"])).unwrap();
    assert_eq!(config.get("into"), Some(&Literal::Bool(true)));
}

#[test]
fn sites_of_another_name_are_passed_over() {
    let sites = vec![
        Annotation::Word(text("test")),
        list("derive", vec![word("Clone")]),
        Annotation::NameValue(text("doc"), Literal::Str(text("hello"))),
        list("getters", vec![word("frobnicate")]),
        list("setters", vec![word("into")]),
    ];
    let config = config_from(&sites, "setters", &keys(&["into"])).unwrap();
    assert_eq!(config.get("into"), Some(&Literal::Bool(true)));
    assert_eq!(config.get("Clone"), None);
}

#[test]
fn empty_list_site_sets_nothing() {
    let sites = vec![list("setters", vec![])];
    let config = config_from(&sites, "setters", &keys(&["into"])).unwrap();
    assert_eq!(config.get("into"), None);
}

#[test]
fn bare_word_site_is_malformed() {
    let sites = vec![Annotation::Word(text("setters"))];
    assert_eq!(
        config_from(&sites, "setters", &keys(&["into"])).unwrap_err(),
        GenError::MalformedAttribute(text("setters"))
    );
}

#[test]
fn name_value_site_is_malformed() {
    let sites = vec![Annotation::NameValue(text("setters"), Literal::Str(text("into")))];
    assert_eq!(
        config_from(&sites, "setters", &keys(&["into"])).unwrap_err(),
        GenError::MalformedAttribute(text("setters = \"into\""))
    );
}

#[test]
fn literal_argument_is_malformed() {
    let sites = vec![list("setters", vec![Argument::Literal(Literal::Bool(true))])];
    assert_eq!(
        config_from(&sites, "setters", &keys(&["into"])).unwrap_err(),
        GenError::MalformedAttribute(text("true"))
    );
}

#[test]
fn nested_list_under_known_key_is_malformed() {
    let sites = vec![list("setters", vec![Argument::List(text("into"), text("a , b = 1"))])];
    assert_eq!(
        config_from(&sites, "setters", &keys(&["into"])).unwrap_err(),
        GenError::MalformedAttribute(text("into(a , b = 1)"))
    );
}

#[test]
fn nested_list_under_unknown_key_is_unknown() {
    let sites = vec![list("setters", vec![Argument::List(text("other"), text(""))])];
    assert_eq!(
        config_from(&sites, "setters", &keys(&["into"])).unwrap_err(),
        GenError::UnknownOption(text("other"))
    );
}

#[test]
fn unknown_key_is_reported_by_name() {
    let sites = vec![list("getters", vec![word("frobnicate")])];
    assert_eq!(
        config_from(&sites, "getters", &keys(&["ignore", "return_type"])).unwrap_err(),
        GenError::UnknownOption(text("frobnicate"))
    );
    let sites = vec![list("getters", vec![pair("frobnicate", Literal::Bool(true))])];
    assert_eq!(
        config_from(&sites, "getters", &keys(&["ignore", "return_type"])).unwrap_err(),
        GenError::UnknownOption(text("frobnicate"))
    );
}

#[test]
fn first_failure_wins() {
    let sites = vec![
        list("setters", vec![word("into"), word("first"), word("second")]),
        Annotation::Word(text("setters")),
    ];
    assert_eq!(
        config_from(&sites, "setters", &keys(&["into"])).unwrap_err(),
        GenError::UnknownOption(text("first"))
    );
    let sites = vec![
        Annotation::Word(text("setters")),
        list("setters", vec![word("first")]),
    ];
    assert_eq!(
        config_from(&sites, "setters", &keys(&["into"])).unwrap_err(),
        GenError::MalformedAttribute(text("setters"))
    );
}

#[test]
fn literal_syntax() {
    assert_eq!(Literal::Bool(true).syntax(), "true");
    assert_eq!(Literal::Bool(false).syntax(), "false");
    assert_eq!(Literal::Str(text("&str")).syntax(), "\"&str\"");
    assert_eq!(Literal::Str(text("")).syntax(), "\"\"");
    assert_eq!(Literal::Other(text("42u8")).syntax(), "42u8");
}

#[test]
fn literal_clone_keeps_the_value() {
    let values = vec![
        Literal::Bool(true),
        Literal::Str(text("a")),
        Literal::Other(text("1.5")),
    ];
    for value in &values {
        assert_eq!(&value.clone(), value);
    }
}

#[test]
fn argument_syntax() {
    assert_eq!(word("into").syntax(), "into");
    assert_eq!(pair("into", Literal::Bool(false)).syntax(), "into = false");
    assert_eq!(
        pair("return_type", Literal::Str(text("&str"))).syntax(),
        "return_type = \"&str\""
    );
    assert_eq!(Argument::List(text("into"), text("")).syntax(), "into()");
    assert_eq!(Argument::List(text("into"), text("x , \"y\"")).syntax(), "into(x , \"y\")");
    assert_eq!(Argument::Literal(Literal::Other(text("3"))).syntax(), "3");
}

#[test]
fn annotation_name_and_syntax() {
    let site = Annotation::Word(text("getters"));
    assert_eq!(site.name(), "getters");
    assert_eq!(site.syntax(), "getters");
    let site = list("setters", vec![word("into")]);
    assert_eq!(site.name(), "setters");
    assert_eq!(site.syntax(), "setters(into)");
    assert_eq!(list("setters", vec![]).syntax(), "setters()");
    let site = list(
        "getters",
        vec![
            word("ignore"),
            pair("return_type", Literal::Str(text("&str"))),
            Argument::List(text("nested"), text("a")),
            Argument::Literal(Literal::Other(text("7"))),
        ],
    );
    assert_eq!(site.syntax(), "getters(ignore, return_type = \"&str\", nested(a), 7)");
    let site = Annotation::NameValue(text("doc"), Literal::Str(text("x")));
    assert_eq!(site.name(), "doc");
    assert_eq!(site.syntax(), "doc = \"x\"");
}

#[test]
fn error_messages() {
    assert_eq!(
        GenError::MalformedAttribute(text("setters")).message(),
        "malformed attribute: setters"
    );
    assert_eq!(
        GenError::UnknownOption(text("frobnicate")).message(),
        "unknown option: frobnicate"
    );
    assert_eq!(
        GenError::InvalidOptionType(text("into")).message(),
        "invalid value for option: into"
    );
    assert_eq!(
        GenError::UnsupportedShape(text("Pair")).message(),
        "not a structure with named fields: Pair"
    );
}

#[test]
fn configuration_holds_recognized_keys_only() {
    let known = keys(&["ignore", "return_type"]);
    let sites = vec![
        list("getters", vec![word("ignore"), pair("return_type", Literal::Str(text("&str")))]),
        list("other", vec![word("into")]),
    ];
    let config = config_from(&sites, "getters", &known).unwrap();
    assert!(config.get("ignore").is_some());
    assert!(config.get("return_type").is_some());
    assert_eq!(config.get("into"), None);
    assert_eq!(config.get("getters"), None);
}

#[test]
fn clones_keep_the_value() {
    let site = list("setters", vec![word("into"), pair("into", Literal::Bool(false))]);
    assert_eq!(site.clone(), site);
    let argument = Argument::List(text("into"), text("x"));
    assert_eq!(argument.clone(), argument);
    let failure = GenError::UnknownOption(text("x"));
    assert_eq!(failure.clone(), failure);
}
