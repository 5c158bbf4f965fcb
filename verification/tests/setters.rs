use accessors::annotation::{Annotation, Argument, Literal};
use accessors::config::Configuration;
use accessors::error::GenError;
use accessors::getters::expand_getters;
use accessors::output::{FunctionKind, GeneratedFunction, ImplBlock};
use accessors::record::{Body, Field, Generics, Record};
use accessors::setters::{expand_setters, resolve_into};

fn t(value: &str) -> String {
    value.to_string()
}

fn setters(arguments: Vec<Argument>) -> Annotation {
    Annotation::List(t("setters"), arguments)
}

fn into_word() -> Annotation {
    setters(vec![Argument::Word(t("into"))])
}

fn into_value(flag: bool) -> Annotation {
    setters(vec![Argument::NameValue(t("into"), Literal::Bool(flag))])
}

fn member(name: &str, ty: &str, annotations: Vec<Annotation>) -> Field {
    Field { name: t(name), ty: t(ty), annotations }
}

fn plain_generics() -> Generics {
    Generics { declared: t(""), applied: t(""), where_clause: t("") }
}

fn structure(name: &str, annotations: Vec<Annotation>, fields: Vec<Field>) -> Record {
    Record { name: t(name), generics: plain_generics(), annotations, body: Body::Named(fields) }
}

fn mutator(kind: FunctionKind, field: &str, ty: &str) -> GeneratedFunction {
    GeneratedFunction { kind, name: format!("set_{}", field), field: t(field), ty: t(ty) }
}

fn getters_site(arguments: Vec<Argument>) -> Annotation {
    Annotation::List(t("getters"), arguments)
}

fn simple_record() -> Record {
    structure(
        "Simple",
        vec![into_word()],
        vec![
            member("normal_field", "String", vec![]),
            member(
                "ignored_field",
                "String",
                vec![getters_site(vec![Argument::Word(t("ignore"))])],
            ),
            member(
                "custom_return_type_field",
                "String",
                vec![getters_site(vec![Argument::NameValue(
                    t("return_type"),
                    Literal::Str(t("&str")),
                )])],
            ),
        ],
    )
}

#[test]
fn simple_record_mutators() {
    let block = expand_setters(&simple_record()).unwrap();
    assert_eq!(
        block,
        ImplBlock {
            name: t("Simple"),
            generics: plain_generics(),
            functions: vec![
                mutator(FunctionKind::ConvertingMutator, "normal_field", "String"),
                mutator(FunctionKind::ConvertingMutator, "ignored_field", "String"),
                mutator(FunctionKind::ConvertingMutator, "custom_return_type_field", "String"),
            ],
        }
    );
    assert_eq!(block.functions[0].name, "set_normal_field");
    assert_eq!(block.functions[1].name, "set_ignored_field");
    assert_eq!(block.functions[2].name, "set_custom_return_type_field");
}

#[test]
fn simple_record_mutators_text() {
    let block = expand_setters(&simple_record()).unwrap();
    assert_eq!(
        block.text(),
        "impl Simple { \
         pub fn set_normal_field < T > ( & mut self , value : T ) where T : Into < String > \
         { self . normal_field = value . into ( ) ; } \
         pub fn set_ignored_field < T > ( & mut self , value : T ) where T : Into < String > \
         { self . ignored_field = value . into ( ) ; } \
         pub fn set_custom_return_type_field < T > ( & mut self , value : T ) \
         where T : Into < String > { self . custom_return_type_field = value . into ( ) ; } }"
    );
}

#[test]
fn simple_record_has_five_functions() {
    let rec = simple_record();
    let accessors = expand_getters(&rec).unwrap();
    let mutators = expand_setters(&rec).unwrap();
    let names: Vec<&str> = accessors
        .functions
        .iter()
        .chain(mutators.functions.iter())
        .map(|function| function.name.as_str())
        .collect();
    assert_eq!(
        names,
        vec![
            "normal_field",
            "custom_return_type_field",
            "set_normal_field",
            "set_ignored_field",
            "set_custom_return_type_field",
        ]
    );
}

#[test]
fn one_mutator_per_field() {
    let names = ["a", "b", "c", "d"];
    let types = ["u8", "String", "Vec<u8>", "Option<T>"];
    for count in 0..=names.len() {
        let fields = (0..count).map(|i| member(names[i], types[i], vec![])).collect();
        let block = expand_setters(&structure("Plain", vec![], fields)).unwrap();
        assert_eq!(block.functions.len(), count);
        for i in 0..count {
            assert_eq!(block.functions[i], mutator(FunctionKind::Mutator, names[i], types[i]));
        }
    }
}

#[test]
fn exact_mutator_text() {
    let block = expand_setters(&structure("P", vec![], vec![member("x", "i32", vec![])])).unwrap();
    assert_eq!(
        block.text(),
        "impl P { pub fn set_x ( & mut self , value : i32 ) { self . x = value ; } }"
    );
}

#[test]
fn into_decides_every_mutator() {
    let fields = || vec![member("a", "u8", vec![]), member("b", "String", vec![])];
    let cases = vec![
        (vec![], FunctionKind::Mutator),
        (vec![into_value(false)], FunctionKind::Mutator),
        (vec![into_value(true)], FunctionKind::ConvertingMutator),
        (vec![into_word()], FunctionKind::ConvertingMutator),
        (vec![into_word(), into_value(false)], FunctionKind::Mutator),
        (vec![into_value(false), into_word()], FunctionKind::ConvertingMutator),
        (vec![setters(vec![])], FunctionKind::Mutator),
    ];
    for (annotations, kind) in cases {
        let block = expand_setters(&structure("R", annotations, fields())).unwrap();
        assert_eq!(block.functions.len(), 2);
        assert!(block.functions.iter().all(|function| function.kind == kind));
    }
}

#[test]
fn ignore_does_not_touch_mutators() {
    let marked = structure(
        "R",
        vec![],
        vec![member("a", "u8", vec![getters_site(vec![Argument::Word(t("ignore"))])])],
    );
    let plain = structure("R", vec![], vec![member("a", "u8", vec![])]);
    assert_eq!(expand_setters(&marked), expand_setters(&plain));
    let odd = structure(
        "R",
        vec![getters_site(vec![Argument::Word(t("frobnicate"))])],
        vec![member("a", "u8", vec![Annotation::Word(t("getters"))])],
    );
    assert_eq!(expand_setters(&odd), expand_setters(&plain));
}

#[test]
fn into_must_be_a_boolean() {
    for value in [Literal::Str(t("true")), Literal::Other(t("1"))] {
        let rec = structure(
            "R",
            vec![setters(vec![Argument::NameValue(t("into"), value)])],
            vec![member("a", "u8", vec![])],
        );
        assert_eq!(expand_setters(&rec), Err(GenError::InvalidOptionType(t("into"))));
    }
}

#[test]
fn unknown_setters_option_fails() {
    let bad = setters(vec![Argument::Word(t("frobnicate"))]);
    let on_record = structure("R", vec![bad.clone()], vec![member("a", "u8", vec![])]);
    assert_eq!(expand_setters(&on_record), Err(GenError::UnknownOption(t("frobnicate"))));
    let on_field = structure("R", vec![into_word()], vec![member("a", "u8", vec![bad])]);
    assert_eq!(expand_setters(&on_field), Err(GenError::UnknownOption(t("frobnicate"))));
    let ignore = setters(vec![Argument::Word(t("ignore"))]);
    let other_synthesizer = structure("R", vec![ignore], vec![]);
    assert_eq!(expand_setters(&other_synthesizer), Err(GenError::UnknownOption(t("ignore"))));
}

#[test]
fn into_on_a_field_changes_nothing() {
    let on_field = structure("S", vec![], vec![member("a", "u32", vec![into_word()])]);
    assert_eq!(
        expand_setters(&on_field).unwrap().functions,
        vec![mutator(FunctionKind::Mutator, "a", "u32")]
    );
    let false_on_field = structure("S", vec![], vec![member("a", "u32", vec![into_value(false)])]);
    assert_eq!(
        expand_setters(&false_on_field).unwrap().functions,
        vec![mutator(FunctionKind::Mutator, "a", "u32")]
    );
    let on_both = structure("S", vec![into_word()], vec![member("a", "u32", vec![into_word()])]);
    assert_eq!(
        expand_setters(&on_both).unwrap().functions,
        vec![mutator(FunctionKind::ConvertingMutator, "a", "u32")]
    );
    let against = structure(
        "S",
        vec![into_word()],
        vec![
            member("a", "u32", vec![into_value(false)]),
            member("b", "u8", vec![]),
            member("c", "String", vec![into_value(true), setters(vec![])]),
        ],
    );
    assert_eq!(
        expand_setters(&against).unwrap().functions,
        vec![
            mutator(FunctionKind::ConvertingMutator, "a", "u32"),
            mutator(FunctionKind::ConvertingMutator, "b", "u8"),
            mutator(FunctionKind::ConvertingMutator, "c", "String"),
        ]
    );
    let other_kind = structure(
        "S",
        vec![],
        vec![member(
            "a",
            "u32",
            vec![setters(vec![Argument::NameValue(t("into"), Literal::Str(t("yes")))])],
        )],
    );
    assert_eq!(
        expand_setters(&other_kind).unwrap().functions,
        vec![mutator(FunctionKind::Mutator, "a", "u32")]
    );
}

#[test]
fn setters_sites_on_a_field_are_read() {
    let empty = structure("R", vec![], vec![member("a", "u8", vec![setters(vec![])])]);
    assert_eq!(
        expand_setters(&empty).unwrap().functions,
        vec![mutator(FunctionKind::Mutator, "a", "u8")]
    );
    let bare = structure("R", vec![], vec![member("a", "u8", vec![Annotation::Word(t("setters"))])]);
    assert_eq!(expand_setters(&bare), Err(GenError::MalformedAttribute(t("setters"))));
    let unknown = structure(
        "R",
        vec![],
        vec![member("a", "u8", vec![setters(vec![Argument::Word(t("ignore"))])])],
    );
    assert_eq!(expand_setters(&unknown), Err(GenError::UnknownOption(t("ignore"))));
    let nested = structure(
        "R",
        vec![],
        vec![member("a", "u8", vec![setters(vec![Argument::List(t("into"), t("x"))])])],
    );
    assert_eq!(expand_setters(&nested), Err(GenError::MalformedAttribute(t("into(x)"))));
}

#[test]
fn malformed_setters_site_fails() {
    let rec = structure("R", vec![Annotation::Word(t("setters"))], vec![]);
    assert_eq!(expand_setters(&rec), Err(GenError::MalformedAttribute(t("setters"))));
    let rec = structure(
        "R",
        vec![setters(vec![Argument::Literal(Literal::Str(t("into")))])],
        vec![],
    );
    assert_eq!(expand_setters(&rec), Err(GenError::MalformedAttribute(t("\"into\""))));
}

#[test]
fn setters_need_named_fields() {
    for body in [Body::Tuple, Body::Unit, Body::Enum] {
        let rec = Record {
            name: t("Shape"),
            generics: plain_generics(),
            annotations: vec![into_word()],
            body,
        };
        assert_eq!(expand_setters(&rec), Err(GenError::UnsupportedShape(t("Shape"))));
    }
}

#[test]
fn into_is_checked_before_the_shape() {
    let rec = Record {
        name: t("Shape"),
        generics: plain_generics(),
        annotations: vec![setters(vec![Argument::NameValue(t("into"), Literal::Other(t("0")))])],
        body: Body::Tuple,
    };
    assert_eq!(expand_setters(&rec), Err(GenError::InvalidOptionType(t("into"))));
}

#[test]
fn setters_are_repeatable() {
    let rec = simple_record();
    let first = expand_setters(&rec).unwrap();
    let second = expand_setters(&rec).unwrap();
    assert_eq!(first, second);
    assert_eq!(first.text().into_bytes(), second.text().into_bytes());
}

#[test]
fn setters_keep_name_and_generics() {
    let rec = Record {
        name: t("Wrapper"),
        generics: Generics {
            declared: t("<T: Clone>"),
            applied: t("<T>"),
            where_clause: t(""),
        },
        annotations: vec![into_word()],
        body: Body::Named(vec![member("inner", "T", vec![])]),
    };
    assert_eq!(
        expand_setters(&rec).unwrap().text(),
        "impl <T: Clone> Wrapper <T> { pub fn set_inner < T > ( & mut self , value : T ) \
         where T : Into < T > { self . inner = value . into ( ) ; } }"
    );
}

#[test]
fn resolve_into_reads_the_option() {
    assert_eq!(resolve_into(&Configuration::new()), Ok(false));
    assert_eq!(resolve_into(&Configuration::new().with(t("into"), Literal::Bool(true))), Ok(true));
    assert_eq!(
        resolve_into(&Configuration::new().with(t("into"), Literal::Bool(false))),
        Ok(false)
    );
    assert_eq!(
        resolve_into(&Configuration::new().with(t("into"), Literal::Str(t("yes")))),
        Err(GenError::InvalidOptionType(t("into")))
    );
}

#[test]
fn function_text_by_kind() {
    let function = |kind| GeneratedFunction { kind, name: t("n"), field: t("f"), ty: t("Ty") };
    assert_eq!(
        function(FunctionKind::Accessor).text(),
        "pub fn n ( & self ) -> Ty { & self . f }"
    );
    assert_eq!(
        function(FunctionKind::Mutator).text(),
        "pub fn n ( & mut self , value : Ty ) { self . f = value ; }"
    );
    assert_eq!(
        function(FunctionKind::ConvertingMutator).text(),
        "pub fn n < T > ( & mut self , value : T ) where T : Into < Ty > \
         { self . f = value . into ( ) ; }"
    );
}

#[test]
fn functions_join_tokens_that_are_there() {
    let function = GeneratedFunction {
        kind: FunctionKind::Mutator,
        name: t("set_x"),
        field: t("x"),
        ty: t("u8"),
    };
    let mut tokens = quote::Tokens::new();
    function.append_to(&mut tokens);
    assert_eq!(tokens.as_str(), function.text());
    tokens.append("after");
    function.append_to(&mut tokens);
    assert_eq!(tokens.as_str(), format!("{} after {}", function.text(), function.text()));
    assert_eq!(function.clone(), function);
}

#[test]
fn empty_tokens_leave_no_space() {
    let function =
        GeneratedFunction { kind: FunctionKind::Accessor, name: t(""), field: t(""), ty: t("") };
    assert_eq!(function.text(), "pub fn ( & self ) -> { & self . }");
    let block = ImplBlock { name: t(""), generics: plain_generics(), functions: vec![] };
    assert_eq!(block.text(), "impl { }");
}
