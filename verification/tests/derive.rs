use description::branch::{classify, contains_brace, parse_args, Route};
use description::expand::{
    branch_for, find_annotation, impl_enum, impl_enum_optional, synthesize, try_expand,
    try_expand_optional,
};
use description::model::{
    Annotation, Arm, Branch, Declaration, Dispatch, ErrorKind, ExpandError, Mode, Output, Shape,
    Variant,
};
use description::reading::{lex, read_arguments, read_literal, Lexed};
use description::syntax::StrLiteral;
use description::{derive_description, derive_optional_description};

fn annotation(args: &str) -> Annotation {
    Annotation { name: "description".to_string(), args: Some(args.to_string()) }
}

fn other(name: &str, args: Option<&str>) -> Annotation {
    Annotation { name: name.to_string(), args: args.map(|a| a.to_string()) }
}

fn variant(ident: &str, attrs: Vec<Annotation>) -> Variant {
    Variant { ident: ident.to_string(), attrs }
}

fn enumeration(ident: &str, variants: Vec<Variant>) -> Declaration {
    Declaration { ident: ident.to_string(), shape: Shape::Enum, variants }
}

fn literal(variant: &str, token: &str) -> Branch {
    Branch { variant: variant.to_string(), arm: Arm::Literal(token.to_string()) }
}

fn status() -> Declaration {
    enumeration(
        "Status",
        vec![
            variant("A", vec![annotation("\"Connected!\"")]),
            variant("B", vec![annotation("\"Disconnected!\"")]),
        ],
    )
}

fn battery() -> Declaration {
    enumeration(
        "Battery",
        vec![variant("Okay", vec![]), variant("Low", vec![annotation("\"Low battery!\"")])],
    )
}

fn failure(out: Output) -> ExpandError {
    match out {
        Output::Diagnostic(error) => error,
        Output::Implementation(dispatch) => panic!("derived {:?}", dispatch),
    }
}

fn implementation(out: Output) -> Dispatch {
    match out {
        Output::Implementation(dispatch) => dispatch,
        Output::Diagnostic(error) => panic!("failed with {:?}", error),
    }
}

fn string_literal(value: &str, token: &str) -> StrLiteral {
    StrLiteral { value: value.to_string(), token: token.to_string() }
}

#[test]
fn total_maps_each_variant_to_its_text() {
    let dispatch = implementation(derive_description(&status(), false));
    assert_eq!(dispatch.target, "Status");
    assert_eq!(dispatch.mode, Mode::Total);
    assert_eq!(
        dispatch.branches,
        vec![literal("A", "\"Connected!\""), literal("B", "\"Disconnected!\"")]
    );
}

#[test]
fn total_is_the_same_with_formatting_on() {
    assert_eq!(derive_description(&status(), true), derive_description(&status(), false));
}

#[test]
fn total_renders_the_implementation() {
    let dispatch = implementation(derive_description(&status(), false));
    assert!(dispatch.is_well_formed());
    assert_eq!(
        dispatch.render(),
        "impl ::description::Description for Status { fn description(&self) -> &'static str { \
         match self { Self::A => \"Connected!\", Self::B => \"Disconnected!\", } } }"
    );
}

#[test]
fn rendered_text_is_an_impl_item() {
    let dispatch = implementation(derive_description(&status(), false));
    let item = syn::parse_str::<syn::ItemImpl>(&dispatch.render());
    assert!(item.is_ok());
    let dispatch = implementation(derive_optional_description(&battery(), false));
    let item = syn::parse_str::<syn::ItemImpl>(&dispatch.render());
    assert!(item.is_ok());
}

#[test]
fn optional_maps_unannotated_variant_to_nothing() {
    let dispatch = implementation(derive_optional_description(&battery(), false));
    assert_eq!(dispatch.target, "Battery");
    assert_eq!(dispatch.mode, Mode::Optional);
    assert_eq!(
        dispatch.branches,
        vec![
            Branch { variant: "Okay".to_string(), arm: Arm::Absent },
            literal("Low", "\"Low battery!\""),
        ]
    );
}

#[test]
fn optional_renders_some_and_none() {
    let dispatch = implementation(derive_optional_description(&battery(), false));
    assert_eq!(
        dispatch.render(),
        "impl ::description::OptionalDescription for Battery { fn description(&self) -> \
         Option<&'static str> { match self { Self::Okay => None, Self::Low => Some(\"Low \
         battery!\"), } } }"
    );
}

#[test]
fn optional_absent_only_without_annotation() {
    let decl = enumeration(
        "Levels",
        vec![
            variant("One", vec![other("doc", Some("\"one\""))]),
            variant("Two", vec![annotation("\"two\"")]),
            variant("Three", vec![]),
            variant("Four", vec![other("allow", Some("unused")), annotation("\"four\"")]),
        ],
    );
    let dispatch = implementation(derive_optional_description(&decl, false));
    let absent: Vec<bool> = dispatch.branches.iter().map(|b| b.arm == Arm::Absent).collect();
    assert_eq!(absent, vec![true, false, true, false]);
}

#[test]
fn format_request_keeps_template_and_arguments() {
    let decl = enumeration("Value", vec![variant("Show", vec![annotation("\"value is {X}\", 42")])]);
    let dispatch = implementation(derive_description(&decl, true));
    assert_eq!(
        dispatch.branches,
        vec![Branch {
            variant: "Show".to_string(),
            arm: Arm::Format("\"value is {X}\", 42".to_string()),
        }]
    );
    assert_eq!(
        dispatch.render(),
        "impl ::description::Description for Value { fn description(&self) -> &'static str { \
         match self { Self::Show => ::const_format::formatcp!(\"value is {X}\", 42), } } }"
    );
}

#[test]
fn format_request_in_optional_mode_is_wrapped() {
    let decl = enumeration("Value", vec![variant("Show", vec![annotation("\"{}\", 1")])]);
    let dispatch = implementation(derive_optional_description(&decl, true));
    assert_eq!(
        dispatch.render(),
        "impl ::description::OptionalDescription for Value { fn description(&self) -> \
         Option<&'static str> { match self { Self::Show => \
         Some(::const_format::formatcp!(\"{}\", 1)), } } }"
    );
}

#[test]
fn missing_annotation_in_total_mode_names_the_variant() {
    let error = failure(derive_description(&battery(), false));
    assert_eq!(error.kind, ErrorKind::MissingAnnotation);
    assert_eq!(error.subject, "Okay");
    assert_eq!(error.message, "Missing 'description' attribute");
}

#[test]
fn first_failing_variant_is_reported() {
    let decl = enumeration(
        "Mixed",
        vec![
            variant("Fine", vec![annotation("\"fine\"")]),
            variant("Template", vec![annotation("\"{}\"")]),
            variant("Bare", vec![]),
        ],
    );
    let error = failure(derive_description(&decl, false));
    assert_eq!(error.kind, ErrorKind::FormatDisabled);
    assert_eq!(error.subject, "Template");
}

#[test]
fn struct_and_union_are_refused() {
    for shape in [Shape::Struct, Shape::Union] {
        let decl = Declaration { ident: "Point".to_string(), shape, variants: vec![] };
        for out in [derive_description(&decl, true), derive_optional_description(&decl, false)] {
            let error = failure(out);
            assert_eq!(error.kind, ErrorKind::NotAnEnum);
            assert_eq!(error.subject, "Point");
            assert_eq!(error.message, "Description cannot be implemented on structs or unions");
        }
    }
}

#[test]
fn derivation_is_repeatable() {
    for format in [false, true] {
        let first = derive_description(&status(), format);
        let second = derive_description(&status(), format);
        assert_eq!(first, second);
        assert_eq!(implementation(first).render(), implementation(second).render());
        let first = derive_optional_description(&battery(), format);
        let second = derive_optional_description(&battery(), format);
        assert_eq!(first, second);
        assert_eq!(derive_description(&battery(), format), derive_description(&battery(), format));
    }
}

#[test]
fn brace_decides_the_route() {
    let plain = StrLiteral { value: "plain".to_string(), token: "\"plain\"".to_string() };
    let template = StrLiteral { value: "a {} b".to_string(), token: "\"a {} b\"".to_string() };
    let closing = StrLiteral { value: "a }".to_string(), token: "\"a }\"".to_string() };
    assert_eq!(classify(Some(&plain)), Route::Plain);
    assert_eq!(classify(Some(&template)), Route::Format);
    assert_eq!(classify(Some(&closing)), Route::Format);
    assert_eq!(classify(None), Route::Format);
}

#[test]
fn contains_brace_looks_for_an_opening_brace() {
    assert!(!contains_brace(""));
    assert!(!contains_brace("Connected!"));
    assert!(contains_brace("closing } only"));
    assert!(contains_brace("}"));
    assert!(!contains_brace("( [ < > ] )"));
    assert!(contains_brace("{"));
    assert!(contains_brace("value is {X}"));
    assert!(contains_brace("\u{e9}t\u{e9} {"));
}

#[test]
fn disabled_format_is_reported_as_such() {
    for args in
        ["\"{}\"", "\"value is {X}\"", "\"value is {X}\", 42", "\"{}{}\", 1, 2", "\"a }\"", "\"a }\", 1"]
    {
        let decl = enumeration("Value", vec![variant("Show", vec![annotation(args)])]);
        for out in [derive_description(&decl, false), derive_optional_description(&decl, false)] {
            let error = failure(out);
            assert_eq!(error.kind, ErrorKind::FormatDisabled);
            assert_eq!(error.subject, "Show");
            assert_eq!(error.message, "You need the 'format' feature to use format arguments");
        }
    }
}

#[test]
fn brace_is_looked_for_in_the_text_not_in_the_token() {
    // The escape stands for a brace: a format request.
    let decl = enumeration("Value", vec![variant("Show", vec![annotation("\"\\x7b\"")])]);
    assert_eq!(failure(derive_description(&decl, false)).kind, ErrorKind::FormatDisabled);
    let decl = enumeration("Value", vec![variant("Show", vec![annotation("\"\\x7d\"")])]);
    assert_eq!(failure(derive_description(&decl, false)).kind, ErrorKind::FormatDisabled);
    // The escape is written with braces and stands for a letter: plain text.
    let decl = enumeration("Value", vec![variant("Show", vec![annotation("\"\\u{41}\"")])]);
    let dispatch = implementation(derive_description(&decl, false));
    assert_eq!(dispatch.branches, vec![literal("Show", "\"\\u{41}\"")]);
}

#[test]
fn literal_is_kept_as_written() {
    let decl = enumeration(
        "Text",
        vec![
            variant("Escaped", vec![annotation("\"tab\\there \\\"quoted\\\"\"")]),
            variant("Raw", vec![annotation("r#\"raw \"text\"\"#")]),
            variant("Spaced", vec![annotation("  \"spaced\"  ")]),
        ],
    );
    let dispatch = implementation(derive_description(&decl, false));
    assert_eq!(
        dispatch.branches,
        vec![
            literal("Escaped", "\"tab\\there \\\"quoted\\\"\""),
            literal("Raw", "r#\"raw \"text\"\"#"),
            literal("Spaced", "\"spaced\""),
        ]
    );
}

#[test]
fn arguments_that_are_no_literal_are_refused_without_formatting() {
    let decl = enumeration("Value", vec![variant("Show", vec![annotation("42")])]);
    let error = failure(derive_description(&decl, false));
    assert_eq!(error.kind, ErrorKind::NotLiteral);
    assert_eq!(error.subject, "Show");
    assert_eq!(error.message, "expected string literal");

    let decl = enumeration("Value", vec![variant("Show", vec![annotation("\"a\", 1")])]);
    let error = failure(derive_description(&decl, false));
    assert_eq!(error.kind, ErrorKind::NotLiteral);
    assert_eq!(error.message, "unexpected token");

    let decl = enumeration("Value", vec![variant("Show", vec![annotation("")])]);
    let error = failure(derive_optional_description(&decl, false));
    assert_eq!(error.kind, ErrorKind::NotLiteral);
}

#[test]
fn arguments_without_a_leading_literal_are_refused_with_formatting() {
    for args in ["NAME", "42", "1, \"{}\"", "{ \"{}\" }", ""] {
        let decl = enumeration("Value", vec![variant("Show", vec![annotation(args)])]);
        for out in [derive_description(&decl, true), derive_optional_description(&decl, true)] {
            let error = failure(out);
            assert_eq!(error.kind, ErrorKind::NotLiteral);
            assert_eq!(error.subject, "Show");
        }
    }
    let decl = enumeration("Value", vec![variant("Show", vec![annotation("NAME")])]);
    assert_eq!(failure(derive_description(&decl, true)).message, "expected string literal");
}

#[test]
fn leading_literal_with_more_is_a_format_request() {
    let decl = enumeration("Value", vec![variant("Show", vec![annotation("\"text\", 42")])]);
    let dispatch = implementation(derive_description(&decl, true));
    assert_eq!(
        dispatch.branches,
        vec![Branch { variant: "Show".to_string(), arm: Arm::Format("\"text\", 42".to_string()) }]
    );
}

#[test]
fn arguments_that_are_no_tokens_are_a_syntax_error() {
    for args in ["\"unterminated", "(", "a )"] {
        let decl = enumeration("Value", vec![variant("Show", vec![annotation(args)])]);
        for format in [false, true] {
            let error = failure(derive_description(&decl, format));
            assert_eq!(error.kind, ErrorKind::Syntax);
            assert_eq!(error.subject, "Show");
            assert!(!error.message.is_empty());
        }
    }
}

#[test]
fn annotation_without_argument_list_is_refused() {
    let bare = Annotation { name: "description".to_string(), args: None };
    let decl = enumeration("Value", vec![variant("Show", vec![bare])]);
    for format in [false, true] {
        for out in [derive_description(&decl, format), derive_optional_description(&decl, format)]
        {
            let error = failure(out);
            assert_eq!(error.kind, ErrorKind::NoArguments);
            assert_eq!(error.subject, "Show");
            assert_eq!(
                error.message,
                "expected attribute arguments in parentheses: #[description(...)]"
            );
        }
    }
}

#[test]
fn first_designated_attribute_is_honoured() {
    let attrs = vec![
        other("doc", Some("\"text\"")),
        annotation("\"first\""),
        annotation("\"{second}\""),
    ];
    assert_eq!(find_annotation(&attrs), Some(1));
    assert_eq!(find_annotation(&attrs[..1].to_vec()), None);
    assert_eq!(find_annotation(&Vec::new()), None);
    assert_eq!(find_annotation(&vec![other("descriptions", None)]), None);

    let decl = enumeration("Twice", vec![variant("Both", attrs)]);
    let dispatch = implementation(derive_description(&decl, false));
    assert_eq!(dispatch.branches, vec![literal("Both", "\"first\"")]);
}

#[test]
fn parse_args_follows_the_readings_it_is_given() {
    let plain = string_literal("plain", "\"plain\"");
    for lexed in [Lexed::Empty, Lexed::First(None), Lexed::NoTokens("no tokens".to_string())] {
        for format in [false, true] {
            assert_eq!(
                parse_args("V", Ok(plain.clone()), lexed.clone(), "\"plain\"", format),
                Ok(literal("V", "\"plain\""))
            );
        }
    }

    let template = string_literal("{}", "\"{}\"");
    let error = parse_args("V", Ok(template.clone()), Lexed::Empty, "\"{}\"", false).unwrap_err();
    assert_eq!(error.kind, ErrorKind::FormatDisabled);
    assert_eq!(error.subject, "V");
    assert_eq!(error.message, "You need the 'format' feature to use format arguments");
    assert_eq!(
        parse_args("V", Ok(template.clone()), Lexed::Empty, "\"{}\"", true),
        Ok(Branch { variant: "V".to_string(), arm: Arm::Format("\"{}\"".to_string()) })
    );

    let closing = string_literal("a }", "\"a }\"");
    let error = parse_args("V", Ok(closing), Lexed::Empty, "\"a }\"", false).unwrap_err();
    assert_eq!(error.kind, ErrorKind::FormatDisabled);
}

#[test]
fn parse_args_hands_the_parser_message_on() {
    let said = || Err("no literal here".to_string());
    for format in [false, true] {
        for lexed in [Lexed::Empty, Lexed::First(None)] {
            let error = parse_args("V", said(), lexed, "1 + 1", format).unwrap_err();
            assert_eq!(error.kind, ErrorKind::NotLiteral);
            assert_eq!(error.subject, "V");
            assert_eq!(error.message, "no literal here");
        }
        let lexed = Lexed::NoTokens("bad tokens".to_string());
        let error = parse_args("V", said(), lexed, "(", format).unwrap_err();
        assert_eq!(error.kind, ErrorKind::Syntax);
        assert_eq!(error.message, "bad tokens");
    }

    let first = Lexed::First(Some(string_literal("a", "\"a\"")));
    let error = parse_args("V", said(), first.clone(), "\"a\", 1", false).unwrap_err();
    assert_eq!(error.kind, ErrorKind::NotLiteral);
    assert_eq!(error.message, "no literal here");
    assert_eq!(
        parse_args("V", said(), first, "\"a\", 1", true),
        Ok(Branch { variant: "V".to_string(), arm: Arm::Format("\"a\", 1".to_string()) })
    );

    let first = Lexed::First(Some(string_literal("{}", "\"{}\"")));
    let error = parse_args("V", said(), first, "\"{}\", 1", false).unwrap_err();
    assert_eq!(error.kind, ErrorKind::FormatDisabled);
    assert_eq!(error.message, "You need the 'format' feature to use format arguments");
}

#[test]
fn lex_looks_at_the_first_token() {
    assert_eq!(lex(""), Lexed::Empty);
    assert_eq!(lex("\"{}\", 1"), Lexed::First(Some(string_literal("{}", "\"{}\""))));
    assert_eq!(lex("  \"a\\tb\"  "), Lexed::First(Some(string_literal("a\tb", "\"a\\tb\""))));
    assert_eq!(lex("r\"{name}\""), Lexed::First(Some(string_literal("{name}", "r\"{name}\""))));
    assert_eq!(lex("1, \"{}\""), Lexed::First(None));
    assert_eq!(lex("{ a }"), Lexed::First(None));
    assert_eq!(lex("b\"{}\""), Lexed::First(None));
    assert_eq!(lex("'{'"), Lexed::First(None));
    assert!(matches!(lex("("), Lexed::NoTokens(_)));
    assert!(matches!(lex("\"unterminated"), Lexed::NoTokens(_)));
}

#[test]
fn read_literal_wants_exactly_one_string_literal() {
    assert_eq!(read_literal("\"a\\\"b\""), Ok(string_literal("a\"b", "\"a\\\"b\"")));
    assert_eq!(read_literal("42"), Err("expected string literal".to_string()));
    assert_eq!(read_literal("\"a\", 1"), Err("unexpected token".to_string()));
    assert!(read_literal("").is_err());
    let reading = read_arguments("\"Low battery!\"");
    assert_eq!(reading.literal, Ok(string_literal("Low battery!", "\"Low battery!\"")));
    assert_eq!(reading.lexed, Lexed::First(Some(string_literal("Low battery!", "\"Low battery!\""))));
}

#[test]
fn only_the_first_token_can_ask_for_format() {
    let decl = enumeration("Value", vec![variant("Show", vec![annotation("1, \"{}\"")])]);
    let error = failure(derive_description(&decl, false));
    assert_eq!(error.kind, ErrorKind::NotLiteral);
    assert_eq!(error.message, "expected string literal");
    let decl = enumeration("Value", vec![variant("Show", vec![annotation("{ \"{}\" }")])]);
    let error = failure(derive_description(&decl, false));
    assert_eq!(error.kind, ErrorKind::NotLiteral);
    assert_eq!(error.message, "expected string literal");
}

#[test]
fn branch_for_one_variant() {
    let low = variant("Low", vec![annotation("\"Low battery!\"")]);
    assert_eq!(branch_for(&low, Mode::Total, false), Ok(literal("Low", "\"Low battery!\"")));
    assert_eq!(branch_for(&low, Mode::Optional, true), Ok(literal("Low", "\"Low battery!\"")));
    let okay = variant("Okay", vec![]);
    assert_eq!(
        branch_for(&okay, Mode::Optional, false),
        Ok(Branch { variant: "Okay".to_string(), arm: Arm::Absent })
    );
    assert_eq!(branch_for(&okay, Mode::Total, false).unwrap_err().kind, ErrorKind::MissingAnnotation);
}

#[test]
fn synthesize_keeps_the_order_of_the_variants() {
    let variants = vec![
        variant("C", vec![annotation("\"c\"")]),
        variant("A", vec![annotation("\"a\"")]),
        variant("B", vec![annotation("\"b\"")]),
    ];
    assert_eq!(
        synthesize(&variants, Mode::Total, false),
        Ok(vec![literal("C", "\"c\""), literal("A", "\"a\""), literal("B", "\"b\"")])
    );
    assert_eq!(synthesize(&Vec::new(), Mode::Total, false), Ok(vec![]));
}

#[test]
fn enumeration_without_variants_has_no_branches() {
    let decl = enumeration("Never", vec![]);
    let dispatch = implementation(derive_description(&decl, false));
    assert!(dispatch.branches.is_empty());
    assert_eq!(
        dispatch.render(),
        "impl ::description::Description for Never { fn description(&self) -> &'static str { \
         match self { } } }"
    );
}

#[test]
fn expansion_steps_agree_with_the_derivation() {
    let decl = status();
    let direct = impl_enum("Status", &decl.variants, false);
    assert_eq!(try_expand(&decl, false), direct);
    assert_eq!(derive_description(&decl, false), Output::Implementation(direct.unwrap()));

    let decl = battery();
    let direct = impl_enum_optional("Battery", &decl.variants, false);
    assert_eq!(try_expand_optional(&decl, false), direct);
    assert_eq!(derive_optional_description(&decl, false), Output::Implementation(direct.unwrap()));
    assert_eq!(
        derive_description(&decl, false),
        Output::Diagnostic(try_expand(&decl, false).unwrap_err())
    );
}

#[test]
fn total_dispatch_with_an_absent_branch_is_not_well_formed() {
    let absent = Branch { variant: "V".to_string(), arm: Arm::Absent };
    let total =
        Dispatch { target: "T".to_string(), mode: Mode::Total, branches: vec![absent.clone()] };
    assert!(!total.is_well_formed());
    let optional =
        Dispatch { target: "T".to_string(), mode: Mode::Optional, branches: vec![absent] };
    assert!(optional.is_well_formed());
    assert_eq!(
        optional.render(),
        "impl ::description::OptionalDescription for T { fn description(&self) -> \
         Option<&'static str> { match self { Self::V => None, } } }"
    );
}
