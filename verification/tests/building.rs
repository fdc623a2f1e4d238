use pest::Span;
use template_builder::build_context::{BuildContext, ItemKind, Variables};
use template_builder::template_builder::{
    build, build_core_method, build_expression, build_formattable_list_method,
    build_string_method, build_unformattable_list_method, expect_boolean_expression,
    expect_integer_expression, expect_plain_text_expression, expect_template_expression,
};
use template_builder::template_function::{
    fill_width, SignatureFunction, StringFunction, StringListFunction, TimestampRangeFunction,
};
use template_builder::template_language::TemplateLanguage;
use template_builder::template_parser::{
    ArgumentCount, ExpressionKind, ExpressionNode, FunctionCallNode, LambdaNode, MethodCallNode,
    TemplateAliasId, TemplateParseError, TemplateParseErrorKind, TemplateParseResult,
};
use template_builder::template_property::{CoreModel, CoreTemplatePropertyKind, Expression};
use template_builder::templater::{
    BooleanProperty, IntegerProperty, ItemTemplate, Level, ListProperty, ListPropertyTemplate,
    ListTemplate, PropertyPlaceholder, SignatureProperty, StringListProperty, StringProperty,
    Template, TimestampModel, TimestampProperty, TimestampRangeProperty,
};

/// The text that spans are taken from.
const TEXT: &str = "0123456789abcdefghijklmnopqrstuvwxyz";

type Kind = CoreTemplatePropertyKind<&'static str>;

/// A language with a keyword of each basic type.
struct TestLanguage;

impl<'i> TemplateLanguage<'i> for TestLanguage {
    type Keyword = &'static str;
    type Item = u8;
    type Property = Kind;

    fn core_model(&self, property: CoreModel<&'static str>) -> CoreModel<&'static str> {
        property
    }

    fn item_model(&self, _item: u8, placeholder: Level) -> CoreModel<&'static str> {
        CoreModel::Timestamp(TimestampModel::Placeholder(placeholder))
    }

    // What keywords and methods build to is known to proofs only: the models hold mathematical
    // strings. Compiled code never asks for them.
    fn keyword_model(
        &self,
        _name: &'i str,
        _span: Span<'i>,
    ) -> TemplateParseResult<'i, CoreModel<&'static str>> {
        unreachable!()
    }

    fn method_model(
        &self,
        _variables: Variables<u8>,
        _property: CoreModel<&'static str>,
        _function: FunctionCallNode<'i>,
    ) -> TemplateParseResult<'i, CoreModel<&'static str>> {
        unreachable!()
    }

    fn wrap_core(&self, property: Kind) -> Kind {
        property
    }

    fn wrap_item(&self, _item: u8, placeholder: PropertyPlaceholder) -> Kind {
        CoreTemplatePropertyKind::Timestamp(TimestampProperty::Placeholder(placeholder))
    }

    fn build_keyword(&self, name: &'i str, span: Span<'i>) -> TemplateParseResult<'i, Kind> {
        match name {
            "description" => Ok(self.wrap_string(StringProperty::Keyword("description"))),
            "tags" => Ok(self.wrap_string_list(StringListProperty::Keyword("tags"))),
            "empty" => Ok(self.wrap_boolean(BooleanProperty::Keyword("empty"))),
            "width" => Ok(self.wrap_integer(IntegerProperty::Keyword("width"))),
            "author" => Ok(self.wrap_signature(SignatureProperty::Keyword("author"))),
            "now" => Ok(self.wrap_timestamp(TimestampProperty::Keyword("now"))),
            "time" => Ok(self.wrap_timestamp_range(TimestampRangeProperty::Keyword("time"))),
            "page" => Ok(self.wrap_template(Template::Keyword("page"))),
            "pages" => Ok(self.wrap_list_template(ListTemplate::Keyword("pages"))),
            _ => Err(TemplateParseError::no_such_keyword(name, span)),
        }
    }

    fn build_method(
        &self,
        build_ctx: &BuildContext<'i, u8>,
        property: Kind,
        function: &FunctionCallNode<'i>,
    ) -> TemplateParseResult<'i, Kind> {
        build_core_method(self, build_ctx, property, function)
    }
}

fn span(start: usize, end: usize) -> Span<'static> {
    Span::new(TEXT, start, end).unwrap()
}

fn node(kind: ExpressionKind<'static>) -> ExpressionNode<'static> {
    ExpressionNode { kind, span: span(0, 1) }
}

fn node_at(kind: ExpressionKind<'static>, start: usize, end: usize) -> ExpressionNode<'static> {
    ExpressionNode { kind, span: span(start, end) }
}

fn id(name: &'static str) -> ExpressionNode<'static> {
    node(ExpressionKind::Identifier(name))
}

fn string(value: &str) -> ExpressionNode<'static> {
    node(ExpressionKind::String(value.to_owned()))
}

fn integer(value: i64) -> ExpressionNode<'static> {
    node(ExpressionKind::Integer(value))
}

fn function(name: &'static str, args: Vec<ExpressionNode<'static>>) -> FunctionCallNode<'static> {
    FunctionCallNode { name, name_span: span(10, 12), args, args_span: span(13, 17) }
}

fn call(name: &'static str, args: Vec<ExpressionNode<'static>>) -> ExpressionNode<'static> {
    node(ExpressionKind::FunctionCall(function(name, args)))
}

fn method(
    object: ExpressionNode<'static>,
    name: &'static str,
    args: Vec<ExpressionNode<'static>>,
) -> ExpressionNode<'static> {
    node(ExpressionKind::MethodCall(MethodCallNode {
        object: Box::new(object),
        function: function(name, args),
    }))
}

fn lambda(params: Vec<&'static str>, body: ExpressionNode<'static>) -> ExpressionNode<'static> {
    node(ExpressionKind::Lambda(LambdaNode {
        params,
        params_span: span(20, 22),
        body: Box::new(body),
    }))
}

fn alias(name: &'static str, subst: ExpressionNode<'static>) -> ExpressionNode<'static> {
    node_at(
        ExpressionKind::AliasExpanded(TemplateAliasId::Symbol(name), Box::new(subst)),
        30,
        33,
    )
}

fn build_ok(node: ExpressionNode<'static>) -> Template<&'static str> {
    build(&TestLanguage, &node).unwrap()
}

fn build_err(node: ExpressionNode<'static>) -> TemplateParseError<'static> {
    build(&TestLanguage, &node).unwrap_err()
}

fn error(
    kind: TemplateParseErrorKind<'static>,
    start: usize,
    end: usize,
) -> TemplateParseError<'static> {
    TemplateParseError { kind, span: span(start, end), origin: None }
}

fn labeled(content: Template<&'static str>, labels: Vec<&str>) -> Template<&'static str> {
    let labels = labels.into_iter().map(|s| s.to_owned()).collect();
    Template::Label {
        content: Box::new(content),
        labels: Box::new(StringListProperty::Literal(labels)),
    }
}

fn text(s: &str) -> Template<&'static str> {
    Template::String(Box::new(StringProperty::Literal(s.to_owned())))
}

fn literal(s: &str) -> StringProperty<&'static str> {
    StringProperty::Literal(s.to_owned())
}

fn item(level: usize) -> StringProperty<&'static str> {
    StringProperty::Placeholder(PropertyPlaceholder { level })
}

#[test]
fn literals_have_no_labels() {
    assert_eq!(build_ok(string("hello")), text("hello"));
    assert_eq!(build_ok(integer(-7)), Template::Integer(Box::new(IntegerProperty::Literal(-7))));
}

#[test]
fn keywords_are_labeled_with_their_name() {
    assert_eq!(
        build_ok(id("description")),
        labeled(
            Template::String(Box::new(StringProperty::Keyword("description"))),
            vec!["description"]
        )
    );
    assert_eq!(
        build_ok(id("tags")),
        labeled(
            Template::StringList(Box::new(StringListProperty::Keyword("tags"))),
            vec!["tags"]
        )
    );
    assert_eq!(
        build_ok(id("empty")),
        labeled(Template::Boolean(Box::new(BooleanProperty::Keyword("empty"))), vec!["empty"])
    );
    assert_eq!(
        build_ok(id("width")),
        labeled(Template::Integer(Box::new(IntegerProperty::Keyword("width"))), vec!["width"])
    );
    assert_eq!(
        build_ok(id("author")),
        labeled(
            Template::Signature(Box::new(SignatureProperty::Keyword("author"))),
            vec!["author"]
        )
    );
    assert_eq!(
        build_ok(id("now")),
        labeled(Template::Timestamp(Box::new(TimestampProperty::Keyword("now"))), vec!["now"])
    );
    assert_eq!(
        build_ok(id("time")),
        labeled(
            Template::TimestampRange(Box::new(TimestampRangeProperty::Keyword("time"))),
            vec!["time"]
        )
    );
    assert_eq!(build_ok(id("page")), labeled(Template::Keyword("page"), vec!["page"]));
    assert_eq!(
        build_ok(id("pages")),
        labeled(Template::List(Box::new(ListTemplate::Keyword("pages"))), vec!["pages"])
    );
}

#[test]
fn unknown_keyword() {
    assert_eq!(
        build_err(node_at(ExpressionKind::Identifier("nothing"), 2, 9)),
        error(TemplateParseErrorKind::NoSuchKeyword("nothing"), 2, 9)
    );
}

#[test]
fn concatenation_keeps_order() {
    assert_eq!(
        build_ok(node(ExpressionKind::Concat(vec![string("a"), integer(1), string("b")]))),
        Template::Concat(vec![
            text("a"),
            Template::Integer(Box::new(IntegerProperty::Literal(1))),
            text("b"),
        ])
    );
    assert_eq!(build_ok(node(ExpressionKind::Concat(vec![]))), Template::Concat(vec![]));
}

#[test]
fn first_error_of_a_list() {
    let nodes = vec![
        string("a"),
        node_at(ExpressionKind::Identifier("x"), 3, 4),
        node_at(ExpressionKind::Identifier("y"), 5, 6),
    ];
    assert_eq!(
        build_err(node(ExpressionKind::Concat(nodes))),
        error(TemplateParseErrorKind::NoSuchKeyword("x"), 3, 4)
    );
    let nodes = vec![
        string("a"),
        node_at(ExpressionKind::Identifier("y"), 5, 6),
        node_at(ExpressionKind::Identifier("x"), 3, 4),
    ];
    assert_eq!(
        build_err(call("separate", nodes)),
        error(TemplateParseErrorKind::NoSuchKeyword("y"), 5, 6)
    );
}

#[test]
fn lambda_is_no_expression() {
    assert_eq!(
        build_err(lambda(vec!["x"], id("x"))),
        error(
            TemplateParseErrorKind::UnexpectedExpression("Lambda cannot be defined here"),
            0,
            1
        )
    );
}

#[test]
fn alias_is_what_it_stands_for() {
    assert_eq!(build_ok(alias("d", id("description"))), build_ok(id("description")));
    let e = build_err(alias("d", node_at(ExpressionKind::Identifier("x"), 3, 4)));
    assert_eq!(
        e,
        TemplateParseError {
            kind: TemplateParseErrorKind::BadAliasExpansion(TemplateAliasId::Symbol("d")),
            span: span(30, 33),
            origin: Some(Box::new(error(TemplateParseErrorKind::NoSuchKeyword("x"), 3, 4))),
        }
    );
}

#[test]
fn alias_in_an_alias() {
    let inner = alias("inner", node_at(ExpressionKind::Identifier("x"), 3, 4));
    let outer = node_at(
        ExpressionKind::AliasExpanded(TemplateAliasId::Function("outer"), Box::new(inner)),
        5,
        8,
    );
    let e = build_err(outer);
    assert_eq!(
        e.kind,
        TemplateParseErrorKind::BadAliasExpansion(TemplateAliasId::Function("outer"))
    );
    assert_eq!(e.span, span(5, 8));
    let e = e.origin.unwrap();
    assert_eq!(
        e.kind,
        TemplateParseErrorKind::BadAliasExpansion(TemplateAliasId::Symbol("inner"))
    );
    let e = e.origin.unwrap();
    assert_eq!(*e, error(TemplateParseErrorKind::NoSuchKeyword("x"), 3, 4));
}

#[test]
fn expected_types() {
    let language = TestLanguage;
    let build_ctx = BuildContext::new();
    let width = node_at(ExpressionKind::Identifier("width"), 4, 8);
    assert_eq!(
        expect_boolean_expression(&language, &build_ctx, &width),
        Err(error(TemplateParseErrorKind::ExpectedType("Boolean"), 4, 8))
    );
    assert_eq!(
        expect_integer_expression(&language, &build_ctx, &width),
        Ok(IntegerProperty::Keyword("width"))
    );
    let tags = node_at(ExpressionKind::Identifier("tags"), 4, 8);
    assert_eq!(
        expect_boolean_expression(&language, &build_ctx, &tags),
        Err(error(TemplateParseErrorKind::ExpectedType("Boolean"), 4, 8))
    );
    assert_eq!(
        expect_integer_expression(&language, &build_ctx, &tags),
        Err(error(TemplateParseErrorKind::ExpectedType("Integer"), 4, 8))
    );
    // Text loses the labels that a template has.
    assert_eq!(
        expect_plain_text_expression(&language, &build_ctx, &tags),
        Ok(StringProperty::PlainText(Box::new(Template::StringList(Box::new(
            StringListProperty::Keyword("tags")
        )))))
    );
    assert_eq!(
        expect_template_expression(&language, &build_ctx, &id("page")),
        Ok(labeled(Template::Keyword("page"), vec!["page"]))
    );
    assert_eq!(
        expect_plain_text_expression(&language, &build_ctx, &id("description")),
        Ok(StringProperty::Keyword("description"))
    );
    assert_eq!(
        expect_boolean_expression(&language, &build_ctx, &id("description")),
        Ok(BooleanProperty::NotEmpty(Box::new(StringProperty::Keyword("description"))))
    );
    assert_eq!(
        expect_boolean_expression(&language, &build_ctx, &id("empty")),
        Ok(BooleanProperty::Keyword("empty"))
    );
}

#[test]
fn text_and_template_of_a_node() {
    let language = TestLanguage;
    let build_ctx = BuildContext::new();
    let nodes = || {
        vec![
            string("a"),
            id("description"),
            id("pages"),
            id("nothing"),
            lambda(vec![], string("x")),
            method(id("author"), "phone", vec![]),
            alias("d", id("nothing")),
        ]
    };
    for node in nodes() {
        let text = expect_plain_text_expression(&language, &build_ctx, &node);
        let template = expect_template_expression(&language, &build_ctx, &node);
        assert_eq!(text.is_ok(), template.is_ok());
        assert_eq!(text.err(), template.err());
    }
}

#[test]
fn labels_are_around_the_whole_template() {
    let content = || CoreTemplatePropertyKind::String(literal("a"));
    assert_eq!(Expression::unlabeled(content()).try_into_template(), Some(text("a")));
    assert_eq!(
        Expression::with_label(content(), "l").try_into_template(),
        Some(labeled(text("a"), vec!["l"]))
    );
    assert_eq!(
        Expression::with_more_labels(content(), vec!["l".to_owned()], "m").try_into_template(),
        Some(labeled(text("a"), vec!["l", "m"]))
    );
}

#[test]
fn fill_takes_a_width_and_a_content() {
    assert_eq!(
        build_ok(call("fill", vec![integer(20), string("text")])),
        Template::Fill {
            width: Box::new(IntegerProperty::Literal(20)),
            content: Box::new(text("text")),
        }
    );
    // A width that does not fit is kept in the tree, and counts as 0.
    assert_eq!(
        build_ok(call("fill", vec![integer(-1), string("a b")])),
        Template::Fill {
            width: Box::new(IntegerProperty::Literal(-1)),
            content: Box::new(text("a b")),
        }
    );
    assert_eq!(fill_width(-1), 0);
    let text = node_at(ExpressionKind::String("x".to_owned()), 2, 3);
    assert_eq!(
        build_err(call("fill", vec![text, id("x")])),
        error(TemplateParseErrorKind::ExpectedType("Integer"), 2, 3)
    );
    assert_eq!(
        build_err(call("fill", vec![integer(20)])),
        error(
            TemplateParseErrorKind::InvalidArguments {
                name: "fill",
                expected: ArgumentCount::Exactly(2),
            },
            13,
            17
        )
    );
}

#[test]
fn indent_takes_a_prefix_and_a_content() {
    assert_eq!(
        build_ok(call("indent", vec![string("> "), string("text")])),
        Template::Indent { prefix: Box::new(text("> ")), content: Box::new(text("text")) }
    );
    assert_eq!(
        build_err(call("indent", vec![string("a"), string("b"), string("c")])),
        error(
            TemplateParseErrorKind::InvalidArguments {
                name: "indent",
                expected: ArgumentCount::Exactly(2),
            },
            13,
            17
        )
    );
}

#[test]
fn label_splits_words() {
    assert_eq!(
        build_ok(call("label", vec![string("a b"), string("text")])),
        Template::Label {
            content: Box::new(text("text")),
            labels: Box::new(StringListProperty::OfString(
                StringListFunction::Words,
                Box::new(literal("a b"))
            )),
        }
    );
    // What is not a string is taken as text.
    assert_eq!(
        build_ok(call("label", vec![integer(1), string("text")])),
        Template::Label {
            content: Box::new(text("text")),
            labels: Box::new(StringListProperty::OfString(
                StringListFunction::Words,
                Box::new(StringProperty::PlainText(Box::new(Template::Integer(Box::new(
                    IntegerProperty::Literal(1)
                )))))
            )),
        }
    );
}

#[test]
fn if_with_and_without_else() {
    assert_eq!(
        build_ok(call("if", vec![id("empty"), string("yes")])),
        Template::Conditional {
            condition: Box::new(BooleanProperty::Keyword("empty")),
            true_template: Box::new(text("yes")),
            false_template: None,
        }
    );
    assert_eq!(
        build_ok(call("if", vec![id("description"), string("yes"), string("no")])),
        Template::Conditional {
            condition: Box::new(BooleanProperty::NotEmpty(Box::new(StringProperty::Keyword(
                "description"
            )))),
            true_template: Box::new(text("yes")),
            false_template: Some(Box::new(text("no"))),
        }
    );
    let expected = error(
        TemplateParseErrorKind::InvalidArguments {
            name: "if",
            expected: ArgumentCount::Between(2, 3),
        },
        13,
        17,
    );
    assert_eq!(build_err(call("if", vec![id("empty")])), expected);
    let args = vec![id("empty"), string("a"), string("b"), string("c")];
    assert_eq!(build_err(call("if", args)), expected);
}

#[test]
fn concat_function() {
    assert_eq!(build_ok(call("concat", vec![])), Template::Concat(vec![]));
    assert_eq!(
        build_ok(call("concat", vec![string("a"), string("b")])),
        Template::Concat(vec![text("a"), text("b")])
    );
}

#[test]
fn concat_does_what_concatenation_does() {
    let nodes = || vec![id("description"), string("a"), method(id("tags"), "upper", vec![])];
    assert_eq!(
        build_err(call("concat", nodes())),
        build_err(node(ExpressionKind::Concat(nodes())))
    );
    let nodes = || vec![id("description"), string("a"), method(id("author"), "name", vec![])];
    assert_eq!(
        build_ok(call("concat", nodes())),
        build_ok(node(ExpressionKind::Concat(nodes())))
    );
}

#[test]
fn separate_takes_a_separator_and_contents() {
    assert_eq!(
        build_ok(call("separate", vec![string(", ")])),
        Template::Separate { separator: Box::new(text(", ")), contents: vec![] }
    );
    assert_eq!(
        build_ok(call("separate", vec![string(", "), string("a"), string("b")])),
        Template::Separate {
            separator: Box::new(text(", ")),
            contents: vec![text("a"), text("b")],
        }
    );
    assert_eq!(
        build_err(call("separate", vec![])),
        error(
            TemplateParseErrorKind::InvalidArguments {
                name: "separate",
                expected: ArgumentCount::AtLeast(1),
            },
            13,
            17
        )
    );
}

#[test]
fn unknown_function() {
    assert_eq!(
        build_err(call("join", vec![])),
        error(TemplateParseErrorKind::NoSuchFunction("join"), 10, 12)
    );
}

#[test]
fn string_methods() {
    assert_eq!(
        build_ok(method(string("abc"), "contains", vec![string("b")])),
        labeled(
            Template::Boolean(Box::new(BooleanProperty::Contains(
                Box::new(literal("abc")),
                Box::new(literal("b"))
            ))),
            vec!["contains"]
        )
    );
    for (name, f) in [
        ("first_line", StringFunction::FirstLine),
        ("upper", StringFunction::Upper),
        ("lower", StringFunction::Lower),
    ] {
        assert_eq!(
            build_ok(method(id("description"), name, vec![])),
            labeled(
                Template::String(Box::new(StringProperty::OfString(
                    f,
                    Box::new(StringProperty::Keyword("description"))
                ))),
                vec!["description", name]
            )
        );
    }
    assert_eq!(
        build_ok(method(string("a"), "lines", vec![])),
        labeled(
            Template::StringList(Box::new(StringListProperty::OfString(
                StringListFunction::Lines,
                Box::new(literal("a"))
            ))),
            vec!["lines"]
        )
    );
    assert_eq!(
        build_err(method(string("a"), "upper", vec![string("b")])),
        error(
            TemplateParseErrorKind::InvalidArguments {
                name: "upper",
                expected: ArgumentCount::Exactly(0),
            },
            13,
            17
        )
    );
    assert_eq!(
        build_err(method(string("a"), "join", vec![])),
        error(TemplateParseErrorKind::NoSuchMethod { receiver: "String", name: "join" }, 10, 12)
    );
}

#[test]
fn first_line_and_lines_of_one_string() {
    let language = TestLanguage;
    let build_ctx = BuildContext::new();
    let build = |name| {
        build_string_method(&language, &build_ctx, literal("a\nb"), &function(name, vec![]))
    };
    assert_eq!(
        build("first_line"),
        Ok(CoreTemplatePropertyKind::String(StringProperty::OfString(
            StringFunction::FirstLine,
            Box::new(literal("a\nb"))
        )))
    );
    assert_eq!(
        build("lines"),
        Ok(CoreTemplatePropertyKind::StringList(StringListProperty::OfString(
            StringListFunction::Lines,
            Box::new(literal("a\nb"))
        )))
    );
    assert_eq!(StringFunction::FirstLine.call("a\nb"), "a");
    assert_eq!(StringListFunction::Lines.call("a\nb"), vec!["a", "b"]);
}

#[test]
fn signature_methods() {
    for (name, f) in [
        ("name", SignatureFunction::Name),
        ("email", SignatureFunction::Email),
        ("username", SignatureFunction::Username),
    ] {
        assert_eq!(
            build_ok(method(id("author"), name, vec![])),
            labeled(
                Template::String(Box::new(StringProperty::OfSignature(
                    f,
                    Box::new(SignatureProperty::Keyword("author"))
                ))),
                vec!["author", name]
            )
        );
    }
    assert_eq!(
        build_ok(method(id("author"), "timestamp", vec![])),
        labeled(
            Template::Timestamp(Box::new(TimestampProperty::OfSignature(Box::new(
                SignatureProperty::Keyword("author")
            )))),
            vec!["author", "timestamp"]
        )
    );
    assert_eq!(
        build_err(method(id("author"), "phone", vec![])),
        error(
            TemplateParseErrorKind::NoSuchMethod { receiver: "Signature", name: "phone" },
            10,
            12
        )
    );
}

#[test]
fn timestamp_methods_have_any_name() {
    for name in ["ago", "utc", "anything"] {
        assert_eq!(
            build_ok(method(id("now"), name, vec![])),
            labeled(
                Template::String(Box::new(StringProperty::Utc(Box::new(
                    TimestampProperty::Keyword("now")
                )))),
                vec!["now", name]
            )
        );
    }
    assert_eq!(
        build_err(method(id("now"), "ago", vec![integer(1)])),
        error(
            TemplateParseErrorKind::InvalidArguments {
                name: "ago",
                expected: ArgumentCount::Exactly(0),
            },
            13,
            17
        )
    );
}

#[test]
fn timestamp_range_methods() {
    for (name, f) in
        [("start", TimestampRangeFunction::Start), ("end", TimestampRangeFunction::End)]
    {
        assert_eq!(
            build_ok(method(id("time"), name, vec![])),
            labeled(
                Template::Timestamp(Box::new(TimestampProperty::OfRange(
                    f,
                    Box::new(TimestampRangeProperty::Keyword("time"))
                ))),
                vec!["time", name]
            )
        );
    }
    assert_eq!(
        build_ok(method(id("time"), "duration", vec![])),
        labeled(
            Template::String(Box::new(StringProperty::Duration(Box::new(
                TimestampRangeProperty::Keyword("time")
            )))),
            vec!["time", "duration"]
        )
    );
    assert_eq!(
        build_err(method(id("time"), "length", vec![])),
        error(
            TemplateParseErrorKind::NoSuchMethod { receiver: "TimestampRange", name: "length" },
            10,
            12
        )
    );
}

#[test]
fn types_without_methods() {
    for (keyword, receiver) in
        [("empty", "Boolean"), ("width", "Integer"), ("page", "Template")]
    {
        assert_eq!(
            build_err(method(id(keyword), "upper", vec![])),
            error(TemplateParseErrorKind::NoSuchMethod { receiver, name: "upper" }, 10, 12)
        );
    }
}

#[test]
fn join_of_a_list() {
    assert_eq!(
        build_ok(method(id("tags"), "join", vec![string(", ")])),
        labeled(
            Template::ListProperty(Box::new(ListPropertyTemplate {
                property: ListProperty::Strings(StringListProperty::Keyword("tags")),
                separator: Box::new(text(", ")),
                item: ItemTemplate::Item,
            })),
            vec!["tags", "join"]
        )
    );
    assert_eq!(
        build_err(method(id("tags"), "join", vec![])),
        error(
            TemplateParseErrorKind::InvalidArguments {
                name: "join",
                expected: ArgumentCount::Exactly(1),
            },
            13,
            17
        )
    );
    assert_eq!(
        build_err(method(id("tags"), "first", vec![])),
        error(TemplateParseErrorKind::NoSuchMethod { receiver: "List", name: "first" }, 10, 12)
    );
}

fn map_of_tags(level: usize, template: Template<&'static str>) -> ListTemplate<&'static str> {
    ListTemplate::ListProperty(ListPropertyTemplate {
        property: ListProperty::Strings(StringListProperty::Keyword("tags")),
        separator: Box::new(text(" ")),
        item: ItemTemplate::Template {
            placeholder: PropertyPlaceholder { level },
            template: Box::new(template),
        },
    })
}

#[test]
fn map_of_a_list() {
    // The variable has no label.
    assert_eq!(
        build_ok(method(id("tags"), "map", vec![lambda(vec!["tag"], id("tag"))])),
        labeled(
            Template::List(Box::new(map_of_tags(0, Template::String(Box::new(item(0)))))),
            vec!["tags", "map"]
        )
    );
    // A method on the variable has a label.
    let body = method(id("tag"), "upper", vec![]);
    assert_eq!(
        build_ok(method(id("tags"), "map", vec![lambda(vec!["tag"], body)])),
        labeled(
            Template::List(Box::new(map_of_tags(
                0,
                labeled(
                    Template::String(Box::new(StringProperty::OfString(
                        StringFunction::Upper,
                        Box::new(item(0))
                    ))),
                    vec!["upper"]
                )
            ))),
            vec!["tags", "map"]
        )
    );
}

#[test]
fn join_of_a_map() {
    let map = method(id("tags"), "map", vec![lambda(vec!["tag"], id("tag"))]);
    assert_eq!(
        build_ok(method(map, "join", vec![string(", ")])),
        labeled(
            Template::Join(
                Box::new(map_of_tags(0, Template::String(Box::new(item(0))))),
                Box::new(text(", "))
            ),
            vec!["tags", "map", "join"]
        )
    );
    assert_eq!(
        build_err(method(id("pages"), "map", vec![lambda(vec!["x"], id("x"))])),
        error(
            TemplateParseErrorKind::NoSuchMethod { receiver: "ListTemplate", name: "map" },
            10,
            12
        )
    );
}

#[test]
fn nested_maps_have_their_own_placeholders() {
    let inner = method(
        id("tags"),
        "map",
        vec![lambda(vec!["b"], node(ExpressionKind::Concat(vec![id("a"), id("b")])))],
    );
    let outer = method(id("tags"), "map", vec![lambda(vec!["a"], inner)]);
    let inner = labeled(
        Template::List(Box::new(map_of_tags(
            1,
            Template::Concat(vec![
                Template::String(Box::new(item(0))),
                Template::String(Box::new(item(1))),
            ]),
        ))),
        vec!["tags", "map"],
    );
    assert_eq!(
        build_ok(outer),
        labeled(Template::List(Box::new(map_of_tags(0, inner))), vec!["tags", "map"])
    );
}

#[test]
fn inner_variable_hides_outer_variable() {
    let inner = method(id("tags"), "map", vec![lambda(vec!["a"], id("a"))]);
    let body = node(ExpressionKind::Concat(vec![inner, id("a")]));
    let outer = method(id("tags"), "map", vec![lambda(vec!["a"], body)]);
    let inner = labeled(
        Template::List(Box::new(map_of_tags(1, Template::String(Box::new(item(1)))))),
        vec!["tags", "map"],
    );
    let body = Template::Concat(vec![inner, Template::String(Box::new(item(0)))]);
    assert_eq!(
        build_ok(outer),
        labeled(Template::List(Box::new(map_of_tags(0, body))), vec!["tags", "map"])
    );
}

#[test]
fn variable_hides_keyword() {
    assert_eq!(
        build_ok(method(id("tags"), "map", vec![lambda(vec!["description"], id("description"))])),
        labeled(
            Template::List(Box::new(map_of_tags(0, Template::String(Box::new(item(0)))))),
            vec!["tags", "map"]
        )
    );
}

#[test]
fn variable_is_unknown_outside() {
    let map = method(id("tags"), "map", vec![lambda(vec!["tag"], id("tag"))]);
    let outside = node_at(ExpressionKind::Identifier("tag"), 6, 9);
    assert_eq!(
        build_err(node(ExpressionKind::Concat(vec![map, outside]))),
        error(TemplateParseErrorKind::NoSuchKeyword("tag"), 6, 9)
    );
}

#[test]
fn map_wants_a_lambda_with_one_parameter() {
    for params in [vec![], vec!["a", "b"]] {
        assert_eq!(
            build_err(method(id("tags"), "map", vec![lambda(params, string("x"))])),
            error(
                TemplateParseErrorKind::UnexpectedExpression("Expected 1 lambda parameters"),
                20,
                22
            )
        );
    }
    let no_lambda = node_at(ExpressionKind::Identifier("description"), 3, 5);
    assert_eq!(
        build_err(method(id("tags"), "map", vec![no_lambda])),
        error(TemplateParseErrorKind::UnexpectedExpression("Expected lambda expression"), 3, 5)
    );
    assert_eq!(
        build_err(method(id("tags"), "map", vec![])),
        error(
            TemplateParseErrorKind::InvalidArguments {
                name: "map",
                expected: ArgumentCount::Exactly(1),
            },
            13,
            17
        )
    );
}

#[test]
fn alias_of_an_alias_of_a_lambda() {
    let inner = alias("inner", lambda(vec!["tag"], id("tag")));
    assert_eq!(
        build_ok(method(id("tags"), "map", vec![alias("outer", inner)])),
        build_ok(method(id("tags"), "map", vec![lambda(vec!["tag"], id("tag"))]))
    );
}

#[test]
fn alias_of_a_lambda() {
    assert_eq!(
        build_ok(method(
            id("tags"),
            "map",
            vec![alias("same", lambda(vec!["tag"], id("tag")))]
        )),
        build_ok(method(id("tags"), "map", vec![lambda(vec!["tag"], id("tag"))]))
    );
    let body = node_at(ExpressionKind::Identifier("x"), 3, 4);
    assert_eq!(
        build_err(method(id("tags"), "map", vec![alias("bad", lambda(vec!["tag"], body))])),
        TemplateParseError {
            kind: TemplateParseErrorKind::BadAliasExpansion(TemplateAliasId::Symbol("bad")),
            span: span(30, 33),
            origin: Some(Box::new(error(TemplateParseErrorKind::NoSuchKeyword("x"), 3, 4))),
        }
    );
}

#[test]
fn lists_of_a_language() {
    let language = TestLanguage;
    let build_ctx = BuildContext::new();
    let map = function("map", vec![lambda(vec!["t"], method(id("t"), "utc", vec![]))]);
    let expected = CoreTemplatePropertyKind::ListTemplate(ListTemplate::ListProperty(
        ListPropertyTemplate {
            property: ListProperty::Keyword("times"),
            separator: Box::new(text(" ")),
            item: ItemTemplate::Template {
                placeholder: PropertyPlaceholder { level: 0 },
                template: Box::new(labeled(
                    Template::String(Box::new(StringProperty::Utc(Box::new(
                        TimestampProperty::Placeholder(PropertyPlaceholder { level: 0 }),
                    )))),
                    vec!["utc"],
                )),
            },
        },
    ));
    assert_eq!(
        build_unformattable_list_method(
            &language,
            &build_ctx,
            ListProperty::Keyword("times"),
            &map,
            ItemKind::Language(0)
        ),
        Ok(expected)
    );
    let join = function("join", vec![string(",")]);
    assert_eq!(
        build_unformattable_list_method(
            &language,
            &build_ctx,
            ListProperty::Keyword("times"),
            &join,
            ItemKind::Language(0)
        ),
        Err(error(
            TemplateParseErrorKind::NoSuchMethod { receiver: "List", name: "join" },
            10,
            12
        ))
    );
    assert_eq!(
        build_formattable_list_method(
            &language,
            &build_ctx,
            ListProperty::Keyword("times"),
            &join,
            ItemKind::Language(0)
        ),
        Ok(CoreTemplatePropertyKind::Template(Template::ListProperty(Box::new(
            ListPropertyTemplate {
                property: ListProperty::Keyword("times"),
                separator: Box::new(text(",")),
                item: ItemTemplate::Item,
            }
        ))))
    );
}

#[test]
fn expressions_convert_like_their_properties() {
    let language = TestLanguage;
    let build_ctx = BuildContext::new();
    let build = |node: ExpressionNode<'static>| {
        build_expression(&language, &build_ctx, &node).ok().unwrap()
    };
    assert_eq!(
        build(id("empty")).try_into_boolean::<&'static str>(),
        Some(BooleanProperty::Keyword("empty"))
    );
    assert_eq!(build(id("empty")).try_into_integer::<&'static str>(), None);
    assert_eq!(
        build(integer(3)).try_into_integer::<&'static str>(),
        Some(IntegerProperty::Literal(3))
    );
    assert_eq!(
        build(string("s")).try_into_plain_text::<&'static str>(),
        Some(literal("s"))
    );
    assert_eq!(
        build(method(id("author"), "name", vec![])).into_parts().1,
        vec!["author".to_owned(), "name".to_owned()]
    );
    assert_eq!(
        build(id("page")).try_into_template::<&'static str>(),
        Some(labeled(Template::Keyword("page"), vec!["page"]))
    );
}
