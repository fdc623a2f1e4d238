use pest::Span;
use template_builder::build_context::{BuildContext, ItemKind, Variables};
use template_builder::template_builder::{
    build, build_core_method, build_unformattable_list_method, expect_plain_text_expression,
    expect_template_expression,
};
use template_builder::template_language::TemplateLanguage;
use template_builder::template_parser::{
    ExpressionKind, ExpressionNode, FunctionCallNode, LambdaNode, MethodCallNode,
    TemplateParseError, TemplateParseErrorKind, TemplateParseResult,
};
use template_builder::template_property::{
    CoreModel, CoreTemplatePropertyKind, IntoTemplateProperty,
};
use template_builder::templater::{
    BooleanModel, BooleanProperty, IntegerModel, IntegerProperty, ItemTemplate, Level, ListModel,
    ListProperty, ListPropertyTemplate, ListTemplate, PropertyPlaceholder, StringListProperty,
    StringModel, StringProperty, Template, TemplateModel,
};
use vstd::view::DeepView;

const TEXT: &str = "commits.map(|c| c.id)";

/// The keywords of a language of commits.
#[derive(Clone, Copy, Debug, PartialEq, Eq)]
enum Keyword {
    Commits,
    IdOf(usize),
}

type CoreKind = CoreTemplatePropertyKind<Keyword>;

/// The properties of a language of commits.
enum CommitKind {
    Core(CoreKind),
    Commit(PropertyPlaceholder),
    CommitList(ListProperty<Keyword>),
}

/// Model of `CommitKind`.
enum CommitModel {
    Core(CoreModel<Keyword>),
    Commit(Level),
    CommitList(ListModel<Keyword>),
}

/// A model is for proofs. Compiled code never makes one, and has no numbers to put into it.
impl DeepView for CommitKind {
    type V = CommitModel;

    fn deep_view(&self) -> CommitModel {
        match self {
            CommitKind::Core(property) => CommitModel::Core(property.deep_view()),
            CommitKind::Commit(_) => unreachable!(),
            CommitKind::CommitList(property) => CommitModel::CommitList(property.deep_view()),
        }
    }
}

impl IntoTemplateProperty<Keyword> for CommitKind {
    fn boolean_model(property: CommitModel) -> Option<BooleanModel<Keyword>> {
        match property {
            CommitModel::Core(property) => CoreKind::boolean_model(property),
            _ => None,
        }
    }

    fn integer_model(property: CommitModel) -> Option<IntegerModel<Keyword>> {
        match property {
            CommitModel::Core(property) => CoreKind::integer_model(property),
            _ => None,
        }
    }

    fn plain_text_model(property: CommitModel) -> Option<StringModel<Keyword>> {
        match property {
            CommitModel::Core(property) => CoreKind::plain_text_model(property),
            _ => None,
        }
    }

    fn template_model(property: CommitModel) -> Option<TemplateModel<Keyword>> {
        match property {
            CommitModel::Core(property) => CoreKind::template_model(property),
            _ => None,
        }
    }

    fn try_into_boolean(self) -> Option<BooleanProperty<Keyword>> {
        match self {
            CommitKind::Core(property) => property.try_into_boolean(),
            _ => None,
        }
    }

    fn try_into_integer(self) -> Option<IntegerProperty<Keyword>> {
        match self {
            CommitKind::Core(property) => property.try_into_integer(),
            _ => None,
        }
    }

    fn try_into_plain_text(self) -> Option<StringProperty<Keyword>> {
        match self {
            CommitKind::Core(property) => property.try_into_plain_text(),
            _ => None,
        }
    }

    fn try_into_template(self) -> Option<Template<Keyword>> {
        match self {
            CommitKind::Core(property) => property.try_into_template(),
            _ => None,
        }
    }
}

/// A language whose lists hold commits, which cannot be rendered themselves.
struct CommitLanguage;

impl<'i> TemplateLanguage<'i> for CommitLanguage {
    type Keyword = Keyword;
    type Item = ();
    type Property = CommitKind;

    fn core_model(&self, property: CoreModel<Keyword>) -> CommitModel {
        CommitModel::Core(property)
    }

    fn item_model(&self, _item: (), placeholder: Level) -> CommitModel {
        CommitModel::Commit(placeholder)
    }

    fn keyword_model(
        &self,
        name: &'i str,
        span: Span<'i>,
    ) -> TemplateParseResult<'i, CommitModel> {
        match name {
            "commits" => Ok(CommitModel::CommitList(ListModel::Keyword(Keyword::Commits))),
            _ => Err(TemplateParseError::no_such_keyword(name, span)),
        }
    }

    // What the methods of the basic types give is known to proofs only.
    fn method_model(
        &self,
        _variables: Variables<()>,
        _property: CommitModel,
        _function: FunctionCallNode<'i>,
    ) -> TemplateParseResult<'i, CommitModel> {
        unreachable!()
    }

    fn wrap_core(&self, property: CoreKind) -> CommitKind {
        CommitKind::Core(property)
    }

    fn wrap_item(&self, _item: (), placeholder: PropertyPlaceholder) -> CommitKind {
        CommitKind::Commit(placeholder)
    }

    fn build_keyword(&self, name: &'i str, span: Span<'i>) -> TemplateParseResult<'i, CommitKind> {
        match name {
            "commits" => Ok(CommitKind::CommitList(ListProperty::Keyword(Keyword::Commits))),
            _ => Err(TemplateParseError::no_such_keyword(name, span)),
        }
    }

    fn build_method(
        &self,
        build_ctx: &BuildContext<'i, ()>,
        property: CommitKind,
        function: &FunctionCallNode<'i>,
    ) -> TemplateParseResult<'i, CommitKind> {
        match property {
            CommitKind::Core(property) => build_core_method(self, build_ctx, property, function),
            CommitKind::Commit(placeholder) => match function.name {
                "id" => {
                    let id = StringProperty::Keyword(Keyword::IdOf(placeholder.level));
                    Ok(self.wrap_string(id))
                }
                _ => Err(TemplateParseError::no_such_method("Commit", function)),
            },
            CommitKind::CommitList(property) => build_unformattable_list_method(
                self,
                build_ctx,
                property,
                function,
                ItemKind::Language(()),
            ),
        }
    }
}

fn span(start: usize, end: usize) -> Span<'static> {
    Span::new(TEXT, start, end).unwrap()
}

fn id(name: &'static str, start: usize, end: usize) -> ExpressionNode<'static> {
    ExpressionNode { kind: ExpressionKind::Identifier(name), span: span(start, end) }
}

fn method(
    object: ExpressionNode<'static>,
    name: &'static str,
    args: Vec<ExpressionNode<'static>>,
) -> ExpressionNode<'static> {
    let function =
        FunctionCallNode { name, name_span: span(8, 11), args, args_span: span(12, 20) };
    let method = MethodCallNode { object: Box::new(object), function };
    ExpressionNode { kind: ExpressionKind::MethodCall(method), span: span(0, 21) }
}

fn map(body: ExpressionNode<'static>) -> ExpressionNode<'static> {
    let lambda = LambdaNode { params: vec!["c"], params_span: span(13, 14), body: Box::new(body) };
    let lambda = ExpressionNode { kind: ExpressionKind::Lambda(lambda), span: span(12, 20) };
    method(id("commits", 0, 7), "map", vec![lambda])
}

fn error(
    kind: TemplateParseErrorKind<'static>,
    start: usize,
    end: usize,
) -> TemplateParseError<'static> {
    TemplateParseError { kind, span: span(start, end), origin: None }
}

#[test]
fn some_properties_are_no_templates() {
    let build_ctx = BuildContext::new();
    let node = id("commits", 0, 7);
    let expected = error(TemplateParseErrorKind::ExpectedType("Template"), 0, 7);
    assert_eq!(expect_template_expression(&CommitLanguage, &build_ctx, &node), Err(expected));
    let expected = error(TemplateParseErrorKind::ExpectedType("Template"), 0, 7);
    assert_eq!(expect_plain_text_expression(&CommitLanguage, &build_ctx, &node), Err(expected));
    // The item is no template either.
    assert_eq!(
        build(&CommitLanguage, &map(id("c", 16, 17))),
        Err(error(TemplateParseErrorKind::ExpectedType("Template"), 16, 17))
    );
}

#[test]
fn methods_of_items() {
    let node = map(method(id("c", 16, 17), "id", vec![]));
    let item = Template::Label {
        content: Box::new(Template::String(Box::new(StringProperty::Keyword(Keyword::IdOf(0))))),
        labels: Box::new(StringListProperty::Literal(vec!["id".to_owned()])),
    };
    let list = ListTemplate::ListProperty(ListPropertyTemplate {
        property: ListProperty::Keyword(Keyword::Commits),
        separator: Box::new(Template::String(Box::new(StringProperty::Literal(" ".to_owned())))),
        item: ItemTemplate::Template {
            placeholder: PropertyPlaceholder { level: 0 },
            template: Box::new(item),
        },
    });
    let expected = Template::Label {
        content: Box::new(Template::List(Box::new(list))),
        labels: Box::new(StringListProperty::Literal(vec![
            "commits".to_owned(),
            "map".to_owned(),
        ])),
    };
    assert_eq!(build(&CommitLanguage, &node), Ok(expected));
    assert_eq!(
        build(&CommitLanguage, &map(method(id("c", 16, 17), "name", vec![]))),
        Err(error(
            TemplateParseErrorKind::NoSuchMethod { receiver: "Commit", name: "name" },
            8,
            11
        ))
    );
}

#[test]
fn unformattable_lists_do_not_join() {
    assert_eq!(
        build(&CommitLanguage, &method(id("commits", 0, 7), "join", vec![])),
        Err(error(TemplateParseErrorKind::NoSuchMethod { receiver: "List", name: "join" }, 8, 11))
    );
}
