//! Builds evaluation trees from syntax trees.

use vstd::prelude::*;

use crate::build_context::{BuildContext, ItemKind};
use crate::build_model::{
    boolean_model, core_method_model, expression_model, formattable_list_method_model,
    function_model, integer_model, lambda_model, lemma_first_error, list_template_method_model,
    map_model, method_call_model, plain_text_model, signature_method_model, string_method_model,
    template_model, templates_model, timestamp_method_model, timestamp_range_method_model,
    unformattable_list_method_model, variable_model, wrapped,
};
use crate::template_function::{
    SignatureFunction, StringFunction, StringListFunction, TimestampRangeFunction,
};
use crate::template_language::{result_model, TemplateLanguage};
use crate::template_parser::{
    expect_arguments, expect_exact_arguments, expect_no_arguments, expect_some_arguments,
    ExpressionKind, ExpressionNode, FunctionCallNode, MethodCallNode, TemplateParseError,
    TemplateParseResult,
};
use crate::template_property::{
    CoreModel, CoreTemplatePropertyKind, Expression, ExpressionModel,
};
use crate::templater::{
    lemma_contents_model, BooleanProperty, IntegerProperty, ItemTemplate, ItemTemplateModel,
    ListProperty, ListPropertyTemplate, ListPropertyTemplateModel, ListTemplate,
    PropertyPlaceholder, SignatureProperty, StringListModel, StringListProperty, StringModel,
    StringProperty, Template, TemplateModel, TimestampProperty, TimestampRangeProperty,
};

verus! {

/// Makes the property that stands for a variable.
fn make_variable<'i, L: TemplateLanguage<'i>>(
    language: &L,
    placeholder: PropertyPlaceholder,
    kind: ItemKind<L::Item>,
) -> (property: L::Property)
    ensures
        property.deep_view() == variable_model(language, placeholder.model(), kind),
{
    match kind {
        ItemKind::String => language.wrap_string(StringProperty::Placeholder(placeholder)),
        ItemKind::Language(item) => language.wrap_item(item, placeholder),
    }
}

/// Builds intermediate expression tree from AST nodes.
pub fn build_expression<'i, L: TemplateLanguage<'i>>(
    language: &L,
    build_ctx: &BuildContext<'i, L::Item>,
    node: &ExpressionNode<'i>,
) -> (expression: TemplateParseResult<'i, Expression<L::Property>>)
    ensures
        result_model(expression) == expression_model(language, build_ctx@, *node),
    decreases node, 0nat,
{
    match &node.kind {
        ExpressionKind::Identifier(name) => {
            if let Some((placeholder, kind)) = build_ctx.get(name) {
                // Don't label a local variable with its name
                Ok(Expression::unlabeled(make_variable(language, placeholder, kind)))
            } else {
                let property = language.build_keyword(name, node.span)?;
                Ok(Expression::with_label(property, name))
            }
        },
        ExpressionKind::Integer(value) => {
            let property = language.wrap_integer(IntegerProperty::Literal(*value));
            Ok(Expression::unlabeled(property))
        },
        ExpressionKind::String(value) => {
            let property = language.wrap_string(StringProperty::Literal(value.clone()));
            Ok(Expression::unlabeled(property))
        },
        ExpressionKind::Concat(nodes) => {
            let templates = expect_template_expressions(language, build_ctx, nodes, 0)?;
            proof {
                lemma_contents_model(templates);
            }
            let property = language.wrap_template(Template::Concat(templates));
            Ok(Expression::unlabeled(property))
        },
        ExpressionKind::FunctionCall(function) => {
            build_global_function(language, build_ctx, function)
        },
        ExpressionKind::MethodCall(method) => build_method_call(language, build_ctx, method),
        ExpressionKind::Lambda(_) => Err(
            TemplateParseError::unexpected_expression("Lambda cannot be defined here", node.span),
        ),
        ExpressionKind::AliasExpanded(id, subst) => {
            match build_expression(language, build_ctx, subst) {
                Ok(expression) => Ok(expression),
                Err(e) => Err(e.within_alias_expansion(*id, node.span)),
            }
        },
    }
}

/// Builds the expression that a method call gives.
pub fn build_method_call<'i, L: TemplateLanguage<'i>>(
    language: &L,
    build_ctx: &BuildContext<'i, L::Item>,
    method: &MethodCallNode<'i>,
) -> (expression: TemplateParseResult<'i, Expression<L::Property>>)
    ensures
        result_model(expression) == method_call_model(language, build_ctx@, *method),
    decreases method, 0nat,
{
    let expression = build_expression(language, build_ctx, &method.object)?;
    let (property, labels) = expression.into_parts();
    let property = language.build_method(build_ctx, property, &method.function)?;
    Ok(Expression::with_more_labels(property, labels, method.function.name))
}

/// Builds the expression that a call of a global function gives.
pub fn build_global_function<'i, L: TemplateLanguage<'i>>(
    language: &L,
    build_ctx: &BuildContext<'i, L::Item>,
    function: &FunctionCallNode<'i>,
) -> (expression: TemplateParseResult<'i, Expression<L::Property>>)
    ensures
        result_model(expression) == (match function_model(language, build_ctx@, *function) {
            Ok(template) => Ok(
                ExpressionModel::unlabeled(language.core_model(CoreModel::Template(template))),
            ),
            Err(e) => Err(e),
        }),
    decreases function, 0nat,
{
    let template = if *function.name == *"fill" {
        expect_exact_arguments(function, 2)?;
        let width = expect_integer_expression(language, build_ctx, &function.args[0])?;
        let content = expect_template_expression(language, build_ctx, &function.args[1])?;
        Template::Fill { width: Box::new(width), content: Box::new(content) }
    } else if *function.name == *"indent" {
        expect_exact_arguments(function, 2)?;
        let prefix = expect_template_expression(language, build_ctx, &function.args[0])?;
        let content = expect_template_expression(language, build_ctx, &function.args[1])?;
        Template::Indent { prefix: Box::new(prefix), content: Box::new(content) }
    } else if *function.name == *"label" {
        expect_exact_arguments(function, 2)?;
        let label = expect_plain_text_expression(language, build_ctx, &function.args[0])?;
        let content = expect_template_expression(language, build_ctx, &function.args[1])?;
        let labels = StringListProperty::OfString(StringListFunction::Words, Box::new(label));
        assert(labels.model() == StringListModel::OfString(
            StringListFunction::Words,
            Box::new(label.model()),
        ));
        Template::Label { content: Box::new(content), labels: Box::new(labels) }
    } else if *function.name == *"if" {
        expect_arguments(function, 2, 3)?;
        let condition = expect_boolean_expression(language, build_ctx, &function.args[0])?;
        let true_template = expect_template_expression(language, build_ctx, &function.args[1])?;
        let false_template = if function.args.len() == 3 {
            let template = expect_template_expression(language, build_ctx, &function.args[2])?;
            Some(Box::new(template))
        } else {
            None
        };
        Template::Conditional {
            condition: Box::new(condition),
            true_template: Box::new(true_template),
            false_template,
        }
    } else if *function.name == *"concat" {
        let contents = expect_template_expressions(language, build_ctx, &function.args, 0)?;
        proof {
            lemma_contents_model(contents);
        }
        Template::Concat(contents)
    } else if *function.name == *"separate" {
        expect_some_arguments(function, 1)?;
        let separator = expect_template_expression(language, build_ctx, &function.args[0])?;
        let contents = expect_template_expressions(language, build_ctx, &function.args, 1)?;
        proof {
            lemma_contents_model(contents);
        }
        Template::Separate { separator: Box::new(separator), contents }
    } else {
        return Err(TemplateParseError::no_such_function(function));
    };
    Ok(Expression::unlabeled(language.wrap_template(template)))
}

pub fn expect_boolean_expression<'i, L: TemplateLanguage<'i>>(
    language: &L,
    build_ctx: &BuildContext<'i, L::Item>,
    node: &ExpressionNode<'i>,
) -> (property: TemplateParseResult<'i, BooleanProperty<L::Keyword>>)
    ensures
        result_model(property) == boolean_model(language, build_ctx@, *node),
    decreases node, 1nat,
{
    match build_expression(language, build_ctx, node)?.try_into_boolean() {
        Some(property) => Ok(property),
        None => Err(TemplateParseError::expected_type("Boolean", node.span)),
    }
}

pub fn expect_integer_expression<'i, L: TemplateLanguage<'i>>(
    language: &L,
    build_ctx: &BuildContext<'i, L::Item>,
    node: &ExpressionNode<'i>,
) -> (property: TemplateParseResult<'i, IntegerProperty<L::Keyword>>)
    ensures
        result_model(property) == integer_model(language, build_ctx@, *node),
    decreases node, 1nat,
{
    match build_expression(language, build_ctx, node)?.try_into_integer() {
        Some(property) => Ok(property),
        None => Err(TemplateParseError::expected_type("Integer", node.span)),
    }
}

pub fn expect_plain_text_expression<'i, L: TemplateLanguage<'i>>(
    language: &L,
    build_ctx: &BuildContext<'i, L::Item>,
    node: &ExpressionNode<'i>,
) -> (property: TemplateParseResult<'i, StringProperty<L::Keyword>>)
    ensures
        result_model(property) == plain_text_model(language, build_ctx@, *node),
    decreases node, 1nat,
{
    // Since any formattable type can be converted to a string property,
    // the expected type is not a String, but a Template.
    match build_expression(language, build_ctx, node)?.try_into_plain_text() {
        Some(property) => Ok(property),
        None => Err(TemplateParseError::expected_type("Template", node.span)),
    }
}

pub fn expect_template_expression<'i, L: TemplateLanguage<'i>>(
    language: &L,
    build_ctx: &BuildContext<'i, L::Item>,
    node: &ExpressionNode<'i>,
) -> (template: TemplateParseResult<'i, Template<L::Keyword>>)
    ensures
        result_model(template) == template_model(language, build_ctx@, *node),
    decreases node, 1nat,
{
    match build_expression(language, build_ctx, node)?.try_into_template() {
        Some(template) => Ok(template),
        None => Err(TemplateParseError::expected_type("Template", node.span)),
    }
}

/// The nodes from index `from` on as templates.
fn expect_template_expressions<'i, L: TemplateLanguage<'i>>(
    language: &L,
    build_ctx: &BuildContext<'i, L::Item>,
    nodes: &Vec<ExpressionNode<'i>>,
    from: usize,
) -> (templates: TemplateParseResult<'i, Vec<Template<L::Keyword>>>)
    requires
        from <= nodes@.len(),
    ensures
        result_model(templates) == templates_model(
            language,
            build_ctx@,
            nodes@,
            from as nat,
            nodes@.len(),
        ),
    decreases nodes, 0nat,
{
    let mut templates: Vec<Template<L::Keyword>> = Vec::new();
    assert(templates.deep_view() =~= Seq::empty());
    for n in from..nodes.len()
        invariant
            from <= nodes@.len(),
            templates_model(language, build_ctx@, nodes@, from as nat, n as nat) == Ok::<
                _,
                TemplateParseError<'i>,
            >(templates.deep_view()),
    {
        proof {
            lemma_first_error(
                language,
                build_ctx@,
                nodes@,
                from as nat,
                (n + 1) as nat,
                nodes@.len(),
            );
        }
        let ghost before = templates;
        let template = expect_template_expression(language, build_ctx, &nodes[n])?;
        templates.push(template);
        assert(templates.deep_view() =~= before.deep_view().push(template.model()));
    }
    Ok(templates)
}

/// Builds the property that calling a method on a property of a basic type gives.
pub fn build_core_method<'i, L: TemplateLanguage<'i>>(
    language: &L,
    build_ctx: &BuildContext<'i, L::Item>,
    property: CoreTemplatePropertyKind<L::Keyword>,
    function: &FunctionCallNode<'i>,
) -> (result: TemplateParseResult<'i, L::Property>)
    ensures
        result_model(result) == wrapped(
            language,
            core_method_model(language, build_ctx@, property.deep_view(), *function),
        ),
{
    match property {
        CoreTemplatePropertyKind::String(property) => {
            build_string_method(language, build_ctx, property, function)
        },
        CoreTemplatePropertyKind::StringList(property) => {
            build_formattable_list_method(
                language,
                build_ctx,
                ListProperty::Strings(property),
                function,
                ItemKind::String,
            )
        },
        CoreTemplatePropertyKind::Boolean(property) => {
            build_boolean_method(language, build_ctx, property, function)
        },
        CoreTemplatePropertyKind::Integer(property) => {
            build_integer_method(language, build_ctx, property, function)
        },
        CoreTemplatePropertyKind::Signature(property) => {
            build_signature_method(language, build_ctx, property, function)
        },
        CoreTemplatePropertyKind::Timestamp(property) => {
            build_timestamp_method(language, build_ctx, property, function)
        },
        CoreTemplatePropertyKind::TimestampRange(property) => {
            build_timestamp_range_method(language, build_ctx, property, function)
        },
        CoreTemplatePropertyKind::Template(_) => {
            Err(TemplateParseError::no_such_method("Template", function))
        },
        CoreTemplatePropertyKind::ListTemplate(template) => {
            build_list_template_method(language, build_ctx, template, function)
        },
    }
}

/// Builds the property that calling a method on a string gives.
pub fn build_string_method<'i, L: TemplateLanguage<'i>>(
    language: &L,
    build_ctx: &BuildContext<'i, L::Item>,
    self_property: StringProperty<L::Keyword>,
    function: &FunctionCallNode<'i>,
) -> (result: TemplateParseResult<'i, L::Property>)
    ensures
        result_model(result) == wrapped(
            language,
            string_method_model(language, build_ctx@, self_property.deep_view(), *function),
        ),
{
    let property = if *function.name == *"contains" {
        expect_exact_arguments(function, 1)?;
        let needle_property = expect_plain_text_expression(
            language,
            build_ctx,
            &function.args[0],
        )?;
        language.wrap_boolean(
            BooleanProperty::Contains(Box::new(self_property), Box::new(needle_property)),
        )
    } else if *function.name == *"first_line" {
        expect_no_arguments(function)?;
        language.wrap_string(
            StringProperty::OfString(StringFunction::FirstLine, Box::new(self_property)),
        )
    } else if *function.name == *"lines" {
        expect_no_arguments(function)?;
        language.wrap_string_list(
            StringListProperty::OfString(StringListFunction::Lines, Box::new(self_property)),
        )
    } else if *function.name == *"upper" {
        expect_no_arguments(function)?;
        language.wrap_string(
            StringProperty::OfString(StringFunction::Upper, Box::new(self_property)),
        )
    } else if *function.name == *"lower" {
        expect_no_arguments(function)?;
        language.wrap_string(
            StringProperty::OfString(StringFunction::Lower, Box::new(self_property)),
        )
    } else {
        return Err(TemplateParseError::no_such_method("String", function));
    };
    Ok(property)
}

/// Booleans have no methods.
pub fn build_boolean_method<'i, L: TemplateLanguage<'i>>(
    _language: &L,
    _build_ctx: &BuildContext<'i, L::Item>,
    _self_property: BooleanProperty<L::Keyword>,
    function: &FunctionCallNode<'i>,
) -> (result: TemplateParseResult<'i, L::Property>)
    ensures
        result == Err::<L::Property, _>(TemplateParseError::no_such_method("Boolean", function)),
{
    Err(TemplateParseError::no_such_method("Boolean", function))
}

/// Integers have no methods.
pub fn build_integer_method<'i, L: TemplateLanguage<'i>>(
    _language: &L,
    _build_ctx: &BuildContext<'i, L::Item>,
    _self_property: IntegerProperty<L::Keyword>,
    function: &FunctionCallNode<'i>,
) -> (result: TemplateParseResult<'i, L::Property>)
    ensures
        result == Err::<L::Property, _>(TemplateParseError::no_such_method("Integer", function)),
{
    Err(TemplateParseError::no_such_method("Integer", function))
}

/// Builds the property that calling a method on a signature gives.
pub fn build_signature_method<'i, L: TemplateLanguage<'i>>(
    language: &L,
    _build_ctx: &BuildContext<'i, L::Item>,
    self_property: SignatureProperty<L::Keyword>,
    function: &FunctionCallNode<'i>,
) -> (result: TemplateParseResult<'i, L::Property>)
    ensures
        result_model(result) == wrapped(
            language,
            signature_method_model(self_property.deep_view(), *function),
        ),
{
    let property = if *function.name == *"name" {
        expect_no_arguments(function)?;
        language.wrap_string(
            StringProperty::OfSignature(SignatureFunction::Name, Box::new(self_property)),
        )
    } else if *function.name == *"email" {
        expect_no_arguments(function)?;
        language.wrap_string(
            StringProperty::OfSignature(SignatureFunction::Email, Box::new(self_property)),
        )
    } else if *function.name == *"username" {
        expect_no_arguments(function)?;
        language.wrap_string(
            StringProperty::OfSignature(SignatureFunction::Username, Box::new(self_property)),
        )
    } else if *function.name == *"timestamp" {
        expect_no_arguments(function)?;
        language.wrap_timestamp(TimestampProperty::OfSignature(Box::new(self_property)))
    } else {
        return Err(TemplateParseError::no_such_method("Signature", function));
    };
    Ok(property)
}

/// Every method name writes the timestamp out in UTC.
pub fn build_timestamp_method<'i, L: TemplateLanguage<'i>>(
    language: &L,
    _build_ctx: &BuildContext<'i, L::Item>,
    self_property: TimestampProperty<L::Keyword>,
    function: &FunctionCallNode<'i>,
) -> (result: TemplateParseResult<'i, L::Property>)
    ensures
        result_model(result) == wrapped(
            language,
            timestamp_method_model(self_property.deep_view(), *function),
        ),
{
    expect_no_arguments(function)?;
    Ok(language.wrap_string(StringProperty::Utc(Box::new(self_property))))
}

/// Builds the property that calling a method on a range of time gives.
pub fn build_timestamp_range_method<'i, L: TemplateLanguage<'i>>(
    language: &L,
    _build_ctx: &BuildContext<'i, L::Item>,
    self_property: TimestampRangeProperty<L::Keyword>,
    function: &FunctionCallNode<'i>,
) -> (result: TemplateParseResult<'i, L::Property>)
    ensures
        result_model(result) == wrapped(
            language,
            timestamp_range_method_model(self_property.deep_view(), *function),
        ),
{
    let property = if *function.name == *"start" {
        expect_no_arguments(function)?;
        language.wrap_timestamp(
            TimestampProperty::OfRange(TimestampRangeFunction::Start, Box::new(self_property)),
        )
    } else if *function.name == *"end" {
        expect_no_arguments(function)?;
        language.wrap_timestamp(
            TimestampProperty::OfRange(TimestampRangeFunction::End, Box::new(self_property)),
        )
    } else if *function.name == *"duration" {
        expect_no_arguments(function)?;
        language.wrap_string(StringProperty::Duration(Box::new(self_property)))
    } else {
        return Err(TemplateParseError::no_such_method("TimestampRange", function));
    };
    Ok(property)
}

/// Builds the property that calling a method on a list template gives.
pub fn build_list_template_method<'i, L: TemplateLanguage<'i>>(
    language: &L,
    build_ctx: &BuildContext<'i, L::Item>,
    self_template: ListTemplate<L::Keyword>,
    function: &FunctionCallNode<'i>,
) -> (result: TemplateParseResult<'i, L::Property>)
    ensures
        result_model(result) == wrapped(
            language,
            list_template_method_model(
                language,
                build_ctx@,
                self_template.deep_view(),
                *function,
            ),
        ),
{
    let property = if *function.name == *"join" {
        expect_exact_arguments(function, 1)?;
        let separator = expect_template_expression(language, build_ctx, &function.args[0])?;
        language.wrap_template(Template::Join(Box::new(self_template), Box::new(separator)))
    } else {
        return Err(TemplateParseError::no_such_method("ListTemplate", function));
    };
    Ok(property)
}

/// Builds method call expression for printable list property.
///
/// `kind` is the type of the items of the list.
pub fn build_formattable_list_method<'i, L: TemplateLanguage<'i>>(
    language: &L,
    build_ctx: &BuildContext<'i, L::Item>,
    self_property: ListProperty<L::Keyword>,
    function: &FunctionCallNode<'i>,
    kind: ItemKind<L::Item>,
) -> (result: TemplateParseResult<'i, L::Property>)
    ensures
        result_model(result) == wrapped(
            language,
            formattable_list_method_model(
                language,
                build_ctx@,
                self_property.deep_view(),
                *function,
                kind,
            ),
        ),
{
    let property = if *function.name == *"join" {
        expect_exact_arguments(function, 1)?;
        let separator = expect_template_expression(language, build_ctx, &function.args[0])?;
        let template = ListPropertyTemplate {
            property: self_property,
            separator: Box::new(separator),
            item: ItemTemplate::Item,
        };
        assert(template.item.model() == ItemTemplateModel::<L::Keyword>::Item);
        assert(template.model() == (ListPropertyTemplateModel {
            property: self_property.model(),
            separator: Box::new(separator.model()),
            item: ItemTemplateModel::Item,
        }));
        language.wrap_template(Template::ListProperty(Box::new(template)))
    } else if *function.name == *"map" {
        build_map_operation(language, build_ctx, self_property, function, kind)?
    } else {
        return Err(TemplateParseError::no_such_method("List", function));
    };
    Ok(property)
}

/// Builds method call expression for a list property whose items cannot be printed.
///
/// `kind` is the type of the items of the list.
pub fn build_unformattable_list_method<'i, L: TemplateLanguage<'i>>(
    language: &L,
    build_ctx: &BuildContext<'i, L::Item>,
    self_property: ListProperty<L::Keyword>,
    function: &FunctionCallNode<'i>,
    kind: ItemKind<L::Item>,
) -> (result: TemplateParseResult<'i, L::Property>)
    ensures
        result_model(result) == wrapped(
            language,
            unformattable_list_method_model(
                language,
                build_ctx@,
                self_property.deep_view(),
                *function,
                kind,
            ),
        ),
{
    // No "join"
    if *function.name == *"map" {
        build_map_operation(language, build_ctx, self_property, function, kind)
    } else {
        Err(TemplateParseError::no_such_method("List", function))
    }
}

/// Builds expression that extracts iterable property and applies template to
/// each item.
pub fn build_map_operation<'i, L: TemplateLanguage<'i>>(
    language: &L,
    build_ctx: &BuildContext<'i, L::Item>,
    self_property: ListProperty<L::Keyword>,
    function: &FunctionCallNode<'i>,
    kind: ItemKind<L::Item>,
) -> (result: TemplateParseResult<'i, L::Property>)
    ensures
        result_model(result) == wrapped(
            language,
            map_model(language, build_ctx@, self_property.deep_view(), *function, kind),
        ),
{
    expect_exact_arguments(function, 1)?;
    let item_template = build_item_template(language, build_ctx, &function.args[0], kind)?;
    let space = StringProperty::Literal(" ".to_owned());
    assert(space.model() == StringModel::<L::Keyword>::Literal(" "@));
    let separator = Template::String(Box::new(space));
    assert(separator.model() == TemplateModel::String(Box::new(space.model())));
    let item = ItemTemplate::Template {
        placeholder: build_ctx.next_placeholder(),
        template: Box::new(item_template),
    };
    assert(item.model() == (ItemTemplateModel::Template {
        placeholder: build_ctx@.len(),
        template: Box::new(item_template.model()),
    }));
    let list_template = ListPropertyTemplate {
        property: self_property,
        separator: Box::new(separator),
        item,
    };
    assert(list_template.model() == (ListPropertyTemplateModel {
        property: self_property.model(),
        separator: Box::new(separator.model()),
        item: item.model(),
    }));
    Ok(language.wrap_list_template(ListTemplate::ListProperty(list_template)))
}

/// Builds the body of the lambda as a template over the item of the list.
fn build_item_template<'i, L: TemplateLanguage<'i>>(
    language: &L,
    build_ctx: &BuildContext<'i, L::Item>,
    node: &ExpressionNode<'i>,
    kind: ItemKind<L::Item>,
) -> (template: TemplateParseResult<'i, Template<L::Keyword>>)
    ensures
        result_model(template) == lambda_model(language, build_ctx@, *node, kind),
    decreases node,
{
    match &node.kind {
        ExpressionKind::Lambda(lambda) => {
            if lambda.params.len() == 1 {
                let build_ctx = build_ctx.with_variable(lambda.params[0], kind);
                expect_template_expression(language, &build_ctx, &lambda.body)
            } else {
                Err(
                    TemplateParseError::unexpected_expression(
                        "Expected 1 lambda parameters",
                        lambda.params_span,
                    ),
                )
            }
        },
        ExpressionKind::AliasExpanded(id, subst) => {
            match build_item_template(language, build_ctx, subst, kind) {
                Ok(template) => Ok(template),
                Err(e) => Err(e.within_alias_expansion(*id, node.span)),
            }
        },
        _ => Err(
            TemplateParseError::unexpected_expression("Expected lambda expression", node.span),
        ),
    }
}

/// Builds template evaluation tree from AST nodes, with fresh build context.
pub fn build<'i, L: TemplateLanguage<'i>>(language: &L, node: &ExpressionNode<'i>) -> (template:
    TemplateParseResult<'i, Template<L::Keyword>>)
    ensures
        result_model(template) == template_model(language, Seq::empty(), *node),
{
    let build_ctx = BuildContext::new();
    expect_template_expression(language, &build_ctx, node)
}

} // verus!
