//! What the functions that build return, in terms of the models of their arguments.

use vstd::prelude::*;

use crate::build_context::{BuildContext, ItemKind};
use crate::build_model::{
    boolean_model, core_method_model, expression_model, formattable_list_method_model,
    function_model, integer_model, map_model, method_call_model, plain_text_model, template_model,
    unformattable_list_method_model,
};
use crate::template_builder::{
    build, build_boolean_method, build_core_method, build_expression, build_formattable_list_method,
    build_global_function, build_integer_method, build_list_template_method, build_map_operation,
    build_method_call, build_signature_method, build_string_method, build_timestamp_method,
    build_timestamp_range_method, build_unformattable_list_method, expect_boolean_expression,
    expect_integer_expression, expect_plain_text_expression, expect_template_expression,
};
use crate::template_language::TemplateLanguage;
use crate::template_parser::{
    ExpressionNode, FunctionCallNode, MethodCallNode, TemplateParseResult,
};
use crate::template_property::{
    CoreModel, CoreTemplatePropertyKind, Expression, IntoTemplateProperty,
};
use crate::templater::{
    strings_model, BooleanModel, BooleanProperty, IntegerProperty, ListProperty, ListTemplate,
    PropertyPlaceholder, SignatureProperty, StringListModel, StringListProperty, StringModel,
    StringProperty, Template, TemplateModel, TimestampProperty, TimestampRangeProperty,
};

verus! {

/// `build_expression` returns the expression of the node, or its error.
pub proof fn build_expression_returns<'i, L: TemplateLanguage<'i>>(
    language: &L,
    build_ctx: &BuildContext<'i, L::Item>,
    node: &ExpressionNode<'i>,
    result: TemplateParseResult<'i, Expression<L::Property>>,
)
    requires
        call_ensures(build_expression::<L>, (language, build_ctx, node), result),
    ensures
        match expression_model(language, build_ctx@, *node) {
            Ok(model) => result matches Ok(value) && value.deep_view() == model,
            Err(e) => result matches Err(error) && error == e,
        },
{
}

/// `build_method_call` returns the expression of the call, or its error.
pub proof fn build_method_call_returns<'i, L: TemplateLanguage<'i>>(
    language: &L,
    build_ctx: &BuildContext<'i, L::Item>,
    method: &MethodCallNode<'i>,
    result: TemplateParseResult<'i, Expression<L::Property>>,
)
    requires
        call_ensures(build_method_call::<L>, (language, build_ctx, method), result),
    ensures
        match method_call_model(language, build_ctx@, *method) {
            Ok(model) => result matches Ok(value) && value.deep_view() == model,
            Err(e) => result matches Err(error) && error == e,
        },
{
}

/// `build_global_function` returns the template of the call without labels, or its error.
pub proof fn build_global_function_returns<'i, L: TemplateLanguage<'i>>(
    language: &L,
    build_ctx: &BuildContext<'i, L::Item>,
    function: &FunctionCallNode<'i>,
    result: TemplateParseResult<'i, Expression<L::Property>>,
)
    requires
        call_ensures(build_global_function::<L>, (language, build_ctx, function), result),
    ensures
        match function_model(language, build_ctx@, *function) {
            Ok(model) => result matches Ok(value) && {
                &&& value.deep_view().property == language.core_model(CoreModel::Template(model))
                &&& value.deep_view().labels.len() == 0
            },
            Err(e) => result matches Err(error) && error == e,
        },
{
}

/// `expect_boolean_expression` returns the node as a boolean, or its error.
pub proof fn expect_boolean_expression_returns<'i, L: TemplateLanguage<'i>>(
    language: &L,
    build_ctx: &BuildContext<'i, L::Item>,
    node: &ExpressionNode<'i>,
    result: TemplateParseResult<'i, BooleanProperty<L::Keyword>>,
)
    requires
        call_ensures(expect_boolean_expression::<L>, (language, build_ctx, node), result),
    ensures
        match boolean_model(language, build_ctx@, *node) {
            Ok(model) => result matches Ok(value) && value.model() == model,
            Err(e) => result matches Err(error) && error == e,
        },
{
}

/// `expect_integer_expression` returns the node as an integer, or its error.
pub proof fn expect_integer_expression_returns<'i, L: TemplateLanguage<'i>>(
    language: &L,
    build_ctx: &BuildContext<'i, L::Item>,
    node: &ExpressionNode<'i>,
    result: TemplateParseResult<'i, IntegerProperty<L::Keyword>>,
)
    requires
        call_ensures(expect_integer_expression::<L>, (language, build_ctx, node), result),
    ensures
        match integer_model(language, build_ctx@, *node) {
            Ok(model) => result matches Ok(value) && value.model() == model,
            Err(e) => result matches Err(error) && error == e,
        },
{
}

/// `expect_plain_text_expression` returns the node as a text, or its error.
pub proof fn expect_plain_text_expression_returns<'i, L: TemplateLanguage<'i>>(
    language: &L,
    build_ctx: &BuildContext<'i, L::Item>,
    node: &ExpressionNode<'i>,
    result: TemplateParseResult<'i, StringProperty<L::Keyword>>,
)
    requires
        call_ensures(expect_plain_text_expression::<L>, (language, build_ctx, node), result),
    ensures
        match plain_text_model(language, build_ctx@, *node) {
            Ok(model) => result matches Ok(value) && value.model() == model,
            Err(e) => result matches Err(error) && error == e,
        },
{
}

/// `expect_template_expression` returns the node as a template, or its error.
pub proof fn expect_template_expression_returns<'i, L: TemplateLanguage<'i>>(
    language: &L,
    build_ctx: &BuildContext<'i, L::Item>,
    node: &ExpressionNode<'i>,
    result: TemplateParseResult<'i, Template<L::Keyword>>,
)
    requires
        call_ensures(expect_template_expression::<L>, (language, build_ctx, node), result),
    ensures
        match template_model(language, build_ctx@, *node) {
            Ok(model) => result matches Ok(value) && value.model() == model,
            Err(e) => result matches Err(error) && error == e,
        },
{
}

/// `build` returns the node as a template where no variable is in scope, or its error.
pub proof fn build_returns<'i, L: TemplateLanguage<'i>>(
    language: &L,
    node: &ExpressionNode<'i>,
    result: TemplateParseResult<'i, Template<L::Keyword>>,
)
    requires
        call_ensures(build::<L>, (language, node), result),
    ensures
        match template_model(language, Seq::empty(), *node) {
            Ok(model) => result matches Ok(value) && value.model() == model,
            Err(e) => result matches Err(error) && error == e,
        },
{
}

/// `build_core_method` returns what the method gives as a property of the language, or its error.
pub proof fn build_core_method_returns<'i, L: TemplateLanguage<'i>>(
    language: &L,
    build_ctx: &BuildContext<'i, L::Item>,
    property: CoreTemplatePropertyKind<L::Keyword>,
    function: &FunctionCallNode<'i>,
    result: TemplateParseResult<'i, L::Property>,
)
    requires
        call_ensures(
            build_core_method::<L>,
            (language, build_ctx, property, function),
            result,
        ),
    ensures
        match core_method_model(language, build_ctx@, property.model(), *function) {
            Ok(model) => result matches Ok(value) && value.deep_view() == language.core_model(
                model,
            ),
            Err(e) => result matches Err(error) && error == e,
        },
{
}

/// `build_string_method` returns what the method of a string gives, or its error.
pub proof fn build_string_method_returns<'i, L: TemplateLanguage<'i>>(
    language: &L,
    build_ctx: &BuildContext<'i, L::Item>,
    property: StringProperty<L::Keyword>,
    function: &FunctionCallNode<'i>,
    result: TemplateParseResult<'i, L::Property>,
)
    requires
        call_ensures(
            build_string_method::<L>,
            (language, build_ctx, property, function),
            result,
        ),
    ensures
        match core_method_model(
            language,
            build_ctx@,
            CoreModel::String(property.model()),
            *function,
        ) {
            Ok(model) => result matches Ok(value) && value.deep_view() == language.core_model(
                model,
            ),
            Err(e) => result matches Err(error) && error == e,
        },
{
}

/// `build_boolean_method` returns what the method of a boolean gives, or its error.
pub proof fn build_boolean_method_returns<'i, L: TemplateLanguage<'i>>(
    language: &L,
    build_ctx: &BuildContext<'i, L::Item>,
    property: BooleanProperty<L::Keyword>,
    function: &FunctionCallNode<'i>,
    result: TemplateParseResult<'i, L::Property>,
)
    requires
        call_ensures(
            build_boolean_method::<L>,
            (language, build_ctx, property, function),
            result,
        ),
    ensures
        match core_method_model(
            language,
            build_ctx@,
            CoreModel::Boolean(property.model()),
            *function,
        ) {
            Ok(model) => result matches Ok(value) && value.deep_view() == language.core_model(
                model,
            ),
            Err(e) => result matches Err(error) && error == e,
        },
{
}

/// `build_integer_method` returns what the method of an integer gives, or its error.
pub proof fn build_integer_method_returns<'i, L: TemplateLanguage<'i>>(
    language: &L,
    build_ctx: &BuildContext<'i, L::Item>,
    property: IntegerProperty<L::Keyword>,
    function: &FunctionCallNode<'i>,
    result: TemplateParseResult<'i, L::Property>,
)
    requires
        call_ensures(
            build_integer_method::<L>,
            (language, build_ctx, property, function),
            result,
        ),
    ensures
        match core_method_model(
            language,
            build_ctx@,
            CoreModel::Integer(property.model()),
            *function,
        ) {
            Ok(model) => result matches Ok(value) && value.deep_view() == language.core_model(
                model,
            ),
            Err(e) => result matches Err(error) && error == e,
        },
{
}

/// `build_signature_method` returns what the method of a signature gives, or its error.
pub proof fn build_signature_method_returns<'i, L: TemplateLanguage<'i>>(
    language: &L,
    build_ctx: &BuildContext<'i, L::Item>,
    property: SignatureProperty<L::Keyword>,
    function: &FunctionCallNode<'i>,
    result: TemplateParseResult<'i, L::Property>,
)
    requires
        call_ensures(
            build_signature_method::<L>,
            (language, build_ctx, property, function),
            result,
        ),
    ensures
        match core_method_model(
            language,
            build_ctx@,
            CoreModel::Signature(property.model()),
            *function,
        ) {
            Ok(model) => result matches Ok(value) && value.deep_view() == language.core_model(
                model,
            ),
            Err(e) => result matches Err(error) && error == e,
        },
{
}

/// `build_timestamp_method` returns what the method of a timestamp gives, or its error.
pub proof fn build_timestamp_method_returns<'i, L: TemplateLanguage<'i>>(
    language: &L,
    build_ctx: &BuildContext<'i, L::Item>,
    property: TimestampProperty<L::Keyword>,
    function: &FunctionCallNode<'i>,
    result: TemplateParseResult<'i, L::Property>,
)
    requires
        call_ensures(
            build_timestamp_method::<L>,
            (language, build_ctx, property, function),
            result,
        ),
    ensures
        match core_method_model(
            language,
            build_ctx@,
            CoreModel::Timestamp(property.model()),
            *function,
        ) {
            Ok(model) => result matches Ok(value) && value.deep_view() == language.core_model(
                model,
            ),
            Err(e) => result matches Err(error) && error == e,
        },
{
}

/// `build_timestamp_range_method` returns what the method of a range of time gives, or its error.
pub proof fn build_timestamp_range_method_returns<'i, L: TemplateLanguage<'i>>(
    language: &L,
    build_ctx: &BuildContext<'i, L::Item>,
    property: TimestampRangeProperty<L::Keyword>,
    function: &FunctionCallNode<'i>,
    result: TemplateParseResult<'i, L::Property>,
)
    requires
        call_ensures(
            build_timestamp_range_method::<L>,
            (language, build_ctx, property, function),
            result,
        ),
    ensures
        match core_method_model(
            language,
            build_ctx@,
            CoreModel::TimestampRange(property.model()),
            *function,
        ) {
            Ok(model) => result matches Ok(value) && value.deep_view() == language.core_model(
                model,
            ),
            Err(e) => result matches Err(error) && error == e,
        },
{
}

/// `build_list_template_method` returns what the method of a list template gives, or its error.
pub proof fn build_list_template_method_returns<'i, L: TemplateLanguage<'i>>(
    language: &L,
    build_ctx: &BuildContext<'i, L::Item>,
    property: ListTemplate<L::Keyword>,
    function: &FunctionCallNode<'i>,
    result: TemplateParseResult<'i, L::Property>,
)
    requires
        call_ensures(
            build_list_template_method::<L>,
            (language, build_ctx, property, function),
            result,
        ),
    ensures
        match core_method_model(
            language,
            build_ctx@,
            CoreModel::ListTemplate(property.model()),
            *function,
        ) {
            Ok(model) => result matches Ok(value) && value.deep_view() == language.core_model(
                model,
            ),
            Err(e) => result matches Err(error) && error == e,
        },
{
}

/// `build_formattable_list_method` returns what the method of a printable list gives, or its error.
pub proof fn build_formattable_list_method_returns<'i, L: TemplateLanguage<'i>>(
    language: &L,
    build_ctx: &BuildContext<'i, L::Item>,
    property: ListProperty<L::Keyword>,
    function: &FunctionCallNode<'i>,
    kind: ItemKind<L::Item>,
    result: TemplateParseResult<'i, L::Property>,
)
    requires
        call_ensures(
            build_formattable_list_method::<L>,
            (language, build_ctx, property, function, kind),
            result,
        ),
    ensures
        match formattable_list_method_model(
            language,
            build_ctx@,
            property.model(),
            *function,
            kind,
        ) {
            Ok(model) => result matches Ok(value) && value.deep_view() == language.core_model(
                model,
            ),
            Err(e) => result matches Err(error) && error == e,
        },
{
}

/// `build_unformattable_list_method` returns what the method of a list that is not printable gives,
/// or its error.
pub proof fn build_unformattable_list_method_returns<'i, L: TemplateLanguage<'i>>(
    language: &L,
    build_ctx: &BuildContext<'i, L::Item>,
    property: ListProperty<L::Keyword>,
    function: &FunctionCallNode<'i>,
    kind: ItemKind<L::Item>,
    result: TemplateParseResult<'i, L::Property>,
)
    requires
        call_ensures(
            build_unformattable_list_method::<L>,
            (language, build_ctx, property, function, kind),
            result,
        ),
    ensures
        match unformattable_list_method_model(
            language,
            build_ctx@,
            property.model(),
            *function,
            kind,
        ) {
            Ok(model) => result matches Ok(value) && value.deep_view() == language.core_model(
                model,
            ),
            Err(e) => result matches Err(error) && error == e,
        },
{
}

/// `build_map_operation` returns what `map` gives, or its error.
pub proof fn build_map_operation_returns<'i, L: TemplateLanguage<'i>>(
    language: &L,
    build_ctx: &BuildContext<'i, L::Item>,
    property: ListProperty<L::Keyword>,
    function: &FunctionCallNode<'i>,
    kind: ItemKind<L::Item>,
    result: TemplateParseResult<'i, L::Property>,
)
    requires
        call_ensures(
            build_map_operation::<L>,
            (language, build_ctx, property, function, kind),
            result,
        ),
    ensures
        match map_model(
            language,
            build_ctx@,
            property.model(),
            *function,
            kind,
        ) {
            Ok(model) => result matches Ok(value) && value.deep_view() == language.core_model(
                model,
            ),
            Err(e) => result matches Err(error) && error == e,
        },
{
}

/// A new context has no variables.
pub proof fn new_contexts_are_empty<'i, T: Copy>(build_ctx: BuildContext<'i, T>)
    requires
        call_ensures(BuildContext::<'i, T>::new, (), build_ctx),
    ensures
        build_ctx@.len() == 0,
{
}

/// `wrap_string` makes the property, as it is, a property of the language.
pub proof fn wrap_string_keeps_the_property<'i, L: TemplateLanguage<'i>>(
    language: &L,
    property: StringProperty<L::Keyword>,
    wrapped: L::Property,
)
    requires
        call_ensures(L::wrap_string, (language, property), wrapped),
    ensures
        wrapped.deep_view() == language.core_model(CoreModel::String(property.model())),
{
}

/// `wrap_string_list` makes the property, as it is, a property of the language.
pub proof fn wrap_string_list_keeps_the_property<'i, L: TemplateLanguage<'i>>(
    language: &L,
    property: StringListProperty<L::Keyword>,
    wrapped: L::Property,
)
    requires
        call_ensures(L::wrap_string_list, (language, property), wrapped),
    ensures
        wrapped.deep_view() == language.core_model(CoreModel::StringList(property.model())),
{
}

/// `wrap_boolean` makes the property, as it is, a property of the language.
pub proof fn wrap_boolean_keeps_the_property<'i, L: TemplateLanguage<'i>>(
    language: &L,
    property: BooleanProperty<L::Keyword>,
    wrapped: L::Property,
)
    requires
        call_ensures(L::wrap_boolean, (language, property), wrapped),
    ensures
        wrapped.deep_view() == language.core_model(CoreModel::Boolean(property.model())),
{
}

/// `wrap_integer` makes the property, as it is, a property of the language.
pub proof fn wrap_integer_keeps_the_property<'i, L: TemplateLanguage<'i>>(
    language: &L,
    property: IntegerProperty<L::Keyword>,
    wrapped: L::Property,
)
    requires
        call_ensures(L::wrap_integer, (language, property), wrapped),
    ensures
        wrapped.deep_view() == language.core_model(CoreModel::Integer(property.model())),
{
}

/// `wrap_signature` makes the property, as it is, a property of the language.
pub proof fn wrap_signature_keeps_the_property<'i, L: TemplateLanguage<'i>>(
    language: &L,
    property: SignatureProperty<L::Keyword>,
    wrapped: L::Property,
)
    requires
        call_ensures(L::wrap_signature, (language, property), wrapped),
    ensures
        wrapped.deep_view() == language.core_model(CoreModel::Signature(property.model())),
{
}

/// `wrap_timestamp` makes the property, as it is, a property of the language.
pub proof fn wrap_timestamp_keeps_the_property<'i, L: TemplateLanguage<'i>>(
    language: &L,
    property: TimestampProperty<L::Keyword>,
    wrapped: L::Property,
)
    requires
        call_ensures(L::wrap_timestamp, (language, property), wrapped),
    ensures
        wrapped.deep_view() == language.core_model(CoreModel::Timestamp(property.model())),
{
}

/// `wrap_timestamp_range` makes the property, as it is, a property of the language.
pub proof fn wrap_timestamp_range_keeps_the_property<'i, L: TemplateLanguage<'i>>(
    language: &L,
    property: TimestampRangeProperty<L::Keyword>,
    wrapped: L::Property,
)
    requires
        call_ensures(L::wrap_timestamp_range, (language, property), wrapped),
    ensures
        wrapped.deep_view() == language.core_model(CoreModel::TimestampRange(property.model())),
{
}

/// `wrap_template` makes the property, as it is, a property of the language.
pub proof fn wrap_template_keeps_the_property<'i, L: TemplateLanguage<'i>>(
    language: &L,
    property: Template<L::Keyword>,
    wrapped: L::Property,
)
    requires
        call_ensures(L::wrap_template, (language, property), wrapped),
    ensures
        wrapped.deep_view() == language.core_model(CoreModel::Template(property.model())),
{
}

/// `wrap_list_template` makes the property, as it is, a property of the language.
pub proof fn wrap_list_template_keeps_the_property<'i, L: TemplateLanguage<'i>>(
    language: &L,
    property: ListTemplate<L::Keyword>,
    wrapped: L::Property,
)
    requires
        call_ensures(L::wrap_list_template, (language, property), wrapped),
    ensures
        wrapped.deep_view() == language.core_model(CoreModel::ListTemplate(property.model())),
{
}

/// `wrap_core` makes the property, as it is, a property of the language.
pub proof fn wrap_core_keeps_the_property<'i, L: TemplateLanguage<'i>>(
    language: &L,
    property: CoreTemplatePropertyKind<L::Keyword>,
    wrapped: L::Property,
)
    requires
        call_ensures(L::wrap_core, (language, property), wrapped),
    ensures
        wrapped.deep_view() == language.core_model(property.model()),
{
}

/// `wrap_item` makes the placeholder, as it is, a property of the language.
pub proof fn wrap_item_keeps_the_placeholder<'i, L: TemplateLanguage<'i>>(
    language: &L,
    item: L::Item,
    placeholder: PropertyPlaceholder,
    wrapped: L::Property,
)
    requires
        call_ensures(L::wrap_item, (language, item, placeholder), wrapped),
    ensures
        wrapped.deep_view() == language.item_model(item, placeholder.level as nat),
{
}

/// An expression keeps the property and the labels that it is made from, in order, and gives them
/// back.
pub proof fn expressions_keep_their_parts<P: DeepView>(
    property: P,
    labels: Vec<String>,
    label: &str,
    expression: Expression<P>,
    parts: (P, Vec<String>),
)
    ensures
        call_ensures(Expression::<P>::unlabeled, (property,), expression) ==> {
            &&& expression.deep_view().property == property.deep_view()
            &&& expression.deep_view().labels.len() == 0
        },
        call_ensures(Expression::<P>::with_label, (property, label), expression) ==> {
            &&& expression.deep_view().property == property.deep_view()
            &&& expression.deep_view().labels == seq![label@]
        },
        call_ensures(
            Expression::<P>::with_more_labels,
            (property, labels, label),
            expression,
        ) ==> {
            &&& expression.deep_view().property == property.deep_view()
            &&& expression.deep_view().labels == labels.deep_view() + seq![label@]
        },
        call_ensures(Expression::<P>::into_parts, (expression,), parts) ==> {
            &&& expression.deep_view().property == parts.0.deep_view()
            &&& expression.deep_view().labels == parts.1.deep_view()
        },
{
    assert(strings_model(labels@) =~= labels.deep_view());
    assert(strings_model(parts.1@) =~= parts.1.deep_view());
    assert(labels.deep_view().push(label@) =~= labels.deep_view() + seq![label@]);
}

/// An expression converts as its property does. Only as a template it has its labels, around the
/// whole of what the property renders to.
pub proof fn expressions_convert_as_their_property<K, P: IntoTemplateProperty<K>>(
    expression: Expression<P>,
    boolean: Option<BooleanProperty<K>>,
    integer: Option<IntegerProperty<K>>,
    text: Option<StringProperty<K>>,
    template: Option<Template<K>>,
)
    ensures
        call_ensures(Expression::<P>::try_into_boolean::<K>, (expression,), boolean)
            ==> boolean.deep_view() == P::boolean_model(expression.deep_view().property),
        call_ensures(Expression::<P>::try_into_integer::<K>, (expression,), integer)
            ==> integer.deep_view() == P::integer_model(expression.deep_view().property),
        call_ensures(Expression::<P>::try_into_plain_text::<K>, (expression,), text)
            ==> text.deep_view() == P::plain_text_model(expression.deep_view().property),
        call_ensures(Expression::<P>::try_into_template::<K>, (expression,), template) ==> match (
            P::template_model(expression.deep_view().property),
            template,
        ) {
            (Some(content), Some(t)) => t.model() == (if expression.deep_view().labels.len() == 0 {
                content
            } else {
                TemplateModel::Label {
                    content: Box::new(content),
                    labels: Box::new(StringListModel::Literal(expression.deep_view().labels)),
                }
            }),
            (content, t) => content is None && t is None,
        },
{
}

/// What a property of a basic type converts to: a boolean to itself, a string to the condition that
/// it is not empty, an integer to itself, a string to itself as text, everything to the template of
/// its type, and everything else to the text of that template.
pub proof fn basic_properties_convert_as_they_are<K>(
    property: CoreTemplatePropertyKind<K>,
    boolean: Option<BooleanProperty<K>>,
    integer: Option<IntegerProperty<K>>,
    text: Option<StringProperty<K>>,
    template: Option<Template<K>>,
)
    ensures
        call_ensures(CoreTemplatePropertyKind::<K>::try_into_boolean, (property,), boolean)
            ==> match property {
            CoreTemplatePropertyKind::Boolean(p) => boolean matches Some(b) && b.model()
                == p.model(),
            CoreTemplatePropertyKind::String(p) => boolean matches Some(b) && b.model()
                == BooleanModel::NotEmpty(Box::new(p.model())),
            _ => boolean is None,
        },
        call_ensures(CoreTemplatePropertyKind::<K>::try_into_integer, (property,), integer)
            ==> match property {
            CoreTemplatePropertyKind::Integer(p) => integer matches Some(i) && i.model()
                == p.model(),
            _ => integer is None,
        },
        call_ensures(CoreTemplatePropertyKind::<K>::try_into_template, (property,), template) ==> (
        template matches Some(t) && t.model() == (match property {
            CoreTemplatePropertyKind::String(p) => TemplateModel::String(Box::new(p.model())),
            CoreTemplatePropertyKind::StringList(p) => TemplateModel::StringList(
                Box::new(p.model()),
            ),
            CoreTemplatePropertyKind::Boolean(p) => TemplateModel::Boolean(Box::new(p.model())),
            CoreTemplatePropertyKind::Integer(p) => TemplateModel::Integer(Box::new(p.model())),
            CoreTemplatePropertyKind::Signature(p) => TemplateModel::Signature(Box::new(p.model())),
            CoreTemplatePropertyKind::Timestamp(p) => TemplateModel::Timestamp(Box::new(p.model())),
            CoreTemplatePropertyKind::TimestampRange(p) => TemplateModel::TimestampRange(
                Box::new(p.model()),
            ),
            CoreTemplatePropertyKind::Template(t) => t.model(),
            CoreTemplatePropertyKind::ListTemplate(t) => TemplateModel::List(Box::new(t.model())),
        })),
        call_ensures(CoreTemplatePropertyKind::<K>::try_into_plain_text, (property,), text) ==> (
        text matches Some(s) && s.model() == (match property {
            CoreTemplatePropertyKind::String(p) => p.model(),
            _ => StringModel::PlainText(
                Box::new(CoreTemplatePropertyKind::<K>::template_model(property.model())->0),
            ),
        })),
{
}

} // verus!
