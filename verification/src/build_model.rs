//! What building makes of an expression, stated over models.

use vstd::prelude::*;

use crate::build_context::{lookup, ItemKind, Variables};
use crate::template_function::{
    SignatureFunction, StringFunction, StringListFunction, TimestampRangeFunction,
};
use crate::template_language::{PropertyModel, TemplateLanguage};
use crate::template_parser::{
    expect_arguments, expect_exact_arguments, expect_no_arguments, expect_some_arguments,
    ExpressionKind, ExpressionNode, FunctionCallNode, MethodCallNode, TemplateParseError,
    TemplateParseResult,
};
use crate::template_property::{CoreModel, ExpressionModel, IntoTemplateProperty};
use crate::templater::{
    BooleanModel, IntegerModel, ItemTemplateModel, ListModel, ListPropertyTemplateModel,
    ListTemplateModel, SignatureModel, StringListModel, StringModel, TemplateModel,
    TimestampModel, TimestampRangeModel,
};

verus! {

/// The property that stands for a variable.
pub open spec fn variable_model<'i, L: TemplateLanguage<'i>>(
    language: &L,
    level: nat,
    kind: ItemKind<L::Item>,
) -> PropertyModel<'i, L> {
    match kind {
        ItemKind::String => language.core_model(CoreModel::String(StringModel::Placeholder(level))),
        ItemKind::Language(item) => language.item_model(item, level),
    }
}

/// The expression that `build_expression` gives for a node.
pub open spec fn expression_model<'i, L: TemplateLanguage<'i>>(
    language: &L,
    variables: Variables<L::Item>,
    node: ExpressionNode<'i>,
) -> TemplateParseResult<'i, ExpressionModel<PropertyModel<'i, L>>>
    decreases node, 0nat,
{
    match node.kind {
        ExpressionKind::Identifier(name) => match lookup(variables, name@) {
            Some((level, kind)) => Ok(
                ExpressionModel::unlabeled(variable_model(language, level, kind)),
            ),
            None => match language.keyword_model(name, node.span) {
                Ok(property) => Ok(ExpressionModel { property, labels: seq![name@] }),
                Err(e) => Err(e),
            },
        },
        ExpressionKind::Integer(value) => Ok(
            ExpressionModel::unlabeled(
                language.core_model(CoreModel::Integer(IntegerModel::Literal(value))),
            ),
        ),
        ExpressionKind::String(value) => Ok(
            ExpressionModel::unlabeled(
                language.core_model(CoreModel::String(StringModel::Literal(value@))),
            ),
        ),
        ExpressionKind::Concat(nodes) => match templates_model(
            language,
            variables,
            nodes@,
            0,
            nodes@.len(),
        ) {
            Ok(contents) => Ok(
                ExpressionModel::unlabeled(
                    language.core_model(CoreModel::Template(TemplateModel::Concat(contents))),
                ),
            ),
            Err(e) => Err(e),
        },
        ExpressionKind::FunctionCall(function) => match function_model(
            language,
            variables,
            function,
        ) {
            Ok(template) => Ok(
                ExpressionModel::unlabeled(language.core_model(CoreModel::Template(template))),
            ),
            Err(e) => Err(e),
        },
        ExpressionKind::MethodCall(method) => method_call_model(language, variables, method),
        ExpressionKind::Lambda(_) => Err(
            TemplateParseError::unexpected_expression("Lambda cannot be defined here", node.span),
        ),
        ExpressionKind::AliasExpanded(id, subst) => match expression_model(
            language,
            variables,
            *subst,
        ) {
            Ok(expression) => Ok(expression),
            Err(e) => Err(e.within_alias_expansion(id, node.span)),
        },
    }
}

/// The expression that a method call gives: what the method makes of the object's property, with
/// the name of the method as one more label.
pub open spec fn method_call_model<'i, L: TemplateLanguage<'i>>(
    language: &L,
    variables: Variables<L::Item>,
    method: MethodCallNode<'i>,
) -> TemplateParseResult<'i, ExpressionModel<PropertyModel<'i, L>>>
    decreases method, 0nat,
{
    match expression_model(language, variables, *method.object) {
        Ok(object) => match language.method_model(variables, object.property, method.function) {
            Ok(property) => Ok(
                ExpressionModel { property, labels: object.labels.push(method.function.name@) },
            ),
            Err(e) => Err(e),
        },
        Err(e) => Err(e),
    }
}

/// The node as a boolean.
pub open spec fn boolean_model<'i, L: TemplateLanguage<'i>>(
    language: &L,
    variables: Variables<L::Item>,
    node: ExpressionNode<'i>,
) -> TemplateParseResult<'i, BooleanModel<L::Keyword>>
    decreases node, 1nat,
{
    match expression_model(language, variables, node) {
        Ok(expression) => match L::Property::boolean_model(expression.property) {
            Some(property) => Ok(property),
            None => Err(TemplateParseError::expected_type("Boolean", node.span)),
        },
        Err(e) => Err(e),
    }
}

/// The node as an integer.
pub open spec fn integer_model<'i, L: TemplateLanguage<'i>>(
    language: &L,
    variables: Variables<L::Item>,
    node: ExpressionNode<'i>,
) -> TemplateParseResult<'i, IntegerModel<L::Keyword>>
    decreases node, 1nat,
{
    match expression_model(language, variables, node) {
        Ok(expression) => match L::Property::integer_model(expression.property) {
            Some(property) => Ok(property),
            None => Err(TemplateParseError::expected_type("Integer", node.span)),
        },
        Err(e) => Err(e),
    }
}

/// The node as plain text.
pub open spec fn plain_text_model<'i, L: TemplateLanguage<'i>>(
    language: &L,
    variables: Variables<L::Item>,
    node: ExpressionNode<'i>,
) -> TemplateParseResult<'i, StringModel<L::Keyword>>
    decreases node, 1nat,
{
    match expression_model(language, variables, node) {
        Ok(expression) => match L::Property::plain_text_model(expression.property) {
            Some(property) => Ok(property),
            None => Err(TemplateParseError::expected_type("Template", node.span)),
        },
        Err(e) => Err(e),
    }
}

/// The node as a template.
pub open spec fn template_model<'i, L: TemplateLanguage<'i>>(
    language: &L,
    variables: Variables<L::Item>,
    node: ExpressionNode<'i>,
) -> TemplateParseResult<'i, TemplateModel<L::Keyword>>
    decreases node, 1nat,
{
    match expression_model(language, variables, node) {
        Ok(expression) => match expression.to_template::<L::Keyword, L::Property>() {
            Some(template) => Ok(template),
            None => Err(TemplateParseError::expected_type("Template", node.span)),
        },
        Err(e) => Err(e),
    }
}

/// The nodes from index `from` up to `to` as templates, or the error of the first that fails.
pub open spec fn templates_model<'i, L: TemplateLanguage<'i>>(
    language: &L,
    variables: Variables<L::Item>,
    nodes: Seq<ExpressionNode<'i>>,
    from: nat,
    to: nat,
) -> TemplateParseResult<'i, Seq<TemplateModel<L::Keyword>>>
    decreases nodes, to,
{
    if from >= to || to > nodes.len() {
        Ok(Seq::empty())
    } else {
        match templates_model(language, variables, nodes, from, (to - 1) as nat) {
            Ok(templates) => match template_model(language, variables, nodes[to - 1]) {
                Ok(template) => Ok(templates.push(template)),
                Err(e) => Err(e),
            },
            Err(e) => Err(e),
        }
    }
}

/// Where some of the nodes fail, more nodes fail with the same error.
pub proof fn lemma_first_error<'i, L: TemplateLanguage<'i>>(
    language: &L,
    variables: Variables<L::Item>,
    nodes: Seq<ExpressionNode<'i>>,
    from: nat,
    part: nat,
    to: nat,
)
    requires
        part <= to <= nodes.len(),
    ensures
        templates_model(language, variables, nodes, from, part) matches Err(e) ==> templates_model(
            language,
            variables,
            nodes,
            from,
            to,
        ) == Err::<Seq<TemplateModel<L::Keyword>>, TemplateParseError<'i>>(e),
    decreases to - part,
{
    if part < to {
        lemma_first_error(language, variables, nodes, from, part, (to - 1) as nat);
    }
}

/// The template that a call of a global function gives.
pub open spec fn function_model<'i, L: TemplateLanguage<'i>>(
    language: &L,
    variables: Variables<L::Item>,
    function: FunctionCallNode<'i>,
) -> TemplateParseResult<'i, TemplateModel<L::Keyword>>
    decreases function, 0nat,
{
    let args = function.args@;
    if function.name@ == "fill"@ {
        match expect_exact_arguments(&function, 2) {
            Err(e) => Err(e),
            Ok(_) => match integer_model(language, variables, args[0]) {
                Err(e) => Err(e),
                Ok(width) => match template_model(language, variables, args[1]) {
                    Err(e) => Err(e),
                    Ok(content) => Ok(
                        TemplateModel::Fill { width: Box::new(width), content: Box::new(content) },
                    ),
                },
            },
        }
    } else if function.name@ == "indent"@ {
        match expect_exact_arguments(&function, 2) {
            Err(e) => Err(e),
            Ok(_) => match template_model(language, variables, args[0]) {
                Err(e) => Err(e),
                Ok(prefix) => match template_model(language, variables, args[1]) {
                    Err(e) => Err(e),
                    Ok(content) => Ok(
                        TemplateModel::Indent {
                            prefix: Box::new(prefix),
                            content: Box::new(content),
                        },
                    ),
                },
            },
        }
    } else if function.name@ == "label"@ {
        match expect_exact_arguments(&function, 2) {
            Err(e) => Err(e),
            Ok(_) => match plain_text_model(language, variables, args[0]) {
                Err(e) => Err(e),
                Ok(label) => match template_model(language, variables, args[1]) {
                    Err(e) => Err(e),
                    Ok(content) => Ok(
                        TemplateModel::Label {
                            content: Box::new(content),
                            labels: Box::new(
                                StringListModel::OfString(
                                    StringListFunction::Words,
                                    Box::new(label),
                                ),
                            ),
                        },
                    ),
                },
            },
        }
    } else if function.name@ == "if"@ {
        match expect_arguments(&function, 2, 3) {
            Err(e) => Err(e),
            Ok(_) => match boolean_model(language, variables, args[0]) {
                Err(e) => Err(e),
                Ok(condition) => match template_model(language, variables, args[1]) {
                    Err(e) => Err(e),
                    Ok(true_template) => if args.len() == 2 {
                        Ok(
                            TemplateModel::Conditional {
                                condition: Box::new(condition),
                                true_template: Box::new(true_template),
                                false_template: None,
                            },
                        )
                    } else {
                        match template_model(language, variables, args[2]) {
                            Err(e) => Err(e),
                            Ok(false_template) => Ok(
                                TemplateModel::Conditional {
                                    condition: Box::new(condition),
                                    true_template: Box::new(true_template),
                                    false_template: Some(Box::new(false_template)),
                                },
                            ),
                        }
                    },
                },
            },
        }
    } else if function.name@ == "concat"@ {
        match templates_model(language, variables, args, 0, args.len()) {
            Err(e) => Err(e),
            Ok(contents) => Ok(TemplateModel::Concat(contents)),
        }
    } else if function.name@ == "separate"@ {
        match expect_some_arguments(&function, 1) {
            Err(e) => Err(e),
            Ok(_) => match template_model(language, variables, args[0]) {
                Err(e) => Err(e),
                Ok(separator) => match templates_model(language, variables, args, 1, args.len()) {
                    Err(e) => Err(e),
                    Ok(contents) => Ok(
                        TemplateModel::Separate { separator: Box::new(separator), contents },
                    ),
                },
            },
        }
    } else {
        Err(TemplateParseError::no_such_function(&function))
    }
}

/// The body of a lambda with one parameter as a template, in which the parameter stands for the
/// items of the list.
///
/// An alias may stand for the lambda. An error is then seen from where the alias was written.
pub open spec fn lambda_model<'i, L: TemplateLanguage<'i>>(
    language: &L,
    variables: Variables<L::Item>,
    node: ExpressionNode<'i>,
    kind: ItemKind<L::Item>,
) -> TemplateParseResult<'i, TemplateModel<L::Keyword>>
    decreases node,
{
    match node.kind {
        ExpressionKind::Lambda(lambda) => if lambda.params@.len() == 1 {
            template_model(language, variables.push((lambda.params@[0]@, kind)), *lambda.body)
        } else {
            Err(
                TemplateParseError::unexpected_expression(
                    "Expected 1 lambda parameters",
                    lambda.params_span,
                ),
            )
        },
        ExpressionKind::AliasExpanded(id, subst) => match lambda_model(
            language,
            variables,
            *subst,
            kind,
        ) {
            Ok(template) => Ok(template),
            Err(e) => Err(e.within_alias_expansion(id, node.span)),
        },
        _ => Err(
            TemplateParseError::unexpected_expression("Expected lambda expression", node.span),
        ),
    }
}

/// The list template that renders each item of `property` as the body of the lambda says, with a
/// space between the items.
pub open spec fn map_model<'i, L: TemplateLanguage<'i>>(
    language: &L,
    variables: Variables<L::Item>,
    property: ListModel<L::Keyword>,
    function: FunctionCallNode<'i>,
    kind: ItemKind<L::Item>,
) -> TemplateParseResult<'i, CoreModel<L::Keyword>> {
    match expect_exact_arguments(&function, 1) {
        Err(e) => Err(e),
        Ok(_) => match lambda_model(language, variables, function.args@[0], kind) {
            Err(e) => Err(e),
            Ok(template) => {
                let space = TemplateModel::String(Box::new(StringModel::Literal(" "@)));
                let item = ItemTemplateModel::Template {
                    placeholder: variables.len(),
                    template: Box::new(template),
                };
                Ok(
                    CoreModel::ListTemplate(
                        ListTemplateModel::ListProperty(
                            ListPropertyTemplateModel {
                                property,
                                separator: Box::new(space),
                                item,
                            },
                        ),
                    ),
                )
            },
        },
    }
}

/// What a method of a list with printable items gives: `join` or `map`.
pub open spec fn formattable_list_method_model<'i, L: TemplateLanguage<'i>>(
    language: &L,
    variables: Variables<L::Item>,
    property: ListModel<L::Keyword>,
    function: FunctionCallNode<'i>,
    kind: ItemKind<L::Item>,
) -> TemplateParseResult<'i, CoreModel<L::Keyword>> {
    if function.name@ == "join"@ {
        match expect_exact_arguments(&function, 1) {
            Err(e) => Err(e),
            Ok(_) => match template_model(language, variables, function.args@[0]) {
                Err(e) => Err(e),
                Ok(separator) => {
                    let list = ListPropertyTemplateModel {
                        property,
                        separator: Box::new(separator),
                        item: ItemTemplateModel::Item,
                    };
                    Ok(CoreModel::Template(TemplateModel::ListProperty(Box::new(list))))
                },
            },
        }
    } else if function.name@ == "map"@ {
        map_model(language, variables, property, function, kind)
    } else {
        Err(TemplateParseError::no_such_method("List", &function))
    }
}

/// What a method of a list whose items cannot be printed gives: `map`.
pub open spec fn unformattable_list_method_model<'i, L: TemplateLanguage<'i>>(
    language: &L,
    variables: Variables<L::Item>,
    property: ListModel<L::Keyword>,
    function: FunctionCallNode<'i>,
    kind: ItemKind<L::Item>,
) -> TemplateParseResult<'i, CoreModel<L::Keyword>> {
    if function.name@ == "map"@ {
        map_model(language, variables, property, function, kind)
    } else {
        Err(TemplateParseError::no_such_method("List", &function))
    }
}

/// What a method of a list template gives: `join`.
pub open spec fn list_template_method_model<'i, L: TemplateLanguage<'i>>(
    language: &L,
    variables: Variables<L::Item>,
    template: ListTemplateModel<L::Keyword>,
    function: FunctionCallNode<'i>,
) -> TemplateParseResult<'i, CoreModel<L::Keyword>> {
    if function.name@ == "join"@ {
        match expect_exact_arguments(&function, 1) {
            Err(e) => Err(e),
            Ok(_) => match template_model(language, variables, function.args@[0]) {
                Err(e) => Err(e),
                Ok(separator) => Ok(
                    CoreModel::Template(
                        TemplateModel::Join(Box::new(template), Box::new(separator)),
                    ),
                ),
            },
        }
    } else {
        Err(TemplateParseError::no_such_method("ListTemplate", &function))
    }
}

/// The value, if the function is called without arguments.
pub open spec fn without_arguments<'i, T>(function: FunctionCallNode<'i>, value: T) ->
    TemplateParseResult<'i, T> {
    match expect_no_arguments(&function) {
        Ok(_) => Ok(value),
        Err(e) => Err(e),
    }
}

/// What a method of a string gives.
pub open spec fn string_method_model<'i, L: TemplateLanguage<'i>>(
    language: &L,
    variables: Variables<L::Item>,
    property: StringModel<L::Keyword>,
    function: FunctionCallNode<'i>,
) -> TemplateParseResult<'i, CoreModel<L::Keyword>> {
    if function.name@ == "contains"@ {
        match expect_exact_arguments(&function, 1) {
            Err(e) => Err(e),
            Ok(_) => match plain_text_model(language, variables, function.args@[0]) {
                Err(e) => Err(e),
                Ok(needle) => Ok(
                    CoreModel::Boolean(
                        BooleanModel::Contains(Box::new(property), Box::new(needle)),
                    ),
                ),
            },
        }
    } else if function.name@ == "first_line"@ {
        without_arguments(
            function,
            CoreModel::String(StringModel::OfString(StringFunction::FirstLine, Box::new(property))),
        )
    } else if function.name@ == "lines"@ {
        without_arguments(
            function,
            CoreModel::StringList(
                StringListModel::OfString(StringListFunction::Lines, Box::new(property)),
            ),
        )
    } else if function.name@ == "upper"@ {
        without_arguments(
            function,
            CoreModel::String(StringModel::OfString(StringFunction::Upper, Box::new(property))),
        )
    } else if function.name@ == "lower"@ {
        without_arguments(
            function,
            CoreModel::String(StringModel::OfString(StringFunction::Lower, Box::new(property))),
        )
    } else {
        Err(TemplateParseError::no_such_method("String", &function))
    }
}

/// What a method of a signature gives.
pub open spec fn signature_method_model<'i, K>(
    property: SignatureModel<K>,
    function: FunctionCallNode<'i>,
) -> TemplateParseResult<'i, CoreModel<K>> {
    if function.name@ == "name"@ {
        without_arguments(
            function,
            CoreModel::String(
                StringModel::OfSignature(SignatureFunction::Name, Box::new(property)),
            ),
        )
    } else if function.name@ == "email"@ {
        without_arguments(
            function,
            CoreModel::String(
                StringModel::OfSignature(SignatureFunction::Email, Box::new(property)),
            ),
        )
    } else if function.name@ == "username"@ {
        without_arguments(
            function,
            CoreModel::String(
                StringModel::OfSignature(SignatureFunction::Username, Box::new(property)),
            ),
        )
    } else if function.name@ == "timestamp"@ {
        without_arguments(
            function,
            CoreModel::Timestamp(TimestampModel::OfSignature(Box::new(property))),
        )
    } else {
        Err(TemplateParseError::no_such_method("Signature", &function))
    }
}

/// What a method of a timestamp gives: under every name, the timestamp written out in UTC.
pub open spec fn timestamp_method_model<'i, K>(
    property: TimestampModel<K>,
    function: FunctionCallNode<'i>,
) -> TemplateParseResult<'i, CoreModel<K>> {
    without_arguments(function, CoreModel::String(StringModel::Utc(Box::new(property))))
}

/// What a method of a range of time gives.
pub open spec fn timestamp_range_method_model<'i, K>(
    property: TimestampRangeModel<K>,
    function: FunctionCallNode<'i>,
) -> TemplateParseResult<'i, CoreModel<K>> {
    if function.name@ == "start"@ {
        without_arguments(
            function,
            CoreModel::Timestamp(
                TimestampModel::OfRange(TimestampRangeFunction::Start, Box::new(property)),
            ),
        )
    } else if function.name@ == "end"@ {
        without_arguments(
            function,
            CoreModel::Timestamp(
                TimestampModel::OfRange(TimestampRangeFunction::End, Box::new(property)),
            ),
        )
    } else if function.name@ == "duration"@ {
        without_arguments(function, CoreModel::String(StringModel::Duration(Box::new(property))))
    } else {
        Err(TemplateParseError::no_such_method("TimestampRange", &function))
    }
}

/// What a method of a property of a basic type gives.
pub open spec fn core_method_model<'i, L: TemplateLanguage<'i>>(
    language: &L,
    variables: Variables<L::Item>,
    property: CoreModel<L::Keyword>,
    function: FunctionCallNode<'i>,
) -> TemplateParseResult<'i, CoreModel<L::Keyword>> {
    match property {
        CoreModel::String(property) => string_method_model(language, variables, property, function),
        CoreModel::StringList(property) => formattable_list_method_model(
            language,
            variables,
            ListModel::Strings(property),
            function,
            ItemKind::String,
        ),
        CoreModel::Boolean(_) => Err(TemplateParseError::no_such_method("Boolean", &function)),
        CoreModel::Integer(_) => Err(TemplateParseError::no_such_method("Integer", &function)),
        CoreModel::Signature(property) => signature_method_model(property, function),
        CoreModel::Timestamp(property) => timestamp_method_model(property, function),
        CoreModel::TimestampRange(property) => timestamp_range_method_model(property, function),
        CoreModel::Template(_) => Err(TemplateParseError::no_such_method("Template", &function)),
        CoreModel::ListTemplate(template) => list_template_method_model(
            language,
            variables,
            template,
            function,
        ),
    }
}

/// The property of a basic type as a property of the language, where there is no error.
pub open spec fn wrapped<'i, L: TemplateLanguage<'i>>(
    language: &L,
    result: TemplateParseResult<'i, CoreModel<L::Keyword>>,
) -> TemplateParseResult<'i, PropertyModel<'i, L>> {
    match result {
        Ok(property) => Ok(language.core_model(property)),
        Err(e) => Err(e),
    }
}

} // verus!
