//! What each form of expression builds to.

use vstd::prelude::*;

use crate::build_context::{lookup, ItemKind, Variables};
use crate::build_model::{
    boolean_model, expression_model, function_model, integer_model, method_call_model,
    plain_text_model, template_model, templates_model,
};
use crate::evaluation::Environment;
use crate::laws::lists_are_built_in_order;
use crate::template_language::TemplateLanguage;
use crate::template_parser::{
    ExpressionKind, ExpressionNode, MethodCallNode, TemplateParseErrorKind,
};
use crate::template_property::{
    CoreModel, CoreTemplatePropertyKind, IntoTemplateProperty,
};
use crate::templater::{IntegerModel, StringListModel, StringModel, TemplateModel};

verus! {

/// A string literal is a string whose value is the text as written, and an integer literal is an
/// integer whose value is the number as written, in any environment. Literals have no labels.
pub proof fn literals_are_kept<'i, L: TemplateLanguage<'i>, I>(
    language: &L,
    variables: Variables<L::Item>,
    node: ExpressionNode<'i>,
    env: Environment<L::Keyword, I>,
)
    ensures
        node.kind matches ExpressionKind::String(text) ==> {
            let property = StringModel::<L::Keyword>::Literal(text@);
            &&& property.value(env) == text@
            &&& expression_model(language, variables, node) matches Ok(expression)
            &&& expression.property == language.core_model(CoreModel::String(property))
            &&& expression.labels.len() == 0
        },
        node.kind matches ExpressionKind::Integer(number) ==> {
            let property = IntegerModel::<L::Keyword>::Literal(number);
            &&& property.value(env) == number
            &&& expression_model(language, variables, node) matches Ok(expression)
            &&& expression.property == language.core_model(CoreModel::Integer(property))
            &&& expression.labels.len() == 0
        },
{
}

/// A name is looked up from the inside out: what is found is the last variable of the name, and
/// nothing is found exactly where no variable has the name.
pub proof fn names_are_found_from_inside<T>(variables: Variables<T>, name: Seq<char>)
    ensures
        match lookup(variables, name) {
            Some((level, kind)) => {
                &&& level < variables.len()
                &&& variables[level as int] == (name, kind)
                &&& forall|i: int|
                    level < i < variables.len() ==> (#[trigger] variables[i]).0 != name
            },
            None => forall|i: int| 0 <= i < variables.len() ==> (#[trigger] variables[i]).0 != name,
        },
    decreases variables.len(),
{
    if variables.len() > 0 {
        let outer = variables.drop_last();
        names_are_found_from_inside(outer, name);
        if variables.last().0 != name {
            assert forall|i: int|
                0 <= i < variables.len() && (lookup(variables, name) matches Some((level, _))
                    ==> level < i) implies (#[trigger] variables[i]).0 != name by {
                if i < outer.len() {
                    assert(outer[i] == variables[i]);
                }
            }
        }
    }
}

/// The name of a variable builds to what the language makes of an item at the level of the
/// variable: a placeholder that is a string, or the language's own property for the item. The name
/// is no label.
pub proof fn variables_are_items_of_their_level<'i, L: TemplateLanguage<'i>>(
    language: &L,
    variables: Variables<L::Item>,
    node: ExpressionNode<'i>,
    level: nat,
)
    requires
        node.kind is Identifier,
        level < variables.len(),
        variables[level as int].0 == node.kind->Identifier_0@,
        forall|i: int|
            level < i < variables.len() ==> (#[trigger] variables[i]).0
                != node.kind->Identifier_0@,
    ensures
        expression_model(language, variables, node) matches Ok(expression) && {
            &&& expression.labels.len() == 0
            &&& expression.property == (match variables[level as int].1 {
                ItemKind::String => language.core_model(
                    CoreModel::String(StringModel::Placeholder(level)),
                ),
                ItemKind::Language(item) => language.item_model(item, level),
            })
        },
{
    let name = node.kind->Identifier_0@;
    names_are_found_from_inside(variables, name);
    assert(variables[level as int].0 == name);
    assert(lookup(variables, name) == Some((level, variables[level as int].1)));
}

/// A name that no variable has is a keyword: the language says what it builds to, given the name
/// and its place, and the name is its only label.
pub proof fn other_names_are_keywords<'i, L: TemplateLanguage<'i>>(
    language: &L,
    variables: Variables<L::Item>,
    node: ExpressionNode<'i>,
)
    requires
        node.kind is Identifier,
        forall|i: int|
            0 <= i < variables.len() ==> (#[trigger] variables[i]).0 != node.kind->Identifier_0@,
    ensures
        match language.keyword_model(node.kind->Identifier_0, node.span) {
            Ok(property) => {
                &&& expression_model(language, variables, node) matches Ok(expression)
                &&& expression.property == property
                &&& expression.labels == seq![node.kind->Identifier_0@]
            },
            Err(e) => expression_model(language, variables, node) matches Err(error) && error == e,
        },
{
    names_are_found_from_inside(variables, node.kind->Identifier_0@);
}

/// Expressions that stand side by side build to the templates of all of them in order, without a
/// label. If some fail, the first of these gives the error.
pub proof fn concatenations_hold_all_parts<'i, L: TemplateLanguage<'i>>(
    language: &L,
    variables: Variables<L::Item>,
    node: ExpressionNode<'i>,
)
    requires
        node.kind is Concat,
    ensures
        ({
            let nodes = node.kind->Concat_0@;
            match expression_model(language, variables, node) {
                Ok(expression) => exists|contents: Seq<TemplateModel<L::Keyword>>|
                    {
                        &&& expression.labels.len() == 0
                        &&& expression.property == #[trigger] language.core_model(
                            CoreModel::Template(TemplateModel::Concat(contents)),
                        )
                        &&& contents.len() == nodes.len()
                        &&& forall|i: int|
                            0 <= i < nodes.len() ==> (template_model(
                                language,
                                variables,
                                #[trigger] nodes[i],
                            ) matches Ok(template) && template == contents[i])
                    },
                Err(e) => exists|first: int|
                    {
                        &&& 0 <= first < nodes.len()
                        &&& template_model(language, variables, #[trigger] nodes[first])
                            matches Err(error) && error == e
                        &&& forall|i: int|
                            0 <= i < first ==> template_model(
                                language,
                                variables,
                                #[trigger] nodes[i],
                            ) is Ok
                    },
            }
        }),
{
    let nodes = node.kind->Concat_0@;
    lists_are_built_in_order(language, variables, nodes, 0, nodes.len());
    if let Ok(contents) = templates_model(language, variables, nodes, 0, nodes.len()) {
        let template = CoreModel::Template(TemplateModel::Concat(contents));
        assert(expression_model(language, variables, node)->Ok_0.property == language.core_model(
            template,
        ));
        assert forall|i: int| 0 <= i < nodes.len() implies (template_model(
            language,
            variables,
            #[trigger] nodes[i],
        ) matches Ok(template) && template == contents[i]) by {
            assert(contents[i - 0] == contents[i]);
        }
    }
}

/// A call of a global function is the template that the function gives, without a label, and has
/// the error that the function has.
pub proof fn function_calls_are_templates<'i, L: TemplateLanguage<'i>>(
    language: &L,
    variables: Variables<L::Item>,
    node: ExpressionNode<'i>,
)
    requires
        node.kind is FunctionCall,
    ensures
        match function_model(language, variables, node.kind->FunctionCall_0) {
            Ok(template) => {
                &&& expression_model(language, variables, node) matches Ok(expression)
                &&& expression.property == language.core_model(CoreModel::Template(template))
                &&& expression.labels.len() == 0
            },
            Err(e) => expression_model(language, variables, node) matches Err(error) && error == e,
        },
{
}

/// A method call hands the language the property of the object and the call, with the variables in
/// scope. The result has the labels of the object and the name of the method, in this order. The
/// error of the object comes before the error of the method.
pub proof fn method_calls_build_on_their_object<'i, L: TemplateLanguage<'i>>(
    language: &L,
    variables: Variables<L::Item>,
    node: ExpressionNode<'i>,
    method: MethodCallNode<'i>,
)
    requires
        node.kind == ExpressionKind::MethodCall(method),
    ensures
        ({
            let result = expression_model(language, variables, node);
            &&& method_call_model(language, variables, method) == result
            &&& match expression_model(language, variables, *method.object) {
                Err(e) => result matches Err(error) && error == e,
                Ok(object) => match language.method_model(
                    variables,
                    object.property,
                    method.function,
                ) {
                    Err(e) => result matches Err(error) && error == e,
                    Ok(property) => result matches Ok(expression) && {
                        &&& expression.property == property
                        &&& expression.labels == object.labels + seq![method.function.name@]
                    },
                },
            }
        }),
{
    if let Ok(object) = expression_model(language, variables, *method.object) {
        assert(object.labels.push(method.function.name@) =~= object.labels
            + seq![method.function.name@]);
    }
}

/// A lambda by itself is refused at its place.
pub proof fn lambdas_are_refused<'i, L: TemplateLanguage<'i>>(
    language: &L,
    variables: Variables<L::Item>,
    node: ExpressionNode<'i>,
)
    requires
        node.kind is Lambda,
    ensures
        expression_model(language, variables, node) matches Err(e) && {
            &&& e.kind == TemplateParseErrorKind::UnexpectedExpression(
                "Lambda cannot be defined here",
            )
            &&& e.span == node.span
            &&& e.origin is None
        },
{
}

/// A node as a boolean, an integer, a text or a template is its property, converted by the
/// language. Where the property does not convert, the node is refused at its place, by the name of
/// the type. Where the node has an error, that is the error.
pub proof fn nodes_are_converted_by_their_property<'i, L: TemplateLanguage<'i>>(
    language: &L,
    variables: Variables<L::Item>,
    node: ExpressionNode<'i>,
)
    ensures
        match expression_model(language, variables, node) {
            Err(e) => {
                &&& boolean_model(language, variables, node) matches Err(error) && error == e
                &&& integer_model(language, variables, node) matches Err(error) && error == e
                &&& plain_text_model(language, variables, node) matches Err(error) && error == e
                &&& template_model(language, variables, node) matches Err(error) && error == e
            },
            Ok(expression) => {
                &&& match L::Property::boolean_model(expression.property) {
                    Some(p) => boolean_model(language, variables, node) matches Ok(property)
                        && property == p,
                    None => boolean_model(language, variables, node) matches Err(e) && {
                        &&& e.kind == TemplateParseErrorKind::ExpectedType("Boolean")
                        &&& e.span == node.span
                        &&& e.origin is None
                    },
                }
                &&& match L::Property::integer_model(expression.property) {
                    Some(p) => integer_model(language, variables, node) matches Ok(property)
                        && property == p,
                    None => integer_model(language, variables, node) matches Err(e) && {
                        &&& e.kind == TemplateParseErrorKind::ExpectedType("Integer")
                        &&& e.span == node.span
                        &&& e.origin is None
                    },
                }
                &&& match L::Property::plain_text_model(expression.property) {
                    Some(p) => plain_text_model(language, variables, node) matches Ok(property)
                        && property == p,
                    None => plain_text_model(language, variables, node) matches Err(e) && {
                        &&& e.kind == TemplateParseErrorKind::ExpectedType("Template")
                        &&& e.span == node.span
                        &&& e.origin is None
                    },
                }
                &&& match L::Property::template_model(expression.property) {
                    Some(t) => template_model(language, variables, node) matches Ok(template)
                        && template == (if expression.labels.len() == 0 {
                        t
                    } else {
                        TemplateModel::Label {
                            content: Box::new(t),
                            labels: Box::new(StringListModel::Literal(expression.labels)),
                        }
                    }),
                    None => template_model(language, variables, node) matches Err(e) && {
                        &&& e.kind == TemplateParseErrorKind::ExpectedType("Template")
                        &&& e.span == node.span
                        &&& e.origin is None
                    },
                }
            },
        },
{
}

/// In a language over the basic types, a node is a condition exactly where it is a boolean or a
/// string, and a number exactly where it is an integer. In any environment, a boolean and an
/// integer keep their value, and a string is true where its value is not empty.
pub proof fn conditions_and_numbers_keep_values<'i, K, L, I>(
    language: &L,
    variables: Variables<L::Item>,
    node: ExpressionNode<'i>,
    env: Environment<K, I>,
) where L: TemplateLanguage<'i, Keyword = K, Property = CoreTemplatePropertyKind<K>>
    ensures
        expression_model(language, variables, node) matches Ok(expression) ==> {
            let condition = boolean_model(language, variables, node);
            let number = integer_model(language, variables, node);
            &&& match expression.property {
                CoreModel::Boolean(p) => condition matches Ok(c) && c.value(env) == p.value(env),
                CoreModel::String(p) => condition matches Ok(c) && (c.value(env) <==> p.value(
                    env,
                ).len() != 0),
                _ => condition is Err,
            }
            &&& match expression.property {
                CoreModel::Integer(p) => number matches Ok(n) && n.value(env) == p.value(env),
                _ => number is Err,
            }
        },
{
}

} // verus!
