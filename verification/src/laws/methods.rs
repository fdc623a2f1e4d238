//! What the methods of the basic types give, and which errors they have.

use vstd::prelude::*;

use crate::build_context::{ItemKind, Variables};
use crate::build_model::{
    core_method_model, expression_model, formattable_list_method_model, lambda_model,
    list_template_method_model, map_model, plain_text_model, signature_method_model,
    string_method_model, template_model, timestamp_method_model, timestamp_range_method_model,
    unformattable_list_method_model,
};
use crate::evaluation::Environment;
use crate::laws::expressions::variables_are_items_of_their_level;
use crate::laws::{lambda_of, lemma_lambda_behind_aliases};
use crate::template_function::{
    SignatureFunction, StringFunction, StringListFunction, TimestampRangeFunction,
};
use crate::template_language::TemplateLanguage;
use crate::template_parser::{
    ArgumentCount, ExpressionKind, ExpressionNode, FunctionCallNode, TemplateParseErrorKind,
};
use crate::template_property::CoreModel;
use crate::templater::{
    BooleanModel, ItemTemplateModel, ListModel, ListTemplateModel, SignatureModel, StringListModel,
    StringModel, TemplateModel, TimestampModel, TimestampRangeModel,
};
use crate::text_util::{first_line_of, index_of, is_part_of, lines_of, lowercase, uppercase};

verus! {

/// The names of the methods of each type are all different.
proof fn lemma_method_names()
    ensures
        "contains"@ != "first_line"@ && "contains"@ != "lines"@ && "contains"@ != "upper"@,
        "contains"@ != "lower"@ && "first_line"@ != "lines"@ && "first_line"@ != "upper"@,
        "first_line"@ != "lower"@ && "lines"@ != "upper"@ && "lines"@ != "lower"@,
        "upper"@ != "lower"@,
        "name"@ != "email"@ && "name"@ != "username"@ && "name"@ != "timestamp"@,
        "email"@ != "username"@ && "email"@ != "timestamp"@ && "username"@ != "timestamp"@,
        "start"@ != "end"@ && "start"@ != "duration"@ && "end"@ != "duration"@,
        "join"@ != "map"@,
{
    reveal_strlit("contains");
    reveal_strlit("first_line");
    reveal_strlit("lines");
    reveal_strlit("upper");
    reveal_strlit("lower");
    assert("contains"@.len() == 8 && "first_line"@.len() == 10);
    assert("lines"@.len() == 5 && "upper"@.len() == 5 && "lower"@.len() == 5);
    assert("lines"@[0] != "upper"@[0]);
    assert("lines"@[1] != "lower"@[1]);
    assert("upper"@[0] != "lower"@[0]);
    reveal_strlit("name");
    reveal_strlit("email");
    reveal_strlit("username");
    reveal_strlit("timestamp");
    assert("name"@.len() == 4 && "email"@.len() == 5);
    assert("username"@.len() == 8 && "timestamp"@.len() == 9);
    reveal_strlit("start");
    reveal_strlit("end");
    reveal_strlit("duration");
    assert("start"@.len() == 5 && "end"@.len() == 3 && "duration"@.len() == 8);
    reveal_strlit("join");
    reveal_strlit("map");
    assert("join"@.len() == 4 && "map"@.len() == 3);
}

/// A method without arguments is refused where it is called with some.
pub proof fn methods_refuse_arguments<'i, L: TemplateLanguage<'i>>(
    language: &L,
    variables: Variables<L::Item>,
    property: CoreModel<L::Keyword>,
    function: FunctionCallNode<'i>,
)
    requires
        function.args@.len() > 0,
        match property {
            CoreModel::String(_) => function.name@ == "first_line"@ || function.name@ == "lines"@
                || function.name@ == "upper"@ || function.name@ == "lower"@,
            CoreModel::Signature(_) => function.name@ == "name"@ || function.name@ == "email"@
                || function.name@ == "username"@ || function.name@ == "timestamp"@,
            CoreModel::Timestamp(_) => true,
            CoreModel::TimestampRange(_) => function.name@ == "start"@ || function.name@ == "end"@
                || function.name@ == "duration"@,
            _ => false,
        },
    ensures
        core_method_model(language, variables, property, function) matches Err(e) && {
            &&& e.kind == (TemplateParseErrorKind::InvalidArguments {
                name: function.name,
                expected: ArgumentCount::Exactly(0),
            })
            &&& e.span == function.args_span
            &&& e.origin is None
        },
{
    lemma_method_names();
}

/// A method with one argument is refused where it is called with another number of arguments.
pub proof fn methods_want_their_argument<'i, L: TemplateLanguage<'i>>(
    language: &L,
    variables: Variables<L::Item>,
    property: CoreModel<L::Keyword>,
    function: FunctionCallNode<'i>,
)
    requires
        function.args@.len() != 1,
        match property {
            CoreModel::String(_) => function.name@ == "contains"@,
            CoreModel::StringList(_) => function.name@ == "join"@ || function.name@ == "map"@,
            CoreModel::ListTemplate(_) => function.name@ == "join"@,
            _ => false,
        },
    ensures
        core_method_model(language, variables, property, function) matches Err(e) && {
            &&& e.kind == (TemplateParseErrorKind::InvalidArguments {
                name: function.name,
                expected: ArgumentCount::Exactly(1),
            })
            &&& e.span == function.args_span
            &&& e.origin is None
        },
{
    lemma_method_names();
}

/// A name that is no method of the type is refused at its place, by the name of the type, whatever
/// the arguments are.
pub proof fn other_methods_are_refused<'i, L: TemplateLanguage<'i>>(
    language: &L,
    variables: Variables<L::Item>,
    property: CoreModel<L::Keyword>,
    function: FunctionCallNode<'i>,
)
    requires
        match property {
            CoreModel::String(_) => function.name@ != "contains"@ && function.name@
                != "first_line"@ && function.name@ != "lines"@ && function.name@ != "upper"@
                && function.name@ != "lower"@,
            CoreModel::StringList(_) => function.name@ != "join"@ && function.name@ != "map"@,
            CoreModel::Boolean(_) => true,
            CoreModel::Integer(_) => true,
            CoreModel::Signature(_) => function.name@ != "name"@ && function.name@ != "email"@
                && function.name@ != "username"@ && function.name@ != "timestamp"@,
            CoreModel::Timestamp(_) => false,
            CoreModel::TimestampRange(_) => function.name@ != "start"@ && function.name@ != "end"@
                && function.name@ != "duration"@,
            CoreModel::Template(_) => true,
            CoreModel::ListTemplate(_) => function.name@ != "join"@,
        },
    ensures
        core_method_model(language, variables, property, function) matches Err(e) && {
            &&& e.kind == (TemplateParseErrorKind::NoSuchMethod {
                receiver: match property {
                    CoreModel::String(_) => "String",
                    CoreModel::StringList(_) => "List",
                    CoreModel::Boolean(_) => "Boolean",
                    CoreModel::Integer(_) => "Integer",
                    CoreModel::Signature(_) => "Signature",
                    CoreModel::Timestamp(_) => "Timestamp",
                    CoreModel::TimestampRange(_) => "TimestampRange",
                    CoreModel::Template(_) => "Template",
                    CoreModel::ListTemplate(_) => "ListTemplate",
                },
                name: function.name,
            })
            &&& e.span == function.name_span
            &&& e.origin is None
        },
{
}

/// A method of a string, called with the arguments that it takes, is a function of the value of the
/// string, whatever the string is made of, in any environment. The needle of `contains` is the text
/// of the argument, and where that has an error, so has the call.
pub proof fn string_methods_apply_to_the_string<'i, L: TemplateLanguage<'i>, I>(
    language: &L,
    variables: Variables<L::Item>,
    property: StringModel<L::Keyword>,
    function: FunctionCallNode<'i>,
    env: Environment<L::Keyword, I>,
)
    ensures
        ({
            let result = core_method_model(
                language,
                variables,
                CoreModel::String(property),
                function,
            );
            let none = function.args@.len() == 0;
            let s = property.value(env);
            &&& result == string_method_model(language, variables, property, function)
            &&& function.name@ == "contains"@ && function.args@.len() == 1 ==> {
                match plain_text_model(language, variables, function.args@[0]) {
                    Err(e) => result matches Err(error) && error == e,
                    Ok(needle) => {
                        &&& result matches Ok(CoreModel::Boolean(p))
                        &&& p == BooleanModel::Contains(Box::new(property), Box::new(needle))
                        &&& p.value(env) == is_part_of(needle.value(env), s)
                    },
                }
            }
            &&& function.name@ == "first_line"@ && none ==> {
                &&& result matches Ok(CoreModel::String(p))
                &&& p == StringModel::OfString(StringFunction::FirstLine, Box::new(property))
                &&& p.value(env) == first_line_of(s)
            }
            &&& function.name@ == "lines"@ && none ==> {
                &&& result matches Ok(CoreModel::StringList(p))
                &&& p == StringListModel::OfString(StringListFunction::Lines, Box::new(property))
                &&& p.value(env) == lines_of(s)
            }
            &&& function.name@ == "upper"@ && none ==> {
                &&& result matches Ok(CoreModel::String(p))
                &&& p == StringModel::OfString(StringFunction::Upper, Box::new(property))
                &&& p.value(env) == uppercase(s)
            }
            &&& function.name@ == "lower"@ && none ==> {
                &&& result matches Ok(CoreModel::String(p))
                &&& p == StringModel::OfString(StringFunction::Lower, Box::new(property))
                &&& p.value(env) == lowercase(s)
            }
        }),
{
    lemma_method_names();
}

/// A method of a signature, called without arguments, is a function of the value of the signature,
/// whatever it is made of, in any environment.
pub proof fn signature_methods_apply_to_the_signature<'i, L: TemplateLanguage<'i>, I>(
    language: &L,
    variables: Variables<L::Item>,
    property: SignatureModel<L::Keyword>,
    function: FunctionCallNode<'i>,
    env: Environment<L::Keyword, I>,
)
    requires
        function.args@.len() == 0,
    ensures
        ({
            let result = core_method_model(
                language,
                variables,
                CoreModel::Signature(property),
                function,
            );
            let signature = property.value(env);
            &&& result == signature_method_model(property, function)
            &&& function.name@ == "name"@ ==> {
                &&& result matches Ok(CoreModel::String(p))
                &&& p == StringModel::OfSignature(SignatureFunction::Name, Box::new(property))
                &&& p.value(env) == signature.name@
            }
            &&& function.name@ == "email"@ ==> {
                &&& result matches Ok(CoreModel::String(p))
                &&& p == StringModel::OfSignature(SignatureFunction::Email, Box::new(property))
                &&& p.value(env) == signature.email@
            }
            &&& function.name@ == "username"@ ==> {
                &&& result matches Ok(CoreModel::String(p))
                &&& p == StringModel::OfSignature(SignatureFunction::Username, Box::new(property))
                &&& p.value(env) == signature.email@.take(index_of(signature.email@, '@') as int)
            }
            &&& function.name@ == "timestamp"@ ==> {
                &&& result matches Ok(CoreModel::Timestamp(p))
                &&& p == TimestampModel::OfSignature(Box::new(property))
                &&& p.value(env) == signature.timestamp
            }
        }),
{
    lemma_method_names();
}

/// A method of a timestamp, called without arguments, writes out the value of the timestamp,
/// whatever it is made of, and whatever the name of the method is.
pub proof fn timestamp_methods_apply_to_the_timestamp<'i, L: TemplateLanguage<'i>, I>(
    language: &L,
    variables: Variables<L::Item>,
    property: TimestampModel<L::Keyword>,
    function: FunctionCallNode<'i>,
    env: Environment<L::Keyword, I>,
)
    requires
        function.args@.len() == 0,
    ensures
        ({
            let result = core_method_model(
                language,
                variables,
                CoreModel::Timestamp(property),
                function,
            );
            &&& result == timestamp_method_model(property, function)
            &&& result matches Ok(CoreModel::String(p))
            &&& p == StringModel::Utc(Box::new(property))
            &&& p.value(env) == (env.utc)(property.value(env))
        }),
{
}

/// A method of a range of time, called without arguments, is a function of the value of the range,
/// whatever it is made of, in any environment.
pub proof fn timestamp_range_methods_apply_to_the_range<'i, L: TemplateLanguage<'i>, I>(
    language: &L,
    variables: Variables<L::Item>,
    property: TimestampRangeModel<L::Keyword>,
    function: FunctionCallNode<'i>,
    env: Environment<L::Keyword, I>,
)
    requires
        function.args@.len() == 0,
    ensures
        ({
            let result = core_method_model(
                language,
                variables,
                CoreModel::TimestampRange(property),
                function,
            );
            &&& result == timestamp_range_method_model(property, function)
            &&& function.name@ == "start"@ ==> {
                &&& result matches Ok(CoreModel::Timestamp(p))
                &&& p == TimestampModel::OfRange(TimestampRangeFunction::Start, Box::new(property))
                &&& p.value(env) == property.value(env).start
            }
            &&& function.name@ == "end"@ ==> {
                &&& result matches Ok(CoreModel::Timestamp(p))
                &&& p == TimestampModel::OfRange(TimestampRangeFunction::End, Box::new(property))
                &&& p.value(env) == property.value(env).end
            }
            &&& function.name@ == "duration"@ ==> {
                &&& result matches Ok(CoreModel::String(p))
                &&& p == StringModel::Duration(Box::new(property))
                &&& p.value(env) == (env.duration)(property.value(env))
            }
        }),
{
    lemma_method_names();
}

/// The methods of a list of strings are those of a printable list whose items are strings.
pub proof fn string_lists_are_lists_of_strings<'i, L: TemplateLanguage<'i>>(
    language: &L,
    variables: Variables<L::Item>,
    property: StringListModel<L::Keyword>,
    function: FunctionCallNode<'i>,
)
    ensures
        core_method_model(language, variables, CoreModel::StringList(property), function)
            == formattable_list_method_model(
            language,
            variables,
            ListModel::Strings(property),
            function,
            ItemKind::String,
        ),
{
}

/// `join` of a printable list takes one argument that is a template. It goes through the same list
/// with the argument as the separator, and renders each item as it is. Where the argument has an
/// error, so has the call.
pub proof fn join_goes_through_the_list<'i, L: TemplateLanguage<'i>>(
    language: &L,
    variables: Variables<L::Item>,
    property: ListModel<L::Keyword>,
    function: FunctionCallNode<'i>,
    kind: ItemKind<L::Item>,
)
    requires
        function.name@ == "join"@,
        function.args@.len() == 1,
    ensures
        ({
            let result = formattable_list_method_model(
                language,
                variables,
                property,
                function,
                kind,
            );
            match template_model(language, variables, function.args@[0]) {
                Err(e) => result matches Err(error) && error == e,
                Ok(separator) => {
                    &&& result matches Ok(CoreModel::Template(TemplateModel::ListProperty(list)))
                    &&& list.property == property
                    &&& *list.separator == separator
                    &&& list.item is Item
                },
            }
        }),
{
}

/// `join` of a list template takes one argument that is a template, and joins the same list
/// template by it. Where the argument has an error, so has the call.
pub proof fn join_keeps_the_list_template<'i, L: TemplateLanguage<'i>>(
    language: &L,
    variables: Variables<L::Item>,
    template: ListTemplateModel<L::Keyword>,
    function: FunctionCallNode<'i>,
)
    requires
        function.name@ == "join"@,
        function.args@.len() == 1,
    ensures
        ({
            let result = core_method_model(
                language,
                variables,
                CoreModel::ListTemplate(template),
                function,
            );
            &&& result == list_template_method_model(language, variables, template, function)
            &&& match template_model(language, variables, function.args@[0]) {
                Err(e) => result matches Err(error) && error == e,
                Ok(t) => {
                    &&& result matches Ok(CoreModel::Template(TemplateModel::Join(list, separator)))
                    &&& *list == template
                    &&& *separator == t
                },
            }
        }),
{
}

/// A list has the same `map` whether it is printable or not. A list that is not printable has
/// nothing else, and a printable one has `join`; other names are refused at their place, and a
/// wrong number of arguments is refused at the arguments.
pub proof fn lists_have_join_and_map<'i, L: TemplateLanguage<'i>>(
    language: &L,
    variables: Variables<L::Item>,
    property: ListModel<L::Keyword>,
    function: FunctionCallNode<'i>,
    kind: ItemKind<L::Item>,
)
    ensures
        ({
            let printable = formattable_list_method_model(
                language,
                variables,
                property,
                function,
                kind,
            );
            let other = unformattable_list_method_model(
                language,
                variables,
                property,
                function,
                kind,
            );
            let map = map_model(language, variables, property, function, kind);
            &&& function.name@ == "map"@ ==> printable == map && other == map
            &&& function.name@ != "map"@ ==> (other matches Err(e) && {
                &&& e.kind == (TemplateParseErrorKind::NoSuchMethod {
                    receiver: "List",
                    name: function.name,
                })
                &&& e.span == function.name_span
                &&& e.origin is None
            })
            &&& function.name@ != "map"@ && function.name@ != "join"@ ==> printable == other
            &&& function.args@.len() != 1 ==> (map matches Err(e) && {
                &&& e.kind == (TemplateParseErrorKind::InvalidArguments {
                    name: function.name,
                    expected: ArgumentCount::Exactly(1),
                })
                &&& e.span == function.args_span
                &&& e.origin is None
            })
            &&& function.name@ == "join"@ && function.args@.len() != 1 ==> printable == map
        }),
{
    lemma_method_names();
}

/// `map` goes through the same list, with a space as the separator, and renders each item as the
/// lambda says. It sets a placeholder of its own, which is none of those of the enclosing list
/// operations. Where the lambda has an error, so has the call.
pub proof fn map_goes_through_the_list<'i, L: TemplateLanguage<'i>>(
    language: &L,
    variables: Variables<L::Item>,
    property: ListModel<L::Keyword>,
    function: FunctionCallNode<'i>,
    kind: ItemKind<L::Item>,
)
    requires
        function.args@.len() == 1,
    ensures
        ({
            let result = map_model(language, variables, property, function, kind);
            match lambda_model(language, variables, function.args@[0], kind) {
                Err(e) => result matches Err(error) && error == e,
                Ok(t) => {
                    &&& result matches Ok(
                        CoreModel::ListTemplate(ListTemplateModel::ListProperty(list)),
                    )
                    &&& list.property == property
                    &&& *list.separator matches TemplateModel::String(space)
                    &&& *space == StringModel::<L::Keyword>::Literal(" "@)
                    &&& list.item matches ItemTemplateModel::Template { placeholder, template }
                    &&& placeholder == variables.len()
                    &&& *template == t
                },
            }
        }),
{
}

/// A lambda is rendered as its body, which sees the parameter as the innermost variable. It has one
/// parameter, or it is refused at its parameters. An alias of a lambda is the lambda, and where
/// that has an error, the alias has an error at its place with that error as the origin. Anything
/// else is refused at its place.
pub proof fn lambdas_bind_one_parameter<'i, L: TemplateLanguage<'i>>(
    language: &L,
    variables: Variables<L::Item>,
    node: ExpressionNode<'i>,
    kind: ItemKind<L::Item>,
)
    ensures
        ({
            let result = lambda_model(language, variables, node, kind);
            match node.kind {
                ExpressionKind::Lambda(lambda) => if lambda.params@.len() == 1 {
                    result == template_model(
                        language,
                        variables + seq![(lambda.params@[0]@, kind)],
                        *lambda.body,
                    )
                } else {
                    result matches Err(e) && {
                        &&& e.kind == TemplateParseErrorKind::UnexpectedExpression(
                            "Expected 1 lambda parameters",
                        )
                        &&& e.span == lambda.params_span
                        &&& e.origin is None
                    }
                },
                ExpressionKind::AliasExpanded(id, subst) => match lambda_model(
                    language,
                    variables,
                    *subst,
                    kind,
                ) {
                    Ok(template) => result matches Ok(t) && t == template,
                    Err(origin) => result matches Err(e) && {
                        &&& e.kind == TemplateParseErrorKind::BadAliasExpansion(id)
                        &&& e.span == node.span
                        &&& e.origin == Some(Box::new(origin))
                    },
                },
                _ => result matches Err(e) && {
                    &&& e.kind == TemplateParseErrorKind::UnexpectedExpression(
                        "Expected lambda expression",
                    )
                    &&& e.span == node.span
                    &&& e.origin is None
                },
            }
        }),
{
    if let ExpressionKind::Lambda(lambda) = node.kind {
        if lambda.params@.len() == 1 {
            assert(variables + seq![(lambda.params@[0]@, kind)] =~= variables.push(
                (lambda.params@[0]@, kind),
            ));
        }
    }
}

/// In the body of a lambda that is given to `map`, the parameter is the item at the very
/// placeholder that this list operation sets: the language's property for an item of its own type,
/// or a placeholder that is a string. This holds inside any number of enclosing list operations,
/// whose parameters, as far as they are not hidden, are the items at the placeholders of their own
/// list operations.
pub proof fn parameters_are_items_of_their_own_list<'i, L: TemplateLanguage<'i>>(
    language: &L,
    variables: Variables<L::Item>,
    property: ListModel<L::Keyword>,
    function: FunctionCallNode<'i>,
    kind: ItemKind<L::Item>,
    node: ExpressionNode<'i>,
    outer: nat,
)
    requires
        function.args@.len() == 1,
        lambda_of(function.args@[0]) matches Some(lambda) && lambda.params@.len() == 1,
        node.kind is Identifier,
        map_model(language, variables, property, function, kind) is Ok,
    ensures
        ({
            let lambda = lambda_of(function.args@[0])->0;
            let name = node.kind->Identifier_0@;
            let inner = variables.push((lambda.params@[0]@, kind));
            &&& map_model(language, variables, property, function, kind)->Ok_0
                matches CoreModel::ListTemplate(ListTemplateModel::ListProperty(list))
            &&& list.item matches ItemTemplateModel::Template { placeholder, template }
            &&& template_model(language, inner, *lambda.body) matches Ok(body) && body == *template
            &&& expression_model(language, inner, node) matches Ok(expression) ==> {
                &&& name == lambda.params@[0]@ ==> {
                    &&& expression.labels.len() == 0
                    &&& expression.property == (match kind {
                        ItemKind::String => language.core_model(
                            CoreModel::String(StringModel::Placeholder(placeholder)),
                        ),
                        ItemKind::Language(item) => language.item_model(item, placeholder),
                    })
                }
                &&& outer < variables.len() && variables[outer as int].0 == name && (forall|i: int|
                    outer < i < inner.len() ==> (#[trigger] inner[i]).0 != name) ==> {
                    &&& outer != placeholder
                    &&& expression.property == (match variables[outer as int].1 {
                        ItemKind::String => language.core_model(
                            CoreModel::String(StringModel::Placeholder(outer)),
                        ),
                        ItemKind::Language(item) => language.item_model(item, outer),
                    })
                }
            }
            &&& name == lambda.params@[0]@ ==> expression_model(language, inner, node) is Ok
        }),
{
    let lambda = lambda_of(function.args@[0])->0;
    let name = node.kind->Identifier_0@;
    let inner = variables.push((lambda.params@[0]@, kind));
    lemma_lambda_behind_aliases(language, variables, function.args@[0], kind);
    if name == lambda.params@[0]@ {
        assert(inner[variables.len() as int].0 == name);
        variables_are_items_of_their_level(language, inner, node, variables.len());
    }
    if outer < variables.len() && variables[outer as int].0 == name && (forall|i: int|
        outer < i < inner.len() ==> (#[trigger] inner[i]).0 != name) {
        assert(inner[outer as int] == variables[outer as int]);
        variables_are_items_of_their_level(language, inner, node, outer);
    }
}

} // verus!
