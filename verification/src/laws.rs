//! Laws of building.

use vstd::prelude::*;

pub mod calls;
pub mod errors;
pub mod expressions;
pub mod functions;
pub mod methods;
pub mod models;
pub mod text;

use crate::build_context::{lookup, ItemKind, Variables};
use crate::build_model::{
    boolean_model, core_method_model, expression_model, formattable_list_method_model,
    function_model, integer_model, lambda_model, list_template_method_model, map_model,
    method_call_model, plain_text_model, signature_method_model, string_method_model,
    template_model, templates_model, timestamp_method_model, timestamp_range_method_model,
};
use crate::evaluation::{Environment, ItemValue, Piece};
use crate::template_language::TemplateLanguage;
use crate::template_parser::{
    ExpressionKind, ExpressionNode, FunctionCallNode, LambdaNode, TemplateParseError,
    TemplateParseErrorKind,
};
use crate::template_property::{
    CoreModel, CoreTemplatePropertyKind, ExpressionModel, IntoTemplateProperty,
};
use crate::templater::{
    ItemTemplateModel, Level, ListModel, ListPropertyTemplateModel, ListTemplateModel,
    SignatureModel, StringListModel, StringModel, TemplateModel, TimestampModel,
    TimestampRangeModel,
};
use crate::text_util::{
    first_line_is_start, first_line_of, index_of, is_part_of, lines_of, lowercase, uppercase,
    words_of,
};

verus! {

/// A property of a basic type can always be rendered and always be turned into text. It can be a
/// condition if it is a boolean or a string, and a width if it is an integer.
pub proof fn conversions_of_basic_properties<K>(property: CoreModel<K>)
    ensures
        CoreTemplatePropertyKind::<K>::template_model(property) is Some,
        CoreTemplatePropertyKind::<K>::plain_text_model(property) is Some,
        CoreTemplatePropertyKind::<K>::boolean_model(property) is Some <==> (property is Boolean
            || property is String),
        CoreTemplatePropertyKind::<K>::integer_model(property) is Some <==> property is Integer,
{
}

/// Converting a property to the type that it has already keeps its value, a string is true where it
/// is not empty, and the text of anything but a string is what it renders to.
pub proof fn conversions_keep_values<K, I>(property: CoreModel<K>, env: Environment<K, I>)
    ensures
        property matches CoreModel::String(p) ==> {
            &&& CoreTemplatePropertyKind::<K>::boolean_model(property)->0.value(env) <==> p.value(
                env,
            ).len() != 0
            &&& CoreTemplatePropertyKind::<K>::plain_text_model(property)->0.value(env) == p.value(
                env,
            )
        },
        property matches CoreModel::Boolean(p) ==> CoreTemplatePropertyKind::<K>::boolean_model(
            property,
        )->0.value(env) == p.value(env),
        property matches CoreModel::Integer(p) ==> CoreTemplatePropertyKind::<K>::integer_model(
            property,
        )->0.value(env) == p.value(env),
        !(property is String) ==> CoreTemplatePropertyKind::<K>::plain_text_model(
            property,
        )->0.value(env) == env.text_of(
            CoreTemplatePropertyKind::<K>::template_model(property)->0,
        ),
{
}

/// The text of a property of a basic type is the text that its template renders to, where rendering
/// to text writes a string as it is.
pub proof fn text_of_basic_properties<K, I>(property: CoreModel<K>, env: Environment<K, I>)
    requires
        env.renders_text(),
    ensures
        CoreTemplatePropertyKind::<K>::plain_text_model(property)->0.value(env) == env.text_of(
            CoreTemplatePropertyKind::<K>::template_model(property)->0,
        ),
{
}

/// Labels are around the whole of a template, and do not change its text: with labels, a property
/// renders to the template that it renders to without them, under the labels.
pub proof fn labels_do_not_change_text<K, I, P: IntoTemplateProperty<K>>(
    property: P::V,
    labels: Seq<Seq<char>>,
    env: Environment<K, I>,
)
    requires
        env.renders_text(),
    ensures
        match ExpressionModel::unlabeled(property).to_template::<K, P>() {
            Some(template) => {
                &&& (ExpressionModel { property, labels }).to_template::<K, P>() == Some(
                    if labels.len() == 0 {
                        template
                    } else {
                        TemplateModel::Label {
                            content: Box::new(template),
                            labels: Box::new(StringListModel::Literal(labels)),
                        }
                    },
                )
                &&& env.text_of((ExpressionModel { property, labels }).to_template::<K, P>()->0)
                    == env.text_of(template)
            },
            None => (ExpressionModel { property, labels }).to_template::<K, P>() is None,
        },
{
}

/// In a language over the basic types, a node is text exactly where it is a template, with the same
/// error where it is not, and the text is what the template renders to.
pub proof fn text_is_rendered_template<'i, K, L, I>(
    language: &L,
    variables: Variables<L::Item>,
    node: ExpressionNode<'i>,
    env: Environment<K, I>,
) where L: TemplateLanguage<'i, Keyword = K, Property = CoreTemplatePropertyKind<K>>
    requires
        env.renders_text(),
    ensures
        match plain_text_model(language, variables, node) {
            Ok(text) => template_model(language, variables, node) matches Ok(template)
                && text.value(env) == env.text_of(template),
            Err(e) => template_model(language, variables, node) == Err::<TemplateModel<K>, _>(e),
        },
{
    if let Ok(expression) = expression_model(language, variables, node) {
        text_of_basic_properties(expression.property, env);
        labels_do_not_change_text::<K, I, CoreTemplatePropertyKind<K>>(
            expression.property,
            expression.labels,
            env,
        );
    }
}

/// An alias stands for its expression: it is built as the expression is. Where the expression has
/// an error, the alias has an error at the place where it is written, which names the alias and
/// has the error of the expression as its origin.
pub proof fn aliases_are_transparent<'i, L: TemplateLanguage<'i>>(
    language: &L,
    variables: Variables<L::Item>,
    node: ExpressionNode<'i>,
)
    requires
        node.kind is AliasExpanded,
    ensures
        match expression_model(language, variables, *node.kind->AliasExpanded_1) {
            Ok(expression) => expression_model(language, variables, node) == Ok::<
                _,
                TemplateParseError<'i>,
            >(expression),
            Err(origin) => expression_model(language, variables, node) matches Err(e) && {
                &&& e.kind == TemplateParseErrorKind::BadAliasExpansion(
                    node.kind->AliasExpanded_0,
                )
                &&& e.span == node.span
                &&& e.origin == Some(Box::new(origin))
            },
        },
{
}

/// The labels of an expression: a keyword has its own name as the only label, a method adds its
/// name to the labels of the object, an alias has the labels of what it stands for, and everything
/// else, a variable among them, has none.
pub proof fn labels_of_expressions<'i, L: TemplateLanguage<'i>>(
    language: &L,
    variables: Variables<L::Item>,
    node: ExpressionNode<'i>,
)
    requires
        expression_model(language, variables, node) is Ok,
    ensures
        expression_model(language, variables, node)->Ok_0.labels == (match node.kind {
            ExpressionKind::Identifier(name) => if lookup(variables, name@) is Some {
                Seq::empty()
            } else {
                seq![name@]
            },
            ExpressionKind::MethodCall(method) => expression_model(
                language,
                variables,
                *method.object,
            )->Ok_0.labels.push(method.function.name@),
            ExpressionKind::AliasExpanded(_, subst) => expression_model(
                language,
                variables,
                *subst,
            )->Ok_0.labels,
            _ => Seq::empty(),
        }),
{
    if let ExpressionKind::MethodCall(method) = node.kind {
        assert(expression_model(language, variables, node) == method_call_model(
            language,
            variables,
            method,
        ));
    }
}

/// A variable is seen by its name, and hides a variable of the same name around it. It changes
/// nothing for other names.
pub proof fn inner_variables_hide_outer_ones<T>(
    variables: Variables<T>,
    name: Seq<char>,
    kind: ItemKind<T>,
    other: Seq<char>,
)
    ensures
        lookup(variables.push((name, kind)), name) == Some((variables.len(), kind)),
        other != name ==> lookup(variables.push((name, kind)), other) == lookup(variables, other),
{
    assert(variables.push((name, kind)).drop_last() =~= variables);
}

/// A variable hides a keyword of the same name: whatever the keyword is, the name builds to the
/// item of the list operation that binds the innermost variable of the name.
pub proof fn variables_hide_keywords<'i, L: TemplateLanguage<'i>>(
    language: &L,
    variables: Variables<L::Item>,
    node: ExpressionNode<'i>,
    level: nat,
    kind: ItemKind<L::Item>,
)
    requires
        node.kind is Identifier,
        level < variables.len(),
        variables[level as int] == (node.kind->Identifier_0@, kind),
        forall|i: int|
            level < i < variables.len() ==> (#[trigger] variables[i]).0
                != node.kind->Identifier_0@,
    ensures
        expression_model(language, variables, node) matches Ok(expression) && {
            &&& expression.labels.len() == 0
            &&& expression.property == (match kind {
                ItemKind::String => language.core_model(
                    CoreModel::String(StringModel::Placeholder(level)),
                ),
                ItemKind::Language(item) => language.item_model(item, level),
            })
        },
{
    lemma_innermost(variables, node.kind->Identifier_0@, level);
}

proof fn lemma_innermost<T>(variables: Variables<T>, name: Seq<char>, level: nat)
    requires
        level < variables.len(),
        variables[level as int].0 == name,
        forall|i: int| level < i < variables.len() ==> (#[trigger] variables[i]).0 != name,
    ensures
        lookup(variables, name) == Some((level, variables[level as int].1)),
    decreases variables.len(),
{
    if level < variables.len() - 1 {
        let inner = variables[variables.len() - 1];
        assert(inner.0 != name);
        assert forall|i: int| level < i < variables.drop_last().len() implies (
        #[trigger] variables.drop_last()[i]).0 != name by {
            assert(variables.drop_last()[i] == variables[i]);
        }
        lemma_innermost(variables.drop_last(), name, level);
    }
}

/// A list of expressions is built in order, without leaving any out. If some of them have errors,
/// the error of the first one of these is the error of the list.
pub proof fn lists_are_built_in_order<'i, L: TemplateLanguage<'i>>(
    language: &L,
    variables: Variables<L::Item>,
    nodes: Seq<ExpressionNode<'i>>,
    from: nat,
    to: nat,
)
    requires
        from <= to <= nodes.len(),
    ensures
        match templates_model(language, variables, nodes, from, to) {
            Ok(templates) => {
                &&& templates.len() == to - from
                &&& forall|i: int|
                    from <= i < to ==> template_model(language, variables, #[trigger] nodes[i])
                        == Ok::<_, TemplateParseError<'i>>(templates[i - from])
            },
            Err(e) => exists|first: int|
                {
                    &&& from <= first < to
                    &&& template_model(language, variables, #[trigger] nodes[first]) == Err::<
                        TemplateModel<L::Keyword>,
                        TemplateParseError<'i>,
                    >(e)
                    &&& forall|i: int|
                        from <= i < first ==> template_model(
                            language,
                            variables,
                            #[trigger] nodes[i],
                        ) is Ok
                },
        },
    decreases to,
{
    if from < to {
        lists_are_built_in_order(language, variables, nodes, from, (to - 1) as nat);
        let last = nodes[to - 1];
        if templates_model(language, variables, nodes, from, (to - 1) as nat) is Ok {
            assert(from <= to - 1 < to);
        }
    }
}

/// The function `concat` does what writing its arguments side by side does.
pub proof fn concat_is_concatenation<'i, L: TemplateLanguage<'i>>(
    language: &L,
    variables: Variables<L::Item>,
    node: ExpressionNode<'i>,
    call: ExpressionNode<'i>,
)
    requires
        node.kind is Concat,
        call.kind is FunctionCall,
        call.kind->FunctionCall_0.name@ == "concat"@,
        call.kind->FunctionCall_0.args@ == node.kind->Concat_0@,
    ensures
        expression_model(language, variables, call) == expression_model(language, variables, node),
        template_model(language, variables, call) is Ok ==> template_model(
            language,
            variables,
            call,
        ) == template_model(language, variables, node),
{
    reveal_strlit("concat");
    reveal_strlit("fill");
    reveal_strlit("indent");
    reveal_strlit("label");
    reveal_strlit("if");
    assert("concat"@.len() == 6 && "indent"@.len() == 6 && "concat"@[0] != "indent"@[0]);
    assert("fill"@.len() == 4 && "label"@.len() == 5 && "if"@.len() == 2);
}

/// The labels that the function `label` gives its content are the words of its first argument, in
/// any environment. The content itself stays as it is.
pub proof fn label_values<'i, L: TemplateLanguage<'i>, I>(
    language: &L,
    variables: Variables<L::Item>,
    function: FunctionCallNode<'i>,
    env: Environment<L::Keyword, I>,
)
    requires
        function.name@ == "label"@,
        function_model(language, variables, function) is Ok,
    ensures
        function.args@.len() == 2,
        function_model(language, variables, function)->Ok_0 matches TemplateModel::Label {
            content,
            labels,
        } && {
            &&& template_model(language, variables, function.args@[1]) == Ok::<
                _,
                TemplateParseError<'i>,
            >(*content)
            &&& plain_text_model(language, variables, function.args@[0]) matches Ok(text)
            &&& labels.value(env) == words_of(text.value(env))
        },
{
    reveal_strlit("fill");
    reveal_strlit("indent");
    reveal_strlit("label");
    assert("fill"@.len() == 4 && "indent"@.len() == 6 && "label"@.len() == 5);
}

/// The function `fill` wraps its second argument at the width that its first argument gives, in any
/// environment. A width that is no `usize` counts as 0. The content itself stays as it is.
pub proof fn fill_values<'i, L: TemplateLanguage<'i>, I>(
    language: &L,
    variables: Variables<L::Item>,
    function: FunctionCallNode<'i>,
    env: Environment<L::Keyword, I>,
)
    requires
        function.name@ == "fill"@,
        function_model(language, variables, function) is Ok,
    ensures
        function.args@.len() == 2,
        function_model(language, variables, function)->Ok_0 matches TemplateModel::Fill {
            width,
            content,
        } && {
            &&& integer_model(language, variables, function.args@[0]) == Ok::<
                _,
                TemplateParseError<'i>,
            >(*width)
            &&& template_model(language, variables, function.args@[1]) == Ok::<
                _,
                TemplateParseError<'i>,
            >(*content)
            &&& function_model(language, variables, function)->Ok_0.wrap_width(env) == (if 0
                <= width.value(env) <= usize::MAX {
                width.value(env) as int
            } else {
                0
            })
        },
{
}

/// The function `if` renders its second argument where its first one holds. Elsewhere it renders
/// its third argument, or nothing where there is none.
pub proof fn if_values<'i, L: TemplateLanguage<'i>, I>(
    language: &L,
    variables: Variables<L::Item>,
    function: FunctionCallNode<'i>,
    env: Environment<L::Keyword, I>,
)
    requires
        function.name@ == "if"@,
        function_model(language, variables, function) is Ok,
    ensures
        2 <= function.args@.len() <= 3,
        boolean_model(language, variables, function.args@[0]) matches Ok(condition) && {
            let template = function_model(language, variables, function)->Ok_0;
            &&& template is Conditional
            &&& template->condition == condition
            &&& if condition.value(env) {
                template_model(language, variables, function.args@[1]) matches Ok(t)
                    && template.chosen(env) == Some(t)
            } else if function.args@.len() == 3 {
                template_model(language, variables, function.args@[2]) matches Ok(t)
                    && template.chosen(env) == Some(t)
            } else {
                template.chosen(env) is None
            }
        },
{
    reveal_strlit("fill");
    reveal_strlit("indent");
    reveal_strlit("label");
    reveal_strlit("if");
    assert("fill"@.len() == 4 && "indent"@.len() == 6 && "label"@.len() == 5 && "if"@.len() == 2);
}

/// The lambda that the node is, or that it stands for as an alias.
pub open spec fn lambda_of<'i>(node: ExpressionNode<'i>) -> Option<LambdaNode<'i>>
    decreases node,
{
    match node.kind {
        ExpressionKind::Lambda(lambda) => Some(lambda),
        ExpressionKind::AliasExpanded(_, subst) => lambda_of(*subst),
        _ => None,
    }
}

/// A lambda is no expression, and nothing but a lambda can be applied to the items of a list.
pub proof fn lambdas_are_for_lists<'i, L: TemplateLanguage<'i>>(
    language: &L,
    variables: Variables<L::Item>,
    node: ExpressionNode<'i>,
    kind: ItemKind<L::Item>,
)
    ensures
        lambda_of(node) is Some ==> expression_model(language, variables, node) is Err,
        lambda_of(node) is None ==> lambda_model(language, variables, node, kind) is Err,
    decreases node,
{
    if let ExpressionKind::AliasExpanded(_, subst) = node.kind {
        lambdas_are_for_lists(language, variables, *subst, kind);
    }
}

/// Aliases of a lambda build to the same item template as the lambda does.
proof fn lemma_lambda_behind_aliases<'i, L: TemplateLanguage<'i>>(
    language: &L,
    variables: Variables<L::Item>,
    node: ExpressionNode<'i>,
    kind: ItemKind<L::Item>,
)
    requires
        lambda_of(node) matches Some(lambda) && lambda.params@.len() == 1,
    ensures
        ({
            let lambda = lambda_of(node)->0;
            let inner = variables.push((lambda.params@[0]@, kind));
            let body = template_model(language, inner, *lambda.body);
            &&& lambda_model(language, variables, node, kind) is Ok <==> body is Ok
            &&& body is Ok ==> lambda_model(language, variables, node, kind) == body
        }),
    decreases node,
{
    if let ExpressionKind::AliasExpanded(_, subst) = node.kind {
        lemma_lambda_behind_aliases(language, variables, *subst, kind);
    }
}

/// A list operation renders each item as the body of its lambda says. In the body, the name of the
/// parameter builds to the placeholder that the operation sets. The lambda may be behind aliases.
pub proof fn list_operations_bind_their_parameter<'i, L: TemplateLanguage<'i>>(
    language: &L,
    variables: Variables<L::Item>,
    property: ListModel<L::Keyword>,
    function: FunctionCallNode<'i>,
    kind: ItemKind<L::Item>,
    parameter: ExpressionNode<'i>,
)
    requires
        function.args@.len() == 1,
        lambda_of(function.args@[0]) matches Some(lambda) && lambda.params@.len() == 1,
        parameter.kind == ExpressionKind::Identifier(lambda_of(function.args@[0])->0.params@[0]),
    ensures
        ({
            let lambda = lambda_of(function.args@[0])->0;
            let inner = variables.push((lambda.params@[0]@, kind));
            let body = template_model(language, inner, *lambda.body);
            let result = map_model(language, variables, property, function, kind);
            &&& body is Ok <==> result is Ok
            &&& result matches Ok(core) ==> {
                &&& core matches CoreModel::ListTemplate(ListTemplateModel::ListProperty(list))
                &&& list.property == property
                &&& list.item matches ItemTemplateModel::Template { placeholder, template }
                &&& body == Ok::<_, TemplateParseError<'i>>(*template)
                &&& expression_model(language, inner, parameter) matches Ok(expression)
                &&& expression.labels.len() == 0
                &&& expression.property == (match kind {
                    ItemKind::String => language.core_model(
                        CoreModel::String(StringModel::Placeholder(placeholder)),
                    ),
                    ItemKind::Language(item) => language.item_model(item, placeholder),
                })
            }
        }),
{
    let lambda = lambda_of(function.args@[0])->0;
    lemma_lambda_behind_aliases(language, variables, function.args@[0], kind);
    inner_variables_hide_outer_ones(variables, lambda.params@[0]@, kind, Seq::empty());
}

/// What `map` renders, in any environment: for each item of the list in turn, the template that the
/// lambda gives, while the placeholder of the operation stands for the item.
pub proof fn map_values<'i, L: TemplateLanguage<'i>, I>(
    language: &L,
    variables: Variables<L::Item>,
    property: ListModel<L::Keyword>,
    function: FunctionCallNode<'i>,
    kind: ItemKind<L::Item>,
    env: Environment<L::Keyword, I>,
)
    requires
        map_model(language, variables, property, function, kind) is Ok,
    ensures
        function.args@.len() == 1,
        lambda_model(language, variables, function.args@[0], kind) matches Ok(template) && {
            &&& map_model(language, variables, property, function, kind)->Ok_0
                matches CoreModel::ListTemplate(ListTemplateModel::ListProperty(list))
            &&& *list.separator == TemplateModel::String(
                Box::new(StringModel::<L::Keyword>::Literal(" "@)),
            )
            &&& list.pieces(env).len() == property.value(env).len()
            &&& forall|i: int|
                0 <= i < property.value(env).len() ==> #[trigger] list.pieces(env)[i]
                    == Piece::Template(
                    template,
                    env.with_item(variables.len(), property.value(env)[i]),
                )
        },
{
}

/// What `join` renders of a list, in any environment: each item in turn, with the argument as the
/// separator.
pub proof fn join_values<'i, L: TemplateLanguage<'i>, I>(
    language: &L,
    variables: Variables<L::Item>,
    property: ListModel<L::Keyword>,
    function: FunctionCallNode<'i>,
    kind: ItemKind<L::Item>,
    env: Environment<L::Keyword, I>,
)
    requires
        function.name@ == "join"@,
        formattable_list_method_model(language, variables, property, function, kind) is Ok,
    ensures
        function.args@.len() == 1,
        formattable_list_method_model(language, variables, property, function, kind)->Ok_0
            matches CoreModel::Template(TemplateModel::ListProperty(list)) && {
            &&& template_model(language, variables, function.args@[0]) == Ok::<
                _,
                TemplateParseError<'i>,
            >(*list.separator)
            &&& list.pieces(env) == property.value(env).map_values(
                |item: ItemValue<I>| Piece::<L::Keyword, I>::Item(item),
            )
        },
{
    let list = formattable_list_method_model(
        language,
        variables,
        property,
        function,
        kind,
    )->Ok_0->Template_0->ListProperty_0;
    assert(list.pieces(env) =~= property.value(env).map_values(
        |item: ItemValue<I>| Piece::<L::Keyword, I>::Item(item),
    ));
}

/// What `join` renders of a list template that goes through a list, in any environment: the same
/// pieces as the list template by itself, with the argument as the separator in place of its own.
pub proof fn join_of_list_template_values<'i, L: TemplateLanguage<'i>, I>(
    language: &L,
    variables: Variables<L::Item>,
    list: ListPropertyTemplateModel<L::Keyword>,
    function: FunctionCallNode<'i>,
    env: Environment<L::Keyword, I>,
)
    requires
        list_template_method_model(
            language,
            variables,
            ListTemplateModel::ListProperty(list),
            function,
        ) is Ok,
    ensures
        function.name@ == "join"@ && function.args@.len() == 1,
        ({
            let alone = TemplateModel::List(Box::new(ListTemplateModel::ListProperty(list)));
            let result = list_template_method_model(
                language,
                variables,
                ListTemplateModel::ListProperty(list),
                function,
            )->Ok_0;
            &&& alone.separated_pieces(env) == Some((list.pieces(env), *list.separator))
            &&& template_model(language, variables, function.args@[0]) matches Ok(separator)
            &&& result matches CoreModel::Template(template)
            &&& template.separated_pieces(env) == Some((list.pieces(env), separator))
        }),
{
}

/// The items of a list of strings are its strings. While a placeholder stands for one of them, that
/// is its value as a string, and other placeholders stand for what they did.
pub proof fn placeholders_stand_for_items<K, I>(
    property: StringListModel<K>,
    env: Environment<K, I>,
    i: int,
    placeholder: Level,
    other: Level,
)
    requires
        0 <= i < property.value(env).len(),
    ensures
        ListModel::Strings(property).value(env).len() == property.value(env).len(),
        ({
            let item = ListModel::Strings(property).value(env)[i];
            let inner = env.with_item(placeholder, item);
            &&& StringModel::Placeholder(placeholder).value(inner) == property.value(env)[i]
            &&& other != placeholder ==> inner.items[other] == env.items[other]
        }),
{
}

/// What the methods of a string give, in any environment.
pub proof fn string_method_values<'i, L: TemplateLanguage<'i>, I>(
    language: &L,
    variables: Variables<L::Item>,
    property: StringModel<L::Keyword>,
    function: FunctionCallNode<'i>,
    env: Environment<L::Keyword, I>,
)
    ensures
        function.name@ == "contains"@ && function.args@.len() == 1 ==> (plain_text_model(
            language,
            variables,
            function.args@[0],
        ) matches Ok(needle) ==> {
            &&& string_method_model(language, variables, property, function) matches Ok(
                CoreModel::Boolean(p),
            )
            &&& p.value(env) == is_part_of(needle.value(env), property.value(env))
        }),
        function.name@ == "first_line"@ && function.args@.len() == 0 ==> {
            &&& string_method_model(language, variables, property, function) matches Ok(
                CoreModel::String(p),
            )
            &&& p.value(env) == first_line_of(property.value(env))
        },
        function.name@ == "lines"@ && function.args@.len() == 0 ==> {
            &&& string_method_model(language, variables, property, function) matches Ok(
                CoreModel::StringList(p),
            )
            &&& p.value(env) == lines_of(property.value(env))
        },
        function.name@ == "upper"@ && function.args@.len() == 0 ==> {
            &&& string_method_model(language, variables, property, function) matches Ok(
                CoreModel::String(p),
            )
            &&& p.value(env) == uppercase(property.value(env))
        },
        function.name@ == "lower"@ && function.args@.len() == 0 ==> {
            &&& string_method_model(language, variables, property, function) matches Ok(
                CoreModel::String(p),
            )
            &&& p.value(env) == lowercase(property.value(env))
        },
{
    reveal_strlit("contains");
    reveal_strlit("first_line");
    reveal_strlit("lines");
    reveal_strlit("upper");
    reveal_strlit("lower");
    assert("contains"@.len() == 8 && "first_line"@.len() == 10);
    assert("lines"@.len() == 5 && "upper"@.len() == 5 && "lower"@.len() == 5);
    assert("lines"@[0] != "upper"@[0]);
    assert("lines"@[1] != "lower"@[1]);
    assert("upper"@[0] != "lower"@[0]);
}

/// The first line of a string is the first of its lines, or empty where it has no lines. It is the
/// start of the string, up to a line feed at most.
pub proof fn first_line_is_first_of_lines<'i, L: TemplateLanguage<'i>, I>(
    language: &L,
    variables: Variables<L::Item>,
    property: StringModel<L::Keyword>,
    first_line: FunctionCallNode<'i>,
    lines: FunctionCallNode<'i>,
    env: Environment<L::Keyword, I>,
)
    requires
        first_line.name@ == "first_line"@ && first_line.args@.len() == 0,
        lines.name@ == "lines"@ && lines.args@.len() == 0,
    ensures
        string_method_model(language, variables, property, first_line) matches Ok(
            CoreModel::String(f),
        ) && {
            &&& string_method_model(language, variables, property, lines) matches Ok(
                CoreModel::StringList(l),
            )
            &&& f.value(env) == (if l.value(env).len() == 0 {
                Seq::empty()
            } else {
                l.value(env)[0]
            })
            &&& f.value(env).is_prefix_of(property.value(env))
            &&& !f.value(env).contains('\n')
        },
{
    string_method_values(language, variables, property, first_line, env);
    string_method_values(language, variables, property, lines, env);
    first_line_is_start(property.value(env));
}

/// What the methods of a signature give, in any environment.
pub proof fn signature_method_values<'i, K, I>(
    property: SignatureModel<K>,
    function: FunctionCallNode<'i>,
    env: Environment<K, I>,
)
    requires
        function.args@.len() == 0,
    ensures
        function.name@ == "name"@ ==> {
            &&& signature_method_model(property, function) matches Ok(CoreModel::String(p))
            &&& p.value(env) == property.value(env).name@
        },
        function.name@ == "email"@ ==> {
            &&& signature_method_model(property, function) matches Ok(CoreModel::String(p))
            &&& p.value(env) == property.value(env).email@
        },
        function.name@ == "username"@ ==> {
            &&& signature_method_model(property, function) matches Ok(CoreModel::String(p))
            &&& p.value(env) == property.value(env).email@.take(
                index_of(property.value(env).email@, '@') as int,
            )
        },
        function.name@ == "timestamp"@ ==> {
            &&& signature_method_model(property, function) matches Ok(CoreModel::Timestamp(p))
            &&& p.value(env) == property.value(env).timestamp
        },
{
    reveal_strlit("name");
    reveal_strlit("email");
    reveal_strlit("username");
    reveal_strlit("timestamp");
    assert("name"@.len() == 4 && "email"@.len() == 5);
    assert("username"@.len() == 8 && "timestamp"@.len() == 9);
}

/// Every method of a timestamp gives the timestamp written out in UTC, whatever its name.
pub proof fn timestamp_method_values<'i, K, I>(
    property: TimestampModel<K>,
    function: FunctionCallNode<'i>,
    env: Environment<K, I>,
)
    requires
        function.args@.len() == 0,
    ensures
        timestamp_method_model(property, function) matches Ok(CoreModel::String(p)) && p.value(env)
            == (env.utc)(property.value(env)),
{
}

/// What the methods of a range of time give, in any environment.
pub proof fn timestamp_range_method_values<'i, K, I>(
    property: TimestampRangeModel<K>,
    function: FunctionCallNode<'i>,
    env: Environment<K, I>,
)
    requires
        function.args@.len() == 0,
    ensures
        function.name@ == "start"@ ==> {
            &&& timestamp_range_method_model(property, function) matches Ok(CoreModel::Timestamp(p))
            &&& p.value(env) == property.value(env).start
        },
        function.name@ == "end"@ ==> {
            &&& timestamp_range_method_model(property, function) matches Ok(CoreModel::Timestamp(p))
            &&& p.value(env) == property.value(env).end
        },
        function.name@ == "duration"@ ==> {
            &&& timestamp_range_method_model(property, function) matches Ok(CoreModel::String(p))
            &&& p.value(env) == (env.duration)(property.value(env))
        },
{
    reveal_strlit("start");
    reveal_strlit("end");
    reveal_strlit("duration");
    assert("start"@.len() == 5 && "end"@.len() == 3 && "duration"@.len() == 8);
}

/// Only the methods of its type can be called on a property of a basic type. A timestamp takes
/// every name; booleans, integers and templates take none.
pub proof fn methods_of_basic_properties<'i, L: TemplateLanguage<'i>>(
    language: &L,
    variables: Variables<L::Item>,
    property: CoreModel<L::Keyword>,
    function: FunctionCallNode<'i>,
)
    requires
        core_method_model(language, variables, property, function) is Ok,
    ensures
        match property {
            CoreModel::String(_) => seq![
                "contains"@,
                "first_line"@,
                "lines"@,
                "upper"@,
                "lower"@,
            ].contains(function.name@),
            CoreModel::StringList(_) => seq!["join"@, "map"@].contains(function.name@),
            CoreModel::Boolean(_) => false,
            CoreModel::Integer(_) => false,
            CoreModel::Signature(_) => seq![
                "name"@,
                "email"@,
                "username"@,
                "timestamp"@,
            ].contains(function.name@),
            CoreModel::Timestamp(_) => true,
            CoreModel::TimestampRange(_) => seq!["start"@, "end"@, "duration"@].contains(
                function.name@,
            ),
            CoreModel::Template(_) => false,
            CoreModel::ListTemplate(_) => seq!["join"@].contains(function.name@),
        },
{
    let strings = seq!["contains"@, "first_line"@, "lines"@, "upper"@, "lower"@];
    assert(strings[0] == "contains"@ && strings[1] == "first_line"@ && strings[2] == "lines"@
        && strings[3] == "upper"@ && strings[4] == "lower"@);
    let lists = seq!["join"@, "map"@];
    assert(lists[0] == "join"@ && lists[1] == "map"@);
    let signatures = seq!["name"@, "email"@, "username"@, "timestamp"@];
    assert(signatures[0] == "name"@ && signatures[1] == "email"@ && signatures[2] == "username"@
        && signatures[3] == "timestamp"@);
    let ranges = seq!["start"@, "end"@, "duration"@];
    assert(ranges[0] == "start"@ && ranges[1] == "end"@ && ranges[2] == "duration"@);
    let list_templates = seq!["join"@];
    assert(list_templates[0] == "join"@);
}

} // verus!
