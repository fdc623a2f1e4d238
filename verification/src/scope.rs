//! Which placeholders a tree may use.
//!
//! A list operation sets its placeholder while it renders its items. A tree is in scope at depth
//! `n` if it stands inside `n` list operations, its placeholder nodes are those of these operations
//! only, and each list operation in it sets the placeholder that is next. Rendering a tree in scope
//! at depth 0 meets no placeholder node whose placeholder is not set.
//!
//! Keywords are not looked into. A language may keep a placeholder in a keyword, and then it is the
//! language's business that the placeholder is set.

use vstd::prelude::*;

use crate::build_context::{lookup, ItemKind, Variables};
use crate::build_model::{
    boolean_model, core_method_model, expression_model, formattable_list_method_model,
    function_model, integer_model, lambda_model, map_model, method_call_model,
    plain_text_model, template_model, templates_model, unformattable_list_method_model, wrapped,
};
use crate::template_language::{PropertyModel, TemplateLanguage};
use crate::template_parser::{ExpressionKind, ExpressionNode, FunctionCallNode, MethodCallNode};
use crate::template_property::{CoreModel, CoreTemplatePropertyKind, IntoTemplateProperty};
use crate::templater::{
    BooleanModel, IntegerModel, ItemTemplateModel, ListModel, ListPropertyTemplateModel,
    ListTemplateModel, SignatureModel, StringListModel, StringModel, TemplateModel, TimestampModel,
    TimestampRangeModel,
};

verus! {

impl<K> StringModel<K> {
    pub open spec fn in_scope(self, depth: nat) -> bool
        decreases self,
    {
        match self {
            StringModel::Literal(_) => true,
            StringModel::Keyword(_) => true,
            StringModel::Placeholder(p) => p < depth,
            StringModel::OfString(_, p) => p.in_scope(depth),
            StringModel::OfSignature(_, p) => p.in_scope(depth),
            StringModel::Utc(p) => p.in_scope(depth),
            StringModel::Duration(p) => p.in_scope(depth),
            StringModel::PlainText(p) => p.in_scope(depth),
        }
    }
}

impl<K> StringListModel<K> {
    pub open spec fn in_scope(self, depth: nat) -> bool
        decreases self,
    {
        match self {
            StringListModel::Literal(_) => true,
            StringListModel::Keyword(_) => true,
            StringListModel::Placeholder(p) => p < depth,
            StringListModel::OfString(_, p) => p.in_scope(depth),
        }
    }
}

impl<K> BooleanModel<K> {
    pub open spec fn in_scope(self, depth: nat) -> bool
        decreases self,
    {
        match self {
            BooleanModel::Keyword(_) => true,
            BooleanModel::Placeholder(p) => p < depth,
            BooleanModel::NotEmpty(p) => p.in_scope(depth),
            BooleanModel::Contains(a, b) => a.in_scope(depth) && b.in_scope(depth),
        }
    }
}

impl<K> IntegerModel<K> {
    pub open spec fn in_scope(self, depth: nat) -> bool {
        match self {
            IntegerModel::Literal(_) => true,
            IntegerModel::Keyword(_) => true,
            IntegerModel::Placeholder(p) => p < depth,
        }
    }
}

impl<K> SignatureModel<K> {
    pub open spec fn in_scope(self, depth: nat) -> bool {
        match self {
            SignatureModel::Keyword(_) => true,
            SignatureModel::Placeholder(p) => p < depth,
        }
    }
}

impl<K> TimestampModel<K> {
    pub open spec fn in_scope(self, depth: nat) -> bool {
        match self {
            TimestampModel::Keyword(_) => true,
            TimestampModel::Placeholder(p) => p < depth,
            TimestampModel::OfSignature(p) => p.in_scope(depth),
            TimestampModel::OfRange(_, p) => p.in_scope(depth),
        }
    }
}

impl<K> TimestampRangeModel<K> {
    pub open spec fn in_scope(self, depth: nat) -> bool {
        match self {
            TimestampRangeModel::Keyword(_) => true,
            TimestampRangeModel::Placeholder(p) => p < depth,
        }
    }
}

impl<K> ListModel<K> {
    pub open spec fn in_scope(self, depth: nat) -> bool
        decreases self,
    {
        match self {
            ListModel::Strings(p) => p.in_scope(depth),
            ListModel::Keyword(_) => true,
        }
    }
}

impl<K> ItemTemplateModel<K> {
    pub open spec fn in_scope(self, depth: nat) -> bool
        decreases self,
    {
        match self {
            ItemTemplateModel::Item => true,
            ItemTemplateModel::Template { placeholder, template } => {
                &&& placeholder == depth
                &&& template.in_scope(depth + 1)
            },
        }
    }
}

impl<K> ListPropertyTemplateModel<K> {
    pub open spec fn in_scope(self, depth: nat) -> bool
        decreases self,
    {
        &&& self.property.in_scope(depth)
        &&& self.separator.in_scope(depth)
        &&& self.item.in_scope(depth)
    }
}

impl<K> ListTemplateModel<K> {
    pub open spec fn in_scope(self, depth: nat) -> bool
        decreases self,
    {
        match self {
            ListTemplateModel::Keyword(_) => true,
            ListTemplateModel::ListProperty(p) => p.in_scope(depth),
        }
    }
}

impl<K> TemplateModel<K> {
    pub open spec fn in_scope(self, depth: nat) -> bool
        decreases self,
    {
        match self {
            TemplateModel::Keyword(_) => true,
            TemplateModel::String(p) => p.in_scope(depth),
            TemplateModel::StringList(p) => p.in_scope(depth),
            TemplateModel::Boolean(p) => p.in_scope(depth),
            TemplateModel::Integer(p) => p.in_scope(depth),
            TemplateModel::Signature(p) => p.in_scope(depth),
            TemplateModel::Timestamp(p) => p.in_scope(depth),
            TemplateModel::TimestampRange(p) => p.in_scope(depth),
            TemplateModel::List(p) => p.in_scope(depth),
            TemplateModel::ListProperty(p) => p.in_scope(depth),
            TemplateModel::Join(a, b) => a.in_scope(depth) && b.in_scope(depth),
            TemplateModel::Fill { width, content } => {
                &&& width.in_scope(depth)
                &&& content.in_scope(depth)
            },
            TemplateModel::Indent { prefix, content } => {
                &&& prefix.in_scope(depth)
                &&& content.in_scope(depth)
            },
            TemplateModel::Label { content, labels } => {
                &&& content.in_scope(depth)
                &&& labels.in_scope(depth)
            },
            TemplateModel::Conditional { condition, true_template, false_template } => {
                &&& condition.in_scope(depth)
                &&& true_template.in_scope(depth)
                &&& false_template matches Some(t) ==> t.in_scope(depth)
            },
            TemplateModel::Concat(contents) => {
                forall|i: int|
                    0 <= i < contents.len() ==> (#[trigger] contents[i]).in_scope(depth)
            },
            TemplateModel::Separate { separator, contents } => {
                &&& separator.in_scope(depth)
                &&& forall|i: int|
                    0 <= i < contents.len() ==> (#[trigger] contents[i]).in_scope(depth)
            },
        }
    }
}

impl<K> CoreModel<K> {
    pub open spec fn in_scope(self, depth: nat) -> bool {
        match self {
            CoreModel::String(p) => p.in_scope(depth),
            CoreModel::StringList(p) => p.in_scope(depth),
            CoreModel::Boolean(p) => p.in_scope(depth),
            CoreModel::Integer(p) => p.in_scope(depth),
            CoreModel::Signature(p) => p.in_scope(depth),
            CoreModel::Timestamp(p) => p.in_scope(depth),
            CoreModel::TimestampRange(p) => p.in_scope(depth),
            CoreModel::Template(p) => p.in_scope(depth),
            CoreModel::ListTemplate(p) => p.in_scope(depth),
        }
    }
}

/// Whether the language keeps scope, where `in_scope` tells which of its properties are in scope
/// at a depth:
/// - its properties of basic types are in scope exactly where the basic properties are,
/// - its items are in scope inside the list operation that sets them,
/// - its keywords are in scope everywhere,
/// - what its properties are converted to is in scope where they are, and
/// - it hands a method call to `build_core_method` or to one of the list methods, or it gives a
///   property that is in scope where the object is.
#[verifier::opaque]
pub open spec fn keeps_scope<'i, L: TemplateLanguage<'i>>(
    language: &L,
    in_scope: spec_fn(PropertyModel<'i, L>, nat) -> bool,
) -> bool {
    &&& forall|core: CoreModel<L::Keyword>, depth: nat|
        #[trigger] in_scope(language.core_model(core), depth) <==> core.in_scope(depth)
    &&& forall|item: L::Item, level: nat, depth: nat|
        level < depth ==> #[trigger] in_scope(language.item_model(item, level), depth)
    &&& forall|name: &'i str, span: pest::Span<'i>, depth: nat|
        language.keyword_model(name, span) matches Ok(property) ==> #[trigger] in_scope(
            language.keyword_model(name, span)->Ok_0,
            depth,
        )
    &&& forall|property: PropertyModel<'i, L>, depth: nat|
        #[trigger] in_scope(property, depth) ==> converts_in_scope::<L>(property, depth)
    &&& forall|
        variables: Variables<L::Item>,
        property: PropertyModel<'i, L>,
        function: FunctionCallNode<'i>,
    |
        {
            ||| hands_to_core(language, variables, property, function)
            ||| hands_to_list(language, in_scope, variables, property, function)
            ||| (in_scope(property, variables.len()) && (#[trigger] language.method_model(
                variables,
                property,
                function,
            )) is Ok ==> in_scope(
                language.method_model(variables, property, function)->Ok_0,
                variables.len(),
            ))
        }
}

/// Whether everything that the property is converted to is in scope at the depth.
pub open spec fn converts_in_scope<'i, L: TemplateLanguage<'i>>(
    property: PropertyModel<'i, L>,
    depth: nat,
) -> bool {
    &&& L::Property::boolean_model(property) matches Some(p) ==> p.in_scope(depth)
    &&& L::Property::integer_model(property) matches Some(p) ==> p.in_scope(depth)
    &&& L::Property::plain_text_model(property) matches Some(p) ==> p.in_scope(depth)
    &&& L::Property::template_model(property) matches Some(t) ==> t.in_scope(depth)
}

/// Whether the property has a basic type and the language builds the method call as
/// `build_core_method` does.
pub open spec fn hands_to_core<'i, L: TemplateLanguage<'i>>(
    language: &L,
    variables: Variables<L::Item>,
    property: PropertyModel<'i, L>,
    function: FunctionCallNode<'i>,
) -> bool {
    exists|core: CoreModel<L::Keyword>|
        property == #[trigger] language.core_model(core) && language.method_model(
            variables,
            property,
            function,
        ) == wrapped(language, core_method_model(language, variables, core, function))
}

/// Whether the property holds a list that is in scope where the property is, and the language
/// builds the method call as one of the list methods does.
pub open spec fn hands_to_list<'i, L: TemplateLanguage<'i>>(
    language: &L,
    in_scope: spec_fn(PropertyModel<'i, L>, nat) -> bool,
    variables: Variables<L::Item>,
    property: PropertyModel<'i, L>,
    function: FunctionCallNode<'i>,
) -> bool {
    exists|list: ListModel<L::Keyword>, kind: ItemKind<L::Item>|
        builds_as_list(language, variables, property, function, list, kind) && (in_scope(
            property,
            variables.len(),
        ) ==> list.in_scope(variables.len()))
}

/// Whether the language builds the method call as one of the list methods does for the list.
pub open spec fn builds_as_list<'i, L: TemplateLanguage<'i>>(
    language: &L,
    variables: Variables<L::Item>,
    property: PropertyModel<'i, L>,
    function: FunctionCallNode<'i>,
    list: ListModel<L::Keyword>,
    kind: ItemKind<L::Item>,
) -> bool {
    let result = language.method_model(variables, property, function);
    ||| result == wrapped(
        language,
        formattable_list_method_model(language, variables, list, function, kind),
    )
    ||| result == wrapped(
        language,
        unformattable_list_method_model(language, variables, list, function, kind),
    )
}

/// A variable in scope stands for the item of an enclosing list operation.
proof fn lemma_lookup_level<T>(variables: Variables<T>, name: Seq<char>)
    ensures
        lookup(variables, name) matches Some((level, kind)) ==> level < variables.len()
            && variables[level as int] == (name, kind),
    decreases variables.len(),
{
    if variables.len() > 0 {
        lemma_lookup_level(variables.drop_last(), name);
    }
}

/// What is built inside `n` list operations is in scope at depth `n`.
pub proof fn expressions_are_in_scope<'i, L: TemplateLanguage<'i>>(
    language: &L,
    in_scope: spec_fn(PropertyModel<'i, L>, nat) -> bool,
    variables: Variables<L::Item>,
    node: ExpressionNode<'i>,
)
    requires
        keeps_scope(language, in_scope),
    ensures
        expression_model(language, variables, node) matches Ok(expression) ==> in_scope(
            expression.property,
            variables.len(),
        ),
    decreases node, 0nat,
{
    reveal(keeps_scope);
    match node.kind {
        ExpressionKind::Identifier(name) => {
            lemma_lookup_level(variables, name@);
        },
        ExpressionKind::Integer(_) => {},
        ExpressionKind::String(_) => {},
        ExpressionKind::Concat(nodes) => {
            lemma_templates_in_scope(language, in_scope, variables, nodes@, 0, nodes@.len());
        },
        ExpressionKind::FunctionCall(function) => {
            lemma_function_in_scope(language, in_scope, variables, function);
        },
        ExpressionKind::MethodCall(method) => {
            lemma_method_call_in_scope(language, in_scope, variables, method);
        },
        ExpressionKind::Lambda(_) => {},
        ExpressionKind::AliasExpanded(_, subst) => {
            expressions_are_in_scope(language, in_scope, variables, *subst);
        },
    }
}

/// What a node is converted to is in scope where it is built.
proof fn lemma_conversions_in_scope<'i, L: TemplateLanguage<'i>>(
    language: &L,
    in_scope: spec_fn(PropertyModel<'i, L>, nat) -> bool,
    variables: Variables<L::Item>,
    node: ExpressionNode<'i>,
)
    requires
        keeps_scope(language, in_scope),
    ensures
        boolean_model(language, variables, node) matches Ok(p) ==> p.in_scope(variables.len()),
        integer_model(language, variables, node) matches Ok(p) ==> p.in_scope(variables.len()),
        plain_text_model(language, variables, node) matches Ok(p) ==> p.in_scope(variables.len()),
        template_model(language, variables, node) matches Ok(t) ==> t.in_scope(variables.len()),
    decreases node, 1nat,
{
    reveal(keeps_scope);
    expressions_are_in_scope(language, in_scope, variables, node);
    if let Ok(expression) = expression_model(language, variables, node) {
        assert(converts_in_scope::<L>(expression.property, variables.len()));
        if let Some(template) = L::Property::template_model(expression.property) {
            let labels = StringListModel::<L::Keyword>::Literal(expression.labels);
            assert(labels.in_scope(variables.len()));
        }
    }
}

proof fn lemma_templates_in_scope<'i, L: TemplateLanguage<'i>>(
    language: &L,
    in_scope: spec_fn(PropertyModel<'i, L>, nat) -> bool,
    variables: Variables<L::Item>,
    nodes: Seq<ExpressionNode<'i>>,
    from: nat,
    to: nat,
)
    requires
        keeps_scope(language, in_scope),
    ensures
        templates_model(language, variables, nodes, from, to) matches Ok(templates) ==> forall|
            i: int,
        |
            0 <= i < templates.len() ==> (#[trigger] templates[i]).in_scope(variables.len()),
    decreases nodes, to,
{
    if from < to <= nodes.len() {
        lemma_templates_in_scope(language, in_scope, variables, nodes, from, (to - 1) as nat);
        lemma_conversions_in_scope(language, in_scope, variables, nodes[to - 1]);
    }
}

proof fn lemma_function_in_scope<'i, L: TemplateLanguage<'i>>(
    language: &L,
    in_scope: spec_fn(PropertyModel<'i, L>, nat) -> bool,
    variables: Variables<L::Item>,
    function: FunctionCallNode<'i>,
)
    requires
        keeps_scope(language, in_scope),
    ensures
        function_model(language, variables, function) matches Ok(template) ==> template.in_scope(
            variables.len(),
        ),
    decreases function, 0nat,
{
    let args = function.args@;
    lemma_templates_in_scope(language, in_scope, variables, args, 0, args.len());
    lemma_templates_in_scope(language, in_scope, variables, args, 1, args.len());
    if args.len() > 0 {
        lemma_conversions_in_scope(language, in_scope, variables, args[0]);
    }
    if args.len() > 1 {
        lemma_conversions_in_scope(language, in_scope, variables, args[1]);
    }
    if args.len() > 2 {
        lemma_conversions_in_scope(language, in_scope, variables, args[2]);
    }
    if let Ok(TemplateModel::Label { labels, .. }) = function_model(
        language,
        variables,
        function,
    ) {
        assert(labels.in_scope(variables.len()));
    }
}

proof fn lemma_method_call_in_scope<'i, L: TemplateLanguage<'i>>(
    language: &L,
    in_scope: spec_fn(PropertyModel<'i, L>, nat) -> bool,
    variables: Variables<L::Item>,
    method: MethodCallNode<'i>,
)
    requires
        keeps_scope(language, in_scope),
    ensures
        method_call_model(language, variables, method) matches Ok(expression) ==> in_scope(
            expression.property,
            variables.len(),
        ),
    decreases method, 0nat,
{
    reveal(keeps_scope);
    expressions_are_in_scope(language, in_scope, variables, *method.object);
    if let Ok(object) = expression_model(language, variables, *method.object) {
        if hands_to_core(language, variables, object.property, method.function) {
            let core = choose|core: CoreModel<L::Keyword>|
                object.property == #[trigger] language.core_model(core) && language.method_model(
                    variables,
                    object.property,
                    method.function,
                ) == wrapped(
                    language,
                    core_method_model(language, variables, core, method.function),
                );
            core_methods_keep_scope(language, in_scope, variables, core, method.function);
        } else if hands_to_list(
            language,
            in_scope,
            variables,
            object.property,
            method.function,
        ) {
            let (list, kind) = choose|list: ListModel<L::Keyword>, kind: ItemKind<L::Item>|
                builds_as_list(
                    language,
                    variables,
                    object.property,
                    method.function,
                    list,
                    kind,
                ) && list.in_scope(variables.len());
            list_methods_keep_scope(language, in_scope, variables, list, method.function, kind);
        }
    }
}

/// What a method of a basic property gives is in scope where the property is.
pub proof fn core_methods_keep_scope<'i, L: TemplateLanguage<'i>>(
    language: &L,
    in_scope: spec_fn(PropertyModel<'i, L>, nat) -> bool,
    variables: Variables<L::Item>,
    property: CoreModel<L::Keyword>,
    function: FunctionCallNode<'i>,
)
    requires
        keeps_scope(language, in_scope),
        property.in_scope(variables.len()),
    ensures
        core_method_model(language, variables, property, function) matches Ok(result)
            ==> result.in_scope(variables.len()),
    decreases function, 1nat,
{
    let depth = variables.len();
    if function.args@.len() > 0 {
        lemma_conversions_in_scope(language, in_scope, variables, function.args@[0]);
    }
    match property {
        CoreModel::String(_) => {
            let result = core_method_model(language, variables, property, function);
            if let Ok(CoreModel::Boolean(p)) = result {
                assert(p.in_scope(depth));
            } else if let Ok(CoreModel::String(p)) = result {
                assert(p.in_scope(depth));
            } else if let Ok(CoreModel::StringList(p)) = result {
                assert(p.in_scope(depth));
            }
        },
        CoreModel::StringList(p) => {
            assert(ListModel::Strings(p).in_scope(depth));
            list_methods_keep_scope(
                language,
                in_scope,
                variables,
                ListModel::Strings(p),
                function,
                ItemKind::String,
            );
        },
        CoreModel::Boolean(_) => {},
        CoreModel::Integer(_) => {},
        CoreModel::Signature(_) => {
            let result = core_method_model(language, variables, property, function);
            if let Ok(CoreModel::String(p)) = result {
                assert(p.in_scope(depth));
            } else if let Ok(CoreModel::Timestamp(p)) = result {
                assert(p.in_scope(depth));
            }
        },
        CoreModel::Timestamp(_) => {
            let result = core_method_model(language, variables, property, function);
            if let Ok(CoreModel::String(p)) = result {
                assert(p.in_scope(depth));
            }
        },
        CoreModel::TimestampRange(_) => {
            let result = core_method_model(language, variables, property, function);
            if let Ok(CoreModel::String(p)) = result {
                assert(p.in_scope(depth));
            } else if let Ok(CoreModel::Timestamp(p)) = result {
                assert(p.in_scope(depth));
            }
        },
        CoreModel::Template(_) => {},
        CoreModel::ListTemplate(_) => {
            let result = core_method_model(language, variables, property, function);
            if let Ok(CoreModel::Template(t)) = result {
                assert(t.in_scope(depth));
            }
        },
    }
}

/// What a method of a list gives is in scope where the list is.
pub proof fn list_methods_keep_scope<'i, L: TemplateLanguage<'i>>(
    language: &L,
    in_scope: spec_fn(PropertyModel<'i, L>, nat) -> bool,
    variables: Variables<L::Item>,
    property: ListModel<L::Keyword>,
    function: FunctionCallNode<'i>,
    kind: ItemKind<L::Item>,
)
    requires
        keeps_scope(language, in_scope),
        property.in_scope(variables.len()),
    ensures
        formattable_list_method_model(language, variables, property, function, kind) matches Ok(
            result,
        ) ==> result.in_scope(variables.len()),
        unformattable_list_method_model(language, variables, property, function, kind) matches Ok(
            result,
        ) ==> result.in_scope(variables.len()),
    decreases function, 0nat,
{
    let depth = variables.len();
    if function.args@.len() > 0 {
        lemma_conversions_in_scope(language, in_scope, variables, function.args@[0]);
        lemma_lambda_in_scope(language, in_scope, variables, function.args@[0], kind);
    }
    if let Ok(CoreModel::ListTemplate(ListTemplateModel::ListProperty(list))) = map_model(
        language,
        variables,
        property,
        function,
        kind,
    ) {
        assert(StringModel::<L::Keyword>::Literal(" "@).in_scope(depth));
        assert(list.separator.in_scope(depth));
        assert(list.item.in_scope(depth));
        assert(list.in_scope(depth));
        assert(ListTemplateModel::ListProperty(list).in_scope(depth));
    }
    if let Ok(CoreModel::Template(TemplateModel::ListProperty(list))) =
        formattable_list_method_model(language, variables, property, function, kind) {
        assert(list.item.in_scope(depth));
        assert(list.in_scope(depth));
    }
}

proof fn lemma_lambda_in_scope<'i, L: TemplateLanguage<'i>>(
    language: &L,
    in_scope: spec_fn(PropertyModel<'i, L>, nat) -> bool,
    variables: Variables<L::Item>,
    node: ExpressionNode<'i>,
    kind: ItemKind<L::Item>,
)
    requires
        keeps_scope(language, in_scope),
    ensures
        lambda_model(language, variables, node, kind) matches Ok(template) ==> template.in_scope(
            variables.len() + 1,
        ),
    decreases node, 0nat,
{
    match node.kind {
        ExpressionKind::Lambda(lambda) => {
            if lambda.params@.len() == 1 {
                lemma_conversions_in_scope(
                    language,
                    in_scope,
                    variables.push((lambda.params@[0]@, kind)),
                    *lambda.body,
                );
            }
        },
        ExpressionKind::AliasExpanded(_, subst) => {
            lemma_lambda_in_scope(language, in_scope, variables, *subst, kind);
        },
        _ => {},
    }
}

/// The placeholder nodes of a template that is built in a fresh context are those that its own list
/// operations set. Its keywords are not looked into.
pub proof fn built_templates_are_closed<'i, L: TemplateLanguage<'i>>(
    language: &L,
    in_scope: spec_fn(PropertyModel<'i, L>, nat) -> bool,
    node: ExpressionNode<'i>,
)
    requires
        keeps_scope(language, in_scope),
    ensures
        template_model(language, Seq::empty(), node) matches Ok(template) ==> template.in_scope(0),
{
    lemma_conversions_in_scope(language, in_scope, Seq::empty(), node);
}

/// Converting a property of a basic type keeps it in scope.
pub proof fn core_conversions_keep_scope<K>(property: CoreModel<K>, depth: nat)
    requires
        property.in_scope(depth),
    ensures
        CoreTemplatePropertyKind::<K>::boolean_model(property) matches Some(p) ==> p.in_scope(
            depth,
        ),
        CoreTemplatePropertyKind::<K>::integer_model(property) matches Some(p) ==> p.in_scope(
            depth,
        ),
        CoreTemplatePropertyKind::<K>::plain_text_model(property) matches Some(p) ==> p.in_scope(
            depth,
        ),
        CoreTemplatePropertyKind::<K>::template_model(property) matches Some(t) ==> t.in_scope(
            depth,
        ),
{
    assert(property.to_template().in_scope(depth));
}

/// A language keeps scope if its properties are those of the basic types, its items and keywords
/// are in scope where they have to be, and it hands every method call to `build_core_method`.
pub proof fn basic_languages_keep_scope<'i, K, L>(language: &L) where
    L: TemplateLanguage<'i, Keyword = K, Property = CoreTemplatePropertyKind<K>>,

    requires
        forall|core: CoreModel<K>| #[trigger] language.core_model(core) == core,
        forall|item: L::Item, level: nat, depth: nat|
            level < depth ==> #[trigger] language.item_model(item, level).in_scope(depth),
        forall|name: &'i str, span: pest::Span<'i>, depth: nat|
            language.keyword_model(name, span) is Ok ==> #[trigger] language.keyword_model(
                name,
                span,
            )->Ok_0.in_scope(depth),
        forall|variables: Variables<L::Item>, core: CoreModel<K>, function: FunctionCallNode<'i>|
            #[trigger] language.method_model(variables, core, function) == wrapped(
                language,
                core_method_model(language, variables, core, function),
            ),
    ensures
        keeps_scope(language, |property: CoreModel<K>, depth: nat| property.in_scope(depth)),
{
    reveal(keeps_scope);
    let in_scope = |property: CoreModel<K>, depth: nat| property.in_scope(depth);
    assert forall|property: CoreModel<K>, depth: nat| #[trigger]
        in_scope(property, depth) implies converts_in_scope::<L>(property, depth) by {
        core_conversions_keep_scope(property, depth);
    }
    assert forall|
        variables: Variables<L::Item>,
        property: CoreModel<K>,
        function: FunctionCallNode<'i>,
    | hands_to_core(language, variables, property, function) by {
        assert(property == language.core_model(property));
    }
}

} // verus!
