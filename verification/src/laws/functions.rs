//! What the global functions give, and which errors they have.

use vstd::prelude::*;

use crate::build_context::Variables;
use crate::build_model::{
    boolean_model, function_model, integer_model, plain_text_model, template_model, templates_model,
};
use crate::laws::lists_are_built_in_order;
use crate::template_function::StringListFunction;
use crate::template_language::TemplateLanguage;
use crate::template_parser::{
    ArgumentCount, FunctionCallNode, TemplateParseErrorKind,
};
use crate::templater::{StringListModel, TemplateModel};

verus! {

/// The names of the global functions are all different.
proof fn lemma_function_names()
    ensures
        "fill"@ != "indent"@ && "fill"@ != "label"@ && "fill"@ != "if"@ && "fill"@ != "concat"@,
        "fill"@ != "separate"@ && "indent"@ != "label"@ && "indent"@ != "if"@,
        "indent"@ != "concat"@ && "indent"@ != "separate"@ && "label"@ != "if"@,
        "label"@ != "concat"@ && "label"@ != "separate"@ && "if"@ != "concat"@,
        "if"@ != "separate"@ && "concat"@ != "separate"@,
{
    reveal_strlit("fill");
    reveal_strlit("indent");
    reveal_strlit("label");
    reveal_strlit("if");
    reveal_strlit("concat");
    reveal_strlit("separate");
    assert("fill"@.len() == 4 && "label"@.len() == 5 && "if"@.len() == 2);
    assert("indent"@.len() == 6 && "concat"@.len() == 6 && "separate"@.len() == 8);
    assert("indent"@[0] != "concat"@[0]);
}

/// A call of `fill` builds exactly where it has two arguments, the first a number and the second a
/// template, and gives the second, wrapped at the first.
pub proof fn fill_wraps_content<'i, L: TemplateLanguage<'i>>(
    language: &L,
    variables: Variables<L::Item>,
    function: FunctionCallNode<'i>,
)
    requires
        function.name@ == "fill"@,
    ensures
        ({
            let result = function_model(language, variables, function);
            if function.args@.len() != 2 {
                result matches Err(e) && {
                    &&& e.kind == (TemplateParseErrorKind::InvalidArguments {
                        name: function.name,
                        expected: ArgumentCount::Exactly(2),
                    })
                    &&& e.span == function.args_span
                    &&& e.origin is None
                }
            } else {
                match (
                    integer_model(language, variables, function.args@[0]),
                    template_model(language, variables, function.args@[1]),
                ) {
                    (Err(e), _) => result matches Err(error) && error == e,
                    (Ok(_), Err(e)) => result matches Err(error) && error == e,
                    (Ok(w), Ok(c)) => result matches Ok(TemplateModel::Fill { width, content })
                        && *width == w && *content == c,
                }
            }
        }),
{
    lemma_function_names();
}

/// A call of `indent` builds exactly where it has two arguments that are templates, and gives the
/// second, indented by the first.
pub proof fn indent_prefixes_content<'i, L: TemplateLanguage<'i>>(
    language: &L,
    variables: Variables<L::Item>,
    function: FunctionCallNode<'i>,
)
    requires
        function.name@ == "indent"@,
    ensures
        ({
            let result = function_model(language, variables, function);
            if function.args@.len() != 2 {
                result matches Err(e) && {
                    &&& e.kind == (TemplateParseErrorKind::InvalidArguments {
                        name: function.name,
                        expected: ArgumentCount::Exactly(2),
                    })
                    &&& e.span == function.args_span
                    &&& e.origin is None
                }
            } else {
                match (
                    template_model(language, variables, function.args@[0]),
                    template_model(language, variables, function.args@[1]),
                ) {
                    (Err(e), _) => result matches Err(error) && error == e,
                    (Ok(_), Err(e)) => result matches Err(error) && error == e,
                    (Ok(p), Ok(c)) => result matches Ok(TemplateModel::Indent { prefix, content })
                        && *prefix == p && *content == c,
                }
            }
        }),
{
    lemma_function_names();
}

/// A call of `label` builds exactly where it has two arguments, the first a text and the second a
/// template, and gives the second under the words of the first.
pub proof fn label_labels_content<'i, L: TemplateLanguage<'i>>(
    language: &L,
    variables: Variables<L::Item>,
    function: FunctionCallNode<'i>,
)
    requires
        function.name@ == "label"@,
    ensures
        ({
            let result = function_model(language, variables, function);
            if function.args@.len() != 2 {
                result matches Err(e) && {
                    &&& e.kind == (TemplateParseErrorKind::InvalidArguments {
                        name: function.name,
                        expected: ArgumentCount::Exactly(2),
                    })
                    &&& e.span == function.args_span
                    &&& e.origin is None
                }
            } else {
                match (
                    plain_text_model(language, variables, function.args@[0]),
                    template_model(language, variables, function.args@[1]),
                ) {
                    (Err(e), _) => result matches Err(error) && error == e,
                    (Ok(_), Err(e)) => result matches Err(error) && error == e,
                    (Ok(text), Ok(c)) => result matches Ok(TemplateModel::Label { content, labels })
                        && *content == c && (*labels matches StringListModel::OfString(f, p) && f
                        == StringListFunction::Words && *p == text),
                }
            }
        }),
{
    lemma_function_names();
}

/// A call of `if` builds exactly where it has two or three arguments, the first a condition and the
/// others templates. The second is the template for where the condition holds, and the third, if
/// there is one, for where it does not.
pub proof fn if_has_branches<'i, L: TemplateLanguage<'i>>(
    language: &L,
    variables: Variables<L::Item>,
    function: FunctionCallNode<'i>,
)
    requires
        function.name@ == "if"@,
    ensures
        ({
            let args = function.args@;
            let result = function_model(language, variables, function);
            if args.len() < 2 || args.len() > 3 {
                result matches Err(e) && {
                    &&& e.kind == (TemplateParseErrorKind::InvalidArguments {
                        name: function.name,
                        expected: ArgumentCount::Between(2, 3),
                    })
                    &&& e.span == function.args_span
                    &&& e.origin is None
                }
            } else {
                match (
                    boolean_model(language, variables, args[0]),
                    template_model(language, variables, args[1]),
                ) {
                    (Err(e), _) => result matches Err(error) && error == e,
                    (Ok(_), Err(e)) => result matches Err(error) && error == e,
                    (Ok(c), Ok(t)) => if args.len() == 3 {
                        match template_model(language, variables, args[2]) {
                            Err(e) => result matches Err(error) && error == e,
                            Ok(f) => result matches Ok(
                                TemplateModel::Conditional {
                                    condition,
                                    true_template,
                                    false_template,
                                },
                            ) && *condition == c && *true_template == t && (
                            false_template matches Some(other) && *other == f),
                        }
                    } else {
                        result matches Ok(
                            TemplateModel::Conditional {
                                condition,
                                true_template,
                                false_template,
                            },
                        ) && *condition == c && *true_template == t && false_template is None
                    },
                }
            }
        }),
{
    lemma_function_names();
}

/// A call of `concat` builds exactly where all its arguments are templates, and holds all of them
/// in order. Otherwise the first that fails gives the error.
pub proof fn concat_holds_all_arguments<'i, L: TemplateLanguage<'i>>(
    language: &L,
    variables: Variables<L::Item>,
    function: FunctionCallNode<'i>,
)
    requires
        function.name@ == "concat"@,
    ensures
        ({
            let args = function.args@;
            match function_model(language, variables, function) {
                Ok(result) => result matches TemplateModel::Concat(contents) && {
                    &&& contents.len() == args.len()
                    &&& forall|i: int|
                        0 <= i < args.len() ==> (template_model(
                            language,
                            variables,
                            #[trigger] args[i],
                        ) matches Ok(template) && template == contents[i])
                },
                Err(e) => exists|first: int|
                    {
                        &&& 0 <= first < args.len()
                        &&& template_model(language, variables, #[trigger] args[first])
                            matches Err(error) && error == e
                        &&& forall|i: int|
                            0 <= i < first ==> template_model(
                                language,
                                variables,
                                #[trigger] args[i],
                            ) is Ok
                    },
            }
        }),
{
    lemma_function_names();
    let args = function.args@;
    lists_are_built_in_order(language, variables, args, 0, args.len());
    if let Ok(contents) = templates_model(language, variables, args, 0, args.len()) {
        assert forall|i: int| 0 <= i < args.len() implies (template_model(
            language,
            variables,
            #[trigger] args[i],
        ) matches Ok(template) && template == contents[i]) by {
            assert(contents[i - 0] == contents[i]);
        }
    }
}

/// A call of `separate` builds exactly where it has an argument and all its arguments are
/// templates. The first is the separator, and the others are the contents, all of them and in
/// order. Otherwise the first argument that fails gives the error.
pub proof fn separate_holds_all_contents<'i, L: TemplateLanguage<'i>>(
    language: &L,
    variables: Variables<L::Item>,
    function: FunctionCallNode<'i>,
)
    requires
        function.name@ == "separate"@,
    ensures
        ({
            let args = function.args@;
            match function_model(language, variables, function) {
                Ok(result) => result matches TemplateModel::Separate { separator, contents } && {
                    &&& args.len() >= 1
                    &&& template_model(language, variables, args[0]) matches Ok(first)
                    &&& *separator == first
                    &&& contents.len() == args.len() - 1
                    &&& forall|i: int|
                        0 <= i < contents.len() ==> (template_model(
                            language,
                            variables,
                            args[i + 1],
                        ) matches Ok(template) && template == #[trigger] contents[i])
                },
                Err(e) => if args.len() == 0 {
                    &&& e.kind == (TemplateParseErrorKind::InvalidArguments {
                        name: function.name,
                        expected: ArgumentCount::AtLeast(1),
                    })
                    &&& e.span == function.args_span
                    &&& e.origin is None
                } else {
                    exists|first: int|
                        {
                            &&& 0 <= first < args.len()
                            &&& template_model(language, variables, #[trigger] args[first])
                                matches Err(error) && error == e
                            &&& forall|i: int|
                                0 <= i < first ==> template_model(
                                    language,
                                    variables,
                                    #[trigger] args[i],
                                ) is Ok
                        }
                },
            }
        }),
{
    lemma_function_names();
    let args = function.args@;
    if args.len() > 0 {
        lists_are_built_in_order(language, variables, args, 1, args.len());
        if let Ok(contents) = templates_model(language, variables, args, 1, args.len()) {
            assert forall|i: int| 0 <= i < contents.len() implies (template_model(
                language,
                variables,
                args[i + 1],
            ) matches Ok(template) && template == #[trigger] contents[i]) by {
                assert(contents[i + 1 - 1] == contents[i]);
            }
        }
    }
}

/// There are no other global functions: any other name is refused at its place, whatever the
/// arguments are.
pub proof fn other_functions_are_refused<'i, L: TemplateLanguage<'i>>(
    language: &L,
    variables: Variables<L::Item>,
    function: FunctionCallNode<'i>,
)
    requires
        !seq![
            "fill"@,
            "indent"@,
            "label"@,
            "if"@,
            "concat"@,
            "separate"@,
        ].contains(function.name@),
    ensures
        function_model(language, variables, function) matches Err(e) && {
            &&& e.kind == TemplateParseErrorKind::NoSuchFunction(function.name)
            &&& e.span == function.name_span
            &&& e.origin is None
        },
{
    let names = seq!["fill"@, "indent"@, "label"@, "if"@, "concat"@, "separate"@];
    assert(names[0] == "fill"@ && names[1] == "indent"@ && names[2] == "label"@);
    assert(names[3] == "if"@ && names[4] == "concat"@ && names[5] == "separate"@);
}

} // verus!
