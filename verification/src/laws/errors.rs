//! Which errors are made, and when calls have the wrong number of arguments.

use vstd::prelude::*;

use crate::template_parser::{
    expect_arguments, expect_exact_arguments, expect_no_arguments, expect_some_arguments,
    ArgumentCount, FunctionCallNode, TemplateAliasId, TemplateParseError, TemplateParseErrorKind,
    TemplateParseResult,
};

verus! {

/// An error has the kind and the place that it is made with, and comes from no other error.
pub proof fn errors_keep_kind_and_place<'i>(
    kind: TemplateParseErrorKind<'i>,
    text: &'i str,
    span: pest::Span<'i>,
    error: TemplateParseError<'i>,
)
    ensures
        call_ensures(TemplateParseError::with_span, (kind, span), error) ==> {
            &&& error.kind == kind
            &&& error.span == span
            &&& error.origin is None
        },
        call_ensures(TemplateParseError::no_such_keyword, (text, span), error) ==> {
            &&& error.kind == TemplateParseErrorKind::NoSuchKeyword(text)
            &&& error.span == span
            &&& error.origin is None
        },
        call_ensures(TemplateParseError::unexpected_expression, (text, span), error) ==> {
            &&& error.kind == TemplateParseErrorKind::UnexpectedExpression(text)
            &&& error.span == span
            &&& error.origin is None
        },
        call_ensures(TemplateParseError::expected_type, (text, span), error) ==> {
            &&& error.kind == TemplateParseErrorKind::ExpectedType(text)
            &&& error.span == span
            &&& error.origin is None
        },
{
}

/// An unknown function or method is an error at the name of the call, and a wrong number of
/// arguments is an error at the arguments.
pub proof fn errors_of_calls_point_at_name_or_arguments<'i>(
    function: &FunctionCallNode<'i>,
    receiver: &'i str,
    expected: ArgumentCount,
    error: TemplateParseError<'i>,
)
    ensures
        call_ensures(TemplateParseError::no_such_function, (function,), error) ==> {
            &&& error.kind == TemplateParseErrorKind::NoSuchFunction(function.name)
            &&& error.span == function.name_span
            &&& error.origin is None
        },
        call_ensures(TemplateParseError::no_such_method, (receiver, function), error) ==> {
            &&& error.kind == (TemplateParseErrorKind::NoSuchMethod {
                receiver,
                name: function.name,
            })
            &&& error.span == function.name_span
            &&& error.origin is None
        },
        call_ensures(TemplateParseError::invalid_arguments, (function, expected), error) ==> {
            &&& error.kind == (TemplateParseErrorKind::InvalidArguments {
                name: function.name,
                expected,
            })
            &&& error.span == function.args_span
            &&& error.origin is None
        },
{
}

/// An error in an alias is an error at the alias, which names it and has the error as its origin.
pub proof fn errors_in_aliases_keep_their_origin<'i>(
    origin: TemplateParseError<'i>,
    id: TemplateAliasId<'i>,
    span: pest::Span<'i>,
    error: TemplateParseError<'i>,
)
    requires
        call_ensures(TemplateParseError::within_alias_expansion, (origin, id, span), error),
    ensures
        error.kind == TemplateParseErrorKind::BadAliasExpansion(id),
        error.span == span,
        error.origin == Some(Box::new(origin)),
{
}

/// The number of arguments is accepted exactly where it is the expected one. Otherwise the error
/// says which was expected.
pub proof fn arguments_are_counted<'i>(
    function: &FunctionCallNode<'i>,
    min: usize,
    max: usize,
    result: TemplateParseResult<'i, ()>,
)
    ensures
        call_ensures(expect_no_arguments, (function,), result) ==> match result {
            Ok(_) => function.args@.len() == 0,
            Err(e) => function.args@.len() != 0 && e.kind == (
            TemplateParseErrorKind::InvalidArguments {
                name: function.name,
                expected: ArgumentCount::Exactly(0),
            }) && e.span == function.args_span && e.origin is None,
        },
        call_ensures(expect_exact_arguments, (function, min), result) ==> match result {
            Ok(_) => function.args@.len() == min,
            Err(e) => function.args@.len() != min && e.kind == (
            TemplateParseErrorKind::InvalidArguments {
                name: function.name,
                expected: ArgumentCount::Exactly(min),
            }) && e.span == function.args_span && e.origin is None,
        },
        call_ensures(expect_some_arguments, (function, min), result) ==> match result {
            Ok(_) => function.args@.len() >= min,
            Err(e) => function.args@.len() < min && e.kind == (
            TemplateParseErrorKind::InvalidArguments {
                name: function.name,
                expected: ArgumentCount::AtLeast(min),
            }) && e.span == function.args_span && e.origin is None,
        },
        call_ensures(expect_arguments, (function, min, max), result) ==> match result {
            Ok(_) => min <= function.args@.len() <= max,
            Err(e) => (function.args@.len() < min || function.args@.len() > max) && e.kind == (
            TemplateParseErrorKind::InvalidArguments {
                name: function.name,
                expected: ArgumentCount::Between(min, max),
            }) && e.span == function.args_span && e.origin is None,
        },
{
}

} // verus!
