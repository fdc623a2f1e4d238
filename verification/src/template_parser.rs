//! Syntax tree of a template expression, and the errors found while building it.

use vstd::prelude::*;

verus! {

/// A region of the template text. Nodes and errors carry it along; nothing here looks inside.
///
/// `pest::Span` is a `Copy` triple of the text and two byte offsets. Nothing is claimed of it.
#[verifier::external_type_specification]
#[verifier::external_body]
pub struct ExSpan<'i>(pest::Span<'i>);

/// An expression with the text that it was parsed from.
pub struct ExpressionNode<'i> {
    pub kind: ExpressionKind<'i>,
    pub span: pest::Span<'i>,
}

/// The forms of an expression.
pub enum ExpressionKind<'i> {
    Identifier(&'i str),
    Integer(i64),
    String(String),
    Concat(Vec<ExpressionNode<'i>>),
    FunctionCall(FunctionCallNode<'i>),
    MethodCall(MethodCallNode<'i>),
    Lambda(LambdaNode<'i>),
    /// The expression that an alias stands for, kept apart so that errors can point at the alias.
    AliasExpanded(TemplateAliasId<'i>, Box<ExpressionNode<'i>>),
}

/// `name(args, ...)`
pub struct FunctionCallNode<'i> {
    pub name: &'i str,
    pub name_span: pest::Span<'i>,
    pub args: Vec<ExpressionNode<'i>>,
    pub args_span: pest::Span<'i>,
}

/// `object.function(args, ...)`
pub struct MethodCallNode<'i> {
    pub object: Box<ExpressionNode<'i>>,
    pub function: FunctionCallNode<'i>,
}

/// `|params, ...| body`
pub struct LambdaNode<'i> {
    pub params: Vec<&'i str>,
    pub params_span: pest::Span<'i>,
    pub body: Box<ExpressionNode<'i>>,
}

/// Names the alias that an expression was expanded from.
#[derive(Clone, Copy, Debug, PartialEq, Eq)]
pub enum TemplateAliasId<'i> {
    Symbol(&'i str),
    Function(&'i str),
}

/// How many arguments a function takes.
#[derive(Clone, Copy, Debug, PartialEq, Eq)]
pub enum ArgumentCount {
    Exactly(usize),
    AtLeast(usize),
    Between(usize, usize),
}

/// What is wrong with an expression.
#[derive(Clone, Copy, Debug, PartialEq, Eq)]
pub enum TemplateParseErrorKind<'i> {
    /// The language has no keyword of this name.
    NoSuchKeyword(&'i str),
    /// There is no global function of this name.
    NoSuchFunction(&'i str),
    /// Values of the type have no method of this name.
    NoSuchMethod { receiver: &'i str, name: &'i str },
    /// The function was called with another number of arguments.
    InvalidArguments { name: &'i str, expected: ArgumentCount },
    /// The expression may not stand here, as the message says.
    UnexpectedExpression(&'i str),
    /// The expression has another type than the named one.
    ExpectedType(&'i str),
    /// The alias stands for an expression with an error, which is the origin of this one.
    BadAliasExpansion(TemplateAliasId<'i>),
}

/// An error, the text that it is about, and the error that it comes from, if any.
#[derive(Debug, PartialEq, Eq)]
pub struct TemplateParseError<'i> {
    pub kind: TemplateParseErrorKind<'i>,
    pub span: pest::Span<'i>,
    pub origin: Option<Box<TemplateParseError<'i>>>,
}

pub type TemplateParseResult<'i, T> = Result<T, TemplateParseError<'i>>;

impl<'i> TemplateParseError<'i> {
    #[verifier::allow_in_spec]
    pub fn with_span(kind: TemplateParseErrorKind<'i>, span: pest::Span<'i>) -> Self
        returns
            (TemplateParseError { kind, span, origin: None }),
    {
        TemplateParseError { kind, span, origin: None }
    }

    /// The language has no keyword `name`.
    #[verifier::allow_in_spec]
    pub fn no_such_keyword(name: &'i str, span: pest::Span<'i>) -> Self
        returns
            Self::with_span(TemplateParseErrorKind::NoSuchKeyword(name), span),
    {
        Self::with_span(TemplateParseErrorKind::NoSuchKeyword(name), span)
    }

    /// There is no global function with the name that is called.
    #[verifier::allow_in_spec]
    pub fn no_such_function(function: &FunctionCallNode<'i>) -> Self
        returns
            Self::with_span(
                TemplateParseErrorKind::NoSuchFunction(function.name),
                function.name_span,
            ),
    {
        Self::with_span(TemplateParseErrorKind::NoSuchFunction(function.name), function.name_span)
    }

    /// Values of the type have no method with the name that is called.
    #[verifier::allow_in_spec]
    pub fn no_such_method(receiver: &'i str, function: &FunctionCallNode<'i>) -> Self
        returns
            Self::with_span(
                (TemplateParseErrorKind::NoSuchMethod { receiver, name: function.name }),
                function.name_span,
            ),
    {
        Self::with_span(
            TemplateParseErrorKind::NoSuchMethod { receiver, name: function.name },
            function.name_span,
        )
    }

    /// The function is called with another number of arguments than expected.
    #[verifier::allow_in_spec]
    pub fn invalid_arguments(function: &FunctionCallNode<'i>, expected: ArgumentCount) -> Self
        returns
            Self::with_span(
                (TemplateParseErrorKind::InvalidArguments { name: function.name, expected }),
                function.args_span,
            ),
    {
        Self::with_span(
            TemplateParseErrorKind::InvalidArguments { name: function.name, expected },
            function.args_span,
        )
    }

    /// The expression may not stand where it does.
    #[verifier::allow_in_spec]
    pub fn unexpected_expression(message: &'i str, span: pest::Span<'i>) -> Self
        returns
            Self::with_span(TemplateParseErrorKind::UnexpectedExpression(message), span),
    {
        Self::with_span(TemplateParseErrorKind::UnexpectedExpression(message), span)
    }

    /// The expression does not have the expected type.
    #[verifier::allow_in_spec]
    pub fn expected_type(name: &'i str, span: pest::Span<'i>) -> Self
        returns
            Self::with_span(TemplateParseErrorKind::ExpectedType(name), span),
    {
        Self::with_span(TemplateParseErrorKind::ExpectedType(name), span)
    }

    /// The error, seen from the place where the alias `id` was written.
    #[verifier::allow_in_spec]
    pub fn within_alias_expansion(self, id: TemplateAliasId<'i>, span: pest::Span<'i>) -> Self
        returns
            (TemplateParseError {
                kind: TemplateParseErrorKind::BadAliasExpansion(id),
                span,
                origin: Some(Box::new(self)),
            }),
    {
        TemplateParseError {
            kind: TemplateParseErrorKind::BadAliasExpansion(id),
            span,
            origin: Some(Box::new(self)),
        }
    }
}

/// Succeeds if the function is called without arguments.
#[verifier::allow_in_spec]
pub fn expect_no_arguments<'i>(function: &FunctionCallNode<'i>) -> TemplateParseResult<'i, ()>
    returns
        expect_exact_arguments(function, 0),
{
    expect_exact_arguments(function, 0)
}

/// Succeeds if the function is called with `count` arguments.
#[verifier::allow_in_spec]
pub fn expect_exact_arguments<'i>(
    function: &FunctionCallNode<'i>,
    count: usize,
) -> TemplateParseResult<'i, ()>
    returns
        (if function.args@.len() == count {
            Ok(())
        } else {
            Err(TemplateParseError::invalid_arguments(function, ArgumentCount::Exactly(count)))
        }),
{
    if function.args.len() == count {
        Ok(())
    } else {
        Err(TemplateParseError::invalid_arguments(function, ArgumentCount::Exactly(count)))
    }
}

/// Succeeds if the function is called with `min` or more arguments.
#[verifier::allow_in_spec]
pub fn expect_some_arguments<'i>(
    function: &FunctionCallNode<'i>,
    min: usize,
) -> TemplateParseResult<'i, ()>
    returns
        (if function.args@.len() >= min {
            Ok(())
        } else {
            Err(TemplateParseError::invalid_arguments(function, ArgumentCount::AtLeast(min)))
        }),
{
    if function.args.len() >= min {
        Ok(())
    } else {
        Err(TemplateParseError::invalid_arguments(function, ArgumentCount::AtLeast(min)))
    }
}

/// Succeeds if the function is called with `min` to `max` arguments.
#[verifier::allow_in_spec]
pub fn expect_arguments<'i>(
    function: &FunctionCallNode<'i>,
    min: usize,
    max: usize,
) -> TemplateParseResult<'i, ()>
    returns
        (if min <= function.args@.len() <= max {
            Ok(())
        } else {
            Err(TemplateParseError::invalid_arguments(function, ArgumentCount::Between(min, max)))
        }),
{
    if min <= function.args.len() && function.args.len() <= max {
        Ok(())
    } else {
        Err(TemplateParseError::invalid_arguments(function, ArgumentCount::Between(min, max)))
    }
}

} // verus!
