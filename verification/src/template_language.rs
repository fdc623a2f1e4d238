//! What a language adds to the basic template functions.

use vstd::prelude::*;

use crate::build_context::{BuildContext, Variables};
use crate::template_parser::{FunctionCallNode, TemplateParseResult};
use crate::template_property::{CoreModel, CoreTemplatePropertyKind, IntoTemplateProperty};
use crate::templater::{
    BooleanProperty, IntegerProperty, Level, ListTemplate, PropertyPlaceholder, SignatureProperty,
    StringListProperty, StringProperty, Template, TimestampProperty, TimestampRangeProperty,
};

verus! {

/// The result with its value replaced by the model of the value.
pub open spec fn result_model<T: DeepView, E>(result: Result<T, E>) -> Result<T::V, E> {
    match result {
        Ok(value) => Ok(value.deep_view()),
        Err(e) => Err(e),
    }
}

/// Model of the properties of a language.
pub type PropertyModel<'i, L> = <<L as TemplateLanguage<'i>>::Property as DeepView>::V;

/// Callbacks to build language-specific evaluation objects from AST nodes.
///
/// A language guarantees that each callback is a function of its arguments, and that the model
/// function beside it gives the model of its result. Everything that is stated of building rests
/// on this. In particular, where `build_method` hands the call to `build_core_method`,
/// `method_model` is what `build_core_method` states.
pub trait TemplateLanguage<'i>: Sized {
    /// The leaves that the language adds to evaluation trees.
    type Keyword;

    /// The types of list items that the language adds.
    type Item: Copy;

    /// The properties of the language, those of the basic types among them.
    type Property: IntoTemplateProperty<Self::Keyword>;

    spec fn core_model(&self, property: CoreModel<Self::Keyword>) -> PropertyModel<'i, Self>;

    /// Makes a property of a basic type a property of the language.
    fn wrap_core(&self, property: CoreTemplatePropertyKind<Self::Keyword>) -> (wrapped:
        Self::Property)
        ensures
            wrapped.deep_view() == self.core_model(property.deep_view()),
    ;

    spec fn item_model(&self, item: Self::Item, placeholder: Level) -> PropertyModel<'i, Self>;

    /// Makes the placeholder a property whose value is an item of the language's type `item`.
    fn wrap_item(&self, item: Self::Item, placeholder: PropertyPlaceholder) -> (wrapped:
        Self::Property)
        ensures
            wrapped.deep_view() == self.item_model(item, placeholder.model()),
    ;

    spec fn keyword_model(&self, name: &'i str, span: pest::Span<'i>) -> TemplateParseResult<
        'i,
        PropertyModel<'i, Self>,
    >;

    /// Builds the property that the keyword `name` stands for.
    fn build_keyword(&self, name: &'i str, span: pest::Span<'i>) -> (property: TemplateParseResult<
        'i,
        Self::Property,
    >)
        ensures
            result_model(property) == self.keyword_model(name, span),
    ;

    spec fn method_model(
        &self,
        variables: Variables<Self::Item>,
        property: PropertyModel<'i, Self>,
        function: FunctionCallNode<'i>,
    ) -> TemplateParseResult<'i, PropertyModel<'i, Self>>;

    /// Builds the property that calling the method on `property` gives.
    fn build_method(
        &self,
        build_ctx: &BuildContext<'i, Self::Item>,
        property: Self::Property,
        function: &FunctionCallNode<'i>,
    ) -> (result: TemplateParseResult<'i, Self::Property>)
        ensures
            result_model(result) == self.method_model(
                build_ctx@,
                property.deep_view(),
                *function,
            ),
    ;

    fn wrap_string(&self, property: StringProperty<Self::Keyword>) -> (wrapped: Self::Property)
        ensures
            wrapped.deep_view() == self.core_model(CoreModel::String(property.deep_view())),
    {
        self.wrap_core(CoreTemplatePropertyKind::String(property))
    }

    fn wrap_string_list(&self, property: StringListProperty<Self::Keyword>) -> (wrapped:
        Self::Property)
        ensures
            wrapped.deep_view() == self.core_model(CoreModel::StringList(property.deep_view())),
    {
        self.wrap_core(CoreTemplatePropertyKind::StringList(property))
    }

    fn wrap_boolean(&self, property: BooleanProperty<Self::Keyword>) -> (wrapped: Self::Property)
        ensures
            wrapped.deep_view() == self.core_model(CoreModel::Boolean(property.deep_view())),
    {
        self.wrap_core(CoreTemplatePropertyKind::Boolean(property))
    }

    fn wrap_integer(&self, property: IntegerProperty<Self::Keyword>) -> (wrapped: Self::Property)
        ensures
            wrapped.deep_view() == self.core_model(CoreModel::Integer(property.deep_view())),
    {
        self.wrap_core(CoreTemplatePropertyKind::Integer(property))
    }

    fn wrap_signature(&self, property: SignatureProperty<Self::Keyword>) -> (wrapped:
        Self::Property)
        ensures
            wrapped.deep_view() == self.core_model(CoreModel::Signature(property.deep_view())),
    {
        self.wrap_core(CoreTemplatePropertyKind::Signature(property))
    }

    fn wrap_timestamp(&self, property: TimestampProperty<Self::Keyword>) -> (wrapped:
        Self::Property)
        ensures
            wrapped.deep_view() == self.core_model(CoreModel::Timestamp(property.deep_view())),
    {
        self.wrap_core(CoreTemplatePropertyKind::Timestamp(property))
    }

    fn wrap_timestamp_range(&self, property: TimestampRangeProperty<Self::Keyword>) -> (wrapped:
        Self::Property)
        ensures
            wrapped.deep_view() == self.core_model(CoreModel::TimestampRange(property.deep_view())),
    {
        self.wrap_core(CoreTemplatePropertyKind::TimestampRange(property))
    }

    fn wrap_template(&self, template: Template<Self::Keyword>) -> (wrapped: Self::Property)
        ensures
            wrapped.deep_view() == self.core_model(CoreModel::Template(template.deep_view())),
    {
        self.wrap_core(CoreTemplatePropertyKind::Template(template))
    }

    fn wrap_list_template(&self, template: ListTemplate<Self::Keyword>) -> (wrapped: Self::Property)
        ensures
            wrapped.deep_view() == self.core_model(CoreModel::ListTemplate(template.deep_view())),
    {
        self.wrap_core(CoreTemplatePropertyKind::ListTemplate(template))
    }
}

} // verus!
