//! What models keep of the trees that they are models of: everything.

use vstd::prelude::*;

use crate::template_property::{CoreModel, CoreTemplatePropertyKind};
use crate::templater::{
    contents_model, lemma_contents_model, BooleanModel, BooleanProperty, IntegerModel,
    IntegerProperty, ItemTemplate, ItemTemplateModel, ListModel, ListProperty,
    ListPropertyTemplate, ListTemplate, ListTemplateModel, PropertyPlaceholder, SignatureModel,
    SignatureProperty, StringListModel, StringListProperty, StringModel, StringProperty,
    Template, TemplateModel, TimestampModel, TimestampProperty, TimestampRangeModel,
    TimestampRangeProperty,
};

verus! {

/// A string property has the model with the same node over the models of its parts.
pub proof fn string_properties_keep_their_parts<K>(property: StringProperty<K>)
    ensures
        property.deep_view() == property.model(),
        property.model() == (match property {
            StringProperty::Literal(s) => StringModel::Literal(s@),
            StringProperty::Keyword(k) => StringModel::Keyword(k),
            StringProperty::Placeholder(p) => StringModel::Placeholder(p.level as nat),
            StringProperty::OfString(f, p) => StringModel::OfString(f, Box::new(p.model())),
            StringProperty::OfSignature(f, p) => StringModel::OfSignature(f, Box::new(p.model())),
            StringProperty::Utc(p) => StringModel::Utc(Box::new(p.model())),
            StringProperty::Duration(p) => StringModel::Duration(Box::new(p.model())),
            StringProperty::PlainText(t) => StringModel::PlainText(Box::new(t.model())),
        }),
{
}

/// A string list property has the model with the same node over the models of its parts.
pub proof fn string_list_properties_keep_their_parts<K>(property: StringListProperty<K>)
    ensures
        property.deep_view() == property.model(),
        property.model() == (match property {
            StringListProperty::Literal(strings) => StringListModel::Literal(strings.deep_view()),
            StringListProperty::Keyword(k) => StringListModel::Keyword(k),
            StringListProperty::Placeholder(p) => StringListModel::Placeholder(p.level as nat),
            StringListProperty::OfString(f, p) => StringListModel::OfString(f, Box::new(p.model())),
        }),
{
    if let StringListProperty::Literal(strings) = property {
        assert(property.model()->Literal_0 =~= strings.deep_view());
    }
}

/// A boolean property has the model with the same node over the models of its parts.
pub proof fn boolean_properties_keep_their_parts<K>(property: BooleanProperty<K>)
    ensures
        property.deep_view() == property.model(),
        property.model() == (match property {
            BooleanProperty::Keyword(k) => BooleanModel::Keyword(k),
            BooleanProperty::Placeholder(p) => BooleanModel::Placeholder(p.level as nat),
            BooleanProperty::NotEmpty(p) => BooleanModel::NotEmpty(Box::new(p.model())),
            BooleanProperty::Contains(haystack, needle) => BooleanModel::Contains(
                Box::new(haystack.model()),
                Box::new(needle.model()),
            ),
        }),
{
}

/// Properties of the other types have the models with the same nodes over the models of their
/// parts.
pub proof fn other_properties_keep_their_parts<K>(
    integer: IntegerProperty<K>,
    signature: SignatureProperty<K>,
    timestamp: TimestampProperty<K>,
    range: TimestampRangeProperty<K>,
)
    ensures
        integer.deep_view() == integer.model(),
        integer.model() == (match integer {
            IntegerProperty::Literal(i) => IntegerModel::Literal(i),
            IntegerProperty::Keyword(k) => IntegerModel::Keyword(k),
            IntegerProperty::Placeholder(p) => IntegerModel::Placeholder(p.level as nat),
        }),
        signature.deep_view() == signature.model(),
        signature.model() == (match signature {
            SignatureProperty::Keyword(k) => SignatureModel::Keyword(k),
            SignatureProperty::Placeholder(p) => SignatureModel::Placeholder(p.level as nat),
        }),
        timestamp.deep_view() == timestamp.model(),
        timestamp.model() == (match timestamp {
            TimestampProperty::Keyword(k) => TimestampModel::Keyword(k),
            TimestampProperty::Placeholder(p) => TimestampModel::Placeholder(p.level as nat),
            TimestampProperty::OfSignature(p) => TimestampModel::OfSignature(Box::new(p.model())),
            TimestampProperty::OfRange(f, p) => TimestampModel::OfRange(f, Box::new(p.model())),
        }),
        range.deep_view() == range.model(),
        range.model() == (match range {
            TimestampRangeProperty::Keyword(k) => TimestampRangeModel::Keyword(k),
            TimestampRangeProperty::Placeholder(p) => TimestampRangeModel::Placeholder(
                p.level as nat,
            ),
        }),
{
}

/// Lists, their items and list templates have the models with the same nodes over the models of
/// their parts.
pub proof fn lists_keep_their_parts<K>(
    property: ListProperty<K>,
    item: ItemTemplate<K>,
    list: ListPropertyTemplate<K>,
    template: ListTemplate<K>,
    placeholder: PropertyPlaceholder,
)
    ensures
        placeholder.model() == placeholder.level,
        property.deep_view() == property.model(),
        property.model() == (match property {
            ListProperty::Strings(p) => ListModel::Strings(p.model()),
            ListProperty::Keyword(k) => ListModel::Keyword(k),
        }),
        item.deep_view() == item.model(),
        item.model() == (match item {
            ItemTemplate::Item => ItemTemplateModel::Item,
            ItemTemplate::Template { placeholder, template } => ItemTemplateModel::Template {
                placeholder: placeholder.level as nat,
                template: Box::new(template.model()),
            },
        }),
        list.deep_view() == list.model(),
        list.model().property == list.property.model(),
        *list.model().separator == list.separator.model(),
        list.model().item == list.item.model(),
        template.deep_view() == template.model(),
        template.model() == (match template {
            ListTemplate::Keyword(k) => ListTemplateModel::Keyword(k),
            ListTemplate::ListProperty(list) => ListTemplateModel::ListProperty(list.model()),
        }),
{
}

/// A template has the model with the same node over the models of its parts, and as many contents
/// in the same order.
pub proof fn templates_keep_their_parts<K>(template: Template<K>)
    ensures
        template.deep_view() == template.model(),
        match template {
            Template::Keyword(k) => template.model() == TemplateModel::Keyword(k),
            Template::String(p) => template.model() == TemplateModel::String(Box::new(p.model())),
            Template::StringList(p) => template.model() == TemplateModel::StringList(
                Box::new(p.model()),
            ),
            Template::Boolean(p) => template.model() == TemplateModel::Boolean(Box::new(p.model())),
            Template::Integer(p) => template.model() == TemplateModel::Integer(Box::new(p.model())),
            Template::Signature(p) => template.model() == TemplateModel::Signature(
                Box::new(p.model()),
            ),
            Template::Timestamp(p) => template.model() == TemplateModel::Timestamp(
                Box::new(p.model()),
            ),
            Template::TimestampRange(p) => template.model() == TemplateModel::TimestampRange(
                Box::new(p.model()),
            ),
            Template::List(t) => template.model() == TemplateModel::List(Box::new(t.model())),
            Template::ListProperty(t) => template.model() == TemplateModel::ListProperty(
                Box::new(t.model()),
            ),
            Template::Join(t, s) => template.model() == TemplateModel::Join(
                Box::new(t.model()),
                Box::new(s.model()),
            ),
            Template::Fill { width, content } => template.model() == (TemplateModel::Fill {
                width: Box::new(width.model()),
                content: Box::new(content.model()),
            }),
            Template::Indent { prefix, content } => template.model() == (TemplateModel::Indent {
                prefix: Box::new(prefix.model()),
                content: Box::new(content.model()),
            }),
            Template::Label { content, labels } => template.model() == (TemplateModel::Label {
                content: Box::new(content.model()),
                labels: Box::new(labels.model()),
            }),
            Template::Conditional { condition, true_template, false_template } => {
                &&& template.model() matches TemplateModel::Conditional {
                    condition: c,
                    true_template: t,
                    false_template: f,
                }
                &&& *c == condition.model()
                &&& *t == true_template.model()
                &&& match (false_template, f) {
                    (Some(false_template), Some(f)) => *f == false_template.model(),
                    (a, b) => a is None && b is None,
                }
            },
            Template::Concat(contents) => {
                &&& template.model() matches TemplateModel::Concat(models)
                &&& models.len() == contents@.len()
                &&& forall|i: int|
                    0 <= i < models.len() ==> #[trigger] models[i] == contents@[i].model()
            },
            Template::Separate { separator, contents } => {
                &&& template.model() matches TemplateModel::Separate {
                    separator: s,
                    contents: models,
                }
                &&& *s == separator.model()
                &&& models.len() == contents@.len()
                &&& forall|i: int|
                    0 <= i < models.len() ==> #[trigger] models[i] == contents@[i].model()
            },
        },
{
    if let Template::Concat(contents) = template {
        lemma_contents_model(contents);
        assert(template.model() == TemplateModel::Concat(contents_model(contents@)));
    } else if let Template::Separate { contents, .. } = template {
        lemma_contents_model(contents);
        assert(template.model()->Separate_contents == contents_model(contents@));
    }
}

/// A property of a basic type has the model of its type.
pub proof fn basic_properties_keep_their_type<K>(property: CoreTemplatePropertyKind<K>)
    ensures
        property.deep_view() == property.model(),
        property.model() == (match property {
            CoreTemplatePropertyKind::String(p) => CoreModel::String(p.model()),
            CoreTemplatePropertyKind::StringList(p) => CoreModel::StringList(p.model()),
            CoreTemplatePropertyKind::Boolean(p) => CoreModel::Boolean(p.model()),
            CoreTemplatePropertyKind::Integer(p) => CoreModel::Integer(p.model()),
            CoreTemplatePropertyKind::Signature(p) => CoreModel::Signature(p.model()),
            CoreTemplatePropertyKind::Timestamp(p) => CoreModel::Timestamp(p.model()),
            CoreTemplatePropertyKind::TimestampRange(p) => CoreModel::TimestampRange(p.model()),
            CoreTemplatePropertyKind::Template(t) => CoreModel::Template(t.model()),
            CoreTemplatePropertyKind::ListTemplate(t) => CoreModel::ListTemplate(t.model()),
        }),
{
}

} // verus!
