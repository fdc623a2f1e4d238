//! Properties of the basic types, and expressions.

use vstd::prelude::*;

use crate::templater::{
    strings_model, BooleanModel, BooleanProperty, IntegerModel, IntegerProperty, ListTemplate,
    ListTemplateModel, SignatureModel, SignatureProperty, StringListModel, StringListProperty,
    StringModel, StringProperty, Template, TemplateModel, TimestampModel, TimestampProperty,
    TimestampRangeModel, TimestampRangeProperty,
};

verus! {

/// A property of one of the basic types.
#[derive(Debug, PartialEq, Eq)]
pub enum CoreTemplatePropertyKind<K> {
    String(StringProperty<K>),
    StringList(StringListProperty<K>),
    Boolean(BooleanProperty<K>),
    Integer(IntegerProperty<K>),
    Signature(SignatureProperty<K>),
    Timestamp(TimestampProperty<K>),
    TimestampRange(TimestampRangeProperty<K>),
    Template(Template<K>),
    ListTemplate(ListTemplate<K>),
}

/// Model of [`CoreTemplatePropertyKind`].
#[verifier::ext_equal]
pub enum CoreModel<K> {
    String(StringModel<K>),
    StringList(StringListModel<K>),
    Boolean(BooleanModel<K>),
    Integer(IntegerModel<K>),
    Signature(SignatureModel<K>),
    Timestamp(TimestampModel<K>),
    TimestampRange(TimestampRangeModel<K>),
    Template(TemplateModel<K>),
    ListTemplate(ListTemplateModel<K>),
}

impl<K> CoreTemplatePropertyKind<K> {
    pub open spec fn model(self) -> CoreModel<K> {
        match self {
            CoreTemplatePropertyKind::String(p) => CoreModel::String(p.model()),
            CoreTemplatePropertyKind::StringList(p) => CoreModel::StringList(p.model()),
            CoreTemplatePropertyKind::Boolean(p) => CoreModel::Boolean(p.model()),
            CoreTemplatePropertyKind::Integer(p) => CoreModel::Integer(p.model()),
            CoreTemplatePropertyKind::Signature(p) => CoreModel::Signature(p.model()),
            CoreTemplatePropertyKind::Timestamp(p) => CoreModel::Timestamp(p.model()),
            CoreTemplatePropertyKind::TimestampRange(p) => CoreModel::TimestampRange(p.model()),
            CoreTemplatePropertyKind::Template(p) => CoreModel::Template(p.model()),
            CoreTemplatePropertyKind::ListTemplate(p) => CoreModel::ListTemplate(p.model()),
        }
    }
}

impl<K> DeepView for CoreTemplatePropertyKind<K> {
    type V = CoreModel<K>;

    open spec fn deep_view(&self) -> CoreModel<K> {
        self.model()
    }
}

/// Provides access to basic template property types.
///
/// The model functions say what a conversion makes of a property, given the property's model.
pub trait IntoTemplateProperty<K>: DeepView + Sized {
    spec fn boolean_model(property: Self::V) -> Option<BooleanModel<K>>;

    spec fn integer_model(property: Self::V) -> Option<IntegerModel<K>>;

    spec fn plain_text_model(property: Self::V) -> Option<StringModel<K>>;

    spec fn template_model(property: Self::V) -> Option<TemplateModel<K>>;

    fn try_into_boolean(self) -> (property: Option<BooleanProperty<K>>)
        ensures
            property.deep_view() == Self::boolean_model(self.deep_view()),
    ;

    fn try_into_integer(self) -> (property: Option<IntegerProperty<K>>)
        ensures
            property.deep_view() == Self::integer_model(self.deep_view()),
    ;

    fn try_into_plain_text(self) -> (property: Option<StringProperty<K>>)
        ensures
            property.deep_view() == Self::plain_text_model(self.deep_view()),
    ;

    fn try_into_template(self) -> (template: Option<Template<K>>)
        ensures
            template.deep_view() == Self::template_model(self.deep_view()),
    ;
}

impl<K> CoreModel<K> {
    /// The template that renders the value of the property.
    pub open spec fn to_template(self) -> TemplateModel<K> {
        match self {
            CoreModel::String(p) => TemplateModel::String(Box::new(p)),
            CoreModel::StringList(p) => TemplateModel::StringList(Box::new(p)),
            CoreModel::Boolean(p) => TemplateModel::Boolean(Box::new(p)),
            CoreModel::Integer(p) => TemplateModel::Integer(Box::new(p)),
            CoreModel::Signature(p) => TemplateModel::Signature(Box::new(p)),
            CoreModel::Timestamp(p) => TemplateModel::Timestamp(Box::new(p)),
            CoreModel::TimestampRange(p) => TemplateModel::TimestampRange(Box::new(p)),
            CoreModel::Template(t) => t,
            CoreModel::ListTemplate(t) => TemplateModel::List(Box::new(t)),
        }
    }
}

impl<K> IntoTemplateProperty<K> for CoreTemplatePropertyKind<K> {
    /// A boolean is itself, a string is true unless it is empty, and nothing else is a boolean.
    open spec fn boolean_model(property: CoreModel<K>) -> Option<BooleanModel<K>> {
        match property {
            CoreModel::String(p) => Some(BooleanModel::NotEmpty(Box::new(p))),
            CoreModel::Boolean(p) => Some(p),
            _ => None,
        }
    }

    /// An integer is itself, and nothing else is an integer.
    open spec fn integer_model(property: CoreModel<K>) -> Option<IntegerModel<K>> {
        match property {
            CoreModel::Integer(p) => Some(p),
            _ => None,
        }
    }

    /// A string is itself, and everything else is the text that it renders to.
    open spec fn plain_text_model(property: CoreModel<K>) -> Option<StringModel<K>> {
        match property {
            CoreModel::String(p) => Some(p),
            _ => Some(StringModel::PlainText(Box::new(property.to_template()))),
        }
    }

    /// Everything can be rendered.
    open spec fn template_model(property: CoreModel<K>) -> Option<TemplateModel<K>> {
        Some(property.to_template())
    }

    fn try_into_boolean(self) -> (property: Option<BooleanProperty<K>>) {
        match self {
            CoreTemplatePropertyKind::String(property) => {
                Some(BooleanProperty::NotEmpty(Box::new(property)))
            },
            CoreTemplatePropertyKind::Boolean(property) => Some(property),
            _ => None,
        }
    }

    fn try_into_integer(self) -> (property: Option<IntegerProperty<K>>) {
        match self {
            CoreTemplatePropertyKind::Integer(property) => Some(property),
            _ => None,
        }
    }

    fn try_into_plain_text(self) -> (property: Option<StringProperty<K>>) {
        match self {
            CoreTemplatePropertyKind::String(property) => Some(property),
            _ => {
                let template = self.try_into_template()?;
                Some(StringProperty::PlainText(Box::new(template)))
            },
        }
    }

    fn try_into_template(self) -> (template: Option<Template<K>>) {
        match self {
            CoreTemplatePropertyKind::String(property) => {
                Some(Template::String(Box::new(property)))
            },
            CoreTemplatePropertyKind::StringList(property) => {
                Some(Template::StringList(Box::new(property)))
            },
            CoreTemplatePropertyKind::Boolean(property) => {
                Some(Template::Boolean(Box::new(property)))
            },
            CoreTemplatePropertyKind::Integer(property) => {
                Some(Template::Integer(Box::new(property)))
            },
            CoreTemplatePropertyKind::Signature(property) => {
                Some(Template::Signature(Box::new(property)))
            },
            CoreTemplatePropertyKind::Timestamp(property) => {
                Some(Template::Timestamp(Box::new(property)))
            },
            CoreTemplatePropertyKind::TimestampRange(property) => {
                Some(Template::TimestampRange(Box::new(property)))
            },
            CoreTemplatePropertyKind::Template(template) => Some(template),
            CoreTemplatePropertyKind::ListTemplate(template) => {
                Some(Template::List(Box::new(template)))
            },
        }
    }
}

/// Opaque struct that represents a template value.
pub struct Expression<P> {
    property: P,
    labels: Vec<String>,
}

/// Model of [`Expression`]: the property and the labels that its text gets.
#[verifier::ext_equal]
pub struct ExpressionModel<V> {
    pub property: V,
    pub labels: Seq<Seq<char>>,
}

impl<P: DeepView> DeepView for Expression<P> {
    type V = ExpressionModel<P::V>;

    closed spec fn deep_view(&self) -> ExpressionModel<P::V> {
        ExpressionModel {
            property: self.property.deep_view(),
            labels: strings_model(self.labels@),
        }
    }
}

/// The template under the labels, or the template itself where there are none.
pub open spec fn labeled<K>(template: TemplateModel<K>, labels: Seq<Seq<char>>) -> TemplateModel<
    K,
> {
    if labels.len() == 0 {
        template
    } else {
        TemplateModel::Label {
            content: Box::new(template),
            labels: Box::new(StringListModel::Literal(labels)),
        }
    }
}

impl<V> ExpressionModel<V> {
    pub open spec fn unlabeled(property: V) -> Self {
        ExpressionModel { property, labels: Seq::empty() }
    }

    /// What `try_into_template` makes of an expression with properties of type `P`.
    pub open spec fn to_template<K, P: IntoTemplateProperty<K, V = V>>(self) -> Option<
        TemplateModel<K>,
    > {
        match P::template_model(self.property) {
            Some(template) => Some(labeled(template, self.labels)),
            None => None,
        }
    }
}

impl<P: DeepView> Expression<P> {
    pub fn unlabeled(property: P) -> (expression: Self)
        ensures
            expression.deep_view() == ExpressionModel::unlabeled(property.deep_view()),
    {
        let labels: Vec<String> = vec![];
        let expression = Expression { property, labels };
        assert(expression.deep_view().labels =~= Seq::<Seq<char>>::empty());
        expression
    }

    pub fn with_label(property: P, label: &str) -> (expression: Self)
        ensures
            expression.deep_view() == (ExpressionModel {
                property: property.deep_view(),
                labels: seq![label@],
            }),
    {
        let labels: Vec<String> = vec![label.to_owned()];
        let expression = Expression { property, labels };
        assert(expression.deep_view().labels =~= seq![label@]);
        expression
    }

    /// The property and the labels.
    pub fn into_parts(self) -> (parts: (P, Vec<String>))
        ensures
            self.deep_view() == (ExpressionModel {
                property: parts.0.deep_view(),
                labels: strings_model(parts.1@),
            }),
    {
        (self.property, self.labels)
    }

    /// The property with the labels, to which `label` is added as the innermost one.
    pub fn with_more_labels(property: P, labels: Vec<String>, label: &str) -> (expression:
        Self)
        ensures
            expression.deep_view() == (ExpressionModel {
                property: property.deep_view(),
                labels: strings_model(labels@).push(label@),
            }),
    {
        let mut labels = labels;
        let ghost outer = labels@;
        labels.push(label.to_owned());
        let expression = Expression { property, labels };
        assert(expression.deep_view().labels =~= strings_model(outer).push(label@));
        expression
    }

    pub fn try_into_boolean<K>(self) -> (property: Option<BooleanProperty<K>>) where
        P: IntoTemplateProperty<K>,

        ensures
            property.deep_view() == P::boolean_model(self.deep_view().property),
    {
        self.property.try_into_boolean()
    }

    pub fn try_into_integer<K>(self) -> (property: Option<IntegerProperty<K>>) where
        P: IntoTemplateProperty<K>,

        ensures
            property.deep_view() == P::integer_model(self.deep_view().property),
    {
        self.property.try_into_integer()
    }

    pub fn try_into_plain_text<K>(self) -> (property: Option<StringProperty<K>>) where
        P: IntoTemplateProperty<K>,

        ensures
            property.deep_view() == P::plain_text_model(self.deep_view().property),
    {
        self.property.try_into_plain_text()
    }

    /// The template that renders the property under the expression's labels.
    pub fn try_into_template<K>(self) -> (template: Option<Template<K>>) where
        P: IntoTemplateProperty<K>,

        ensures
            template.deep_view() == self.deep_view().to_template::<K, P>(),
    {
        let template = self.property.try_into_template()?;
        if self.labels.len() == 0 {
            Some(template)
        } else {
            let labels = StringListProperty::Literal(self.labels);
            assert(labels.model() == StringListModel::<K>::Literal(strings_model(self.labels@)));
            Some(Template::Label { content: Box::new(template), labels: Box::new(labels) })
        }
    }
}

} // verus!
