//! Template evaluation trees.
//!
//! A tree says what a renderer has to do: which values to take, which functions to apply to them
//! and how to put the results together. `K` is the type of the leaves that a language adds, its
//! keywords; what they stand for is the language's business.
//!
//! Each tree type has a model, which is the same tree over mathematical strings and sequences.

use vstd::prelude::*;

use crate::template_function::{
    SignatureFunction, StringFunction, StringListFunction, TimestampRangeFunction,
};

verus! {

/// Stands for the item that an enclosing list operation is at.
///
/// List operations are numbered from the outside in, starting from 0.
#[derive(Clone, Copy, Debug, PartialEq, Eq)]
pub struct PropertyPlaceholder {
    pub level: usize,
}

/// Model of [`PropertyPlaceholder`].
pub type Level = nat;

impl PropertyPlaceholder {
    pub open spec fn model(self) -> Level {
        self.level as Level
    }
}

/// A property whose value is a string.
#[derive(Debug, PartialEq, Eq)]
pub enum StringProperty<K> {
    /// The string itself.
    Literal(String),
    /// A leaf of the language.
    Keyword(K),
    /// The item of an enclosing list operation.
    Placeholder(PropertyPlaceholder),
    /// The function, applied to the value of a string property.
    OfString(StringFunction, Box<StringProperty<K>>),
    /// The function, applied to the value of a signature property.
    OfSignature(SignatureFunction, Box<SignatureProperty<K>>),
    /// The timestamp, written out in UTC.
    Utc(Box<TimestampProperty<K>>),
    /// The time from the start to the end of the range, written out.
    Duration(Box<TimestampRangeProperty<K>>),
    /// What the template renders to, without labels.
    PlainText(Box<Template<K>>),
}

/// Model of [`StringProperty`].
#[verifier::ext_equal]
pub enum StringModel<K> {
    Literal(Seq<char>),
    Keyword(K),
    Placeholder(Level),
    OfString(StringFunction, Box<StringModel<K>>),
    OfSignature(SignatureFunction, Box<SignatureModel<K>>),
    Utc(Box<TimestampModel<K>>),
    Duration(Box<TimestampRangeModel<K>>),
    PlainText(Box<TemplateModel<K>>),
}

impl<K> StringProperty<K> {
    pub open spec fn model(self) -> StringModel<K>
        decreases self,
    {
        match self {
            StringProperty::Literal(p) => StringModel::Literal(p@),
            StringProperty::Keyword(p) => StringModel::Keyword(p),
            StringProperty::Placeholder(p) => StringModel::Placeholder(p.model()),
            StringProperty::OfString(f, p) => StringModel::OfString(f, Box::new(p.model())),
            StringProperty::OfSignature(f, p) => StringModel::OfSignature(f, Box::new(p.model())),
            StringProperty::Utc(p) => StringModel::Utc(Box::new(p.model())),
            StringProperty::Duration(p) => StringModel::Duration(Box::new(p.model())),
            StringProperty::PlainText(p) => StringModel::PlainText(Box::new(p.model())),
        }
    }
}

impl<K> DeepView for StringProperty<K> {
    type V = StringModel<K>;

    open spec fn deep_view(&self) -> StringModel<K> {
        self.model()
    }
}

/// A property whose value is a list of strings.
#[derive(Debug, PartialEq, Eq)]
pub enum StringListProperty<K> {
    /// The list itself.
    Literal(Vec<String>),
    /// A leaf of the language.
    Keyword(K),
    /// The item of an enclosing list operation.
    Placeholder(PropertyPlaceholder),
    /// The function, applied to the value of a string property.
    OfString(StringListFunction, Box<StringProperty<K>>),
}

/// Model of [`StringListProperty`].
#[verifier::ext_equal]
pub enum StringListModel<K> {
    Literal(Seq<Seq<char>>),
    Keyword(K),
    Placeholder(Level),
    OfString(StringListFunction, Box<StringModel<K>>),
}

impl<K> StringListProperty<K> {
    pub open spec fn model(self) -> StringListModel<K>
        decreases self,
    {
        match self {
            StringListProperty::Literal(p) => StringListModel::Literal(strings_model(p@)),
            StringListProperty::Keyword(p) => StringListModel::Keyword(p),
            StringListProperty::Placeholder(p) => StringListModel::Placeholder(p.model()),
            StringListProperty::OfString(f, p) => StringListModel::OfString(f, Box::new(p.model())),
        }
    }
}

impl<K> DeepView for StringListProperty<K> {
    type V = StringListModel<K>;

    open spec fn deep_view(&self) -> StringListModel<K> {
        self.model()
    }
}

/// A property whose value is a boolean.
#[derive(Debug, PartialEq, Eq)]
pub enum BooleanProperty<K> {
    /// A leaf of the language.
    Keyword(K),
    /// The item of an enclosing list operation.
    Placeholder(PropertyPlaceholder),
    /// Whether the string is not empty: `template_function::is_not_empty` of its value.
    NotEmpty(Box<StringProperty<K>>),
    /// Whether the first string contains the second: `text_util::contains` of their
    /// values.
    Contains(Box<StringProperty<K>>, Box<StringProperty<K>>),
}

/// Model of [`BooleanProperty`].
#[verifier::ext_equal]
pub enum BooleanModel<K> {
    Keyword(K),
    Placeholder(Level),
    NotEmpty(Box<StringModel<K>>),
    Contains(Box<StringModel<K>>, Box<StringModel<K>>),
}

impl<K> BooleanProperty<K> {
    pub open spec fn model(self) -> BooleanModel<K>
        decreases self,
    {
        match self {
            BooleanProperty::Keyword(p) => BooleanModel::Keyword(p),
            BooleanProperty::Placeholder(p) => BooleanModel::Placeholder(p.model()),
            BooleanProperty::NotEmpty(p) => BooleanModel::NotEmpty(Box::new(p.model())),
            BooleanProperty::Contains(a, b) => BooleanModel::Contains(
                Box::new(a.model()),
                Box::new(b.model()),
            ),
        }
    }
}

impl<K> DeepView for BooleanProperty<K> {
    type V = BooleanModel<K>;

    open spec fn deep_view(&self) -> BooleanModel<K> {
        self.model()
    }
}

/// A property whose value is an integer.
#[derive(Debug, PartialEq, Eq)]
pub enum IntegerProperty<K> {
    /// The integer itself.
    Literal(i64),
    /// A leaf of the language.
    Keyword(K),
    /// The item of an enclosing list operation.
    Placeholder(PropertyPlaceholder),
}

/// Model of [`IntegerProperty`].
#[verifier::ext_equal]
pub enum IntegerModel<K> {
    Literal(i64),
    Keyword(K),
    Placeholder(Level),
}

impl<K> IntegerProperty<K> {
    pub open spec fn model(self) -> IntegerModel<K> {
        match self {
            IntegerProperty::Literal(p) => IntegerModel::Literal(p),
            IntegerProperty::Keyword(p) => IntegerModel::Keyword(p),
            IntegerProperty::Placeholder(p) => IntegerModel::Placeholder(p.model()),
        }
    }
}

impl<K> DeepView for IntegerProperty<K> {
    type V = IntegerModel<K>;

    open spec fn deep_view(&self) -> IntegerModel<K> {
        self.model()
    }
}

/// A property whose value is a signature.
#[derive(Debug, PartialEq, Eq)]
pub enum SignatureProperty<K> {
    /// A leaf of the language.
    Keyword(K),
    /// The item of an enclosing list operation.
    Placeholder(PropertyPlaceholder),
}

/// Model of [`SignatureProperty`].
#[verifier::ext_equal]
pub enum SignatureModel<K> {
    Keyword(K),
    Placeholder(Level),
}

impl<K> SignatureProperty<K> {
    pub open spec fn model(self) -> SignatureModel<K> {
        match self {
            SignatureProperty::Keyword(p) => SignatureModel::Keyword(p),
            SignatureProperty::Placeholder(p) => SignatureModel::Placeholder(p.model()),
        }
    }
}

impl<K> DeepView for SignatureProperty<K> {
    type V = SignatureModel<K>;

    open spec fn deep_view(&self) -> SignatureModel<K> {
        self.model()
    }
}

/// A property whose value is a timestamp.
#[derive(Debug, PartialEq, Eq)]
pub enum TimestampProperty<K> {
    /// A leaf of the language.
    Keyword(K),
    /// The item of an enclosing list operation.
    Placeholder(PropertyPlaceholder),
    /// The time of the signature: `template_function::signature_timestamp` of its value.
    OfSignature(Box<SignatureProperty<K>>),
    /// The function, applied to the value of a range property.
    OfRange(TimestampRangeFunction, Box<TimestampRangeProperty<K>>),
}

/// Model of [`TimestampProperty`].
#[verifier::ext_equal]
pub enum TimestampModel<K> {
    Keyword(K),
    Placeholder(Level),
    OfSignature(Box<SignatureModel<K>>),
    OfRange(TimestampRangeFunction, Box<TimestampRangeModel<K>>),
}

impl<K> TimestampProperty<K> {
    pub open spec fn model(self) -> TimestampModel<K> {
        match self {
            TimestampProperty::Keyword(p) => TimestampModel::Keyword(p),
            TimestampProperty::Placeholder(p) => TimestampModel::Placeholder(p.model()),
            TimestampProperty::OfSignature(p) => TimestampModel::OfSignature(Box::new(p.model())),
            TimestampProperty::OfRange(f, p) => TimestampModel::OfRange(f, Box::new(p.model())),
        }
    }
}

impl<K> DeepView for TimestampProperty<K> {
    type V = TimestampModel<K>;

    open spec fn deep_view(&self) -> TimestampModel<K> {
        self.model()
    }
}

/// A property whose value is a range of time.
#[derive(Debug, PartialEq, Eq)]
pub enum TimestampRangeProperty<K> {
    /// A leaf of the language.
    Keyword(K),
    /// The item of an enclosing list operation.
    Placeholder(PropertyPlaceholder),
}

/// Model of [`TimestampRangeProperty`].
#[verifier::ext_equal]
pub enum TimestampRangeModel<K> {
    Keyword(K),
    Placeholder(Level),
}

impl<K> TimestampRangeProperty<K> {
    pub open spec fn model(self) -> TimestampRangeModel<K> {
        match self {
            TimestampRangeProperty::Keyword(p) => TimestampRangeModel::Keyword(p),
            TimestampRangeProperty::Placeholder(p) => TimestampRangeModel::Placeholder(p.model()),
        }
    }
}

impl<K> DeepView for TimestampRangeProperty<K> {
    type V = TimestampRangeModel<K>;

    open spec fn deep_view(&self) -> TimestampRangeModel<K> {
        self.model()
    }
}

/// A property whose value is a list that can be iterated.
#[derive(Debug, PartialEq, Eq)]
pub enum ListProperty<K> {
    /// A list of strings.
    Strings(StringListProperty<K>),
    /// A list of items of a type of the language.
    Keyword(K),
}

/// Model of [`ListProperty`].
#[verifier::ext_equal]
pub enum ListModel<K> {
    Strings(StringListModel<K>),
    Keyword(K),
}

impl<K> ListProperty<K> {
    pub open spec fn model(self) -> ListModel<K>
        decreases self,
    {
        match self {
            ListProperty::Strings(p) => ListModel::Strings(p.model()),
            ListProperty::Keyword(p) => ListModel::Keyword(p),
        }
    }
}

impl<K> DeepView for ListProperty<K> {
    type V = ListModel<K>;

    open spec fn deep_view(&self) -> ListModel<K> {
        self.model()
    }
}

/// How each item of a list is rendered.
#[derive(Debug, PartialEq, Eq)]
pub enum ItemTemplate<K> {
    /// As what the item itself renders to.
    Item,
    /// As what the template renders to while the placeholder stands for the item.
    Template { placeholder: PropertyPlaceholder, template: Box<Template<K>> },
}

/// Model of [`ItemTemplate`].
#[verifier::ext_equal]
pub enum ItemTemplateModel<K> {
    Item,
    Template { placeholder: Level, template: Box<TemplateModel<K>> },
}

impl<K> ItemTemplate<K> {
    pub open spec fn model(self) -> ItemTemplateModel<K>
        decreases self,
    {
        match self {
            ItemTemplate::Item => ItemTemplateModel::Item,
            ItemTemplate::Template { placeholder, template } => ItemTemplateModel::Template {
                placeholder: placeholder.model(),
                template: Box::new(template.model()),
            },
        }
    }
}

impl<K> DeepView for ItemTemplate<K> {
    type V = ItemTemplateModel<K>;

    open spec fn deep_view(&self) -> ItemTemplateModel<K> {
        self.model()
    }
}

/// The items of a list, each rendered in turn, with the separator between them.
#[derive(Debug, PartialEq, Eq)]
pub struct ListPropertyTemplate<K> {
    pub property: ListProperty<K>,
    pub separator: Box<Template<K>>,
    pub item: ItemTemplate<K>,
}

/// Model of [`ListPropertyTemplate`].
#[verifier::ext_equal]
pub struct ListPropertyTemplateModel<K> {
    pub property: ListModel<K>,
    pub separator: Box<TemplateModel<K>>,
    pub item: ItemTemplateModel<K>,
}

impl<K> ListPropertyTemplate<K> {
    pub open spec fn model(self) -> ListPropertyTemplateModel<K>
        decreases self,
    {
        ListPropertyTemplateModel {
            property: self.property.model(),
            separator: Box::new(self.separator.model()),
            item: self.item.model(),
        }
    }
}

impl<K> DeepView for ListPropertyTemplate<K> {
    type V = ListPropertyTemplateModel<K>;

    open spec fn deep_view(&self) -> ListPropertyTemplateModel<K> {
        self.model()
    }
}

/// A template that renders to a list of pieces, which can be joined in another way.
#[derive(Debug, PartialEq, Eq)]
pub enum ListTemplate<K> {
    /// A leaf of the language.
    Keyword(K),
    /// The rendered items of a list.
    ListProperty(ListPropertyTemplate<K>),
}

/// Model of [`ListTemplate`].
#[verifier::ext_equal]
pub enum ListTemplateModel<K> {
    Keyword(K),
    ListProperty(ListPropertyTemplateModel<K>),
}

impl<K> ListTemplate<K> {
    pub open spec fn model(self) -> ListTemplateModel<K>
        decreases self,
    {
        match self {
            ListTemplate::Keyword(p) => ListTemplateModel::Keyword(p),
            ListTemplate::ListProperty(p) => ListTemplateModel::ListProperty(p.model()),
        }
    }
}

impl<K> DeepView for ListTemplate<K> {
    type V = ListTemplateModel<K>;

    open spec fn deep_view(&self) -> ListTemplateModel<K> {
        self.model()
    }
}

/// Something that renders to labeled text.
#[derive(Debug, PartialEq, Eq)]
pub enum Template<K> {
    /// A leaf of the language.
    Keyword(K),
    /// A string.
    String(Box<StringProperty<K>>),
    /// A list of strings.
    StringList(Box<StringListProperty<K>>),
    /// A boolean.
    Boolean(Box<BooleanProperty<K>>),
    /// An integer.
    Integer(Box<IntegerProperty<K>>),
    /// A signature.
    Signature(Box<SignatureProperty<K>>),
    /// A timestamp.
    Timestamp(Box<TimestampProperty<K>>),
    /// A range of time.
    TimestampRange(Box<TimestampRangeProperty<K>>),
    /// The pieces of a list template, with its own separator.
    List(Box<ListTemplate<K>>),
    /// The rendered items of a list.
    ListProperty(Box<ListPropertyTemplate<K>>),
    /// The pieces of a list template, with another separator in place of its own.
    Join(Box<ListTemplate<K>>, Box<Template<K>>),
    /// The content, wrapped at `template_function::fill_width` of the value of `width`.
    Fill { width: Box<IntegerProperty<K>>, content: Box<Template<K>> },
    /// The content, with the prefix before each line that is not empty.
    Indent { prefix: Box<Template<K>>, content: Box<Template<K>> },
    /// The content, under each of the labels.
    Label { content: Box<Template<K>>, labels: Box<StringListProperty<K>> },
    /// The true template where the condition holds, elsewhere the false template, or nothing where
    /// there is none.
    Conditional {
        condition: Box<BooleanProperty<K>>,
        true_template: Box<Template<K>>,
        false_template: Option<Box<Template<K>>>,
    },
    /// The contents, one after the other.
    Concat(Vec<Template<K>>),
    /// The contents that are not empty, with the separator between them.
    Separate { separator: Box<Template<K>>, contents: Vec<Template<K>> },
}

/// Model of [`Template`].
#[verifier::ext_equal]
pub enum TemplateModel<K> {
    Keyword(K),
    String(Box<StringModel<K>>),
    StringList(Box<StringListModel<K>>),
    Boolean(Box<BooleanModel<K>>),
    Integer(Box<IntegerModel<K>>),
    Signature(Box<SignatureModel<K>>),
    Timestamp(Box<TimestampModel<K>>),
    TimestampRange(Box<TimestampRangeModel<K>>),
    List(Box<ListTemplateModel<K>>),
    ListProperty(Box<ListPropertyTemplateModel<K>>),
    Join(Box<ListTemplateModel<K>>, Box<TemplateModel<K>>),
    Fill { width: Box<IntegerModel<K>>, content: Box<TemplateModel<K>> },
    Indent { prefix: Box<TemplateModel<K>>, content: Box<TemplateModel<K>> },
    Label { content: Box<TemplateModel<K>>, labels: Box<StringListModel<K>> },
    Conditional {
        condition: Box<BooleanModel<K>>,
        true_template: Box<TemplateModel<K>>,
        false_template: Option<Box<TemplateModel<K>>>,
    },
    Concat(Seq<TemplateModel<K>>),
    Separate { separator: Box<TemplateModel<K>>, contents: Seq<TemplateModel<K>> },
}

impl<K> Template<K> {
    pub open spec fn model(self) -> TemplateModel<K>
        decreases self,
    {
        match self {
            Template::Keyword(p) => TemplateModel::Keyword(p),
            Template::String(p) => TemplateModel::String(Box::new(p.model())),
            Template::StringList(p) => TemplateModel::StringList(Box::new(p.model())),
            Template::Boolean(p) => TemplateModel::Boolean(Box::new(p.model())),
            Template::Integer(p) => TemplateModel::Integer(Box::new(p.model())),
            Template::Signature(p) => TemplateModel::Signature(Box::new(p.model())),
            Template::Timestamp(p) => TemplateModel::Timestamp(Box::new(p.model())),
            Template::TimestampRange(p) => TemplateModel::TimestampRange(Box::new(p.model())),
            Template::List(p) => TemplateModel::List(Box::new(p.model())),
            Template::ListProperty(p) => TemplateModel::ListProperty(Box::new(p.model())),
            Template::Join(a, b) => TemplateModel::Join(Box::new(a.model()), Box::new(b.model())),
            Template::Fill { width, content } => TemplateModel::Fill {
                width: Box::new(width.model()),
                content: Box::new(content.model()),
            },
            Template::Indent { prefix, content } => TemplateModel::Indent {
                prefix: Box::new(prefix.model()),
                content: Box::new(content.model()),
            },
            Template::Label { content, labels } => TemplateModel::Label {
                content: Box::new(content.model()),
                labels: Box::new(labels.model()),
            },
            Template::Conditional {
                condition,
                true_template,
                false_template,
            } => TemplateModel::Conditional {
                condition: Box::new(condition.model()),
                true_template: Box::new(true_template.model()),
                false_template: match false_template {
                    Some(t) => Some(Box::new(t.model())),
                    None => None,
                },
            },
            Template::Concat(p) => TemplateModel::Concat(contents_model(p@)),
            Template::Separate { separator, contents } => TemplateModel::Separate {
                separator: Box::new(separator.model()),
                contents: contents_model(contents@),
            },
        }
    }
}

impl<K> DeepView for Template<K> {
    type V = TemplateModel<K>;

    open spec fn deep_view(&self) -> TemplateModel<K> {
        self.model()
    }
}

/// The models of the contents of a template.
pub open spec fn contents_model<K>(contents: Seq<Template<K>>) -> Seq<TemplateModel<K>>
    decreases contents,
{
    Seq::new(
        contents.len(),
        |i: int|
            if 0 <= i < contents.len() {
                contents[i].model()
            } else {
                arbitrary()
            },
    )
}

/// The models of the contents are the models of the elements.
pub proof fn lemma_contents_model<K>(contents: Vec<Template<K>>)
    ensures
        contents_model(contents@) == contents.deep_view(),
{
    assert(contents_model(contents@) =~= contents.deep_view());
}

/// The strings as sequences of characters.
pub open spec fn strings_model(strings: Seq<String>) -> Seq<Seq<char>> {
    strings.map_values(|s: String| s@)
}

} // verus!
