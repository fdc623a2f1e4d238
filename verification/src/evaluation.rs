//! What the value of a property is, which branch a condition chooses, which items a list template
//! goes through, and where text is wrapped.
//!
//! A property is made of leaves, whose values the surroundings give, and of functions, which
//! `template_function` defines. Writing out times and rendering templates is left open: the
//! definitions hold whatever these give.

use vstd::prelude::*;

use crate::template_function::{fill_width_of, Signature, Timestamp, TimestampRange};
use crate::templater::{
    BooleanModel, IntegerModel, ItemTemplateModel, Level, ListModel, ListPropertyTemplateModel,
    ListTemplateModel, SignatureModel, StringListModel, StringModel, TemplateModel,
    TimestampModel, TimestampRangeModel,
};
use crate::text_util::is_part_of;

verus! {

/// An item of a list. Items of types that a language adds are values of type `I`.
pub enum ItemValue<I> {
    String(Seq<char>),
    StringList(Seq<Seq<char>>),
    Boolean(bool),
    Integer(i64),
    Signature(Signature),
    Timestamp(Timestamp),
    TimestampRange(TimestampRange),
    Language(I),
}

/// The items that placeholders stand for.
pub type Items<I> = Map<Level, ItemValue<I>>;

/// What properties are evaluated in: the items that placeholders stand for, the values of the
/// keywords of each type, how times are written out, and what text a template renders to.
///
/// A keyword may hold a placeholder, so its value depends on the items.
#[verifier::reject_recursive_types(K)]
#[verifier::reject_recursive_types(I)]
pub struct Environment<K, I> {
    pub items: Items<I>,
    pub strings: spec_fn(K, Items<I>) -> Seq<char>,
    pub string_lists: spec_fn(K, Items<I>) -> Seq<Seq<char>>,
    pub booleans: spec_fn(K, Items<I>) -> bool,
    pub integers: spec_fn(K, Items<I>) -> i64,
    pub signatures: spec_fn(K, Items<I>) -> Signature,
    pub timestamps: spec_fn(K, Items<I>) -> Timestamp,
    pub timestamp_ranges: spec_fn(K, Items<I>) -> TimestampRange,
    pub lists: spec_fn(K, Items<I>) -> Seq<ItemValue<I>>,
    pub utc: spec_fn(Timestamp) -> Seq<char>,
    pub duration: spec_fn(TimestampRange) -> Seq<char>,
    pub plain_text: spec_fn(TemplateModel<K>, Items<I>) -> Seq<char>,
}

impl<K, I> Environment<K, I> {
    /// The environment in which the placeholder stands for the item.
    pub open spec fn with_item(self, placeholder: Level, item: ItemValue<I>) -> Self {
        Environment { items: self.items.insert(placeholder, item), ..self }
    }

    /// The text that the template renders to, without labels.
    pub open spec fn text_of(self, template: TemplateModel<K>) -> Seq<char> {
        (self.plain_text)(template, self.items)
    }

    /// Whether rendering to text drops labels and writes a string as it is.
    pub open spec fn renders_text(self) -> bool {
        &&& forall|content: Box<TemplateModel<K>>, labels: Box<StringListModel<K>>|
            #[trigger] self.text_of(TemplateModel::Label { content, labels }) == self.text_of(
                *content,
            )
        &&& forall|p: Box<StringModel<K>>|
            #[trigger] self.text_of(TemplateModel::String(p)) == p.value(self)
    }
}

impl<K> StringModel<K> {
    pub open spec fn value<I>(self, env: Environment<K, I>) -> Seq<char>
        decreases self,
    {
        match self {
            StringModel::Literal(s) => s,
            StringModel::Keyword(k) => (env.strings)(k, env.items),
            StringModel::Placeholder(n) => env.items[n]->String_0,
            StringModel::OfString(f, p) => f.value(p.value(env)),
            StringModel::OfSignature(f, p) => f.value(p.value(env)),
            StringModel::Utc(p) => (env.utc)(p.value(env)),
            StringModel::Duration(p) => (env.duration)(p.value(env)),
            StringModel::PlainText(t) => env.text_of(*t),
        }
    }
}

impl<K> StringListModel<K> {
    pub open spec fn value<I>(self, env: Environment<K, I>) -> Seq<Seq<char>> {
        match self {
            StringListModel::Literal(strings) => strings,
            StringListModel::Keyword(k) => (env.string_lists)(k, env.items),
            StringListModel::Placeholder(n) => env.items[n]->StringList_0,
            StringListModel::OfString(f, p) => f.value(p.value(env)),
        }
    }
}

impl<K> BooleanModel<K> {
    pub open spec fn value<I>(self, env: Environment<K, I>) -> bool {
        match self {
            BooleanModel::Keyword(k) => (env.booleans)(k, env.items),
            BooleanModel::Placeholder(n) => env.items[n]->Boolean_0,
            BooleanModel::NotEmpty(p) => p.value(env).len() != 0,
            BooleanModel::Contains(haystack, needle) => is_part_of(
                needle.value(env),
                haystack.value(env),
            ),
        }
    }
}

impl<K> IntegerModel<K> {
    pub open spec fn value<I>(self, env: Environment<K, I>) -> i64 {
        match self {
            IntegerModel::Literal(i) => i,
            IntegerModel::Keyword(k) => (env.integers)(k, env.items),
            IntegerModel::Placeholder(n) => env.items[n]->Integer_0,
        }
    }
}

impl<K> SignatureModel<K> {
    pub open spec fn value<I>(self, env: Environment<K, I>) -> Signature {
        match self {
            SignatureModel::Keyword(k) => (env.signatures)(k, env.items),
            SignatureModel::Placeholder(n) => env.items[n]->Signature_0,
        }
    }
}

impl<K> TimestampModel<K> {
    pub open spec fn value<I>(self, env: Environment<K, I>) -> Timestamp {
        match self {
            TimestampModel::Keyword(k) => (env.timestamps)(k, env.items),
            TimestampModel::Placeholder(n) => env.items[n]->Timestamp_0,
            TimestampModel::OfSignature(p) => p.value(env).timestamp,
            TimestampModel::OfRange(f, p) => f.value(p.value(env)),
        }
    }
}

impl<K> TimestampRangeModel<K> {
    pub open spec fn value<I>(self, env: Environment<K, I>) -> TimestampRange {
        match self {
            TimestampRangeModel::Keyword(k) => (env.timestamp_ranges)(k, env.items),
            TimestampRangeModel::Placeholder(n) => env.items[n]->TimestampRange_0,
        }
    }
}

impl<K> ListModel<K> {
    pub open spec fn value<I>(self, env: Environment<K, I>) -> Seq<ItemValue<I>> {
        match self {
            ListModel::Strings(p) => p.value(env).map_values(|s: Seq<char>| ItemValue::String(s)),
            ListModel::Keyword(k) => (env.lists)(k, env.items),
        }
    }
}

/// What a list template renders for an item of the list.
#[verifier::reject_recursive_types(K)]
#[verifier::reject_recursive_types(I)]
pub enum Piece<K, I> {
    /// The item itself.
    Item(ItemValue<I>),
    /// The template, in an environment of its own.
    Template(TemplateModel<K>, Environment<K, I>),
}

impl<K> ListPropertyTemplateModel<K> {
    /// What is rendered for the items of the list, in their order: the item itself, or the
    /// template while the placeholder stands for the item.
    pub open spec fn pieces<I>(self, env: Environment<K, I>) -> Seq<Piece<K, I>> {
        self.property.value(env).map_values(
            |item: ItemValue<I>|
                match self.item {
                    ItemTemplateModel::Item => Piece::Item(item),
                    ItemTemplateModel::Template { placeholder, template } => Piece::Template(
                        *template,
                        env.with_item(placeholder, item),
                    ),
                },
        )
    }
}

impl<K> TemplateModel<K> {
    /// The width at which a `Fill` wraps its content.
    pub open spec fn wrap_width<I>(self, env: Environment<K, I>) -> nat
        recommends
            self is Fill,
    {
        fill_width_of(self->width.value(env))
    }

    /// The template that a `Conditional` renders, or `None` where it renders nothing.
    pub open spec fn chosen<I>(self, env: Environment<K, I>) -> Option<TemplateModel<K>>
        recommends
            self is Conditional,
    {
        if self->condition.value(env) {
            Some(*self->true_template)
        } else {
            match self->false_template {
                Some(template) => Some(*template),
                None => None,
            }
        }
    }

    /// What a template renders for the items of a list, in their order, and the template that it
    /// renders between them. `Join` has a separator of its own, which stands in for that of the
    /// list. It is `None` for templates that go through no list, and for list templates that are
    /// keywords.
    pub open spec fn separated_pieces<I>(self, env: Environment<K, I>) -> Option<
        (Seq<Piece<K, I>>, TemplateModel<K>),
    > {
        match self {
            TemplateModel::ListProperty(list) => Some((list.pieces(env), *list.separator)),
            TemplateModel::List(template) => match *template {
                ListTemplateModel::ListProperty(list) => Some((list.pieces(env), *list.separator)),
                ListTemplateModel::Keyword(_) => None,
            },
            TemplateModel::Join(template, separator) => match *template {
                ListTemplateModel::ListProperty(list) => Some((list.pieces(env), *separator)),
                ListTemplateModel::Keyword(_) => None,
            },
            _ => None,
        }
    }
}

} // verus!
