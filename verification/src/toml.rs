//! TOML documents as `toml_edit` holds them.
//!
//! Nothing in this file is proved. It declares the types of `toml_edit` that
//! the library handles, says by a model what their values hold, and states
//! of each function of `toml_edit` that the library calls what it does to
//! that model.

use crate::strings::text_of;
use vstd::prelude::*;

verus! {

/// What a TOML item holds, as far as this library reads it.
pub enum Toml {
    /// Nothing: the item is a placeholder.
    Absent,
    /// A string.
    Text(Seq<char>),
    /// An array: its values in order.
    List(Seq<Toml>),
    /// A table or an inline table: its items by key. A key whose item is a
    /// placeholder is left out.
    Entries(Map<Seq<char>, Toml>),
    /// Anything else: another scalar or an array of tables.
    Other,
}

/// The entries `entries` with the item under `key` replaced by `item`. A
/// placeholder takes the key out.
pub open spec fn entries_with(entries: Map<Seq<char>, Toml>, key: Seq<char>, item: Toml) -> Map<
    Seq<char>,
    Toml,
> {
    if item is Absent {
        entries.remove(key)
    } else {
        entries.insert(key, item)
    }
}

/// The item that `entries` holds under `key`; a placeholder where it holds none.
pub open spec fn entry_of(entries: Map<Seq<char>, Toml>, key: Seq<char>) -> Toml {
    if entries.contains_key(key) {
        entries[key]
    } else {
        Toml::Absent
    }
}

impl Toml {
    /// The item under `key` of a table; a placeholder where this is no table
    /// or has no such key.
    pub open spec fn entry(self, key: Seq<char>) -> Toml {
        match self {
            Toml::Entries(entries) => entry_of(entries, key),
            _ => Toml::Absent,
        }
    }

    /// This table with the item under `key` replaced by `item`.
    pub open spec fn with_entry(self, key: Seq<char>, item: Toml) -> Toml {
        match self {
            Toml::Entries(entries) => Toml::Entries(entries_with(entries, key, item)),
            _ => self,
        }
    }

    /// The string that this item is, if it is one.
    pub open spec fn text(self) -> Option<Seq<char>> {
        match self {
            Toml::Text(text) => Some(text),
            _ => None,
        }
    }
}

/// `toml_edit::Document`: a parsed TOML file with its formatting.
#[verifier::external_type_specification]
#[verifier::external_body]
pub struct ExDocument(toml_edit::Document);

/// `toml_edit::Item`: a value, a table, an array of tables or a placeholder.
#[verifier::external_type_specification]
#[verifier::external_body]
pub struct ExItem(toml_edit::Item);

/// `toml_edit::Array`: the array that an array value holds.
#[verifier::external_type_specification]
#[verifier::external_body]
pub struct ExArray(toml_edit::Array);

/// `toml_edit::TomlError`: why a text was rejected.
#[verifier::external_type_specification]
#[verifier::external_body]
pub struct ExTomlError(toml_edit::TomlError);

/// Whether the root item of `doc` is a table. `toml_edit` derefs a document
/// to its root table and formats it from there, and panics where the root is
/// anything else.
pub uninterp spec fn rooted(doc: toml_edit::Document) -> bool;

/// The items of the root table of `doc` by key, placeholders left out.
pub uninterp spec fn root_entries(doc: toml_edit::Document) -> Map<Seq<char>, Toml>;

/// What `item` holds.
pub uninterp spec fn item_model(item: toml_edit::Item) -> Toml;

/// The values that `array` holds, in order.
pub uninterp spec fn array_values(array: toml_edit::Array) -> Seq<Toml>;

/// The root entries of the document that `toml_edit` parses `text` to; `None`
/// where it rejects the text.
pub uninterp spec fn parsed_manifest(text: Seq<char>) -> Option<Map<Seq<char>, Toml>>;

/// The text that `toml_edit` formats `doc` to.
pub uninterp spec fn rendered(doc: toml_edit::Document) -> Seq<char>;

/// `str::parse::<toml_edit::Document>`, which is `Document::from_str`. The
/// parser depends on the text alone, so the root entries of what it returns
/// are named by [`parsed_manifest`]; the document it builds is rooted in a
/// table. The parser descends as deep as the arrays and inline tables of the
/// text nest.
#[verifier::external_body]
pub(crate) fn parse_document(text: &str) -> (parsed: Result<toml_edit::Document, toml_edit::TomlError>)
    ensures
        parsed matches Ok(doc) ==> rooted(doc) && parsed_manifest(text@) == Some(root_entries(doc)),
        parsed is Err ==> parsed_manifest(text@) is None,
{
    text.parse::<toml_edit::Document>()
}

/// `Table::get` on the root table, reached by deref from the document. It
/// returns the item under the key unless there is none or it is a
/// placeholder.
#[verifier::external_body]
pub(crate) fn root_get<'a>(doc: &'a toml_edit::Document, key: &str) -> (found: Option<&'a toml_edit::Item>)
    requires
        rooted(*doc),
    ensures
        found is Some <==> root_entries(*doc).contains_key(key@),
        found matches Some(item) ==> item_model(*item) == root_entries(*doc)[key@] && !(item_model(
            *item,
        ) is Absent),
{
    doc.get(key)
}

/// `Table::get_mut` on the root table, reached by deref from the document.
/// It lends the item under the key unless there is none or it is a
/// placeholder; what the borrower leaves there is the item afterwards, and
/// no other entry changes.
#[verifier::external_body]
pub(crate) fn root_get_mut<'a>(doc: &'a mut toml_edit::Document, key: &str) -> (found: Option<
    &'a mut toml_edit::Item,
>)
    requires
        rooted(*old(doc)),
    ensures
        rooted(*final(doc)),
        found is Some <==> root_entries(*old(doc)).contains_key(key@),
        found is None ==> *final(doc) == *old(doc),
        found matches Some(item) ==> item_model(*item) == root_entries(*old(doc))[key@]
            && !(item_model(*item) is Absent) && root_entries(*final(doc)) == entries_with(
            root_entries(*old(doc)),
            key@,
            item_model(*final(item)),
        ),
{
    doc.get_mut(key)
}

/// `Item::get` with a string key. Of a table or an inline table it returns
/// the item under the key unless there is none or it is a placeholder; of
/// anything else it returns nothing.
#[verifier::external_body]
pub(crate) fn item_get<'a>(item: &'a toml_edit::Item, key: &str) -> (found: Option<&'a toml_edit::Item>)
    ensures
        found is Some <==> (item_model(*item) matches Toml::Entries(entries) && entries.contains_key(
            key@,
        )),
        found matches Some(inner) ==> item_model(*inner) == item_model(*item).entry(key@) && !(
        item_model(*inner) is Absent),
{
    item.get(key)
}

/// `Item::get_mut` with a string key. Of a table or an inline table it lends
/// the item under the key, putting a placeholder there first where there is
/// none, which is the only way it lends a placeholder; what the borrower
/// leaves there is the item afterwards, and no other entry changes. Of a
/// value that is no inline table or of an array of tables it returns nothing
/// and changes nothing. A placeholder it would turn into an inline table:
/// that input is left out.
#[verifier::external_body]
pub(crate) fn item_get_mut<'a>(item: &'a mut toml_edit::Item, key: &str) -> (found: Option<
    &'a mut toml_edit::Item,
>)
    requires
        !(item_model(*old(item)) is Absent),
    ensures
        found is Some <==> item_model(*old(item)) is Entries,
        found is None ==> *final(item) == *old(item),
        found matches Some(inner) ==> item_model(*inner) == item_model(*old(item)).entry(key@)
            && (item_model(*inner) is Absent) == !item_model(*old(item))->Entries_0.contains_key(
            key@,
        ) && item_model(*final(item)) == item_model(*old(item)).with_entry(
            key@,
            item_model(*final(inner)),
        ),
{
    item.get_mut(key)
}

/// `Item::is_table_like`: whether the item is a table or an inline table.
#[verifier::external_body]
pub(crate) fn item_is_table_like(item: &toml_edit::Item) -> (like: bool)
    ensures
        like == (item_model(*item) is Entries),
{
    item.is_table_like()
}

/// `Item::as_str`: the string that the item is, if it is one.
#[verifier::external_body]
pub(crate) fn item_as_str<'a>(item: &'a toml_edit::Item) -> (text: Option<&'a str>)
    ensures
        text is Some <==> item_model(*item) is Text,
        text matches Some(t) ==> item_model(*item) == Toml::Text(t@),
{
    item.as_str()
}

/// `Item::as_array`: the array that the item is, if it is one.
#[verifier::external_body]
pub(crate) fn item_as_array<'a>(item: &'a toml_edit::Item) -> (found: Option<&'a toml_edit::Array>)
    ensures
        found is Some <==> item_model(*item) is List,
        found matches Some(array) ==> item_model(*item) == Toml::List(array_values(*array)),
{
    item.as_array()
}

/// `Item::as_array_mut`: lends the array that the item is, if it is one; the
/// item afterwards is the array as the borrower leaves it.
#[verifier::external_body]
pub(crate) fn item_as_array_mut<'a>(item: &'a mut toml_edit::Item) -> (found: Option<
    &'a mut toml_edit::Array,
>)
    ensures
        found is Some <==> item_model(*old(item)) is List,
        found is None ==> *final(item) == *old(item),
        found matches Some(array) ==> item_model(*old(item)) == Toml::List(array_values(*array))
            && item_model(*final(item)) == Toml::List(array_values(*final(array))),
{
    item.as_array_mut()
}

/// `Array::iter`, which hands out the values of the array in order. Each is
/// turned by `Value::as_str` into the string it is, or into `None` where it
/// is no string.
#[verifier::external_body]
pub(crate) fn array_texts(array: &toml_edit::Array) -> (items: Vec<Option<String>>)
    ensures
        items.len() == array_values(*array).len(),
        forall|i: int|
            0 <= i < items.len() ==> text_of(#[trigger] items[i]) == array_values(
                *array,
            )[i].text(),
{
    array.iter().map(|value| value.as_str().map(|text| text.to_string())).collect()
}

/// `Array::push` with a string: appends it as a string value.
#[verifier::external_body]
pub(crate) fn array_push(array: &mut toml_edit::Array, text: &str)
    ensures
        array_values(*final(array)) == array_values(*old(array)).push(Toml::Text(text@)),
{
    array.push(text)
}

/// `Document::to_string`: the document formatted as text, named by
/// [`rendered`].
#[verifier::external_body]
pub(crate) fn render_document(doc: &toml_edit::Document) -> (text: String)
    requires
        rooted(*doc),
    ensures
        text@ == rendered(*doc),
{
    doc.to_string()
}

/// The text that `toml_edit` describes `error` by.
pub uninterp spec fn error_text(error: toml_edit::TomlError) -> Seq<char>;

/// `TomlError::to_string`: the description that the parser gave the error,
/// which is part of the error's value and named by [`error_text`].
#[verifier::external_body]
pub(crate) fn describe_toml_error(error: &toml_edit::TomlError) -> (text: String)
    ensures
        text@ == error_text(*error),
{
    error.to_string()
}

} // verus!
