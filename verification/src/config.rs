//! Configuration documents as trees of plain values.

use vstd::prelude::*;

verus! {

broadcast use {vstd::std_specs::vec::group_vec_axioms, vstd::string::group_string_axioms};

/// A value of a configuration document.
#[derive(Debug, PartialEq, Eq)]
pub enum ConfigValue {
    Text(String),
    Integer(i64),
    /// A floating-point number; the number itself is not kept.
    Float,
    Boolean(bool),
    /// A date or time; the value itself is not kept.
    Datetime,
    List(Vec<ConfigValue>),
    Table(Vec<ConfigEntry>),
}

/// A key of a table with its value.
#[derive(Debug, PartialEq, Eq)]
pub struct ConfigEntry {
    pub key: String,
    pub value: ConfigValue,
}

/// The mathematical content of a [`ConfigValue`].
pub enum ValueModel {
    Text(Seq<char>),
    Integer(int),
    Float,
    Boolean(bool),
    Datetime,
    List(Seq<ValueModel>),
    Table(Seq<(Seq<char>, ValueModel)>),
}

/// The content of `value`.
pub open spec fn value_model(value: ConfigValue) -> ValueModel
    decreases value,
{
    match value {
        ConfigValue::Text(s) => ValueModel::Text(s@),
        ConfigValue::Integer(i) => ValueModel::Integer(i as int),
        ConfigValue::Float => ValueModel::Float,
        ConfigValue::Boolean(b) => ValueModel::Boolean(b),
        ConfigValue::Datetime => ValueModel::Datetime,
        ConfigValue::List(items) => ValueModel::List(
            Seq::new(
                items@.len(),
                |i: int|
                    if 0 <= i < items@.len() {
                        value_model(items@[i])
                    } else {
                        ValueModel::Datetime
                    },
            ),
        ),
        ConfigValue::Table(entries) => ValueModel::Table(
            Seq::new(
                entries@.len(),
                |i: int|
                    if 0 <= i < entries@.len() {
                        (entries@[i].key@, value_model(entries@[i].value))
                    } else {
                        (Seq::empty(), ValueModel::Datetime)
                    },
            ),
        ),
    }
}

impl View for ConfigValue {
    type V = ValueModel;

    open spec fn view(&self) -> ValueModel {
        value_model(*self)
    }
}

/// The fields of a table: its keys with the content of their values.
pub open spec fn fields_of(entries: Seq<ConfigEntry>) -> Seq<(Seq<char>, ValueModel)> {
    Seq::new(entries.len(), |i: int| (entries[i].key@, entries[i].value@))
}

/// The contents of the values of a list.
pub open spec fn items_of(items: Seq<ConfigValue>) -> Seq<ValueModel> {
    Seq::new(items.len(), |i: int| items[i]@)
}

/// A table's content is made of its fields, a list's of its items.
pub proof fn lemma_view(value: ConfigValue)
    ensures
        value matches ConfigValue::Table(entries) ==> value@ == ValueModel::Table(
            fields_of(entries@),
        ),
        value matches ConfigValue::List(items) ==> value@ == ValueModel::List(items_of(items@)),
{
    match value {
        ConfigValue::Table(entries) => {
            assert(value@->Table_0 =~= fields_of(entries@));
        },
        ConfigValue::List(items) => {
            assert(value@->List_0 =~= items_of(items@));
        },
        _ => {},
    }
}

/// The value of the first field of `fields` under `key`.
pub open spec fn field(fields: Seq<(Seq<char>, ValueModel)>, key: Seq<char>) -> Option<ValueModel>
    decreases fields.len(),
{
    if fields.len() == 0 {
        None
    } else if fields[0].0 == key {
        Some(fields[0].1)
    } else {
        field(fields.drop_first(), key)
    }
}

/// The value under `key` of a value that is a table; nothing for any other
/// value.
pub open spec fn member(value: ValueModel, key: Seq<char>) -> Option<ValueModel> {
    match value {
        ValueModel::Table(fields) => field(fields, key),
        _ => None,
    }
}

/// The content of an optional value.
pub open spec fn opt_value(value: Option<&ConfigValue>) -> Option<ValueModel> {
    match value {
        Some(v) => Some(v@),
        None => None,
    }
}

/// The value of the first entry of `entries` under `key`.
pub fn find<'a>(entries: &'a Vec<ConfigEntry>, key: &str) -> (r: Option<&'a ConfigValue>)
    ensures
        opt_value(r) == field(fields_of(entries@), key@),
{
    let wanted = key.to_string();
    let ghost fields = fields_of(entries@);
    let mut i: usize = 0;
    assert(fields.skip(0) =~= fields);
    while i < entries.len()
        invariant
            i <= entries.len(),
            wanted@ == key@,
            fields == fields_of(entries@),
            field(fields, key@) == field(fields.skip(i as int), key@),
        decreases entries.len() - i,
    {
        proof {
            assert(fields.skip(i as int).drop_first() =~= fields.skip(i + 1));
        }
        if entries[i].key == wanted {
            return Some(&entries[i].value);
        }
        i = i + 1;
    }
    None
}

impl ConfigValue {
    /// The value under `key`, if this value is a table that has the key.
    pub fn get(&self, key: &str) -> (r: Option<&ConfigValue>)
        ensures
            opt_value(r) == member(self@, key@),
    {
        match self {
            ConfigValue::Table(entries) => {
                proof {
                    lemma_view(*self);
                }
                find(entries, key)
            },
            _ => None,
        }
    }
}

/// What the TOML parser makes of `text`: the content of the document, or
/// the parser's message for a text that is no TOML document.
pub uninterp spec fn toml_document(text: Seq<char>) -> Result<ValueModel, Seq<char>>;

/// What a `toml::Value` holds.
pub uninterp spec fn toml_content(value: toml::Value) -> ValueModel;

/// `toml::Value`, carried through as it comes from the parser; nothing of
/// its inside is seen here.
#[verifier::external_type_specification]
#[verifier::external_body]
pub struct ExTomlValue(toml::Value);

/// Parses `text` with the `FromStr` of `toml::Value`, which reads a whole
/// document, and turns the parser's error into its text. The contract names
/// what comes back and says nothing else of it.
#[verifier::external_body]
fn parse_toml(text: &str) -> (r: Result<toml::Value, String>)
    ensures
        toml_document(text@) == match r {
            Ok(value) => Ok::<ValueModel, Seq<char>>(toml_content(value)),
            Err(message) => Err::<ValueModel, Seq<char>>(message@),
        },
{
    text.parse::<toml::Value>().map_err(|error| error.to_string())
}

/// Turns a `toml::Value` into a [`ConfigValue`], variant by variant. The
/// entries of a table come in the order in which the table hands them out,
/// which is that of their keys. The contract says that the result holds
/// what the value holds.
#[verifier::external_body]
fn from_toml(value: &toml::Value) -> (r: ConfigValue)
    ensures
        r@ == toml_content(*value),
{
    match value {
        toml::Value::String(text) => ConfigValue::Text(text.clone()),
        toml::Value::Integer(number) => ConfigValue::Integer(*number),
        toml::Value::Float(_) => ConfigValue::Float,
        toml::Value::Boolean(flag) => ConfigValue::Boolean(*flag),
        toml::Value::Datetime(_) => ConfigValue::Datetime,
        toml::Value::Array(items) => ConfigValue::List(items.iter().map(from_toml).collect()),
        toml::Value::Table(table) => ConfigValue::Table(
            table.iter().map(|(k, v)| ConfigEntry { key: k.clone(), value: from_toml(v) }).collect(),
        ),
    }
}

/// The content of a parsed document or of the parser's message.
pub open spec fn document_result(r: Result<ConfigValue, String>) -> Result<ValueModel, Seq<char>> {
    match r {
        Ok(value) => Ok(value@),
        Err(message) => Err(message@),
    }
}

/// Parses a TOML document.
pub fn parse_document(text: &str) -> (r: Result<ConfigValue, String>)
    ensures
        document_result(r) == toml_document(text@),
{
    match parse_toml(text) {
        Ok(value) => Ok(from_toml(&value)),
        Err(message) => Err(message),
    }
}

} // verus!
