//! The template engine and the data it takes.
//!
//! Templates are rendered by `handlebars` on data held as `serde_json`
//! values. Nothing in this file is proved: each item states what the outside
//! crate does, and the proofs of the library rest on these statements.

use vstd::prelude::*;
use drone_config::Config;
use handlebars::Handlebars;
use serde_json::Value;
use crate::templates::kind::held;
use crate::templates::sources::stock;
use crate::text::texts;

verus! {

/// `handlebars::Handlebars`, the engine: a registry of compiled templates
/// with its helpers and settings.
#[verifier::external_type_specification]
#[verifier::external_body]
pub struct ExHandlebars<'reg>(Handlebars<'reg>);

/// `serde_json::Value`, one value of JSON data.
#[verifier::external_type_specification]
#[verifier::external_body]
pub struct ExValue(Value);

/// `serde_json::Map`, the fields of a JSON object.
#[verifier::external_type_specification]
#[verifier::external_body]
#[verifier::reject_recursive_types(K)]
#[verifier::reject_recursive_types(V)]
pub struct ExJsonMap<K, V>(serde_json::Map<K, V>);

/// `drone_config::Config`, the configuration of a Drone project.
#[verifier::external_type_specification]
#[verifier::external_body]
pub struct ExConfig(Config);

/// JSON data: what a `serde_json::Value` holds.
pub ghost enum Json {
    Null,
    Flag(bool),
    Number(int),
    Text(Seq<char>),
    List(Seq<Json>),
    Object(Map<Seq<char>, Json>),
}

/// The JSON list of `items`.
pub open spec fn text_list(items: Seq<Seq<char>>) -> Json {
    Json::List(Seq::new(items.len(), |i: int| Json::Text(items[i])))
}

/// The JSON list of `numbers`.
pub open spec fn number_list(numbers: Seq<u32>) -> Json {
    Json::List(Seq::new(numbers.len(), |i: int| Json::Number(numbers[i] as int)))
}

/// The templates that an engine holds: the text that each was registered
/// with, under its name.
pub uninterp spec fn loaded(engine: Handlebars<'static>) -> Map<Seq<char>, Seq<char>>;

/// Whether an engine is in strict mode, in which reading a value that the
/// data does not hold is an error.
pub uninterp spec fn strict(engine: Handlebars<'static>) -> bool;

/// The data that a JSON value holds.
pub uninterp spec fn value_data(value: Value) -> Json;

/// The fields that a JSON object holds.
pub uninterp spec fn object_data(object: serde_json::Map<String, Value>) -> Map<Seq<char>, Json>;

/// What `serde_json` makes of a configuration: its JSON data, or the
/// message of the `Error` where it objects.
pub uninterp spec fn config_json(config: Config) -> Result<Json, Seq<char>>;

/// What the engine makes of a template and its data, when it is in strict
/// mode and holds the templates of the library and no others: the rendered
/// text, or the message of its `RenderError`.
pub uninterp spec fn engine_output(name: Seq<char>, data: Map<Seq<char>, Json>) -> Result<
    Seq<char>,
    Seq<char>,
>;

/// `Handlebars::new`: an engine with the built-in helpers and no templates,
/// not in strict mode.
#[verifier::external_body]
pub(crate) fn engine_new() -> (engine: Handlebars<'static>)
    ensures
        loaded(engine) == no_templates(),
        !strict(engine),
{
    Handlebars::new()
}

/// `Handlebars::set_strict_mode`: sets the mode and leaves the templates.
#[verifier::external_body]
pub(crate) fn engine_set_strict(engine: &mut Handlebars<'static>, enabled: bool)
    ensures
        strict(*final(engine)) == enabled,
        loaded(*final(engine)) == loaded(*old(engine)),
{
    engine.set_strict_mode(enabled)
}

/// `Handlebars::register_template_string`: compiles `text` and, if it
/// compiles, holds it under `name`, in place of what was held there. A text
/// that does not compile changes nothing and comes back as the error's
/// message.
///
/// Whether a text compiles is not a matter of the name and the text alone.
/// The engine compiles with the `pest` parser, which fails a parse when
/// less than 64 KiB of the native stack are left at the moment of the call,
/// or when a call limit that is set for the whole process is used up, and
/// which words its errors by a switch of the whole process. So the outcome
/// has no name here, and only what holds of every outcome is stated.
#[verifier::external_body]
pub(crate) fn engine_register(engine: &mut Handlebars<'static>, name: &str, text: &str) -> (done:
    Result<(), String>)
    ensures
        strict(*final(engine)) == strict(*old(engine)),
        done is Ok ==> loaded(*final(engine)) == loaded(*old(engine)).insert(name@, text@),
        done is Err ==> loaded(*final(engine)) == loaded(*old(engine)),
{
    engine.register_template_string(name, text).map_err(|e| e.to_string())
}

/// `Handlebars::render`: renders the template held under `name` with
/// `data`. The engine is to be in strict mode and to hold the templates of
/// the library and no others: of these no template includes another in a
/// circle, and none hands a path to a template that it includes. The outcome
/// then depends on the name and the data, and on nothing else: the helpers
/// and the other settings of the engine are as `Handlebars::new` leaves
/// them, since no function of this file changes them.
#[verifier::external_body]
pub(crate) fn engine_render(
    engine: &Handlebars<'static>,
    name: &str,
    data: &serde_json::Map<String, Value>,
) -> (out: Result<String, String>)
    requires
        strict(*engine),
        loaded(*engine) == held(stock()),
    ensures
        match out {
            Ok(text) => engine_output(name@, object_data(*data)) == Ok::<Seq<char>, Seq<char>>(
                text@,
            ),
            Err(message) => engine_output(name@, object_data(*data)) == Err::<
                Seq<char>,
                Seq<char>,
            >(message@),
        },
{
    engine.render(name, data).map_err(|e| e.to_string())
}

/// `serde_json::Map::new`: an object without fields.
#[verifier::external_body]
pub(crate) fn object_new() -> (object: serde_json::Map<String, Value>)
    ensures
        object_data(object) == no_fields(),
{
    serde_json::Map::new()
}

/// `serde_json::Map::insert`: puts `value` under `key`, in place of what
/// stood there.
#[verifier::external_body]
pub(crate) fn object_put(object: &mut serde_json::Map<String, Value>, key: &str, value: Value)
    ensures
        object_data(*final(object)) == object_data(*old(object)).insert(key@, value_data(value)),
{
    object.insert(key.to_owned(), value);
}

/// `serde_json::Value::Null`: the JSON value that stands for nothing.
#[verifier::external_body]
pub(crate) fn null_value() -> (value: Value)
    ensures
        value_data(value) == Json::Null,
{
    Value::Null
}

/// `serde_json::Value::from` on a `bool`: the JSON value of a switch.
#[verifier::external_body]
pub(crate) fn flag_value(flag: bool) -> (value: Value)
    ensures
        value_data(value) == Json::Flag(flag),
{
    Value::from(flag)
}

/// `serde_json::Value::from` on a `u32`: the JSON value of a number.
#[verifier::external_body]
pub(crate) fn number_value(number: u32) -> (value: Value)
    ensures
        value_data(value) == Json::Number(number as int),
{
    Value::from(number)
}

/// `serde_json::Value::from` on a `&str`: the JSON value of a text.
#[verifier::external_body]
pub(crate) fn text_value(text: &str) -> (value: Value)
    ensures
        value_data(value) == Json::Text(text@),
{
    Value::from(text)
}

/// `serde_json::Value::from` on a `Vec<String>`: the JSON array of the
/// texts, in order.
#[verifier::external_body]
pub(crate) fn texts_value(items: &Vec<String>) -> (value: Value)
    ensures
        value_data(value) == text_list(texts(items@)),
{
    Value::from(items.clone())
}

/// `serde_json::Value::from` on a `Vec<u32>`: the JSON array of the
/// numbers, in order.
#[verifier::external_body]
pub(crate) fn numbers_value(numbers: &Vec<u32>) -> (value: Value)
    ensures
        value_data(value) == number_list(numbers@),
{
    Value::from(numbers.clone())
}

/// `serde_json::to_value` on a configuration: its JSON value, or the
/// message of the error.
#[verifier::external_body]
pub(crate) fn config_value(config: &Config) -> (value: Result<Value, String>)
    ensures
        match value {
            Ok(json) => config_json(*config) == Ok::<Json, Seq<char>>(value_data(json)),
            Err(message) => config_json(*config) == Err::<Json, Seq<char>>(message@),
        },
{
    serde_json::to_value(config).map_err(|e| e.to_string())
}

/// No templates.
pub open spec fn no_templates() -> Map<Seq<char>, Seq<char>> {
    Map::empty()
}

/// No fields.
pub open spec fn no_fields() -> Map<Seq<char>, Json> {
    Map::empty()
}

} // verus!
