//! The calls into the telemetry SDK and into std that the detector makes.

use crate::attributes::{attribute_map, AttributeModel};
use opentelemetry::{KeyValue, StringValue, Value};
use opentelemetry_sdk::Resource;
use vstd::prelude::*;

verus! {

/// The SDK's attribute bag, carried through opaquely.
#[verifier::external_type_specification]
#[verifier::external_body]
pub struct ExResource(Resource);

/// The attributes that a resource holds, by key text.
pub uninterp spec fn resource_attributes(r: Resource) -> Map<Seq<char>, AttributeModel>;

/// The text that `String::from_utf8_lossy` makes of a byte sequence.
pub uninterp spec fn lossy_utf8(b: Seq<u8>) -> Seq<char>;

/// The key text of the command-line arguments attribute.
pub open spec fn command_args_key_text() -> Seq<char> {
    "process.command_args"@
}

/// The key text of the process id attribute.
pub open spec fn pid_key_text() -> Seq<char> {
    "process.pid"@
}

/// The model of string-array pairs as handed to `new_resource`.
pub open spec fn arrays_model(pairs: Seq<(&'static str, Vec<String>)>) -> Seq<(Seq<char>, Seq<Seq<char>>)> {
    pairs.map_values(|p: (&'static str, Vec<String>)| (p.0@, p.1@.map_values(|s: String| s@)))
}

/// The model of integer pairs as handed to `new_resource`.
pub open spec fn ints_model(pairs: Seq<(&'static str, i64)>) -> Seq<(Seq<char>, i64)> {
    pairs.map_values(|p: (&'static str, i64)| (p.0@, p.1))
}

/// Relies on `Resource::new` of opentelemetry_sdk, which inserts each
/// `KeyValue` into a map keyed by the key's text, a later pair replacing an
/// earlier one; with `KeyValue::new` and the `From` conversions of
/// opentelemetry into `Value::Array(Array::String(..))` and `Value::I64`.
#[verifier::external_body]
pub(crate) fn new_resource(
    arrays: Vec<(&'static str, Vec<String>)>,
    ints: Vec<(&'static str, i64)>,
) -> (r: Resource)
    ensures
        resource_attributes(r) == attribute_map(arrays_model(arrays@), ints_model(ints@)),
{
    let arrays = arrays.into_iter().map(|(k, v)| {
        let items: Vec<StringValue> = v.into_iter().map(StringValue::from).collect();
        KeyValue::new(k, Value::Array(items.into()))
    });
    Resource::new(arrays.chain(ints.into_iter().map(|(k, v)| KeyValue::new(k, v))))
}

/// Relies on `String::from_utf8_lossy`: the result depends on the bytes
/// alone; no bytes give no text, and bytes that are all ASCII are kept as
/// they are.
#[verifier::external_body]
pub(crate) fn lossy_text(bytes: &[u8]) -> (r: String)
    ensures
        r@ == lossy_utf8(bytes@),
        bytes@.len() == 0 ==> r@.len() == 0,
        (forall|i: int| 0 <= i < bytes@.len() ==> bytes@[i] < 128) ==> r@ == bytes@.map_values(
            |b: u8| b as char,
        ),
{
    String::from_utf8_lossy(bytes).into_owned()
}

/// Relies on `opentelemetry_semantic_conventions::resource::PROCESS_COMMAND_ARGS`,
/// the registry's key for a process's command-line arguments.
#[verifier::external_body]
pub(crate) fn command_args_key() -> (r: &'static str)
    ensures
        r@ == command_args_key_text(),
{
    opentelemetry_semantic_conventions::resource::PROCESS_COMMAND_ARGS
}

/// Relies on `opentelemetry_semantic_conventions::resource::PROCESS_PID`, the
/// registry's key for a process id.
#[verifier::external_body]
pub(crate) fn pid_key() -> (r: &'static str)
    ensures
        r@ == pid_key_text(),
{
    opentelemetry_semantic_conventions::resource::PROCESS_PID
}

} // verus!
