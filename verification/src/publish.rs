//! Artifact publisher policy: the output topic is resolved from a template
//! with the message's device id bound to `device_id`. The upload and the bus
//! send are I/O and run in the unverified shell, each best-effort and
//! independent of the other.

use vstd::prelude::*;
use vstd::string::StringExecFns;

use crate::decimal::{dec_digits, push_dec};
use crate::template::{
    lemma_unbound_variable_fails, resolve_template, resolved, template_names_from, TemplateError,
    TemplateVars,
};

verus! {

/// The compact UTC rendering (`%Y%m%dT%H%M%SZ`) of a unix second: a function
/// of the second alone.
pub uninterp spec fn utc_compact(secs: i64) -> Seq<char>;

/// Relies on chrono: `DateTime::from_timestamp(secs, 0)`, which is `Some`
/// for every second up to year 9999, rendered with `format("%Y%m%dT%H%M%SZ")`.
/// The rendering depends on the unix second alone.
#[verifier::external_body]
fn format_utc_compact(secs: i64) -> (r: String)
    requires
        0 <= secs < 253402300800,
    ensures
        r@ == utc_compact(secs),
{
    match chrono::DateTime::<chrono::Utc>::from_timestamp(secs, 0) {
        Some(d) => d.format("%Y%m%dT%H%M%SZ").to_string(),
        None => String::new(),
    }
}

/// The archival key of an uploaded artifact: `map_watch_`, the compact UTC
/// rendering of the upload instant, and `.json`.
pub open spec fn archive_key(secs: i64) -> Seq<char> {
    "map_watch_"@ + utc_compact(secs) + ".json"@
}

/// The object key under which an artifact snapshot taken at `secs` (unix
/// seconds, up to year 9999) is archived.
pub fn archive_object_key(secs: i64) -> (r: String)
    requires
        0 <= secs < 253402300800,
    ensures
        r@ == archive_key(secs),
{
    let mut r: String = "map_watch_".to_owned();
    let stamp = format_utc_compact(secs);
    r.append(stamp.as_str());
    r.append(".json");
    proof {
        assert(r@ =~= archive_key(secs));
    }
    r
}

/// The variable name bound for per-device topic resolution, `device_id`.
pub open spec fn device_id_key() -> Seq<u8> {
    seq![
        'd' as u8,
        'e' as u8,
        'v' as u8,
        'i' as u8,
        'c' as u8,
        'e' as u8,
        '_' as u8,
        'i' as u8,
        'd' as u8,
    ]
}

/// The bindings used for one device's message: `device_id` bound to the id
/// in decimal.
pub open spec fn device_bindings(device_id: u16) -> Map<Seq<u8>, Seq<u8>> {
    Map::<Seq<u8>, Seq<u8>>::empty().insert(device_id_key(), dec_digits(device_id as nat))
}

/// The variable map for one device's message.
pub fn device_vars(device_id: u16) -> (r: TemplateVars)
    ensures
        r@ == device_bindings(device_id),
{
    let mut name: Vec<u8> = Vec::new();
    name.push('d' as u8);
    name.push('e' as u8);
    name.push('v' as u8);
    name.push('i' as u8);
    name.push('c' as u8);
    name.push('e' as u8);
    name.push('_' as u8);
    name.push('i' as u8);
    name.push('d' as u8);
    proof {
        assert(name@ =~= device_id_key());
    }
    let mut value: Vec<u8> = Vec::new();
    push_dec(device_id as u64, &mut value);
    let mut vars = TemplateVars::new();
    vars.insert(name, value);
    vars
}

/// Under the per-device bindings, a template that references any variable
/// other than `device_id` fails to resolve, so `resolve_device_topic`
/// returns `UnresolvedVariable` for it and nothing is published on that
/// topic.
pub proof fn lemma_foreign_variable_fails(t: Seq<u8>, device_id: u16, n: Seq<u8>)
    requires
        template_names_from(t, 0) matches Some(names) && names.contains(n),
        n != device_id_key(),
    ensures
        resolved(t, device_bindings(device_id)) is None,
{
    assert(!device_bindings(device_id).contains_key(n));
    lemma_unbound_variable_fails(t, device_bindings(device_id), n);
}

/// Resolve the output topic for one device's message: the template with
/// `{device_id}` substituted by the id in decimal. Fails with
/// `UnresolvedVariable` if and only if the template names any other
/// variable or leaves a `{` unclosed.
pub fn resolve_device_topic(template: &[u8], device_id: u16) -> (r: Result<Vec<u8>, TemplateError>)
    ensures
        match r {
            Ok(v) => resolved(template@, device_bindings(device_id)) == Some(v@),
            Err(e) => resolved(template@, device_bindings(device_id)) is None && e
                == TemplateError::UnresolvedVariable,
        },
{
    let vars = device_vars(device_id);
    resolve_template(template, &vars)
}

} // verus!
