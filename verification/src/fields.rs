//! Reading a structure from a mapping, key by key.
//!
//! A structure is read in a fixed way: the context is entered with the
//! name of the structure (and the value of the key that identifies it, if
//! it has one), each key is read in its own context, and the context is
//! left again.  The functions here are these steps.

use vstd::prelude::*;
use vstd::string::StringExecFns;
use crate::cfgv::{context_message, ctx_text, name_of_type, texts, type_name_of, Cfgv, Value};

verus! {

/// The value that a mapping holds under the key `key`: that of the first
/// entry whose key is this string.
pub open spec fn lookup(map: Seq<(Value, Value)>, key: Seq<char>) -> Option<Value>
    decreases map.len(),
{
    if map.len() == 0 {
        None
    } else if is_key(map[0].0, key) {
        Some(map[0].1)
    } else {
        lookup(map.drop_first(), key)
    }
}

/// Whether `k` is the string `key`.
pub open spec fn is_key(k: Value, key: Seq<char>) -> bool {
    k matches Value::String(s) && s@ == key
}

/// Finds the value under `key`.
pub fn get<'a>(map: &'a Vec<(Value, Value)>, key: &str) -> (r: Option<&'a Value>)
    ensures
        match r {
            Some(v) => lookup(map@, key@) == Some(*v),
            None => lookup(map@, key@) is None,
        },
{
    let wanted = String::from_str(key);
    let mut i: usize = 0;
    assert(map@.skip(0) == map@);
    while i < map.len()
        invariant
            i <= map@.len(),
            wanted@ == key@,
            lookup(map@, key@) == lookup(map@.skip(i as int), key@),
        decreases map@.len() - i,
    {
        proof {
            assert(map@.skip(i as int)[0] == map@[i as int]);
            assert(map@.skip(i as int).drop_first() == map@.skip(i as int + 1));
        }
        let found = match &map[i].0 {
            Value::String(s) => *s == wanted,
            _ => false,
        };
        if found {
            return Some(&map[i].1);
        }
        i += 1;
    }
    None
}

/// The step into the value under `key`.
pub open spec fn at_key(key: Seq<char>) -> Seq<char> {
    "At key: "@ + key
}

/// The complaint that a key is not there.
pub open spec fn missing_key(key: Seq<char>) -> Seq<char> {
    "Missing required key: "@ + key
}

/// What is wrong with the value under `key`, if anything: the context of
/// the fault and the message.  A key that is not there is a fault only if
/// it is `needed`.
pub open spec fn field_fault<T: Cfgv>(
    ctx: Seq<Seq<char>>,
    map: Seq<(Value, Value)>,
    key: Seq<char>,
    needed: bool,
) -> Option<(Seq<Seq<char>>, Seq<char>)> {
    let here = ctx.push(at_key(key));
    match lookup(map, key) {
        Some(v) => if T::accepts(v) {
            None
        } else {
            Some(T::complaint(here, v))
        },
        None => if needed {
            Some((here, context_message(here, missing_key(key))))
        } else {
            None
        },
    }
}

fn enter_key(ctx: &mut Vec<String>, key: &str)
    ensures
        final(ctx)@.len() == old(ctx)@.len() + 1,
        final(ctx)@.drop_last() == old(ctx)@,
        texts(final(ctx)@) == texts(old(ctx)@).push(at_key(key@)),
{
    let mut step = String::from_str("At key: ");
    step.append(key);
    ctx.push(step);
    assert(ctx@.drop_last() == old(ctx)@);
    assert(texts(ctx@) == texts(old(ctx)@).push(at_key(key@)));
}

fn leave_key(ctx: &mut Vec<String>)
    requires
        old(ctx)@.len() > 0,
    ensures
        final(ctx)@ == old(ctx)@.drop_last(),
{
    leave(ctx);
}

/// Reads the value under a key that may be left out.
pub fn optional<T: Cfgv>(ctx: &mut Vec<String>, map: &Vec<(Value, Value)>, key: &str) -> (r: Result<
    Option<T>,
    String,
>)
    ensures
        match r {
            Ok(x) => {
                &&& field_fault::<T>(texts(old(ctx)@), map@, key@, false) is None
                &&& final(ctx)@ == old(ctx)@
                &&& match lookup(map@, key@) {
                    Some(v) => x is Some && T::holds(v, x->0),
                    None => x is None,
                }
            },
            Err(m) => field_fault::<T>(texts(old(ctx)@), map@, key@, false) == Some(
                (texts(final(ctx)@), m@),
            ),
        },
{
    enter_key(ctx, key);
    let r = match get(map, key) {
        Some(v) => match T::cfgv_validate(ctx, v) {
            Ok(x) => Some(x),
            Err(m) => {
                return Err(m);
            },
        },
        None => None,
    };
    leave_key(ctx);
    Ok(r)
}

/// Reads the value under a key that must be there.
pub fn required<T: Cfgv>(ctx: &mut Vec<String>, map: &Vec<(Value, Value)>, key: &str) -> (r: Result<
    T,
    String,
>)
    ensures
        match r {
            Ok(x) => {
                &&& field_fault::<T>(texts(old(ctx)@), map@, key@, true) is None
                &&& final(ctx)@ == old(ctx)@
                &&& lookup(map@, key@) is Some
                &&& T::holds(lookup(map@, key@)->0, x)
            },
            Err(m) => field_fault::<T>(texts(old(ctx)@), map@, key@, true) == Some(
                (texts(final(ctx)@), m@),
            ),
        },
{
    enter_key(ctx, key);
    let r = match get(map, key) {
        Some(v) => match T::cfgv_validate(ctx, v) {
            Ok(x) => x,
            Err(m) => {
                return Err(m);
            },
        },
        None => {
            let mut msg = String::from_str("Missing required key: ");
            msg.append(key);
            return Err(ctx_text(ctx.as_slice(), msg.as_str()));
        },
    };
    leave_key(ctx);
    Ok(r)
}

/// Reads the value under a key; where the key is left out, the value is
/// `default`.
pub fn or_default<T: Cfgv>(
    ctx: &mut Vec<String>,
    map: &Vec<(Value, Value)>,
    key: &str,
    default: T,
) -> (r: Result<T, String>)
    ensures
        match r {
            Ok(x) => {
                &&& field_fault::<T>(texts(old(ctx)@), map@, key@, false) is None
                &&& final(ctx)@ == old(ctx)@
                &&& match lookup(map@, key@) {
                    Some(v) => T::holds(v, x),
                    None => x == default,
                }
            },
            Err(m) => field_fault::<T>(texts(old(ctx)@), map@, key@, false) == Some(
                (texts(final(ctx)@), m@),
            ),
        },
{
    enter_key(ctx, key);
    let r = match get(map, key) {
        Some(v) => match T::cfgv_validate(ctx, v) {
            Ok(x) => x,
            Err(m) => {
                return Err(m);
            },
        },
        None => default,
    };
    leave_key(ctx);
    Ok(r)
}

/// The step into a structure that no key identifies.
pub open spec fn at_struct(name: Seq<char>) -> Seq<char> {
    "At "@ + name + "()"@
}

/// The step into a structure that the key `key` identifies, `id` being the
/// value under that key.
pub open spec fn at_struct_with_id(name: Seq<char>, key: Seq<char>, id: Seq<char>) -> Seq<char> {
    "At "@ + name + "("@ + key + "="@ + id + ")"@
}

/// Enters a structure that no key identifies.
pub fn enter(ctx: &mut Vec<String>, name: &str)
    ensures
        final(ctx)@.len() == old(ctx)@.len() + 1,
        final(ctx)@.drop_last() == old(ctx)@,
        texts(final(ctx)@) == texts(old(ctx)@).push(at_struct(name@)),
{
    let mut step = String::from_str("At ");
    step.append(name);
    step.append("()");
    ctx.push(step);
    assert(ctx@.drop_last() == old(ctx)@);
    assert(texts(ctx@) == texts(old(ctx)@).push(at_struct(name@)));
}

/// Enters a structure that the key `key` identifies, and returns the string
/// under that key.  While that string is read the structure is shown with
/// `MISSING` in its place.
pub fn enter_with_id(ctx: &mut Vec<String>, map: &Vec<(Value, Value)>, name: &str, key: &str) -> (r:
    Result<String, String>)
    ensures
        match r {
            Ok(id) => {
                &&& lookup(map@, key@) == Some(Value::String(id))
                &&& final(ctx)@.len() == old(ctx)@.len() + 1
                &&& final(ctx)@.drop_last() == old(ctx)@
                &&& texts(final(ctx)@) == texts(old(ctx)@).push(
                    at_struct_with_id(name@, key@, id@),
                )
            },
            Err(m) => field_fault::<String>(
                texts(old(ctx)@).push(at_struct_with_id(name@, key@, "MISSING"@)),
                map@,
                key@,
                true,
            ) == Some((texts(final(ctx)@), m@)),
        },
{
    let mut step = String::from_str("At ");
    step.append(name);
    step.append("(");
    step.append(key);
    step.append("=");
    let mut unknown = step.clone();
    unknown.append("MISSING");
    unknown.append(")");
    ctx.push(unknown);
    assert(ctx@.drop_last() == old(ctx)@);
    assert(texts(ctx@) == texts(old(ctx)@).push(at_struct_with_id(name@, key@, "MISSING"@)));
    let id: String = match required::<String>(ctx, map, key) {
        Ok(id) => id,
        Err(m) => {
            return Err(m);
        },
    };
    ctx.pop();
    assert(ctx@ == old(ctx)@);
    step.append(id.as_str());
    step.append(")");
    ctx.push(step);
    assert(ctx@.drop_last() == old(ctx)@);
    assert(texts(ctx@) == texts(old(ctx)@).push(at_struct_with_id(name@, key@, id@)));
    Ok(id)
}

/// Leaves the structure that was entered last; an empty context stays
/// empty.
pub fn leave(ctx: &mut Vec<String>)
    ensures
        final(ctx)@ == if old(ctx)@.len() > 0 {
            old(ctx)@.drop_last()
        } else {
            old(ctx)@
        },
{
    ctx.pop();
}

/// The complaint that `v` is not a mapping, where a structure called `name`
/// is wanted.
pub open spec fn not_a_map_text(name: Seq<char>, v: Value) -> Seq<char> {
    "Expected a "@ + name + " map but got a "@ + type_name_of(v)
}

/// Complains that `v` is not a mapping.
pub fn not_a_map(name: &str, v: &Value) -> (r: String)
    ensures
        r@ == not_a_map_text(name@, *v),
{
    let mut msg = String::from_str("Expected a ");
    msg.append(name);
    msg.append(" map but got a ");
    msg.append(name_of_type(v).as_str());
    msg
}

/// Where the hooks of a repository come from.
#[derive(Clone, Copy, Debug, PartialEq, Eq, Structural)]
pub enum RepoKind {
    /// They are written in the configuration itself.
    Local,
    /// They are built in.
    Meta,
    /// They are in a repository that is cloned.
    Remote,
}

/// The kind of the repository that `v` describes, by the string under its
/// key `repo`: `local`, `meta`, or anything else for a remote one.
pub open spec fn repo_kind_of(v: Value) -> RepoKind {
    match v {
        Value::Mapping(m) => match lookup(m@, "repo"@) {
            Some(Value::String(s)) => if s@ == "local"@ {
                RepoKind::Local
            } else if s@ == "meta"@ {
                RepoKind::Meta
            } else {
                RepoKind::Remote
            },
            _ => RepoKind::Remote,
        },
        _ => RepoKind::Remote,
    }
}

/// Tells which kind of repository `v` describes.
pub fn repo_kind(v: &Value) -> (r: RepoKind)
    ensures
        r == repo_kind_of(*v),
{
    match v {
        Value::Mapping(m) => match get(m, "repo") {
            Some(Value::String(s)) => {
                if *s == String::from_str("local") {
                    RepoKind::Local
                } else if *s == String::from_str("meta") {
                    RepoKind::Meta
                } else {
                    RepoKind::Remote
                }
            },
            _ => RepoKind::Remote,
        },
        _ => RepoKind::Remote,
    }
}

} // verus!
