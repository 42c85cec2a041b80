//! Validation of configuration values: where in a document an error was
//! found, and how it is told.

use vstd::prelude::*;
use vstd::string::{to_string_from_display_ensures, StringExecFns};
use crate::text::{decimal, push_decimal};

verus! {

/// One line for each step of the way into the document: the arrow `==> `
/// and the step; the lines are joined by line feeds.
pub open spec fn context_lines(ctx: Seq<Seq<char>>) -> Seq<char>
    decreases ctx.len(),
{
    if ctx.len() == 0 {
        Seq::empty()
    } else if ctx.len() == 1 {
        "==> "@ + ctx[0]
    } else {
        context_lines(ctx.drop_last()) + "\n"@ + "==> "@ + ctx.last()
    }
}

/// An error message with its context: a line feed, the lines of the
/// context, a line feed, the longer arrow `=====> ` and the message.
pub open spec fn context_message(ctx: Seq<Seq<char>>, msg: Seq<char>) -> Seq<char> {
    "\n"@ + context_lines(ctx) + "\n=====> "@ + msg
}

/// The characters of each string of a slice.
pub open spec fn texts(v: Seq<String>) -> Seq<Seq<char>> {
    Seq::new(v.len(), |i: int| v[i]@)
}

/// Tells `msg` with the way that led to it.
pub fn ctx_text(ctx: &[String], msg: &str) -> (r: String)
    ensures
        r@ == context_message(texts(ctx@), msg@),
{
    let mut out = String::from_str("\n");
    let mut i: usize = 0;
    while i < ctx.len()
        invariant
            i <= ctx@.len(),
            out@ == "\n"@ + context_lines(texts(ctx@).take(i as int)),
        decreases ctx@.len() - i,
    {
        let ghost before = texts(ctx@).take(i as int);
        let ghost now = texts(ctx@).take(i as int + 1);
        proof {
            assert(now.drop_last() == before);
            assert(now.last() == ctx@[i as int]@);
        }
        if i > 0 {
            out.append("\n");
        }
        out.append("==> ");
        out.append(ctx[i].as_str());
        proof {
            if i > 0 {
                assert(out@ == "\n"@ + (context_lines(before) + "\n"@ + "==> "@ + now.last()));
            } else {
                assert(context_lines(before) == Seq::<char>::empty());
                assert(out@ == "\n"@ + ("==> "@ + now[0]));
            }
        }
        i += 1;
    }
    assert(texts(ctx@).take(i as int) == texts(ctx@));
    out.append("\n=====> ");
    out.append(msg);
    out
}

/// Tells `msg`, as it displays itself, with the way that led to it.
pub fn ctx_s<S: std::fmt::Display>(ctx: &[String], msg: S) -> (r: String)
    ensures
        exists|shown: String| #[trigger]
            to_string_from_display_ensures::<S>(&msg, shown) && r@ == context_message(
                texts(ctx@),
                shown@,
            ),
{
    let shown = msg.to_string();
    ctx_text(ctx, shown.as_str())
}

/// A number of a document, as far as validation reads it.
#[derive(Clone, Copy, Debug, PartialEq, Eq, Structural)]
pub enum Number {
    /// An integer that fits 64 bits with sign.
    Int(i64),
    /// An integer too large for that.
    Unsigned(u64),
    /// A number with a fraction or an exponent.
    Float,
}

/// A value of a document.
#[derive(Debug, PartialEq, Eq)]
pub enum Value {
    Null,
    Bool(bool),
    Number(Number),
    String(String),
    Sequence(Vec<Value>),
    Mapping(Vec<(Value, Value)>),
    /// A value with a tag; `tag` is the tag as it is shown, with its `!`.
    Tagged { tag: String, value: Box<Value> },
}

/// What a value is called in a message.
pub open spec fn type_name_of(v: Value) -> Seq<char> {
    match v {
        Value::Null => "null"@,
        Value::Bool(_) => "bool"@,
        Value::String(_) => "str"@,
        Value::Number(Number::Float) => "float"@,
        Value::Number(_) => "int"@,
        Value::Sequence(_) => "list"@,
        Value::Mapping(_) => "dict"@,
        Value::Tagged { tag, value } => tag@ + " value"@,
    }
}

/// Names the type of `v` for a message.
pub fn name_of_type(v: &Value) -> (r: String)
    ensures
        r@ == type_name_of(*v),
{
    match v {
        Value::Null => String::from_str("null"),
        Value::Bool(_) => String::from_str("bool"),
        Value::String(_) => String::from_str("str"),
        Value::Number(n) => match n {
            Number::Float => String::from_str("float"),
            _ => String::from_str("int"),
        },
        Value::Sequence(_) => String::from_str("list"),
        Value::Mapping(_) => String::from_str("dict"),
        Value::Tagged { tag, value } => {
            let mut r = tag.clone();
            r.append(" value");
            r
        },
    }
}

/// The complaint that `v` is not of the kind `wanted`, with its context.
pub open spec fn mismatch(ctx: Seq<Seq<char>>, wanted: Seq<char>, v: Value) -> Seq<char> {
    context_message(ctx, "Expected "@ + wanted + ", got "@ + type_name_of(v))
}

/// Complains that `v` is not of the kind `wanted`.
pub fn expected(ctx: &Vec<String>, wanted: &str, v: &Value) -> (r: String)
    ensures
        r@ == mismatch(texts(ctx@), wanted@, *v),
{
    let mut msg = String::from_str("Expected ");
    msg.append(wanted);
    msg.append(", got ");
    msg.append(name_of_type(v).as_str());
    ctx_text(ctx.as_slice(), msg.as_str())
}

/// A type whose values can be read from a document.
///
/// The three specification functions say what reading does.  A type that
/// defines them states its rule; a type that leaves them as they are
/// promises only that the outcome of reading depends on nothing but the
/// context and the value read.
pub trait Cfgv: Sized {
    /// Whether `v` stands for a value of this type.
    open spec fn accepts(v: Value) -> bool {
        exists|r: Self| Self::holds(v, r)
    }

    /// Whether `r` is the value that `v` stands for.
    open spec fn holds(v: Value, r: Self) -> bool {
        arbitrary::<spec_fn(Value, Self) -> bool>()(v, r)
    }

    /// For a `v` that is not accepted: the context in which the fault was
    /// found, and the message that tells of it.
    open spec fn complaint(ctx: Seq<Seq<char>>, v: Value) -> (Seq<Seq<char>>, Seq<char>) {
        arbitrary::<spec_fn(Seq<Seq<char>>, Value, Option<Self>) -> (Seq<Seq<char>>, Seq<char>)>()(
            ctx,
            v,
            None,
        )
    }

    /// Reads a value of this type from `v`.  `ctx` tells the way that led
    /// to `v`; it is left as it was when `v` is accepted, and is left at
    /// the place of the fault when it is not.
    fn cfgv_validate(ctx: &mut Vec<String>, v: &Value) -> (r: Result<Self, String>)
        ensures
            match r {
                Ok(x) => Self::accepts(*v) && Self::holds(*v, x) && final(ctx)@ == old(ctx)@,
                Err(m) => !Self::accepts(*v) && (texts(final(ctx)@), m@) == Self::complaint(
                    texts(old(ctx)@),
                    *v,
                ),
            },
    ;
}

impl Cfgv for bool {
    open spec fn accepts(v: Value) -> bool {
        v is Bool
    }

    open spec fn holds(v: Value, r: bool) -> bool {
        v == Value::Bool(r)
    }

    open spec fn complaint(ctx: Seq<Seq<char>>, v: Value) -> (Seq<Seq<char>>, Seq<char>) {
        (ctx, mismatch(ctx, "bool"@, v))
    }

    fn cfgv_validate(ctx: &mut Vec<String>, v: &Value) -> (r: Result<bool, String>) {
        match v {
            Value::Bool(n) => Ok(*n),
            _ => Err(expected(ctx, "bool", v)),
        }
    }
}

impl Cfgv for i64 {
    open spec fn accepts(v: Value) -> bool {
        v matches Value::Number(Number::Int(_))
    }

    open spec fn holds(v: Value, r: i64) -> bool {
        v == Value::Number(Number::Int(r))
    }

    open spec fn complaint(ctx: Seq<Seq<char>>, v: Value) -> (Seq<Seq<char>>, Seq<char>) {
        (ctx, mismatch(ctx, "int"@, v))
    }

    fn cfgv_validate(ctx: &mut Vec<String>, v: &Value) -> (r: Result<i64, String>) {
        match v {
            Value::Number(Number::Int(n)) => Ok(*n),
            _ => Err(expected(ctx, "int", v)),
        }
    }
}

impl Cfgv for String {
    open spec fn accepts(v: Value) -> bool {
        v is String
    }

    open spec fn holds(v: Value, r: String) -> bool {
        v == Value::String(r)
    }

    open spec fn complaint(ctx: Seq<Seq<char>>, v: Value) -> (Seq<Seq<char>>, Seq<char>) {
        (ctx, mismatch(ctx, "str"@, v))
    }

    fn cfgv_validate(ctx: &mut Vec<String>, v: &Value) -> (r: Result<String, String>) {
        match v {
            Value::String(s) => Ok(s.clone()),
            _ => Err(expected(ctx, "str", v)),
        }
    }
}

/// The place of the first of `items` that `T` does not accept; their number
/// if it accepts all.
pub open spec fn first_fault<T: Cfgv>(items: Seq<Value>) -> int
    decreases items.len(),
{
    if items.len() == 0 || !T::accepts(items[0]) {
        0
    } else {
        1 + first_fault::<T>(items.drop_first())
    }
}

/// The step into element `i` of a list.
pub open spec fn at_index(i: nat) -> Seq<char> {
    "At index "@ + decimal(i)
}

impl<T: Cfgv> Cfgv for Vec<T> {
    open spec fn accepts(v: Value) -> bool {
        v matches Value::Sequence(items) && forall|i: int|
            0 <= i < items@.len() ==> T::accepts(#[trigger] items@[i])
    }

    open spec fn holds(v: Value, r: Vec<T>) -> bool {
        v matches Value::Sequence(items) && r@.len() == items@.len() && forall|i: int|
            0 <= i < items@.len() ==> T::holds(#[trigger] items@[i], r@[i])
    }

    open spec fn complaint(ctx: Seq<Seq<char>>, v: Value) -> (Seq<Seq<char>>, Seq<char>) {
        match v {
            Value::Sequence(items) => {
                let i = first_fault::<T>(items@);
                T::complaint(ctx.push(at_index(i as nat)), items@[i])
            },
            _ => (ctx, mismatch(ctx, "list"@, v)),
        }
    }

    fn cfgv_validate(ctx: &mut Vec<String>, v: &Value) -> (r: Result<Vec<T>, String>) {
        match v {
            Value::Sequence(lst) => {
                let mut ret: Vec<T> = Vec::new();
                let mut i: usize = 0;
                while i < lst.len()
                    invariant
                        i <= lst@.len(),
                        ctx@ == old(ctx)@,
                        *v == Value::Sequence(*lst),
                        ret@.len() == i,
                        forall|k: int| 0 <= k < i ==> T::accepts(#[trigger] lst@[k]),
                        forall|k: int| 0 <= k < i ==> T::holds(#[trigger] lst@[k], ret@[k]),
                    decreases lst@.len() - i,
                {
                    let mut step = String::from_str("At index ");
                    push_decimal(&mut step, i as u128);
                    ctx.push(step);
                    proof {
                        assert(texts(ctx@) == texts(old(ctx)@).push(at_index(i as nat)));
                        lemma_first_fault::<T>(lst@, i as int);
                    }
                    match T::cfgv_validate(ctx, &lst[i]) {
                        Ok(x) => {
                            ret.push(x);
                        },
                        Err(m) => {
                            assert(*v matches Value::Sequence(items) && items@ == lst@);
                            assert(Self::accepts(*v) ==> T::accepts(lst@[i as int]));
                            return Err(m);
                        },
                    }
                    ctx.pop();
                    assert(ctx@ == old(ctx)@);
                    i += 1;
                }
                Ok(ret)
            },
            _ => Err(expected(ctx, "list", v)),
        }
    }
}

/// The first fault is at `i` when everything before `i` is accepted and
/// element `i` is not.
pub proof fn lemma_first_fault<T: Cfgv>(items: Seq<Value>, i: int)
    requires
        0 <= i < items.len(),
        forall|k: int| 0 <= k < i ==> T::accepts(#[trigger] items[k]),
    ensures
        !T::accepts(items[i]) ==> first_fault::<T>(items) == i,
    decreases i,
{
    if i > 0 {
        assert(T::accepts(items[0]));
        assert forall|k: int| 0 <= k < i - 1 implies T::accepts(#[trigger] items.drop_first()[k]) by {
            assert(items.drop_first()[k] == items[k + 1]);
        }
        lemma_first_fault::<T>(items.drop_first(), i - 1);
    }
}

/// Reads a value of type `T` from a whole document.
pub fn parse<T: Cfgv>(v: &Value) -> (r: Result<T, String>)
    ensures
        match r {
            Ok(x) => T::accepts(*v) && T::holds(*v, x),
            Err(m) => !T::accepts(*v) && m@ == T::complaint(Seq::empty(), *v).1,
        },
{
    let mut ctx: Vec<String> = Vec::new();
    assert(texts(ctx@) == Seq::<Seq<char>>::empty());
    T::cfgv_validate(&mut ctx, v)
}

/// The step into a file.
pub open spec fn in_file(f: Seq<char>) -> Seq<char> {
    "File "@ + f
}

/// Reads a value of type `T` from the document of the file `f`.
/// `document` is what reading and parsing the file gave: the value, or the
/// words of the error.  An error of either kind is told with the file as
/// its context.
pub fn load_file<T: Cfgv>(f: &str, document: Result<Value, String>) -> (r: Result<T, String>)
    ensures
        match document {
            Ok(v) => match r {
                Ok(x) => T::accepts(v) && T::holds(v, x),
                Err(m) => !T::accepts(v) && m@ == T::complaint(seq![in_file(f@)], v).1,
            },
            Err(e) => r matches Err(m) && m@ == context_message(seq![in_file(f@)], e@),
        },
{
    let mut step = String::from_str("File ");
    step.append(f);
    let mut ctx: Vec<String> = Vec::new();
    ctx.push(step);
    assert(texts(ctx@) == seq![in_file(f@)]);
    match document {
        Ok(v) => T::cfgv_validate(&mut ctx, &v),
        Err(e) => Err(ctx_text(ctx.as_slice(), e.as_str())),
    }
}

} // verus!
