//! The script engine: the variables that a script is given, the ones that it leaves
//! behind, and the object that it may return.

use crate::amount::{parse_amount, short_text, Amount};
use vstd::prelude::*;

verus! {

/// `rhai::Engine`: compiles and evaluates scripts.
#[verifier::external_type_specification]
#[verifier::external_body]
pub struct ExEngine(rhai::Engine);

/// `rhai::Scope`: the variables of a script.
#[verifier::external_type_specification]
#[verifier::external_body]
pub struct ExScope<'a>(rhai::Scope<'a>);

/// `rhai::Map`: the object that a script returned. The key type of the map has no public
/// name, so the map stands in a field.
#[verifier::external_body]
pub struct ObjectMap {
    map: rhai::Map,
}

/// A value of a script as far as the library reads it. A floating-point number is known
/// by its decimal text.
pub ghost enum ScriptValue {
    Int(i64),
    Flag(bool),
    Text(Seq<char>),
    Number(Seq<char>),
    Object(Map<Seq<char>, ScriptValue>),
    Other,
}

/// The variables of a scope by name; where a name stands more than once, the last value.
pub uninterp spec fn scope_values(s: rhai::Scope<'static>) -> Map<Seq<char>, ScriptValue>;

/// The entries of an object by name.
pub uninterp spec fn object_values(m: ObjectMap) -> Map<Seq<char>, ScriptValue>;

/// The entries of an object by name, each as the engine shows it.
pub uninterp spec fn object_texts(m: ObjectMap) -> Map<Seq<char>, Seq<char>>;

/// The names of the entries of an object, listed as text.
pub uninterp spec fn object_key_list(m: ObjectMap) -> Seq<char>;

/// The decimal text of the floating-point number nearest to a decimal number.
pub uninterp spec fn float_text(number: Seq<char>) -> Seq<char>;

/// The most operations of a script.
pub const MOST_OPERATIONS: u64 = 200_000;

/// The most calls of a script's functions that are open at once.
pub const MOST_CALLS: usize = 4;

/// The deepest expression of a script.
pub const MOST_DEPTH: usize = 64;

/// The longest text of a script, in bytes.
pub const MOST_TEXT: usize = 10_000;

/// The most values in an array or an object of a script, those of its values with them.
pub const MOST_VALUES: usize = 64;

/// What a script may use: how many operations, modules and open calls, how deep its
/// expressions are, outside and inside of functions, how large its texts, arrays and objects
/// are, whether it can sleep and make functions without a name, and which functions and
/// keywords are refused to it. Zero operations, a depth of zero and a size of zero stand for
/// no limit.
pub ghost struct Limits {
    pub operations: u64,
    pub modules: usize,
    pub calls: usize,
    pub depth: usize,
    pub function_depth: usize,
    pub text: usize,
    pub array: usize,
    pub object: usize,
    pub sleeps: bool,
    pub closures: bool,
    pub refused: Set<Seq<char>>,
}

/// The limits of an engine.
pub uninterp spec fn limits_of(e: rhai::Engine) -> Limits;

/// Whether an engine keeps its scripts in bounds: there are limits on their operations, so
/// that they end, and on their calls, expressions and values, so that the stack and the memory
/// that they take are bounded; and the functions and keywords that panic, block or nest
/// without a bound are refused.
pub open spec fn tame(l: Limits) -> bool {
    &&& 0 < l.operations <= MOST_OPERATIONS
    &&& l.calls <= MOST_CALLS
    &&& 0 < l.depth <= MOST_DEPTH
    &&& 0 < l.function_depth <= MOST_DEPTH
    &&& 0 < l.text <= MOST_TEXT
    &&& 0 < l.array <= MOST_VALUES
    &&& 0 < l.object <= MOST_VALUES
    &&& !l.sleeps
    &&& !l.closures
    &&& l.refused.contains("eval"@)
    &&& l.refused.contains("import"@)
    &&& l.refused.contains("curry"@)
    &&& l.refused.contains("pad"@)
    &&& l.refused.contains("sort"@)
    &&& l.refused.contains("sort_desc"@)
    &&& l.refused.contains("order"@)
    &&& l.refused.contains("order_desc"@)
}

/// How the evaluation of a script ends: with an error, with an object, or with any other
/// value or none.
pub ghost enum RunEnd {
    Failed { error: Seq<char> },
    Plain,
    Object {
        values: Map<Seq<char>, ScriptValue>,
        texts: Map<Seq<char>, Seq<char>>,
        keys: Seq<char>,
    },
}

/// Whether an evaluation of a script within these limits that starts with the variables
/// `before` may leave the variables `after` and end so. More than one end may be possible: a script can ask for
/// the time.
pub uninterp spec fn may_end(
    limits: Limits,
    script: Seq<char>,
    before: Map<Seq<char>, ScriptValue>,
    after: Map<Seq<char>, ScriptValue>,
    end: RunEnd,
) -> bool;

/// No variables.
pub open spec fn no_values() -> Map<Seq<char>, ScriptValue> {
    Map::empty()
}

pub open spec fn int_in(m: Map<Seq<char>, ScriptValue>, name: Seq<char>) -> Option<i64> {
    if m.contains_key(name) {
        match m[name] {
            ScriptValue::Int(v) => Some(v),
            _ => None,
        }
    } else {
        None
    }
}

pub open spec fn flag_in(m: Map<Seq<char>, ScriptValue>, name: Seq<char>) -> Option<bool> {
    if m.contains_key(name) {
        match m[name] {
            ScriptValue::Flag(v) => Some(v),
            _ => None,
        }
    } else {
        None
    }
}

pub open spec fn text_in(m: Map<Seq<char>, ScriptValue>, name: Seq<char>) -> Option<Seq<char>> {
    if m.contains_key(name) {
        match m[name] {
            ScriptValue::Text(v) => Some(v),
            _ => None,
        }
    } else {
        None
    }
}

pub open spec fn number_in(m: Map<Seq<char>, ScriptValue>, name: Seq<char>) -> Option<Seq<char>> {
    if m.contains_key(name) {
        match m[name] {
            ScriptValue::Number(v) => Some(v),
            _ => None,
        }
    } else {
        None
    }
}

/// The amount of a floating-point variable. What is not finite is no amount.
pub open spec fn amount_in(m: Map<Seq<char>, ScriptValue>, name: Seq<char>) -> Option<Amount> {
    match number_in(m, name) {
        Some(t) => crate::amount::parsed_amount(t),
        None => None,
    }
}

pub open spec fn shown_in(m: Map<Seq<char>, Seq<char>>, name: Seq<char>) -> Option<Seq<char>> {
    if m.contains_key(name) {
        Some(m[name])
    } else {
        None
    }
}

/// The view of an optional text.
pub open spec fn text_view(t: Option<String>) -> Option<Seq<char>> {
    match t {
        Some(s) => Some(s@),
        None => None,
    }
}

/// The value of a variable that was set to an amount.
pub open spec fn amount_value(a: Amount) -> ScriptValue {
    ScriptValue::Number(float_text(crate::amount::short(a as int)))
}

// ---------------------------------------------------------------------------
// The scope

/// `rhai::Scope::new`: a scope without variables.
#[verifier::external_body]
pub(crate) fn new_scope() -> (r: rhai::Scope<'static>)
    ensures
        scope_values(r) == no_values(),
{
    rhai::Scope::new()
}

/// `rhai::Scope::set_or_push` of a text: the variable now has this value.
#[verifier::external_body]
pub(crate) fn set_text(scope: &mut rhai::Scope<'static>, name: &str, value: &str)
    ensures
        scope_values(*final(scope)) == scope_values(*old(scope)).insert(
            name@,
            ScriptValue::Text(value@),
        ),
{
    scope.set_or_push(name, value.to_owned());
}

/// `rhai::Scope::set_or_push` of an integer: the variable now has this value.
#[verifier::external_body]
pub(crate) fn set_int(scope: &mut rhai::Scope<'static>, name: &str, value: i64)
    ensures
        scope_values(*final(scope)) == scope_values(*old(scope)).insert(
            name@,
            ScriptValue::Int(value),
        ),
{
    scope.set_or_push(name, value);
}

/// `rhai::Scope::set_or_push` of a boolean: the variable now has this value.
#[verifier::external_body]
pub(crate) fn set_flag(scope: &mut rhai::Scope<'static>, name: &str, value: bool)
    ensures
        scope_values(*final(scope)) == scope_values(*old(scope)).insert(
            name@,
            ScriptValue::Flag(value),
        ),
{
    scope.set_or_push(name, value);
}

/// `rhai::Scope::set_or_push` of a floating-point number, given as decimal text: the variable now
/// has the number nearest to it.
#[verifier::external_body]
pub(crate) fn set_number(scope: &mut rhai::Scope<'static>, name: &str, number: &str)
    requires
        crate::amount::is_number(number@),
    ensures
        scope_values(*final(scope)) == scope_values(*old(scope)).insert(
            name@,
            ScriptValue::Number(float_text(number@)),
        ),
{
    scope.set_or_push(name, number.parse::<rhai::FLOAT>().unwrap_or_default());
}

/// `rhai::Scope::set_or_push` of an object: the variable now has this value.
#[verifier::external_body]
pub(crate) fn set_object(scope: &mut rhai::Scope<'static>, name: &str, value: ObjectMap)
    ensures
        scope_values(*final(scope)) == scope_values(*old(scope)).insert(
            name@,
            ScriptValue::Object(object_values(value)),
        ),
{
    scope.set_or_push(name, value.map);
}

/// `rhai::Scope::get_value` of an integer: the value of the variable, if it is one.
#[verifier::external_body]
pub(crate) fn get_int(scope: &rhai::Scope<'static>, name: &str) -> (r: Option<i64>)
    ensures
        r == int_in(scope_values(*scope), name@),
{
    scope.get_value::<rhai::INT>(name)
}

/// `rhai::Scope::get_value` of a boolean: the value of the variable, if it is one.
#[verifier::external_body]
pub(crate) fn get_flag(scope: &rhai::Scope<'static>, name: &str) -> (r: Option<bool>)
    ensures
        r == flag_in(scope_values(*scope), name@),
{
    scope.get_value::<bool>(name)
}

/// `rhai::Scope::get_value` of a text: the value of the variable, if it is one.
#[verifier::external_body]
pub(crate) fn get_text(scope: &rhai::Scope<'static>, name: &str) -> (r: Option<String>)
    ensures
        text_view(r) == text_in(scope_values(*scope), name@),
{
    scope.get_value::<String>(name)
}

/// `rhai::Scope::get_value` of a floating-point number: the decimal text of the variable,
/// if it is one.
#[verifier::external_body]
pub(crate) fn get_number(scope: &rhai::Scope<'static>, name: &str) -> (r: Option<String>)
    ensures
        text_view(r) == number_in(scope_values(*scope), name@),
{
    scope.get_value::<rhai::FLOAT>(name).map(|value| value.to_string())
}

/// Sets a variable to an amount.
pub(crate) fn set_amount(scope: &mut rhai::Scope<'static>, name: &str, value: Amount)
    ensures
        scope_values(*final(scope)) == scope_values(*old(scope)).insert(name@, amount_value(value)),
{
    let text: String = short_text(value);
    proof {
        crate::amount::lemma_short_is_number(value);
    }
    set_number(scope, name, text.as_str());
}

/// The amount of a floating-point variable.
pub(crate) fn get_amount(scope: &rhai::Scope<'static>, name: &str) -> (r: Option<Amount>)
    ensures
        r == amount_in(scope_values(*scope), name@),
{
    match get_number(scope, name) {
        Some(t) => parse_amount(t.as_str()),
        None => None,
    }
}

// ---------------------------------------------------------------------------
// The engine

/// `rhai::Engine::new`: an engine with the whole language and standard library, without a
/// limit on operations, modules and values. How many calls and how deep expressions it allows
/// depends on how the engine was built and is left unsaid.
#[verifier::external_body]
pub(crate) fn new_engine() -> (r: rhai::Engine)
    ensures
        limits_of(r).operations == 0,
        limits_of(r).modules == usize::MAX,
        limits_of(r).text == 0,
        limits_of(r).array == 0,
        limits_of(r).object == 0,
        limits_of(r).sleeps,
        limits_of(r).closures,
        limits_of(r).refused == Set::<Seq<char>>::empty(),
{
    rhai::Engine::new()
}

/// `rhai::Engine::set_max_operations`: sets this limit and no other.
#[verifier::external_body]
pub(crate) fn limit_operations(engine: &mut rhai::Engine, n: u64)
    ensures
        limits_of(*final(engine)) == (Limits { operations: n, ..limits_of(*old(engine)) }),
{
    engine.set_max_operations(n);
}

/// `rhai::Engine::set_max_modules`: sets this limit and no other.
#[verifier::external_body]
pub(crate) fn limit_modules(engine: &mut rhai::Engine, n: usize)
    ensures
        limits_of(*final(engine)) == (Limits { modules: n, ..limits_of(*old(engine)) }),
{
    engine.set_max_modules(n);
}

/// `rhai::Engine::set_max_expr_depths`: sets both depths and no other limit.
#[verifier::external_body]
pub(crate) fn limit_depths(engine: &mut rhai::Engine, depth: usize, function_depth: usize)
    ensures
        limits_of(*final(engine)) == (Limits { depth, function_depth, ..limits_of(*old(engine)) }),
{
    engine.set_max_expr_depths(depth, function_depth);
}

/// `rhai::Engine::set_max_call_levels`: sets this limit and no other.
#[verifier::external_body]
pub(crate) fn limit_calls(engine: &mut rhai::Engine, n: usize)
    ensures
        limits_of(*final(engine)) == (Limits { calls: n, ..limits_of(*old(engine)) }),
{
    engine.set_max_call_levels(n);
}

/// `rhai::Engine::set_max_string_size`: sets this limit and no other.
#[verifier::external_body]
pub(crate) fn limit_texts(engine: &mut rhai::Engine, n: usize)
    ensures
        limits_of(*final(engine)) == (Limits { text: n, ..limits_of(*old(engine)) }),
{
    engine.set_max_string_size(n);
}

/// `rhai::Engine::set_max_array_size`: sets this limit and no other. The values of an array
/// within an array count for both.
#[verifier::external_body]
pub(crate) fn limit_arrays(engine: &mut rhai::Engine, n: usize)
    ensures
        limits_of(*final(engine)) == (Limits { array: n, ..limits_of(*old(engine)) }),
{
    engine.set_max_array_size(n);
}

/// `rhai::Engine::set_max_map_size`: sets this limit and no other. The entries of an object
/// within an object count for both.
#[verifier::external_body]
pub(crate) fn limit_objects(engine: &mut rhai::Engine, n: usize)
    ensures
        limits_of(*final(engine)) == (Limits { object: n, ..limits_of(*old(engine)) }),
{
    engine.set_max_map_size(n);
}

/// `rhai::Engine::set_allow_anonymous_fn`: a script that makes a function without a name is
/// no script. Such a function holds on to variables, which can nest without a bound.
#[verifier::external_body]
pub(crate) fn refuse_closures(engine: &mut rhai::Engine)
    ensures
        limits_of(*final(engine)) == (Limits { closures: false, ..limits_of(*old(engine)) }),
{
    engine.set_allow_anonymous_fn(false);
}

/// `rhai::Engine::disable_symbol` of a keyword: a script that holds it is no script. The
/// evaluation of text, an import and a function with arguments bound to it can nest without a
/// bound.
#[verifier::external_body]
pub(crate) fn refuse_keyword(engine: &mut rhai::Engine, keyword: &str)
    requires
        keyword@ == "eval"@ || keyword@ == "import"@ || keyword@ == "curry"@,
    ensures
        limits_of(*final(engine)) == (Limits {
            refused: limits_of(*old(engine)).refused.insert(keyword@),
            ..limits_of(*old(engine))
        }),
{
    engine.disable_symbol(keyword);
}

/// What a script is told that calls a function that is refused to it.
fn refusal() -> (r: String)
    ensures
        r@ == "function not available"@,
{
    "function not available".to_owned()
}

/// `rhai::Engine::register_fn` of `sleep` for whole seconds and for others: a function that
/// returns at once takes the place of the one of the standard library, which blocks, and
/// panics on a time that is too long. Registered functions are found first.
#[verifier::external_body]
pub(crate) fn skip_sleep(engine: &mut rhai::Engine)
    ensures
        limits_of(*final(engine)) == (Limits { sleeps: false, ..limits_of(*old(engine)) }),
{
    engine.register_fn("sleep", |_: rhai::INT| {});
    engine.register_fn("sleep", |_: rhai::FLOAT| {});
}

/// `rhai::Engine::register_fn` of `pad` for arrays and for texts: a function that fails
/// takes the place of those of the standard library. The one for arrays panics on a length
/// that memory cannot address, the one for texts never returns where the padding is empty.
#[verifier::external_body]
pub(crate) fn refuse_pad(engine: &mut rhai::Engine)
    ensures
        limits_of(*final(engine)) == (Limits {
            refused: limits_of(*old(engine)).refused.insert("pad"@),
            ..limits_of(*old(engine))
        }),
{
    engine.register_fn("pad", |_: &mut rhai::Array, _: rhai::INT, _: rhai::Dynamic| {
        Err::<(), Box<rhai::EvalAltResult>>(refusal().into())
    });
    engine.register_fn("pad", |_: &mut rhai::ImmutableString, _: rhai::INT, _: rhai::ImmutableString| {
        Err::<(), Box<rhai::EvalAltResult>>(refusal().into())
    });
}

/// `rhai::Engine::register_fn` of a function of this name on an array alone: a function that
/// fails takes the place of the one of the standard library. Those that order an array by
/// its own values may panic where some of them are no numbers; the ones that are given a
/// comparison stay.
#[verifier::external_body]
pub(crate) fn refuse_sort(engine: &mut rhai::Engine, name: &str)
    ensures
        limits_of(*final(engine)) == (Limits {
            refused: limits_of(*old(engine)).refused.insert(name@),
            ..limits_of(*old(engine))
        }),
{
    engine.register_fn(name, |_: &mut rhai::Array| Err::<(), Box<rhai::EvalAltResult>>(refusal().into()));
}

/// Gives an engine these limits, and takes from it what can panic, block or nest without a
/// bound.
pub(crate) fn tame_engine(engine: &mut rhai::Engine, operations: u64, depth: usize, function_depth: usize)
    requires
        0 < operations <= MOST_OPERATIONS,
        0 < depth <= MOST_DEPTH,
        0 < function_depth <= MOST_DEPTH,
    ensures
        tame(limits_of(*final(engine))),
        limits_of(*final(engine)) == (Limits {
            operations,
            calls: MOST_CALLS,
            depth,
            function_depth,
            text: MOST_TEXT,
            array: MOST_VALUES,
            object: MOST_VALUES,
            sleeps: false,
            closures: false,
            refused: limits_of(*final(engine)).refused,
            ..limits_of(*old(engine))
        }),
{
    limit_operations(engine, operations);
    limit_calls(engine, MOST_CALLS);
    limit_depths(engine, depth, function_depth);
    limit_texts(engine, MOST_TEXT);
    limit_arrays(engine, MOST_VALUES);
    limit_objects(engine, MOST_VALUES);
    skip_sleep(engine);
    refuse_closures(engine);
    refuse_keyword(engine, "eval");
    refuse_keyword(engine, "import");
    refuse_keyword(engine, "curry");
    refuse_pad(engine);
    refuse_sort(engine, "sort");
    refuse_sort(engine, "sort_desc");
    refuse_sort(engine, "order");
    refuse_sort(engine, "order_desc");
}

// ---------------------------------------------------------------------------
// Evaluation

pub open spec fn unit_end(r: Result<(), String>) -> RunEnd {
    match r {
        Ok(_) => RunEnd::Plain,
        Err(e) => RunEnd::Failed { error: e@ },
    }
}

pub open spec fn object_end(m: ObjectMap) -> RunEnd {
    RunEnd::Object {
        values: object_values(m),
        texts: object_texts(m),
        keys: object_key_list(m),
    }
}

pub open spec fn value_end(r: Result<Option<ObjectMap>, String>) -> RunEnd {
    match r {
        Ok(Some(m)) => object_end(m),
        Ok(None) => RunEnd::Plain,
        Err(e) => RunEnd::Failed { error: e@ },
    }
}

pub open spec fn map_end(r: Result<ObjectMap, String>) -> RunEnd {
    match r {
        Ok(m) => object_end(m),
        Err(e) => RunEnd::Failed { error: e@ },
    }
}

/// `rhai::Engine::eval_with_scope` of a script that returns nothing. What the script does
/// to its variables, and whether it fails, is up to the script; an error comes as text.
/// Claimed is only that the evaluation starts with the scope's variables. The engine must be
/// tame: on others a script may panic, run out of stack or never end.
#[verifier::external_body]
pub(crate) fn eval_unit(engine: &rhai::Engine, scope: &mut rhai::Scope<'static>, script: &str) -> (r: Result<
    (),
    String,
>)
    requires
        tame(limits_of(*engine)),
    ensures
        may_end(
            limits_of(*engine),
            script@,
            scope_values(*old(scope)),
            scope_values(*final(scope)),
            unit_end(r),
        ),
{
    engine.eval_with_scope::<()>(scope, script).map_err(|error| error.to_string())
}

/// `rhai::Engine::eval_with_scope` of a script that returns anything. There is an object
/// where the script returned one; what it holds is up to the script. The engine must be
/// tame.
#[verifier::external_body]
pub(crate) fn eval_value(engine: &rhai::Engine, scope: &mut rhai::Scope<'static>, script: &str) -> (r: Result<
    Option<ObjectMap>,
    String,
>)
    requires
        tame(limits_of(*engine)),
    ensures
        may_end(
            limits_of(*engine),
            script@,
            scope_values(*old(scope)),
            scope_values(*final(scope)),
            value_end(r),
        ),
{
    engine
        .eval_with_scope::<rhai::Dynamic>(scope, script)
        .map(|value| value.try_cast::<rhai::Map>().map(|map| ObjectMap { map }))
        .map_err(|error| error.to_string())
}

/// `rhai::Engine::eval_with_scope` of a script that returns an object. Every other result
/// is an error; what the object holds is up to the script. The engine must be tame.
#[verifier::external_body]
pub(crate) fn eval_object(engine: &rhai::Engine, scope: &mut rhai::Scope<'static>, script: &str) -> (r: Result<
    ObjectMap,
    String,
>)
    requires
        tame(limits_of(*engine)),
    ensures
        may_end(
            limits_of(*engine),
            script@,
            scope_values(*old(scope)),
            scope_values(*final(scope)),
            map_end(r),
        ),
{
    engine
        .eval_with_scope::<rhai::Map>(scope, script)
        .map(|map| ObjectMap { map })
        .map_err(|error| error.to_string())
}

// ---------------------------------------------------------------------------
// Objects

/// `rhai::Map::new`: an object without entries.
#[verifier::external_body]
pub(crate) fn new_object() -> (r: ObjectMap)
    ensures
        object_values(r) == no_values(),
{
    ObjectMap { map: rhai::Map::new() }
}

/// `rhai::Map::insert` of a text: the entry now has this value.
#[verifier::external_body]
pub(crate) fn put_text(m: &mut ObjectMap, key: &str, value: &str)
    ensures
        object_values(*final(m)) == object_values(*old(m)).insert(key@, ScriptValue::Text(value@)),
{
    m.map.insert(key.into(), value.to_owned().into());
}

/// `rhai::Map::insert` of an integer: the entry now has this value.
#[verifier::external_body]
pub(crate) fn put_int(m: &mut ObjectMap, key: &str, value: i64)
    ensures
        object_values(*final(m)) == object_values(*old(m)).insert(key@, ScriptValue::Int(value)),
{
    m.map.insert(key.into(), value.into());
}

/// `rhai::Map::insert` of a boolean: the entry now has this value.
#[verifier::external_body]
pub(crate) fn put_flag(m: &mut ObjectMap, key: &str, value: bool)
    ensures
        object_values(*final(m)) == object_values(*old(m)).insert(key@, ScriptValue::Flag(value)),
{
    m.map.insert(key.into(), value.into());
}

/// `rhai::Map::insert` of a floating-point number, given as decimal text: the entry now has
/// the number nearest to it.
#[verifier::external_body]
fn put_number(m: &mut ObjectMap, key: &str, number: &str)
    requires
        crate::amount::is_number(number@),
    ensures
        object_values(*final(m)) == object_values(*old(m)).insert(
            key@,
            ScriptValue::Number(float_text(number@)),
        ),
{
    m.map.insert(key.into(), number.parse::<rhai::FLOAT>().unwrap_or_default().into());
}

/// Sets an entry to an amount.
pub(crate) fn put_amount(m: &mut ObjectMap, key: &str, value: Amount)
    ensures
        object_values(*final(m)) == object_values(*old(m)).insert(key@, amount_value(value)),
{
    let text: String = short_text(value);
    proof {
        crate::amount::lemma_short_is_number(value);
    }
    put_number(m, key, text.as_str());
}

/// `rhai::Dynamic::as_int` of an entry: the integer, if the entry is one.
#[verifier::external_body]
fn object_int(m: &ObjectMap, key: &str) -> (r: Option<i64>)
    ensures
        r == int_in(object_values(*m), key@),
{
    m.map.get(key).and_then(|value| value.as_int().ok())
}

/// `rhai::Dynamic::as_bool` of an entry: the boolean, if the entry is one.
#[verifier::external_body]
fn object_flag(m: &ObjectMap, key: &str) -> (r: Option<bool>)
    ensures
        r == flag_in(object_values(*m), key@),
{
    m.map.get(key).and_then(|value| value.as_bool().ok())
}

/// `rhai::Dynamic::as_float` of an entry: the decimal text of the number, if the entry is
/// a floating-point number.
#[verifier::external_body]
fn object_number(m: &ObjectMap, key: &str) -> (r: Option<String>)
    ensures
        text_view(r) == number_in(object_values(*m), key@),
{
    m.map.get(key).and_then(|value| value.as_float().ok()).map(|value| value.to_string())
}

/// `rhai::Dynamic::into_string` of an entry: the text, if the entry is one.
#[verifier::external_body]
fn object_text(m: &ObjectMap, key: &str) -> (r: Option<String>)
    ensures
        text_view(r) == text_in(object_values(*m), key@),
{
    m.map.get(key).and_then(|value| value.clone().into_string().ok())
}

/// The `Display` text of a `rhai::Dynamic` entry, whatever it is.
#[verifier::external_body]
fn object_shown(m: &ObjectMap, key: &str) -> (r: Option<String>)
    ensures
        text_view(r) == shown_in(object_texts(*m), key@),
{
    m.map.get(key).map(|value| value.to_string())
}

/// The `Debug` text of the keys of a `rhai::Map`.
#[verifier::external_body]
pub(crate) fn object_keys(m: &ObjectMap) -> (r: String)
    ensures
        r@ == object_key_list(*m),
{
    format!("{:?}", m.map.keys().collect::<Vec<_>>())
}

/// The integer of an entry.
pub fn map_get_int(m: &ObjectMap, key: &str) -> (r: Option<i64>)
    ensures
        r == int_in(object_values(*m), key@),
{
    object_int(m, key)
}

/// The boolean of an entry.
pub fn map_get_bool(m: &ObjectMap, key: &str) -> (r: Option<bool>)
    ensures
        r == flag_in(object_values(*m), key@),
{
    object_flag(m, key)
}

/// An integer as an amount.
pub open spec fn whole_amount(v: i64) -> Amount {
    (v * crate::amount::ONE) as Amount
}

/// The amount of an entry: of its floating-point number or of its integer.
pub open spec fn amount_or_int_in(m: Map<Seq<char>, ScriptValue>, name: Seq<char>) -> Option<Amount> {
    match number_in(m, name) {
        Some(t) => crate::amount::parsed_amount(t),
        None => match int_in(m, name) {
            Some(v) => Some(whole_amount(v)),
            None => None,
        },
    }
}

/// The amount of an entry; an integer counts as a number.
pub fn map_get_float(m: &ObjectMap, key: &str) -> (r: Option<Amount>)
    ensures
        r == amount_or_int_in(object_values(*m), key@),
{
    match object_number(m, key) {
        Some(t) => parse_amount(t.as_str()),
        None => match object_int(m, key) {
            Some(v) => Some(v as i128 * 100_000_000),
            None => None,
        },
    }
}

/// An entry as the engine shows it, whatever it is.
pub fn map_get_string(m: &ObjectMap, key: &str) -> (r: Option<String>)
    ensures
        text_view(r) == shown_in(object_texts(*m), key@),
{
    object_shown(m, key)
}

/// The text of an entry that is a text.
pub fn map_get_text(m: &ObjectMap, key: &str) -> (r: Option<String>)
    ensures
        text_view(r) == text_in(object_values(*m), key@),
{
    object_text(m, key)
}

/// The amount of an entry that is a floating-point number.
pub fn map_get_amount(m: &ObjectMap, key: &str) -> (r: Option<Amount>)
    ensures
        r == amount_in(object_values(*m), key@),
{
    match object_number(m, key) {
        Some(t) => parse_amount(t.as_str()),
        None => None,
    }
}

} // verus!
