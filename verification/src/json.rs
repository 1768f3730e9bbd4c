use vstd::prelude::*;

verus! {

/// A decoded JSON document held as plain data. The decoder validates payloads
/// against this tree, so every structural rule it applies is stated over a
/// value the verifier can see into.
#[derive(Debug, PartialEq)]
pub enum Json {
    Null,
    Bool(bool),
    /// A number written as a non-negative integer that fits 64 bits.
    UInt(u64),
    /// A number written as a negative integer that fits 64 bits.
    Int(i64),
    /// Any other number (fractional, or out of 64-bit range). Structural
    /// validation only needs its presence, so its value is not retained.
    NumOther,
    Str(String),
    Arr(Vec<Json>),
    /// An object's bindings in the order the parser hands them over; lookups
    /// take the first binding of a key.
    Obj(Vec<(String, Json)>),
}

/// Declares `serde_json::Value`, the parser's own tree form, so that values
/// of it can pass between the trusted parsing call and the trusted
/// conversion below; the library never looks inside one.
#[verifier::external_type_specification]
#[verifier::external_body]
pub struct ExValue(serde_json::Value);

/// What parsing a text as JSON yields, carried over into the plain [`Json`]
/// form: `Some` exactly on the texts that `serde_json` accepts. The outcome is
/// a function of the text alone.
pub uninterp spec fn json_parse(text: Seq<char>) -> Option<Json>;

/// The plain [`Json`] form of the contents of an opaque `serde_json::Value`
/// tree.
pub uninterp spec fn value_model(v: serde_json::Value) -> Json;

/// Relies on `serde_json::from_str::<serde_json::Value>`: parses a text into a
/// JSON tree, returning `None` exactly on the texts it rejects as malformed;
/// on a given text the outcome is a function of the text alone.
#[verifier::external_body]
fn parse_value(text: &str) -> (r: Option<serde_json::Value>)
    ensures
        match r {
            Some(v) => json_parse(text@) == Some(value_model(v)),
            None => json_parse(text@) is None,
        },
{
    serde_json::from_str::<serde_json::Value>(text).ok()
}

/// Relies on the variants of `serde_json::Value` and on
/// `serde_json::Number::{as_u64, as_i64}`: each case is carried over to the
/// matching [`Json`] case, moving its contents; numbers go by whether they fit
/// an unsigned or a signed 64-bit integer.
#[verifier::external_body]
fn value_into_json(v: serde_json::Value) -> (r: Json)
    ensures
        r == value_model(v),
{
    match v {
        serde_json::Value::Null => Json::Null,
        serde_json::Value::Bool(b) => Json::Bool(b),
        serde_json::Value::Number(n) => match (n.as_u64(), n.as_i64()) {
            (Some(u), _) => Json::UInt(u),
            (None, Some(i)) => Json::Int(i),
            (None, None) => Json::NumOther,
        },
        serde_json::Value::String(s) => Json::Str(s),
        serde_json::Value::Array(a) => Json::Arr(a.into_iter().map(value_into_json).collect()),
        serde_json::Value::Object(m) => Json::Obj(
            m.into_iter().map(|(k, x)| (k, value_into_json(x))).collect(),
        ),
    }
}

/// Parse a text as JSON into the plain tree: `None` exactly on malformed
/// input.
pub fn parse_json(text: &str) -> (r: Option<Json>)
    ensures
        r == json_parse(text@),
{
    match parse_value(text) {
        Some(v) => Some(value_into_json(v)),
        None => None,
    }
}

/// Relies on `str`'s `PartialEq`: two string slices compare equal exactly when
/// their character sequences are equal.
#[verifier::external_body]
pub(crate) fn str_eq(a: &str, b: &str) -> (r: bool)
    ensures
        r == (a@ == b@),
{
    a == b
}

/// Whether a character is a decimal digit.
pub open spec fn spec_is_digit(c: char) -> bool {
    48 <= c as u32 <= 57
}

/// Whether a text consists of decimal digits only.
pub open spec fn spec_all_digits(s: Seq<char>) -> bool {
    forall|i: int| 0 <= i < s.len() ==> spec_is_digit(#[trigger] s[i])
}

/// The numeric value of a text of decimal digits, most significant first.
pub open spec fn spec_dec_value(s: Seq<char>) -> int
    decreases s.len(),
{
    if s.len() == 0 {
        0
    } else {
        spec_dec_value(s.drop_last()) * 10 + (s.last() as u32 - 48)
    }
}

/// What parsing a text as an unsigned 64-bit decimal number yields: defined
/// exactly on non-empty all-digit texts whose value fits.
pub open spec fn spec_parse_u64(s: Seq<char>) -> Option<u64> {
    if s.len() > 0 && spec_all_digits(s) && spec_dec_value(s) <= u64::MAX {
        Some(spec_dec_value(s) as u64)
    } else {
        None
    }
}

proof fn lemma_dec_value_nonneg(s: Seq<char>)
    requires
        spec_all_digits(s),
    ensures
        spec_dec_value(s) >= 0,
    decreases s.len(),
{
    if s.len() > 0 {
        lemma_dec_value_nonneg(s.drop_last());
    }
}

proof fn lemma_dec_value_grows(s: Seq<char>, i: int)
    requires
        0 <= i <= s.len(),
        spec_all_digits(s),
    ensures
        spec_dec_value(s.take(i)) <= spec_dec_value(s),
    decreases s.len() - i,
{
    assert(spec_all_digits(s.take(i)));
    if i == s.len() {
        assert(s.take(i) =~= s);
    } else {
        assert(s.take(i + 1).drop_last() =~= s.take(i));
        assert(s.take(i + 1).last() == s[i]);
        lemma_dec_value_nonneg(s.take(i));
        assert(spec_dec_value(s.take(i)) <= spec_dec_value(s.take(i + 1)));
        lemma_dec_value_grows(s, i + 1);
    }
}

/// Parse a text as an unsigned 64-bit decimal number, rejecting empty texts,
/// any non-digit character, and values that do not fit.
pub fn parse_u64(s: &str) -> (r: Option<u64>)
    ensures
        r == spec_parse_u64(s@),
{
    let n = s.unicode_len();
    if n == 0 {
        return None;
    }
    let mut val: u64 = 0;
    let mut i: usize = 0;
    assert(s@.take(0) =~= Seq::<char>::empty());
    while i < n
        invariant
            0 <= i <= n,
            n == s@.len(),
            forall|k: int| 0 <= k < i ==> spec_is_digit(#[trigger] s@[k]),
            val == spec_dec_value(s@.take(i as int)),
        decreases n - i,
    {
        let c = s.get_char(i);
        let cu = c as u32;
        if cu < 48 || cu > 57 {
            assert(!spec_all_digits(s@));
            return None;
        }
        let d = (cu - 48) as u64;
        proof {
            assert(s@.take(i + 1).drop_last() =~= s@.take(i as int));
            assert(s@.take(i + 1).last() == s@[i as int]);
        }
        if val > (u64::MAX - d) / 10 {
            proof {
                assert(spec_all_digits(s@.take(i + 1)));
                lemma_dec_value_nonneg(s@.take(i + 1));
                assert(val * 10 + d > u64::MAX) by (nonlinear_arith)
                    requires
                        val > (u64::MAX - d) / 10,
                        0 <= d <= 9,
                {
                }
                if spec_all_digits(s@) {
                    lemma_dec_value_grows(s@, i + 1);
                }
            }
            return None;
        }
        proof {
            assert(val * 10 + d <= u64::MAX) by (nonlinear_arith)
                requires
                    val <= (u64::MAX - d) / 10,
                    0 <= d <= 9,
            {
            }
        }
        val = val * 10 + d;
        i += 1;
    }
    assert(s@.take(n as int) =~= s@);
    Some(val)
}

/// The value bound to `key` in an object's field list; the first binding wins.
pub open spec fn spec_lookup(fields: Seq<(String, Json)>, key: Seq<char>) -> Option<Json>
    decreases fields.len(),
{
    if fields.len() == 0 {
        None
    } else if fields[0].0@ == key {
        Some(fields[0].1)
    } else {
        spec_lookup(fields.drop_first(), key)
    }
}

/// Whether an object's field list binds `key`.
pub open spec fn spec_has_key(fields: Seq<(String, Json)>, key: Seq<char>) -> bool {
    spec_lookup(fields, key) is Some
}

/// Whether an object's field list binds `key`.
pub fn has_key(fields: &Vec<(String, Json)>, key: &str) -> (r: bool)
    ensures
        r == spec_has_key(fields@, key@),
{
    obj_get(fields, key).is_some()
}

/// Look a key up in an object's field list.
pub fn obj_get<'a>(fields: &'a Vec<(String, Json)>, key: &str) -> (r: Option<&'a Json>)
    ensures
        match r {
            Some(j) => spec_lookup(fields@, key@) == Some(*j),
            None => spec_lookup(fields@, key@) is None,
        },
{
    let mut i: usize = 0;
    assert(fields@.skip(0) =~= fields@);
    while i < fields.len()
        invariant
            0 <= i <= fields@.len(),
            spec_lookup(fields@, key@) == spec_lookup(fields@.skip(i as int), key@),
        decreases fields@.len() - i,
    {
        if str_eq(fields[i].0.as_str(), key) {
            return Some(&fields[i].1);
        }
        assert(fields@.skip(i as int).drop_first() =~= fields@.skip(i as int + 1));
        i += 1;
    }
    None
}

} // verus!
