//! Shape parameters: their declared types, their default values as JSON
//! and the typed accessors generated for them.
use vstd::prelude::*;
use vstd::string::{StrSliceExecFns, StringExecFns};
use crate::shape_json::{json_str, push_json_string, ShapeParam};
use crate::text::{decimal, push_char, push_str, str_eq, u64_to_decimal};
use crate::type_names::{remove_spaces, without_spaces};

verus! {

/// The shape type of a space-free Rust type text, if it is supported.
pub open spec fn shape_type_of(raw: Seq<char>) -> Option<Seq<char>> {
    if raw == "u64"@ {
        Some("u64"@)
    } else if raw == "i64"@ {
        Some("i64"@)
    } else if raw == "bool"@ {
        Some("bool"@)
    } else if raw == "String"@ || raw == "&str"@ || raw == "str"@ {
        Some("string"@)
    } else if raw == "Vec<u8>"@ {
        Some("bytes"@)
    } else if raw == "u128"@ {
        Some("u128"@)
    } else {
        None
    }
}

/// The shape parameter types: `u64`, `i64`, `bool` and `u128` keep their
/// names, `String`, `&str` and `str` are `string`, and `Vec<u8>` is
/// `bytes`.
pub proof fn lemma_shape_type_table()
    ensures
        shape_type_of("u64"@) == Some("u64"@),
        shape_type_of("i64"@) == Some("i64"@),
        shape_type_of("bool"@) == Some("bool"@),
        shape_type_of("String"@) == Some("string"@),
        shape_type_of("&str"@) == Some("string"@),
        shape_type_of("str"@) == Some("string"@),
        shape_type_of("Vec<u8>"@) == Some("bytes"@),
        shape_type_of("u128"@) == Some("u128"@),
{
    reveal_strlit("u64");
    reveal_strlit("i64");
    reveal_strlit("bool");
    reveal_strlit("String");
    reveal_strlit("&str");
    reveal_strlit("str");
    reveal_strlit("Vec<u8>");
    reveal_strlit("u128");
    reveal_strlit("string");
    reveal_strlit("bytes");
    assert("u64"@[0] != "i64"@[0]);
    assert("u64"@ != "bool"@) by { assert("u64"@.len() != "bool"@.len()); }
    assert("u64"@ != "String"@) by { assert("u64"@.len() != "String"@.len()); }
    assert("u64"@ != "&str"@) by { assert("u64"@.len() != "&str"@.len()); }
    assert("u64"@[0] != "str"@[0]);
    assert("u64"@ != "Vec<u8>"@) by { assert("u64"@.len() != "Vec<u8>"@.len()); }
    assert("u64"@ != "u128"@) by { assert("u64"@.len() != "u128"@.len()); }
    assert("i64"@ != "bool"@) by { assert("i64"@.len() != "bool"@.len()); }
    assert("i64"@ != "String"@) by { assert("i64"@.len() != "String"@.len()); }
    assert("i64"@ != "&str"@) by { assert("i64"@.len() != "&str"@.len()); }
    assert("i64"@[0] != "str"@[0]);
    assert("i64"@ != "Vec<u8>"@) by { assert("i64"@.len() != "Vec<u8>"@.len()); }
    assert("i64"@ != "u128"@) by { assert("i64"@.len() != "u128"@.len()); }
    assert("bool"@ != "String"@) by { assert("bool"@.len() != "String"@.len()); }
    assert("bool"@[0] != "&str"@[0]);
    assert("bool"@ != "str"@) by { assert("bool"@.len() != "str"@.len()); }
    assert("bool"@ != "Vec<u8>"@) by { assert("bool"@.len() != "Vec<u8>"@.len()); }
    assert("bool"@[0] != "u128"@[0]);
    assert("String"@ != "&str"@) by { assert("String"@.len() != "&str"@.len()); }
    assert("String"@ != "str"@) by { assert("String"@.len() != "str"@.len()); }
    assert("String"@ != "Vec<u8>"@) by { assert("String"@.len() != "Vec<u8>"@.len()); }
    assert("String"@ != "u128"@) by { assert("String"@.len() != "u128"@.len()); }
    assert("&str"@ != "str"@) by { assert("&str"@.len() != "str"@.len()); }
    assert("&str"@ != "Vec<u8>"@) by { assert("&str"@.len() != "Vec<u8>"@.len()); }
    assert("&str"@[0] != "u128"@[0]);
    assert("str"@ != "Vec<u8>"@) by { assert("str"@.len() != "Vec<u8>"@.len()); }
    assert("str"@ != "u128"@) by { assert("str"@.len() != "u128"@.len()); }
    assert("Vec<u8>"@ != "u128"@) by { assert("Vec<u8>"@.len() != "u128"@.len()); }
}

/// Maps the text of a shape parameter's Rust type (spaces are ignored) to
/// its shape type: `u64`, `i64`, `bool`, `string`, `bytes` or `u128`.
pub fn rust_type_to_shape_type(type_text: &str) -> (r: Result<String, String>)
    ensures
        r is Ok <==> shape_type_of(without_spaces(type_text@)) is Some,
        r matches Ok(t) ==> shape_type_of(without_spaces(type_text@)) == Some(t@),
        r matches Err(e) ==> e@ == "unsupported shape parameter type: "@ + without_spaces(
            type_text@,
        ),
{
    let raw = remove_spaces(type_text);
    let s = raw.as_str();
    if str_eq(s, "u64") {
        Ok(String::from_str("u64"))
    } else if str_eq(s, "i64") {
        Ok(String::from_str("i64"))
    } else if str_eq(s, "bool") {
        Ok(String::from_str("bool"))
    } else if str_eq(s, "String") || str_eq(s, "&str") || str_eq(s, "str") {
        Ok(String::from_str("string"))
    } else if str_eq(s, "Vec<u8>") {
        Ok(String::from_str("bytes"))
    } else if str_eq(s, "u128") {
        Ok(String::from_str("u128"))
    } else {
        let mut e = String::new();
        push_str(&mut e, "unsupported shape parameter type: ");
        push_str(&mut e, s);
        Err(e)
    }
}

/// A literal written as a parameter's default value.
#[derive(Debug)]
pub enum ParamLit {
    /// An integer literal, by its decimal digits.
    Int(String),
    /// `true` or `false`.
    Bool(bool),
    /// A string literal, by its value.
    Str(String),
    /// Any other literal.
    Other,
}

/// The expression written as a parameter's default value, as far as the
/// default's JSON depends on it.
#[derive(Debug)]
pub enum ParamExpr {
    /// A literal.
    Lit(ParamLit),
    /// An array of elements.
    Array(Vec<ParamExpr>),
    /// Any other expression.
    Other,
}

/// The value of a text of decimal digits.
pub open spec fn digits_value(s: Seq<char>) -> nat
    decreases s.len(),
{
    if s.len() == 0 {
        0
    } else {
        digits_value(s.drop_last()) * 10 + ((s.last() as nat) - 48) as nat
    }
}

/// Writing a number in decimal and reading the digits back gives the
/// number: `decimal` writes base-10 digits, most significant first.
pub proof fn lemma_decimal_reads_back(n: nat)
    ensures
        all_digits(decimal(n)),
        digits_value(decimal(n)) == n,
    decreases n,
{
    let k = n % 10;
    assert(((k + 48) as u8) as nat == k + 48);
    assert('0' <= crate::text::digit_char(k) && crate::text::digit_char(k) <= '9');
    assert((crate::text::digit_char(k) as nat) == k + 48);
    if n >= 10 {
        lemma_decimal_reads_back(n / 10);
        let d = decimal(n / 10);
        assert(decimal(n) == d.push(crate::text::digit_char(k)));
        assert(decimal(n).drop_last() =~= d);
        assert(decimal(n).last() == crate::text::digit_char(k));
        vstd::arithmetic::div_mod::lemma_fundamental_div_mod(n as int, 10);
        assert(digits_value(decimal(n)) == (n / 10) * 10 + k);
        assert((n / 10) * 10 == 10 * (n / 10)) by (nonlinear_arith);
        assert forall|i: int| 0 <= i < decimal(n).len() implies '0' <= #[trigger] decimal(n)[i] && decimal(n)[i] <= '9' by {
            if i < d.len() {
                assert(decimal(n)[i] == d[i]);
            }
        }
    } else {
        assert(decimal(n).drop_last() =~= Seq::<char>::empty());
        assert(digits_value(decimal(n).drop_last()) == 0);
        assert(n % 10 == n);
        assert(decimal(n).last() == crate::text::digit_char(k));
    }
}

/// `s` is a non-empty text of decimal digits.
pub open spec fn all_digits(s: Seq<char>) -> bool {
    s.len() > 0 && forall|i: int| 0 <= i < s.len() ==> '0' <= #[trigger] s[i] && s[i] <= '9'
}

/// How parsing `s` as a `u8` goes: its value, or the message of the failure.
pub open spec fn parse_u8(s: Seq<char>) -> Result<u8, Seq<char>> {
    if s.len() == 0 {
        Err("cannot parse integer from empty string"@)
    } else if !all_digits(s) {
        Err("invalid digit found in string"@)
    } else if digits_value(s) > 255 {
        Err("number too large to fit in target type"@)
    } else {
        Ok(digits_value(s) as u8)
    }
}

/// Parses a text of decimal digits as a byte.
pub fn parse_byte(s: &str) -> (r: Result<u8, String>)
    ensures
        r matches Ok(v) ==> parse_u8(s@) == Ok::<u8, Seq<char>>(v),
        r matches Err(e) ==> parse_u8(s@) == Err::<u8, Seq<char>>(e@),
{
    let n = s.unicode_len();
    if n == 0 {
        return Err(String::from_str("cannot parse integer from empty string"));
    }
    let mut i: usize = 0;
    while i < n
        invariant
            n == s@.len(),
            i <= n,
            forall|k: int| 0 <= k < i ==> '0' <= #[trigger] s@[k] && s@[k] <= '9',
        decreases n - i,
    {
        let c = s.get_char(i);
        if !('0' <= c && c <= '9') {
            return Err(String::from_str("invalid digit found in string"));
        }
        i = i + 1;
    }
    let mut v: u64 = 0;
    let mut k: usize = 0;
    while k < n
        invariant
            n == s@.len(),
            all_digits(s@),
            k <= n,
            v == digits_value(s@.take(k as int)),
            v <= 255,
        decreases n - k,
    {
        assert(s@.take(k + 1).drop_last() =~= s@.take(k as int));
        let c = s.get_char(k);
        let d = (c as u32 - 48) as u64;
        let next = v * 10 + d;
        if next > 255 {
            proof {
                lemma_digits_value_grows(s@, (k + 1) as nat);
            }
            return Err(String::from_str("number too large to fit in target type"));
        }
        v = next;
        k = k + 1;
    }
    assert(s@.take(n as int) =~= s@);
    Ok(v as u8)
}

/// A text of digits is worth at least as much as any of its prefixes.
pub proof fn lemma_digits_value_grows(s: Seq<char>, k: nat)
    requires
        all_digits(s),
        k <= s.len(),
    ensures
        digits_value(s) >= digits_value(s.take(k as int)),
    decreases s.len() - k,
{
    if k < s.len() {
        lemma_digits_value_grows(s, k + 1);
        assert(s.take((k + 1) as int).drop_last() =~= s.take(k as int));
    } else {
        assert(s.take(k as int) =~= s);
    }
}

/// The JSON of a `bytes` default: each element an integer literal that
/// parses as a byte, written in decimal; or the first failure.
pub open spec fn bytes_json(elems: Seq<ParamExpr>, k: nat) -> Result<Seq<char>, Seq<char>>
    decreases k,
{
    if k == 0 {
        Ok(Seq::empty())
    } else {
        match bytes_json(elems, (k - 1) as nat) {
            Err(e) => Err(e),
            Ok(prefix) => match elems[k - 1] {
                ParamExpr::Lit(ParamLit::Int(digits)) => match parse_u8(digits@) {
                    Ok(b) => Ok(
                        prefix + (if k - 1 > 0 {
                            seq![',']
                        } else {
                            Seq::empty()
                        }) + decimal(b as nat),
                    ),
                    Err(e) => Err(e),
                },
                _ => Err("bytes parameter requires byte literals"@),
            },
        }
    }
}

/// The JSON value of a parameter's default for its shape type, or the
/// message saying why the default does not fit the type.
pub open spec fn default_json(expr: ParamExpr, shape_type: Seq<char>) -> Result<Seq<char>, Seq<char>> {
    if shape_type == "u64"@ || shape_type == "i64"@ || shape_type == "u128"@ {
        match expr {
            ParamExpr::Lit(ParamLit::Int(digits)) => Ok(digits@),
            ParamExpr::Lit(_) => Err("numeric parameter requires an integer literal"@),
            _ => Err("invalid default literal for "@ + shape_type + " parameter"@),
        }
    } else if shape_type == "bool"@ {
        match expr {
            ParamExpr::Lit(ParamLit::Bool(b)) => Ok(if b { "true"@ } else { "false"@ }),
            ParamExpr::Lit(_) => Err("bool parameter requires true or false"@),
            _ => Err("invalid default literal for "@ + shape_type + " parameter"@),
        }
    } else if shape_type == "string"@ {
        match expr {
            ParamExpr::Lit(ParamLit::Str(v)) => Ok(json_str(v@)),
            ParamExpr::Lit(_) => Err("string parameter requires a string literal"@),
            _ => Err("invalid default literal for "@ + shape_type + " parameter"@),
        }
    } else if shape_type == "bytes"@ {
        match expr {
            ParamExpr::Array(elems) => match bytes_json(elems@, elems@.len()) {
                Ok(body) => Ok(seq!['['] + body + seq![']']),
                Err(e) => Err(e),
            },
            _ => Err("invalid default literal for "@ + shape_type + " parameter"@),
        }
    } else {
        Err("invalid default literal for "@ + shape_type + " parameter"@)
    }
}

fn invalid_default(shape_type: &str) -> (r: String)
    ensures
        r@ == "invalid default literal for "@ + shape_type@ + " parameter"@,
{
    let mut e = String::new();
    push_str(&mut e, "invalid default literal for ");
    push_str(&mut e, shape_type);
    push_str(&mut e, " parameter");
    e
}

proof fn lemma_bytes_json_err_stays(elems: Seq<ParamExpr>, k: nat, n: nat)
    requires
        k <= n,
        bytes_json(elems, k) is Err,
    ensures
        bytes_json(elems, n) == bytes_json(elems, k),
    decreases n - k,
{
    if k < n {
        lemma_bytes_json_err_stays(elems, k, (n - 1) as nat);
    }
}

fn bytes_default(elems: &Vec<ParamExpr>) -> (r: Result<String, String>)
    ensures
        r matches Ok(v) ==> bytes_json(elems@, elems@.len()) matches Ok(body) && v@ == seq!['[']
            + body + seq![']'],
        r matches Err(e) ==> bytes_json(elems@, elems@.len()) == Err::<Seq<char>, Seq<char>>(e@),
{
    let mut out = String::new();
    push_char(&mut out, '[');
    let n = elems.len();
    let mut i: usize = 0;
    while i < n
        invariant
            n == elems@.len(),
            i <= n,
            bytes_json(elems@, i as nat) matches Ok(body) && out@ == seq!['['] + body,
        decreases n - i,
    {
        let ghost prev = out@;
        match &elems[i] {
            ParamExpr::Lit(ParamLit::Int(digits)) => match parse_byte(digits.as_str()) {
                Ok(b) => {
                    if i > 0 {
                        push_char(&mut out, ',');
                    }
                    let d = u64_to_decimal(b as u64);
                    push_str(&mut out, d.as_str());
                    proof {
                        let body = bytes_json(elems@, i as nat)->Ok_0;
                        assert(out@ =~= seq!['['] + (body + (if i > 0 {
                            seq![',']
                        } else {
                            Seq::<char>::empty()
                        }) + decimal(b as nat)));
                    }
                },
                Err(e) => {
                    proof { lemma_bytes_json_err_stays(elems@, (i + 1) as nat, n as nat); }
                    return Err(e);
                },
            },
            _ => {
                proof { lemma_bytes_json_err_stays(elems@, (i + 1) as nat, n as nat); }
                return Err(String::from_str("bytes parameter requires byte literals"));
            },
        }
        i = i + 1;
    }
    push_char(&mut out, ']');
    Ok(out)
}

/// The JSON value of a parameter's default, checked against its shape
/// type: integer literals for `u64`, `i64` and `u128` (their digits),
/// `true` or `false` for `bool`, a string literal for `string` (as a JSON
/// string) and an array of byte literals for `bytes`.
pub fn expr_to_json_value(expr: &ParamExpr, shape_type: &str) -> (r: Result<String, String>)
    ensures
        r matches Ok(v) ==> default_json(*expr, shape_type@) == Ok::<Seq<char>, Seq<char>>(v@),
        r matches Err(e) ==> default_json(*expr, shape_type@) == Err::<Seq<char>, Seq<char>>(e@),
{
    if str_eq(shape_type, "u64") || str_eq(shape_type, "i64") || str_eq(shape_type, "u128") {
        match expr {
            ParamExpr::Lit(ParamLit::Int(digits)) => Ok(digits.clone()),
            ParamExpr::Lit(_) => Err(String::from_str("numeric parameter requires an integer literal")),
            _ => Err(invalid_default(shape_type)),
        }
    } else if str_eq(shape_type, "bool") {
        match expr {
            ParamExpr::Lit(ParamLit::Bool(b)) => if *b {
                Ok(String::from_str("true"))
            } else {
                Ok(String::from_str("false"))
            },
            ParamExpr::Lit(_) => Err(String::from_str("bool parameter requires true or false")),
            _ => Err(invalid_default(shape_type)),
        }
    } else if str_eq(shape_type, "string") {
        match expr {
            ParamExpr::Lit(ParamLit::Str(v)) => {
                let mut out = String::new();
                push_json_string(&mut out, v.as_str());
                assert(out@ =~= json_str(v@));
                Ok(out)
            },
            ParamExpr::Lit(_) => Err(String::from_str("string parameter requires a string literal")),
            _ => Err(invalid_default(shape_type)),
        }
    } else if str_eq(shape_type, "bytes") {
        match expr {
            ParamExpr::Array(elems) => bytes_default(elems),
            _ => Err(invalid_default(shape_type)),
        }
    } else {
        Err(invalid_default(shape_type))
    }
}

/// The kind of accessor generated for a shape parameter.
#[derive(Clone, Copy, PartialEq, Eq, Debug, Structural)]
pub enum AccessorKind {
    U64,
    I64,
    Bool,
    Str,
    Bytes,
    U128,
}

/// The accessor kind of a shape type, if it has one.
pub open spec fn accessor_kind_of(t: Seq<char>) -> Option<AccessorKind> {
    if t == "u64"@ {
        Some(AccessorKind::U64)
    } else if t == "i64"@ {
        Some(AccessorKind::I64)
    } else if t == "bool"@ {
        Some(AccessorKind::Bool)
    } else if t == "string"@ {
        Some(AccessorKind::Str)
    } else if t == "bytes"@ {
        Some(AccessorKind::Bytes)
    } else if t == "u128"@ {
        Some(AccessorKind::U128)
    } else {
        None
    }
}

/// Parameter `i` is the first with its name.
pub open spec fn first_of_name(ps: Seq<ShapeParam>, i: int) -> bool {
    forall|j: int| 0 <= j < i ==> (#[trigger] ps[j]).name@ != ps[i].name@
}

/// The accessors of the first `k` parameters: one per name, at its first
/// occurrence, in order; or the first parameter whose type has no accessor.
pub open spec fn accessor_plan(ps: Seq<ShapeParam>, k: nat) -> Result<
    Seq<(Seq<char>, AccessorKind)>,
    Seq<char>,
>
    decreases k,
{
    if k == 0 {
        Ok(Seq::empty())
    } else {
        match accessor_plan(ps, (k - 1) as nat) {
            Err(e) => Err(e),
            Ok(plan) => if !first_of_name(ps, k - 1) {
                Ok(plan)
            } else {
                match accessor_kind_of(ps[k - 1].shape_type@) {
                    Some(kind) => Ok(plan.push((ps[k - 1].name@, kind))),
                    None => Err(
                        "unsupported accessor parameter type: "@ + ps[k - 1].shape_type@,
                    ),
                }
            },
        }
    }
}

proof fn lemma_accessor_plan_err_stays(ps: Seq<ShapeParam>, k: nat, n: nat)
    requires
        k <= n,
        accessor_plan(ps, k) is Err,
    ensures
        accessor_plan(ps, n) == accessor_plan(ps, k),
    decreases n - k,
{
    if k < n {
        lemma_accessor_plan_err_stays(ps, k, (n - 1) as nat);
    }
}

/// The accessors to generate for the parameters of a shape: one per
/// parameter name, at its first occurrence, with the kind its shape type
/// calls for; fails on the first type that has no accessor.
pub fn shape_accessors(params: &[ShapeParam]) -> (r: Result<Vec<(String, AccessorKind)>, String>)
    ensures
        r matches Ok(v) ==> accessor_plan(params@, params@.len()) matches Ok(plan) && v@.len()
            == plan.len() && forall|i: int|
            0 <= i < plan.len() ==> (#[trigger] v@[i]).0@ == plan[i].0 && v@[i].1 == plan[i].1,
        r matches Err(e) ==> accessor_plan(params@, params@.len()) == Err::<
            Seq<(Seq<char>, AccessorKind)>,
            Seq<char>,
        >(e@),
{
    let n = params.len();
    let mut out: Vec<(String, AccessorKind)> = Vec::new();
    let mut i: usize = 0;
    while i < n
        invariant
            n == params@.len(),
            i <= n,
            accessor_plan(params@, i as nat) matches Ok(plan) && out@.len() == plan.len()
                && forall|m: int|
                0 <= m < plan.len() ==> (#[trigger] out@[m]).0@ == plan[m].0 && out@[m].1
                    == plan[m].1,
        decreases n - i,
    {
        let mut seen = false;
        let mut j: usize = 0;
        while j < i
            invariant
                i < n,
                n == params@.len(),
                j <= i,
                seen == !forall|m: int| 0 <= m < j ==> (#[trigger] params@[m]).name@ != params@[i as int].name@,
            decreases i - j,
        {
            if str_eq(params[j].name.as_str(), params[i].name.as_str()) {
                seen = true;
            }
            j = j + 1;
        }
        if !seen {
            let t = params[i].shape_type.as_str();
            let kind = if str_eq(t, "u64") {
                AccessorKind::U64
            } else if str_eq(t, "i64") {
                AccessorKind::I64
            } else if str_eq(t, "bool") {
                AccessorKind::Bool
            } else if str_eq(t, "string") {
                AccessorKind::Str
            } else if str_eq(t, "bytes") {
                AccessorKind::Bytes
            } else if str_eq(t, "u128") {
                AccessorKind::U128
            } else {
                let mut e = String::new();
                push_str(&mut e, "unsupported accessor parameter type: ");
                push_str(&mut e, t);
                proof {
                    assert(e@ =~= "unsupported accessor parameter type: "@ + params@[i as int].shape_type@);
                    lemma_accessor_plan_err_stays(params@, (i + 1) as nat, n as nat);
                }
                return Err(e);
            };
            out.push((params[i].name.clone(), kind));
        }
        i = i + 1;
    }
    Ok(out)
}

} // verus!
