//! Validation of shape metadata: names, colors, shape sets and evolution
//! rules, with the error messages the contract macros report.
use vstd::prelude::*;
use vstd::string::{StrSliceExecFns, StringSliceAdditionalSpecFns};
use vstd::utf8::encode_utf8;
use crate::shape_json::{ParsedRule, ParsedShape, ShapeParam};
use crate::text::{decimal, push_char, push_str, str_eq, u64_to_decimal};
use crate::type_names::{trimmed, trim};

verus! {

/// A character that may begin a name: `_` or a lowercase ASCII letter.
pub open spec fn is_name_start(c: char) -> bool {
    c == '_' || ('a' <= c && c <= 'z')
}

/// A character that may continue a name: `_`, a lowercase ASCII letter or
/// an ASCII digit.
pub open spec fn is_name_char(c: char) -> bool {
    c == '_' || ('a' <= c && c <= 'z') || ('0' <= c && c <= '9')
}

/// What is wrong with a name of the given kind, if anything: it must be
/// non-empty, at most `max_len` bytes long and match `[a-z_][a-z0-9_]*`.
pub open spec fn name_error(name: Seq<char>, kind: Seq<char>, max_len: nat) -> Option<Seq<char>> {
    if name.len() == 0 {
        Some(kind + " name is empty"@)
    } else if encode_utf8(name).len() > max_len {
        Some(kind + " name "@ + name + " exceeds "@ + decimal(max_len) + " characters"@)
    } else if !is_name_start(name[0]) || exists|i: int|
        1 <= i < name.len() && !is_name_char(#[trigger] name[i]) {
        Some("invalid "@ + kind + " name "@ + name + ": must match [a-z_][a-z0-9_]*"@)
    } else {
        None
    }
}

/// Checks a shape, parameter or rule name.
pub fn validate_name(name: &str, kind: &str, max_len: usize) -> (r: Result<(), String>)
    ensures
        r is Ok <==> name_error(name@, kind@, max_len as nat) is None,
        r matches Err(e) ==> name_error(name@, kind@, max_len as nat) == Some(e@),
{
    let n = name.unicode_len();
    if n == 0 {
        let mut e = String::new();
        push_str(&mut e, kind);
        push_str(&mut e, " name is empty");
        assert(e@ =~= kind@ + " name is empty"@);
        return Err(e);
    }
    if name.as_bytes().len() > max_len {
        let mut e = String::new();
        push_str(&mut e, kind);
        push_str(&mut e, " name ");
        push_str(&mut e, name);
        push_str(&mut e, " exceeds ");
        let d = u64_to_decimal(max_len as u64);
        push_str(&mut e, d.as_str());
        push_str(&mut e, " characters");
        assert(e@ =~= kind@ + " name "@ + name@ + " exceeds "@ + decimal(max_len as nat)
            + " characters"@);
        return Err(e);
    }
    let first = name.get_char(0);
    let mut bad = !(first == '_' || ('a' <= first && first <= 'z'));
    let mut i: usize = 1;
    while !bad && i < n
        invariant
            n == name@.len(),
            n > 0,
            encode_utf8(name@).len() <= max_len,
            1 <= i <= n,
            !bad ==> is_name_start(name@[0]),
            !bad ==> forall|k: int| 1 <= k < i ==> is_name_char(#[trigger] name@[k]),
            bad ==> (!is_name_start(name@[0]) || exists|k: int|
                1 <= k < n && !is_name_char(#[trigger] name@[k])),
        decreases n - i,
    {
        let c = name.get_char(i);
        if !(c == '_' || ('a' <= c && c <= 'z') || ('0' <= c && c <= '9')) {
            assert(!is_name_char(name@[i as int]));
            bad = true;
        }
        i = i + 1;
    }
    if bad {
        let mut e = String::new();
        push_str(&mut e, "invalid ");
        push_str(&mut e, kind);
        push_str(&mut e, " name ");
        push_str(&mut e, name);
        push_str(&mut e, ": must match [a-z_][a-z0-9_]*");
        assert(e@ =~= "invalid "@ + kind@ + " name "@ + name@ + ": must match [a-z_][a-z0-9_]*"@);
        return Err(e);
    }
    Ok(())
}

/// The shape colors a shape may declare (the empty text included).
pub open spec fn is_shape_color(c: Seq<char>) -> bool {
    c == ""@ || c == "green"@ || c == "blue"@ || c == "yellow"@ || c == "orange"@ || c == "red"@
        || c == "purple"@ || c == "gray"@
}

/// The accepted shape colors are exactly the empty text, green, blue,
/// yellow, orange, red, purple and gray; anything else is refused.
pub proof fn lemma_shape_colors(c: Seq<char>)
    ensures
        is_shape_color(""@),
        is_shape_color("green"@),
        is_shape_color("blue"@),
        is_shape_color("yellow"@),
        is_shape_color("orange"@),
        is_shape_color("red"@),
        is_shape_color("purple"@),
        is_shape_color("gray"@),
        c != ""@ && c != "green"@ && c != "blue"@ && c != "yellow"@ && c != "orange"@ && c != "red"@
            && c != "purple"@ && c != "gray"@ ==> !is_shape_color(c),
{
}

/// Checks a shape color.
pub fn validate_color(color: &str) -> (r: Result<(), String>)
    ensures
        r is Ok <==> is_shape_color(color@),
        r matches Err(e) ==> e@ == "invalid shape color: "@ + color@,
{
    if str_eq(color, "") || str_eq(color, "green") || str_eq(color, "blue") || str_eq(
        color,
        "yellow",
    ) || str_eq(color, "orange") || str_eq(color, "red") || str_eq(color, "purple") || str_eq(
        color,
        "gray",
    ) {
        Ok(())
    } else {
        let mut e = String::new();
        push_str(&mut e, "invalid shape color: ");
        push_str(&mut e, color);
        Err(e)
    }
}

/// How `to_snake_case` writes the character at position `i`.
pub open spec fn snake_char(c: char, i: int) -> Seq<char> {
    if 'A' <= c && c <= 'Z' {
        (if i > 0 {
            seq!['_']
        } else {
            Seq::empty()
        }).push(((c as u32) + 32) as char)
    } else {
        seq![c]
    }
}

/// The snake-case form of the first `k` characters of `s`.
pub open spec fn snake_case(s: Seq<char>, k: nat) -> Seq<char>
    decreases k,
{
    if k == 0 {
        Seq::empty()
    } else {
        snake_case(s, (k - 1) as nat) + snake_char(s[k - 1], k - 1)
    }
}

/// Converts `CamelCase` to `snake_case`: each uppercase ASCII letter becomes
/// its lowercase form, preceded by `_` unless it comes first.
pub fn to_snake_case(input: &str) -> (r: String)
    ensures
        r@ == snake_case(input@, input@.len()),
{
    let n = input.unicode_len();
    let mut out = String::new();
    let mut i: usize = 0;
    while i < n
        invariant
            n == input@.len(),
            i <= n,
            out@ == snake_case(input@, i as nat),
        decreases n - i,
    {
        let ch = input.get_char(i);
        if 'A' <= ch && ch <= 'Z' {
            if i > 0 {
                push_char(&mut out, '_');
            }
            let lower = ((ch as u32) + 32) as u8 as char;
            push_char(&mut out, lower);
        } else {
            push_char(&mut out, ch);
        }
        assert(out@ =~= snake_case(input@, (i + 1) as nat));
        i = i + 1;
    }
    out
}

/// The error for a parameter of shape `s` whose name repeats an earlier one,
/// looking at its first `k` parameters.
pub open spec fn param_dup_error(s: ParsedShape, k: nat) -> Option<Seq<char>>
    decreases k,
{
    if k == 0 {
        None
    } else {
        match param_dup_error(s, (k - 1) as nat) {
            Some(e) => Some(e),
            None => if exists|j: int|
                0 <= j < k - 1 && (#[trigger] s.params@[j]).name@ == s.params@[k - 1].name@ {
                Some(
                    "duplicate parameter name in shape "@ + s.name@ + ": "@ + s.params@[k
                        - 1].name@,
                )
            } else {
                None
            },
        }
    }
}

/// The error for shape `i`: its name repeats an earlier shape's, or one of
/// its parameter names repeats.
pub open spec fn shape_dup_error(shapes: Seq<ParsedShape>, i: int) -> Option<Seq<char>> {
    if exists|j: int| 0 <= j < i && (#[trigger] shapes[j]).name@ == shapes[i].name@ {
        Some("duplicate shape name: "@ + shapes[i].name@)
    } else {
        param_dup_error(shapes[i], shapes[i].params@.len())
    }
}

/// The first duplicate-name error among the first `k` shapes.
pub open spec fn dup_scan(shapes: Seq<ParsedShape>, k: nat) -> Option<Seq<char>>
    decreases k,
{
    if k == 0 {
        None
    } else {
        match dup_scan(shapes, (k - 1) as nat) {
            Some(e) => Some(e),
            None => shape_dup_error(shapes, k - 1),
        }
    }
}

/// The first parameter of `s` among its first `k` whose name or type differs
/// from the reference parameter at the same place.
pub open spec fn param_schema_error(reference: Seq<ShapeParam>, s: ParsedShape, k: nat) -> Option<
    Seq<char>,
>
    decreases k,
{
    if k == 0 {
        None
    } else {
        match param_schema_error(reference, s, (k - 1) as nat) {
            Some(e) => Some(e),
            None => {
                let a = s.params@[k - 1];
                let x = reference[k - 1];
                if a.name@ != x.name@ || a.shape_type@ != x.shape_type@ {
                    Some(
                        "shape "@ + s.name@ + " parameter schema mismatch: expected "@ + x.name@
                            + ":"@ + x.shape_type@ + ", got "@ + a.name@ + ":"@ + a.shape_type@,
                    )
                } else {
                    None
                }
            },
        }
    }
}

/// The error for a shape whose parameters do not follow the reference schema.
pub open spec fn shape_schema_error(reference: Seq<ShapeParam>, s: ParsedShape) -> Option<
    Seq<char>,
> {
    if s.params@.len() != reference.len() {
        Some("shape "@ + s.name@ + " does not match the parameter schema"@)
    } else {
        param_schema_error(reference, s, reference.len())
    }
}

/// The first schema error among shapes `1..k`, against the first shape.
pub open spec fn schema_scan(shapes: Seq<ParsedShape>, k: nat) -> Option<Seq<char>>
    decreases k,
{
    if k <= 1 {
        None
    } else {
        match schema_scan(shapes, (k - 1) as nat) {
            Some(e) => Some(e),
            None => shape_schema_error(shapes[0].params@, shapes[k - 1]),
        }
    }
}

/// What is wrong with a shape set, if anything, in the order it is checked:
/// the default shape's name, repeated shape or parameter names, an
/// undeclared default shape, and shapes that do not follow the first
/// shape's parameter schema.
pub open spec fn shape_set_error(shapes: Seq<ParsedShape>, default_shape: Seq<char>) -> Option<
    Seq<char>,
> {
    match name_error(default_shape, "default shape"@, 32) {
        Some(e) => Some(e),
        None => match dup_scan(shapes, shapes.len()) {
            Some(e) => Some(e),
            None => if !exists|i: int| 0 <= i < shapes.len() && (#[trigger] shapes[i]).name@ == default_shape {
                Some("default shape "@ + default_shape + " is not declared"@)
            } else {
                schema_scan(shapes, shapes.len())
            },
        },
    }
}

fn param_dup_check(s: &ParsedShape) -> (r: Result<(), String>)
    ensures
        r is Ok <==> param_dup_error(*s, s.params@.len()) is None,
        r matches Err(e) ==> param_dup_error(*s, s.params@.len()) == Some(e@),
{
    let n = s.params.len();
    let mut k: usize = 0;
    while k < n
        invariant
            n == s.params@.len(),
            k <= n,
            param_dup_error(*s, k as nat) is None,
        decreases n - k,
    {
        let mut j: usize = 0;
        while j < k
            invariant
                k < n,
                n == s.params@.len(),
                j <= k,
                param_dup_error(*s, k as nat) is None,
                forall|m: int| 0 <= m < j ==> (#[trigger] s.params@[m]).name@ != s.params@[k as int].name@,
            decreases k - j,
        {
            if str_eq(s.params[j].name.as_str(), s.params[k].name.as_str()) {
                let mut e = String::new();
                push_str(&mut e, "duplicate parameter name in shape ");
                push_str(&mut e, s.name.as_str());
                push_str(&mut e, ": ");
                push_str(&mut e, s.params[k].name.as_str());
                assert(e@ =~= "duplicate parameter name in shape "@ + s.name@ + ": "@
                    + s.params@[k as int].name@);
                assert(s.params@[j as int].name@ == s.params@[k as int].name@);
                assert(param_dup_error(*s, (k + 1) as nat) == Some(e@));
                proof { lemma_param_dup_error_stays(*s, (k + 1) as nat, n as nat); }
                return Err(e);
            }
            j = j + 1;
        }
        k = k + 1;
    }
    Ok(())
}

proof fn lemma_param_dup_error_stays(s: ParsedShape, k: nat, n: nat)
    requires
        k <= n,
        param_dup_error(s, k) is Some,
    ensures
        param_dup_error(s, n) == param_dup_error(s, k),
    decreases n - k,
{
    if k < n {
        lemma_param_dup_error_stays(s, k, (n - 1) as nat);
    }
}

proof fn lemma_dup_scan_stays(shapes: Seq<ParsedShape>, k: nat, n: nat)
    requires
        k <= n,
        dup_scan(shapes, k) is Some,
    ensures
        dup_scan(shapes, n) == dup_scan(shapes, k),
    decreases n - k,
{
    if k < n {
        lemma_dup_scan_stays(shapes, k, (n - 1) as nat);
    }
}

proof fn lemma_param_schema_error_stays(reference: Seq<ShapeParam>, s: ParsedShape, k: nat, n: nat)
    requires
        k <= n,
        param_schema_error(reference, s, k) is Some,
    ensures
        param_schema_error(reference, s, n) == param_schema_error(reference, s, k),
    decreases n - k,
{
    if k < n {
        lemma_param_schema_error_stays(reference, s, k, (n - 1) as nat);
    }
}

proof fn lemma_schema_scan_stays(shapes: Seq<ParsedShape>, k: nat, n: nat)
    requires
        k <= n,
        schema_scan(shapes, k) is Some,
    ensures
        schema_scan(shapes, n) == schema_scan(shapes, k),
    decreases n - k,
{
    if k < n {
        lemma_schema_scan_stays(shapes, k, (n - 1) as nat);
    }
}

fn shape_schema_check(reference: &Vec<ShapeParam>, s: &ParsedShape) -> (r: Result<(), String>)
    ensures
        r is Ok <==> shape_schema_error(reference@, *s) is None,
        r matches Err(e) ==> shape_schema_error(reference@, *s) == Some(e@),
{
    if s.params.len() != reference.len() {
        let mut e = String::new();
        push_str(&mut e, "shape ");
        push_str(&mut e, s.name.as_str());
        push_str(&mut e, " does not match the parameter schema");
        assert(e@ =~= "shape "@ + s.name@ + " does not match the parameter schema"@);
        return Err(e);
    }
    let n = reference.len();
    let mut k: usize = 0;
    while k < n
        invariant
            n == reference@.len(),
            n == s.params@.len(),
            k <= n,
            param_schema_error(reference@, *s, k as nat) is None,
        decreases n - k,
    {
        let a = &s.params[k];
        let x = &reference[k];
        if !str_eq(a.name.as_str(), x.name.as_str()) || !str_eq(
            a.shape_type.as_str(),
            x.shape_type.as_str(),
        ) {
            let mut e = String::new();
            push_str(&mut e, "shape ");
            push_str(&mut e, s.name.as_str());
            push_str(&mut e, " parameter schema mismatch: expected ");
            push_str(&mut e, x.name.as_str());
            push_str(&mut e, ":");
            push_str(&mut e, x.shape_type.as_str());
            push_str(&mut e, ", got ");
            push_str(&mut e, a.name.as_str());
            push_str(&mut e, ":");
            push_str(&mut e, a.shape_type.as_str());
            assert(e@ =~= "shape "@ + s.name@ + " parameter schema mismatch: expected "@
                + x.name@ + ":"@ + x.shape_type@ + ", got "@ + a.name@ + ":"@ + a.shape_type@);
            assert(param_schema_error(reference@, *s, (k + 1) as nat) == Some(e@));
            proof { lemma_param_schema_error_stays(reference@, *s, (k + 1) as nat, n as nat); }
            return Err(e);
        }
        k = k + 1;
    }
    Ok(())
}

/// Checks a shape set: the default shape's name, that shape names and the
/// parameter names of each shape are unique, that the default shape is
/// declared, and that every shape has the first shape's parameter names and
/// types in the same order.
pub fn validate_shape_set(shapes: &[ParsedShape], default_shape: &str) -> (r: Result<(), String>)
    ensures
        r is Ok <==> shape_set_error(shapes@, default_shape@) is None,
        r matches Err(e) ==> shape_set_error(shapes@, default_shape@) == Some(e@),
{
    match validate_name(default_shape, "default shape", 32) {
        Ok(()) => {},
        Err(e) => {
            return Err(e);
        },
    }
    let n = shapes.len();
    let mut i: usize = 0;
    while i < n
        invariant
            n == shapes@.len(),
            i <= n,
            name_error(default_shape@, "default shape"@, 32) is None,
            dup_scan(shapes@, i as nat) is None,
        decreases n - i,
    {
        let mut j: usize = 0;
        while j < i
            invariant
                i < n,
                n == shapes@.len(),
                j <= i,
                name_error(default_shape@, "default shape"@, 32) is None,
                dup_scan(shapes@, i as nat) is None,
                forall|m: int| 0 <= m < j ==> (#[trigger] shapes@[m]).name@ != shapes@[i as int].name@,
            decreases i - j,
        {
            if str_eq(shapes[j].name.as_str(), shapes[i].name.as_str()) {
                let mut e = String::new();
                push_str(&mut e, "duplicate shape name: ");
                push_str(&mut e, shapes[i].name.as_str());
                assert(e@ =~= "duplicate shape name: "@ + shapes@[i as int].name@);
                assert(shapes@[j as int].name@ == shapes@[i as int].name@);
                assert(dup_scan(shapes@, (i + 1) as nat) == Some(e@));
                proof { lemma_dup_scan_stays(shapes@, (i + 1) as nat, n as nat); }
                return Err(e);
            }
            j = j + 1;
        }
        match param_dup_check(&shapes[i]) {
            Ok(()) => {},
            Err(e) => {
                assert(dup_scan(shapes@, (i + 1) as nat) == Some(e@));
                proof { lemma_dup_scan_stays(shapes@, (i + 1) as nat, n as nat); }
                return Err(e);
            },
        }
        i = i + 1;
    }
    let mut found = false;
    let mut d: usize = 0;
    while d < n
        invariant
            n == shapes@.len(),
            name_error(default_shape@, "default shape"@, 32) is None,
            dup_scan(shapes@, n as nat) is None,
            d <= n,
            found == exists|m: int| 0 <= m < d && (#[trigger] shapes@[m]).name@ == default_shape@,
        decreases n - d,
    {
        if str_eq(shapes[d].name.as_str(), default_shape) {
            found = true;
        }
        d = d + 1;
    }
    if !found {
        let mut e = String::new();
        push_str(&mut e, "default shape ");
        push_str(&mut e, default_shape);
        push_str(&mut e, " is not declared");
        assert(e@ =~= "default shape "@ + default_shape@ + " is not declared"@);
        return Err(e);
    }
    let reference = &shapes[0].params;
    let mut k: usize = 1;
    while k < n
        invariant
            n == shapes@.len(),
            n >= 1,
            1 <= k <= n,
            *reference == shapes@[0].params,
            schema_scan(shapes@, k as nat) is None,
            name_error(default_shape@, "default shape"@, 32) is None,
            dup_scan(shapes@, n as nat) is None,
            exists|m: int| 0 <= m < n && (#[trigger] shapes@[m]).name@ == default_shape@,
        decreases n - k,
    {
        match shape_schema_check(reference, &shapes[k]) {
            Ok(()) => {},
            Err(e) => {
                assert(schema_scan(shapes@, (k + 1) as nat) == Some(e@));
                proof { lemma_schema_scan_stays(shapes@, (k + 1) as nat, n as nat); }
                return Err(e);
            },
        }
        k = k + 1;
    }
    Ok(())
}

/// The first error among rules `0..k`: a repeated rule name, or a target
/// or source shape name that is not valid.
pub open spec fn rule_error_at(rules: Seq<ParsedRule>, i: int) -> Option<Seq<char>> {
    if exists|j: int| 0 <= j < i && (#[trigger] rules[j]).name@ == rules[i].name@ {
        Some("duplicate evolution rule name: "@ + rules[i].name@)
    } else {
        match name_error(rules[i].target_shape@, "target shape"@, 32) {
            Some(e) => Some(e),
            None => sources_error(rules[i].source_shapes@, rules[i].source_shapes@.len()),
        }
    }
}

/// The first invalid source shape name among the first `k`.
pub open spec fn sources_error(sources: Seq<String>, k: nat) -> Option<Seq<char>>
    decreases k,
{
    if k == 0 {
        None
    } else {
        match sources_error(sources, (k - 1) as nat) {
            Some(e) => Some(e),
            None => name_error(sources[k - 1]@, "source shape"@, 32),
        }
    }
}

/// The first error among the first `k` rules.
pub open spec fn rules_scan(rules: Seq<ParsedRule>, k: nat) -> Option<Seq<char>>
    decreases k,
{
    if k == 0 {
        None
    } else {
        match rules_scan(rules, (k - 1) as nat) {
            Some(e) => Some(e),
            None => rule_error_at(rules, k - 1),
        }
    }
}

proof fn lemma_sources_error_stays(sources: Seq<String>, k: nat, n: nat)
    requires
        k <= n,
        sources_error(sources, k) is Some,
    ensures
        sources_error(sources, n) == sources_error(sources, k),
    decreases n - k,
{
    if k < n {
        lemma_sources_error_stays(sources, k, (n - 1) as nat);
    }
}

proof fn lemma_rules_scan_stays(rules: Seq<ParsedRule>, k: nat, n: nat)
    requires
        k <= n,
        rules_scan(rules, k) is Some,
    ensures
        rules_scan(rules, n) == rules_scan(rules, k),
    decreases n - k,
{
    if k < n {
        lemma_rules_scan_stays(rules, k, (n - 1) as nat);
    }
}

fn validate_sources(sources: &Vec<String>) -> (r: Result<(), String>)
    ensures
        r is Ok <==> sources_error(sources@, sources@.len()) is None,
        r matches Err(e) ==> sources_error(sources@, sources@.len()) == Some(e@),
{
    let n = sources.len();
    let mut k: usize = 0;
    while k < n
        invariant
            n == sources@.len(),
            k <= n,
            sources_error(sources@, k as nat) is None,
        decreases n - k,
    {
        match validate_name(sources[k].as_str(), "source shape", 32) {
            Ok(()) => {},
            Err(e) => {
                proof { lemma_sources_error_stays(sources@, (k + 1) as nat, n as nat); }
                return Err(e);
            },
        }
        k = k + 1;
    }
    Ok(())
}

/// Checks evolution rules: unique names, and valid target and source shape
/// names.
pub fn validate_rules(rules: &[ParsedRule]) -> (r: Result<(), String>)
    ensures
        r is Ok <==> rules_scan(rules@, rules@.len()) is None,
        r matches Err(e) ==> rules_scan(rules@, rules@.len()) == Some(e@),
{
    let n = rules.len();
    let mut i: usize = 0;
    while i < n
        invariant
            n == rules@.len(),
            i <= n,
            rules_scan(rules@, i as nat) is None,
        decreases n - i,
    {
        let mut j: usize = 0;
        while j < i
            invariant
                i < n,
                n == rules@.len(),
                j <= i,
                rules_scan(rules@, i as nat) is None,
                forall|m: int| 0 <= m < j ==> (#[trigger] rules@[m]).name@ != rules@[i as int].name@,
            decreases i - j,
        {
            if str_eq(rules[j].name.as_str(), rules[i].name.as_str()) {
                let mut e = String::new();
                push_str(&mut e, "duplicate evolution rule name: ");
                push_str(&mut e, rules[i].name.as_str());
                assert(e@ =~= "duplicate evolution rule name: "@ + rules@[i as int].name@);
                assert(rules@[j as int].name@ == rules@[i as int].name@);
                assert(rules_scan(rules@, (i + 1) as nat) == Some(e@));
                proof { lemma_rules_scan_stays(rules@, (i + 1) as nat, n as nat); }
                return Err(e);
            }
            j = j + 1;
        }
        match validate_name(rules[i].target_shape.as_str(), "target shape", 32) {
            Ok(()) => {},
            Err(e) => {
                assert(rules_scan(rules@, (i + 1) as nat) == Some(e@));
                proof { lemma_rules_scan_stays(rules@, (i + 1) as nat, n as nat); }
                return Err(e);
            },
        }
        match validate_sources(&rules[i].source_shapes) {
            Ok(()) => {},
            Err(e) => {
                assert(rules_scan(rules@, (i + 1) as nat) == Some(e@));
                proof { lemma_rules_scan_stays(rules@, (i + 1) as nat, n as nat); }
                return Err(e);
            },
        }
        i = i + 1;
    }
    Ok(())
}

/// The settings of a `#[rule(...)]` attribute, as written.
#[derive(Debug)]
pub struct RuleAttr {
    pub name: Option<String>,
    pub description: Option<String>,
    pub condition: Option<String>,
    pub target_shape: Option<String>,
    pub source_shapes: Vec<String>,
    pub priority: Option<u8>,
    pub duration_blocks: Option<u64>,
    pub enabled: Option<bool>,
}

impl Default for RuleAttr {
    fn default() -> (r: Self)
        ensures
            r.name is None,
            r.description is None,
            r.condition is None,
            r.target_shape is None,
            r.source_shapes@.len() == 0,
            r.priority is None,
            r.duration_blocks is None,
            r.enabled is None,
    {
        RuleAttr {
            name: None,
            description: None,
            condition: None,
            target_shape: None,
            source_shapes: Vec::new(),
            priority: None,
            duration_blocks: None,
            enabled: None,
        }
    }
}

/// The name a rule gets: the one it declares, else its function's name in
/// snake case.
pub open spec fn rule_name(fn_name: Seq<char>, attr: RuleAttr) -> Seq<char> {
    match attr.name {
        Some(n) => n@,
        None => snake_case(fn_name, fn_name.len()),
    }
}

/// What is wrong with a rule attribute, if anything, in the order it is
/// checked.
pub open spec fn rule_attr_error(fn_name: Seq<char>, attr: RuleAttr) -> Option<Seq<char>> {
    match name_error(rule_name(fn_name, attr), "rule"@, 64) {
        Some(e) => Some(e),
        None => match attr.target_shape {
            None => Some("#[rule] requires target = \"shape_name\""@),
            Some(t) => match name_error(t@, "target shape"@, 32) {
                Some(e) => Some(e),
                None => match attr.condition {
                    None => Some("#[rule] requires condition = \"...\""@),
                    Some(c) => if trimmed(c@).len() == 0 {
                        Some("#[rule] condition cannot be empty"@)
                    } else {
                        sources_error(attr.source_shapes@, attr.source_shapes@.len())
                    },
                },
            },
        },
    }
}

/// Builds a rule from its attribute and the name of the function it marks:
/// the name defaults to the function's name in snake case, the priority to
/// 100 and `enabled` to true; a target and a non-blank condition are
/// required, and all shape names must be valid.
pub fn rule_from_attr(fn_name: &str, attr: RuleAttr) -> (r: Result<ParsedRule, String>)
    ensures
        r is Ok <==> rule_attr_error(fn_name@, attr) is None,
        r matches Err(e) ==> rule_attr_error(fn_name@, attr) == Some(e@),
        r matches Ok(rule) ==> {
            &&& rule.name@ == rule_name(fn_name@, attr)
            &&& rule.description == attr.description
            &&& Some(rule.condition) == attr.condition
            &&& Some(rule.target_shape) == attr.target_shape
            &&& rule.source_shapes == attr.source_shapes
            &&& rule.priority == (match attr.priority {
                Some(p) => p,
                None => 100u8,
            })
            &&& rule.duration_blocks == attr.duration_blocks
            &&& rule.enabled == (match attr.enabled {
                Some(b) => b,
                None => true,
            })
        },
{
    let ghost orig = attr;
    let RuleAttr {
        name,
        description,
        condition,
        target_shape,
        source_shapes,
        priority,
        duration_blocks,
        enabled,
    } = attr;
    let name = match name {
        Some(n) => n,
        None => to_snake_case(fn_name),
    };
    match validate_name(name.as_str(), "rule", 64) {
        Ok(()) => {},
        Err(e) => {
            return Err(e);
        },
    }
    let target_shape = match target_shape {
        Some(t) => t,
        None => {
            return Err(String::from_str("#[rule] requires target = \"shape_name\""));
        },
    };
    match validate_name(target_shape.as_str(), "target shape", 32) {
        Ok(()) => {},
        Err(e) => {
            return Err(e);
        },
    }
    let condition = match condition {
        Some(c) => c,
        None => {
            return Err(String::from_str("#[rule] requires condition = \"...\""));
        },
    };
    let blank = trim(condition.as_str());
    if blank.as_str().unicode_len() == 0 {
        return Err(String::from_str("#[rule] condition cannot be empty"));
    }
    match validate_sources(&source_shapes) {
        Ok(()) => {},
        Err(e) => {
            return Err(e);
        },
    }
    Ok(ParsedRule {
        name,
        description,
        condition,
        target_shape,
        source_shapes,
        priority: match priority {
            Some(p) => p,
            None => 100,
        },
        duration_blocks,
        enabled: match enabled {
            Some(b) => b,
            None => true,
        },
    })
}

} // verus!
