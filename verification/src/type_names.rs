//! Mapping of Rust type text, as written in a contract's source, to the
//! type names of a contract schema.
use vstd::prelude::*;
use vstd::string::StrSliceExecFns;
use crate::text::{push_char, push_str, str_eq};

verus! {

/// Characters Rust treats as white space (`char::is_whitespace`).
pub open spec fn is_space(c: char) -> bool {
    ||| c == '\t'
    ||| c == '\n'
    ||| c == '\u{0B}'
    ||| c == '\u{0C}'
    ||| c == '\r'
    ||| c == ' '
    ||| c == '\u{85}'
    ||| c == '\u{A0}'
    ||| c == '\u{1680}'
    ||| ('\u{2000}' <= c && c <= '\u{200A}')
    ||| c == '\u{2028}'
    ||| c == '\u{2029}'
    ||| c == '\u{202F}'
    ||| c == '\u{205F}'
    ||| c == '\u{3000}'
}

fn is_space_exec(c: char) -> (r: bool)
    ensures
        r == is_space(c),
{
    c == '\t' || c == '\n' || c == '\u{0B}' || c == '\u{0C}' || c == '\r' || c == ' ' || c
        == '\u{85}' || c == '\u{A0}' || c == '\u{1680}' || ('\u{2000}' <= c && c <= '\u{200A}')
        || c == '\u{2028}' || c == '\u{2029}' || c == '\u{202F}' || c == '\u{205F}' || c
        == '\u{3000}'
}

/// `s` without its leading white space.
pub open spec fn trim_start(s: Seq<char>) -> Seq<char>
    decreases s.len(),
{
    if s.len() > 0 && is_space(s[0]) {
        trim_start(s.drop_first())
    } else {
        s
    }
}

/// `s` without its trailing white space.
pub open spec fn trim_end(s: Seq<char>) -> Seq<char>
    decreases s.len(),
{
    if s.len() > 0 && is_space(s.last()) {
        trim_end(s.drop_last())
    } else {
        s
    }
}

/// `s` without leading and trailing white space, as `str::trim` gives it.
pub open spec fn trimmed(s: Seq<char>) -> Seq<char> {
    trim_end(trim_start(s))
}

/// Copies the characters `from..to` of `s` into a new string.
fn chars_between(s: &str, from: usize, to: usize) -> (r: String)
    requires
        from <= to <= s@.len(),
    ensures
        r@ == s@.subrange(from as int, to as int),
{
    let mut out = String::new();
    let mut i: usize = from;
    while i < to
        invariant
            from <= i <= to,
            to <= s@.len(),
            out@ == s@.subrange(from as int, i as int),
        decreases to - i,
    {
        push_char(&mut out, s.get_char(i));
        assert(out@ =~= s@.subrange(from as int, i + 1));
        i = i + 1;
    }
    out
}

proof fn lemma_trim_start_skip(s: Seq<char>, i: int)
    requires
        0 <= i <= s.len(),
        forall|k: int| 0 <= k < i ==> is_space(s[k]),
    ensures
        trim_start(s) == trim_start(s.subrange(i, s.len() as int)),
    decreases i,
{
    if i > 0 {
        assert(s.drop_first().subrange(i - 1, s.drop_first().len() as int) =~= s.subrange(
            i,
            s.len() as int,
        ));
        assert(is_space(s[0]));
        lemma_trim_start_skip(s.drop_first(), i - 1);
    } else {
        assert(s.subrange(0, s.len() as int) =~= s);
    }
}

proof fn lemma_trim_end_skip(s: Seq<char>, j: int)
    requires
        0 <= j <= s.len(),
        forall|k: int| j <= k < s.len() ==> is_space(s[k]),
    ensures
        trim_end(s) == trim_end(s.subrange(0, j)),
    decreases s.len() - j,
{
    if j < s.len() {
        assert(s.drop_last().subrange(0, j) =~= s.subrange(0, j));
        lemma_trim_end_skip(s.drop_last(), j);
    } else {
        assert(s.subrange(0, j) =~= s);
    }
}

/// `s` without leading and trailing white space.
pub fn trim(s: &str) -> (r: String)
    ensures
        r@ == trimmed(s@),
{
    let n = s.unicode_len();
    let mut start: usize = 0;
    while start < n && is_space_exec(s.get_char(start))
        invariant
            n == s@.len(),
            start <= n,
            forall|k: int| 0 <= k < start ==> is_space(s@[k]),
        decreases n - start,
    {
        start = start + 1;
    }
    let mut end: usize = n;
    while end > start && is_space_exec(s.get_char(end - 1))
        invariant
            n == s@.len(),
            start <= end <= n,
            forall|k: int| end <= k < n ==> is_space(s@[k]),
        decreases end,
    {
        end = end - 1;
    }
    proof {
        lemma_trim_start_skip(s@, start as int);
        let rest = s@.subrange(start as int, n as int);
        assert(trim_start(rest) == rest);
        lemma_trim_end_skip(rest, end - start);
        assert(rest.subrange(0, end - start) =~= s@.subrange(start as int, end as int));
        let mid = s@.subrange(start as int, end as int);
        assert(trim_end(mid) == mid);
    }
    chars_between(s, start, end)
}

/// The schema type name for a type written as text in a return type.
pub open spec fn schema_name_of(t: Seq<char>) -> Seq<char> {
    if t == "String"@ || t == "&str"@ {
        "string"@
    } else if t == "U256"@ {
        "u256"@
    } else if t == "Address"@ {
        "address"@
    } else {
        t
    }
}

/// The schema table of type strings: `String` and `&str` are `string`,
/// `U256` is `u256`, `Address` is `address`, and the integer and boolean
/// primitives keep their own names.
pub proof fn lemma_schema_name_table()
    ensures
        schema_name_of("String"@) == "string"@,
        schema_name_of("&str"@) == "string"@,
        schema_name_of("U256"@) == "u256"@,
        schema_name_of("Address"@) == "address"@,
        schema_name_of("i32"@) == "i32"@,
        schema_name_of("i64"@) == "i64"@,
        schema_name_of("u32"@) == "u32"@,
        schema_name_of("u64"@) == "u64"@,
        schema_name_of("bool"@) == "bool"@,
{
    reveal_strlit("String");
    reveal_strlit("&str");
    reveal_strlit("U256");
    reveal_strlit("Address");
    reveal_strlit("string");
    reveal_strlit("u256");
    reveal_strlit("address");
    reveal_strlit("i32");
    reveal_strlit("i64");
    reveal_strlit("u32");
    reveal_strlit("u64");
    reveal_strlit("bool");
    assert("&str"@[0] != "U256"@[0]);
    assert("&str"@[0] != "bool"@[0]);
    assert("U256"@[0] != "bool"@[0]);
    assert("i32"@[1] != "i64"@[1]);
    assert("i32"@[0] != "u32"@[0]);
    assert("i32"@[0] != "u64"@[0]);
    assert("i64"@[0] != "u32"@[0]);
    assert("i64"@[0] != "u64"@[0]);
    assert("u32"@[1] != "u64"@[1]);
    assert("String"@ != "&str"@) by { assert("String"@.len() != "&str"@.len()); }
    assert("String"@ != "U256"@) by { assert("String"@.len() != "U256"@.len()); }
    assert("String"@ != "Address"@) by { assert("String"@.len() != "Address"@.len()); }
    assert("String"@ != "i32"@) by { assert("String"@.len() != "i32"@.len()); }
    assert("String"@ != "i64"@) by { assert("String"@.len() != "i64"@.len()); }
    assert("String"@ != "u32"@) by { assert("String"@.len() != "u32"@.len()); }
    assert("String"@ != "u64"@) by { assert("String"@.len() != "u64"@.len()); }
    assert("String"@ != "bool"@) by { assert("String"@.len() != "bool"@.len()); }
    assert("&str"@ != "Address"@) by { assert("&str"@.len() != "Address"@.len()); }
    assert("&str"@ != "i32"@) by { assert("&str"@.len() != "i32"@.len()); }
    assert("&str"@ != "i64"@) by { assert("&str"@.len() != "i64"@.len()); }
    assert("&str"@ != "u32"@) by { assert("&str"@.len() != "u32"@.len()); }
    assert("&str"@ != "u64"@) by { assert("&str"@.len() != "u64"@.len()); }
    assert("U256"@ != "Address"@) by { assert("U256"@.len() != "Address"@.len()); }
    assert("U256"@ != "i32"@) by { assert("U256"@.len() != "i32"@.len()); }
    assert("U256"@ != "i64"@) by { assert("U256"@.len() != "i64"@.len()); }
    assert("U256"@ != "u32"@) by { assert("U256"@.len() != "u32"@.len()); }
    assert("U256"@ != "u64"@) by { assert("U256"@.len() != "u64"@.len()); }
    assert("Address"@ != "i32"@) by { assert("Address"@.len() != "i32"@.len()); }
    assert("Address"@ != "i64"@) by { assert("Address"@.len() != "i64"@.len()); }
    assert("Address"@ != "u32"@) by { assert("Address"@.len() != "u32"@.len()); }
    assert("Address"@ != "u64"@) by { assert("Address"@.len() != "u64"@.len()); }
    assert("Address"@ != "bool"@) by { assert("Address"@.len() != "bool"@.len()); }
    assert("i32"@ != "bool"@) by { assert("i32"@.len() != "bool"@.len()); }
    assert("i64"@ != "bool"@) by { assert("i64"@.len() != "bool"@.len()); }
    assert("u32"@ != "bool"@) by { assert("u32"@.len() != "bool"@.len()); }
    assert("u64"@ != "bool"@) by { assert("u64"@.len() != "bool"@.len()); }
}

/// Converts a type string (not AST) to a schema type.
pub fn rust_type_to_schema_str(s: &str) -> (r: String)
    ensures
        r@ == schema_name_of(trimmed(s@)),
{
    let t = trim(s);
    let ts = t.as_str();
    if str_eq(ts, "String") || str_eq(ts, "&str") {
        String::from_str("string")
    } else if str_eq(ts, "U256") {
        String::from_str("u256")
    } else if str_eq(ts, "Address") {
        String::from_str("address")
    } else {
        t
    }
}

/// `s` with every space character removed.
pub open spec fn without_spaces(s: Seq<char>) -> Seq<char>
    decreases s.len(),
{
    if s.len() == 0 {
        Seq::empty()
    } else if s.last() == ' ' {
        without_spaces(s.drop_last())
    } else {
        without_spaces(s.drop_last()).push(s.last())
    }
}

/// Removes every space character.
pub fn remove_spaces(s: &str) -> (r: String)
    ensures
        r@ == without_spaces(s@),
{
    let n = s.unicode_len();
    let mut out = String::new();
    let mut i: usize = 0;
    while i < n
        invariant
            n == s@.len(),
            i <= n,
            out@ == without_spaces(s@.take(i as int)),
        decreases n - i,
    {
        assert(s@.take(i + 1).drop_last() =~= s@.take(i as int));
        let c = s.get_char(i);
        if c != ' ' {
            push_char(&mut out, c);
        }
        i = i + 1;
    }
    assert(s@.take(n as int) =~= s@);
    out
}

/// `p` is a prefix of `s`.
pub open spec fn has_prefix(s: Seq<char>, p: Seq<char>) -> bool {
    p.len() <= s.len() && s.take(p.len() as int) == p
}

/// Whether `s` begins with `p`.
pub fn starts_with(s: &str, p: &str) -> (r: bool)
    ensures
        r == has_prefix(s@, p@),
{
    let n = s.unicode_len();
    let m = p.unicode_len();
    if m > n {
        return false;
    }
    let mut i: usize = 0;
    while i < m
        invariant
            n == s@.len(),
            m == p@.len(),
            m <= n,
            i <= m,
            forall|k: int| 0 <= k < i ==> s@[k] == p@[k],
        decreases m - i,
    {
        if s.get_char(i) != p.get_char(i) {
            assert(s@.take(m as int)[i as int] != p@[i as int]);
            return false;
        }
        i = i + 1;
    }
    assert(s@.take(m as int) =~= p@);
    true
}

/// A container type `P<inner>` whose inner type can be cut out: it has at
/// least one character after the prefix `p` and ends in an ASCII character.
pub open spec fn cuttable(s: Seq<char>, p: Seq<char>) -> bool {
    s.len() > p.len() && (s.last() as u32) < 128
}

/// The inner text of `P<inner>`: what lies between the prefix and the last
/// character.
pub open spec fn inner_of(s: Seq<char>, p: Seq<char>) -> Seq<char> {
    s.subrange(p.len() as int, s.len() - 1)
}

/// Whether the schema name of the space-free type text `s` can be computed:
/// an `Option<..>` or `Vec<..>` other than `Vec<u8>` must be cuttable.
pub open spec fn schema_mappable(s: Seq<char>) -> bool {
    if s == "Vec<u8>"@ {
        true
    } else if has_prefix(s, "Option<"@) {
        cuttable(s, "Option<"@)
    } else if has_prefix(s, "Vec<"@) {
        cuttable(s, "Vec<"@)
    } else {
        true
    }
}

/// The schema type name of space-free type text.
pub open spec fn schema_type_of(s: Seq<char>) -> Seq<char> {
    if s == "String"@ || s == "&str"@ {
        "string"@
    } else if s == "Vec<u8>"@ || s == "&[u8]"@ {
        "bytes"@
    } else if s == "Address"@ || s == "::infrix_sdk::infrix_types::Address"@ {
        "address"@
    } else if s == "U256"@ || s == "::infrix_sdk::infrix_types::U256"@ {
        "u256"@
    } else if s == "Hash"@ || s == "::infrix_sdk::infrix_types::Hash"@ || s == "[u8;32]"@ {
        "bytes32"@
    } else if s == "[u8;20]"@ {
        "bytes20"@
    } else if has_prefix(s, "Option<"@) {
        "option<"@ + inner_of(s, "Option<"@) + ">"@
    } else if has_prefix(s, "Vec<"@) {
        "array<"@ + inner_of(s, "Vec<"@) + ">"@
    } else {
        s
    }
}

/// The schema table of contract types: strings are `string`, byte vectors
/// and slices `bytes`, addresses `address`, 256-bit integers `u256`, hashes
/// and 32-byte arrays `bytes32`, 20-byte arrays `bytes20`, and the integer
/// and boolean primitives keep their own names.
pub proof fn lemma_schema_type_table()
    ensures
        schema_type_of("String"@) == "string"@,
        schema_type_of("&str"@) == "string"@,
        schema_type_of("Vec<u8>"@) == "bytes"@,
        schema_type_of("&[u8]"@) == "bytes"@,
        schema_type_of("Address"@) == "address"@,
        schema_type_of("::infrix_sdk::infrix_types::Address"@) == "address"@,
        schema_type_of("U256"@) == "u256"@,
        schema_type_of("::infrix_sdk::infrix_types::U256"@) == "u256"@,
        schema_type_of("Hash"@) == "bytes32"@,
        schema_type_of("::infrix_sdk::infrix_types::Hash"@) == "bytes32"@,
        schema_type_of("[u8;32]"@) == "bytes32"@,
        schema_type_of("[u8;20]"@) == "bytes20"@,
        schema_type_of("i32"@) == "i32"@,
        schema_type_of("i64"@) == "i64"@,
        schema_type_of("u32"@) == "u32"@,
        schema_type_of("u64"@) == "u64"@,
        schema_type_of("u128"@) == "u128"@,
        schema_type_of("bool"@) == "bool"@,
{
    reveal_strlit("String");
    reveal_strlit("&str");
    reveal_strlit("Vec<u8>");
    reveal_strlit("&[u8]");
    reveal_strlit("Address");
    reveal_strlit("::infrix_sdk::infrix_types::Address");
    reveal_strlit("U256");
    reveal_strlit("::infrix_sdk::infrix_types::U256");
    reveal_strlit("Hash");
    reveal_strlit("::infrix_sdk::infrix_types::Hash");
    reveal_strlit("[u8;32]");
    reveal_strlit("[u8;20]");
    reveal_strlit("Option<");
    reveal_strlit("Vec<");
    reveal_strlit("string");
    reveal_strlit("bytes");
    reveal_strlit("address");
    reveal_strlit("u256");
    reveal_strlit("bytes32");
    reveal_strlit("bytes20");
    reveal_strlit("i32");
    reveal_strlit("i64");
    reveal_strlit("u32");
    reveal_strlit("u64");
    reveal_strlit("u128");
    reveal_strlit("bool");
    assert("&str"@[0] != "U256"@[0]);
    assert("&str"@[0] != "Hash"@[0]);
    assert("&str"@[0] != "u128"@[0]);
    assert("&str"@[0] != "bool"@[0]);
    assert("&str"@[0] != "Vec<"@[0]);
    assert("Vec<u8>"@[0] != "Address"@[0]);
    assert("Vec<u8>"@[0] != "[u8;32]"@[0]);
    assert("Vec<u8>"@[0] != "[u8;20]"@[0]);
    assert("Vec<u8>"@[0] != "Option<"@[0]);
    assert("Address"@[0] != "[u8;32]"@[0]);
    assert("Address"@[0] != "[u8;20]"@[0]);
    assert("Address"@[0] != "Option<"@[0]);
    assert("U256"@[0] != "Hash"@[0]);
    assert("U256"@[0] != "u128"@[0]);
    assert("U256"@[0] != "bool"@[0]);
    assert("U256"@[0] != "Vec<"@[0]);
    assert("::infrix_sdk::infrix_types::U256"@[28] != "::infrix_sdk::infrix_types::Hash"@[28]);
    assert("Hash"@[0] != "u128"@[0]);
    assert("Hash"@[0] != "bool"@[0]);
    assert("Hash"@[0] != "Vec<"@[0]);
    assert("[u8;32]"@[4] != "[u8;20]"@[4]);
    assert("[u8;32]"@[0] != "Option<"@[0]);
    assert("[u8;20]"@[0] != "Option<"@[0]);
    assert("i32"@[1] != "i64"@[1]);
    assert("i32"@[0] != "u32"@[0]);
    assert("i32"@[0] != "u64"@[0]);
    assert("i64"@[0] != "u32"@[0]);
    assert("i64"@[0] != "u64"@[0]);
    assert("u32"@[1] != "u64"@[1]);
    assert("u128"@[0] != "bool"@[0]);
    assert("u128"@[0] != "Vec<"@[0]);
    assert("bool"@[0] != "Vec<"@[0]);
    assert("String"@ != "&str"@) by { assert("String"@.len() != "&str"@.len()); }
    assert("String"@ != "Vec<u8>"@) by { assert("String"@.len() != "Vec<u8>"@.len()); }
    assert("String"@ != "&[u8]"@) by { assert("String"@.len() != "&[u8]"@.len()); }
    assert("String"@ != "Address"@) by { assert("String"@.len() != "Address"@.len()); }
    assert("String"@ != "::infrix_sdk::infrix_types::Address"@) by { assert("String"@.len() != "::infrix_sdk::infrix_types::Address"@.len()); }
    assert("String"@ != "U256"@) by { assert("String"@.len() != "U256"@.len()); }
    assert("String"@ != "::infrix_sdk::infrix_types::U256"@) by { assert("String"@.len() != "::infrix_sdk::infrix_types::U256"@.len()); }
    assert("String"@ != "Hash"@) by { assert("String"@.len() != "Hash"@.len()); }
    assert("String"@ != "::infrix_sdk::infrix_types::Hash"@) by { assert("String"@.len() != "::infrix_sdk::infrix_types::Hash"@.len()); }
    assert("String"@ != "[u8;32]"@) by { assert("String"@.len() != "[u8;32]"@.len()); }
    assert("String"@ != "[u8;20]"@) by { assert("String"@.len() != "[u8;20]"@.len()); }
    assert("&str"@ != "Vec<u8>"@) by { assert("&str"@.len() != "Vec<u8>"@.len()); }
    assert("&str"@ != "&[u8]"@) by { assert("&str"@.len() != "&[u8]"@.len()); }
    assert("&str"@ != "Address"@) by { assert("&str"@.len() != "Address"@.len()); }
    assert("&str"@ != "::infrix_sdk::infrix_types::Address"@) by { assert("&str"@.len() != "::infrix_sdk::infrix_types::Address"@.len()); }
    assert("&str"@ != "::infrix_sdk::infrix_types::U256"@) by { assert("&str"@.len() != "::infrix_sdk::infrix_types::U256"@.len()); }
    assert("&str"@ != "::infrix_sdk::infrix_types::Hash"@) by { assert("&str"@.len() != "::infrix_sdk::infrix_types::Hash"@.len()); }
    assert("&str"@ != "[u8;32]"@) by { assert("&str"@.len() != "[u8;32]"@.len()); }
    assert("&str"@ != "[u8;20]"@) by { assert("&str"@.len() != "[u8;20]"@.len()); }
    assert("Vec<u8>"@ != "&[u8]"@) by { assert("Vec<u8>"@.len() != "&[u8]"@.len()); }
    assert("Vec<u8>"@ != "::infrix_sdk::infrix_types::Address"@) by { assert("Vec<u8>"@.len() != "::infrix_sdk::infrix_types::Address"@.len()); }
    assert("Vec<u8>"@ != "U256"@) by { assert("Vec<u8>"@.len() != "U256"@.len()); }
    assert("Vec<u8>"@ != "::infrix_sdk::infrix_types::U256"@) by { assert("Vec<u8>"@.len() != "::infrix_sdk::infrix_types::U256"@.len()); }
    assert("Vec<u8>"@ != "Hash"@) by { assert("Vec<u8>"@.len() != "Hash"@.len()); }
    assert("Vec<u8>"@ != "::infrix_sdk::infrix_types::Hash"@) by { assert("Vec<u8>"@.len() != "::infrix_sdk::infrix_types::Hash"@.len()); }
    assert("&[u8]"@ != "Address"@) by { assert("&[u8]"@.len() != "Address"@.len()); }
    assert("&[u8]"@ != "::infrix_sdk::infrix_types::Address"@) by { assert("&[u8]"@.len() != "::infrix_sdk::infrix_types::Address"@.len()); }
    assert("&[u8]"@ != "U256"@) by { assert("&[u8]"@.len() != "U256"@.len()); }
    assert("&[u8]"@ != "::infrix_sdk::infrix_types::U256"@) by { assert("&[u8]"@.len() != "::infrix_sdk::infrix_types::U256"@.len()); }
    assert("&[u8]"@ != "Hash"@) by { assert("&[u8]"@.len() != "Hash"@.len()); }
    assert("&[u8]"@ != "::infrix_sdk::infrix_types::Hash"@) by { assert("&[u8]"@.len() != "::infrix_sdk::infrix_types::Hash"@.len()); }
    assert("&[u8]"@ != "[u8;32]"@) by { assert("&[u8]"@.len() != "[u8;32]"@.len()); }
    assert("&[u8]"@ != "[u8;20]"@) by { assert("&[u8]"@.len() != "[u8;20]"@.len()); }
    assert("Address"@ != "::infrix_sdk::infrix_types::Address"@) by { assert("Address"@.len() != "::infrix_sdk::infrix_types::Address"@.len()); }
    assert("Address"@ != "U256"@) by { assert("Address"@.len() != "U256"@.len()); }
    assert("Address"@ != "::infrix_sdk::infrix_types::U256"@) by { assert("Address"@.len() != "::infrix_sdk::infrix_types::U256"@.len()); }
    assert("Address"@ != "Hash"@) by { assert("Address"@.len() != "Hash"@.len()); }
    assert("Address"@ != "::infrix_sdk::infrix_types::Hash"@) by { assert("Address"@.len() != "::infrix_sdk::infrix_types::Hash"@.len()); }
    assert("::infrix_sdk::infrix_types::Address"@ != "U256"@) by { assert("::infrix_sdk::infrix_types::Address"@.len() != "U256"@.len()); }
    assert("::infrix_sdk::infrix_types::Address"@ != "::infrix_sdk::infrix_types::U256"@) by { assert("::infrix_sdk::infrix_types::Address"@.len() != "::infrix_sdk::infrix_types::U256"@.len()); }
    assert("::infrix_sdk::infrix_types::Address"@ != "Hash"@) by { assert("::infrix_sdk::infrix_types::Address"@.len() != "Hash"@.len()); }
    assert("::infrix_sdk::infrix_types::Address"@ != "::infrix_sdk::infrix_types::Hash"@) by { assert("::infrix_sdk::infrix_types::Address"@.len() != "::infrix_sdk::infrix_types::Hash"@.len()); }
    assert("::infrix_sdk::infrix_types::Address"@ != "[u8;32]"@) by { assert("::infrix_sdk::infrix_types::Address"@.len() != "[u8;32]"@.len()); }
    assert("::infrix_sdk::infrix_types::Address"@ != "[u8;20]"@) by { assert("::infrix_sdk::infrix_types::Address"@.len() != "[u8;20]"@.len()); }
    assert("U256"@ != "::infrix_sdk::infrix_types::U256"@) by { assert("U256"@.len() != "::infrix_sdk::infrix_types::U256"@.len()); }
    assert("U256"@ != "::infrix_sdk::infrix_types::Hash"@) by { assert("U256"@.len() != "::infrix_sdk::infrix_types::Hash"@.len()); }
    assert("U256"@ != "[u8;32]"@) by { assert("U256"@.len() != "[u8;32]"@.len()); }
    assert("U256"@ != "[u8;20]"@) by { assert("U256"@.len() != "[u8;20]"@.len()); }
    assert("::infrix_sdk::infrix_types::U256"@ != "Hash"@) by { assert("::infrix_sdk::infrix_types::U256"@.len() != "Hash"@.len()); }
    assert("::infrix_sdk::infrix_types::U256"@ != "[u8;32]"@) by { assert("::infrix_sdk::infrix_types::U256"@.len() != "[u8;32]"@.len()); }
    assert("::infrix_sdk::infrix_types::U256"@ != "[u8;20]"@) by { assert("::infrix_sdk::infrix_types::U256"@.len() != "[u8;20]"@.len()); }
    assert("Hash"@ != "::infrix_sdk::infrix_types::Hash"@) by { assert("Hash"@.len() != "::infrix_sdk::infrix_types::Hash"@.len()); }
    assert("Hash"@ != "[u8;32]"@) by { assert("Hash"@.len() != "[u8;32]"@.len()); }
    assert("Hash"@ != "[u8;20]"@) by { assert("Hash"@.len() != "[u8;20]"@.len()); }
    assert("::infrix_sdk::infrix_types::Hash"@ != "[u8;32]"@) by { assert("::infrix_sdk::infrix_types::Hash"@.len() != "[u8;32]"@.len()); }
    assert("::infrix_sdk::infrix_types::Hash"@ != "[u8;20]"@) by { assert("::infrix_sdk::infrix_types::Hash"@.len() != "[u8;20]"@.len()); }
}

fn wrap_inner(s: &str, prefix: &str, open: &str) -> (r: String)
    requires
        cuttable(s@, prefix@),
    ensures
        r@ == open@ + inner_of(s@, prefix@) + ">"@,
{
    let mut out = String::new();
    push_str(&mut out, open);
    let n = s.unicode_len();
    let inner = chars_between(s, prefix.unicode_len(), n - 1);
    push_str(&mut out, inner.as_str());
    push_str(&mut out, ">");
    out
}

/// Converts the text of a Rust type (spaces are ignored) to a schema type
/// string.
pub fn rust_type_to_schema(type_text: &str) -> (r: String)
    requires
        schema_mappable(without_spaces(type_text@)),
    ensures
        r@ == schema_type_of(without_spaces(type_text@)),
{
    let compact = remove_spaces(type_text);
    let s = compact.as_str();
    if str_eq(s, "String") || str_eq(s, "&str") {
        String::from_str("string")
    } else if str_eq(s, "Vec<u8>") || str_eq(s, "&[u8]") {
        String::from_str("bytes")
    } else if str_eq(s, "Address") || str_eq(s, "::infrix_sdk::infrix_types::Address") {
        String::from_str("address")
    } else if str_eq(s, "U256") || str_eq(s, "::infrix_sdk::infrix_types::U256") {
        String::from_str("u256")
    } else if str_eq(s, "Hash") || str_eq(s, "::infrix_sdk::infrix_types::Hash") || str_eq(
        s,
        "[u8;32]",
    ) {
        String::from_str("bytes32")
    } else if str_eq(s, "[u8;20]") {
        String::from_str("bytes20")
    } else if starts_with(s, "Option<") {
        wrap_inner(s, "Option<", "option<")
    } else if starts_with(s, "Vec<") {
        wrap_inner(s, "Vec<", "array<")
    } else {
        compact
    }
}

/// Whether space-free text `s` is cuttable after prefix `p`.
fn cuttable_exec(s: &str, p: &str) -> (r: bool)
    ensures
        r == cuttable(s@, p@),
{
    let n = s.unicode_len();
    let m = p.unicode_len();
    if n <= m {
        return false;
    }
    let c = s.get_char(n - 1);
    (c as u32) < 128
}

/// Whether `rust_type_to_schema` can map the type text: once spaces are
/// removed, an `Option<..>` or a `Vec<..>` other than `Vec<u8>` must have
/// text after its prefix and end in an ASCII character.
pub fn schema_mappable_text(type_text: &str) -> (r: bool)
    ensures
        r == schema_mappable(without_spaces(type_text@)),
{
    let compact = remove_spaces(type_text);
    let s = compact.as_str();
    if str_eq(s, "Vec<u8>") {
        true
    } else if starts_with(s, "Option<") {
        cuttable_exec(s, "Option<")
    } else if starts_with(s, "Vec<") {
        cuttable_exec(s, "Vec<")
    } else {
        true
    }
}

/// The index of the first `c` in `s`, if any.
pub open spec fn first_char_index(s: Seq<char>, c: char) -> Option<int> {
    if exists|i: int| 0 <= i < s.len() && s[i] == c {
        Some(choose|i: int| 0 <= i < s.len() && s[i] == c && forall|k: int| 0 <= k < i ==> s[k] != c)
    } else {
        None
    }
}

fn find_char(s: &str, c: char) -> (r: Option<usize>)
    ensures
        r matches Some(i) ==> i < s@.len() && s@[i as int] == c && forall|k: int|
            0 <= k < i ==> s@[k] != c,
        r is None ==> forall|k: int| 0 <= k < s@.len() ==> s@[k] != c,
{
    let n = s.unicode_len();
    let mut i: usize = 0;
    while i < n
        invariant
            n == s@.len(),
            i <= n,
            forall|k: int| 0 <= k < i ==> s@[k] != c,
        decreases n - i,
    {
        if s.get_char(i) == c {
            return Some(i);
        }
        i = i + 1;
    }
    None
}

/// The `Ok` type text of space-free `Result<T,E>` text, when there is a comma.
pub open spec fn result_ok_type(s: Seq<char>) -> Option<Seq<char>> {
    if has_prefix(s, "Result<"@) {
        let inner = s.subrange("Result<"@.len() as int, s.len() as int);
        if exists|i: int| 0 <= i < inner.len() && inner[i] == ',' {
            let p = choose|i: int|
                0 <= i < inner.len() && inner[i] == ',' && forall|k: int|
                    0 <= k < i ==> inner[k] != ',';
            Some(trimmed(inner.subrange(0, p)))
        } else {
            None
        }
    } else {
        None
    }
}

/// The return entries a function's return type gives in its schema.
pub open spec fn return_schema(ret: Option<Seq<char>>) -> Seq<(Seq<char>, Seq<char>)> {
    match ret {
        None => Seq::empty(),
        Some(t) => {
            let s = without_spaces(t);
            match result_ok_type(s) {
                Some(ok) => if ok == "()"@ {
                    Seq::empty()
                } else {
                    seq![("result"@, schema_name_of(trimmed(ok)))]
                },
                None => if s == "()"@ || s == "Self"@ {
                    Seq::empty()
                } else {
                    seq![("result"@, schema_type_of(s))]
                },
            }
        },
    }
}

/// Whether the return entries of a return type can be computed.
pub open spec fn return_mappable(ret: Option<Seq<char>>) -> bool {
    match ret {
        None => true,
        Some(t) => result_ok_type(without_spaces(t)) is Some || schema_mappable(without_spaces(t)),
    }
}

/// Whether `extract_return_schema` can map the return type text: nothing,
/// a `Result<T, E>` with a comma, or mappable type text.
pub fn return_mappable_text(return_type: Option<&str>) -> (r: bool)
    ensures
        r == return_mappable(
            match return_type {
                Some(t) => Some(t@),
                None => None,
            },
        ),
{
    match return_type {
        None => true,
        Some(t) => {
            let compact = remove_spaces(t);
            let s = compact.as_str();
            let ghost sv = without_spaces(t@);
            if starts_with(s, "Result<") {
                let n = s.unicode_len();
                let inner = chars_between(s, "Result<".unicode_len(), n);
                match find_char(inner.as_str(), ',') {
                    Some(p) => {
                        proof {
                            let iv = sv.subrange("Result<"@.len() as int, sv.len() as int);
                            assert(iv[p as int] == ',');
                        }
                        return true;
                    },
                    None => {
                        proof {
                            let iv = sv.subrange("Result<"@.len() as int, sv.len() as int);
                            assert(result_ok_type(sv) is None);
                        }
                    },
                }
            }
            schema_mappable_text(t)
        },
    }
}

proof fn lemma_first_index_unique(s: Seq<char>, c: char, i: int, j: int)
    requires
        0 <= i < s.len() && s[i] == c && forall|k: int| 0 <= k < i ==> s[k] != c,
        0 <= j < s.len() && s[j] == c && forall|k: int| 0 <= k < j ==> s[k] != c,
    ensures
        i == j,
{
}

/// Extracts the return entries of a function's schema from the text of its
/// return type (`None` when it declares none): `Result<T, E>` gives `T`,
/// and `()` or `Self` give nothing.
pub fn extract_return_schema(return_type: Option<&str>) -> (r: Vec<(String, String)>)
    requires
        return_mappable(
            match return_type {
                Some(t) => Some(t@),
                None => None,
            },
        ),
    ensures
        r@.len() == return_schema(
            match return_type {
                Some(t) => Some(t@),
                None => None,
            },
        ).len(),
        forall|i: int|
            0 <= i < r@.len() ==> (#[trigger] r@[i]).0@ == return_schema(
                match return_type {
                    Some(t) => Some(t@),
                    None => None,
                },
            )[i].0 && r@[i].1@ == return_schema(
                match return_type {
                    Some(t) => Some(t@),
                    None => None,
                },
            )[i].1,
{
    let mut out: Vec<(String, String)> = Vec::new();
    match return_type {
        None => out,
        Some(t) => {
            let compact = remove_spaces(t);
            let s = compact.as_str();
            let ghost sv = without_spaces(t@);
            if starts_with(s, "Result<") {
                let n = s.unicode_len();
                let inner = chars_between(s, "Result<".unicode_len(), n);
                match find_char(inner.as_str(), ',') {
                    Some(p) => {
                        let head = chars_between(inner.as_str(), 0, p);
                        let ok = trim(head.as_str());
                        proof {
                            let iv = sv.subrange("Result<"@.len() as int, sv.len() as int);
                            assert(iv[p as int] == ',');
                            let q = choose|i: int|
                                0 <= i < iv.len() && iv[i] == ',' && forall|k: int|
                                    0 <= k < i ==> iv[k] != ',';
                            lemma_first_index_unique(iv, ',', p as int, q);
                            assert(result_ok_type(sv) == Some(trimmed(head@)));
                        }
                        if str_eq(ok.as_str(), "()") {
                            return out;
                        }
                        let name = rust_type_to_schema_str(ok.as_str());
                        out.push((String::from_str("result"), name));
                        return out;
                    },
                    None => {
                        proof {
                            let iv = sv.subrange("Result<"@.len() as int, sv.len() as int);
                            assert(result_ok_type(sv) is None);
                        }
                    },
                }
            }
            if str_eq(s, "()") || str_eq(s, "Self") {
                return out;
            }
            let name = rust_type_to_schema(t);
            out.push((String::from_str("result"), name));
            out
        },
    }
}

} // verus!
