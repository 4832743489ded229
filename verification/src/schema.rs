//! Contract schema metadata: function selectors, JSON escaping and the
//! schema documents the contract macros embed in a compiled contract.
use vstd::prelude::*;
use vstd::string::{StrSliceExecFns, StringSliceAdditionalSpecFns};
use crate::text::{push_char, push_str};

verus! {

/// FNV-1a offset basis.
pub const FNV_OFFSET: u32 = 0x811c9dc5;

/// FNV-1a prime.
pub const FNV_PRIME: u32 = 0x01000193;

/// The 32-bit FNV-1a hash of `bytes`.
pub open spec fn fnv1a(bytes: Seq<u8>) -> u32
    decreases bytes.len(),
{
    if bytes.len() == 0 {
        FNV_OFFSET
    } else {
        (((fnv1a(bytes.drop_last()) ^ (bytes.last() as u32)) as int * FNV_PRIME as int)
            % 0x1_0000_0000) as u32
    }
}

/// FNV-1a folds the bytes in order, first to last: the hash of no bytes is
/// the offset basis 0x811c9dc5, and appending a byte XORs it into the hash
/// of the bytes before it and multiplies by the prime 0x01000193, modulo
/// 2^32.
pub proof fn lemma_fnv1a_folds_in_order(s: Seq<u8>, b: u8)
    ensures
        fnv1a(Seq::empty()) == 0x811c9dc5u32,
        fnv1a(s.push(b)) as int == ((fnv1a(s) ^ (b as u32)) as int * 0x01000193int) % 0x1_0000_0000,
{
    assert(s.push(b).drop_last() =~= s);
}

/// The function selector of a name: the FNV-1a hash of its UTF-8 bytes.
pub fn calculate_selector(name: &str) -> (r: u32)
    ensures
        r == fnv1a(name.spec_bytes()),
{
    let bytes = name.as_bytes();
    let mut hash: u32 = FNV_OFFSET;
    let mut i: usize = 0;
    while i < bytes.len()
        invariant
            i <= bytes@.len(),
            hash == fnv1a(bytes@.take(i as int)),
        decreases bytes@.len() - i,
    {
        proof {
            assert(bytes@.take(i + 1).drop_last() =~= bytes@.take(i as int));
        }
        let y: u32 = hash ^ (bytes[i] as u32);
        let x: u64 = y as u64;
        assert(x < 0x1_0000_0000);
        hash = ((x * (FNV_PRIME as u64)) % 0x1_0000_0000) as u32;
        i = i + 1;
    }
    assert(bytes@.take(bytes@.len() as int) =~= bytes@);
    hash
}

/// How a character is written inside a JSON string by `escape_json`.
pub open spec fn escape_char(c: char) -> Seq<char> {
    if c == '\\' {
        seq!['\\', '\\']
    } else if c == '"' {
        seq!['\\', '"']
    } else if c == '\n' {
        seq!['\\', 'n']
    } else {
        seq![c]
    }
}

/// A text with backslashes, double quotes and newlines escaped.
pub open spec fn escaped(s: Seq<char>) -> Seq<char>
    decreases s.len(),
{
    if s.len() == 0 {
        Seq::empty()
    } else {
        escaped(s.drop_last()) + escape_char(s.last())
    }
}

/// Appends `s` to `out` with backslashes, double quotes and newlines escaped.
pub fn push_escaped(out: &mut String, s: &str)
    ensures
        final(out)@ == old(out)@ + escaped(s@),
{
    let ghost start = out@;
    let n = s.unicode_len();
    let mut i: usize = 0;
    while i < n
        invariant
            n == s@.len(),
            i <= n,
            out@ == start + escaped(s@.take(i as int)),
        decreases n - i,
    {
        proof {
            assert(s@.take(i + 1).drop_last() =~= s@.take(i as int));
        }
        let c = s.get_char(i);
        if c == '\\' {
            push_char(out, '\\');
            push_char(out, '\\');
        } else if c == '"' {
            push_char(out, '\\');
            push_char(out, '"');
        } else if c == '\n' {
            push_char(out, '\\');
            push_char(out, 'n');
        } else {
            push_char(out, c);
        }
        proof {
            assert(out@ =~= start + escaped(s@.take(i + 1)));
        }
        i = i + 1;
    }
    assert(s@.take(n as int) =~= s@);
}

/// Escapes backslashes, double quotes and newlines for a JSON string.
pub fn escape_json(s: &str) -> (r: String)
    ensures
        r@ == escaped(s@),
{
    let mut out = String::new();
    push_escaped(&mut out, s);
    assert(out@ =~= escaped(s@));
    out
}

/// `true` or `false` as JSON text.
pub open spec fn bool_text(b: bool) -> Seq<char> {
    if b {
        "true"@
    } else {
        "false"@
    }
}

fn push_bool(out: &mut String, b: bool)
    ensures
        final(out)@ == old(out)@ + bool_text(b),
{
    if b {
        push_str(out, "true");
    } else {
        push_str(out, "false");
    }
}

/// One event field object: `{"name":..,"type":..,"indexed":..}`.
pub open spec fn field_json(f: (String, String, bool)) -> Seq<char> {
    "{\"name\":\""@ + escaped(f.0@) + "\",\"type\":\""@ + escaped(f.1@) + "\",\"indexed\":"@
        + bool_text(f.2) + "}"@
}

/// The first `k` field objects of `fields`, separated by `sep`.
pub open spec fn fields_json(fields: Seq<(String, String, bool)>, k: nat, sep: Seq<char>) -> Seq<
    char,
>
    decreases k,
{
    if k == 0 {
        Seq::empty()
    } else {
        fields_json(fields, (k - 1) as nat, sep) + (if k - 1 > 0 {
            sep
        } else {
            Seq::empty()
        }) + field_json(fields[k - 1])
    }
}

fn push_field(out: &mut String, f: &(String, String, bool))
    ensures
        final(out)@ == old(out)@ + field_json(*f),
{
    let ghost start = out@;
    push_str(out, "{\"name\":\"");
    push_escaped(out, f.0.as_str());
    push_str(out, "\",\"type\":\"");
    push_escaped(out, f.1.as_str());
    push_str(out, "\",\"indexed\":");
    push_bool(out, f.2);
    push_str(out, "}");
    assert(out@ =~= start + field_json(*f));
}

fn push_fields(out: &mut String, fields: &[(String, String, bool)], sep: &str)
    ensures
        final(out)@ == old(out)@ + fields_json(fields@, fields@.len(), sep@),
{
    let ghost start = out@;
    let mut i: usize = 0;
    while i < fields.len()
        invariant
            i <= fields@.len(),
            out@ == start + fields_json(fields@, i as nat, sep@),
        decreases fields@.len() - i,
    {
        let ghost before = out@;
        if i > 0 {
            push_str(out, sep);
        }
        push_field(out, &fields[i]);
        proof {
            if i > 0 {
                assert(out@ =~= before + sep@ + field_json(fields@[i as int]));
            } else {
                assert(out@ =~= before + field_json(fields@[i as int]));
            }
            assert(out@ =~= start + fields_json(fields@, (i + 1) as nat, sep@));
        }
        i = i + 1;
    }
}

/// The single-line JSON object describing one event.
pub open spec fn event_schema_json(name: Seq<char>, fields: Seq<(String, String, bool)>) -> Seq<
    char,
> {
    "{\"name\":\""@ + escaped(name) + "\",\"fields\":["@ + fields_json(fields, fields.len(), ","@)
        + "]}"@
}

/// Builds a single-line JSON object describing one event, in the same shape
/// as the `events` entries of `build_schema_json`.
pub fn build_event_schema_json(name: &str, fields: &[(String, String, bool)]) -> (r: String)
    ensures
        r@ == event_schema_json(name@, fields@),
{
    let mut json = String::new();
    push_str(&mut json, "{\"name\":\"");
    push_escaped(&mut json, name);
    push_str(&mut json, "\",\"fields\":[");
    push_fields(&mut json, fields, ",");
    push_str(&mut json, "]}");
    assert(json@ =~= event_schema_json(name@, fields@));
    json
}

/// `s` holds no newline character.
pub open spec fn single_line(s: Seq<char>) -> bool {
    forall|i: int| 0 <= i < s.len() ==> s[i] != '\n'
}

proof fn lemma_single_line_concat(a: Seq<char>, b: Seq<char>)
    requires
        single_line(a),
        single_line(b),
    ensures
        single_line(a + b),
{
    assert forall|i: int| 0 <= i < (a + b).len() implies (a + b)[i] != '\n' by {
        if i < a.len() {
            assert((a + b)[i] == a[i]);
        } else {
            assert((a + b)[i] == b[i - a.len()]);
        }
    }
}

proof fn lemma_escaped_single_line(s: Seq<char>)
    ensures
        single_line(escaped(s)),
    decreases s.len(),
{
    if s.len() > 0 {
        lemma_escaped_single_line(s.drop_last());
        lemma_single_line_concat(escaped(s.drop_last()), escape_char(s.last()));
    }
}

proof fn lemma_fields_single_line(fields: Seq<(String, String, bool)>, k: nat)
    requires
        k <= fields.len(),
    ensures
        single_line(fields_json(fields, k, ","@)),
    decreases k,
{
    reveal_strlit("{\"name\":\"");
    reveal_strlit("\",\"type\":\"");
    reveal_strlit("\",\"indexed\":");
    reveal_strlit("}");
    reveal_strlit("true");
    reveal_strlit("false");
    reveal_strlit(",");
    if k > 0 {
        lemma_fields_single_line(fields, (k - 1) as nat);
        let f = fields[k - 1];
        lemma_escaped_single_line(f.0@);
        lemma_escaped_single_line(f.1@);
        let a = "{\"name\":\""@ + escaped(f.0@);
        lemma_single_line_concat("{\"name\":\""@, escaped(f.0@));
        let b = a + "\",\"type\":\""@;
        lemma_single_line_concat(a, "\",\"type\":\""@);
        let c = b + escaped(f.1@);
        lemma_single_line_concat(b, escaped(f.1@));
        let d = c + "\",\"indexed\":"@;
        lemma_single_line_concat(c, "\",\"indexed\":"@);
        let e = d + bool_text(f.2);
        lemma_single_line_concat(d, bool_text(f.2));
        lemma_single_line_concat(e, "}"@);
        let sep: Seq<char> = if k - 1 > 0 {
            ","@
        } else {
            Seq::empty()
        };
        let prev = fields_json(fields, (k - 1) as nat, ","@);
        lemma_single_line_concat(prev, sep);
        lemma_single_line_concat(prev + sep, field_json(f));
    }
}

/// The event schema object is a single line, whatever the names and types
/// hold: newlines in them are escaped.
pub proof fn lemma_event_schema_single_line(name: Seq<char>, fields: Seq<(String, String, bool)>)
    ensures
        single_line(event_schema_json(name, fields)),
{
    reveal_strlit("{\"name\":\"");
    reveal_strlit("\",\"fields\":[");
    reveal_strlit("]}");
    lemma_escaped_single_line(name);
    lemma_fields_single_line(fields, fields.len());
    let a = "{\"name\":\""@ + escaped(name);
    lemma_single_line_concat("{\"name\":\""@, escaped(name));
    let b = a + "\",\"fields\":["@;
    lemma_single_line_concat(a, "\",\"fields\":["@);
    let c = b + fields_json(fields, fields.len(), ","@);
    lemma_single_line_concat(b, fields_json(fields, fields.len(), ","@));
    lemma_single_line_concat(c, "]}"@);
}

/// One parameter or return entry: `{"name":..,"type":..}`.
pub open spec fn pair_json(p: (String, String)) -> Seq<char> {
    "{\"name\":\""@ + escaped(p.0@) + "\",\"type\":\""@ + escaped(p.1@) + "\"}"@
}

/// The first `k` entries of `pairs`, separated by `", "`.
pub open spec fn pairs_json(pairs: Seq<(String, String)>, k: nat) -> Seq<char>
    decreases k,
{
    if k == 0 {
        Seq::empty()
    } else {
        pairs_json(pairs, (k - 1) as nat) + (if k - 1 > 0 {
            ", "@
        } else {
            Seq::empty()
        }) + pair_json(pairs[k - 1])
    }
}

fn push_pairs(out: &mut String, pairs: &Vec<(String, String)>)
    ensures
        final(out)@ == old(out)@ + pairs_json(pairs@, pairs@.len()),
{
    let ghost start = out@;
    let mut i: usize = 0;
    while i < pairs.len()
        invariant
            i <= pairs@.len(),
            out@ == start + pairs_json(pairs@, i as nat),
        decreases pairs@.len() - i,
    {
        let ghost before = out@;
        if i > 0 {
            push_str(out, ", ");
        }
        let p = &pairs[i];
        push_str(out, "{\"name\":\"");
        push_escaped(out, p.0.as_str());
        push_str(out, "\",\"type\":\"");
        push_escaped(out, p.1.as_str());
        push_str(out, "\"}");
        proof {
            if i > 0 {
                assert(out@ =~= before + ", "@ + pair_json(pairs@[i as int]));
            } else {
                assert(out@ =~= before + pair_json(pairs@[i as int]));
            }
            assert(out@ =~= start + pairs_json(pairs@, (i + 1) as nat));
        }
        i = i + 1;
    }
}

/// A function entry of a schema: name, mutability, parameters, returns and doc.
pub type FunctionSchema = (String, String, Vec<(String, String)>, Vec<(String, String)>, String);

/// An event entry of a schema: name and fields (name, type, indexed).
pub type EventSchema = (String, Vec<(String, String, bool)>);

/// The opening of a function entry: its name and mutability.
pub open spec fn function_head_json(f: FunctionSchema) -> Seq<char> {
    "    {\n"@ + "      \"name\": \""@ + escaped(f.0@) + "\",\n"@ + "      \"mutability\": \""@
        + escaped(f.1@) + "\",\n"@
}

/// The parameter and return lists of a function entry.
pub open spec fn function_lists_json(f: FunctionSchema) -> Seq<char> {
    "      \"params\": ["@ + pairs_json(f.2@, f.2@.len()) + "],\n"@ + "      \"returns\": ["@
        + pairs_json(f.3@, f.3@.len()) + "]"@
}

/// The doc line of a function entry, present when the doc is not empty.
pub open spec fn function_doc_json(f: FunctionSchema) -> Seq<char> {
    if f.4@.len() == 0 {
        Seq::empty()
    } else {
        ",\n      \"doc\": \""@ + escaped(f.4@) + "\""@
    }
}

/// The close of an entry, with a comma unless it is the last, and a newline.
pub open spec fn entry_close_json(last: bool) -> Seq<char> {
    "\n    }"@ + (if last {
        Seq::empty()
    } else {
        seq![',']
    }) + seq!['\n']
}

/// The JSON object of one function entry, followed by a comma unless it is
/// the last one, and a newline.
pub open spec fn function_json(f: FunctionSchema, last: bool) -> Seq<char> {
    function_head_json(f) + function_lists_json(f) + function_doc_json(f) + entry_close_json(last)
}

/// The first `k` function entries.
pub open spec fn functions_json(fs: Seq<FunctionSchema>, k: nat) -> Seq<char>
    decreases k,
{
    if k == 0 {
        Seq::empty()
    } else {
        functions_json(fs, (k - 1) as nat) + function_json(fs[k - 1], k - 1 >= fs.len() - 1)
    }
}

/// The JSON object of one event entry, followed by a comma unless it is the
/// last one, and a newline.
pub open spec fn event_json(e: EventSchema, last: bool) -> Seq<char> {
    "    {\n"@ + "      \"name\": \""@ + escaped(e.0@) + "\",\n"@ + "      \"fields\": ["@
        + fields_json(e.1@, e.1@.len(), ", "@) + "]\n    }"@ + (if last {
        Seq::empty()
    } else {
        seq![',']
    }) + seq!['\n']
}

/// The first `k` event entries.
pub open spec fn events_json(es: Seq<EventSchema>, k: nat) -> Seq<char>
    decreases k,
{
    if k == 0 {
        Seq::empty()
    } else {
        events_json(es, (k - 1) as nat) + event_json(es[k - 1], k - 1 >= es.len() - 1)
    }
}

/// The contract schema document.
pub open spec fn schema_json(name: Seq<char>, fs: Seq<FunctionSchema>, es: Seq<EventSchema>) -> Seq<
    char,
> {
    "{\n"@ + "  \"schema_version\": 1,\n"@ + "  \"name\": \""@ + escaped(name) + "\",\n"@
        + "  \"functions\": [\n"@ + functions_json(fs, fs.len()) + "  ]"@ + (if es.len() == 0 {
        Seq::empty()
    } else {
        ",\n  \"events\": [\n"@ + events_json(es, es.len()) + "  ]"@
    }) + "\n}"@
}

fn push_function_head(out: &mut String, f: &FunctionSchema)
    ensures
        final(out)@ == old(out)@ + function_head_json(*f),
{
    let ghost start = out@;
    push_str(out, "    {\n");
    push_str(out, "      \"name\": \"");
    push_escaped(out, f.0.as_str());
    push_str(out, "\",\n");
    push_str(out, "      \"mutability\": \"");
    push_escaped(out, f.1.as_str());
    push_str(out, "\",\n");
    assert(out@ =~= start + function_head_json(*f));
}

fn push_function_lists(out: &mut String, f: &FunctionSchema)
    ensures
        final(out)@ == old(out)@ + function_lists_json(*f),
{
    let ghost start = out@;
    push_str(out, "      \"params\": [");
    push_pairs(out, &f.2);
    push_str(out, "],\n");
    push_str(out, "      \"returns\": [");
    push_pairs(out, &f.3);
    push_str(out, "]");
    assert(out@ =~= start + function_lists_json(*f));
}

fn push_function_doc(out: &mut String, f: &FunctionSchema)
    ensures
        final(out)@ == old(out)@ + function_doc_json(*f),
{
    let ghost start = out@;
    if f.4.as_str().unicode_len() != 0 {
        push_str(out, ",\n      \"doc\": \"");
        push_escaped(out, f.4.as_str());
        push_str(out, "\"");
        assert(out@ =~= start + function_doc_json(*f));
    } else {
        assert(out@ =~= start + function_doc_json(*f));
    }
}

fn push_entry_close(out: &mut String, last: bool)
    ensures
        final(out)@ == old(out)@ + entry_close_json(last),
{
    let ghost start = out@;
    push_str(out, "\n    }");
    if !last {
        push_char(out, ',');
    }
    push_char(out, '\n');
    assert(out@ =~= start + entry_close_json(last));
}

fn push_function(out: &mut String, f: &FunctionSchema, last: bool)
    ensures
        final(out)@ == old(out)@ + function_json(*f, last),
{
    let ghost start = out@;
    push_function_head(out, f);
    push_function_lists(out, f);
    push_function_doc(out, f);
    push_entry_close(out, last);
    assert(out@ =~= start + function_json(*f, last));
}

fn push_event(out: &mut String, e: &EventSchema, last: bool)
    ensures
        final(out)@ == old(out)@ + event_json(*e, last),
{
    let ghost start = out@;
    push_str(out, "    {\n");
    push_str(out, "      \"name\": \"");
    push_escaped(out, e.0.as_str());
    push_str(out, "\",\n");
    push_str(out, "      \"fields\": [");
    push_fields(out, e.1.as_slice(), ", ");
    push_str(out, "]\n    }");
    if !last {
        push_char(out, ',');
    }
    push_char(out, '\n');
    assert(out@ =~= start + event_json(*e, last));
}

/// Builds a JSON string representing the contract schema from collected
/// metadata: each function as (name, mutability, params, returns, doc) and
/// each event as (name, fields), a field being (name, type, indexed).
pub fn build_schema_json(contract_name: &str, functions: &[FunctionSchema], events: &[EventSchema]) -> (r: String)
    ensures
        r@ == schema_json(contract_name@, functions@, events@),
{
    let mut json = String::new();
    push_str(&mut json, "{\n");
    push_str(&mut json, "  \"schema_version\": 1,\n");
    push_str(&mut json, "  \"name\": \"");
    push_escaped(&mut json, contract_name);
    push_str(&mut json, "\",\n");
    push_str(&mut json, "  \"functions\": [\n");
    let ghost head = json@;
    let mut i: usize = 0;
    while i < functions.len()
        invariant
            i <= functions@.len(),
            json@ == head + functions_json(functions@, i as nat),
        decreases functions@.len() - i,
    {
        let last = i + 1 >= functions.len();
        push_function(&mut json, &functions[i], last);
        proof {
            assert(json@ =~= head + functions_json(functions@, (i + 1) as nat));
        }
        i = i + 1;
    }
    push_str(&mut json, "  ]");
    let ghost mid = json@;
    if events.len() != 0 {
        push_str(&mut json, ",\n  \"events\": [\n");
        let ghost ehead = json@;
        let mut k: usize = 0;
        while k < events.len()
            invariant
                k <= events@.len(),
                json@ == ehead + events_json(events@, k as nat),
            decreases events@.len() - k,
        {
            let last = k + 1 >= events.len();
            push_event(&mut json, &events[k], last);
            proof {
                assert(json@ =~= ehead + events_json(events@, (k + 1) as nat));
            }
            k = k + 1;
        }
        push_str(&mut json, "  ]");
    }
    push_str(&mut json, "\n}");
    assert(json@ =~= schema_json(contract_name@, functions@, events@));
    json
}

} // verus!
