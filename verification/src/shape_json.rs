//! Shape metadata of shape-shifting contracts and the deterministic JSON
//! documents built from it: the shape set and the evolution-rule fragment.
use vstd::prelude::*;
use vstd::string::StrSliceExecFns;
use crate::schema::bool_text;
use crate::text::{decimal, push_char, push_str, u64_to_decimal};

verus! {

/// Arguments of a shape set.
#[derive(Debug)]
pub struct ShapeSetArgs {
    pub contract_name: Option<String>,
    pub default_shape: Option<String>,
    pub evaluation_interval: Option<u64>,
    pub cooldown_blocks: Option<u64>,
    pub max_transitions_per_day: Option<u32>,
}

impl Default for ShapeSetArgs {
    fn default() -> (r: Self)
        ensures
            r.contract_name is None,
            r.default_shape is None,
            r.evaluation_interval is None,
            r.cooldown_blocks is None,
            r.max_transitions_per_day is None,
    {
        ShapeSetArgs {
            contract_name: None,
            default_shape: None,
            evaluation_interval: None,
            cooldown_blocks: None,
            max_transitions_per_day: None,
        }
    }
}

/// One parameter of a shape.
#[derive(Debug)]
pub struct ShapeParam {
    pub name: String,
    pub rust_type: String,
    pub shape_type: String,
    pub value_json: String,
    pub description: Option<String>,
}

/// One declared shape.
#[derive(Debug)]
pub struct ParsedShape {
    pub name: String,
    pub description: Option<String>,
    pub color: Option<String>,
    pub priority: Option<u8>,
    pub params: Vec<ShapeParam>,
}

/// Arguments of an evolution-rule set.
#[derive(Debug)]
pub struct RuleSetArgs {
    pub evaluation_interval: Option<u64>,
    pub cooldown_blocks: Option<u64>,
    pub max_transitions_per_day: Option<u32>,
}

impl Default for RuleSetArgs {
    fn default() -> (r: Self)
        ensures
            r.evaluation_interval is None,
            r.cooldown_blocks is None,
            r.max_transitions_per_day is None,
    {
        RuleSetArgs { evaluation_interval: None, cooldown_blocks: None, max_transitions_per_day: None }
    }
}

/// One evolution rule.
#[derive(Debug)]
pub struct ParsedRule {
    pub name: String,
    pub description: Option<String>,
    pub condition: String,
    pub target_shape: String,
    pub source_shapes: Vec<String>,
    pub priority: u8,
    pub duration_blocks: Option<u64>,
    pub enabled: bool,
}

/// `c` is a control character (Unicode general category Cc).
pub open spec fn is_control(c: char) -> bool {
    c <= '\u{1f}' || ('\u{7f}' <= c && c <= '\u{9f}')
}

/// The lowercase hexadecimal digit for `d < 16`.
pub open spec fn hex_digit(d: nat) -> char {
    if d < 10 {
        ((d + 48) as u8) as char
    } else {
        ((d - 10 + 97) as u8) as char
    }
}

/// How `json_string` writes a character.
pub open spec fn json_char(c: char) -> Seq<char> {
    if c == '\\' {
        seq!['\\', '\\']
    } else if c == '"' {
        seq!['\\', '"']
    } else if c == '\n' {
        seq!['\\', 'n']
    } else if c == '\r' {
        seq!['\\', 'r']
    } else if c == '\t' {
        seq!['\\', 't']
    } else if is_control(c) {
        seq!['\\', 'u', '0', '0', hex_digit((c as nat) / 16), hex_digit((c as nat) % 16)]
    } else {
        seq![c]
    }
}

/// The characters of `s`, each written as `json_char` writes it.
pub open spec fn json_chars(s: Seq<char>) -> Seq<char>
    decreases s.len(),
{
    if s.len() == 0 {
        Seq::empty()
    } else {
        json_chars(s.drop_last()) + json_char(s.last())
    }
}

/// A JSON string literal: the escaped characters between double quotes.
pub open spec fn json_str(s: Seq<char>) -> Seq<char> {
    seq!['"'] + json_chars(s) + seq!['"']
}

fn hex_digit_exec(d: u32) -> (c: char)
    requires
        d < 16,
    ensures
        c == hex_digit(d as nat),
{
    if d < 10 {
        ((d + 48) as u8) as char
    } else {
        ((d - 10 + 97) as u8) as char
    }
}

fn push_json_char(out: &mut String, c: char)
    ensures
        final(out)@ == old(out)@ + json_char(c),
{
    let ghost start = out@;
    if c == '\\' {
        push_char(out, '\\');
        push_char(out, '\\');
    } else if c == '"' {
        push_char(out, '\\');
        push_char(out, '"');
    } else if c == '\n' {
        push_char(out, '\\');
        push_char(out, 'n');
    } else if c == '\r' {
        push_char(out, '\\');
        push_char(out, 'r');
    } else if c == '\t' {
        push_char(out, '\\');
        push_char(out, 't');
    } else if c <= '\u{1f}' || ('\u{7f}' <= c && c <= '\u{9f}') {
        let v = c as u32;
        push_char(out, '\\');
        push_char(out, 'u');
        push_char(out, '0');
        push_char(out, '0');
        push_char(out, hex_digit_exec(v / 16));
        push_char(out, hex_digit_exec(v % 16));
    } else {
        push_char(out, c);
    }
    assert(out@ =~= start + json_char(c));
}

/// Appends `value` as a JSON string literal.
pub fn push_json_string(out: &mut String, value: &str)
    ensures
        final(out)@ == old(out)@ + json_str(value@),
{
    let ghost start = out@;
    push_char(out, '"');
    let n = value.unicode_len();
    let mut i: usize = 0;
    while i < n
        invariant
            n == value@.len(),
            i <= n,
            out@ == start + seq!['"'] + json_chars(value@.take(i as int)),
        decreases n - i,
    {
        assert(value@.take(i + 1).drop_last() =~= value@.take(i as int));
        push_json_char(out, value.get_char(i));
        assert(out@ =~= start + seq!['"'] + json_chars(value@.take(i + 1)));
        i = i + 1;
    }
    push_char(out, '"');
    assert(value@.take(n as int) =~= value@);
    assert(out@ =~= start + json_str(value@));
}

/// Writes a value as a JSON string literal, escaping backslashes, quotes,
/// newlines, carriage returns, tabs and other control characters.
pub fn json_string(value: &str) -> (r: String)
    ensures
        r@ == json_str(value@),
{
    let mut out = String::new();
    push_json_string(&mut out, value);
    assert(out@ =~= json_str(value@));
    out
}

/// The first `k` of `items`, separated by commas.
pub open spec fn joined(items: Seq<Seq<char>>, k: nat) -> Seq<char>
    decreases k,
{
    if k == 0 {
        Seq::empty()
    } else {
        joined(items, (k - 1) as nat) + (if k - 1 > 0 {
            seq![',']
        } else {
            Seq::empty()
        }) + items[k - 1]
    }
}

/// All of `items`, separated by commas, between square brackets.
pub open spec fn json_array(items: Seq<Seq<char>>) -> Seq<char> {
    seq!['['] + joined(items, items.len()) + seq![']']
}

/// An optional field `,"key":value`.
pub open spec fn opt_field<T>(key: Seq<char>, v: Option<T>, text: spec_fn(T) -> Seq<char>) -> Seq<
    char,
> {
    match v {
        Some(x) => seq![','] + key + text(x),
        None => Seq::empty(),
    }
}

/// The JSON object of a shape parameter.
pub open spec fn param_obj(p: ShapeParam) -> Seq<char> {
    seq!['{'] + "\"name\":"@ + json_str(p.name@) + ",\"type\":"@ + json_str(p.shape_type@)
        + ",\"value\":"@ + p.value_json@ + opt_field(
        "\"description\":"@,
        p.description,
        |d: String| json_str(d@),
    ) + seq!['}']
}

/// The JSON object of a schema entry: a parameter's name and type.
pub open spec fn schema_obj(p: ShapeParam) -> Seq<char> {
    seq!['{'] + "\"name\":"@ + json_str(p.name@) + ",\"type\":"@ + json_str(p.shape_type@)
        + opt_field("\"description\":"@, p.description, |d: String| json_str(d@)) + seq!['}']
}

/// The parameter array of a shape.
pub open spec fn params_array(ps: Seq<ShapeParam>) -> Seq<char> {
    json_array(Seq::new(ps.len(), |i: int| param_obj(ps[i])))
}

/// The parameter schema array.
pub open spec fn schema_array(ps: Seq<ShapeParam>) -> Seq<char> {
    json_array(Seq::new(ps.len(), |i: int| schema_obj(ps[i])))
}

/// The JSON object of a shape.
pub open spec fn shape_obj(s: ParsedShape) -> Seq<char> {
    seq!['{'] + "\"name\":"@ + json_str(s.name@) + ",\"parameters\":"@ + params_array(s.params@)
        + opt_field("\"description\":"@, s.description, |d: String| json_str(d@)) + opt_field(
        "\"color\":"@,
        s.color,
        |c: String| json_str(c@),
    ) + opt_field("\"priority\":"@, s.priority, |p: u8| decimal(p as nat)) + seq!['}']
}

/// The shape array.
pub open spec fn shapes_array(ss: Seq<ParsedShape>) -> Seq<char> {
    json_array(Seq::new(ss.len(), |i: int| shape_obj(ss[i])))
}

/// The JSON object of an evolution rule.
pub open spec fn rule_obj(r: ParsedRule) -> Seq<char> {
    seq!['{'] + "\"name\":"@ + json_str(r.name@) + ",\"condition\":"@ + json_str(r.condition@)
        + ",\"target_shape\":"@ + json_str(r.target_shape@) + ",\"priority\":"@ + decimal(
        r.priority as nat,
    ) + ",\"enabled\":"@ + bool_text(r.enabled) + opt_field(
        "\"description\":"@,
        r.description,
        |d: String| json_str(d@),
    ) + (if r.source_shapes@.len() > 0 {
        ",\"source_shapes\":"@ + json_array(
            Seq::new(r.source_shapes@.len(), |i: int| json_str(r.source_shapes@[i]@)),
        )
    } else {
        Seq::empty()
    }) + opt_field("\"duration_blocks\":"@, r.duration_blocks, |d: u64| decimal(d as nat))
        + seq!['}']
}

/// The rule array.
pub open spec fn rules_array(rs: Seq<ParsedRule>) -> Seq<char> {
    json_array(Seq::new(rs.len(), |i: int| rule_obj(rs[i])))
}

/// The optional scheduling fields shared by both documents.
pub open spec fn schedule_fields(
    evaluation_interval: Option<u64>,
    cooldown_blocks: Option<u64>,
    max_transitions_per_day: Option<u32>,
) -> Seq<char> {
    opt_field("\"evaluation_interval\":"@, evaluation_interval, |v: u64| decimal(v as nat))
        + opt_field("\"cooldown_blocks\":"@, cooldown_blocks, |v: u64| decimal(v as nat))
        + opt_field(
        "\"max_transitions_per_day\":"@,
        max_transitions_per_day,
        |v: u32| decimal(v as nat),
    )
}

/// The shape-set document.
pub open spec fn shape_set_doc(
    contract_name: Seq<char>,
    default_shape: Seq<char>,
    shapes: Seq<ParsedShape>,
    args: ShapeSetArgs,
) -> Seq<char> {
    seq!['{'] + "\"version\":1"@ + ",\"contract_name\":"@ + json_str(contract_name)
        + ",\"default_shape\":"@ + json_str(default_shape) + ",\"shapes\":"@ + shapes_array(shapes)
        + ",\"evolution_rules\":[]"@ + ",\"parameter_schema\":"@ + schema_array(shapes[0].params@)
        + schedule_fields(args.evaluation_interval, args.cooldown_blocks, args.max_transitions_per_day)
        + seq!['}']
}

/// The evolution-rule fragment document.
pub open spec fn rules_fragment_doc(rules: Seq<ParsedRule>, args: RuleSetArgs) -> Seq<char> {
    seq!['{'] + "\"version\":1"@ + ",\"evolution_rules\":"@ + rules_array(rules) + schedule_fields(
        args.evaluation_interval,
        args.cooldown_blocks,
        args.max_transitions_per_day,
    ) + seq!['}']
}

fn push_opt_json_str(out: &mut String, key: &str, v: &Option<String>)
    ensures
        final(out)@ == old(out)@ + opt_field(key@, *v, |d: String| json_str(d@)),
{
    let ghost start = out@;
    match v {
        Some(d) => {
            push_char(out, ',');
            push_str(out, key);
            push_json_string(out, d.as_str());
            assert(out@ =~= start + opt_field(key@, *v, |d: String| json_str(d@)));
        },
        None => {
            assert(out@ =~= start + opt_field(key@, *v, |d: String| json_str(d@)));
        },
    }
}

fn push_opt_u64(out: &mut String, key: &str, v: Option<u64>)
    ensures
        final(out)@ == old(out)@ + opt_field(key@, v, |x: u64| decimal(x as nat)),
{
    let ghost start = out@;
    match v {
        Some(x) => {
            push_char(out, ',');
            push_str(out, key);
            let d = u64_to_decimal(x);
            push_str(out, d.as_str());
            assert(out@ =~= start + opt_field(key@, v, |x: u64| decimal(x as nat)));
        },
        None => {
            assert(out@ =~= start + opt_field(key@, v, |x: u64| decimal(x as nat)));
        },
    }
}

fn push_schedule_fields(
    out: &mut String,
    evaluation_interval: Option<u64>,
    cooldown_blocks: Option<u64>,
    max_transitions_per_day: Option<u32>,
)
    ensures
        final(out)@ == old(out)@ + schedule_fields(
            evaluation_interval,
            cooldown_blocks,
            max_transitions_per_day,
        ),
{
    let ghost start = out@;
    push_opt_u64(out, "\"evaluation_interval\":", evaluation_interval);
    push_opt_u64(out, "\"cooldown_blocks\":", cooldown_blocks);
    let ghost mid = out@;
    match max_transitions_per_day {
        Some(x) => {
            push_char(out, ',');
            push_str(out, "\"max_transitions_per_day\":");
            let d = u64_to_decimal(x as u64);
            push_str(out, d.as_str());
        },
        None => {},
    }
    assert(out@ =~= start + schedule_fields(
        evaluation_interval,
        cooldown_blocks,
        max_transitions_per_day,
    ));
}

fn push_param(out: &mut String, p: &ShapeParam)
    ensures
        final(out)@ == old(out)@ + param_obj(*p),
{
    let ghost start = out@;
    push_char(out, '{');
    push_str(out, "\"name\":");
    push_json_string(out, p.name.as_str());
    push_str(out, ",\"type\":");
    push_json_string(out, p.shape_type.as_str());
    push_str(out, ",\"value\":");
    push_str(out, p.value_json.as_str());
    push_opt_json_str(out, "\"description\":", &p.description);
    push_char(out, '}');
    assert(out@ =~= start + param_obj(*p));
}

fn push_schema_entry(out: &mut String, p: &ShapeParam)
    ensures
        final(out)@ == old(out)@ + schema_obj(*p),
{
    let ghost start = out@;
    push_char(out, '{');
    push_str(out, "\"name\":");
    push_json_string(out, p.name.as_str());
    push_str(out, ",\"type\":");
    push_json_string(out, p.shape_type.as_str());
    push_opt_json_str(out, "\"description\":", &p.description);
    push_char(out, '}');
    assert(out@ =~= start + schema_obj(*p));
}

/// Appends the parameter array of a shape.
fn push_params(out: &mut String, params: &[ShapeParam])
    ensures
        final(out)@ == old(out)@ + params_array(params@),
{
    let ghost start = out@;
    let ghost items = Seq::new(params@.len(), |i: int| param_obj(params@[i]));
    push_char(out, '[');
    let mut i: usize = 0;
    while i < params.len()
        invariant
            i <= params@.len(),
            items == Seq::new(params@.len(), |i: int| param_obj(params@[i])),
            out@ == start + seq!['['] + joined(items, i as nat),
        decreases params@.len() - i,
    {
        if i > 0 {
            push_char(out, ',');
        }
        push_param(out, &params[i]);
        assert(out@ =~= start + seq!['['] + joined(items, (i + 1) as nat));
        i = i + 1;
    }
    push_char(out, ']');
    assert(out@ =~= start + params_array(params@));
}

/// Appends the parameter schema array.
fn push_schema(out: &mut String, params: &[ShapeParam])
    ensures
        final(out)@ == old(out)@ + schema_array(params@),
{
    let ghost start = out@;
    let ghost items = Seq::new(params@.len(), |i: int| schema_obj(params@[i]));
    push_char(out, '[');
    let mut i: usize = 0;
    while i < params.len()
        invariant
            i <= params@.len(),
            items == Seq::new(params@.len(), |i: int| schema_obj(params@[i])),
            out@ == start + seq!['['] + joined(items, i as nat),
        decreases params@.len() - i,
    {
        if i > 0 {
            push_char(out, ',');
        }
        push_schema_entry(out, &params[i]);
        assert(out@ =~= start + seq!['['] + joined(items, (i + 1) as nat));
        i = i + 1;
    }
    push_char(out, ']');
    assert(out@ =~= start + schema_array(params@));
}

fn push_shape(out: &mut String, s: &ParsedShape)
    ensures
        final(out)@ == old(out)@ + shape_obj(*s),
{
    let ghost start = out@;
    push_char(out, '{');
    push_str(out, "\"name\":");
    push_json_string(out, s.name.as_str());
    push_str(out, ",\"parameters\":");
    push_params(out, s.params.as_slice());
    push_opt_json_str(out, "\"description\":", &s.description);
    push_opt_json_str(out, "\"color\":", &s.color);
    let ghost mid = out@;
    match s.priority {
        Some(p) => {
            push_char(out, ',');
            push_str(out, "\"priority\":");
            let d = u64_to_decimal(p as u64);
            push_str(out, d.as_str());
        },
        None => {},
    }
    push_char(out, '}');
    assert(out@ =~= start + shape_obj(*s));
}

/// Appends the shape array.
fn push_shapes(out: &mut String, shapes: &[ParsedShape])
    ensures
        final(out)@ == old(out)@ + shapes_array(shapes@),
{
    let ghost start = out@;
    let ghost items = Seq::new(shapes@.len(), |i: int| shape_obj(shapes@[i]));
    push_char(out, '[');
    let mut i: usize = 0;
    while i < shapes.len()
        invariant
            i <= shapes@.len(),
            items == Seq::new(shapes@.len(), |i: int| shape_obj(shapes@[i])),
            out@ == start + seq!['['] + joined(items, i as nat),
        decreases shapes@.len() - i,
    {
        if i > 0 {
            push_char(out, ',');
        }
        push_shape(out, &shapes[i]);
        assert(out@ =~= start + seq!['['] + joined(items, (i + 1) as nat));
        i = i + 1;
    }
    push_char(out, ']');
    assert(out@ =~= start + shapes_array(shapes@));
}

/// The shape array as JSON.
pub fn shapes_json(shapes: &[ParsedShape]) -> (r: String)
    ensures
        r@ == shapes_array(shapes@),
{
    let mut out = String::new();
    push_shapes(&mut out, shapes);
    assert(out@ =~= shapes_array(shapes@));
    out
}

/// The parameter array of a shape as JSON.
pub fn params_json(params: &[ShapeParam]) -> (r: String)
    ensures
        r@ == params_array(params@),
{
    let mut out = String::new();
    push_params(&mut out, params);
    assert(out@ =~= params_array(params@));
    out
}

/// The parameter schema (names and types) as JSON.
pub fn schema_json(params: &[ShapeParam]) -> (r: String)
    ensures
        r@ == schema_array(params@),
{
    let mut out = String::new();
    push_schema(&mut out, params);
    assert(out@ =~= schema_array(params@));
    out
}

fn push_sources(out: &mut String, sources: &Vec<String>)
    ensures
        final(out)@ == old(out)@ + json_array(
            Seq::new(sources@.len(), |i: int| json_str(sources@[i]@)),
        ),
{
    let ghost start = out@;
    let ghost items = Seq::new(sources@.len(), |i: int| json_str(sources@[i]@));
    push_char(out, '[');
    let mut i: usize = 0;
    while i < sources.len()
        invariant
            i <= sources@.len(),
            items == Seq::new(sources@.len(), |i: int| json_str(sources@[i]@)),
            out@ == start + seq!['['] + joined(items, i as nat),
        decreases sources@.len() - i,
    {
        if i > 0 {
            push_char(out, ',');
        }
        push_json_string(out, sources[i].as_str());
        assert(out@ =~= start + seq!['['] + joined(items, (i + 1) as nat));
        i = i + 1;
    }
    push_char(out, ']');
    assert(out@ =~= start + json_array(items));
}

fn push_rule_head(out: &mut String, r: &ParsedRule)
    ensures
        final(out)@ == old(out)@ + seq!['{'] + "\"name\":"@ + json_str(r.name@) + ",\"condition\":"@
            + json_str(r.condition@) + ",\"target_shape\":"@ + json_str(r.target_shape@)
            + ",\"priority\":"@ + decimal(r.priority as nat) + ",\"enabled\":"@ + bool_text(
            r.enabled,
        ),
{
    let ghost start = out@;
    push_char(out, '{');
    push_str(out, "\"name\":");
    push_json_string(out, r.name.as_str());
    push_str(out, ",\"condition\":");
    push_json_string(out, r.condition.as_str());
    push_str(out, ",\"target_shape\":");
    push_json_string(out, r.target_shape.as_str());
    push_str(out, ",\"priority\":");
    let d = u64_to_decimal(r.priority as u64);
    push_str(out, d.as_str());
    push_str(out, ",\"enabled\":");
    if r.enabled {
        push_str(out, "true");
    } else {
        push_str(out, "false");
    }
}

fn push_rule(out: &mut String, r: &ParsedRule)
    ensures
        final(out)@ == old(out)@ + rule_obj(*r),
{
    let ghost start = out@;
    push_rule_head(out, r);
    push_opt_json_str(out, "\"description\":", &r.description);
    let ghost mid = out@;
    if r.source_shapes.len() > 0 {
        push_str(out, ",\"source_shapes\":");
        push_sources(out, &r.source_shapes);
    }
    let ghost mid2 = out@;
    push_opt_u64(out, "\"duration_blocks\":", r.duration_blocks);
    push_char(out, '}');
    assert(out@ =~= start + rule_obj(*r));
}

/// Appends the rule array.
fn push_rules(out: &mut String, rules: &[ParsedRule])
    ensures
        final(out)@ == old(out)@ + rules_array(rules@),
{
    let ghost start = out@;
    let ghost items = Seq::new(rules@.len(), |i: int| rule_obj(rules@[i]));
    push_char(out, '[');
    let mut i: usize = 0;
    while i < rules.len()
        invariant
            i <= rules@.len(),
            items == Seq::new(rules@.len(), |i: int| rule_obj(rules@[i])),
            out@ == start + seq!['['] + joined(items, i as nat),
        decreases rules@.len() - i,
    {
        if i > 0 {
            push_char(out, ',');
        }
        push_rule(out, &rules[i]);
        assert(out@ =~= start + seq!['['] + joined(items, (i + 1) as nat));
        i = i + 1;
    }
    push_char(out, ']');
    assert(out@ =~= start + rules_array(rules@));
}

/// The rule array as JSON.
pub fn rules_json(rules: &[ParsedRule]) -> (r: String)
    ensures
        r@ == rules_array(rules@),
{
    let mut out = String::new();
    push_rules(&mut out, rules);
    assert(out@ =~= rules_array(rules@));
    out
}

/// Builds the shape-set document: version, contract name, default shape,
/// the shapes, an empty rule list, the parameter schema of the first shape
/// and the scheduling arguments that are set.
pub fn build_shape_set_json(
    contract_name: &str,
    default_shape: &str,
    shapes: &[ParsedShape],
    args: &ShapeSetArgs,
) -> (r: String)
    requires
        shapes@.len() > 0,
    ensures
        r@ == shape_set_doc(contract_name@, default_shape@, shapes@, *args),
{
    let mut out = String::new();
    push_char(&mut out, '{');
    push_str(&mut out, "\"version\":1");
    push_str(&mut out, ",\"contract_name\":");
    push_json_string(&mut out, contract_name);
    push_str(&mut out, ",\"default_shape\":");
    push_json_string(&mut out, default_shape);
    push_str(&mut out, ",\"shapes\":");
    push_shapes(&mut out, shapes);
    push_str(&mut out, ",\"evolution_rules\":[]");
    push_str(&mut out, ",\"parameter_schema\":");
    push_schema(&mut out, shapes[0].params.as_slice());
    push_schedule_fields(
        &mut out,
        args.evaluation_interval,
        args.cooldown_blocks,
        args.max_transitions_per_day,
    );
    push_char(&mut out, '}');
    assert(out@ =~= shape_set_doc(contract_name@, default_shape@, shapes@, *args));
    out
}

/// Builds the evolution-rule fragment: version, the rules and the
/// scheduling arguments that are set.
pub fn build_rules_fragment_json(rules: &[ParsedRule], args: &RuleSetArgs) -> (r: String)
    ensures
        r@ == rules_fragment_doc(rules@, *args),
{
    let mut out = String::new();
    push_char(&mut out, '{');
    push_str(&mut out, "\"version\":1");
    push_str(&mut out, ",\"evolution_rules\":");
    push_rules(&mut out, rules);
    push_schedule_fields(
        &mut out,
        args.evaluation_interval,
        args.cooldown_blocks,
        args.max_transitions_per_day,
    );
    push_char(&mut out, '}');
    assert(out@ =~= rules_fragment_doc(rules@, *args));
    out
}

} // verus!
