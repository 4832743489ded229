//! The dispatch table of a contract: which methods of its impl block are
//! the initializer, the state-changing calls and the read-only views, and
//! the selector each call and view is dispatched under.
use vstd::prelude::*;
use vstd::string::StringSliceAdditionalSpecFns;
use crate::schema::{calculate_selector, fnv1a};

verus! {

/// The role an attribute gives a method of a contract impl block.
#[derive(Clone, Copy, Debug, PartialEq, Eq, Structural)]
pub enum EntryRole {
    /// `#[init]`: the initializer.
    Init,
    /// `#[call]`: a state-changing entry point.
    Call,
    /// `#[view]`: a read-only entry point.
    View,
    /// Any other attribute.
    Other,
}

/// How many of the attributes give the role.
pub open spec fn role_count(attrs: Seq<EntryRole>, role: EntryRole) -> nat
    decreases attrs.len(),
{
    if attrs.len() == 0 {
        0
    } else {
        role_count(attrs.drop_last(), role) + if attrs.last() == role { 1nat } else { 0nat }
    }
}

/// The entries of a role, method by method in order: for each attribute of
/// a method that gives the role, the method's index and the selector of its
/// name.
pub open spec fn role_entries(methods: Seq<(&str, Vec<EntryRole>)>, role: EntryRole) -> Seq<(usize, u32)>
    decreases methods.len(),
{
    if methods.len() == 0 {
        Seq::empty()
    } else {
        let i = (methods.len() - 1) as usize;
        let m = methods.last();
        role_entries(methods.drop_last(), role) + Seq::new(
            role_count(m.1@, role),
            |k: int| (i, fnv1a(m.0.spec_bytes())),
        )
    }
}

/// Whether some method carries the init attribute.
pub open spec fn has_init(methods: Seq<(&str, Vec<EntryRole>)>) -> bool {
    exists|i: int| 0 <= i < methods.len() && role_count(#[trigger] methods[i].1@, EntryRole::Init) > 0
}

/// The dispatch table of a contract impl block.
pub struct DispatchTable {
    /// Whether a method is marked as the initializer.
    pub has_init: bool,
    /// The calls: method index and selector.
    pub calls: Vec<(usize, u32)>,
    /// The views: method index and selector.
    pub views: Vec<(usize, u32)>,
}

/// Appends the entries one method gives a role.
fn push_role_entries(out: &mut Vec<(usize, u32)>, index: usize, selector: u32, attrs: &Vec<EntryRole>, role: EntryRole)
    ensures
        final(out)@ == old(out)@ + Seq::new(role_count(attrs@, role), |k: int| (index, selector)),
{
    let ghost start = out@;
    let mut j: usize = 0;
    while j < attrs.len()
        invariant
            j <= attrs@.len(),
            out@ == start + Seq::new(role_count(attrs@.take(j as int), role), |k: int| (index, selector)),
        decreases attrs@.len() - j,
    {
        proof {
            assert(attrs@.take(j + 1).drop_last() =~= attrs@.take(j as int));
        }
        if attrs[j] == role {
            out.push((index, selector));
        }
        proof {
            assert(out@ =~= start + Seq::new(role_count(attrs@.take(j + 1), role), |k: int| (index, selector)));
        }
        j = j + 1;
    }
    assert(attrs@.take(attrs@.len() as int) =~= attrs@);
}

/// Builds the dispatch table of a contract from its methods, each given by
/// its name and the roles of its attributes in order: whether one is the
/// initializer, and the calls and views with their selectors, in the order
/// the attributes appear.
pub fn dispatch_table(methods: &[(&str, Vec<EntryRole>)]) -> (r: DispatchTable)
    ensures
        r.has_init == has_init(methods@),
        r.calls@ == role_entries(methods@, EntryRole::Call),
        r.views@ == role_entries(methods@, EntryRole::View),
{
    let mut has: bool = false;
    let mut calls: Vec<(usize, u32)> = Vec::new();
    let mut views: Vec<(usize, u32)> = Vec::new();
    let mut i: usize = 0;
    while i < methods.len()
        invariant
            i <= methods@.len(),
            calls@ == role_entries(methods@.take(i as int), EntryRole::Call),
            views@ == role_entries(methods@.take(i as int), EntryRole::View),
            has == has_init(methods@.take(i as int)),
        decreases methods@.len() - i,
    {
        let name: &str = methods[i].0;
        let attrs = &methods[i].1;
        let selector = calculate_selector(name);
        proof {
            let t = methods@.take(i + 1);
            assert(t.drop_last() =~= methods@.take(i as int));
            assert(t.last() == methods@[i as int]);
        }
        push_role_entries(&mut calls, i, selector, attrs, EntryRole::Call);
        push_role_entries(&mut views, i, selector, attrs, EntryRole::View);
        let mut k: usize = 0;
        let mut marks_init: bool = false;
        while k < attrs.len()
            invariant
                k <= attrs@.len(),
                marks_init == (role_count(attrs@.take(k as int), EntryRole::Init) > 0),
            decreases attrs@.len() - k,
        {
            proof {
                assert(attrs@.take(k + 1).drop_last() =~= attrs@.take(k as int));
            }
            if attrs[k] == EntryRole::Init {
                marks_init = true;
            }
            k = k + 1;
        }
        proof {
            assert(attrs@.take(attrs@.len() as int) =~= attrs@);
            let t = methods@.take(i + 1);
            let p = methods@.take(i as int);
            if has_init(t) {
                let w = choose|w: int| 0 <= w < t.len() && role_count(#[trigger] t[w].1@, EntryRole::Init) > 0;
                if w < i {
                    assert(p[w] == t[w]);
                }
            }
            if has_init(p) {
                let w = choose|w: int| 0 <= w < p.len() && role_count(#[trigger] p[w].1@, EntryRole::Init) > 0;
                assert(p[w] == t[w]);
            }
            if marks_init {
                assert(t[i as int] == methods@[i as int]);
            }
        }
        has = has || marks_init;
        i = i + 1;
    }
    assert(methods@.take(methods@.len() as int) =~= methods@);
    DispatchTable { has_init: has, calls, views }
}

} // verus!
