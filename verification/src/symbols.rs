//! Symbol resolution over the target's debug information, modeled as an
//! immutable tree: compilation units in declaration order, each a pre-order
//! (depth-first) flattening of its debug-information entries.  The resolver
//! only ever reads an entry's category, name, entry address and address-range
//! bound; the loader that walks the container format fills this model in.

use vstd::prelude::*;

verus! {

/// The upper bound of an entry's program-counter range, as the debug format
/// encodes it: either an absolute end address or an offset from the entry
/// address.  Normalized before comparison; both forms exclude the end.
#[derive(Clone, Copy, Debug, PartialEq, Eq, Structural)]
pub enum HighPc {
    Addr(u64),
    Offset(u64),
}

/// One debug-information entry: whether it is in the "subprogram" category,
/// its name, its entry address, its range bound, and its depth in the
/// pre-order traversal (children one deeper than their parent).
#[derive(Clone, Debug)]
pub struct DebugEntry {
    pub subprogram: bool,
    pub name: Option<String>,
    pub low_pc: Option<u64>,
    pub high_pc: Option<HighPc>,
    pub depth: usize,
}

/// One compilation unit: its entries in pre-order.
#[derive(Clone, Debug)]
pub struct DebugUnit {
    pub entries: Vec<DebugEntry>,
}

/// The whole debug-information tree, units in declaration order.
#[derive(Clone, Debug)]
pub struct DebugTree {
    pub units: Vec<DebugUnit>,
}

/// Why a name failed to resolve: absent from every unit, or present but
/// lacking an entry address (malformed debug info).  Distinct, reportable
/// conditions, never a panic.
#[derive(Clone, Copy, Debug, PartialEq, Eq, Structural)]
pub enum SymbolError {
    NotFound,
    MissingEntryAddress,
}

/// The entry is a subprogram whose name equals `name` byte for byte.
pub open spec fn entry_matches(e: DebugEntry, name: Seq<char>) -> bool {
    e.subprogram && e.name is Some && e.name->0@ == name
}

/// `(i, j)` indexes a valid entry of the tree.
pub open spec fn valid_index(t: DebugTree, i: int, j: int) -> bool {
    0 <= i < t.units@.len() && 0 <= j < t.units@[i].entries@.len()
}

/// The entry at `(i, j)` matches and no entry before it — earlier in its
/// unit, or anywhere in an earlier unit — does: the documented tie-break for
/// duplicate names.
pub open spec fn is_first_match(t: DebugTree, name: Seq<char>, i: int, j: int) -> bool {
    &&& valid_index(t, i, j)
    &&& entry_matches(t.units@[i].entries@[j], name)
    &&& forall|j2: int| 0 <= j2 < j ==> !entry_matches(#[trigger] t.units@[i].entries@[j2], name)
    &&& forall|i2: int, j2: int|
        0 <= i2 < i && 0 <= j2 < t.units@[i2].entries@.len() ==> !entry_matches(
            #[trigger] t.units@[i2].entries@[j2],
            name,
        )
}

/// Some entry of the tree matches `name`.
pub open spec fn has_match(t: DebugTree, name: Seq<char>) -> bool {
    exists|i: int, j: int|
        valid_index(t, i, j) && entry_matches(#[trigger] t.units@[i].entries@[j], name)
}

/// Finds the entry address of the named function: a depth-first traversal
/// over every compilation unit, taking the first subprogram entry whose name
/// equals `name` exactly.
pub fn resolve_function(tree: &DebugTree, name: &str) -> (r: Result<u64, SymbolError>)
    ensures
        match r {
            Ok(a) => exists|i: int, j: int|
                #[trigger] is_first_match(*tree, name@, i, j) && tree.units@[i].entries@[j].low_pc
                    == Some(a),
            Err(e) => match e {
                SymbolError::NotFound => !has_match(*tree, name@),
                SymbolError::MissingEntryAddress => exists|i: int, j: int|
                    #[trigger] is_first_match(*tree, name@, i, j)
                        && tree.units@[i].entries@[j].low_pc is None,
            },
        },
{
    let target: String = name.to_owned();
    let nu = tree.units.len();
    let mut i: usize = 0;
    while i < nu
        invariant
            nu == tree.units@.len(),
            i <= nu,
            target@ == name@,
            forall|i2: int, j2: int|
                0 <= i2 < i && 0 <= j2 < tree.units@[i2].entries@.len() ==> !entry_matches(
                    #[trigger] tree.units@[i2].entries@[j2],
                    name@,
                ),
        decreases nu - i,
    {
        let unit = &tree.units[i];
        let ne = unit.entries.len();
        let mut j: usize = 0;
        while j < ne
            invariant
                nu == tree.units@.len(),
                i < nu,
                ne == tree.units@[i as int].entries@.len(),
                j <= ne,
                target@ == name@,
                unit == tree.units@[i as int],
                forall|i2: int, j2: int|
                    0 <= i2 < i && 0 <= j2 < tree.units@[i2].entries@.len() ==> !entry_matches(
                        #[trigger] tree.units@[i2].entries@[j2],
                        name@,
                    ),
                forall|j2: int|
                    0 <= j2 < j ==> !entry_matches(
                        #[trigger] tree.units@[i as int].entries@[j2],
                        name@,
                    ),
            decreases ne - j,
        {
            let e = &unit.entries[j];
            let hit = e.subprogram && match &e.name {
                Some(s) => s.eq(&target),
                None => false,
            };
            if hit {
                proof {
                    assert(is_first_match(*tree, name@, i as int, j as int));
                }
                return match e.low_pc {
                    Some(a) => Ok(a),
                    None => Err(SymbolError::MissingEntryAddress),
                };
            }
            j = j + 1;
        }
        i = i + 1;
    }
    proof {
        assert forall|i2: int, j2: int|
            valid_index(*tree, i2, j2) implies !entry_matches(
            tree.units@[i2].entries@[j2],
            name@,
        ) by {}
    }
    Err(SymbolError::NotFound)
}

/// The entry's program-counter range contains `pc`: inclusive at the entry
/// address, exclusive at the normalized end (an absolute `high_pc` is the end
/// address itself; an offset form ends at `low_pc + offset`).
pub open spec fn entry_covers(e: DebugEntry, pc: u64) -> bool {
    match (e.low_pc, e.high_pc) {
        (Some(l), Some(HighPc::Addr(h))) => l <= pc && (pc as int) < h as int,
        (Some(l), Some(HighPc::Offset(o))) => l <= pc && (pc as int) < l as int + o as int,
        _ => false,
    }
}

/// The entry at `(i, j)` covers `pc` and is innermost: every other covering
/// entry is shallower, or equally deep but later in traversal order.
pub open spec fn is_innermost_cover(t: DebugTree, pc: u64, i: int, j: int) -> bool {
    &&& valid_index(t, i, j)
    &&& entry_covers(t.units@[i].entries@[j], pc)
    &&& forall|i2: int, j2: int|
        valid_index(t, i2, j2) && entry_covers(#[trigger] t.units@[i2].entries@[j2], pc) ==> {
            ||| t.units@[i2].entries@[j2].depth < t.units@[i].entries@[j].depth
            ||| (t.units@[i2].entries@[j2].depth == t.units@[i].entries@[j].depth && (i < i2 || (i
                == i2 && j <= j2)))
        }
}

/// Some entry of the tree covers `pc`.
pub open spec fn has_cover(t: DebugTree, pc: u64) -> bool {
    exists|i: int, j: int|
        valid_index(t, i, j) && entry_covers(#[trigger] t.units@[i].entries@[j], pc)
}

fn covers(e: &DebugEntry, pc: u64) -> (r: bool)
    ensures
        r == entry_covers(*e, pc),
{
    match (&e.low_pc, &e.high_pc) {
        (Some(l), Some(HighPc::Addr(h))) => *l <= pc && pc < *h,
        (Some(l), Some(HighPc::Offset(o))) => *l <= pc && pc - *l < *o,
        _ => false,
    }
}

/// Finds the innermost entry whose program-counter range contains `pc`,
/// returned as `(unit index, entry index)`; ties on depth resolve to the
/// first entry in traversal order.
pub fn resolve_pc(tree: &DebugTree, pc: u64) -> (r: Option<(usize, usize)>)
    ensures
        match r {
            Some(p) => is_innermost_cover(*tree, pc, p.0 as int, p.1 as int),
            None => !has_cover(*tree, pc),
        },
{
    let nu = tree.units.len();
    let mut best: Option<(usize, usize)> = None;
    let mut i: usize = 0;
    while i < nu
        invariant
            nu == tree.units@.len(),
            i <= nu,
            match best {
                Some(p) => {
                    &&& valid_index(*tree, p.0 as int, p.1 as int)
                    &&& (p.0 as int) < i as int
                    &&& entry_covers(tree.units@[p.0 as int].entries@[p.1 as int], pc)
                    &&& forall|i2: int, j2: int|
                        0 <= i2 < i && 0 <= j2 < tree.units@[i2].entries@.len() && entry_covers(
                            #[trigger] tree.units@[i2].entries@[j2],
                            pc,
                        ) ==> {
                            ||| tree.units@[i2].entries@[j2].depth
                                < tree.units@[p.0 as int].entries@[p.1 as int].depth
                            ||| (tree.units@[i2].entries@[j2].depth
                                == tree.units@[p.0 as int].entries@[p.1 as int].depth && ((
                            p.0 as int) < i2 || (p.0 as int == i2 && p.1 as int <= j2)))
                        }
                },
                None => forall|i2: int, j2: int|
                    0 <= i2 < i && 0 <= j2 < tree.units@[i2].entries@.len() ==> !entry_covers(
                        #[trigger] tree.units@[i2].entries@[j2],
                        pc,
                    ),
            },
        decreases nu - i,
    {
        let unit = &tree.units[i];
        let ne = unit.entries.len();
        let mut j: usize = 0;
        while j < ne
            invariant
                nu == tree.units@.len(),
                i < nu,
                ne == tree.units@[i as int].entries@.len(),
                j <= ne,
                unit == tree.units@[i as int],
                match best {
                    Some(p) => {
                        &&& valid_index(*tree, p.0 as int, p.1 as int)
                        &&& ((p.0 as int) < i as int || (p.0 as int == i as int && (p.1 as int)
                            < j as int))
                        &&& entry_covers(tree.units@[p.0 as int].entries@[p.1 as int], pc)
                        &&& forall|i2: int, j2: int|
                            0 <= i2 < tree.units@.len() && 0 <= j2
                                < tree.units@[i2].entries@.len() && (i2 < i as int || (i2
                                == i as int && j2 < j as int)) && entry_covers(
                                #[trigger] tree.units@[i2].entries@[j2],
                                pc,
                            ) ==> {
                                ||| tree.units@[i2].entries@[j2].depth
                                    < tree.units@[p.0 as int].entries@[p.1 as int].depth
                                ||| (tree.units@[i2].entries@[j2].depth
                                    == tree.units@[p.0 as int].entries@[p.1 as int].depth && ((
                                p.0 as int) < i2 || (p.0 as int == i2 && p.1 as int <= j2)))
                            }
                    },
                    None => forall|i2: int, j2: int|
                        0 <= i2 < tree.units@.len() && 0 <= j2 < tree.units@[i2].entries@.len()
                            && (i2 < i as int || (i2 == i as int && j2 < j as int))
                            ==> !entry_covers(#[trigger] tree.units@[i2].entries@[j2], pc),
                },
            decreases ne - j,
        {
            let e = &unit.entries[j];
            if covers(e, pc) {
                let better = match best {
                    Some((bi, bj)) => {
                        let bd = tree.units[bi].entries[bj].depth;
                        e.depth > bd
                    },
                    None => true,
                };
                if better {
                    best = Some((i, j));
                }
            }
            j = j + 1;
        }
        i = i + 1;
    }
    best
}

} // verus!
