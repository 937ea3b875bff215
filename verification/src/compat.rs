//! Storage-layout compatibility: every variable declared in the original
//! layout must occupy the same slot and byte offset in the current layout.
//! Variables that exist only in the current layout are permitted (layout
//! growth is backward-compatible), and declared type names are deliberately
//! not compared: only slot and offset gate compatibility.

use vstd::prelude::*;

use crate::layout::StorageLayout;
use crate::layout::StorageVariable;
use crate::layout::key_eq;
use crate::layout::same_location;
use crate::layout::shape_eq;

verus! {

/// Why two layouts are incompatible. Each variant names the label of the
/// original variable on which the check stopped.
#[derive(Debug, PartialEq, Eq, Clone)]
pub enum CompatibilityError {
    /// The original variable's (contract, label) key is absent from the
    /// current layout.
    MissingVariable(String),
    /// The current layout declares the variable at a different slot or
    /// byte offset.
    LayoutMismatch(String),
}

/// Mathematical outcome of a compatibility check, with labels abstracted
/// to character sequences.
pub enum CheckOutcome {
    Pass,
    MissingVariable(Seq<char>),
    LayoutMismatch(Seq<char>),
}

/// The outcome that an executable check result denotes.
pub open spec fn outcome_of(r: Result<(), CompatibilityError>) -> CheckOutcome {
    match r {
        Ok(_) => CheckOutcome::Pass,
        Err(CompatibilityError::MissingVariable(l)) => CheckOutcome::MissingVariable(l@),
        Err(CompatibilityError::LayoutMismatch(l)) => CheckOutcome::LayoutMismatch(l@),
    }
}

/// The current variable matched by `v`'s identity key: the last variable in
/// `cur` whose (contract, label) equals `v`'s, if any. Taking the last
/// occurrence makes later duplicates overwrite earlier ones, as a lookup
/// table built front to back would.
pub open spec fn lookup(cur: Seq<StorageVariable>, v: StorageVariable) -> Option<StorageVariable>
    decreases cur.len(),
{
    if cur.len() == 0 {
        None
    } else if key_eq(cur.last(), v) {
        Some(cur.last())
    } else {
        lookup(cur.drop_last(), v)
    }
}

/// Whether the original variable `v` is compatible with `cur`: its key is
/// present there and the matched variable occupies the same location.
pub open spec fn passes(cur: Seq<StorageVariable>, v: StorageVariable) -> bool {
    match lookup(cur, v) {
        Some(c) => same_location(v, c),
        None => false,
    }
}

/// The outcome of checking the original variables `orig`, in declaration
/// order, against the current variables `cur`: the first missing key or
/// moved variable decides, and only when every original variable passes is
/// the pair compatible.
pub open spec fn spec_check(orig: Seq<StorageVariable>, cur: Seq<StorageVariable>) -> CheckOutcome
    decreases orig.len(),
{
    if orig.len() == 0 {
        CheckOutcome::Pass
    } else {
        match lookup(cur, orig.first()) {
            Option::None => CheckOutcome::MissingVariable(orig.first().label@),
            Option::Some(c) => if !same_location(orig.first(), c) {
                CheckOutcome::LayoutMismatch(orig.first().label@)
            } else {
                spec_check(orig.drop_first(), cur)
            },
        }
    }
}

/// Index of the last variable in `cur` whose identity key equals `v`'s.
fn find_last_match(cur: &Vec<StorageVariable>, v: &StorageVariable) -> (r: Option<usize>)
    ensures
        match r {
            Some(j) => j < cur@.len() && lookup(cur@, *v) == Some(cur@[j as int]),
            None => lookup(cur@, *v) is None,
        },
{
    let mut j: usize = cur.len();
    proof {
        assert(cur@.take(j as int) =~= cur@);
    }
    while j > 0
        invariant
            j <= cur@.len(),
            lookup(cur@, *v) == lookup(cur@.take(j as int), *v),
        decreases j,
    {
        let k: usize = j - 1;
        let c = &cur[k];
        proof {
            assert(cur@.take(j as int).last() == cur@[k as int]);
            assert(cur@.take(j as int).drop_last() =~= cur@.take(k as int));
        }
        if c.contract == v.contract && c.label == v.label {
            return Some(k);
        }
        j = k;
    }
    proof {
        assert(cur@.take(0) =~= Seq::<StorageVariable>::empty());
    }
    None
}

/// Check that the current storage layout is compatible with the original
/// one: each variable of the original layout must keep its slot and byte
/// offset in the current layout. Stops at the first incompatibility, in the
/// original's declaration order; variables only present in the current
/// layout are ignored.
pub fn check_storage_layout_compatibility(
    original: &StorageLayout,
    current: &StorageLayout,
) -> (r: Result<(), CompatibilityError>)
    ensures
        outcome_of(r) == spec_check(original.storage@, current.storage@),
{
    let ghost orig: Seq<StorageVariable> = original.storage@;
    let ghost cur: Seq<StorageVariable> = current.storage@;
    let n: usize = original.storage.len();
    let mut i: usize = 0;
    proof {
        assert(orig.skip(0) =~= orig);
    }
    while i < n
        invariant
            i <= n,
            n == orig.len(),
            orig == original.storage@,
            cur == current.storage@,
            spec_check(orig, cur) == spec_check(orig.skip(i as int), cur),
        decreases n - i,
    {
        let v = &original.storage[i];
        proof {
            assert(orig.skip(i as int).first() == orig[i as int]);
        }
        match find_last_match(&current.storage, v) {
            None => {
                return Err(CompatibilityError::MissingVariable(v.label.clone()));
            },
            Some(j) => {
                let c = &current.storage[j];
                if v.offset != c.offset || !(v.slot == c.slot) {
                    return Err(CompatibilityError::LayoutMismatch(v.label.clone()));
                }
            },
        }
        proof {
            assert(orig.skip(i as int).drop_first() =~= orig.skip(i as int + 1));
        }
        i = i + 1;
    }
    proof {
        assert(orig.skip(n as int) =~= Seq::<StorageVariable>::empty());
    }
    Ok(())
}

/// Check the tweak compatibility of a cloned project: its freshly compiled
/// storage layout must be compatible with the layout of the original
/// deployed contract. The caller supplies the original layout from the
/// contract's metadata and the layout of the project's main artifact, which
/// must be present.
pub fn check_storage_compatibility(
    original: &StorageLayout,
    current: &Option<StorageLayout>,
) -> (r: Result<(), CompatibilityError>)
    requires
        (*current) is Some,
    ensures
        outcome_of(r) == spec_check(original.storage@, current->Some_0.storage@),
{
    match current {
        Some(cur) => check_storage_layout_compatibility(original, cur),
        // unreachable: the precondition guarantees a layout is present
        None => Ok(()),
    }
}

/// The matched variable, when there is one, shares `v`'s identity key and is
/// an element of `cur`; when there is none, no element of `cur` shares it.
pub proof fn lemma_lookup_properties(cur: Seq<StorageVariable>, v: StorageVariable)
    ensures
        match lookup(cur, v) {
            Option::Some(c) => key_eq(c, v) && exists|j: int| 0 <= j < cur.len() && cur[j] == c,
            Option::None => forall|j: int| 0 <= j < cur.len() ==> !key_eq(cur[j], v),
        },
    decreases cur.len(),
{
    if cur.len() == 0 {
    } else if key_eq(cur.last(), v) {
        assert(cur[cur.len() - 1] == cur.last());
    } else {
        lemma_lookup_properties(cur.drop_last(), v);
        match lookup(cur.drop_last(), v) {
            Option::Some(c) => {
                let j = choose|j: int| 0 <= j < cur.drop_last().len() && cur.drop_last()[j] == c;
                assert(cur[j] == c);
            },
            Option::None => {
                assert forall|j: int| 0 <= j < cur.len() implies !key_eq(cur[j], v) by {
                    if j < cur.len() - 1 {
                        assert(cur.drop_last()[j] == cur[j]);
                    } else {
                        assert(cur[j] == cur.last());
                    }
                }
            },
        }
    }
}

/// The check passes exactly when every original variable passes against the
/// current layout.
pub proof fn lemma_check_pass_iff(orig: Seq<StorageVariable>, cur: Seq<StorageVariable>)
    ensures
        (spec_check(orig, cur) == CheckOutcome::Pass) <==> (forall|i: int|
            0 <= i < orig.len() ==> passes(cur, #[trigger] orig[i])),
    decreases orig.len(),
{
    if orig.len() == 0 {
    } else {
        let rest = orig.drop_first();
        lemma_check_pass_iff(rest, cur);
        assert(orig.first() == orig[0]);
        assert(forall|i: int| 0 <= i < rest.len() ==> #[trigger] rest[i] == orig[i + 1]);
        if passes(cur, orig[0]) {
            if forall|i: int| 0 <= i < orig.len() ==> passes(cur, #[trigger] orig[i]) {
                assert forall|i: int| 0 <= i < rest.len() implies passes(cur, #[trigger] rest[i]) by {
                    assert(rest[i] == orig[i + 1]);
                }
            }
            if spec_check(orig, cur) == CheckOutcome::Pass {
                assert forall|i: int| 0 <= i < orig.len() implies passes(cur, #[trigger] orig[i]) by {
                    if i >= 1 {
                        assert(orig[i] == rest[i - 1]);
                    }
                }
            }
        } else {
            assert(spec_check(orig, cur) != CheckOutcome::Pass);
            assert(!passes(cur, orig[0]));
        }
    }
}

/// The check reports the first original variable that fails, in declaration
/// order: a missing key as `MissingVariable`, a moved variable as
/// `LayoutMismatch`, in each case naming that variable's label.
pub proof fn lemma_check_first_failure(
    orig: Seq<StorageVariable>,
    cur: Seq<StorageVariable>,
    i: int,
)
    requires
        0 <= i < orig.len(),
        forall|k: int| 0 <= k < i ==> passes(cur, #[trigger] orig[k]),
        !passes(cur, orig[i]),
    ensures
        lookup(cur, orig[i]) is None ==> spec_check(orig, cur)
            == CheckOutcome::MissingVariable(orig[i].label@),
        lookup(cur, orig[i]) is Some ==> spec_check(orig, cur)
            == CheckOutcome::LayoutMismatch(orig[i].label@),
    decreases i,
{
    assert(orig.first() == orig[0]);
    if i == 0 {
    } else {
        let rest = orig.drop_first();
        assert(passes(cur, orig[0]));
        assert(forall|k: int| 0 <= k < rest.len() ==> #[trigger] rest[k] == orig[k + 1]);
        assert forall|k: int| 0 <= k < i - 1 implies passes(cur, #[trigger] rest[k]) by {
            assert(rest[k] == orig[k + 1]);
        }
        assert(rest[i - 1] == orig[i]);
        lemma_check_first_failure(rest, cur, i - 1);
    }
}

/// Reflexivity: a layout is compatible with itself, provided its variables
/// agree on location wherever they share an identity key — in particular
/// whenever its (contract, label) keys are distinct, as a well-formed
/// layout's are.
pub proof fn lemma_check_reflexive(l: Seq<StorageVariable>)
    requires
        forall|i: int, j: int|
            0 <= i < l.len() && 0 <= j < l.len() && key_eq(#[trigger] l[i], #[trigger] l[j])
                ==> same_location(l[i], l[j]),
    ensures
        spec_check(l, l) == CheckOutcome::Pass,
{
    assert forall|i: int| 0 <= i < l.len() implies passes(l, #[trigger] l[i]) by {
        lemma_lookup_properties(l, l[i]);
        match lookup(l, l[i]) {
            Option::Some(c) => {
                let j = choose|j: int| 0 <= j < l.len() && l[j] == c;
                assert(key_eq(l[i], l[j]));
            },
            Option::None => {
                assert(key_eq(l[i], l[i]));
            },
        }
    }
    lemma_check_pass_iff(l, l);
}

/// Monotonic addition: when the current layout has distinct identity keys
/// and contains every original variable's key at the same location, the
/// check passes, whatever extra variables the current layout declares.
pub proof fn lemma_check_monotonic(orig: Seq<StorageVariable>, cur: Seq<StorageVariable>)
    requires
        forall|i: int, j: int|
            0 <= i < cur.len() && 0 <= j < cur.len() && i != j
                ==> !key_eq(#[trigger] cur[i], #[trigger] cur[j]),
        forall|i: int|
            0 <= i < orig.len() ==> exists|j: int|
                0 <= j < cur.len() && key_eq(#[trigger] cur[j], #[trigger] orig[i])
                    && same_location(orig[i], cur[j]),
    ensures
        spec_check(orig, cur) == CheckOutcome::Pass,
{
    assert forall|i: int| 0 <= i < orig.len() implies passes(cur, #[trigger] orig[i]) by {
        let j = choose|j: int|
            0 <= j < cur.len() && key_eq(#[trigger] cur[j], orig[i])
                && same_location(orig[i], cur[j]);
        lemma_lookup_properties(cur, orig[i]);
        match lookup(cur, orig[i]) {
            Option::Some(c) => {
                let j2 = choose|j2: int| 0 <= j2 < cur.len() && cur[j2] == c;
                assert(key_eq(cur[j2], cur[j]));
                assert(j2 == j);
            },
            Option::None => {
                assert(!key_eq(cur[j], orig[i]));
            },
        }
    }
    lemma_check_pass_iff(orig, cur);
}

/// Two variable lists agree position by position on everything the check
/// reads: identity keys and locations.
pub open spec fn shapes_eq(s1: Seq<StorageVariable>, s2: Seq<StorageVariable>) -> bool {
    s1.len() == s2.len() && forall|i: int|
        0 <= i < s1.len() ==> shape_eq(#[trigger] s1[i], #[trigger] s2[i])
}

proof fn lemma_lookup_ignores_declared_types(
    cur1: Seq<StorageVariable>,
    cur2: Seq<StorageVariable>,
    v1: StorageVariable,
    v2: StorageVariable,
)
    requires
        shapes_eq(cur1, cur2),
        shape_eq(v1, v2),
    ensures
        match (lookup(cur1, v1), lookup(cur2, v2)) {
            (Option::Some(c1), Option::Some(c2)) => shape_eq(c1, c2),
            (Option::None, Option::None) => true,
            _ => false,
        },
    decreases cur1.len(),
{
    if cur1.len() == 0 {
    } else {
        assert(cur1.last() == cur1[cur1.len() - 1]);
        assert(cur2.last() == cur2[cur2.len() - 1]);
        assert(shape_eq(cur1.last(), cur2.last()));
        if key_eq(cur1.last(), v1) {
        } else {
            assert(forall|i: int|
                0 <= i < cur1.drop_last().len() ==> #[trigger] cur1.drop_last()[i] == cur1[i]
                    && #[trigger] cur2.drop_last()[i] == cur2[i]);
            lemma_lookup_ignores_declared_types(cur1.drop_last(), cur2.drop_last(), v1, v2);
        }
    }
}

/// Type-only divergence is invisible to the check: two pairs of layouts
/// whose variables agree position by position on contract, label, slot and
/// offset check to the same outcome, however their declared types (and so
/// any member layouts those types carry) and ast ids differ.
pub proof fn lemma_check_ignores_declared_types(
    orig1: Seq<StorageVariable>,
    cur1: Seq<StorageVariable>,
    orig2: Seq<StorageVariable>,
    cur2: Seq<StorageVariable>,
)
    requires
        shapes_eq(orig1, orig2),
        shapes_eq(cur1, cur2),
    ensures
        spec_check(orig1, cur1) == spec_check(orig2, cur2),
    decreases orig1.len(),
{
    if orig1.len() == 0 {
    } else {
        assert(orig1.first() == orig1[0]);
        assert(orig2.first() == orig2[0]);
        assert(shape_eq(orig1.first(), orig2.first()));
        lemma_lookup_ignores_declared_types(cur1, cur2, orig1.first(), orig2.first());
        match (lookup(cur1, orig1.first()), lookup(cur2, orig2.first())) {
            (Option::Some(c1), Option::Some(c2)) => {
                if same_location(orig1.first(), c1) {
                    assert(forall|i: int|
                        0 <= i < orig1.drop_first().len()
                            ==> #[trigger] orig1.drop_first()[i] == orig1[i + 1]
                            && #[trigger] orig2.drop_first()[i] == orig2[i + 1]);
                    lemma_check_ignores_declared_types(
                        orig1.drop_first(),
                        cur1,
                        orig2.drop_first(),
                        cur2,
                    );
                }
            },
            _ => {},
        }
    }
}

/// Missing key: when the original variable at position `i` is the first
/// whose key is absent from the current layout, the check fails with
/// `MissingVariable` naming that variable.
pub proof fn lemma_missing_variable_detected(
    orig: Seq<StorageVariable>,
    cur: Seq<StorageVariable>,
    i: int,
)
    requires
        0 <= i < orig.len(),
        forall|k: int| 0 <= k < i ==> passes(cur, #[trigger] orig[k]),
        lookup(cur, orig[i]) is None,
    ensures
        spec_check(orig, cur) == CheckOutcome::MissingVariable(orig[i].label@),
{
    lemma_check_first_failure(orig, cur, i);
}

/// Slot/offset drift: when the original variable at position `i` is the
/// first to fail and its key is present in the current layout (so its
/// matched variable sits at a different location), the check fails with
/// `LayoutMismatch` naming that variable.
pub proof fn lemma_layout_mismatch_detected(
    orig: Seq<StorageVariable>,
    cur: Seq<StorageVariable>,
    i: int,
)
    requires
        0 <= i < orig.len(),
        forall|k: int| 0 <= k < i ==> passes(cur, #[trigger] orig[k]),
        !passes(cur, orig[i]),
        lookup(cur, orig[i]) is Some,
    ensures
        spec_check(orig, cur) == CheckOutcome::LayoutMismatch(orig[i].label@),
{
    lemma_check_first_failure(orig, cur, i);
}

} // verus!
