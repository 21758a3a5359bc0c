//! First and last positions in a sequence of flags, as lookups by key need
//! them.

use vstd::prelude::*;

verus! {

/// `i` is the first position whose flag is set.
pub open spec fn is_first_true(flags: Seq<bool>, i: int) -> bool {
    &&& 0 <= i < flags.len()
    &&& flags[i]
    &&& forall|j: int| 0 <= j < i ==> !#[trigger] flags[j]
}

/// `i` is the last position whose flag is set.
pub open spec fn is_last_true(flags: Seq<bool>, i: int) -> bool {
    &&& 0 <= i < flags.len()
    &&& flags[i]
    &&& forall|j: int| i < j < flags.len() ==> !#[trigger] flags[j]
}

/// The first position whose flag is set, if any flag is.
pub open spec fn first_true(flags: Seq<bool>) -> Option<int> {
    if exists|i: int| is_first_true(flags, i) {
        Some(choose|i: int| is_first_true(flags, i))
    } else {
        None
    }
}

/// The last position whose flag is set, if any flag is.
pub open spec fn last_true(flags: Seq<bool>) -> Option<int> {
    if exists|i: int| is_last_true(flags, i) {
        Some(choose|i: int| is_last_true(flags, i))
    } else {
        None
    }
}

/// No flag is set.
pub open spec fn none_true(flags: Seq<bool>) -> bool {
    forall|j: int| 0 <= j < flags.len() ==> !#[trigger] flags[j]
}

proof fn lemma_some_first(flags: Seq<bool>, j: int)
    requires
        0 <= j < flags.len(),
        flags[j],
    ensures
        exists|i: int| is_first_true(flags, i),
    decreases j,
{
    if forall|k: int| 0 <= k < j ==> !#[trigger] flags[k] {
        assert(is_first_true(flags, j));
    } else {
        let k = choose|k: int| 0 <= k < j && #[trigger] flags[k];
        lemma_some_first(flags, k);
    }
}

proof fn lemma_some_last(flags: Seq<bool>, j: int)
    requires
        0 <= j < flags.len(),
        flags[j],
    ensures
        exists|i: int| is_last_true(flags, i),
    decreases flags.len() - j,
{
    if forall|k: int| j < k < flags.len() ==> !#[trigger] flags[k] {
        assert(is_last_true(flags, j));
    } else {
        let k = choose|k: int| j < k < flags.len() && #[trigger] flags[k];
        lemma_some_last(flags, k);
    }
}

/// The first set position is the one that `first_true` names.
pub proof fn lemma_first_true_is(flags: Seq<bool>, i: int)
    requires
        is_first_true(flags, i),
    ensures
        first_true(flags) == Some(i),
{
    let c = choose|c: int| is_first_true(flags, c);
    assert(is_first_true(flags, c));
    if c < i {
        assert(!flags[c]);
    } else if i < c {
        assert(!flags[i]);
    }
}

/// The last set position is the one that `last_true` names.
pub proof fn lemma_last_true_is(flags: Seq<bool>, i: int)
    requires
        is_last_true(flags, i),
    ensures
        last_true(flags) == Some(i),
{
    let c = choose|c: int| is_last_true(flags, c);
    assert(is_last_true(flags, c));
    if c < i {
        assert(!flags[i]);
    } else if i < c {
        assert(!flags[c]);
    }
}

/// What `first_true` names is the first set position; it names none only
/// where no flag is set.
pub proof fn lemma_first_true(flags: Seq<bool>)
    ensures
        match first_true(flags) {
            Some(i) => is_first_true(flags, i),
            None => none_true(flags),
        },
{
    if first_true(flags) is None {
        assert forall|j: int| 0 <= j < flags.len() implies !#[trigger] flags[j] by {
            if flags[j] {
                lemma_some_first(flags, j);
            }
        }
    }
}

/// What `last_true` names is the last set position; it names none only
/// where no flag is set.
pub proof fn lemma_last_true(flags: Seq<bool>)
    ensures
        match last_true(flags) {
            Some(i) => is_last_true(flags, i),
            None => none_true(flags),
        },
{
    if last_true(flags) is None {
        assert forall|j: int| 0 <= j < flags.len() implies !#[trigger] flags[j] by {
            if flags[j] {
                lemma_some_last(flags, j);
            }
        }
    }
}

/// Where no flag is set, neither search names a position.
pub proof fn lemma_none_true(flags: Seq<bool>)
    requires
        none_true(flags),
    ensures
        first_true(flags) is None,
        last_true(flags) is None,
{
    if first_true(flags) is Some {
        lemma_first_true(flags);
    }
    if last_true(flags) is Some {
        lemma_last_true(flags);
    }
}

/// Appending a flag keeps the first set position, and makes the new
/// position the first one only where none was set before.
pub proof fn lemma_first_true_push(flags: Seq<bool>, flag: bool)
    ensures
        first_true(flags.push(flag)) == match first_true(flags) {
            Some(i) => Some(i),
            None => if flag {
                Some(flags.len() as int)
            } else {
                None
            },
        },
{
    let longer = flags.push(flag);
    lemma_first_true(flags);
    match first_true(flags) {
        Some(i) => {
            assert forall|j: int| 0 <= j < i implies !#[trigger] longer[j] by {
                assert(longer[j] == flags[j]);
            }
            assert(longer[i] == flags[i]);
            lemma_first_true_is(longer, i);
        },
        None => {
            assert forall|j: int| 0 <= j < flags.len() implies !#[trigger] longer[j] by {
                assert(longer[j] == flags[j]);
            }
            if flag {
                lemma_first_true_is(longer, flags.len() as int);
            } else {
                lemma_none_true(longer);
            }
        },
    }
}

/// Appending a set flag makes the new position the last one; appending an
/// unset flag keeps the last set position.
pub proof fn lemma_last_true_push(flags: Seq<bool>, flag: bool)
    ensures
        last_true(flags.push(flag)) == if flag {
            Some(flags.len() as int)
        } else {
            last_true(flags)
        },
{
    let longer = flags.push(flag);
    if flag {
        lemma_last_true_is(longer, flags.len() as int);
    } else {
        lemma_last_true(flags);
        match last_true(flags) {
            Some(i) => {
                assert(longer[i] == flags[i]);
                assert forall|j: int| i < j < longer.len() implies !#[trigger] longer[j] by {
                    if j < flags.len() {
                        assert(longer[j] == flags[j]);
                    }
                }
                lemma_last_true_is(longer, i);
            },
            None => {
                assert forall|j: int| 0 <= j < longer.len() implies !#[trigger] longer[j] by {
                    if j < flags.len() {
                        assert(longer[j] == flags[j]);
                    }
                }
                lemma_none_true(longer);
            },
        }
    }
}

} // verus!
