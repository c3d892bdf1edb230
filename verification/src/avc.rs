use vstd::prelude::*;

use crate::context::{context_outcome, obtained, pick, SecurityContext};
use crate::errors::{outcome, Error, ErrorView, IoError};
use crate::native::{
    answered, asked, call_of, perform, performed, takes_all, untouched, Native, NativeCall,
    NativeCallView, NativeReply, Procedure,
};
use crate::utils::{applied, ret_val_to_result, str_to_c_string, str_to_c_string_spec};

verus! {

/// Order of configuration pairs: by type first, then by the address of the value.
pub open spec fn option_less(a: (i32, usize), b: (i32, usize)) -> bool {
    a.0 < b.0 || (a.0 == b.0 && a.1 < b.1)
}

/// `true` if `options` is sorted in strictly increasing order; it then holds
/// no pair twice.
pub open spec fn is_canonical(options: Seq<(i32, usize)>) -> bool {
    forall|i: int, j: int| 0 <= i < j < options.len() ==> option_less(options[i], options[j])
}

/// `true` if `canonical` is the canonical form of `options`: the same pairs,
/// sorted, each of them once.
pub open spec fn canonical_of(options: Seq<(i32, usize)>, canonical: Seq<(i32, usize)>) -> bool {
    &&& is_canonical(canonical)
    &&& forall|pair: (i32, usize)| canonical.contains(pair) <==> options.contains(pair)
}

/// Canonical form of `options`.
pub open spec fn canonical(options: Seq<(i32, usize)>) -> Seq<(i32, usize)> {
    choose|canonical: Seq<(i32, usize)>| canonical_of(options, canonical)
}

/// Two canonical sequences that hold the same pairs are one and the same.
pub proof fn lemma_canonical_unique(a: Seq<(i32, usize)>, b: Seq<(i32, usize)>)
    requires
        is_canonical(a),
        is_canonical(b),
        forall|pair: (i32, usize)| a.contains(pair) <==> b.contains(pair),
    ensures
        a == b,
    decreases a.len(),
{
    if a.len() == 0 {
        if b.len() > 0 {
            assert(b.contains(b[0]));
            assert(a.contains(b[0]));
        }
        assert(a =~= b);
    } else {
        let top = a.last();
        assert(a.contains(top));
        assert(b.contains(top));
        let k = choose|k: int| 0 <= k < b.len() && b[k] == top;
        if k < b.len() - 1 {
            let above = b.last();
            assert(option_less(b[k], above));
            assert(b.contains(above));
            assert(a.contains(above));
            let m = choose|m: int| 0 <= m < a.len() && a[m] == above;
            if m < a.len() - 1 {
                assert(option_less(a[m], a[a.len() - 1]));
            }
        }
        assert(b.last() == top);
        let a0 = a.drop_last();
        let b0 = b.drop_last();
        assert forall|pair: (i32, usize)| a0.contains(pair) <==> b0.contains(pair) by {
            if a0.contains(pair) {
                let i = choose|i: int| 0 <= i < a0.len() && a0[i] == pair;
                assert(a[i] == pair);
                assert(option_less(a[i], a[a.len() - 1]));
                assert(a.contains(pair));
                assert(b.contains(pair));
                let j = choose|j: int| 0 <= j < b.len() && b[j] == pair;
                assert(j < b.len() - 1);
                assert(b0[j] == pair);
            }
            if b0.contains(pair) {
                let i = choose|i: int| 0 <= i < b0.len() && b0[i] == pair;
                assert(b[i] == pair);
                assert(option_less(b[i], b[b.len() - 1]));
                assert(b.contains(pair));
                assert(a.contains(pair));
                let j = choose|j: int| 0 <= j < a.len() && a[j] == pair;
                assert(j < a.len() - 1);
                assert(a0[j] == pair);
            }
        }
        assert(is_canonical(a0)) by {
            assert forall|i: int, j: int| 0 <= i < j < a0.len() implies option_less(
                a0[i],
                a0[j],
            ) by {
                assert(option_less(a[i], a[j]));
            }
        }
        assert(is_canonical(b0)) by {
            assert forall|i: int, j: int| 0 <= i < j < b0.len() implies option_less(
                b0[i],
                b0[j],
            ) by {
                assert(option_less(b[i], b[j]));
            }
        }
        lemma_canonical_unique(a0, b0);
        assert(a =~= a0.push(top));
        assert(b =~= b0.push(top));
    }
}

/// Whatever sequence is a canonical form of `options` is *the* canonical
/// form of `options`.
pub proof fn lemma_canonical_is(options: Seq<(i32, usize)>, found: Seq<(i32, usize)>)
    requires
        canonical_of(options, found),
    ensures
        canonical(options) == found,
        canonical_of(options, canonical(options)),
{
    let chosen = canonical(options);
    assert(canonical_of(options, chosen));
    lemma_canonical_unique(chosen, found);
}

/// `options` with `pair` put at its place.
pub open spec fn with_pair(options: Seq<(i32, usize)>, pair: (i32, usize)) -> Seq<(i32, usize)>
    decreases options.len(),
{
    if options.len() == 0 {
        seq![pair]
    } else if options.last() == pair {
        options
    } else if option_less(options.last(), pair) {
        options.push(pair)
    } else {
        with_pair(options.drop_last(), pair).push(options.last())
    }
}

/// Putting a pair at its place keeps a canonical sequence canonical, and
/// adds that pair to it and nothing else.
pub proof fn lemma_with_pair(options: Seq<(i32, usize)>, pair: (i32, usize))
    requires
        is_canonical(options),
    ensures
        is_canonical(with_pair(options, pair)),
        forall|other: (i32, usize)| #[trigger]
            with_pair(options, pair).contains(other) <==> (other == pair || options.contains(
                other,
            )),
    decreases options.len(),
{
    let result = with_pair(options, pair);
    if options.len() == 0 {
        assert(result[0] == pair);
    } else if options.last() == pair {
        assert(options.contains(pair));
    } else if option_less(options.last(), pair) {
        assert forall|i: int, j: int| 0 <= i < j < result.len() implies option_less(
            result[i],
            result[j],
        ) by {
            if j == result.len() - 1 {
                if i < options.len() - 1 {
                    assert(option_less(options[i], options[options.len() - 1]));
                }
            } else {
                assert(option_less(options[i], options[j]));
            }
        }
        assert forall|other: (i32, usize)| #[trigger]
            result.contains(other) <==> (other == pair || options.contains(other)) by {
            if result.contains(other) {
                let i = choose|i: int| 0 <= i < result.len() && result[i] == other;
                if i < options.len() {
                    assert(options[i] == other);
                }
            }
            if options.contains(other) {
                let i = choose|i: int| 0 <= i < options.len() && options[i] == other;
                assert(result[i] == other);
            }
            if other == pair {
                assert(result[options.len() as int] == other);
            }
        }
    } else {
        let rest = options.drop_last();
        let top = options.last();
        assert(is_canonical(rest)) by {
            assert forall|i: int, j: int| 0 <= i < j < rest.len() implies option_less(
                rest[i],
                rest[j],
            ) by {
                assert(option_less(options[i], options[j]));
            }
        }
        lemma_with_pair(rest, pair);
        let inner = with_pair(rest, pair);
        assert(option_less(pair, top));
        assert forall|i: int, j: int| 0 <= i < j < result.len() implies option_less(
            result[i],
            result[j],
        ) by {
            if j == result.len() - 1 {
                assert(inner.contains(inner[i]));
                if inner[i] != pair {
                    assert(rest.contains(inner[i]));
                    let k = choose|k: int| 0 <= k < rest.len() && rest[k] == inner[i];
                    assert(option_less(options[k], options[options.len() - 1]));
                }
            } else {
                assert(option_less(inner[i], inner[j]));
            }
        }
        assert forall|other: (i32, usize)| #[trigger]
            result.contains(other) <==> (other == pair || options.contains(other)) by {
            if result.contains(other) {
                let i = choose|i: int| 0 <= i < result.len() && result[i] == other;
                if i < inner.len() {
                    assert(inner[i] == other);
                    assert(inner.contains(other));
                    if other != pair {
                        assert(rest.contains(other));
                        let k = choose|k: int| 0 <= k < rest.len() && rest[k] == other;
                        assert(options[k] == other);
                    }
                } else {
                    assert(options[options.len() - 1] == other);
                }
            }
            if options.contains(other) {
                let i = choose|i: int| 0 <= i < options.len() && options[i] == other;
                if i < rest.len() {
                    assert(rest[i] == other);
                    assert(rest.contains(other));
                    assert(inner.contains(other));
                    let k = choose|k: int| 0 <= k < inner.len() && inner[k] == other;
                    assert(result[k] == other);
                } else {
                    assert(result[inner.len() as int] == other);
                }
            }
            if other == pair {
                assert(inner.contains(pair));
                let k = choose|k: int| 0 <= k < inner.len() && inner[k] == pair;
                assert(result[k] == other);
            }
        }
    }
}

/// Every sequence of configuration pairs has a canonical form.
pub proof fn lemma_canonical_exists(options: Seq<(i32, usize)>)
    ensures
        canonical_of(options, canonical(options)),
    decreases options.len(),
{
    if options.len() == 0 {
        let empty = Seq::<(i32, usize)>::empty();
        assert(canonical_of(options, empty));
    } else {
        let rest = options.drop_last();
        lemma_canonical_exists(rest);
        lemma_with_pair(canonical(rest), options.last());
        let found = with_pair(canonical(rest), options.last());
        assert forall|other: (i32, usize)| found.contains(other) <==> options.contains(
            other,
        ) by {
            if options.contains(other) {
                let i = choose|i: int| 0 <= i < options.len() && options[i] == other;
                if i < rest.len() {
                    assert(rest[i] == other);
                    assert(rest.contains(other));
                }
            }
            if rest.contains(other) {
                let i = choose|i: int| 0 <= i < rest.len() && rest[i] == other;
                assert(options[i] == other);
            }
            if other == options.last() {
                assert(options[options.len() - 1] == other);
            }
        }
        assert(canonical_of(options, found));
    }
}

/// Two configurations have the same canonical form if, and only if, they are
/// made of the same pairs, in whatever order and however often each is given.
pub proof fn lemma_canonical_decides_equivalence(a: Seq<(i32, usize)>, b: Seq<(i32, usize)>)
    ensures
        canonical(a) == canonical(b) <==> (forall|pair: (i32, usize)|
            a.contains(pair) <==> b.contains(pair)),
{
    lemma_canonical_exists(a);
    lemma_canonical_exists(b);
    if forall|pair: (i32, usize)| a.contains(pair) <==> b.contains(pair) {
        lemma_canonical_unique(canonical(a), canonical(b));
    }
    if canonical(a) == canonical(b) {
        assert forall|pair: (i32, usize)| a.contains(pair) <==> b.contains(pair) by {
            assert(canonical(a).contains(pair) <==> a.contains(pair));
            assert(canonical(b).contains(pair) <==> b.contains(pair));
        }
    }
}

/// A configuration in canonical form is its own canonical form.
pub proof fn lemma_canonical_is_idempotent(options: Seq<(i32, usize)>)
    ensures
        canonical(canonical(options)) == canonical(options),
{
    lemma_canonical_exists(options);
    let found = canonical(options);
    assert(canonical_of(found, found));
    lemma_canonical_is(found, found);
}

/// Initializing under a configuration, then under one made of the same
/// pairs, succeeds both times, and both references stand for the same
/// configuration: they are equal. This holds where the first initialization
/// opens the cache and the native library does so, and where the cache is
/// already open under that configuration. The second initialization never
/// opens the cache.
pub proof fn lemma_equivalent_configurations_share(
    before: SingletonView,
    a: Seq<(i32, usize)>,
    b: Seq<(i32, usize)>,
    first: NativeReply,
    second: NativeReply,
)
    requires
        forall|pair: (i32, usize)| a.contains(pair) <==> b.contains(pair),
        !before.poisoned,
        before.life is Uninitialized ==> first.value != -1 && canonical(a).len() <= max_options(),
        before.life matches Life::Live { options, .. } ==> options == canonical(a),
    ensures
        ({
            let (one, between) = initialized(before, canonical(a), first);
            let (two, after) = initialized(between, canonical(b), second);
            &&& one == Ok::<Seq<(i32, usize)>, ErrorView>(canonical(a))
            &&& two == one
            &&& after.life == (Life::Live {
                options: canonical(a),
                references: before.references() + 2,
            })
            &&& opens(before, canonical(a)) <==> before.life is Uninitialized
            &&& !opens(between, canonical(b))
        }),
{
    lemma_canonical_decides_equivalence(a, b);
}

/// While a cache is open under one configuration, initializing under a
/// configuration that is not made of the same pairs fails with a conflict,
/// whatever the size of that configuration; it changes nothing and does
/// not open the cache.
pub proof fn lemma_conflicting_configuration_is_refused(
    before: SingletonView,
    a: Seq<(i32, usize)>,
    b: Seq<(i32, usize)>,
    reply: NativeReply,
)
    requires
        !(forall|pair: (i32, usize)| a.contains(pair) <==> b.contains(pair)),
        !before.poisoned,
        before.life matches Life::Live { options, .. } && options == canonical(a),
    ensures
        initialized(before, canonical(b), reply) == (
            Err::<Seq<(i32, usize)>, ErrorView>(
                ErrorView::IO {
                    source: IoError::AlreadyExists,
                    operation: "AccessVectorCache::initialize()",
                },
            ),
            before,
        ),
        !opens(before, canonical(b)),
{
    lemma_canonical_decides_equivalence(a, b);
}

/// Two initializations in a row under one configuration, with no cache open
/// before: the cache is opened by the first one and by no other, both
/// succeed with equal references, and two references are counted.
pub proof fn lemma_one_construction_serves_both(
    options: Seq<(i32, usize)>,
    first: NativeReply,
    second: NativeReply,
)
    requires
        canonical(options).len() <= max_options(),
        first.value != -1,
    ensures
        ({
            let before = SingletonView { poisoned: false, life: Life::Uninitialized };
            let (one, between) = initialized(before, canonical(options), first);
            let (two, after) = initialized(between, canonical(options), second);
            &&& opens(before, canonical(options))
            &&& !opens(between, canonical(options))
            &&& one == Ok::<Seq<(i32, usize)>, ErrorView>(canonical(options))
            &&& two == one
            &&& after.life == (Life::Live { options: canonical(options), references: 2 })
        }),
{
}

/// Dropping every outstanding reference closes the cache, at the last drop
/// and not before, and leaves the state uninitialized: the next
/// initialization opens the cache anew.
pub proof fn lemma_last_drop_closes(before: SingletonView, options: Seq<(i32, usize)>)
    requires
        !before.poisoned,
        before.life is Live,
        before.references() >= 1,
        options.len() <= max_options(),
    ensures
        released_times(before, before.references()) == (SingletonView {
            poisoned: false,
            life: Life::Uninitialized,
        }),
        released(released_times(before, (before.references() - 1) as nat)).1,
        forall|count: nat|
            count + 1 < before.references() ==> !(#[trigger] released(
                released_times(before, count),
            )).1,
        opens(released_times(before, before.references()), options),
        forall|reply: NativeReply|
            reply.value != -1 ==> (#[trigger] initialized(
                released_times(before, before.references()),
                options,
                reply,
            )).1.life == (Life::Live { options, references: 1 }),
    decreases before.references(),
{
    let count = before.references();
    if count == 1 {
        assert(released_times(before, 0) == before);
        assert(released_times(released(before).0, 0) == released(before).0);
    } else {
        let next = released(before).0;
        lemma_last_drop_closes(next, options);
        assert(released_times(before, count) == released_times(next, (count - 1) as nat));
        assert(released_times(before, (count - 1) as nat) == released_times(
            next,
            (count - 2) as nat,
        ));
        assert forall|k: nat| k + 1 < count implies !(#[trigger] released(
            released_times(before, k),
        )).1 by {
            if k == 0 {
                assert(released_times(before, 0) == before);
            } else {
                assert(released_times(before, k) == released_times(next, (k - 1) as nat));
                assert(!released(released_times(next, (k - 1) as nat)).1);
            }
        }
    }
}

/// An initialization that fails to open the cache leaves the state as it
/// was: the next initialization tries to open the cache again, and succeeds
/// if the native library does.
pub proof fn lemma_failed_initialization_is_retried(
    before: SingletonView,
    options: Seq<(i32, usize)>,
    failure: NativeReply,
    success: NativeReply,
)
    requires
        opens(before, options),
        failure.value == -1,
        success.value != -1,
    ensures
        initialized(before, options, failure) == (
            Err::<Seq<(i32, usize)>, ErrorView>(
                ErrorView::IO { source: IoError::Os(failure.errno), operation: "avc_open()" },
            ),
            before,
        ),
        opens(initialized(before, options, failure).1, options),
        initialized(initialized(before, options, failure).1, options, success).0 == Ok::<
            Seq<(i32, usize)>,
            ErrorView,
        >(options),
{
}

/// Canonical form of a set of configuration pairs: sorted, without duplicates.
///
/// Two sets of pairs are equivalent configurations if, and only if, they
/// have the same canonical form, in whatever order and however many times
/// their pairs were given.
pub fn canonical_options(options: &[(i32, usize)]) -> (sorted: Vec<(i32, usize)>)
    ensures
        canonical_of(options@, sorted@),
        sorted@ == canonical(options@),
        sorted.len() <= options.len(),
{
    let mut sorted: Vec<(i32, usize)> = Vec::new();
    let mut index: usize = 0;
    while index < options.len()
        invariant
            index <= options.len(),
            sorted.len() <= index,
            canonical_of(options@.take(index as int), sorted@),
        decreases options.len() - index,
    {
        let pair = options[index];
        let ghost before = sorted@;
        let ghost given = options@.take(index as int);
        let mut place: usize = 0;
        while place < sorted.len() && (sorted[place].0 < pair.0 || (sorted[place].0 == pair.0
            && sorted[place].1 < pair.1))
            invariant
                place <= sorted.len(),
                sorted@ == before,
                forall|i: int| 0 <= i < place ==> option_less(#[trigger] sorted@[i], pair),
            decreases sorted.len() - place,
        {
            place += 1;
        }
        let known = place < sorted.len() && sorted[place].0 == pair.0 && sorted[place].1 == pair.1;
        assert(options@.take(index + 1) == given.push(pair));
        if known {
            assert(before.contains(pair)) by {
                assert(before[place as int] == pair);
            }
            assert forall|other: (i32, usize)|
                sorted@.contains(other) <==> given.push(pair).contains(other) by {
                if given.push(pair).contains(other) {
                    let i = choose|i: int| 0 <= i < given.push(pair).len() && given.push(pair)[i]
                        == other;
                    if i < given.len() {
                        assert(given[i] == other);
                        assert(given.contains(other));
                    }
                }
                if sorted@.contains(other) {
                    assert(given.contains(other));
                    let i = choose|i: int| 0 <= i < given.len() && given[i] == other;
                    assert(given.push(pair)[i] == other);
                }
            }
        } else {
            sorted.insert(place, pair);
            assert(forall|i: int|
                place <= i < before.len() ==> option_less(pair, #[trigger] before[i])) by {
                assert forall|i: int| place <= i < before.len() implies option_less(
                    pair,
                    #[trigger] before[i],
                ) by {
                    if i > place {
                        assert(option_less(before[place as int], before[i]));
                    }
                }
            }
            assert(is_canonical(sorted@)) by {
                assert forall|i: int, j: int| 0 <= i < j < sorted@.len() implies option_less(
                    sorted@[i],
                    sorted@[j],
                ) by {
                    if j < place {
                        assert(option_less(before[i], before[j]));
                    } else if j == place {
                        assert(sorted@[i] == before[i]);
                    } else if i < place {
                        assert(option_less(before[i], before[j - 1]));
                    } else if i == place {
                        assert(sorted@[j] == before[j - 1]);
                    } else {
                        assert(option_less(before[i - 1], before[j - 1]));
                    }
                }
            }
            assert forall|other: (i32, usize)|
                sorted@.contains(other) <==> given.push(pair).contains(other) by {
                if given.push(pair).contains(other) {
                    let i = choose|i: int| 0 <= i < given.push(pair).len() && given.push(pair)[i]
                        == other;
                    if i < given.len() {
                        assert(given[i] == other);
                        assert(given.contains(other));
                        assert(before.contains(other));
                        let k = choose|k: int| 0 <= k < before.len() && before[k] == other;
                        if k < place {
                            assert(sorted@[k] == other);
                        } else {
                            assert(sorted@[k + 1] == other);
                        }
                    } else {
                        assert(sorted@[place as int] == other);
                    }
                }
                if sorted@.contains(other) {
                    let k = choose|k: int| 0 <= k < sorted@.len() && sorted@[k] == other;
                    if k < place {
                        assert(before[k] == other);
                        assert(before.contains(other));
                        assert(given.contains(other));
                        let i = choose|i: int| 0 <= i < given.len() && given[i] == other;
                        assert(given.push(pair)[i] == other);
                    } else if k == place {
                        assert(given.push(pair)[given.len() as int] == other);
                    } else {
                        assert(before[k - 1] == other);
                        assert(before.contains(other));
                        assert(given.contains(other));
                        let i = choose|i: int| 0 <= i < given.len() && given[i] == other;
                        assert(given.push(pair)[i] == other);
                    }
                }
            }
        }
        index += 1;
    }
    assert(options@.take(index as int) == options@);
    proof {
        lemma_canonical_is(options@, sorted@);
    }
    sorted
}

/// Copy of the configuration pairs `options`.
fn copy_options(options: &Vec<(i32, usize)>) -> (copy: Vec<(i32, usize)>)
    ensures
        copy@ == options@,
{
    let mut copy: Vec<(i32, usize)> = Vec::new();
    let mut index: usize = 0;
    while index < options.len()
        invariant
            index <= options.len(),
            copy@ == options@.take(index as int),
        decreases options.len() - index,
    {
        copy.push(options[index]);
        index += 1;
        assert(copy@ == options@.take(index as int));
    }
    assert(options@.take(index as int) == options@);
    copy
}

/// `true` if `a` and `b` hold the same pairs in the same order.
fn same_options(a: &Vec<(i32, usize)>, b: &Vec<(i32, usize)>) -> (same: bool)
    ensures
        same == (a@ == b@),
{
    if a.len() != b.len() {
        return false;
    }
    let mut index: usize = 0;
    while index < a.len()
        invariant
            index <= a.len(),
            a.len() == b.len(),
            a@.take(index as int) == b@.take(index as int),
        decreases a.len() - index,
    {
        if a[index].0 != b[index].0 || a[index].1 != b[index].1 {
            assert(a@[index as int] != b@[index as int]);
            return false;
        }
        assert(a@.take(index + 1) == a@.take(index as int).push(a@[index as int]));
        assert(b@.take(index + 1) == b@.take(index as int).push(b@[index as int]));
        index += 1;
    }
    assert(a@.take(index as int) == a@);
    assert(b@.take(index as int) == b@);
    true
}

/// Access vector cache: the configuration that the live cache was opened with.
#[derive(Debug, PartialEq, Eq)]
pub struct AccessVectorCache(Vec<(i32, usize)>);

impl View for AccessVectorCache {
    type V = Seq<(i32, usize)>;

    closed spec fn view(&self) -> Seq<(i32, usize)> {
        self.0@
    }
}

/// Counted reference to the live access vector cache.
///
/// Two references are equal if, and only if, they stand for the same
/// canonical configuration.
#[derive(Debug, PartialEq, Eq)]
pub struct Handle {
    data: AccessVectorCache,
}

impl View for Handle {
    type V = Seq<(i32, usize)>;

    closed spec fn view(&self) -> Seq<(i32, usize)> {
        self.data@
    }
}

impl Handle {
    /// The access vector cache that this reference stands for.
    pub fn data(&self) -> (data: &AccessVectorCache)
        ensures
            data@ == self@,
    {
        &self.data
    }

    /// `true` if both references stand for the same configuration.
    pub fn same_as(&self, other: &Handle) -> (same: bool)
        ensures
            same == (self@ == other@),
    {
        same_options(&self.data.0, &other.data.0)
    }
}

/// Model of the life of the process-wide cache.
pub enum Life {
    /// No cache is open.
    Uninitialized,
    /// A cache is open under the canonical configuration `options`, and
    /// `references` counted references to it are outstanding.
    Live { options: Seq<(i32, usize)>, references: nat },
}

/// Mathematical model of a [`SingletonHandle`].
pub struct SingletonView {
    /// The lock that guards the singleton was poisoned.
    pub poisoned: bool,
    /// Life of the cache.
    pub life: Life,
}

/// The process-wide state of the access vector cache: at most one cache is
/// open at any time, shared by counted references, and closed when the last
/// of them is dropped.
///
/// The caller keeps this value behind its lock, and holds the lock across
/// each of the operations below.
#[derive(Debug)]
pub struct SingletonHandle {
    poisoned: bool,
    data: Option<AccessVectorCache>,
    references: usize,
}

impl View for SingletonHandle {
    type V = SingletonView;

    closed spec fn view(&self) -> SingletonView {
        SingletonView {
            poisoned: self.poisoned,
            life: match self.data {
                Some(cache) => Life::Live { options: cache@, references: self.references as nat },
                None => Life::Uninitialized,
            },
        }
    }
}

impl SingletonView {
    /// Number of outstanding counted references.
    pub open spec fn references(self) -> nat {
        match self.life {
            Life::Live { references, .. } => references,
            Life::Uninitialized => 0,
        }
    }
}

/// Largest number of configuration pairs that the native library accepts.
pub open spec fn max_options() -> int {
    u32::MAX as int
}

/// `true` if the cache must be opened to serve an initialization with the
/// canonical configuration `options` in the state `before`.
pub open spec fn opens(before: SingletonView, options: Seq<(i32, usize)>) -> bool {
    options.len() <= max_options() && !before.poisoned && before.life is Uninitialized
}

/// Outcome of an initialization with the canonical configuration `options`
/// in the state `before`, where opening the cache, if it comes to that,
/// is answered by `reply`: the result, and the state afterwards.
///
/// While a cache is open, only the configurations are compared, whatever
/// their sizes. A cache is never opened with more pairs than the native
/// library can count.
pub open spec fn initialized(
    before: SingletonView,
    options: Seq<(i32, usize)>,
    reply: NativeReply,
) -> (Result<Seq<(i32, usize)>, ErrorView>, SingletonView) {
    if before.poisoned {
        if options.len() > max_options() {
            (Err(ErrorView::IntegerOutOfRange), before)
        } else {
            (
                Err(ErrorView::LockPoisoned { operation: "RefCountedSingleton::get_or_init()" }),
                before,
            )
        }
    } else {
        match before.life {
            Life::Uninitialized => if options.len() > max_options() {
                (Err(ErrorView::IntegerOutOfRange), before)
            } else if reply.value == -1 {
                (
                    Err(
                        ErrorView::IO { source: IoError::Os(reply.errno), operation: "avc_open()" },
                    ),
                    before,
                )
            } else {
                (
                    Ok(options),
                    SingletonView { poisoned: false, life: Life::Live { options, references: 1 } },
                )
            },
            Life::Live { options: live, references } => if live == options {
                (
                    Ok(live),
                    SingletonView {
                        poisoned: false,
                        life: Life::Live { options: live, references: references + 1 },
                    },
                )
            } else {
                (
                    Err(
                        ErrorView::IO {
                            source: IoError::AlreadyExists,
                            operation: "AccessVectorCache::initialize()",
                        },
                    ),
                    before,
                )
            },
        }
    }
}

/// State after one counted reference was dropped in the state `before`, and
/// whether the cache must be closed now.
pub open spec fn released(before: SingletonView) -> (SingletonView, bool) {
    match before.life {
        Life::Live { options, references } => if before.poisoned {
            (before, false)
        } else if references <= 1 {
            (SingletonView { poisoned: false, life: Life::Uninitialized }, true)
        } else {
            (
                SingletonView {
                    poisoned: false,
                    life: Life::Live { options, references: (references - 1) as nat },
                },
                false,
            )
        },
        Life::Uninitialized => (before, false),
    }
}

/// State after `count` counted references were dropped in the state `before`.
pub open spec fn released_times(before: SingletonView, count: nat) -> SingletonView
    decreases count,
{
    if count == 0 {
        before
    } else {
        released_times(released(before).0, (count - 1) as nat)
    }
}

/// Model of the result of an operation that returns a counted reference.
pub open spec fn reference_outcome(result: Result<Handle, Error>) -> Result<
    Seq<(i32, usize)>,
    ErrorView,
> {
    match result {
        Ok(reference) => Ok(reference@),
        Err(err) => Err(err@),
    }
}

impl Default for SingletonHandle {
    /// State in which no cache is open.
    fn default() -> (singleton: Self)
        ensures
            singleton.wf(),
            singleton@ == (SingletonView { poisoned: false, life: Life::Uninitialized }),
    {
        SingletonHandle { poisoned: false, data: None, references: 0 }
    }
}

impl SingletonHandle {
    /// A cache is open exactly as long as references to it are outstanding,
    /// and its configuration is canonical.
    pub closed spec fn wf(&self) -> bool {
        &&& self.data is Some <==> self.references > 0
        &&& self.data matches Some(cache) ==> is_canonical(cache@) && cache@.len() <= max_options()
    }

    /// A cache that is open was opened under a canonical configuration of
    /// at most as many pairs as the native library accepts, and is counted
    /// at least once: under that very configuration, an initialization
    /// neither fails for the number of its pairs nor opens anything.
    pub proof fn lemma_live_configuration(&self)
        requires
            self.wf(),
        ensures
            self@.life matches Life::Live { options, references } ==> {
                &&& is_canonical(options)
                &&& options.len() <= max_options()
                &&& references >= 1
                &&& !opens(self@, options)
            },
            self@.life is Uninitialized ==> self@.references() == 0,
    {
    }

    /// Record that the lock that guards this state was poisoned: from now on
    /// every initialization fails, and the state no longer changes.
    pub fn poison(&mut self)
        ensures
            final(self)@ == (SingletonView { poisoned: true, life: old(self)@.life }),
            old(self).wf() ==> final(self).wf(),
    {
        self.poisoned = true;
    }

    /// `true` if the lock that guards this state was poisoned.
    pub fn is_poisoned(&self) -> (poisoned: bool)
        ensures
            poisoned == self@.poisoned,
    {
        self.poisoned
    }

    /// Number of outstanding counted references.
    pub fn references(&self) -> (count: usize)
        ensures
            count == self@.references(),
    {
        match self.data {
            Some(_) => self.references,
            None => 0,
        }
    }

    /// Return a counted reference to the live cache, if there is one.
    pub fn get(&mut self) -> (reference: Option<Handle>)
        requires
            old(self).wf(),
            old(self)@.references() < usize::MAX,
        ensures
            final(self).wf(),
            match old(self)@.life {
                Life::Live { options, references } if !old(self)@.poisoned => {
                    &&& reference matches Some(r)
                    &&& r@ == options
                    &&& final(self)@ == (SingletonView {
                        poisoned: false,
                        life: Life::Live { options, references: references + 1 },
                    })
                },
                _ => reference is None && final(self)@ == old(self)@,
            },
    {
        if self.poisoned {
            return None;
        }
        match &self.data {
            Some(cache) => {
                let reference = Handle { data: AccessVectorCache(copy_options(&cache.0)) };
                self.references = self.references + 1;
                Some(reference)
            },
            None => None,
        }
    }

    /// Count one more reference to the cache that `reference` stands for.
    pub fn clone_reference(&mut self, reference: &Handle) -> (copy: Handle)
        requires
            old(self).wf(),
            old(self)@.references() < usize::MAX,
        ensures
            final(self).wf(),
            copy@ == reference@,
            final(self)@ == match old(self)@.life {
                Life::Live { options, references } if !old(self)@.poisoned => SingletonView {
                    poisoned: false,
                    life: Life::Live { options, references: references + 1 },
                },
                _ => old(self)@,
            },
    {
        let copy = Handle { data: AccessVectorCache(copy_options(&reference.data.0)) };
        if !self.poisoned && self.data.is_some() {
            self.references = self.references + 1;
        }
        copy
    }

    /// Drop a counted reference.
    ///
    /// Returns `true` if this was the last one: the state is uninitialized
    /// again. This changes the state only; [`Self::release`] also closes the
    /// native cache.
    pub fn drop_reference(&mut self, reference: Handle) -> (close: bool)
        requires
            old(self).wf(),
        ensures
            final(self).wf(),
            (final(self)@, close) == released(old(self)@),
    {
        if self.poisoned {
            return false;
        }
        match &self.data {
            None => false,
            Some(_) => {
                if self.references <= 1 {
                    self.data = None;
                    self.references = 0;
                    true
                } else {
                    self.references = self.references - 1;
                    false
                }
            },
        }
    }

    /// Drop a counted reference, and close the native cache if this was the
    /// last one.
    ///
    /// The native cache is closed by one call, made when the last reference
    /// is dropped; dropping any other reference calls nothing. Returns
    /// `true` if the cache was closed.
    ///
    /// See: `avc_destroy()`.
    pub fn release<F: Fn(NativeCall) -> NativeReply>(
        &mut self,
        reference: Handle,
        native: &mut Native<F>,
    ) -> (closed: bool)
        requires
            old(self).wf(),
            takes_all(*old(native)),
        ensures
            final(self).wf(),
            (final(self)@, closed) == released(old(self)@),
            closed ==> exists|reply: NativeReply| #[trigger]
                performed(*old(native), *final(native), call_of(Procedure::AvcDestroy), reply),
            !closed ==> untouched(*old(native), *final(native)),
    {
        let close = self.drop_reference(reference);
        if close {
            AccessVectorCache::destroy(native);
        }
        close
    }
}

impl AccessVectorCache {
    /// The configuration that the cache was opened with, in canonical form.
    pub fn options(&self) -> (options: &Vec<(i32, usize)>)
        ensures
            options@ == self@,
    {
        &self.0
    }

    /// Initialize the user space access vector cache.
    ///
    /// `options` holds zero or more `(type, value)` pairs, where `value` is
    /// the address of a value whose meaning depends on `type`. The pairs are
    /// put in canonical form before anything else, so that neither their
    /// order nor their repetition matters.
    ///
    /// With no cache open, the native library is called with the canonical
    /// pairs to open one: when it fails, the state stays uninitialized and a
    /// later initialization tries again. More pairs than the native library
    /// can count are refused before it is called. With a cache open, the
    /// initialization succeeds only under the configuration of that cache,
    /// and otherwise changes nothing, whatever the number of pairs; the
    /// native library is not called.
    ///
    /// See: `avc_open()`.
    pub fn initialize<F: Fn(NativeCall) -> NativeReply>(
        singleton: &mut SingletonHandle,
        options: &[(i32, usize)],
        native: &mut Native<F>,
    ) -> (result: Result<Handle, Error>)
        requires
            old(singleton).wf(),
            old(singleton)@.references() < usize::MAX,
            takes_all(*old(native)),
        ensures
            final(singleton).wf(),
            opens(old(singleton)@, canonical(options@)) ==> exists|reply: NativeReply| #[trigger]
                performed(
                    *old(native),
                    *final(native),
                    call_of(Procedure::AvcOpen).options(canonical(options@)),
                    reply,
                ) && (reference_outcome(result), final(singleton)@) == initialized(
                    old(singleton)@,
                    canonical(options@),
                    reply,
                ),
            !opens(old(singleton)@, canonical(options@)) ==> forall|reply: NativeReply|
                (reference_outcome(result), final(singleton)@) == #[trigger] initialized(
                    old(singleton)@,
                    canonical(options@),
                    reply,
                ),
            !opens(old(singleton)@, canonical(options@)) ==> untouched(
                *old(native),
                *final(native),
            ),
    {
        let sorted = canonical_options(options);
        if !singleton.poisoned {
            if let Some(cache) = &singleton.data {
                return if same_options(&cache.0, &sorted) {
                    let reference = Handle { data: AccessVectorCache(copy_options(&cache.0)) };
                    singleton.references = singleton.references + 1;
                    Ok(reference)
                } else {
                    Err(Error::from_io("AccessVectorCache::initialize()", IoError::AlreadyExists))
                };
            }
        }
        if sorted.len() > u32::MAX as usize {
            return Err(Error::IntegerOutOfRange);
        }
        if singleton.poisoned {
            return Err(Error::LockPoisoned { operation: "RefCountedSingleton::get_or_init()" });
        }
        let call = NativeCall::new(Procedure::AvcOpen).options(sorted.as_slice());
        let reply = perform(native, call);
        if reply.value == -1 {
            Err(Error::last_io_error("avc_open()", reply.errno))
        } else {
            let reference = Handle { data: AccessVectorCache(copy_options(&sorted)) };
            singleton.data = Some(AccessVectorCache(sorted));
            singleton.references = 1;
            Ok(reference)
        }
    }
}

/// SELinux security identifier.
///
/// An identifier lives in the access vector cache, and no longer than the
/// cache, for the lifetime `'id`.
#[derive(Debug)]
pub struct SecurityID<'id> {
    security_id: usize,
    is_raw: bool,
    _phantom_data: core::marker::PhantomData<&'id u8>,
}

impl<'id> Default for SecurityID<'id> {
    /// Return an unspecified security identifier.
    fn default() -> (id: Self)
        ensures
            id.address() == 0,
            !id.raw(),
    {
        Self { security_id: 0, is_raw: false, _phantom_data: core::marker::PhantomData }
    }
}

impl<'id> SecurityID<'id> {
    /// Address of the identifier in native memory; null for an unspecified one.
    pub closed spec fn address(&self) -> usize {
        self.security_id
    }

    /// The identifier stands for a context in the raw format.
    pub closed spec fn raw(&self) -> bool {
        self.is_raw
    }

    /// Return `true` if the security identifier is unspecified.
    pub fn is_unspecified(&self) -> (unspecified: bool)
        ensures
            unspecified == (self.address() == 0),
    {
        self.security_id == 0
    }

    /// Return `false` if security context translation must be performed.
    pub fn is_raw_format(&self) -> (raw: bool)
        ensures
            raw == self.raw(),
    {
        self.is_raw
    }

    /// Return the managed address.
    pub fn as_ptr(&self) -> (address: usize)
        ensures
            address == self.address(),
    {
        self.security_id
    }

    /// Return the managed address.
    pub fn as_mut_ptr(&mut self) -> (address: usize)
        ensures
            address == old(self).address(),
            *final(self) == *old(self),
    {
        self.security_id
    }
}

/// Model of a result that holds a security identifier: its address and
/// its format.
pub open spec fn id_outcome(result: Result<SecurityID, Error>) -> Result<(usize, bool), ErrorView> {
    match result {
        Ok(id) => Ok((id.address(), id.raw())),
        Err(err) => Err(err@),
    }
}

/// What the library makes of the reply of the entry point called
/// `proc_name`, which hands back a security identifier.
pub open spec fn id_spec(proc_name: &'static str, reply: NativeReply, raw_format: bool) -> Result<
    (usize, bool),
    ErrorView,
> {
    if reply.value == -1 {
        Err(ErrorView::IO { source: IoError::Os(reply.errno), operation: proc_name })
    } else {
        Ok((reply.address, raw_format))
    }
}

/// The call that asks for the identifier of the context at `address`.
pub open spec fn to_sid_call(raw_format: bool, address: usize) -> NativeCallView {
    call_of(pick(raw_format, Procedure::AvcContextToSidRaw, Procedure::AvcContextToSid)).address(
        address,
    )
}

/// Identifier that the entry point called `proc_name` handed back with `reply`.
fn id_from_result<'id>(
    proc_name: &'static str,
    reply: &NativeReply,
    raw_format: bool,
) -> (result: Result<SecurityID<'id>, Error>)
    ensures
        id_outcome(result) == id_spec(proc_name, *reply, raw_format),
{
    if reply.value == -1 {
        Err(Error::last_io_error(proc_name, reply.errno))
    } else {
        Ok(
            SecurityID {
                security_id: reply.address,
                is_raw: raw_format,
                _phantom_data: core::marker::PhantomData,
            },
        )
    }
}

impl AccessVectorCache {
    /// Flush the user space access vector cache, causing it to forget any
    /// cached access decisions.
    ///
    /// See: `avc_reset()`.
    pub fn reset<F: Fn(NativeCall) -> NativeReply>(
        &self,
        native: &mut Native<F>,
    ) -> (result: Result<(), Error>)
        requires
            takes_all(*old(native)),
        ensures
            applied(*old(native), *final(native), call_of(Procedure::AvcReset), outcome(result)),
    {
        let reply = perform(native, NativeCall::new(Procedure::AvcReset));
        ret_val_to_result("avc_reset()", &reply)
    }

    /// Attempt to free unused memory within the user space access vector
    /// cache, but do not flush any cached access decisions.
    ///
    /// See: `avc_cleanup()`.
    pub fn clean_up<F: Fn(NativeCall) -> NativeReply>(&self, native: &mut Native<F>)
        requires
            takes_all(*old(native)),
        ensures
            exists|reply: NativeReply| #[trigger]
                performed(*old(native), *final(native), call_of(Procedure::AvcCleanup), reply),
    {
        let _ = perform(native, NativeCall::new(Procedure::AvcCleanup));
    }

    /// Close the user space access vector cache. This is for the caller
    /// that dropped the last counted reference, and for nobody else.
    ///
    /// See: `avc_destroy()`.
    pub fn destroy<F: Fn(NativeCall) -> NativeReply>(native: &mut Native<F>)
        requires
            takes_all(*old(native)),
        ensures
            exists|reply: NativeReply| #[trigger]
                performed(*old(native), *final(native), call_of(Procedure::AvcDestroy), reply),
    {
        let _ = perform(native, NativeCall::new(Procedure::AvcDestroy));
    }

    /// Return a security identifier for the kernel initial security identifier
    /// specified by `security_id_name`.
    ///
    /// See: `avc_get_initial_sid()`.
    pub fn kernel_initial_security_id<F: Fn(NativeCall) -> NativeReply>(
        &self,
        security_id_name: &str,
        raw_format: bool,
        native: &mut Native<F>,
    ) -> (result: Result<SecurityID, Error>)
        requires
            takes_all(*old(native)),
        ensures
            match str_to_c_string_spec(security_id_name) {
                Err(err) => id_outcome(result) == Err::<(usize, bool), ErrorView>(err) && untouched(
                    *old(native),
                    *final(native),
                ),
                Ok(c_name) => exists|reply: NativeReply| #[trigger]
                    performed(
                        *old(native),
                        *final(native),
                        call_of(Procedure::AvcGetInitialSid).text(c_name),
                        reply,
                    )
                        && id_outcome(result) == id_spec(
                            "avc_get_initial_sid()",
                            reply,
                            raw_format,
                        ),
            },
    {
        let c_name = match str_to_c_string(security_id_name) {
            Ok(c_name) => c_name,
            Err(err) => { return Err(err); },
        };
        let reply = perform(native, NativeCall::new(Procedure::AvcGetInitialSid).text(c_name));
        id_from_result("avc_get_initial_sid()", &reply, raw_format)
    }

    /// Return a security context for the given security identifier, in the
    /// format of the identifier.
    ///
    /// See: `avc_sid_to_context()`.
    pub fn security_context_from_security_id<F: Fn(NativeCall) -> NativeReply>(
        &self,
        security_id: SecurityID,
        native: &mut Native<F>,
    ) -> (result: Result<SecurityContext, Error>)
        requires
            takes_all(*old(native)),
        ensures
            obtained(
                *old(native),
                *final(native),
                call_of(
                    pick(
                        security_id.raw(),
                        Procedure::AvcSidToContextRaw,
                        Procedure::AvcSidToContext,
                    ),
                )
                    .address(security_id.address()),
                security_id.raw(),
                context_outcome(result),
            ),
            result matches Ok(context) ==> context.wf(),
    {
        let is_raw = security_id.is_raw_format();
        let procedure = pick(is_raw, Procedure::AvcSidToContextRaw, Procedure::AvcSidToContext);
        let reply = perform(native, NativeCall::new(procedure).address(security_id.as_ptr()));
        SecurityContext::from_result(procedure.name(), reply, is_raw)
    }

    /// Return a security identifier for the given security context, in the
    /// format of the context.
    ///
    /// The context is consumed: where it owns its native memory, that
    /// memory is given back to the native library before this returns, and
    /// after the identifier was asked for.
    ///
    /// See: `avc_context_to_sid()`.
    pub fn security_id_from_security_context<F: Fn(NativeCall) -> NativeReply>(
        &self,
        context: SecurityContext,
        native: &mut Native<F>,
    ) -> (result: Result<SecurityID, Error>)
        requires
            takes_all(*old(native)),
        ensures
            exists|reply: NativeReply| #[trigger]
                answered(*old(native), to_sid_call(context@.is_raw, context@.address), reply)
                    && id_outcome(result) == id_spec(
                    to_sid_call(context@.is_raw, context@.address).procedure.spec_name(),
                    reply,
                    context@.is_raw,
                ),
            asked(
                *old(native),
                *final(native),
                if context@.owned {
                    seq![
                        to_sid_call(context@.is_raw, context@.address),
                        call_of(Procedure::Freecon).address(context@.address),
                    ]
                } else {
                    seq![to_sid_call(context@.is_raw, context@.address)]
                },
            ),
    {
        let ghost start = *native;
        let mut context = context;
        let is_raw = context.is_raw_format();
        let procedure = pick(is_raw, Procedure::AvcContextToSidRaw, Procedure::AvcContextToSid);
        let reply = perform(native, NativeCall::new(procedure).address(context.as_ptr()));
        assert(answered(start, to_sid_call(is_raw, context@.address), reply));
        context.free(native);
        id_from_result(procedure.name(), &reply, is_raw)
    }
}

} // verus!
