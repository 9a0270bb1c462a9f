//! Laws of argument binding: what holds of every call, proved from the definition of
//! [`Signature::bind`].

use vstd::prelude::*;

use crate::signature::dict_set;
use crate::signature::entry_names;
use crate::signature::fill_positional;
use crate::signature::parameter_list;
use crate::signature::parameter_list_prefix;
use crate::signature::quoted;
use crate::signature::BindingError;
use crate::signature::KeywordScan;
use crate::signature::Signature;
use crate::signature::Surplus;
use crate::signature::SurplusKeywords;

verus! {

/// The walk over the keywords of a call before its first keyword.
pub open spec fn scan_start<V>(slots: Seq<Option<V>>) -> KeywordScan<V> {
    KeywordScan { slots, extras: None, violations: Seq::empty(), failure: None }
}

/// The slots of a call after its positional arguments are placed.
pub open spec fn after_positional<V>(sig: Signature, args: Seq<V>, slots: Seq<Option<V>>) -> Seq<
    Option<V>,
> {
    fill_positional(slots, args, sig.consumed(args.len()))
}

/// The walk over the first `n` keywords of a call, after its positional arguments are
/// placed.
pub open spec fn walk<V>(
    sig: Signature,
    args: Seq<V>,
    kwargs: Seq<(Seq<char>, V)>,
    slots: Seq<Option<V>>,
    n: int,
) -> KeywordScan<V> {
    sig.keyword_scan(
        sig.surplus_keywords(),
        kwargs.take(n),
        scan_start(after_positional(sig, args, slots)),
    )
}

impl Signature {
    /// The slot that a keyword called `name` goes to: that of the first keyword-only
    /// parameter of that name, else that of the first positional parameter of that name
    /// unless it is positional-only.
    pub open spec fn target(self, name: Seq<char>) -> Option<int> {
        match self.keyword_only_names().index_of_first(name) {
            Some(k) => Some(self.positional.len() + k),
            None => match self.positional.index_of_first(name) {
                Some(i) => if i < self.positional_only {
                    None
                } else {
                    Some(i)
                },
                None => None,
            },
        }
    }

    /// Whether a keyword called `name` names a positional-only parameter.
    pub open spec fn names_positional_only(self, name: Seq<char>) -> bool {
        &&& self.keyword_only_names().index_of_first(name) is None
        &&& self.positional.index_of_first(name) matches Some(i) && i < self.positional_only
    }
}

/// The walk over no keywords is where it started, and the walk over one keyword more is one
/// step further.
pub proof fn lemma_scan_unfold<V>(
    sig: Signature,
    surplus: SurplusKeywords,
    kwargs: Seq<(Seq<char>, V)>,
    start: KeywordScan<V>,
    n: int,
)
    requires
        0 <= n < kwargs.len(),
    ensures
        sig.keyword_scan(surplus, kwargs.take(0), start) == start,
        sig.keyword_scan(surplus, kwargs.take(n + 1), start) == sig.keyword_step(
            surplus,
            sig.keyword_scan(surplus, kwargs.take(n), start),
            kwargs[n].0,
            kwargs[n].1,
        ),
{
    assert(kwargs.take(n + 1).drop_last() =~= kwargs.take(n));
}

/// A walk that has failed is not changed by further keywords.
pub proof fn lemma_failed_scan_stays<V>(
    sig: Signature,
    surplus: SurplusKeywords,
    kwargs: Seq<(Seq<char>, V)>,
    n: int,
    start: KeywordScan<V>,
)
    requires
        0 <= n <= kwargs.len(),
        sig.keyword_scan(surplus, kwargs.take(n), start).failure is Some,
    ensures
        sig.keyword_scan(surplus, kwargs, start) == sig.keyword_scan(
            surplus,
            kwargs.take(n),
            start,
        ),
    decreases kwargs.len() - n,
{
    if n == kwargs.len() {
        assert(kwargs.take(n) =~= kwargs);
    } else {
        assert(kwargs.drop_last().take(n) =~= kwargs.take(n));
        lemma_failed_scan_stays(sig, surplus, kwargs.drop_last(), n, start);
    }
}

/// A keyword's slot is one of the slots of the call.
pub proof fn lemma_target_in_range(sig: Signature, name: Seq<char>)
    requires
        sig.wf(),
    ensures
        sig.target(name) matches Some(s) ==> 0 <= s < sig.slot_count(),
        sig.target(name) is None ==> !sig.keyword_only_names().contains(name),
        sig.names_positional_only(name) ==> sig.target(name) is None,
{
    sig.keyword_only_names().index_of_first_ensures(name);
    sig.positional.index_of_first_ensures(name);
}

/// One step of a walk that has not failed changes at most the slot of its keyword, which it
/// fills with the keyword's value.
pub proof fn lemma_step_slots<V>(
    sig: Signature,
    surplus: SurplusKeywords,
    scan: KeywordScan<V>,
    name: Seq<char>,
    value: V,
)
    requires
        sig.wf(),
        scan.slots.len() == sig.slot_count(),
        scan.failure is None,
    ensures
        sig.keyword_step(surplus, scan, name, value).slots == match sig.target(name) {
            Some(s) => scan.slots.update(s, Some(value)),
            None => scan.slots,
        },
        sig.keyword_step(surplus, scan, name, value).slots.len() == scan.slots.len(),
{
    lemma_target_in_range(sig, name);
}

/// A walk keeps the number of slots; a slot that none of its keywords goes to stays as it
/// was; and a filled slot stays filled.
pub proof fn lemma_scan_slots<V>(
    sig: Signature,
    surplus: SurplusKeywords,
    kwargs: Seq<(Seq<char>, V)>,
    start: KeywordScan<V>,
    n: int,
)
    requires
        sig.wf(),
        start.slots.len() == sig.slot_count(),
        0 <= n <= kwargs.len(),
    ensures
        sig.keyword_scan(surplus, kwargs.take(n), start).slots.len() == start.slots.len(),
        forall|i: int|
            0 <= i < start.slots.len() && (forall|u: int|
                0 <= u < n ==> sig.target(#[trigger] kwargs[u].0) != Some(i))
                ==> #[trigger] sig.keyword_scan(surplus, kwargs.take(n), start).slots[i]
                == start.slots[i],
        forall|i: int|
            0 <= i < start.slots.len() && start.slots[i] is Some
                ==> #[trigger] sig.keyword_scan(surplus, kwargs.take(n), start).slots[i] is Some,
    decreases n,
{
    if n == 0 {
        assert(kwargs.take(0) =~= Seq::empty());
    } else {
        lemma_scan_slots(sig, surplus, kwargs, start, n - 1);
        lemma_scan_unfold(sig, surplus, kwargs, start, n - 1);
        let before = sig.keyword_scan(surplus, kwargs.take(n - 1), start);
        if before.failure is None {
            lemma_step_slots(sig, surplus, before, kwargs[n - 1].0, kwargs[n - 1].1);
            lemma_target_in_range(sig, kwargs[n - 1].0);
        }
    }
}

/// Where no keyword names a positional parameter, and every keyword either names a
/// keyword-only parameter or is collected whether or not its name is new, the walk does not
/// fail, notes no positional-only parameter, and leaves the positional slots as they were.
pub proof fn lemma_scan_without_positional_names<V>(
    sig: Signature,
    surplus: SurplusKeywords,
    kwargs: Seq<(Seq<char>, V)>,
    start: KeywordScan<V>,
    n: int,
)
    requires
        sig.wf(),
        start.slots.len() == sig.slot_count(),
        start.failure is None,
        0 <= n <= kwargs.len(),
        forall|u: int| 0 <= u < kwargs.len() ==> !sig.positional.contains(#[trigger] kwargs[u].0),
        surplus is Collect || forall|u: int|
            0 <= u < kwargs.len() ==> sig.keyword_only_names().contains(#[trigger] kwargs[u].0),
    ensures
        sig.keyword_scan(surplus, kwargs.take(n), start).failure is None,
        sig.keyword_scan(surplus, kwargs.take(n), start).violations == start.violations,
        sig.keyword_scan(surplus, kwargs.take(n), start).slots.len() == start.slots.len(),
        forall|i: int|
            0 <= i < sig.positional.len() ==> #[trigger] sig.keyword_scan(
                surplus,
                kwargs.take(n),
                start,
            ).slots[i] == start.slots[i],
    decreases n,
{
    if n == 0 {
        assert(kwargs.take(0) =~= Seq::empty());
    } else {
        lemma_scan_without_positional_names(sig, surplus, kwargs, start, n - 1);
        lemma_scan_unfold(sig, surplus, kwargs, start, n - 1);
        let before = sig.keyword_scan(surplus, kwargs.take(n - 1), start);
        let name = kwargs[n - 1].0;
        lemma_step_slots(sig, surplus, before, name, kwargs[n - 1].1);
        sig.keyword_only_names().index_of_first_ensures(name);
        sig.positional.index_of_first_ensures(name);
    }
}

/// Where the first `from` of the first `to` positional slots are filled and the others are
/// empty, the empty ones among the first `to` are the parameters from `from` on, in declared
/// order.
pub proof fn lemma_empty_positional_range<V>(
    sig: Signature,
    slots: Seq<Option<V>>,
    from: nat,
    to: nat,
)
    requires
        from <= to <= sig.positional.len(),
        forall|i: int| 0 <= i < from ==> (#[trigger] slots[i]) is Some,
        forall|i: int| from <= i < to ==> (#[trigger] slots[i]) is None,
    ensures
        sig.empty_positional(slots, to) == sig.positional.subrange(from as int, to as int),
    decreases to,
{
    if to == 0 {
        assert(sig.positional.subrange(0, 0) =~= Seq::empty());
    } else if to == from {
        lemma_empty_positional_range(sig, slots, (from - 1) as nat, (to - 1) as nat);
        assert(sig.positional.subrange(from - 1, to - 1) =~= Seq::empty());
        assert(sig.positional.subrange(from as int, to as int) =~= Seq::empty());
    } else {
        lemma_empty_positional_range(sig, slots, from, (to - 1) as nat);
        assert(sig.positional.subrange(from as int, to as int) =~= sig.positional.subrange(
            from as int,
            to - 1,
        ).push(sig.positional[to - 1]));
    }
}

/// A call that passes fewer positional arguments than the signature requires, and no keyword
/// that names a positional parameter, fails for the required positional parameters that got
/// no value, and the failure lists exactly those, in declared order.
///
/// The slots of those parameters are empty before the call, and every keyword either names a
/// keyword-only parameter or can be collected.
pub proof fn law_missing_required_positional<V>(
    sig: Signature,
    args: Seq<V>,
    kwargs: Seq<(Seq<char>, V)>,
    slots: Seq<Option<V>>,
)
    requires
        sig.wf(),
        slots.len() == sig.slot_count(),
        args.len() < sig.required_positional,
        forall|i: int| args.len() <= i < sig.required_positional ==> (#[trigger] slots[i]) is None,
        forall|u: int| 0 <= u < kwargs.len() ==> !sig.positional.contains(#[trigger] kwargs[u].0),
        sig.accept_varkeywords || forall|u: int|
            0 <= u < kwargs.len() ==> sig.keyword_only_names().contains(#[trigger] kwargs[u].0),
    ensures
        sig.bind(args, kwargs, slots).result == Err::<Surplus<V>, BindingError>(
            BindingError::MissingRequiredPositional {
                names: sig.positional.subrange(
                    args.len() as int,
                    sig.required_positional as int,
                ),
            },
        ),
{
    let start = scan_start(after_positional(sig, args, slots));
    lemma_scan_without_positional_names(
        sig,
        sig.surplus_keywords(),
        kwargs,
        start,
        kwargs.len() as int,
    );
    assert(kwargs.take(kwargs.len() as int) =~= kwargs);
    let scan = sig.keyword_scan(sig.surplus_keywords(), kwargs, start);
    assert forall|i: int| 0 <= i < args.len() implies (#[trigger] scan.slots[i]) is Some by {
        assert(start.slots[i] is Some);
    }
    assert forall|i: int| args.len() <= i < sig.required_positional implies (
    #[trigger] scan.slots[i]) is None by {
        assert(start.slots[i] == slots[i]);
    }
    lemma_empty_positional_range(sig, scan.slots, args.len(), sig.required_positional);
}

/// A call with more positional arguments than positional parameters fails for that reason,
/// and touches no slot, where the signature does not collect the surplus.
pub proof fn law_too_many_positional<V>(
    sig: Signature,
    args: Seq<V>,
    kwargs: Seq<(Seq<char>, V)>,
    slots: Seq<Option<V>>,
)
    requires
        args.len() > sig.positional.len(),
        !sig.accept_varargs,
    ensures
        sig.bind(args, kwargs, slots).result == Err::<Surplus<V>, BindingError>(
            BindingError::TooManyPositional { given: args.len() },
        ),
        sig.bind(args, kwargs, slots).slots == slots,
{
}

/// Where the signature collects surplus positional arguments, a call that fits hands back
/// the arguments beyond the positional parameters, in the order given, and never fails for
/// their number.
pub proof fn law_surplus_positional_collected<V>(
    sig: Signature,
    args: Seq<V>,
    kwargs: Seq<(Seq<char>, V)>,
    slots: Seq<Option<V>>,
)
    requires
        sig.accept_varargs,
    ensures
        sig.bind(args, kwargs, slots).result != Err::<Surplus<V>, BindingError>(
            BindingError::TooManyPositional { given: args.len() },
        ),
        sig.bind(args, kwargs, slots).result matches Ok(surplus) ==> surplus.varargs == Some(
            if args.len() > sig.positional.len() {
                args.subrange(sig.positional.len() as int, args.len() as int)
            } else {
                Seq::empty()
            },
        ),
{
    let binding = sig.bind(args, kwargs, slots);
    if binding.result is Ok && args.len() <= sig.positional.len() {
        assert(args.subrange(args.len() as int, args.len() as int) =~= Seq::empty());
    }
    lemma_failure_is_not_too_many(
        sig,
        sig.surplus_keywords(),
        kwargs,
        scan_start(after_positional(sig, args, slots)),
    );
}

/// The walk over the keywords never fails for the number of positional arguments.
pub proof fn lemma_failure_is_not_too_many<V>(
    sig: Signature,
    surplus: SurplusKeywords,
    kwargs: Seq<(Seq<char>, V)>,
    start: KeywordScan<V>,
)
    requires
        start.failure is None,
    ensures
        !(sig.keyword_scan(surplus, kwargs, start).failure matches Some(
            BindingError::TooManyPositional { .. },
        )),
    decreases kwargs.len(),
{
    if kwargs.len() > 0 {
        lemma_failure_is_not_too_many(sig, surplus, kwargs.drop_last(), start);
    }
}

/// A keyword that names a keyword-only parameter binds there, whatever the positional
/// arguments of the call: once the walk has reached the keyword, the parameter's slot holds
/// its value, unless a later keyword names the same parameter.
pub proof fn law_keyword_only_binds<V>(
    sig: Signature,
    args: Seq<V>,
    kwargs: Seq<(Seq<char>, V)>,
    slots: Seq<Option<V>>,
    t: int,
    k: int,
)
    requires
        sig.wf(),
        slots.len() == sig.slot_count(),
        !sig.too_many_positional(args.len()),
        0 <= t < kwargs.len(),
        sig.keyword_only_names().index_of_first(kwargs[t].0) == Some(k),
        forall|u: int| t < u < kwargs.len() ==> (#[trigger] kwargs[u].0) != kwargs[t].0,
        walk(sig, args, kwargs, slots, t).failure is None,
    ensures
        0 <= k < sig.keyword_only.len(),
        sig.bind(args, kwargs, slots).slots[sig.positional.len() + k] == Some(kwargs[t].1),
{
    let start = scan_start(after_positional(sig, args, slots));
    sig.keyword_only_names().index_of_first_ensures(kwargs[t].0);
    lemma_keyword_only_kept(
        sig,
        sig.surplus_keywords(),
        kwargs,
        start,
        t,
        k,
        kwargs.len() as int,
    );
    assert(kwargs.take(kwargs.len() as int) =~= kwargs);
}

/// The slot that keyword `t` filled holds its value after any number of further keywords of
/// other names.
proof fn lemma_keyword_only_kept<V>(
    sig: Signature,
    surplus: SurplusKeywords,
    kwargs: Seq<(Seq<char>, V)>,
    start: KeywordScan<V>,
    t: int,
    k: int,
    n: int,
)
    requires
        sig.wf(),
        start.slots.len() == sig.slot_count(),
        0 <= t < n <= kwargs.len(),
        sig.keyword_only_names().index_of_first(kwargs[t].0) == Some(k),
        forall|u: int| t < u < kwargs.len() ==> (#[trigger] kwargs[u].0) != kwargs[t].0,
        sig.keyword_scan(surplus, kwargs.take(t), start).failure is None,
    ensures
        sig.keyword_scan(surplus, kwargs.take(n), start).slots.len() == start.slots.len(),
        sig.keyword_scan(surplus, kwargs.take(n), start).slots[sig.positional.len() + k] == Some(
            kwargs[t].1,
        ),
    decreases n,
{
    lemma_scan_unfold(sig, surplus, kwargs, start, n - 1);
    lemma_scan_slots(sig, surplus, kwargs, start, n - 1);
    sig.keyword_only_names().index_of_first_ensures(kwargs[t].0);
    let before = sig.keyword_scan(surplus, kwargs.take(n - 1), start);
    if n == t + 1 {
        lemma_step_slots(sig, surplus, before, kwargs[t].0, kwargs[t].1);
    } else {
        lemma_keyword_only_kept(sig, surplus, kwargs, start, t, k, n - 1);
        if before.failure is None {
            let name = kwargs[n - 1].0;
            lemma_step_slots(sig, surplus, before, name, kwargs[n - 1].1);
            sig.keyword_only_names().index_of_first_ensures(name);
            sig.positional.index_of_first_ensures(name);
            assert(name != kwargs[t].0);
        }
    }
}

/// The keywords that name a positional-only parameter, in the order given.
pub open spec fn positional_only_named<V>(sig: Signature, kwargs: Seq<(Seq<char>, V)>) -> Seq<
    Seq<char>,
> {
    entry_names(kwargs).filter(|name: Seq<char>| sig.names_positional_only(name))
}

/// A walk that does not fail notes exactly the keywords that name a positional-only
/// parameter, in the order given, and binds none of them: the slots of the positional-only
/// parameters stay as they were.
pub proof fn lemma_scan_violations<V>(
    sig: Signature,
    surplus: SurplusKeywords,
    kwargs: Seq<(Seq<char>, V)>,
    start: KeywordScan<V>,
    n: int,
)
    requires
        sig.wf(),
        start.slots.len() == sig.slot_count(),
        start.failure is None,
        0 <= n <= kwargs.len(),
        sig.keyword_scan(surplus, kwargs.take(n), start).failure is None,
    ensures
        sig.keyword_scan(surplus, kwargs.take(n), start).violations == start.violations
            + positional_only_named(sig, kwargs.take(n)),
        forall|i: int|
            0 <= i < sig.positional_only ==> #[trigger] sig.keyword_scan(
                surplus,
                kwargs.take(n),
                start,
            ).slots[i] == start.slots[i],
    decreases n,
{
    reveal(Seq::filter);
    if n == 0 {
        assert(kwargs.take(0) =~= Seq::empty());
        assert(entry_names(kwargs.take(0)) =~= Seq::empty());
        assert(start.violations + Seq::<Seq<char>>::empty() =~= start.violations);
    } else {
        lemma_scan_unfold(sig, surplus, kwargs, start, n - 1);
        let before = sig.keyword_scan(surplus, kwargs.take(n - 1), start);
        let name = kwargs[n - 1].0;
        lemma_scan_violations(sig, surplus, kwargs, start, n - 1);
        lemma_scan_slots(sig, surplus, kwargs, start, n - 1);
        lemma_step_slots(sig, surplus, before, name, kwargs[n - 1].1);
        sig.keyword_only_names().index_of_first_ensures(name);
        sig.positional.index_of_first_ensures(name);
        let names = entry_names(kwargs.take(n));
        assert(names.drop_last() =~= entry_names(kwargs.take(n - 1)));
        assert(names.last() == name);
        let after = sig.keyword_scan(surplus, kwargs.take(n), start);
        assert(after.violations =~= start.violations + positional_only_named(
            sig,
            kwargs.take(n),
        ));
    }
}

/// A keyword that names a positional-only parameter never binds: where the walk over the
/// keywords meets no other failure, the call fails for the positional-only parameters passed
/// by keyword, the failure lists every such keyword, in the order given, and the slots of
/// the positional-only parameters are as the positional arguments left them.
pub proof fn law_positional_only_never_binds<V>(
    sig: Signature,
    args: Seq<V>,
    kwargs: Seq<(Seq<char>, V)>,
    slots: Seq<Option<V>>,
    t: int,
)
    requires
        sig.wf(),
        slots.len() == sig.slot_count(),
        !sig.too_many_positional(args.len()),
        0 <= t < kwargs.len(),
        sig.names_positional_only(kwargs[t].0),
        walk(sig, args, kwargs, slots, kwargs.len() as int).failure is None,
    ensures
        sig.bind(args, kwargs, slots).result == Err::<Surplus<V>, BindingError>(
            BindingError::PositionalOnlyAsKeyword { names: positional_only_named(sig, kwargs) },
        ),
        positional_only_named(sig, kwargs).contains(kwargs[t].0),
        forall|i: int|
            0 <= i < sig.positional_only ==> #[trigger] sig.bind(args, kwargs, slots).slots[i]
                == after_positional(sig, args, slots)[i],
{
    let start = scan_start(after_positional(sig, args, slots));
    assert(kwargs.take(kwargs.len() as int) =~= kwargs);
    lemma_scan_violations(sig, sig.surplus_keywords(), kwargs, start, kwargs.len() as int);
    assert(start.violations + positional_only_named(sig, kwargs) =~= positional_only_named(
        sig,
        kwargs,
    ));
    let names = entry_names(kwargs);
    let pred = |name: Seq<char>| sig.names_positional_only(name);
    assert(names[t] == kwargs[t].0);
    assert(names.contains(kwargs[t].0));
    names.lemma_filter_contains(pred, t);
}

/// A parameter that is passed by position and again by keyword fails the call for that
/// parameter: where the walk has reached the keyword without failure, the call fails with
/// multiple values for the parameter that the keyword names.
pub proof fn law_multiple_values<V>(
    sig: Signature,
    args: Seq<V>,
    kwargs: Seq<(Seq<char>, V)>,
    slots: Seq<Option<V>>,
    t: int,
    i: int,
)
    requires
        sig.wf(),
        slots.len() == sig.slot_count(),
        !sig.too_many_positional(args.len()),
        0 <= t < kwargs.len(),
        !sig.keyword_only_names().contains(kwargs[t].0),
        sig.positional.index_of_first(kwargs[t].0) == Some(i),
        sig.positional_only <= i < args.len(),
        walk(sig, args, kwargs, slots, t).failure is None,
    ensures
        sig.bind(args, kwargs, slots).result == Err::<Surplus<V>, BindingError>(
            BindingError::MultipleValues { name: kwargs[t].0 },
        ),
{
    let start = scan_start(after_positional(sig, args, slots));
    sig.keyword_only_names().index_of_first_ensures(kwargs[t].0);
    sig.positional.index_of_first_ensures(kwargs[t].0);
    assert(start.slots[i] is Some);
    lemma_scan_slots(sig, sig.surplus_keywords(), kwargs, start, t);
    lemma_scan_unfold(sig, sig.surplus_keywords(), kwargs, start, t);
    lemma_failed_scan_stays(sig, sig.surplus_keywords(), kwargs, t + 1, start);
}

/// The shapes of a rendered list: nothing for no name, the quoted name for one, `and` between
/// two, and for three a comma after each of the first two and `and` before the last.
pub proof fn law_parameter_list_shapes(a: Seq<char>, b: Seq<char>, c: Seq<char>)
    ensures
        parameter_list(Seq::empty()) == Seq::<char>::empty(),
        parameter_list(seq![a]) == quoted(a),
        parameter_list(seq![a, b]) == quoted(a) + " and "@ + quoted(b),
        parameter_list(seq![a, b, c]) == quoted(a) + ", "@ + quoted(b) + ", and "@ + quoted(c),
{
    reveal_with_fuel(parameter_list_prefix, 4);
    assert(parameter_list(seq![a]) =~= quoted(a));
    assert(parameter_list(seq![a, b]) =~= quoted(a) + " and "@ + quoted(b));
    assert(parameter_list(seq![a, b, c]) =~= quoted(a) + ", "@ + quoted(b) + ", and "@ + quoted(
        c,
    ));
}

/// The last of the first `n` keywords that goes to slot `i`, if one of them does.
pub open spec fn last_for_slot<V>(sig: Signature, kwargs: Seq<(Seq<char>, V)>, n: int, i: int)
    -> Option<int>
    decreases n,
{
    if n <= 0 {
        None
    } else if sig.target(kwargs[n - 1].0) == Some(i) {
        Some(n - 1)
    } else {
        last_for_slot(sig, kwargs, n - 1, i)
    }
}

/// After a walk that has not failed, each slot holds the value of the last keyword that
/// went to it, or else what it held before the walk.
pub proof fn lemma_scan_slot_values<V>(
    sig: Signature,
    surplus: SurplusKeywords,
    kwargs: Seq<(Seq<char>, V)>,
    start: KeywordScan<V>,
    n: int,
)
    requires
        sig.wf(),
        start.slots.len() == sig.slot_count(),
        start.failure is None,
        0 <= n <= kwargs.len(),
        sig.keyword_scan(surplus, kwargs.take(n), start).failure is None,
    ensures
        sig.keyword_scan(surplus, kwargs.take(n), start).slots.len() == start.slots.len(),
        forall|i: int|
            0 <= i < start.slots.len() ==> #[trigger] sig.keyword_scan(
                surplus,
                kwargs.take(n),
                start,
            ).slots[i] == match last_for_slot(sig, kwargs, n, i) {
                Some(u) => Some(kwargs[u].1),
                None => start.slots[i],
            },
    decreases n,
{
    if n == 0 {
        assert(kwargs.take(0) =~= Seq::empty());
    } else {
        lemma_scan_unfold(sig, surplus, kwargs, start, n - 1);
        let before = sig.keyword_scan(surplus, kwargs.take(n - 1), start);
        lemma_scan_slot_values(sig, surplus, kwargs, start, n - 1);
        lemma_step_slots(sig, surplus, before, kwargs[n - 1].0, kwargs[n - 1].1);
        lemma_target_in_range(sig, kwargs[n - 1].0);
    }
}

/// Where every keyword names a keyword-only parameter, the walk does not fail, notes no
/// positional-only parameter, collects nothing, and leaves the positional slots as they
/// were.
pub proof fn lemma_scan_of_keyword_only<V>(
    sig: Signature,
    surplus: SurplusKeywords,
    kwargs: Seq<(Seq<char>, V)>,
    start: KeywordScan<V>,
    n: int,
)
    requires
        sig.wf(),
        start.slots.len() == sig.slot_count(),
        start.failure is None,
        0 <= n <= kwargs.len(),
        forall|u: int|
            0 <= u < kwargs.len() ==> sig.keyword_only_names().contains(#[trigger] kwargs[u].0),
    ensures
        sig.keyword_scan(surplus, kwargs.take(n), start).failure is None,
        sig.keyword_scan(surplus, kwargs.take(n), start).violations == start.violations,
        sig.keyword_scan(surplus, kwargs.take(n), start).extras == start.extras,
        forall|i: int|
            0 <= i < sig.positional.len() ==> #[trigger] sig.keyword_scan(
                surplus,
                kwargs.take(n),
                start,
            ).slots[i] == start.slots[i],
    decreases n,
{
    if n == 0 {
        assert(kwargs.take(0) =~= Seq::empty());
    } else {
        lemma_scan_of_keyword_only(sig, surplus, kwargs, start, n - 1);
        lemma_scan_unfold(sig, surplus, kwargs, start, n - 1);
        lemma_scan_slots(sig, surplus, kwargs, start, n - 1);
        let before = sig.keyword_scan(surplus, kwargs.take(n - 1), start);
        let name = kwargs[n - 1].0;
        lemma_step_slots(sig, surplus, before, name, kwargs[n - 1].1);
        sig.keyword_only_names().index_of_first_ensures(name);
    }
}

/// Binding keyword-only parameters is idempotent: where every keyword of a call names a
/// keyword-only parameter, binding the same call again, into the slots that the first
/// binding left, leaves the same slots and comes to the same result.
pub proof fn law_rebinding_is_idempotent<V>(
    sig: Signature,
    args: Seq<V>,
    kwargs: Seq<(Seq<char>, V)>,
    slots: Seq<Option<V>>,
)
    requires
        sig.wf(),
        slots.len() == sig.slot_count(),
        forall|u: int|
            0 <= u < kwargs.len() ==> sig.keyword_only_names().contains(#[trigger] kwargs[u].0),
    ensures
        sig.bind(args, kwargs, sig.bind(args, kwargs, slots).slots) == sig.bind(
            args,
            kwargs,
            slots,
        ),
{
    if !sig.too_many_positional(args.len()) {
        let n = kwargs.len() as int;
        assert(kwargs.take(n) =~= kwargs);
        let first_start = scan_start(after_positional(sig, args, slots));
        let first = sig.keyword_scan(sig.surplus_keywords(), kwargs, first_start);
        lemma_scan_of_keyword_only(sig, sig.surplus_keywords(), kwargs, first_start, n);
        lemma_scan_slot_values(sig, sig.surplus_keywords(), kwargs, first_start, n);
        assert(after_positional(sig, args, first.slots) =~= first.slots);
        let second_start = scan_start(first.slots);
        let second = sig.keyword_scan(sig.surplus_keywords(), kwargs, second_start);
        lemma_scan_of_keyword_only(sig, sig.surplus_keywords(), kwargs, second_start, n);
        lemma_scan_slot_values(sig, sig.surplus_keywords(), kwargs, second_start, n);
        assert(second.slots =~= first.slots);
    }
}

/// No two entries of a keyword collection have the same name.
pub open spec fn distinct_names<V>(entries: Seq<(Seq<char>, V)>) -> bool {
    forall|i: int, j: int|
        0 <= i < j < entries.len() ==> (#[trigger] entries[i]).0 != (#[trigger] entries[j]).0
}

/// Setting a name in a keyword collection keeps the names distinct, and leaves that name
/// with the value it was set to.
pub proof fn lemma_dict_set_distinct<V>(entries: Seq<(Seq<char>, V)>, name: Seq<char>, value: V)
    requires
        distinct_names(entries),
    ensures
        distinct_names(dict_set(entries, name, value)),
        dict_set(entries, name, value).contains((name, value)),
{
    let names = entry_names(entries);
    names.index_of_first_ensures(name);
    let after = dict_set(entries, name, value);
    match names.index_of_first(name) {
        Some(at) => {
            assert(after[at] == (name, value));
            assert forall|i: int, j: int| 0 <= i < j < after.len() implies (#[trigger] after[i]).0
                != (#[trigger] after[j]).0 by {
                assert(names[at] == name);
                assert(after[i].0 == entries[i].0);
                assert(after[j].0 == entries[j].0);
            }
        },
        None => {
            assert(after[entries.len() as int] == (name, value));
            assert forall|i: int, j: int| 0 <= i < j < after.len() implies (#[trigger] after[i]).0
                != (#[trigger] after[j]).0 by {
                if j == entries.len() {
                    assert(names[i] == entries[i].0);
                }
            }
        },
    }
}

/// The keywords that a walk collects are a mapping: whatever the walk is told to do with
/// keywords that name no parameter, no two of the collected entries have the same name.
pub proof fn law_collected_names_distinct<V>(
    sig: Signature,
    surplus: SurplusKeywords,
    kwargs: Seq<(Seq<char>, V)>,
    start: KeywordScan<V>,
)
    requires
        start.extras matches Some(entries) ==> distinct_names(entries),
    ensures
        sig.keyword_scan(surplus, kwargs, start).extras matches Some(entries) ==> distinct_names(
            entries,
        ),
    decreases kwargs.len(),
{
    if kwargs.len() > 0 {
        law_collected_names_distinct(sig, surplus, kwargs.drop_last(), start);
        let before = sig.keyword_scan(surplus, kwargs.drop_last(), start);
        let entries = match before.extras {
            Some(entries) => entries,
            None => Seq::empty(),
        };
        let name = kwargs.last().0;
        lemma_dict_set_distinct(entries, name, kwargs.last().1);
        let after = sig.keyword_scan(surplus, kwargs, start);
        if after.extras != before.extras && surplus is CollectUnique {
            let pushed = entries.push((name, kwargs.last().1));
            assert forall|i: int, j: int| 0 <= i < j < pushed.len() implies (
            #[trigger] pushed[i]).0 != (#[trigger] pushed[j]).0 by {
                if j == entries.len() {
                    assert(entry_names(entries)[i] == entries[i].0);
                }
            }
        }
    }
}

/// Binding only fills slots: it keeps their number, and a slot that held a value before the
/// call holds one after it.
pub proof fn law_slots_are_only_filled<V>(
    sig: Signature,
    args: Seq<V>,
    kwargs: Seq<(Seq<char>, V)>,
    slots: Seq<Option<V>>,
)
    requires
        sig.wf(),
        slots.len() == sig.slot_count(),
    ensures
        sig.bind(args, kwargs, slots).slots.len() == slots.len(),
        forall|i: int|
            0 <= i < slots.len() && slots[i] is Some ==> (#[trigger] sig.bind(
                args,
                kwargs,
                slots,
            ).slots[i]) is Some,
{
    if !sig.too_many_positional(args.len()) {
        let start = scan_start(after_positional(sig, args, slots));
        lemma_scan_slots(sig, sig.surplus_keywords(), kwargs, start, kwargs.len() as int);
        assert(kwargs.take(kwargs.len() as int) =~= kwargs);
        assert forall|i: int| 0 <= i < slots.len() && slots[i] is Some implies (
        #[trigger] sig.bind(args, kwargs, slots).slots[i]) is Some by {
            assert(start.slots[i] is Some);
        }
    }
}

} // verus!
