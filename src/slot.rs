use vstd::prelude::*;
use crate::plan::missing_message;

verus! {

// A generated builder keeps one slot per field of the target: an
// `Option<T>` for a field of type `T`, `Option<Vec<T>>` for a `Vec<T>`
// field, and `Option<T>` again for an `Option<T>` field. The functions
// below are what its setters, appenders and finalizer do to one slot.

/// What a collection slot holds, as a sequence where it is set.
pub open spec fn collected<T>(slot: Option<Vec<T>>) -> Option<Seq<T>> {
    match slot {
        Some(v) => Some(v@),
        None => None,
    }
}

/// The elements in a collection slot; none while it is unset.
pub open spec fn items<T>(slot: Option<Seq<T>>) -> Seq<T> {
    match slot {
        Some(s) => s,
        None => Seq::empty(),
    }
}

/// The slot after one call of the appender.
pub open spec fn pushed<T>(slot: Option<Seq<T>>, item: T) -> Option<Seq<T>> {
    Some(items(slot).push(item))
}

/// The slot after the appender was called with each of `xs` in turn.
pub open spec fn pushed_all<T>(slot: Option<Seq<T>>, xs: Seq<T>) -> Option<Seq<T>>
    decreases xs.len(),
{
    if xs.len() == 0 {
        slot
    } else {
        pushed(pushed_all(slot, xs.drop_last()), xs.last())
    }
}

/// What the finalizer makes of the slot of a required field `name`.
pub open spec fn finish_required<T>(slot: Option<T>, name: Seq<char>) -> Result<T, Seq<char>> {
    match slot {
        Some(v) => Ok(v),
        None => Err(missing_message(name)),
    }
}

/// What the finalizer makes of the slot of an `Option` field.
pub open spec fn finish_optional<T>(slot: Option<T>) -> Option<T> {
    slot
}

/// What the finalizer makes of the slot of a `Vec` field.
pub open spec fn finish_repeated<T>(slot: Option<Seq<T>>) -> Seq<T> {
    items(slot)
}

/// The slot after one call of the whole-value setter: `value`, whatever
/// it held.
pub open spec fn assigned<T>(slot: Option<T>, value: T) -> Option<T> {
    Some(value)
}

/// The whole-value setter.
pub fn set_slot<T>(slot: &mut Option<T>, value: T)
    ensures
        *final(slot) == assigned(*old(slot), value),
{
    *slot = Some(value);
}

/// The appender: adds `item` at the end of the collection, starting an
/// empty one on first use.
pub fn push_item<T>(slot: &mut Option<Vec<T>>, item: T)
    ensures
        collected(*final(slot)) == pushed(collected(*old(slot)), item),
{
    match slot {
        Some(v) => {
            v.push(item);
        },
        None => {
            let mut v: Vec<T> = Vec::new();
            v.push(item);
            *slot = Some(v);
        },
    }
}

/// Moves a required value out of its slot, which must be set.
pub fn take_required<T>(slot: &mut Option<T>) -> (r: T)
    requires
        old(slot).is_some(),
    ensures
        r == old(slot).unwrap(),
        *final(slot) is None,
{
    slot.take().unwrap()
}

/// Moves an optional value out of its slot, set or not.
pub fn take_optional<T>(slot: &mut Option<T>) -> (r: Option<T>)
    ensures
        r == finish_optional(*old(slot)),
        *final(slot) is None,
{
    slot.take()
}

/// Moves a collection out of its slot; an unset slot gives an empty one.
pub fn take_repeated<T>(slot: &mut Option<Vec<T>>) -> (r: Vec<T>)
    ensures
        r@ == finish_repeated(collected(*old(slot))),
        *final(slot) is None,
{
    match slot.take() {
        Some(v) => v,
        None => Vec::new(),
    }
}

/// Setting each field and then finalizing gives back exactly what was
/// set, for a required, an optional and a repeated field alike.
pub proof fn lemma_set_then_finish<A, B, C>(name: Seq<char>, a: A, b: B, c: Seq<C>)
    ensures
        finish_required(Some(a), name) == Ok::<A, Seq<char>>(a),
        finish_optional(Some(b)) == Some(b),
        finish_repeated(Some(c)) == c,
{
}

/// A required field left unset makes the finalizer fail with
/// `Field <name> not initialized`; once set, it succeeds with the value.
pub proof fn lemma_required_field<T>(name: Seq<char>, v: T)
    ensures
        finish_required(None::<T>, name) == Err::<T, _>("Field "@ + name + " not initialized"@),
        finish_required(Some(v), name) == Ok::<T, Seq<char>>(v),
{
}

/// An optional field left unset finalizes to `None`; set to `v`, to
/// `Some(v)`.
pub proof fn lemma_optional_field<T>(v: T)
    ensures
        finish_optional(None::<T>) == None::<T>,
        finish_optional(Some(v)) == Some(v),
{
}

/// Appending `n` values to an unset collection slot gives a collection of
/// those `n` values in the order of the calls.
pub proof fn lemma_appends_in_order<T>(xs: Seq<T>)
    ensures
        finish_repeated(pushed_all(None, xs)) == xs,
        finish_repeated(pushed_all(None, xs)).len() == xs.len(),
    decreases xs.len(),
{
    if xs.len() > 0 {
        lemma_appends_in_order(xs.drop_last());
        assert(xs.drop_last().push(xs.last()) =~= xs);
    }
}

/// The whole-collection setter replaces what the appender gathered, and
/// does not add to it.
pub proof fn lemma_setter_replaces<T>(xs: Seq<T>, ys: Seq<T>)
    ensures
        finish_repeated(assigned(pushed_all(None, xs), ys)) == ys,
{
}

} // verus!
