use vstd::prelude::*;

verus! {

/// A single-slot container that holds at most one value and hands it out at
/// most once: after a successful `take` it stays empty for good.
///
/// Callers on several threads share it behind a lock, which turns their
/// concurrent `take` calls into some sequence of calls; the laws below hold of
/// every such sequence.
pub struct HandleSlot<T> {
    item: Option<T>,
}

impl<T> View for HandleSlot<T> {
    type V = Option<T>;

    closed spec fn view(&self) -> Option<T> {
        self.item
    }
}

impl<T> HandleSlot<T> {
    /// A slot that holds `handle`.
    pub fn holding(handle: T) -> (s: Self)
        ensures
            s@ == Some(handle),
    {
        HandleSlot { item: Some(handle) }
    }

    /// A slot that holds nothing.
    pub fn vacant() -> (s: Self)
        ensures
            s@ is None,
    {
        HandleSlot { item: None }
    }

    /// Whether a value is still waiting to be taken.
    pub fn is_occupied(&self) -> (r: bool)
        ensures
            r == self@ is Some,
    {
        self.item.is_some()
    }

    /// Hands out the value, if any, and leaves the slot empty.
    pub fn take(&mut self) -> (r: Option<T>)
        ensures
            r == old(self)@,
            final(self)@ is None,
    {
        self.item.take()
    }
}

/// What `n` successive `take` calls return on a slot whose content is `slot`.
pub open spec fn takes<T>(slot: Option<T>, n: nat) -> Seq<Option<T>>
    decreases n,
{
    if n == 0 {
        Seq::empty()
    } else {
        seq![slot] + takes(None, (n - 1) as nat)
    }
}

/// How many of `results` hold a value.
pub open spec fn count_taken<T>(results: Seq<Option<T>>) -> nat
    decreases results.len(),
{
    if results.len() == 0 {
        0
    } else {
        (if results[0] is Some { 1nat } else { 0nat }) + count_taken(results.drop_first())
    }
}

/// On a vacant slot every `take` returns nothing.
pub proof fn vacant_slot_gives_nothing<T>(n: nat)
    ensures
        takes(None::<T>, n).len() == n,
        count_taken(takes(None::<T>, n)) == 0,
    decreases n,
{
    if n > 0 {
        vacant_slot_gives_nothing::<T>((n - 1) as nat);
        assert(takes(None::<T>, n).drop_first() =~= takes(None::<T>, (n - 1) as nat));
    }
}

/// Take-once: of `n >= 1` calls of `take` on a slot that holds `handle`, the
/// first returns `handle` and every other returns nothing.
pub proof fn take_once<T>(handle: T, n: nat)
    requires
        n >= 1,
    ensures
        takes(Some(handle), n).len() == n,
        takes(Some(handle), n)[0] == Some(handle),
        forall|i: int| 1 <= i < n ==> takes(Some(handle), n)[i] is None,
        count_taken(takes(Some(handle), n)) == 1,
{
    let rest = takes(None::<T>, (n - 1) as nat);
    vacant_slot_gives_nothing::<T>((n - 1) as nat);
    assert(takes(Some(handle), n).drop_first() =~= rest);
    assert forall|i: int| 0 <= i < rest.len() implies rest[i] is None by {
        vacant_slot_is_empty_at::<T>((n - 1) as nat, i);
    }
}

proof fn vacant_slot_is_empty_at<T>(n: nat, i: int)
    requires
        0 <= i < n,
    ensures
        takes(None::<T>, n).len() == n,
        takes(None::<T>, n)[i] is None,
    decreases n,
{
    vacant_slot_gives_nothing::<T>(n);
    if i > 0 {
        vacant_slot_is_empty_at::<T>((n - 1) as nat, i - 1);
        assert(takes(None::<T>, n).drop_first() =~= takes(None::<T>, (n - 1) as nat));
    }
}

} // verus!
