//! Drop-safe completion of one-shot futures.
//!
//! A [`Promise`] owns one item implementing [`FutureType`] and guarantees that
//! the item is completed exactly once: with the value handed to
//! [`Promise::complete`], or, when the promise reaches its teardown
//! ([`Promise::teardown`], run on every exit from the scope that holds it)
//! without that call, with the item's own fallback value.
use vstd::prelude::*;

verus! {

/// Types convertible to a [`Promise`] must implement this trait.
///
/// `on_drop` runs on the teardown path, where a failure has nowhere to go:
/// implementations must make it total.
pub trait FutureType<V> {
    /// The value that will be delivered if a promise of this type is dropped
    /// without being completed.
    fn on_drop() -> V;

    /// Completes the future with the specified value.
    fn complete(self, result: V);
}

/// How the item wrapped by a promise was completed.
pub enum Delivery<V> {
    /// With the value handed to [`Promise::complete`].
    Given(V),
    /// With the value from [`FutureType::on_drop`], when the promise reached
    /// its teardown without being completed.
    Fallback(V),
}

/// The record of deliveries after one more completion attempt: the attempt
/// delivers only when nothing was delivered before.
pub open spec fn record_step<V>(record: Seq<Delivery<V>>, attempt: Delivery<V>) -> Seq<Delivery<V>> {
    if record.len() == 0 {
        seq![attempt]
    } else {
        record
    }
}

/// The record of deliveries after a run of completion attempts, made in
/// order: `Given` for an explicit completion, `Fallback` for a teardown.
pub open spec fn record_after<V>(
    record: Seq<Delivery<V>>,
    attempts: Seq<Delivery<V>>,
) -> Seq<Delivery<V>>
    decreases attempts.len(),
{
    if attempts.len() == 0 {
        record
    } else {
        record_after(record_step(record, attempts[0]), attempts.drop_first())
    }
}

/// Once something was delivered, no later attempt delivers again.
pub proof fn lemma_completion_not_repeated<V>(record: Seq<Delivery<V>>, attempts: Seq<Delivery<V>>)
    requires
        record.len() > 0,
    ensures
        record_after(record, attempts) == record,
    decreases attempts.len(),
{
    if attempts.len() > 0 {
        lemma_completion_not_repeated(record_step(record, attempts[0]), attempts.drop_first());
    }
}

/// Over the life of a promise, from `wrap` through any completion attempts
/// to its teardown, the wrapped item is completed exactly once, and with the
/// value of the first attempt: the given value if `complete` came first, the
/// fallback otherwise.
pub proof fn lemma_completed_exactly_once<V>(attempts: Seq<Delivery<V>>)
    requires
        attempts.len() > 0,
        attempts.last() is Fallback,
    ensures
        record_after(Seq::empty(), attempts).len() == 1,
        record_after(Seq::empty(), attempts) == seq![attempts[0]],
{
    let first = record_step(Seq::<Delivery<V>>::empty(), attempts[0]);
    lemma_completion_not_repeated(first, attempts.drop_first());
}

/// A guard that is guaranteed to complete its underlying [`FutureType`],
/// even if it is abandoned before `complete` is called.
pub struct Promise<T, V> where T: FutureType<V> {
    inner: Option<T>,
    delivered: Ghost<Seq<Delivery<V>>>,
}

impl<T, V> Promise<T, V> where T: FutureType<V> {
    /// Whether the wrapped item still waits for its value.
    pub closed spec fn is_pending(&self) -> bool {
        self.inner is Some
    }

    /// The wrapped item, while it waits for its value.
    pub closed spec fn item(&self) -> Option<T> {
        self.inner
    }

    /// Every completion of the wrapped item made so far, in order.
    pub closed spec fn deliveries(&self) -> Seq<Delivery<V>> {
        self.delivered@
    }

    /// The item waits exactly as long as nothing was delivered to it, and it
    /// receives at most one value.
    pub open spec fn wf(&self) -> bool {
        &&& self.is_pending() <==> self.deliveries().len() == 0
        &&& self.deliveries().len() <= 1
    }

    /// Construct a promise from a FutureType.
    fn new(inner: T) -> (p: Self)
        ensures
            p.wf(),
            p.item() == Some(inner),
            p.deliveries() == Seq::<Delivery<V>>::empty(),
    {
        Promise { inner: Some(inner), delivered: Ghost(Seq::empty()) }
    }

    /// Complete the promise, consuming it.
    ///
    /// The result records what the wrapped item received over the whole life
    /// of the promise: the given value, if the item was still waiting.
    pub fn complete(self, result: V) -> (delivered: Ghost<Seq<Delivery<V>>>)
        requires
            self.wf(),
        ensures
            delivered@ == record_step(self.deliveries(), Delivery::Given(result)),
            self.is_pending() ==> delivered@ == seq![Delivery::Given(result)],
    {
        let mut this = self;
        if let Some(x) = this.inner.take() {
            this.delivered = Ghost(this.delivered@.push(Delivery::Given(result)));
            assert(this.delivered@ =~= seq![Delivery::Given(result)]);
            x.complete(result);
        }
        Ghost(this.delivered@)
    }

    /// The teardown path, for the end of the promise's life: if the wrapped
    /// item still waits, complete it with its fallback value; otherwise do
    /// nothing.
    pub fn teardown(&mut self)
        requires
            old(self).wf(),
        ensures
            final(self).wf(),
            !final(self).is_pending(),
            !old(self).is_pending() ==> final(self).deliveries() == old(self).deliveries(),
            old(self).is_pending() ==> exists|fallback: V|
                final(self).deliveries() == seq![Delivery::Fallback(fallback)],
    {
        if let Some(cb) = self.inner.take() {
            let fallback = T::on_drop();
            self.delivered = Ghost(self.delivered@.push(Delivery::Fallback(fallback)));
            assert(self.deliveries() =~= seq![Delivery::Fallback(fallback)]);
            cb.complete(fallback);
        }
    }
}

/// Wrap a type that implements FutureType into a promise.
pub fn wrap<T, V>(callback: T) -> (p: Promise<T, V>)
    where
        T: FutureType<V>,
    ensures
        p.wf(),
        p.is_pending(),
        p.item() == Some(callback),
        p.deliveries() == Seq::<Delivery<V>>::empty(),
{
    Promise::new(callback)
}

} // verus!
