use vstd::prelude::*;
use crate::cache_key::{Namespace, key_of};
use crate::coordinator::{ActionView, Entity, Operation, Reports, StoreError, drive, run};

verus! {

/// Every operation replies within three steps, whatever the cache and the store report.
pub proof fn law_runs_reply<E: Entity>(op: Operation, ns: Namespace, rep: Reports<E>)
    ensures
        run(op, ns, rep).reply is Some,
{
    reveal_with_fuel(drive, 4);
}

/// A get that follows a successful create of `e` answers `e`: from the cache when its read
/// finds what the create wrote, from the store otherwise.
pub proof fn law_get_after_create<E: Entity>(
    ns: Namespace,
    e: E,
    create_reports: Reports<E>,
    get_reports: Reports<E>,
)
    requires
        create_reports.stored == Ok::<E, StoreError>(e),
        get_reports.stored == Ok::<E, StoreError>(e),
        get_reports.cache_read is Hit ==> get_reports.cache_read->Hit_0 == e,
    ensures
        run(Operation::Create, ns, create_reports).reply == Some(Ok::<Option<E>, StoreError>(Some(e))),
        run(Operation::Create, ns, create_reports).cache_change == Some(
            ActionView::WriteCache { key: key_of(ns, e.spec_id()), value: e },
        ),
        run(Operation::Get(e.spec_id()), ns, get_reports).reply == Some(
            Ok::<Option<E>, StoreError>(Some(e)),
        ),
{
    reveal_with_fuel(drive, 4);
}

/// After a successful update of `id` to `f`, the cache entry of `id` is overwritten with `f`,
/// and a get whose read finds that entry, or falls back to the store, answers `f`.
pub proof fn law_get_after_update<E: Entity>(
    ns: Namespace,
    id: u128,
    f: E,
    update_reports: Reports<E>,
    get_reports: Reports<E>,
)
    requires
        update_reports.stored == Ok::<E, StoreError>(f),
        get_reports.stored == Ok::<E, StoreError>(f),
        get_reports.cache_read is Hit ==> get_reports.cache_read->Hit_0 == f,
    ensures
        run(Operation::Update(id), ns, update_reports).reply == Some(
            Ok::<Option<E>, StoreError>(Some(f)),
        ),
        run(Operation::Update(id), ns, update_reports).cache_change == Some(
            ActionView::WriteCache { key: key_of(ns, id), value: f },
        ),
        run(Operation::Get(id), ns, get_reports).reply == Some(Ok::<Option<E>, StoreError>(Some(f))),
{
    reveal_with_fuel(drive, 4);
}

/// After a successful delete of `id`, the cache entry of `id` is removed, and a get whose
/// read misses while the store no longer has `id` answers `NotFound`.
pub proof fn law_get_after_delete<E: Entity>(
    ns: Namespace,
    id: u128,
    delete_reports: Reports<E>,
    get_reports: Reports<E>,
)
    requires
        delete_reports.deleted == Ok::<(), StoreError>(()),
        !(get_reports.cache_read is Hit),
        get_reports.stored == Err::<E, StoreError>(StoreError::NotFound),
    ensures
        run(Operation::Delete(id), ns, delete_reports).reply == Some(
            Ok::<Option<E>, StoreError>(None),
        ),
        run(Operation::Delete(id), ns, delete_reports).cache_change == Some(
            ActionView::<E>::DeleteCache { key: key_of(ns, id) },
        ),
        run(Operation::Get(id), ns, get_reports).reply == Some(
            Err::<Option<E>, StoreError>(StoreError::NotFound),
        ),
        run(Operation::Get(id), ns, get_reports).cache_change == None::<ActionView<E>>,
{
    reveal_with_fuel(drive, 4);
}

/// A get whose read misses (the entry expired, or was never there) asks the store and
/// writes what the store returned back into the cache.
pub proof fn law_miss_refills<E: Entity>(ns: Namespace, id: u128, e: E, rep: Reports<E>)
    requires
        !(rep.cache_read is Hit),
        rep.stored == Ok::<E, StoreError>(e),
    ensures
        run(Operation::Get(id), ns, rep).reply == Some(Ok::<Option<E>, StoreError>(Some(e))),
        run(Operation::Get(id), ns, rep).cache_change == Some(
            ActionView::WriteCache { key: key_of(ns, id), value: e },
        ),
{
    reveal_with_fuel(drive, 4);
}

/// The reply an operation owes when the store answered `stored` or `deleted`.
pub open spec fn store_verdict<E>(
    op: Operation,
    stored: Result<E, StoreError>,
    deleted: Result<(), StoreError>,
) -> Result<Option<E>, StoreError> {
    if op is Delete {
        match deleted {
            Ok(()) => Ok(None),
            Err(k) => Err(k),
        }
    } else {
        match stored {
            Ok(e) => Ok(Some(e)),
            Err(k) => Err(k),
        }
    }
}

/// With a cache that fails every call, each operation replies exactly what the store's
/// outcome dictates: cache failures never become errors of the operation.
pub proof fn law_cache_outage_is_harmless<E: Entity>(
    op: Operation,
    ns: Namespace,
    rep: Reports<E>,
)
    requires
        rep.cache_read is Failed,
        rep.cache_done is Err,
    ensures
        run(op, ns, rep).reply == Some(store_verdict(op, rep.stored, rep.deleted)),
{
    reveal_with_fuel(drive, 4);
}

/// A failed store mutation leaves the cache untouched and its error reaches the caller.
pub proof fn law_store_failure_leaves_cache<E: Entity>(
    op: Operation,
    ns: Namespace,
    rep: Reports<E>,
)
    requires
        !(op is Get),
        rep.stored is Err,
        rep.deleted is Err,
    ensures
        run(op, ns, rep).cache_change == None::<ActionView<E>>,
        run(op, ns, rep).reply == Some(store_verdict(op, rep.stored, rep.deleted)),
{
    reveal_with_fuel(drive, 4);
}

} // verus!
