use vstd::prelude::*;

use std::sync::Arc;

use diesel::SqliteConnection;
use r2d2::{Pool, PooledConnection};
use r2d2_diesel::ConnectionManager;

verus! {

/// The connection type that the pool manages.
pub type DbConnection = SqliteConnection;

#[verifier::external_type_specification]
#[verifier::external_body]
pub struct ExSqliteConnection(SqliteConnection);

/// A shared, thread-safe handle to an r2d2 pool of connections. Clones of the
/// handle refer to the same pool.
#[verifier::external_body]
pub struct SharedPool {
    pool: Arc<Pool<ConnectionManager<DbConnection>>>,
}

/// Exclusive use of one connection checked out of a pool; dropping the lease
/// hands the connection back to the pool.
#[verifier::external_body]
pub struct Lease {
    pub conn: PooledConnection<ConnectionManager<DbConnection>>,
}

/// A snapshot of a pool's bookkeeping.
#[derive(Debug, Clone, Copy, PartialEq, Eq, Structural)]
pub struct PoolState {
    /// Connections that the pool manages, idle and leased.
    pub total: u32,
    /// Connections that are idle.
    pub idle: u32,
}

/// The maximum size that a pool was built with.
pub uninterp spec fn pool_max_size(p: SharedPool) -> u32;

/// The minimum idle count that a pool was built with.
pub uninterp spec fn pool_min_idle(p: SharedPool) -> u32;

/// The checkout timeout that a pool was built with, in milliseconds.
pub uninterp spec fn pool_timeout_ms(p: SharedPool) -> u64;

/// The target that a pool opens its connections to.
pub uninterp spec fn pool_target(p: SharedPool) -> Seq<char>;

/// Relies on `r2d2_diesel::ConnectionManager::new`, which keeps `target` to
/// open each connection with `SqliteConnection::establish(target)`, and on
/// r2d2's `Builder` (`max_size`, `min_idle`, `connection_timeout`, `build`),
/// which keeps the parameters in the pool. `build` waits until the first
/// `min_idle` connections are open, so with a minimum of 0 it returns at once
/// with the pool; otherwise it gives `None` where they were not opened in
/// time. The `requires` leaves out the parameters on which the builder panics.
#[verifier::external_body]
pub(crate) fn build_pool(min_idle: u32, max_size: u32, timeout_ms: u64, target: &str) -> (r:
    Option<SharedPool>)
    requires
        1 <= max_size,
        min_idle <= max_size,
        0 < timeout_ms,
    ensures
        min_idle == 0 ==> r is Some,
        r is Some ==> pool_max_size(r->Some_0) == max_size,
        r is Some ==> pool_min_idle(r->Some_0) == min_idle,
        r is Some ==> pool_timeout_ms(r->Some_0) == timeout_ms,
        r is Some ==> pool_target(r->Some_0) == target@,
{
    let manager = ConnectionManager::<DbConnection>::new(target);
    let built = Pool::builder().max_size(max_size).min_idle(Some(min_idle)).connection_timeout(
        std::time::Duration::from_millis(timeout_ms),
    ).build(manager);
    match built {
        Ok(pool) => Some(SharedPool { pool: Arc::new(pool) }),
        Err(_) => None,
    }
}

/// Relies on `Arc::clone`: another handle to the same pool.
#[verifier::external_body]
pub(crate) fn share_pool(p: &SharedPool) -> (r: SharedPool)
    ensures
        r == *p,
{
    SharedPool { pool: Arc::clone(&p.pool) }
}

/// Relies on `r2d2::Pool::get`: waits at most the pool's connection timeout
/// for a connection; `None` where none came in time.
#[verifier::external_body]
pub(crate) fn wait_for_connection(p: &SharedPool) -> Option<Lease> {
    match p.pool.get() {
        Ok(conn) => Some(Lease { conn }),
        Err(_) => None,
    }
}

/// Relies on `r2d2::Pool::try_get`: an idle connection if there is one,
/// without waiting.
#[verifier::external_body]
pub(crate) fn take_idle_connection(p: &SharedPool) -> Option<Lease> {
    match p.pool.try_get() {
        Some(conn) => Some(Lease { conn }),
        None => None,
    }
}

/// Relies on `r2d2::Pool::state`: the pool's counts, taken under its lock.
/// r2d2 opens a connection only while it manages fewer than its maximum size,
/// and each idle connection is one that it manages.
#[verifier::external_body]
pub(crate) fn pool_state(p: &SharedPool) -> (r: PoolState)
    ensures
        r.idle <= r.total,
        r.total <= pool_max_size(*p),
{
    let s = p.pool.state();
    PoolState { total: s.connections, idle: s.idle_connections }
}

} // verus!
