use vstd::prelude::*;

use crate::config::{checkout_outcome, CheckoutMode, PoolConfig, PoolError};
use crate::context::RequestContext;
use crate::pool::{
    build_pool, pool_max_size, pool_min_idle, pool_state, pool_target, pool_timeout_ms,
    share_pool, take_idle_connection, wait_for_connection, Lease, PoolState, SharedPool,
};

verus! {

/// A shared handle to a pool of database connections, registered in each unit
/// of work so that handler code can check connections out of it. A pool whose
/// maximum size is 0 holds no connections and opens none.
pub struct DieselMiddleware {
    pool: Option<SharedPool>,
    config: PoolConfig,
    target: String,
}

/// `pool` is what a pool built with `config` opening its connections to
/// `target` looks like: none where the maximum size is 0, else an r2d2 pool
/// that holds those parameters.
pub open spec fn built_with(pool: Option<SharedPool>, config: PoolConfig, target: Seq<char>) -> bool {
    match pool {
        Some(p) => {
            &&& config.max_size > 0
            &&& pool_max_size(p) == config.max_size
            &&& pool_min_idle(p) == config.min_idle
            &&& pool_timeout_ms(p) == config.timeout_ms
            &&& pool_target(p) == target
        },
        None => config.max_size == 0,
    }
}

impl DieselMiddleware {
    /// The parameters are consistent, and the pool was built with them.
    #[verifier::type_invariant]
    spec fn inv(self) -> bool {
        &&& self.config.valid()
        &&& built_with(self.pool, self.config, self.target@)
    }

    /// The parameters the pool was built with.
    pub closed spec fn config_spec(self) -> PoolConfig {
        self.config
    }

    /// The target the pool opens its connections to.
    pub closed spec fn target_spec(self) -> Seq<char> {
        self.target@
    }

    /// The r2d2 pool behind this handle; none where the maximum size is 0.
    pub closed spec fn pool_spec(self) -> Option<SharedPool> {
        self.pool
    }

    /// A pool with the default parameters, its connections opened to
    /// `connection_str`; `ConnectFailed` where they cannot be opened.
    pub fn new(connection_str: &str) -> (r: Result<DieselMiddleware, PoolError>)
        ensures
            r is Ok ==> r->Ok_0.config_spec() == PoolConfig::default_spec(),
            r is Ok ==> r->Ok_0.target_spec() == connection_str@,
            r is Ok ==> built_with(
                r->Ok_0.pool_spec(),
                PoolConfig::default_spec(),
                connection_str@,
            ),
            r is Err ==> r->Err_0 == PoolError::ConnectFailed,
    {
        Self::with_config(connection_str, PoolConfig::default_config())
    }

    /// A pool with the parameters `config`, its first `config.min_idle`
    /// connections opened to `connection_str` before it returns.
    /// `ConfigurationError` where the parameters are inconsistent, and then no
    /// connection is opened; `ConnectFailed` where the connections cannot be
    /// opened. With a minimum of 0 nothing is opened up front, and the pool is
    /// always built.
    pub fn with_config(connection_str: &str, config: PoolConfig) -> (r: Result<
        DieselMiddleware,
        PoolError,
    >)
        ensures
            !config.valid() ==> r == Err::<DieselMiddleware, PoolError>(
                PoolError::ConfigurationError,
            ),
            config.valid() ==> r is Ok || r == Err::<DieselMiddleware, PoolError>(
                PoolError::ConnectFailed,
            ),
            config.valid() && config.min_idle == 0 ==> r is Ok,
            r is Ok ==> r->Ok_0.config_spec() == config,
            r is Ok ==> r->Ok_0.target_spec() == connection_str@,
            r is Ok ==> built_with(r->Ok_0.pool_spec(), config, connection_str@),
    {
        if !config.is_valid() {
            return Err(PoolError::ConfigurationError);
        }
        let target = connection_str.to_owned();
        if config.max_size == 0 {
            return Ok(DieselMiddleware { pool: None, config, target });
        }
        match build_pool(config.min_idle, config.max_size, config.timeout_ms, connection_str) {
            Some(pool) => Ok(DieselMiddleware { pool: Some(pool), config, target }),
            None => Err(PoolError::ConnectFailed),
        }
    }

    /// The parameters the pool was built with.
    pub fn config(&self) -> (r: PoolConfig)
        ensures
            r == self.config_spec(),
            r.valid(),
    {
        proof {
            use_type_invariant(self);
        }
        self.config
    }

    /// Another handle to the same pool.
    pub fn share(&self) -> (r: DieselMiddleware)
        ensures
            r == *self,
    {
        proof {
            use_type_invariant(self);
        }
        let pool = match &self.pool {
            Some(p) => Some(share_pool(p)),
            None => None,
        };
        DieselMiddleware { pool, config: self.config, target: self.target.clone() }
    }

    /// Registers a handle to this pool in the context of a unit of work; run
    /// once per unit of work before any handler code.
    pub fn before(&self, ctx: &mut RequestContext<DieselMiddleware>)
        ensures
            final(ctx)@ == Some(*self),
    {
        ctx.register(self.share());
    }

    /// Checks a connection out of the pool. The connection goes back to the
    /// pool when the lease is dropped. A blocking pool waits up to its timeout
    /// for a connection to be freed or opened, and then fails with `Timeout`;
    /// a fail-fast pool fails at once with `PoolExhausted` when no connection
    /// is idle. A pool of maximum size 0 fails at once with its mode's error.
    pub fn checkout(&self) -> (r: Result<Lease, PoolError>)
        ensures
            r is Err ==> r->Err_0 == self.config_spec().mode.failure_spec(),
            self.config_spec().max_size == 0 ==> r == Err::<Lease, PoolError>(
                self.config_spec().mode.failure_spec(),
            ),
    {
        proof {
            use_type_invariant(self);
        }
        let got = match &self.pool {
            None => None,
            Some(p) => match self.config.mode {
                CheckoutMode::Block => wait_for_connection(p),
                CheckoutMode::FailFast => take_idle_connection(p),
            },
        };
        checkout_outcome(self.config.mode, got)
    }

    /// The pool's counts at this instant: the idle connections are among those
    /// it manages, and it never manages more than its maximum size.
    pub fn state(&self) -> (r: PoolState)
        ensures
            r.idle <= r.total,
            r.total <= self.config_spec().max_size,
    {
        proof {
            use_type_invariant(self);
        }
        match &self.pool {
            Some(p) => pool_state(p),
            None => PoolState { total: 0, idle: 0 },
        }
    }
}

/// Gives the context of a unit of work access to a database connection.
pub trait DieselReqExt {
    /// The pool handle registered in this unit of work, if any.
    spec fn registered(&self) -> Option<DieselMiddleware>;

    /// A connection from the registered pool, returned to the pool when it is
    /// dropped. `ContextMissing` where no pool was registered; otherwise the
    /// failure of the pool's checkout mode where no connection came.
    fn db_conn(&self) -> (r: Result<Lease, PoolError>)
        ensures
            self.registered() is None ==> r == Err::<Lease, PoolError>(
                PoolError::ContextMissing,
            ),
            self.registered() is Some && r is Err ==> r->Err_0
                == self.registered()->Some_0.config_spec().mode.failure_spec(),
    ;
}

impl DieselReqExt for RequestContext<DieselMiddleware> {
    open spec fn registered(&self) -> Option<DieselMiddleware> {
        self@
    }

    fn db_conn(&self) -> (r: Result<Lease, PoolError>) {
        match self.handle() {
            Ok(m) => m.checkout(),
            Err(e) => Err(e),
        }
    }
}

} // verus!
