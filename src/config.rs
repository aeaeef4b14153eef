use vstd::prelude::*;

verus! {

/// The kinds of failure that the pool surfaces to its callers.
#[derive(Debug, Clone, Copy, PartialEq, Eq, Structural)]
pub enum PoolError {
    /// The pool parameters are inconsistent; the pool never starts.
    ConfigurationError,
    /// The driver could not open a connection.
    ConnectFailed,
    /// No connection became available within the checkout timeout.
    Timeout,
    /// No connection was idle and the pool was asked not to wait.
    PoolExhausted,
    /// No pool handle was registered in the unit of work.
    ContextMissing,
}

/// What a checkout does when every connection is in use.
#[derive(Debug, Clone, Copy, PartialEq, Eq, Structural)]
pub enum CheckoutMode {
    /// Wait up to the checkout timeout for a connection to come back.
    Block,
    /// Fail at once with `PoolExhausted`.
    FailFast,
}

impl CheckoutMode {
    /// The error that a checkout in this mode reports when no connection came.
    pub open spec fn failure_spec(self) -> PoolError {
        match self {
            CheckoutMode::Block => PoolError::Timeout,
            CheckoutMode::FailFast => PoolError::PoolExhausted,
        }
    }

    pub fn failure(&self) -> (r: PoolError)
        ensures
            r == self.failure_spec(),
    {
        match self {
            CheckoutMode::Block => PoolError::Timeout,
            CheckoutMode::FailFast => PoolError::PoolExhausted,
        }
    }
}

/// Immutable parameters of a pool.
#[derive(Debug, Clone, Copy, PartialEq, Eq, Structural)]
pub struct PoolConfig {
    /// Connections opened at construction and kept idle.
    pub min_idle: u32,
    /// Most connections that the pool manages at once, idle and leased.
    pub max_size: u32,
    /// Longest wait of a blocking checkout, in milliseconds.
    pub timeout_ms: u64,
    /// What a checkout does when every connection is in use.
    pub mode: CheckoutMode,
}

/// The parameters are consistent: the minimum does not exceed the maximum,
/// and a checkout may wait a while.
pub open spec fn config_valid(min_idle: u32, max_size: u32, timeout_ms: u64) -> bool {
    &&& min_idle <= max_size
    &&& 0 < timeout_ms
}

/// Pool size used when none is given: r2d2's own default.
pub const DEFAULT_MAX_SIZE: u32 = 10;

/// Checkout timeout used when none is given, in milliseconds: r2d2's own
/// default of thirty seconds.
pub const DEFAULT_TIMEOUT_MS: u64 = 30000;

impl PoolConfig {
    /// The parameters used when none are given: a full pool of
    /// `DEFAULT_MAX_SIZE` connections opened at once, and blocking checkouts.
    pub open spec fn default_spec() -> PoolConfig {
        PoolConfig {
            min_idle: DEFAULT_MAX_SIZE,
            max_size: DEFAULT_MAX_SIZE,
            timeout_ms: DEFAULT_TIMEOUT_MS,
            mode: CheckoutMode::Block,
        }
    }

    pub fn default_config() -> (r: PoolConfig)
        ensures
            r == Self::default_spec(),
            r.valid(),
    {
        PoolConfig {
            min_idle: DEFAULT_MAX_SIZE,
            max_size: DEFAULT_MAX_SIZE,
            timeout_ms: DEFAULT_TIMEOUT_MS,
            mode: CheckoutMode::Block,
        }
    }

    pub open spec fn valid(self) -> bool {
        config_valid(self.min_idle, self.max_size, self.timeout_ms)
    }

    /// Checks the parameters and builds a configuration from them.
    pub fn new(min_idle: u32, max_size: u32, timeout_ms: u64, mode: CheckoutMode) -> (r: Result<
        PoolConfig,
        PoolError,
    >)
        ensures
            config_valid(min_idle, max_size, timeout_ms) ==> r == Ok::<PoolConfig, PoolError>(
                (PoolConfig { min_idle, max_size, timeout_ms, mode }),
            ),
            !config_valid(min_idle, max_size, timeout_ms) ==> r == Err::<PoolConfig, PoolError>(
                PoolError::ConfigurationError,
            ),
    {
        if min_idle > max_size || timeout_ms == 0 {
            Err(PoolError::ConfigurationError)
        } else {
            Ok(PoolConfig { min_idle, max_size, timeout_ms, mode })
        }
    }

    /// Whether these parameters are consistent.
    pub fn is_valid(&self) -> (r: bool)
        ensures
            r == self.valid(),
    {
        self.min_idle <= self.max_size && self.timeout_ms > 0
    }
}

/// The result of a checkout, given what the pool handed back: the lease when
/// there was one, else the failure of the checkout mode.
pub fn checkout_outcome<L>(mode: CheckoutMode, got: Option<L>) -> (r: Result<L, PoolError>)
    ensures
        match got {
            Some(l) => r == Ok::<L, PoolError>(l),
            None => r == Err::<L, PoolError>(mode.failure_spec()),
        },
{
    match got {
        Some(l) => Ok(l),
        None => Err(mode.failure()),
    }
}

} // verus!
