//! Transport-level configuration for the SDK client: timeouts, retries with
//! exponential backoff, the `User-Agent`, and transaction polling.
//!
//! Defaults are tuned for interactive workloads: a 30 s request timeout, 3
//! retry attempts, a 1 s initial backoff doubling up to 30 s, a 60 s
//! transaction polling window, and a `xlm-ns-sdk/<version>` user agent.
use vstd::prelude::*;
use crate::duration::{max_nanos, Duration};

verus! {

/// Default per-request timeout, in seconds.
pub const DEFAULT_TIMEOUT: u64 = 30;

/// Default number of retry attempts for transient transport errors.
pub const DEFAULT_MAX_RETRIES: u32 = 3;

/// Default initial backoff delay between retries, in seconds.
pub const DEFAULT_INITIAL_BACKOFF: u64 = 1;

/// Default upper bound on the exponential backoff delay, in seconds.
pub const DEFAULT_MAX_BACKOFF: u64 = 30;

/// Default time the SDK waits for a submitted transaction to reach a terminal
/// state when final-status polling is enabled, in seconds.
pub const DEFAULT_TRANSACTION_POLL_TIMEOUT: u64 = 60;

/// The default `User-Agent` text.
pub open spec fn default_agent_text() -> Seq<char> {
    "xlm-ns-sdk/0.1.0"@
}

/// Returns the default `User-Agent` string identifying this SDK build.
pub fn default_user_agent() -> (r: String)
    ensures
        r@ == default_agent_text(),
{
    String::from_str("xlm-ns-sdk/0.1.0")
}

/// `2` to the power `n`.
pub open spec fn two_pow(n: nat) -> nat
    decreases n,
{
    if n == 0 { 1 } else { 2 * two_pow((n - 1) as nat) }
}

/// The smaller of two numbers.
pub open spec fn min_nat(a: nat, b: nat) -> nat {
    if a <= b { a } else { b }
}

/// Behavior for retrying transient transport errors.
#[derive(Debug, Clone, Copy, PartialEq, Eq, Structural)]
pub struct RetryConfig {
    /// Maximum number of retry attempts after the first failed call; zero
    /// disables retries.
    pub max_retries: u32,
    /// Delay before the first retry; each later retry doubles it, up to `max_backoff`.
    pub initial_backoff: Duration,
    /// Upper bound on the backoff delay between retries.
    pub max_backoff: Duration,
    /// When true, sleep a uniformly random time in `[0, backoff]` (full jitter).
    pub jitter: bool,
}

/// The base backoff, in nanoseconds, before retry `attempt` (0-indexed): none
/// when retries are disabled; else the initial backoff doubled `attempt` times
/// (at most 16), where a product longer than any duration counts as the cap,
/// then capped at the maximum backoff.
pub open spec fn backoff_nanos(c: RetryConfig, attempt: u32) -> nat {
    if c.max_retries == 0 {
        0
    } else {
        let product = c.initial_backoff@ * two_pow(if attempt < 16 { attempt as nat } else { 16 });
        let delay = if product <= max_nanos() { product } else { c.max_backoff@ };
        min_nat(delay, c.max_backoff@)
    }
}

pub(crate) fn power_of_two(n: u32) -> (r: u32)
    requires
        n <= 16,
    ensures
        r == two_pow(n as nat),
        r <= 65536,
{
    let mut r: u32 = 1;
    let mut i: u32 = 0;
    while i < n
        invariant
            i <= n <= 16,
            r == two_pow(i as nat),
        decreases n - i,
    {
        proof {
            lemma_two_pow_split((i + 1) as nat, (16 - i - 1) as nat);
        }
        r = r * 2;
        i += 1;
    }
    proof {
        lemma_two_pow_split(n as nat, (16 - n) as nat);
    }
    r
}

proof fn lemma_two_pow_split(a: nat, b: nat)
    requires
        a + b == 16,
    ensures
        two_pow(a) * two_pow(b) == 65536,
        two_pow(a) <= 65536,
{
    lemma_two_pow_mul(a, b);
    assert(two_pow(16) == 65536) by {
        reveal_with_fuel(two_pow, 17);
    }
    lemma_two_pow_positive(a);
    lemma_two_pow_positive(b);
    assert(two_pow(a) <= 65536) by (nonlinear_arith)
        requires
            two_pow(a) * two_pow(b) == 65536,
            two_pow(b) >= 1,
    {}
}

pub(crate) proof fn lemma_two_pow_positive(n: nat)
    ensures
        two_pow(n) >= 1,
    decreases n,
{
    if n > 0 {
        lemma_two_pow_positive((n - 1) as nat);
    }
}

pub(crate) proof fn lemma_two_pow_mul(a: nat, b: nat)
    ensures
        two_pow(a) * two_pow(b) == two_pow(a + b),
    decreases a,
{
    if a > 0 {
        let a1 = (a - 1) as nat;
        lemma_two_pow_mul(a1, b);
        let s: nat = a + b;
        assert(two_pow(s) == 2 * two_pow((s - 1) as nat));
        assert((s - 1) as nat == a1 + b);
        assert(two_pow(a) == 2 * two_pow(a1));
        let x = two_pow(a1);
        let y = two_pow(b);
        assert((2 * x) * y == 2 * (x * y)) by (nonlinear_arith);
        assert(two_pow(a) * y == (2 * x) * y);
    } else {
        let y = two_pow(b);
        assert(two_pow(a) == 1);
        assert(1 * y == y) by (nonlinear_arith);
        assert(two_pow(a) * y == 1 * y);
    }
}

/// Draws a number uniformly from `0..=max` with rand's thread-local generator
/// (`rand::thread_rng().gen_range(0..=max)`). Only the range of the result is
/// stated: it depends on chance.
#[verifier::external_body]
fn random_up_to(max: u64) -> (r: u64)
    ensures
        r <= max,
{
    rand::Rng::gen_range(&mut rand::thread_rng(), 0..=max)
}

impl RetryConfig {
    /// A retry policy that does not retry.
    pub fn disabled() -> (r: Self)
        ensures
            r.max_retries == 0,
            r.initial_backoff@ == 0,
            r.max_backoff@ == 0,
            !r.jitter,
    {
        RetryConfig {
            max_retries: 0,
            initial_backoff: Duration::from_millis(0),
            max_backoff: Duration::from_millis(0),
            jitter: false,
        }
    }

    /// The base backoff before retry `attempt` (0-indexed), capped at `max_backoff`.
    pub fn backoff_for(&self, attempt: u32) -> (r: Duration)
        ensures
            r@ == backoff_nanos(*self, attempt),
    {
        if self.max_retries == 0 {
            return Duration::from_millis(0);
        }
        let shift: u32 = if attempt < 16 { attempt } else { 16 };
        let factor = power_of_two(shift);
        let delay = match self.initial_backoff.checked_mul(factor) {
            Some(d) => d,
            None => self.max_backoff,
        };
        Duration::shorter(delay, self.max_backoff)
    }

    /// The time to sleep before retry `attempt`: the backoff itself without
    /// jitter (or when it is zero); with jitter, a random whole number of
    /// milliseconds no longer than the backoff.
    pub fn sleep_duration(&self, attempt: u32) -> (r: Duration)
        ensures
            r@ <= backoff_nanos(*self, attempt),
            (!self.jitter || backoff_nanos(*self, attempt) == 0) ==> r@ == backoff_nanos(*self, attempt),
            r@ == backoff_nanos(*self, attempt) || r@ % 1_000_000 == 0,
    {
        let base = self.backoff_for(attempt);
        if !self.jitter || base.is_zero() {
            return base;
        }
        let total = base.as_millis();
        let millis: u64 = if total < 18_446_744_073_709_551_615u128 { total as u64 } else { 18_446_744_073_709_551_615u64 };
        if millis == 0 {
            return Duration::from_millis(0);
        }
        let pick = random_up_to(millis);
        let r = Duration::from_millis(pick);
        assert(r@ <= base@) by (nonlinear_arith)
            requires
                r@ == pick as nat * 1_000_000,
                pick <= millis,
                millis <= base@ / 1_000_000,
        {}
        assert(r@ % 1_000_000 == 0) by (nonlinear_arith)
            requires
                r@ == pick as nat * 1_000_000,
        {}
        r
    }
}

impl Default for RetryConfig {
    /// Three retries, 1 s initial backoff doubling up to 30 s, with jitter.
    fn default() -> (r: Self)
        ensures
            r.max_retries == DEFAULT_MAX_RETRIES,
            r.initial_backoff@ == DEFAULT_INITIAL_BACKOFF * 1_000_000_000,
            r.max_backoff@ == DEFAULT_MAX_BACKOFF * 1_000_000_000,
            r.jitter,
    {
        RetryConfig {
            max_retries: DEFAULT_MAX_RETRIES,
            initial_backoff: Duration::from_secs(DEFAULT_INITIAL_BACKOFF),
            max_backoff: Duration::from_secs(DEFAULT_MAX_BACKOFF),
            jitter: true,
        }
    }
}

/// Capping: no backoff is ever longer than the maximum backoff.
pub proof fn lemma_backoff_capped(c: RetryConfig, attempt: u32)
    ensures
        backoff_nanos(c, attempt) <= c.max_backoff@,
{
}

/// Growth: the backoff never shrinks from one attempt to a later one.
pub proof fn lemma_backoff_monotone(c: RetryConfig, a: u32, b: u32)
    requires
        a <= b,
        c.max_backoff@ <= max_nanos(),
    ensures
        backoff_nanos(c, a) <= backoff_nanos(c, b),
{
    let ea: nat = if a < 16 { a as nat } else { 16 };
    let eb: nat = if b < 16 { b as nat } else { 16 };
    lemma_two_pow_mul(ea, (eb - ea) as nat);
    lemma_two_pow_positive((eb - ea) as nat);
    let x = c.initial_backoff@;
    assert(x * two_pow(ea) <= x * two_pow(eb)) by (nonlinear_arith)
        requires
            two_pow(ea) * two_pow((eb - ea) as nat) == two_pow(eb),
            two_pow((eb - ea) as nat) >= 1,
    {}
}

/// Doubling: before the cap and the 16th attempt, each retry waits twice as
/// long as the one before, capped at the maximum backoff.
pub proof fn lemma_backoff_doubles(c: RetryConfig, attempt: u32)
    requires
        attempt < 16,
        c.max_retries > 0,
        c.max_backoff@ <= max_nanos(),
    ensures
        backoff_nanos(c, (attempt + 1) as u32) == min_nat(2 * backoff_nanos(c, attempt), c.max_backoff@),
{
    let x = c.initial_backoff@;
    let p = two_pow(attempt as nat);
    assert(two_pow((attempt + 1) as nat) == 2 * p);
    assert(x * (2 * p) == 2 * (x * p)) by (nonlinear_arith);
}

/// Transport-level configuration shared by the SDK clients.
#[derive(Debug, Clone, PartialEq, Eq)]
pub struct ClientConfig {
    /// Per-request timeout.
    pub timeout: Duration,
    /// Retry policy applied to transient transport errors.
    pub retry: RetryConfig,
    /// Value sent in the HTTP `User-Agent` header on every request.
    pub user_agent: String,
    /// When true, write-path helpers poll for the terminal transaction status.
    pub poll_final_status: bool,
    /// Maximum time spent waiting for the transaction to settle.
    pub transaction_poll_timeout: Duration,
}

impl ClientConfig {
    /// Override `timeout`.
    pub fn with_timeout(self, timeout: Duration) -> (r: Self)
        ensures
            r == (ClientConfig { timeout, ..self }),
    {
        ClientConfig { timeout, ..self }
    }

    /// Override `retry` wholesale.
    pub fn with_retry(self, retry: RetryConfig) -> (r: Self)
        ensures
            r == (ClientConfig { retry, ..self }),
    {
        ClientConfig { retry, ..self }
    }

    /// Override the retry policy's `max_retries`.
    pub fn with_max_retries(self, max_retries: u32) -> (r: Self)
        ensures
            r == (ClientConfig { retry: RetryConfig { max_retries, ..self.retry }, ..self }),
    {
        let retry = RetryConfig { max_retries, ..self.retry };
        ClientConfig { retry, ..self }
    }

    /// Override the retry policy's `initial_backoff`.
    pub fn with_initial_backoff(self, initial_backoff: Duration) -> (r: Self)
        ensures
            r == (ClientConfig { retry: RetryConfig { initial_backoff, ..self.retry }, ..self }),
    {
        let retry = RetryConfig { initial_backoff, ..self.retry };
        ClientConfig { retry, ..self }
    }

    /// Override the retry policy's `max_backoff`.
    pub fn with_max_backoff(self, max_backoff: Duration) -> (r: Self)
        ensures
            r == (ClientConfig { retry: RetryConfig { max_backoff, ..self.retry }, ..self }),
    {
        let retry = RetryConfig { max_backoff, ..self.retry };
        ClientConfig { retry, ..self }
    }

    /// Turn the retry policy's jitter on or off.
    pub fn with_jitter(self, enabled: bool) -> (r: Self)
        ensures
            r == (ClientConfig { retry: RetryConfig { jitter: enabled, ..self.retry }, ..self }),
    {
        let retry = RetryConfig { jitter: enabled, ..self.retry };
        ClientConfig { retry, ..self }
    }

    /// Override `user_agent`.
    pub fn with_user_agent(self, user_agent: &str) -> (r: Self)
        ensures
            r.user_agent@ == user_agent@,
            r.timeout == self.timeout,
            r.retry == self.retry,
            r.poll_final_status == self.poll_final_status,
            r.transaction_poll_timeout == self.transaction_poll_timeout,
    {
        ClientConfig { user_agent: String::from_str(user_agent), ..self }
    }

    /// Enable or disable post-submission polling.
    pub fn with_poll_final_status(self, poll_final_status: bool) -> (r: Self)
        ensures
            r == (ClientConfig { poll_final_status, ..self }),
    {
        ClientConfig { poll_final_status, ..self }
    }

    /// Override the transaction polling timeout.
    pub fn with_transaction_poll_timeout(self, timeout: Duration) -> (r: Self)
        ensures
            r == (ClientConfig { transaction_poll_timeout: timeout, ..self }),
    {
        ClientConfig { transaction_poll_timeout: timeout, ..self }
    }
}

impl Default for ClientConfig {
    /// The documented defaults.
    fn default() -> (r: Self)
        ensures
            r.timeout@ == DEFAULT_TIMEOUT * 1_000_000_000,
            r.retry.max_retries == DEFAULT_MAX_RETRIES,
            r.retry.initial_backoff@ == DEFAULT_INITIAL_BACKOFF * 1_000_000_000,
            r.retry.max_backoff@ == DEFAULT_MAX_BACKOFF * 1_000_000_000,
            r.retry.jitter,
            r.user_agent@ == default_agent_text(),
            r.poll_final_status,
            r.transaction_poll_timeout@ == DEFAULT_TRANSACTION_POLL_TIMEOUT * 1_000_000_000,
    {
        ClientConfig {
            timeout: Duration::from_secs(DEFAULT_TIMEOUT),
            retry: RetryConfig::default(),
            user_agent: default_user_agent(),
            poll_final_status: true,
            transaction_poll_timeout: Duration::from_secs(DEFAULT_TRANSACTION_POLL_TIMEOUT),
        }
    }
}

/// A well-known Stellar network.
#[derive(Debug, Clone, Copy, PartialEq, Eq, Structural)]
pub enum NetworkPreset {
    Testnet,
    Mainnet,
}

/// The RPC endpoint of a network.
pub open spec fn preset_rpc_url(p: NetworkPreset) -> Seq<char> {
    match p {
        NetworkPreset::Testnet => "https://soroban-testnet.stellar.org"@,
        NetworkPreset::Mainnet => "https://soroban.stellar.org"@,
    }
}

/// The passphrase of a network.
pub open spec fn preset_passphrase(p: NetworkPreset) -> Seq<char> {
    match p {
        NetworkPreset::Testnet => "Test SDF Network ; September 2015"@,
        NetworkPreset::Mainnet => "Public Global Stellar Network ; September 2015"@,
    }
}

impl NetworkPreset {
    /// Soroban RPC endpoint for this network.
    pub fn rpc_url(self) -> (r: &'static str)
        ensures
            r@ == preset_rpc_url(self),
    {
        match self {
            NetworkPreset::Testnet => "https://soroban-testnet.stellar.org",
            NetworkPreset::Mainnet => "https://soroban.stellar.org",
        }
    }

    /// Network passphrase required for transaction signing.
    pub fn passphrase(self) -> (r: &'static str)
        ensures
            r@ == preset_passphrase(self),
    {
        match self {
            NetworkPreset::Testnet => "Test SDF Network ; September 2015",
            NetworkPreset::Mainnet => "Public Global Stellar Network ; September 2015",
        }
    }
}

} // verus!
