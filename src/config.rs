use vstd::prelude::*;

verus! {

/// The way the region under test is obtained, paged in and given back.
#[derive(PartialEq, Eq, Structural, Clone, Copy, Debug)]
pub enum Strategy {
    /// A zero-filled heap buffer, paged in by writing zeros.
    HeapBuffer,
    /// As `HeapBuffer`, with a fixed delay before the pages are written.
    HeapBufferDelayed,
    /// A zero-filled heap buffer, paged in by pinning it in physical memory.
    PinnedHeapBuffer,
    /// A region from the raw allocator, paged in by a bulk set and freed explicitly.
    RawAllocate,
    /// An anonymous private mapping, paged in by a bulk set and unmapped explicitly.
    AnonymousMap,
}

/// Whether two character sequences are equal, compared one character at a time.
pub fn str_equal(a: &str, b: &str) -> (r: bool)
    ensures
        r == (a@ == b@),
{
    let n = a.unicode_len();
    if n != b.unicode_len() {
        return false;
    }
    let mut i: usize = 0;
    while i < n
        invariant
            n == a@.len(),
            n == b@.len(),
            i <= n,
            forall|j: int| 0 <= j < i ==> a@[j] == b@[j],
        decreases n - i,
    {
        if a.get_char(i) != b.get_char(i) {
            return false;
        }
        i = i + 1;
    }
    assert(a@ =~= b@);
    true
}

/// The strategy that a command-line name selects, if any.
pub open spec fn strategy_named(name: Seq<char>) -> Option<Strategy> {
    if name == "native"@ {
        Some(Strategy::HeapBuffer)
    } else if name == "native-wait"@ {
        Some(Strategy::HeapBufferDelayed)
    } else if name == "mlock"@ {
        Some(Strategy::PinnedHeapBuffer)
    } else if name == "malloc"@ {
        Some(Strategy::RawAllocate)
    } else if name == "mmap"@ {
        Some(Strategy::AnonymousMap)
    } else {
        None
    }
}

impl Strategy {
    /// Selects a strategy by its command-line name.
    pub fn from_name(name: &str) -> (r: Option<Strategy>)
        ensures
            r == strategy_named(name@),
    {
        if str_equal(name, "native") {
            Some(Strategy::HeapBuffer)
        } else if str_equal(name, "native-wait") {
            Some(Strategy::HeapBufferDelayed)
        } else if str_equal(name, "mlock") {
            Some(Strategy::PinnedHeapBuffer)
        } else if str_equal(name, "malloc") {
            Some(Strategy::RawAllocate)
        } else if str_equal(name, "mmap") {
            Some(Strategy::AnonymousMap)
        } else {
            None
        }
    }
}

/// Number of bytes in one megabyte.
pub const BYTES_PER_MB: usize = 1048576;

/// The byte count of `mb` megabytes, when it is a non-negative count that fits in `usize`.
pub open spec fn bytes_of_mb(mb: int) -> Option<nat> {
    if 0 <= mb && mb * 1048576 <= usize::MAX {
        Some((mb * 1048576) as nat)
    } else {
        None
    }
}

/// Converts a size in megabytes to bytes, refusing negative sizes and sizes beyond `usize`.
pub fn mb_to_bytes(mb: i64) -> (r: Option<usize>)
    ensures
        r matches Some(b) ==> bytes_of_mb(mb as int) == Some(b as nat),
        r is None ==> bytes_of_mb(mb as int) is None,
{
    if mb < 0 {
        return None;
    }
    let m: u64 = mb as u64;
    if m > (usize::MAX / BYTES_PER_MB) as u64 {
        assert(m * 1048576 > usize::MAX) by (nonlinear_arith)
            requires
                m > usize::MAX / 1048576,
        ;
        return None;
    }
    let n: usize = m as usize;
    assert(n * 1048576 <= usize::MAX) by (nonlinear_arith)
        requires
            n <= usize::MAX / 1048576,
    ;
    Some(n * BYTES_PER_MB)
}

/// A resolved run: what to reserve, how much of it to page in, and how to report.
#[derive(PartialEq, Eq, Structural, Clone, Copy, Debug)]
pub struct Config {
    pub reserve_bytes: usize,
    pub touch_bytes: usize,
    pub strategy: Strategy,
    pub verbose: bool,
    pub step: bool,
}

impl Config {
    /// A run reserves something and never pages in more than it reserved.
    pub open spec fn wf(self) -> bool {
        &&& self.reserve_bytes > 0
        &&& self.touch_bytes <= self.reserve_bytes
    }
}

/// What the program is asked to do.
#[derive(PartialEq, Eq, Structural, Clone, Copy, Debug)]
pub enum Invocation {
    /// Report memory and swap statistics, and nothing else.
    Query,
    /// Show how the program is used: no size to reserve was given.
    Usage,
    /// Run the reserve, touch and release lifecycle.
    Run(Config),
}

/// Why a set of options cannot be run.
#[derive(PartialEq, Eq, Structural, Clone, Copy, Debug)]
pub enum ConfigError {
    /// The allocation type names no strategy.
    UnknownStrategy,
    /// The reserve size is negative or its byte count does not fit in `usize`.
    ReserveOutOfRange,
    /// The touch size is negative or its byte count does not fit in `usize`.
    TouchOutOfRange,
    /// More bytes would be paged in than are reserved.
    TouchExceedsReserve,
}

/// The options as given on the command line, sizes in megabytes.
#[derive(Clone, Debug)]
pub struct Options {
    pub query: bool,
    pub verbose: bool,
    pub step: bool,
    pub init_size_mb: i64,
    pub use_size_mb: Option<i64>,
    pub alloc_type: String,
}

/// The megabytes to page in: the touch size when given, else the reserve size.
pub open spec fn touch_mb(o: Options) -> i64 {
    match o.use_size_mb {
        Some(u) => u,
        None => o.init_size_mb,
    }
}

/// What a set of options asks for.
pub open spec fn resolved(o: Options) -> Result<Invocation, ConfigError> {
    match strategy_named(o.alloc_type@) {
        None => Err(ConfigError::UnknownStrategy),
        Some(strategy) => if o.query {
            Ok(Invocation::Query)
        } else if o.init_size_mb == 0 {
            Ok(Invocation::Usage)
        } else {
            match bytes_of_mb(o.init_size_mb as int) {
                None => Err(ConfigError::ReserveOutOfRange),
                Some(reserve) => match bytes_of_mb(touch_mb(o) as int) {
                    None => Err(ConfigError::TouchOutOfRange),
                    Some(touch) => if touch > reserve {
                        Err(ConfigError::TouchExceedsReserve)
                    } else {
                        Ok(
                            Invocation::Run(
                                Config {
                                    reserve_bytes: reserve as usize,
                                    touch_bytes: touch as usize,
                                    strategy,
                                    verbose: o.verbose,
                                    step: o.step,
                                },
                            ),
                        )
                    },
                },
            }
        },
    }
}

impl Options {
    /// Resolves the options once, before anything is reserved.
    pub fn resolve(&self) -> (r: Result<Invocation, ConfigError>)
        ensures
            r == resolved(*self),
            r matches Ok(Invocation::Run(c)) ==> c.wf(),
    {
        let strategy = match Strategy::from_name(self.alloc_type.as_str()) {
            Some(s) => s,
            None => return Err(ConfigError::UnknownStrategy),
        };
        if self.query {
            return Ok(Invocation::Query);
        }
        if self.init_size_mb == 0 {
            return Ok(Invocation::Usage);
        }
        let reserve_bytes = match mb_to_bytes(self.init_size_mb) {
            Some(b) => b,
            None => return Err(ConfigError::ReserveOutOfRange),
        };
        let use_mb = match self.use_size_mb {
            Some(u) => u,
            None => self.init_size_mb,
        };
        let touch_bytes = match mb_to_bytes(use_mb) {
            Some(b) => b,
            None => return Err(ConfigError::TouchOutOfRange),
        };
        if touch_bytes > reserve_bytes {
            return Err(ConfigError::TouchExceedsReserve);
        }
        Ok(
            Invocation::Run(
                Config {
                    reserve_bytes,
                    touch_bytes,
                    strategy,
                    verbose: self.verbose,
                    step: self.step,
                },
            ),
        )
    }
}

} // verus!
