//! Wall-clock bounds on the PerryTS subprocesses.

use crate::text;
use vstd::prelude::*;
use vstd::string::*;

verus! {

/// A span of time, or a moment as the span since some fixed start.
#[derive(Clone, Copy, PartialEq, Eq, Structural)]
pub struct Bound {
    pub secs: u64,
    /// Below one second.
    pub nanos: u32,
}

/// The bound on `perry --version`, which keys the cache and so stands on the
/// way of every run.
pub const PERRY_VERSION_SECS: u64 = 5;

/// The bound on `perry check`, which answers in tens of milliseconds.
pub const PERRY_CHECK_SECS: u64 = 20;

/// The bound on `perry compile`, which generates code and links.
pub const PERRY_COMPILE_SECS: u64 = 120;

/// How long the readers of a subprocess's pipes may take once it has exited.
pub const READER_DRAIN_GRACE_MILLIS: u64 = 500;

/// How long to sleep between two looks at a running subprocess.
pub const POLL_MILLIS: u64 = 25;

/// How long to sleep between two looks at the readers of its pipes.
pub const DRAIN_POLL_MILLIS: u64 = 5;

impl Bound {
    /// The sub-second part is less than a second.
    pub open spec fn wf(self) -> bool {
        self.nanos < 1_000_000_000
    }

    /// The span in nanoseconds.
    pub open spec fn total(self) -> nat {
        (self.secs * 1_000_000_000 + self.nanos) as nat
    }

    /// A span of whole seconds.
    pub fn from_secs(secs: u64) -> (r: Bound)
        ensures
            r.wf(),
            r.total() == secs * 1_000_000_000,
            r == (Bound { secs, nanos: 0 }),
    {
        Bound { secs, nanos: 0 }
    }

    /// A span of whole milliseconds.
    pub fn from_millis(millis: u64) -> (r: Bound)
        ensures
            r.wf(),
            r.total() == millis * 1_000_000,
            r == Bound::of_millis(millis),
    {
        Bound { secs: millis / 1000, nanos: (millis % 1000) as u32 * 1_000_000 }
    }

    /// A span of whole milliseconds.
    pub open spec fn of_millis(millis: u64) -> Bound {
        Bound { secs: millis / 1000, nanos: ((millis % 1000) * 1_000_000) as u32 }
    }

    /// The span in nanoseconds.
    pub fn as_nanos(&self) -> (r: u128)
        ensures
            r == self.total(),
    {
        self.secs as u128 * 1_000_000_000 + self.nanos as u128
    }
}

/// The bound that applies to a subprocess: the number of milliseconds that the
/// internal setting `__NUB_COOK_PERRY_TIMEOUT_MS` holds, and `default` where it
/// is absent or no such number.
pub open spec fn bound_for(setting: Option<Seq<char>>, default: Bound) -> Bound {
    match setting {
        Some(s) => match text::parsed_u64(s) {
            Some(millis) => Bound::of_millis(millis),
            None => default,
        },
        None => default,
    }
}

/// The bound that applies to a subprocess: the number of milliseconds that the
/// internal setting `__NUB_COOK_PERRY_TIMEOUT_MS` holds, and `default` where it
/// is absent or no such number.
pub fn timeout_for(setting: Option<&str>, default: Bound) -> (r: Bound)
    ensures
        setting is Some ==> r == bound_for(Some(setting->0@), default),
        setting is None ==> r == default,
        default.wf() ==> r.wf(),
{
    if let Some(s) = setting {
        if let Some(millis) = text::parse_u64(s) {
            return Bound::from_millis(millis);
        }
    }
    default
}

/// How a bound is written in a message: in seconds when it is one or more
/// seconds with no millisecond left over, in milliseconds otherwise.
pub open spec fn bound_text(d: Bound) -> Seq<char> {
    if d.nanos / 1_000_000 == 0 && d.secs > 0 {
        text::decimal(d.secs as nat) + "s"@
    } else {
        text::decimal(d.total() / 1_000_000) + "ms"@
    }
}

/// How a bound is written in a message: in seconds when it is one or more
/// seconds with no millisecond left over, in milliseconds otherwise.
pub fn fmt_bound(d: Bound) -> (r: String)
    ensures
        r@ == bound_text(d),
{
    if d.nanos / 1_000_000 == 0 && d.secs > 0 {
        let mut r = text::decimal_text(d.secs as u128);
        r.append("s");
        r
    } else {
        let mut r = text::decimal_text(d.as_nanos() / 1_000_000);
        r.append("ms");
        r
    }
}

// ---------------------------------------------------------------------------
// Laws
// ---------------------------------------------------------------------------

/// A bound is its seconds and its nanoseconds together.
pub proof fn law_bound_is_seconds_and_nanoseconds(b: Bound)
    ensures
        b.total() == b.secs * 1_000_000_000 + b.nanos,
        b.wf() <==> b.nanos < 1_000_000_000,
{
}

/// The setting replaces the bound whenever it is a number, by that many
/// milliseconds, and leaves it alone otherwise.
pub proof fn law_setting_replaces_the_bound(setting: Option<Seq<char>>, default: Bound)
    ensures
        setting matches Some(s) && text::parsed_u64(s) is Some ==> {
            &&& bound_for(setting, default).wf()
            &&& bound_for(setting, default).total() == text::parsed_u64(setting->0)->0 * 1_000_000
        },
        setting is None ==> bound_for(setting, default) == default,
        setting matches Some(s) && text::parsed_u64(s) is None ==> bound_for(setting, default)
            == default,
{
}

/// A bound of whole seconds is written in seconds, one with a part of a second in
/// it, or without a second, in whole milliseconds.
pub proof fn law_bound_is_written_in_the_unit_that_fits(b: Bound)
    requires
        b.wf(),
    ensures
        b.secs > 0 && b.nanos < 1_000_000 ==> bound_text(b) == text::decimal(b.secs as nat)
            + seq!['s'],
        b.secs == 0 || b.nanos >= 1_000_000 ==> bound_text(b) == text::decimal(
            ((b.secs * 1_000_000_000 + b.nanos) / 1_000_000) as nat,
        ) + seq!['m', 's'],
{
    reveal_strlit("s");
    reveal_strlit("ms");
    assert("s"@ =~= seq!['s']);
    assert("ms"@ =~= seq!['m', 's']);
}

/// The bounds that apply without a setting, and how long is slept and waited.
pub proof fn law_usual_times()
    ensures
        PERRY_VERSION_SECS == 5,
        PERRY_CHECK_SECS == 20,
        PERRY_COMPILE_SECS == 120,
        READER_DRAIN_GRACE_MILLIS == 500,
        POLL_MILLIS == 25,
        DRAIN_POLL_MILLIS == 5,
{
}

} // verus!
