//! A length of time printed as a clock, and the current time.

use vstd::prelude::*;
use crate::util::text::{decimal, string_of, append_str, append_decimal};

verus! {

/// A length of time: whole seconds and the nanoseconds beyond them.
#[derive(Debug, Clone, Copy, PartialEq, Eq, Structural)]
pub struct KPDuration {
    pub secs: u64,
    pub subsec_nanos: u32,
}

/// The decimal form of `n`, with a leading zero below ten.
pub open spec fn pad2(n: nat) -> Seq<char> {
    if n < 10 { seq!['0'] + decimal(n) } else { decimal(n) }
}

/// The clock form of a number of seconds: `HH:MM:SS`, each part at least
/// two digits wide; hours are not wrapped.
pub open spec fn clock_text(secs: nat) -> Seq<char> {
    pad2(secs / 3600) + seq![':'] + pad2((secs / 60) % 60) + seq![':'] + pad2(secs % 60)
}

fn append_pad2(s: &mut String, n: u64)
    ensures
        final(s)@ == old(s)@ + pad2(n as nat),
{
    if n < 10 {
        crate::util::text::push_char(s, '0');
        append_decimal(s, n);
        assert(final(s)@ =~= old(s)@ + pad2(n as nat));
    } else {
        append_decimal(s, n);
    }
}

impl KPDuration {
    /// A duration of `secs` seconds and `subsec_nanos` nanoseconds.
    pub fn new(secs: u64, subsec_nanos: u32) -> (res: KPDuration)
        ensures
            res.secs == secs,
            res.subsec_nanos == subsec_nanos,
    {
        KPDuration { secs, subsec_nanos }
    }

    /// The duration as a clock, `HH:MM:SS`.
    pub fn to_string(&self) -> (res: String)
        ensures
            res@ == clock_text(self.secs as nat),
    {
        let seconds = self.secs;
        let hours = seconds / 3600;
        let minutes = (seconds / 60) % 60;
        let secs = seconds % 60;
        let mut s = String::new();
        append_pad2(&mut s, hours);
        crate::util::text::push_char(&mut s, ':');
        append_pad2(&mut s, minutes);
        crate::util::text::push_char(&mut s, ':');
        append_pad2(&mut s, secs);
        assert(s@ =~= clock_text(self.secs as nat));
        s
    }

    /// The debug form: `KPDuration(<seconds>s / <clock>)`.
    pub fn debug_string(&self) -> (res: String)
        ensures
            res@ == "KPDuration("@ + decimal(self.secs as nat) + "s / "@ + clock_text(self.secs as nat) + ")"@,
    {
        let mut s = string_of("KPDuration(");
        append_decimal(&mut s, self.secs);
        append_str(&mut s, "s / ");
        let c = self.to_string();
        append_str(&mut s, c.as_str());
        append_str(&mut s, ")");
        s
    }

    /// The milliseconds since the Unix epoch, or `None` where the system
    /// clock is set before the epoch.
    pub fn current_mill_timestamp() -> (res: Option<u128>) {
        system_millis()
    }
}

/// Reads `std::time::SystemTime::now()` and gives its distance from
/// `UNIX_EPOCH` in milliseconds (`duration_since(..).as_millis()`), or
/// `None` where the clock is before the epoch. Nothing is claimed of the
/// value: it is the time.
#[verifier::external_body]
fn system_millis() -> (res: Option<u128>) {
    match std::time::SystemTime::now().duration_since(std::time::UNIX_EPOCH) {
        Ok(d) => Some(d.as_millis()),
        Err(_) => None,
    }
}

/// The clock form gives the time back: its hours, minutes and seconds
/// count the same number of seconds, and minutes and seconds stay below
/// sixty.
pub proof fn lemma_clock_parts(secs: nat)
    ensures
        (secs / 3600) * 3600 + ((secs / 60) % 60) * 60 + secs % 60 == secs,
        (secs / 60) % 60 < 60,
        secs % 60 < 60,
{
    assert((secs / 3600) * 3600 + ((secs / 60) % 60) * 60 + secs % 60 == secs) by (nonlinear_arith);
}

} // verus!
