//! The wall clock, in milliseconds since the Unix epoch.

use vstd::prelude::*;

verus! {

/// Milliseconds in a stretch of time given in seconds and nanoseconds, as far
/// as 64 bits hold them; zero for a time before the epoch.
pub open spec fn millis_of(elapsed: Option<(u64, u32)>) -> int {
    match elapsed {
        Some((seconds, nanos)) => (seconds * 1000 + nanos as int / 1_000_000)
            % 0x1_0000_0000_0000_0000,
        None => 0,
    }
}

/// `std::time::SystemTime::elapsed`, called on `std::time::UNIX_EPOCH`: the time
/// from the epoch to now, in whole seconds and the nanoseconds beyond them, or
/// `None` if the clock stands before the epoch. What the clock shows is left
/// open; the nanoseconds are fewer than a second.
#[verifier::external_body]
fn since_epoch() -> (elapsed: Option<(u64, u32)>)
    ensures
        elapsed matches Some((seconds, nanos)) ==> nanos < 1_000_000_000,
{
    let elapsed = std::time::UNIX_EPOCH.elapsed();
    elapsed.ok().map(|time| (time.as_secs(), time.subsec_nanos()))
}

/// Whether the clock can show this much time since the epoch.
pub closed spec fn clock_shows(elapsed: Option<(u64, u32)>) -> bool {
    call_ensures(since_epoch, (), elapsed)
}

/// Whether a timestamp is the conversion of what the clock shows.
pub open spec fn is_reading(millis: int) -> bool {
    exists|elapsed: Option<(u64, u32)>| #[trigger]
        clock_shows(elapsed) && millis == millis_of(elapsed)
}

/// Turns the time since the epoch into a timestamp.
pub fn epoch_millis(elapsed: Option<(u64, u32)>) -> (millis: u64)
    ensures
        millis == millis_of(elapsed),
{
    match elapsed {
        Some((seconds, nanos)) => {
            let millis: u128 = seconds as u128 * 1000 + (nanos / 1_000_000) as u128;
            (millis % 0x1_0000_0000_0000_0000) as u64
        },
        None => 0,
    }
}

/// Law: a timestamp counts the whole milliseconds since the epoch, as long as 64
/// bits hold them, and wraps around beyond; it is zero before the epoch.
pub proof fn law_whole_milliseconds(seconds: u64, nanos: u32)
    ensures
        millis_of(None) == 0,
        0 <= millis_of(Some((seconds, nanos))) <= u64::MAX,
        1_000_000_000 * seconds + nanos < 1_000_000 * 0x1_0000_0000_0000_0000 ==> 1_000_000
            * millis_of(Some((seconds, nanos))) <= 1_000_000_000 * seconds + nanos < 1_000_000 * (
        millis_of(Some((seconds, nanos))) + 1),
        (1000 * seconds + nanos as int / 1_000_000 - millis_of(Some((seconds, nanos))))
            % 0x1_0000_0000_0000_0000 == 0,
{
}

/// Law: a timestamp that is a reading counts the whole milliseconds of a time
/// that the clock shows, no more and no less.
pub proof fn law_reading_is_the_time_shown(millis: int)
    requires
        is_reading(millis),
    ensures
        exists|elapsed: Option<(u64, u32)>| #[trigger]
            clock_shows(elapsed) && match elapsed {
                Some((seconds, nanos)) => {
                    &&& nanos < 1_000_000_000
                    &&& 1_000_000_000 * seconds + nanos < 1_000_000 * 0x1_0000_0000_0000_0000
                        ==> 1_000_000 * millis <= 1_000_000_000 * seconds + nanos < 1_000_000 * (
                    millis + 1)
                },
                None => millis == 0,
            },
{
    let elapsed = choose|elapsed: Option<(u64, u32)>| #[trigger]
        clock_shows(elapsed) && millis == millis_of(elapsed);
    lemma_shown_by_the_clock(elapsed);
    if let Some((seconds, nanos)) = elapsed {
        law_whole_milliseconds(seconds, nanos);
    }
}

/// What the clock shows is what the call to it gives.
proof fn lemma_shown_by_the_clock(elapsed: Option<(u64, u32)>)
    ensures
        clock_shows(elapsed) <==> call_ensures(since_epoch, (), elapsed),
        clock_shows(elapsed) ==> (elapsed matches Some((seconds, nanos)) ==> nanos < 1_000_000_000),
{
}

/// The current time in milliseconds since the epoch, or zero if the clock
/// stands before it.
pub fn now_ms() -> (millis: u64)
    ensures
        is_reading(millis as int),
{
    let elapsed = since_epoch();
    assert(clock_shows(elapsed));
    epoch_millis(elapsed)
}

} // verus!
