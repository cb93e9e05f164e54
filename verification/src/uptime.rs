use vstd::prelude::*;

use crate::text::{dec_rep, has_prefix_spec, join_spec, join_with, num_to_string};

verus! {

/// The non-zero components of an uptime, largest unit first.
pub open spec fn uptime_parts(d: nat, h: nat, m: nat) -> Seq<Seq<char>> {
    (if d > 0 {
        seq![dec_rep(d) + " gün"@]
    } else {
        Seq::<Seq<char>>::empty()
    }) + (if h > 0 {
        seq![dec_rep(h) + " saat"@]
    } else {
        Seq::<Seq<char>>::empty()
    }) + (if m > 0 {
        seq![dec_rep(m) + " dk"@]
    } else {
        Seq::<Seq<char>>::empty()
    })
}

/// Elapsed seconds rendered as days, hours and minutes: only non-zero
/// components appear, in that order, comma separated; below one minute
/// a fixed marker stands instead.
pub open spec fn uptime_spec(t: u64) -> Seq<char> {
    let d = (t / 86400) as nat;
    let h = ((t % 86400) / 3600) as nat;
    let m = ((t % 3600) / 60) as nat;
    if uptime_parts(d, h, m).len() == 0 {
        "<1 dk"@
    } else {
        join_spec(uptime_parts(d, h, m), ", "@)
    }
}

/// Formats elapsed seconds since boot for display.
pub fn format_uptime(total_seconds: u64) -> (r: String)
    ensures
        r@ == uptime_spec(total_seconds),
{
    let days = total_seconds / 86400;
    let hours = (total_seconds % 86400) / 3600;
    let minutes = (total_seconds % 3600) / 60;
    let ghost expected = uptime_parts(days as nat, hours as nat, minutes as nat);
    let mut parts: Vec<String> = Vec::new();
    if days > 0 {
        let mut p = num_to_string(days as u128);
        p.append(" gün");
        parts.push(p);
    }
    if hours > 0 {
        let mut p = num_to_string(hours as u128);
        p.append(" saat");
        parts.push(p);
    }
    if minutes > 0 {
        let mut p = num_to_string(minutes as u128);
        p.append(" dk");
        parts.push(p);
    }
    proof {
        assert(parts@.map_values(|l: String| l@) =~= expected);
    }
    if parts.len() == 0 {
        String::from_str("<1 dk")
    } else {
        join_with(&parts, ", ")
    }
}

/// Below one minute the fixed marker is reported, never an empty string
/// or a zero-valued component.
pub proof fn lemma_uptime_under_one_minute(t: u64)
    requires
        t < 60,
    ensures
        uptime_spec(t) == "<1 dk"@,
{
    assert(t / 86400 == 0);
    assert((t % 86400) / 3600 == 0);
    assert((t % 3600) / 60 == 0);
}

/// Between one minute and one hour exactly one component appears:
/// the whole minutes.
pub proof fn lemma_uptime_minutes_only(t: u64)
    requires
        60 <= t < 3600,
    ensures
        uptime_spec(t) == dec_rep((t / 60) as nat) + " dk"@,
{
    assert(t / 86400 == 0);
    assert(t % 86400 == t);
    assert(t / 3600 == 0);
    assert(t % 3600 == t);
    assert(t / 60 >= 1);
    let parts = uptime_parts(0, 0, (t / 60) as nat);
    assert(parts =~= seq![dec_rep((t / 60) as nat) + " dk"@]);
}

/// Beyond a day the report always opens with the day component.
pub proof fn lemma_uptime_includes_days(t: u64)
    requires
        t >= 86400,
    ensures
        has_prefix_spec(uptime_spec(t), dec_rep((t / 86400) as nat) + " gün"@),
{
    let d = (t / 86400) as nat;
    let h = ((t % 86400) / 3600) as nat;
    let m = ((t % 3600) / 60) as nat;
    assert(t / 86400 >= 1);
    let day_part = dec_rep(d) + " gün"@;
    let parts = uptime_parts(d, h, m);
    assert(parts.len() >= 1);
    assert(parts[0] == day_part);
    let joined = join_spec(parts, ", "@);
    if parts.len() == 1 {
        assert(joined == day_part);
        assert(joined.subrange(0, day_part.len() as int) =~= day_part);
    } else {
        assert(joined == parts[0] + ", "@ + join_spec(parts.drop_first(), ", "@));
        assert(joined.subrange(0, day_part.len() as int) =~= day_part);
    }
}

} // verus!
