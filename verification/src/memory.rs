use vstd::prelude::*;

use crate::text::{dec_rep, digit_char, num_to_string};
use vstd::arithmetic::div_mod::lemma_div_is_ordered;

verus! {

/// A byte count in tenths of a binary gigabyte, rounded to the nearest
/// tenth (half rounded up).
pub open spec fn gib_tenths_spec(bytes: u64) -> nat {
    ((bytes * 10 + 536870912) / 1073741824) as nat
}

/// Converts bytes to tenths of a GiB.
pub fn gib_tenths(bytes: u64) -> (t: u64)
    ensures
        t == gib_tenths_spec(bytes),
{
    let wide: u128 = (bytes as u128) * 10 + 536870912;
    let v: u128 = wide / 1073741824;
    proof {
        lemma_div_is_ordered(
            wide as int,
            0xffffffffffffffffu64 as int * 10 + 536870912,
            1073741824,
        );
    }
    v as u64
}

/// A byte count rendered with one decimal place of binary gigabytes.
pub open spec fn gib_string_spec(bytes: u64) -> Seq<char> {
    let t = gib_tenths_spec(bytes);
    dec_rep(t / 10) + "."@ + seq![digit_char(t % 10)]
}

/// Renders bytes as binary gigabytes with one decimal place.
pub fn format_gib(bytes: u64) -> (r: String)
    ensures
        r@ == gib_string_spec(bytes),
{
    let t = gib_tenths(bytes);
    let mut s = num_to_string((t / 10) as u128);
    s.append(".");
    let frac = num_to_string((t % 10) as u128);
    s.append(frac.as_str());
    proof {
        let tn = gib_tenths_spec(bytes);
        assert(dec_rep(tn % 10) == seq![digit_char(tn % 10)]);
        assert(s@ =~= dec_rep(tn / 10) + "."@ + seq![digit_char(tn % 10)]);
    }
    s
}

/// Used and total physical memory, both in GiB with one decimal place.
pub open spec fn memory_spec(used: u64, total: u64) -> Seq<char> {
    gib_string_spec(used) + " GiB / "@ + gib_string_spec(total) + " GiB"@
}

/// Formats the memory field from used and total bytes.
pub fn memory_field(used: u64, total: u64) -> (r: String)
    ensures
        r@ == memory_spec(used, total),
{
    let mut s = format_gib(used);
    s.append(" GiB / ");
    let t = format_gib(total);
    s.append(t.as_str());
    s.append(" GiB");
    proof {
        assert(s@ =~= memory_spec(used, total));
    }
    s
}

} // verus!
