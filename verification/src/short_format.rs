//! Compact rendering of counts: `1500` as `1.5k`, `2000000` as `2M`.
use vstd::prelude::*;

use crate::text::{append_str, decimal, decimal_string};

verus! {

/// `whole` followed, when `frac` is not zero, by a point and `frac`, then
/// by `unit`.
pub open spec fn scaled(whole: nat, frac: nat, unit: Seq<char>) -> Seq<char> {
    if frac == 0 {
        decimal(whole) + unit
    } else {
        decimal(whole) + "."@ + decimal(frac) + unit
    }
}

/// The compact form of `n`: millions with one decimal (truncated) and
/// `M`, thousands with one decimal and `k`, smaller numbers in full; a
/// zero decimal is left out.
pub open spec fn short_text(n: nat) -> Seq<char> {
    if n >= 1_000_000 {
        scaled(n / 1_000_000, (n % 1_000_000) / 100_000, "M"@)
    } else if n >= 1_000 {
        scaled(n / 1_000, (n % 1_000) / 100, "k"@)
    } else {
        decimal(n)
    }
}

/// Rendering of a number in compact form.
pub trait ShortFormat {
    /// The compact form of the value.
    fn short(&self) -> String;
}

/// `whole`, then `.frac` unless `frac` is zero, then `unit`.
fn render_scaled(whole: u64, frac: u64, unit: &str) -> (r: String)
    ensures
        r@ == (if frac == 0 {
            decimal(whole as nat) + unit@
        } else {
            decimal(whole as nat) + "."@ + decimal(frac as nat) + unit@
        }),
{
    let mut s = decimal_string(whole);
    if frac != 0 {
        append_str(&mut s, ".");
        let f = decimal_string(frac);
        append_str(&mut s, f.as_str());
    }
    append_str(&mut s, unit);
    s
}

impl ShortFormat for u32 {
    fn short(&self) -> (r: String)
        ensures
            r@ == short_text(*self as nat),
    {
        let n: u32 = *self;
        if n >= 1_000_000 {
            render_scaled((n / 1_000_000) as u64, ((n % 1_000_000) / 100_000) as u64, "M")
        } else if n >= 1_000 {
            render_scaled((n / 1_000) as u64, ((n % 1_000) / 100) as u64, "k")
        } else {
            decimal_string(n as u64)
        }
    }
}

} // verus!
