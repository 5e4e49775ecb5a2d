use vstd::prelude::*;
use vstd::string::StringExecFns;

use crate::config::EncodeConfig;

verus! {

/// The decimal digits of `n`, most significant first.
pub open spec fn digits(n: nat) -> Seq<char>
    decreases n,
{
    let d = seq!['0', '1', '2', '3', '4', '5', '6', '7', '8', '9'][(n % 10) as int];
    if n < 10 {
        seq![d]
    } else {
        digits(n / 10).push(d)
    }
}

/// `n` written in decimal, with a leading minus sign when negative.
pub open spec fn decimal(n: int) -> Seq<char> {
    if n < 0 {
        seq!['-'] + digits((-n) as nat)
    } else {
        digits(n as nat)
    }
}

/// Relies on `i32`'s `Display` (through `to_string`), which writes the
/// number in decimal with a leading `-` when it is negative.
#[verifier::external_body]
pub(crate) fn decimal_string(n: i32) -> (r: String)
    ensures
        r@ == decimal(n as int),
{
    n.to_string()
}

/// The fixed conversion: BT.709 primaries and range in, BT.2020
/// non-constant-luminance out, linear light to SMPTE ST 2084 (PQ).
pub open spec fn base_filter() -> Seq<char> {
    "pin=709:p=2020:min=709:m=2020_ncl:tin=linear:t=smpte2084"@
}

/// The peak-luminance part: present only for a positive value.
pub open spec fn luminance_part(npl: int) -> Seq<char> {
    if npl > 0 {
        ":npl="@ + decimal(npl)
    } else {
        Seq::empty()
    }
}

/// The resize part: present only when both dimensions are positive.
pub open spec fn resize_part(out_w: int, out_h: int) -> Seq<char> {
    if out_w > 0 && out_h > 0 {
        ":w="@ + decimal(out_w) + ":h="@ + decimal(out_h)
    } else {
        Seq::empty()
    }
}

/// The colour filter's parameters for the given peak luminance and size.
pub open spec fn filter_spec(npl: int, out_w: int, out_h: int) -> Seq<char> {
    base_filter() + luminance_part(npl) + resize_part(out_w, out_h)
}

/// The colour filter's parameters for a configuration.
pub open spec fn filter_of(config: EncodeConfig) -> Seq<char> {
    filter_spec(config.npl as int, config.out_w as int, config.out_h as int)
}

/// Builds the parameters of the linear-to-PQ colour filter: the fixed
/// conversion, then the peak luminance if set, then the size if set.
pub fn build_filter(config: &EncodeConfig) -> (r: String)
    ensures
        r@ == filter_of(*config),
{
    let mut f = String::from_str("pin=709:p=2020:min=709:m=2020_ncl:tin=linear:t=smpte2084");
    if config.npl > 0 {
        f.append(":npl=");
        let n = decimal_string(config.npl);
        f.append(n.as_str());
    }
    if config.out_w > 0 && config.out_h > 0 {
        f.append(":w=");
        let w = decimal_string(config.out_w);
        f.append(w.as_str());
        f.append(":h=");
        let h = decimal_string(config.out_h);
        f.append(h.as_str());
    }
    proof {
        assert(f@ =~= filter_of(*config));
    }
    f
}

/// The filter has no hidden state: two configurations that agree on peak
/// luminance and size give the same parameters.
pub proof fn lemma_filter_idempotent(a: EncodeConfig, b: EncodeConfig)
    requires
        a.npl == b.npl,
        a.out_w == b.out_w,
        a.out_h == b.out_h,
    ensures
        filter_of(a) == filter_of(b),
{
}

/// Each optional part is left out on its own: a peak luminance that is not
/// positive adds nothing, a size with a dimension that is not positive adds
/// nothing, and with both unset the filter is the fixed conversion alone.
pub proof fn lemma_filter_omits(npl: int, out_w: int, out_h: int)
    ensures
        npl <= 0 ==> filter_spec(npl, out_w, out_h) == base_filter() + resize_part(out_w, out_h),
        out_w <= 0 || out_h <= 0 ==> filter_spec(npl, out_w, out_h) == base_filter()
            + luminance_part(npl),
        npl <= 0 && (out_w <= 0 || out_h <= 0) ==> filter_spec(npl, out_w, out_h)
            == base_filter(),
{
    assert(base_filter() + Seq::<char>::empty() =~= base_filter());
    assert(base_filter() + luminance_part(npl) + Seq::<char>::empty() =~= base_filter()
        + luminance_part(npl));
    assert(base_filter() + Seq::<char>::empty() + resize_part(out_w, out_h) =~= base_filter()
        + resize_part(out_w, out_h));
}

} // verus!
