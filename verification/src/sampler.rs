use vstd::prelude::*;

verus! {

/// A frame with no presentation timestamp is treated as if its timestamp
/// were zero. Note the consequence: such frames always pass the sampling
/// test, which biases the policy toward emitting them.
pub open spec fn effective_pts(pts: Option<i64>) -> int {
    match pts {
        Some(p) => p as int,
        None => 0,
    }
}

/// The sampling policy: emit a frame when the fractional part of its
/// timestamp in seconds, `pts * num / den`, is below the fixed tolerance
/// of one hundredth of a second.
///
/// For a nonnegative timestamp `t = pts * num` in time-base units, the
/// fractional part of `t / den` is `(t % den) / den`, so the test is
/// `100 * (t % den) < den`. A negative timestamp has a fractional part
/// at or below zero, hence always within the tolerance.
pub open spec fn emit_spec(pts: int, num: int, den: int) -> bool
    recommends
        den > 0,
{
    let t = pts * num;
    t < 0 || 100 * (t % den) < den
}

/// Decides whether a decoded frame is materialized as an output image,
/// from its presentation timestamp and the stream's time base.
pub fn should_emit(pts: Option<i64>, tb_num: i32, tb_den: i32) -> (r: bool)
    requires
        tb_den > 0,
    ensures
        r == emit_spec(effective_pts(pts), tb_num as int, tb_den as int),
{
    let p: i64 = match pts {
        Some(p) => p,
        None => 0,
    };
    proof {
        assert((p as int) * (tb_num as int) <= 0x8000_0000_0000_0000 * 0x8000_0000
            && (p as int) * (tb_num as int) >= -(0x8000_0000_0000_0000 * 0x8000_0000))
            by (nonlinear_arith)
            requires
                -0x8000_0000_0000_0000 <= p as int <= 0x7fff_ffff_ffff_ffff,
                -0x8000_0000 <= tb_num as int <= 0x7fff_ffff,
        ;
    }
    let t: i128 = (p as i128) * (tb_num as i128);
    let den: i128 = tb_den as i128;
    if t < 0 {
        true
    } else {
        let rem: i128 = t % den;
        100 * rem < den
    }
}

} // verus!
