//! Reading the status of a response.
use vstd::prelude::*;

use crate::text::{decimal, decimal_chars};

verus! {

/// Whether a response status counts as a success: its decimal form starts with `2`.
pub open spec fn spec_status_is_success(status: u16) -> bool {
    decimal(status as nat)[0] == '2'
}

/// Whether a response status counts as a success: its decimal form starts with `2`.
pub fn status_is_success(status: u16) -> (res: bool)
    ensures
        res == spec_status_is_success(status),
{
    let digits = decimal_chars(status as u64);
    proof {
        crate::text::lemma_decimal_nonempty(status as nat);
    }
    digits[0] == '2'
}

/// For the three-digit statuses that HTTP uses, a success is a status from 200 to 299.
pub proof fn lemma_success_statuses(status: u16)
    requires
        100 <= status <= 999,
    ensures
        spec_status_is_success(status) <==> 200 <= status <= 299,
{
    let n = status as nat;
    assert(decimal(n) == decimal(n / 10).push(crate::text::digit_char((n % 10) as nat)));
    assert(decimal(n / 10) == decimal(n / 100).push(crate::text::digit_char(((n / 10) % 10) as nat)));
    assert(decimal(n / 100) == seq![crate::text::digit_char(((n / 100) % 10) as nat)]);
    assert(decimal(n)[0] == crate::text::digit_char(((n / 100) % 10) as nat));
}

} // verus!
