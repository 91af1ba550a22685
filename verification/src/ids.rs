use vstd::prelude::*;
use crate::errors::StoreError;

verus! {

/// True of an ASCII decimal digit.
pub open spec fn is_digit(c: char) -> bool {
    48 <= c as u32 && c as u32 <= 57
}

/// The numeric value of one digit.
pub open spec fn digit_val(c: char) -> nat {
    (c as u32 - 48) as nat
}

/// True when every character of `s` is a decimal digit.
pub open spec fn all_digits(s: Seq<char>) -> bool {
    forall|i: int| 0 <= i < s.len() ==> is_digit(#[trigger] s[i])
}

/// The numeric value of a digit string, most significant digit first.
pub open spec fn digits_value(s: Seq<char>) -> nat
    decreases s.len(),
{
    if s.len() == 0 {
        0
    } else {
        digits_value(s.drop_last()) * 10 + digit_val(s.last())
    }
}

/// The identity strings this library accepts: nonempty, all decimal digits,
/// and with a value that fits in an id.
pub open spec fn valid_id_str(s: Seq<char>) -> bool {
    s.len() > 0 && all_digits(s) && digits_value(s) <= u64::MAX
}

/// The value of a digit string never shrinks as digits are appended.
proof fn lemma_digits_value_take_le(s: Seq<char>, k: int)
    requires
        0 <= k <= s.len(),
    ensures
        digits_value(s.take(k)) <= digits_value(s),
    decreases s.len() - k,
{
    if k < s.len() {
        assert(s.take(k + 1).drop_last() =~= s.take(k));
        assert(s.take(k + 1).last() == s[k]);
        lemma_digits_value_take_le(s, k + 1);
    } else {
        assert(s.take(k) =~= s);
    }
}

/// Parses an identity string. Returns the id if and only if the string is a
/// nonempty run of decimal digits whose value fits; otherwise reports
/// `MalformedId` instead of treating the input as a fault.
pub fn parse_id(s: &String) -> (r: Result<u64, StoreError>)
    ensures
        match r {
            Ok(v) => valid_id_str(s@) && v == digits_value(s@),
            Err(e) => e == StoreError::MalformedId && !valid_id_str(s@),
        },
{
    let st: &str = s.as_str();
    let n = st.unicode_len();
    if n == 0 {
        return Err(StoreError::MalformedId);
    }
    let mut val: u64 = 0;
    let mut k: usize = 0;
    while k < n
        invariant
            0 <= k <= n,
            n == s@.len(),
            st@ == s@,
            all_digits(s@.take(k as int)),
            val == digits_value(s@.take(k as int)),
        decreases n - k,
    {
        let c = st.get_char(k);
        let code = c as u32;
        if code < 48 || code > 57 {
            assert(!is_digit(s@[k as int]));
            return Err(StoreError::MalformedId);
        }
        let d = (code - 48) as u64;
        proof {
            assert(s@.take(k + 1).drop_last() =~= s@.take(k as int));
            assert(s@.take(k + 1).last() == s@[k as int]);
        }
        let v10 = match val.checked_mul(10) {
            Some(x) => x,
            None => {
                proof {
                    lemma_digits_value_take_le(s@, k + 1);
                }
                return Err(StoreError::MalformedId);
            },
        };
        val = match v10.checked_add(d) {
            Some(x) => x,
            None => {
                proof {
                    lemma_digits_value_take_le(s@, k + 1);
                }
                return Err(StoreError::MalformedId);
            },
        };
        k = k + 1;
    }
    proof {
        assert(s@.take(n as int) =~= s@);
    }
    Ok(val)
}

} // verus!
