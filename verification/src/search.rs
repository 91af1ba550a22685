use vstd::prelude::*;
use crate::models::ItemView;

verus! {

/// The code point of `c` with an ASCII capital letter folded to lowercase;
/// every other character is left as it is.
pub open spec fn lower_code(c: char) -> u32 {
    if 65 <= c as u32 && c as u32 <= 90 {
        (c as u32 + 32) as u32
    } else {
        c as u32
    }
}

/// Case-insensitive character equality (ASCII folding).
pub open spec fn eq_ci(a: char, b: char) -> bool {
    lower_code(a) == lower_code(b)
}

/// The pattern matches `text` at offset `k`.
pub open spec fn matches_at(text: Seq<char>, pat: Seq<char>, k: int) -> bool {
    forall|j: int| 0 <= j < pat.len() ==> eq_ci(text[k + j], #[trigger] pat[j])
}

/// `text` holds `pat` as a substring, ignoring ASCII case. An empty pattern
/// is contained in every text.
pub open spec fn contains_ci(text: Seq<char>, pat: Seq<char>) -> bool {
    exists|k: int| 0 <= k && k + pat.len() <= text.len() && matches_at(text, pat, k)
}

/// An item answers a search when the pattern occurs in its name or in its
/// description, ignoring ASCII case.
pub open spec fn item_matches(it: ItemView, pat: Seq<char>) -> bool {
    contains_ci(it.name, pat) || contains_ci(it.description, pat)
}

fn lower_code_exec(c: char) -> (r: u32)
    ensures
        r == lower_code(c),
{
    let x = c as u32;
    if 65 <= x && x <= 90 {
        x + 32
    } else {
        x
    }
}

fn match_at(text: &str, pat: &str, k: usize) -> (r: bool)
    requires
        k + pat@.len() <= text@.len(),
        text@.len() <= usize::MAX,
    ensures
        r == matches_at(text@, pat@, k as int),
{
    let pn = pat.unicode_len();
    let mut j: usize = 0;
    while j < pn
        invariant
            j <= pn,
            pn == pat@.len(),
            k + pn <= text@.len(),
            text@.len() <= usize::MAX,
            forall|j2: int| 0 <= j2 < j ==> eq_ci(text@[k + j2], #[trigger] pat@[j2]),
        decreases pn - j,
    {
        let tc = text.get_char(k + j);
        let pc = pat.get_char(j);
        if lower_code_exec(tc) != lower_code_exec(pc) {
            assert(!eq_ci(text@[k + j], pat@[j as int]));
            return false;
        }
        j = j + 1;
    }
    true
}

/// Whether `pat` occurs in `text` as a substring, ignoring ASCII case.
pub fn contains_substring_ci(text: &str, pat: &str) -> (r: bool)
    ensures
        r == contains_ci(text@, pat@),
{
    let tn = text.unicode_len();
    let pn = pat.unicode_len();
    if pn > tn {
        return false;
    }
    let last = tn - pn;
    let mut k: usize = 0;
    while k <= last
        invariant
            k <= last + 1,
            pn <= tn,
            tn == text@.len(),
            pn == pat@.len(),
            last == tn - pn,
            forall|k2: int| 0 <= k2 < k ==> !matches_at(text@, pat@, k2),
        decreases last + 1 - k,
    {
        if match_at(text, pat, k) {
            return true;
        }
        k = k + 1;
    }
    false
}

} // verus!
