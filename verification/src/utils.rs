//! Parsing the kernel's per-process memory statistics.
//!
//! The supervisor samples a child's resident-set size from
//! `/proc/<pid>/statm`, whose second whitespace-separated field is the
//! resident page count.  The host reads the file; this module turns its bytes
//! into a byte count.  Any malformed or missing field yields `None`, which
//! the supervisor treats as a skipped sample.

use vstd::prelude::*;

verus! {

/// Whether a byte separates `statm` fields.
pub open spec fn is_field_ws(b: u8) -> bool {
    b == 0x20 || b == 0x09 || b == 0x0a || b == 0x0d
}

/// Whether a byte is an ASCII decimal digit.
pub open spec fn is_digit(b: u8) -> bool {
    0x30 <= b <= 0x39
}

/// The value of a sequence of ASCII digits, most significant first.
pub open spec fn spec_digits_value(s: Seq<u8>) -> int
    decreases s.len(),
{
    if s.len() == 0 {
        0
    } else {
        spec_digits_value(s.drop_last()) * 10 + (s.last() - 0x30)
    }
}

/// The whitespace-separated fields of `s` after an already-read partial
/// field `cur`: one byte is consumed per step, whitespace closes the open
/// field, and a field left open at the end still counts.
pub open spec fn spec_fields_from(s: Seq<u8>, cur: Seq<u8>) -> Seq<Seq<u8>>
    decreases s.len(),
{
    if s.len() == 0 {
        if cur.len() == 0 {
            Seq::empty()
        } else {
            seq![cur]
        }
    } else if is_field_ws(s[0]) {
        if cur.len() == 0 {
            spec_fields_from(s.skip(1), Seq::empty())
        } else {
            seq![cur] + spec_fields_from(s.skip(1), Seq::empty())
        }
    } else {
        spec_fields_from(s.skip(1), cur.push(s[0]))
    }
}

/// The whitespace-separated fields of `s`, in order, empty fields elided.
pub open spec fn spec_fields(s: Seq<u8>) -> Seq<Seq<u8>> {
    spec_fields_from(s, Seq::empty())
}

/// The resident-set size in bytes that a `statm` line reports: its second
/// field, which must be all digits, times the system page size; `None` when
/// the field is missing, empty, not a number, or the multiplication would
/// not fit.
pub open spec fn spec_statm_resident_bytes(statm: Seq<u8>, page_size: u64) -> Option<u64> {
    let fields = spec_fields(statm);
    if fields.len() < 2 {
        None
    } else {
        let f = fields[1];
        if f.len() == 0 || exists|i: int| 0 <= i < f.len() && !is_digit(#[trigger] f[i]) {
            None
        } else if spec_digits_value(f) > u64::MAX || spec_digits_value(f) * page_size > u64::MAX {
            None
        } else {
            Some((spec_digits_value(f) * page_size) as u64)
        }
    }
}

/// A complete token at the front: when the first `j` bytes of `t` extend the
/// open field `cur` and the token ends there (end of input or whitespace),
/// that token is the next field.
proof fn lemma_fields_token(t: Seq<u8>, cur: Seq<u8>, j: int)
    requires
        0 <= j <= t.len(),
        cur.len() + j > 0,
        forall|k: int| 0 <= k < j ==> !is_field_ws(t[k]),
        j < t.len() ==> is_field_ws(t[j]),
    ensures
        spec_fields_from(t, cur) == seq![cur + t.take(j)] + spec_fields_from(
            t.skip(j),
            Seq::empty(),
        ),
    decreases j,
{
    if j == 0 {
        assert(cur + t.take(0) =~= cur);
        if t.len() == 0 {
            assert(t.skip(0) =~= t);
            assert(seq![cur] + spec_fields_from(t.skip(0), Seq::empty()) =~= seq![cur]);
        } else {
            assert(is_field_ws(t[0]));
            assert(t.skip(0) =~= t);
        }
    } else {
        assert(!is_field_ws(t[0]));
        assert forall|k: int| 0 <= k < j - 1 implies !is_field_ws(t.skip(1)[k]) by {
            assert(t.skip(1)[k] == t[k + 1]);
        }
        assert(j - 1 < t.skip(1).len() ==> is_field_ws(t.skip(1)[j - 1]));
        lemma_fields_token(t.skip(1), cur.push(t[0]), j - 1);
        assert(cur.push(t[0]) + t.skip(1).take(j - 1) =~= cur + t.take(j));
        assert(t.skip(1).skip(j - 1) =~= t.skip(j));
    }
}

proof fn lemma_digits_value_nonneg(f: Seq<u8>)
    requires
        forall|i: int| 0 <= i < f.len() ==> is_digit(#[trigger] f[i]),
    ensures
        spec_digits_value(f) >= 0,
    decreases f.len(),
{
    if f.len() > 0 {
        lemma_digits_value_nonneg(f.drop_last());
    }
}

proof fn lemma_digits_value_mono(f: Seq<u8>, k: int)
    requires
        0 <= k <= f.len(),
        forall|i: int| 0 <= i < f.len() ==> is_digit(#[trigger] f[i]),
    ensures
        spec_digits_value(f.take(k)) <= spec_digits_value(f),
    decreases f.len(),
{
    lemma_digits_value_nonneg(f);
    if k == f.len() {
        assert(f.take(k) =~= f);
    } else {
        assert forall|i: int| 0 <= i < f.drop_last().len() implies is_digit(
            #[trigger] f.drop_last()[i],
        ) by {
            assert(f.drop_last()[i] == f[i]);
        }
        lemma_digits_value_mono(f.drop_last(), k);
        assert(f.drop_last().take(k) =~= f.take(k));
        lemma_digits_value_nonneg(f.drop_last());
    }
}

/// The resident-set size in bytes that the contents of `/proc/<pid>/statm`
/// report: the second whitespace-separated field — the resident page count —
/// times `page_size`.  `None` when the field is missing, not a plain decimal
/// number, or the byte count would not fit.
#[verifier::loop_isolation(false)]
#[verifier::rlimit(60)]
pub fn statm_resident_bytes(statm: &Vec<u8>, page_size: u64) -> (r: Option<u64>)
    ensures
        r == spec_statm_resident_bytes(statm@, page_size),
{
    let ghost s = statm@;
    let n = statm.len();
    proof {
        assert(s.skip(0) =~= s);
    }
    // Leading whitespace.
    let mut i: usize = 0;
    while i < n && field_ws(statm[i])
        invariant
            i <= n,
            spec_fields(s) == spec_fields_from(s.skip(i as int), Seq::empty()),
        decreases n - i,
    {
        proof {
            assert(s.skip(i as int).skip(1) =~= s.skip(i as int + 1));
        }
        i = i + 1;
    }
    if i == n {
        proof {
            assert(spec_fields(s).len() == 0);
        }
        return None;
    }
    // First field: [i, i1).
    let mut i1: usize = i + 1;
    while i1 < n && !field_ws(statm[i1])
        invariant
            i < i1 <= n,
            forall|k: int| i <= k < i1 ==> !is_field_ws(s[k]),
        decreases n - i1,
    {
        i1 = i1 + 1;
    }
    let ghost f0 = s.subrange(i as int, i1 as int);
    proof {
        assert forall|k: int| 0 <= k < i1 - i implies !is_field_ws(s.skip(i as int)[k]) by {
            assert(s.skip(i as int)[k] == s[i + k]);
        }
        assert(i1 < n ==> is_field_ws(s.skip(i as int)[i1 - i]));
        lemma_fields_token(s.skip(i as int), Seq::empty(), i1 as int - i as int);
        assert(Seq::<u8>::empty() + s.skip(i as int).take(i1 as int - i as int) =~= f0);
        assert(s.skip(i as int).skip(i1 as int - i as int) =~= s.skip(i1 as int));
        assert(spec_fields(s) == seq![f0] + spec_fields_from(s.skip(i1 as int), Seq::empty()));
    }
    // Whitespace between the first and second fields.
    let mut i2: usize = i1;
    while i2 < n && field_ws(statm[i2])
        invariant
            i1 <= i2 <= n,
            spec_fields_from(s.skip(i1 as int), Seq::empty()) == spec_fields_from(
                s.skip(i2 as int),
                Seq::empty(),
            ),
        decreases n - i2,
    {
        proof {
            assert(s.skip(i2 as int).skip(1) =~= s.skip(i2 as int + 1));
        }
        i2 = i2 + 1;
    }
    if i2 == n {
        proof {
            assert(spec_fields_from(s.skip(i2 as int), Seq::empty()).len() == 0);
            assert(spec_fields(s).len() == 1);
        }
        return None;
    }
    // Second field: [i2, i3).
    let mut i3: usize = i2 + 1;
    while i3 < n && !field_ws(statm[i3])
        invariant
            i2 < i3 <= n,
            forall|k: int| i2 <= k < i3 ==> !is_field_ws(s[k]),
        decreases n - i3,
    {
        i3 = i3 + 1;
    }
    let ghost f1 = s.subrange(i2 as int, i3 as int);
    proof {
        assert forall|k: int| 0 <= k < i3 - i2 implies !is_field_ws(s.skip(i2 as int)[k]) by {
            assert(s.skip(i2 as int)[k] == s[i2 + k]);
        }
        assert(i3 < n ==> is_field_ws(s.skip(i2 as int)[i3 - i2]));
        lemma_fields_token(s.skip(i2 as int), Seq::empty(), i3 as int - i2 as int);
        assert(Seq::<u8>::empty() + s.skip(i2 as int).take(i3 as int - i2 as int) =~= f1);
        assert(s.skip(i2 as int).skip(i3 as int - i2 as int) =~= s.skip(i3 as int));
        assert(spec_fields(s) == seq![f0] + (seq![f1] + spec_fields_from(
            s.skip(i3 as int),
            Seq::empty(),
        )));
        assert(spec_fields(s) =~= seq![f0, f1] + spec_fields_from(
            s.skip(i3 as int),
            Seq::empty(),
        ));
        assert(spec_fields(s).len() >= 2);
        assert(spec_fields(s)[1] == f1);
        assert(f1.len() > 0);
    }
    // The field must be all digits; accumulate its value, watching for
    // overflow.
    let mut val: u64 = 0;
    let mut k: usize = i2;
    proof {
        assert(s.subrange(i2 as int, i2 as int) =~= Seq::<u8>::empty());
    }
    while k < i3
        invariant
            i2 <= k <= i3,
            forall|m: int| i2 <= m < k ==> is_digit(#[trigger] s[m]),
            val == spec_digits_value(s.subrange(i2 as int, k as int)),
        decreases i3 - k,
    {
        let b = statm[k];
        if b < 0x30 || b > 0x39 {
            proof {
                assert(!is_digit(f1[k - i2]));
            }
            return None;
        }
        let d: u64 = (b - 0x30) as u64;
        let ghost prefix = s.subrange(i2 as int, k as int);
        let ghost extended = s.subrange(i2 as int, k as int + 1);
        proof {
            assert(extended.drop_last() =~= prefix);
            assert(extended.last() == s[k as int]);
        }
        let overflowed = match val.checked_mul(10) {
            Some(v10) => {
                match v10.checked_add(d) {
                    Some(v) => {
                        val = v;
                        false
                    },
                    None => true,
                }
            },
            None => true,
        };
        if overflowed {
            proof {
                assert(spec_digits_value(extended) > u64::MAX);
                if forall|m: int| 0 <= m < f1.len() ==> is_digit(#[trigger] f1[m]) {
                    lemma_digits_value_mono(f1, k as int + 1 - i2 as int);
                    assert(f1.take(k as int + 1 - i2 as int) =~= extended);
                    assert(spec_digits_value(f1) > u64::MAX);
                }
            }
            // A page count too large for any byte count to fit.
            return None;
        }
        k = k + 1;
    }
    proof {
        assert(s.subrange(i2 as int, i3 as int) == f1);
        assert forall|m: int| 0 <= m < f1.len() implies is_digit(#[trigger] f1[m]) by {
            assert(f1[m] == s[i2 + m]);
        }
        lemma_digits_value_nonneg(f1);
    }
    let r = val.checked_mul(page_size);
    proof {
        assert(val == spec_digits_value(f1));
    }
    r
}

/// Whether a byte separates `statm` fields.
fn field_ws(b: u8) -> (r: bool)
    ensures
        r == is_field_ws(b),
{
    b == 0x20 || b == 0x09 || b == 0x0a || b == 0x0d
}

} // verus!
