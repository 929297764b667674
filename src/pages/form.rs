//! The raw form of the bulk delete: `name=value` pairs joined by `&`. Every
//! value must be a whole number; the values named `selected_contact_ids` are
//! the contacts to delete, in order, up to the first pair that is not valid.
use vstd::prelude::*;
use vstd::utf8::{decode_utf8, valid_utf8};

verus! {

/// Why a pair of the form was refused.
#[derive(Debug, PartialEq, Eq, Structural)]
pub enum FormError {
    /// The pair has no `=`.
    NoValue,
    /// The value is not UTF-8.
    NotUtf8,
    /// The value is not a whole number that fits in an `i64`.
    NotANumber,
}

/// The ids to delete, and the error that stopped the reading, if any.
pub struct DeleteRequest {
    pub ids: Vec<i64>,
    pub error: Option<FormError>,
}

/// The value of the decimal digits `s`.
pub open spec fn digits_value(s: Seq<char>) -> int
    decreases s.len(),
{
    if s.len() == 0 {
        0
    } else {
        digits_value(s.drop_last()) * 10 + ((s.last() as u32) as int - ('0' as u32) as int)
    }
}

/// Whether `s` is one or more decimal digits.
pub open spec fn all_digits(s: Seq<char>) -> bool {
    s.len() > 0 && forall|i: int| 0 <= i < s.len() ==> '0' <= #[trigger] s[i] <= '9'
}

/// The integer that `s` writes: an optional sign, then decimal digits.
pub open spec fn integer_of(s: Seq<char>) -> Option<int> {
    if s.len() > 0 && s[0] == '-' && all_digits(s.drop_first()) {
        Some(-digits_value(s.drop_first()))
    } else if s.len() > 0 && s[0] == '+' && all_digits(s.drop_first()) {
        Some(digits_value(s.drop_first()))
    } else if all_digits(s) {
        Some(digits_value(s))
    } else {
        None
    }
}

/// The `i64` that `s` writes, where it writes one in range.
pub open spec fn i64_of(s: Seq<char>) -> Option<i64> {
    match integer_of(s) {
        Some(v) => if i64::MIN <= v <= i64::MAX {
            Some(v as i64)
        } else {
            None
        },
        None => None,
    }
}

/// Relies on `std::str::from_utf8`: the text of `b`, where `b` is valid UTF-8.
#[verifier::external_body]
fn text_of_bytes(b: &[u8]) -> (r: Option<String>)
    ensures
        r is Some <==> valid_utf8(b@),
        r matches Some(s) ==> s@ == decode_utf8(b@),
{
    std::str::from_utf8(b).ok().map(|s| s.to_string())
}

/// Relies on `<i64 as FromStr>::from_str`: an optional `+` or `-`, then
/// decimal digits only, within the range of `i64`.
#[verifier::external_body]
fn parse_i64(s: &str) -> (r: Option<i64>)
    ensures
        r == i64_of(s@),
{
    s.parse::<i64>().ok()
}

/// `form` cut at each `&`; a form without `&` is one pair, the empty form too.
pub open spec fn pairs_of(form: Seq<u8>) -> Seq<Seq<u8>>
    decreases form.len(),
{
    if form.len() == 0 {
        seq![Seq::empty()]
    } else {
        let before = pairs_of(form.drop_last());
        if form.last() == 38u8 {
            before.push(Seq::empty())
        } else {
            before.update(before.len() - 1, before.last().push(form.last()))
        }
    }
}

/// The index of the first `=` of `p`, or its length where it has none.
pub open spec fn first_eq(p: Seq<u8>) -> nat
    decreases p.len(),
{
    if p.len() == 0 {
        0
    } else if p[0] == 61u8 {
        0
    } else {
        1 + first_eq(p.drop_first())
    }
}

/// The field name whose values are the ids to delete.
pub open spec fn selected_name() -> Seq<u8> {
    seq![
        115u8, 101, 108, 101, 99, 116, 101, 100, 95, 99, 111, 110, 116, 97, 99, 116, 95, 105, 100,
        115,
    ]
}

/// The name and number of one pair, or why it is refused.
pub open spec fn pair_value(p: Seq<u8>) -> Result<(Seq<u8>, i64), FormError> {
    let k = first_eq(p) as int;
    let value = p.subrange(k + 1, p.len() as int);
    if k >= p.len() {
        Err(FormError::NoValue)
    } else if !valid_utf8(value) {
        Err(FormError::NotUtf8)
    } else {
        match i64_of(decode_utf8(value)) {
            Some(v) => Ok((p.subrange(0, k), v)),
            None => Err(FormError::NotANumber),
        }
    }
}

/// The ids that the pairs `ps` select, up to the first refused pair, and the
/// reason it was refused.
pub open spec fn selected_of(ps: Seq<Seq<u8>>) -> (Seq<i64>, Option<FormError>)
    decreases ps.len(),
{
    if ps.len() == 0 {
        (Seq::empty(), None)
    } else {
        let (ids, err) = selected_of(ps.drop_last());
        if err is Some {
            (ids, err)
        } else {
            match pair_value(ps.last()) {
                Err(e) => (ids, Some(e)),
                Ok((name, v)) => if name == selected_name() {
                    (ids.push(v), None)
                } else {
                    (ids, None)
                },
            }
        }
    }
}

proof fn lemma_first_eq(p: Seq<u8>, k: int)
    requires
        0 <= k <= p.len(),
        forall|i: int| 0 <= i < k ==> p[i] != 61u8,
        k == p.len() || p[k] == 61u8,
    ensures
        first_eq(p) == k,
    decreases k,
{
    if k > 0 {
        let rest = p.drop_first();
        assert forall|i: int| 0 <= i < k - 1 implies rest[i] != 61u8 by {
            assert(rest[i] == p[i + 1]);
        }
        if k < p.len() {
            assert(rest[k - 1] == p[k]);
        }
        lemma_first_eq(rest, k - 1);
        assert(p[0] != 61u8);
    }
}

/// Copies `p[from..to]`.
fn copy_range(p: &Vec<u8>, from: usize, to: usize) -> (r: Vec<u8>)
    requires
        from <= to <= p@.len(),
    ensures
        r@ == p@.subrange(from as int, to as int),
{
    let mut r: Vec<u8> = Vec::new();
    let mut i: usize = from;
    while i < to
        invariant
            from <= i <= to,
            to <= p@.len(),
            r@ == p@.subrange(from as int, i as int),
        decreases to - i,
    {
        r.push(p[i]);
        proof {
            assert(r@ =~= p@.subrange(from as int, i + 1));
        }
        i = i + 1;
    }
    r
}

/// Cuts `form` at each `&`.
fn split_pairs(form: &[u8]) -> (r: Vec<Vec<u8>>)
    ensures
        r@.map_values(|v: Vec<u8>| v@) == pairs_of(form@),
{
    let mut pairs: Vec<Vec<u8>> = Vec::new();
    let mut current: Vec<u8> = Vec::new();
    let mut i: usize = 0;
    proof {
        assert(form@.take(0) =~= Seq::<u8>::empty());
        assert(pairs@.map_values(|v: Vec<u8>| v@).push(current@) =~= pairs_of(form@.take(0)));
    }
    while i < form.len()
        invariant
            i <= form@.len(),
            pairs@.map_values(|v: Vec<u8>| v@).push(current@) == pairs_of(form@.take(i as int)),
        decreases form@.len() - i,
    {
        let b = form[i];
        let ghost before = pairs_of(form@.take(i as int));
        proof {
            assert(form@.take(i + 1).drop_last() =~= form@.take(i as int));
            assert(form@.take(i + 1).last() == b);
        }
        if b == 38u8 {
            let done = current;
            pairs.push(done);
            current = Vec::new();
            proof {
                assert(pairs@.map_values(|v: Vec<u8>| v@).push(current@) =~= before.push(
                    Seq::empty(),
                ));
            }
        } else {
            current.push(b);
            proof {
                assert(pairs@.map_values(|v: Vec<u8>| v@).push(current@) =~= before.update(
                    before.len() - 1,
                    before.last().push(b),
                ));
            }
        }
        i = i + 1;
    }
    pairs.push(current);
    proof {
        assert(form@.take(form@.len() as int) =~= form@);
    }
    pairs
}

/// Reads one `name=value` pair.
fn read_pair(p: &Vec<u8>) -> (r: Result<(Vec<u8>, i64), FormError>)
    ensures
        match (r, pair_value(p@)) {
            (Ok((name, v)), Ok((want_name, want_v))) => name@ == want_name && v == want_v,
            (Err(e), Err(want_e)) => e == want_e,
            _ => false,
        },
{
    let mut k: usize = 0;
    while k < p.len() && p[k] != 61u8
        invariant
            k <= p@.len(),
            forall|i: int| 0 <= i < k ==> p@[i] != 61u8,
        decreases p@.len() - k,
    {
        k = k + 1;
    }
    proof {
        lemma_first_eq(p@, k as int);
    }
    if k >= p.len() {
        return Err(FormError::NoValue);
    }
    let value = copy_range(p, k + 1, p.len());
    match text_of_bytes(value.as_slice()) {
        None => Err(FormError::NotUtf8),
        Some(text) => match parse_i64(text.as_str()) {
            None => Err(FormError::NotANumber),
            Some(v) => Ok((copy_range(p, 0, k), v)),
        },
    }
}

fn same_bytes(a: &Vec<u8>, b: &Vec<u8>) -> (r: bool)
    ensures
        r == (a@ == b@),
{
    if a.len() != b.len() {
        return false;
    }
    let mut i: usize = 0;
    while i < a.len()
        invariant
            a@.len() == b@.len(),
            i <= a@.len(),
            forall|j: int| 0 <= j < i ==> a@[j] == b@[j],
        decreases a@.len() - i,
    {
        if a[i] != b[i] {
            return false;
        }
        i = i + 1;
    }
    proof {
        assert(a@ =~= b@);
    }
    true
}

/// Reads the bulk delete form: the values named `selected_contact_ids`, in
/// order, up to the first pair without `=`, with a value that is not UTF-8,
/// or with a value that is not a whole number; that pair's fault, if any.
pub fn parse_delete_form(form: &[u8]) -> (r: DeleteRequest)
    ensures
        (r.ids@, r.error) == selected_of(pairs_of(form@)),
{
    let pairs = split_pairs(form);
    let ghost ps = pairs@.map_values(|v: Vec<u8>| v@);
    let selected: Vec<u8> = vec![
        115u8, 101, 108, 101, 99, 116, 101, 100, 95, 99, 111, 110, 116, 97, 99, 116, 95, 105, 100,
        115,
    ];
    proof {
        assert(selected@ =~= selected_name());
        assert(ps.take(0) =~= Seq::<Seq<u8>>::empty());
    }
    let mut ids: Vec<i64> = Vec::new();
    let mut i: usize = 0;
    while i < pairs.len()
        invariant
            i <= pairs@.len(),
            ps == pairs@.map_values(|v: Vec<u8>| v@),
            ps == pairs_of(form@),
            selected@ == selected_name(),
            selected_of(ps.take(i as int)) == (ids@, None::<FormError>),
        decreases pairs@.len() - i,
    {
        let ghost upto = ps.take(i + 1);
        proof {
            assert(upto.drop_last() =~= ps.take(i as int));
            assert(upto.last() == pairs@[i as int]@);
        }
        match read_pair(&pairs[i]) {
            Err(e) => {
                proof {
                    let rest = ps.skip(i + 1);
                    lemma_error_sticks(upto, rest);
                    assert(upto + rest =~= ps);
                }
                return DeleteRequest { ids, error: Some(e) };
            },
            Ok((name, v)) => {
                if same_bytes(&name, &selected) {
                    ids.push(v);
                }
            },
        }
        i = i + 1;
    }
    proof {
        assert(ps.take(pairs@.len() as int) =~= ps);
    }
    DeleteRequest { ids, error: None }
}

/// Once a pair is refused, the pairs after it change nothing.
proof fn lemma_error_sticks(ps: Seq<Seq<u8>>, rest: Seq<Seq<u8>>)
    requires
        selected_of(ps).1 is Some,
    ensures
        selected_of(ps + rest) == selected_of(ps),
    decreases rest.len(),
{
    if rest.len() == 0 {
        assert(ps + rest =~= ps);
    } else {
        lemma_error_sticks(ps, rest.drop_last());
        assert((ps + rest).drop_last() =~= ps + rest.drop_last());
    }
}

} // verus!
