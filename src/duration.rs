use std::time::Duration;
use vstd::prelude::*;

verus! {

/// Error for a fifth colon-separated field.
pub const TOO_MANY_COLONS: &'static str = "Duration has too many colons, can only be DD:HH:MM:SS";

/// Error for a character that is neither a digit nor a colon.
pub const NOT_DIGITS: &'static str = "Duration can only contain colons and digits";

/// Error for a duration whose seconds do not fit in a `u64`.
pub const TOO_LARGE: &'static str = "Duration is too large";

pub open spec fn is_digit(c: char) -> bool {
    '0' <= c && c <= '9'
}

pub open spec fn digit_value(c: char) -> int {
    c as int - '0' as int
}

/// Number of colons in `s`.
pub open spec fn colons(s: Seq<char>) -> nat
    decreases s.len(),
{
    if s.len() == 0 {
        0
    } else {
        colons(s.drop_last()) + if s.last() == ':' { 1nat } else { 0nat }
    }
}

/// The colon-separated fields of `s`, each read as a decimal number; an
/// empty field reads as zero.
pub open spec fn fields(s: Seq<char>) -> Seq<int>
    decreases s.len(),
{
    if s.len() == 0 {
        seq![0]
    } else {
        let f = fields(s.drop_last());
        if s.last() == ':' {
            f.push(0)
        } else {
            f.update(f.len() - 1, f.last() * 10 + digit_value(s.last()))
        }
    }
}

/// Seconds in one unit of the field `k` places from the right: seconds,
/// minutes, hours, days.
pub open spec fn unit_secs(k: int) -> int {
    if k == 0 {
        1
    } else if k == 1 {
        60
    } else if k == 2 {
        3600
    } else {
        86400
    }
}

/// Seconds given by the first `n` of the fields `f`, the last field of `f`
/// counting seconds.
pub open spec fn weighted(f: Seq<int>, n: int) -> int
    decreases n,
{
    if n <= 0 {
        0
    } else {
        weighted(f, n - 1) + f[n - 1] * unit_secs(f.len() - n)
    }
}

/// Seconds that `[[[DD:]HH:]MM:]SS` stands for.
pub open spec fn total_secs(s: Seq<char>) -> int {
    weighted(fields(s), fields(s).len() as int)
}

/// The character at `i` ends the parse: it is not a digit, and it is not a
/// colon that starts one of the first four fields.
pub open spec fn stops_at(s: Seq<char>, i: int) -> bool {
    !is_digit(s[i]) && (s[i] != ':' || colons(s.take(i)) >= 3)
}

/// `i` is the first place where the parse ends early.
pub open spec fn first_stop(s: Seq<char>, i: int) -> bool {
    &&& 0 <= i < s.len()
    &&& stops_at(s, i)
    &&& forall|j: int| 0 <= j < i ==> !stops_at(s, j)
}

/// `s` is digits and at most three colons.
pub open spec fn well_formed(s: Seq<char>) -> bool {
    forall|i: int| 0 <= i < s.len() ==> !stops_at(s, i)
}

proof fn lemma_take_step(s: Seq<char>, i: int)
    requires
        0 <= i < s.len(),
    ensures
        s.take(i + 1).drop_last() == s.take(i),
        s.take(i + 1).last() == s[i],
{
    assert(s.take(i + 1).drop_last() =~= s.take(i));
}

proof fn lemma_fields_len(s: Seq<char>)
    ensures
        fields(s).len() == colons(s) + 1,
    decreases s.len(),
{
    if s.len() > 0 {
        lemma_fields_len(s.drop_last());
    }
}

proof fn lemma_well_formed_chars(s: Seq<char>)
    requires
        well_formed(s),
    ensures
        forall|i: int| 0 <= i < s.len() ==> is_digit(#[trigger] s[i]) || s[i] == ':',
{
    assert forall|i: int| 0 <= i < s.len() implies is_digit(#[trigger] s[i]) || s[i] == ':' by {
        assert(!stops_at(s, i));
    }
}

proof fn lemma_fields_shape(s: Seq<char>)
    requires
        forall|i: int| 0 <= i < s.len() ==> is_digit(#[trigger] s[i]) || s[i] == ':',
    ensures
        fields(s).len() == colons(s) + 1,
        forall|k: int| 0 <= k < fields(s).len() ==> fields(s)[k] >= 0,
    decreases s.len(),
{
    if s.len() > 0 {
        let p = s.drop_last();
        assert forall|i: int| 0 <= i < p.len() implies is_digit(#[trigger] p[i]) || p[i] == ':' by {
            assert(p[i] == s[i]);
        }
        lemma_fields_shape(p);
    }
}

/// Reading more of a well-formed string never shrinks a field already begun.
proof fn lemma_fields_grow(s: Seq<char>, i: int)
    requires
        0 <= i <= s.len(),
        well_formed(s),
    ensures
        fields(s.take(i)).len() <= fields(s).len(),
        forall|k: int|
            0 <= k < fields(s.take(i)).len() ==> #[trigger] fields(s)[k] >= fields(s.take(i))[k],
    decreases s.len() - i,
{
    if i < s.len() {
        lemma_fields_grow(s, i + 1);
        lemma_take_step(s, i);
        let p = s.take(i);
        assert forall|j: int| 0 <= j < p.len() implies is_digit(#[trigger] p[j]) || p[j] == ':' by {
            assert(p[j] == s[j]);
            assert(!stops_at(s, j));
        }
        lemma_fields_shape(p);
        assert(!stops_at(s, i));
    } else {
        assert(s.take(i) =~= s);
    }
}

proof fn lemma_weighted_nonneg(f: Seq<int>, n: int)
    requires
        n <= f.len(),
        forall|k: int| 0 <= k < f.len() ==> f[k] >= 0,
    ensures
        weighted(f, n) >= 0,
    decreases n,
{
    if n > 0 {
        lemma_weighted_nonneg(f, n - 1);
        assert(f[n - 1] * unit_secs(f.len() - n) >= 0) by (nonlinear_arith)
            requires
                f[n - 1] >= 0,
                unit_secs(f.len() - n) >= 1,
        ;
    }
}

/// With no negative field, the seconds of the first `n` fields bound those
/// of the first `m <= n` and each single field among them.
proof fn lemma_weighted_ge(f: Seq<int>, m: int, n: int)
    requires
        0 <= m <= n <= f.len(),
        forall|k: int| 0 <= k < f.len() ==> f[k] >= 0,
    ensures
        weighted(f, n) >= weighted(f, m),
        forall|k: int| 0 <= k < n ==> weighted(f, n) >= #[trigger] f[k],
    decreases n,
{
    if n > 0 {
        lemma_weighted_ge(f, if m == n { n - 1 } else { m }, n - 1);
        lemma_weighted_nonneg(f, n - 1);
        assert(f[n - 1] * unit_secs(f.len() - n) >= f[n - 1]) by (nonlinear_arith)
            requires
                f[n - 1] >= 0,
                unit_secs(f.len() - n) >= 1,
        ;
    }
}

/// Seconds in one unit of the field `k` places from the right.
fn unit_of(k: usize) -> (r: u64)
    ensures
        r == unit_secs(k as int),
{
    if k == 0 {
        1
    } else if k == 1 {
        60
    } else if k == 2 {
        3600
    } else {
        86400
    }
}

/// Reads `[[[DD:]HH:]MM:]SS` as a number of seconds. Fields missing on the
/// left count as zero, as does an empty field.
pub fn parse_duration_secs(value: &str) -> (r: Result<u64, &'static str>)
    ensures
        r is Ok <==> well_formed(value@) && total_secs(value@) <= u64::MAX,
        r is Ok ==> r->Ok_0 == total_secs(value@),
        forall|i: int|
            first_stop(value@, i) ==> r == Err::<u64, &'static str>(
                if value@[i] == ':' { TOO_MANY_COLONS } else { NOT_DIGITS },
            ),
        well_formed(value@) && total_secs(value@) > u64::MAX ==> r == Err::<u64, &'static str>(
            TOO_LARGE,
        ),
{
    let ghost s = value@;
    let n = value.unicode_len();
    let mut i: usize = 0;
    let mut cursor: usize = 0;
    while i < n
        invariant
            n == s.len(),
            s == value@,
            i <= n,
            cursor == colons(s.take(i as int)),
            cursor <= 3,
            forall|j: int| 0 <= j < i ==> !stops_at(s, j),
        decreases n - i,
    {
        let c = value.get_char(i);
        proof {
            lemma_take_step(s, i as int);
        }
        if c == ':' {
            if cursor == 3 {
                assert(first_stop(s, i as int));
                return Err(TOO_MANY_COLONS);
            }
            cursor = cursor + 1;
        } else if !('0' <= c && c <= '9') {
            assert(first_stop(s, i as int));
            return Err(NOT_DIGITS);
        }
        i = i + 1;
    }
    assert(well_formed(s));
    assert forall|k: int| !first_stop(s, k) by {}
    assert(s.take(n as int) =~= s);
    proof {
        lemma_well_formed_chars(s);
        lemma_fields_shape(s);
    }
    let mut segs: Vec<u64> = vec![0];
    i = 0;
    while i < n
        invariant
            n == s.len(),
            s == value@,
            i <= n,
            well_formed(s),
            forall|j: int| 0 <= j < s.len() ==> is_digit(#[trigger] s[j]) || s[j] == ':',
            segs@.len() == fields(s.take(i as int)).len(),
            forall|k: int| 0 <= k < segs@.len() ==> segs@[k] == #[trigger] fields(s.take(i as int))[k],
        decreases n - i,
    {
        let c = value.get_char(i);
        proof {
            lemma_take_step(s, i as int);
            lemma_fields_len(s.take(i as int));
            assert(!stops_at(s, i as int));
        }
        if c == ':' {
            segs.push(0);
        } else {
            let last = segs.len() - 1;
            let d = (c as u64) - ('0' as u64);
            let grown = match segs[last].checked_mul(10) {
                Some(x) => x.checked_add(d),
                None => None,
            };
            match grown {
                Some(x) => {
                    segs.set(last, x);
                },
                None => {
                    proof {
                        let f = fields(s);
                        lemma_fields_grow(s, i as int + 1);
                        lemma_fields_shape(s);
                        lemma_weighted_ge(f, 0, f.len() as int);
                        assert(f[last as int] >= fields(s.take(i as int + 1))[last as int]);
                    }
                    return Err(TOO_LARGE);
                },
            }
        }
        i = i + 1;
    }
    assert(s.take(n as int) =~= s);
    let ghost f = fields(s);
    let len = segs.len();
    let mut total: u64 = 0;
    let mut k: usize = 0;
    while k < len
        invariant
            f == fields(s),
            s == value@,
            well_formed(s),
            len == segs@.len() == f.len(),
            forall|j: int| 0 <= j < len ==> segs@[j] == #[trigger] f[j],
            forall|j: int| 0 <= j < f.len() ==> f[j] >= 0,
            k <= len,
            total == weighted(f, k as int),
        decreases len - k,
    {
        let unit = unit_of(len - 1 - k);
        let next = match segs[k].checked_mul(unit) {
            Some(x) => total.checked_add(x),
            None => None,
        };
        match next {
            Some(x) => {
                total = x;
            },
            None => {
                proof {
                    lemma_weighted_ge(f, k as int + 1, len as int);
                    lemma_weighted_nonneg(f, k as int);
                    assert(unit_secs(f.len() - (k + 1)) == unit as int);
                    assert(weighted(f, k as int + 1) == weighted(f, k as int) + f[k as int] * (
                    unit as int));
                    assert(weighted(f, k as int + 1) > u64::MAX);
                    assert(total_secs(s) > u64::MAX);
                    assert forall|j: int| !first_stop(s, j) by {
                        if 0 <= j < s.len() {
                            assert(!stops_at(s, j));
                        }
                    }
                }
                return Err(TOO_LARGE);
            },
        }
        k = k + 1;
    }
    Ok(total)
}

/// The `Duration` of a whole number of seconds.
pub uninterp spec fn duration_of_secs(secs: u64) -> Duration;

/// Relies on `Duration::from_secs`: the duration of `secs` whole seconds.
#[verifier::external_body]
fn duration_from_secs(secs: u64) -> (d: Duration)
    ensures
        d == duration_of_secs(secs),
{
    Duration::from_secs(secs)
}

/// Parses a positive number of seconds in the form `[[[DD:]HH:]MM:]SS`.
pub fn parse_duration(value: &str) -> (r: Result<Duration, &'static str>)
    ensures
        r is Ok <==> well_formed(value@) && total_secs(value@) <= u64::MAX,
        r is Ok ==> r->Ok_0 == duration_of_secs(total_secs(value@) as u64),
        forall|i: int|
            first_stop(value@, i) ==> r == Err::<Duration, &'static str>(
                if value@[i] == ':' { TOO_MANY_COLONS } else { NOT_DIGITS },
            ),
        well_formed(value@) && total_secs(value@) > u64::MAX ==> r == Err::<Duration, &'static str>(
            TOO_LARGE,
        ),
{
    match parse_duration_secs(value) {
        Ok(secs) => Ok(duration_from_secs(secs)),
        Err(e) => Err(e),
    }
}

} // verus!
