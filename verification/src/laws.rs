//! Properties of the library as a whole, proved over the specifications that
//! its functions' contracts use.
use crate::cli::{
    header_outcome, purge_path_cache_plan, purge_urls_cache_plan, push_urls_cache_outcome, FlushType,
    PurgePathCacheArgs, PurgeUrlsCacheArgs, PushUrlsCacheArgs, Submission, MAX_PUSH_HEADERS,
};
use crate::calendar::{
    civil_date, date_before, days_from_civil, format_date, is_valid_date, lemma_civil_date_is,
    lemma_date_exists, lemma_day_number_increases, lemma_some_date, signed_timestamp, timestamp_in_range,
    unix_day, utc_date, MAX_UNIX_TIMESTAMP,
};
use crate::signing::{authorization_of, authorization_on, lemma_authorization_written_out};
use crate::text::{decimal, digit_char, is_blank, is_white, split_once, trim, trim_end, trim_start, zero_pad};
use vstd::prelude::*;

verus! {

/// `trim_start` drops a whitespace prefix and stops at a non-whitespace character.
proof fn lemma_trim_start_shape(s: Seq<char>) -> (k: int)
    ensures
        0 <= k <= s.len(),
        trim_start(s) == s.subrange(k, s.len() as int),
        forall|i: int| 0 <= i < k ==> is_white(#[trigger] s[i]),
        k < s.len() ==> !is_white(s[k]),
    decreases s.len(),
{
    if s.len() > 0 && is_white(s[0]) {
        let k0 = lemma_trim_start_shape(s.drop_first());
        assert(s.drop_first().subrange(k0, s.drop_first().len() as int) =~= s.subrange(
            k0 + 1,
            s.len() as int,
        ));
        assert forall|i: int| 0 <= i < k0 + 1 implies is_white(#[trigger] s[i]) by {
            if i > 0 {
                assert(s[i] == s.drop_first()[i - 1]);
            }
        }
        k0 + 1
    } else {
        assert(s.subrange(0, s.len() as int) =~= s);
        0
    }
}

/// `trim_end` drops a whitespace suffix and stops at a non-whitespace character.
proof fn lemma_trim_end_shape(s: Seq<char>) -> (j: int)
    ensures
        0 <= j <= s.len(),
        trim_end(s) == s.subrange(0, j),
        forall|i: int| j <= i < s.len() ==> is_white(#[trigger] s[i]),
        j > 0 ==> !is_white(s[j - 1]),
    decreases s.len(),
{
    if s.len() > 0 && is_white(s.last()) {
        let j0 = lemma_trim_end_shape(s.drop_last());
        assert(s.drop_last().subrange(0, j0) =~= s.subrange(0, j0));
        assert forall|i: int| j0 <= i < s.len() implies is_white(#[trigger] s[i]) by {
            if i < s.len() - 1 {
                assert(s[i] == s.drop_last()[i]);
            }
        }
        j0
    } else {
        assert(s.subrange(0, s.len() as int) =~= s);
        s.len() as int
    }
}

/// `trim(s)` is the part of `s` between a whitespace prefix and a whitespace
/// suffix, and it neither begins nor ends with whitespace.
proof fn lemma_trim_shape(s: Seq<char>) -> (bounds: (int, int))
    ensures
        0 <= bounds.0 <= bounds.1 <= s.len(),
        trim(s) == s.subrange(bounds.0, bounds.1),
        forall|i: int| 0 <= i < bounds.0 ==> is_white(#[trigger] s[i]),
        forall|i: int| bounds.1 <= i < s.len() ==> is_white(#[trigger] s[i]),
        bounds.0 < bounds.1 ==> !is_white(s[bounds.0]) && !is_white(s[bounds.1 - 1]),
{
    let k = lemma_trim_start_shape(s);
    let u = s.subrange(k, s.len() as int);
    let j = lemma_trim_end_shape(u);
    assert(u.subrange(0, j) =~= s.subrange(k, k + j));
    assert forall|i: int| k + j <= i < s.len() implies is_white(#[trigger] s[i]) by {
        assert(s[i] == u[i - k]);
    }
    if 0 < j {
        assert(s[k] == u[0]);
        assert(s[k + j - 1] == u[j - 1]);
    }
    (k, k + j)
}

/// Trimming a second time changes nothing.
pub proof fn lemma_trim_idempotent(s: Seq<char>)
    ensures
        trim(trim(s)) == trim(s),
{
    let (lo, hi) = lemma_trim_shape(s);
    let t = trim(s);
    let (a, b) = lemma_trim_shape(t);
    if t.len() > 0 {
        assert(t[0] == s[lo]);
        assert(t[t.len() - 1] == s[hi - 1]);
        if a > 0 {
            assert(is_white(t[0]));
        }
        if b < t.len() {
            assert(is_white(t[t.len() - 1]));
        }
        assert(t.subrange(a, b) =~= t);
    } else {
        assert(t.subrange(a, b) =~= t);
    }
}

/// A value trims to nothing exactly when it is all whitespace: the blank test
/// that the validators and the region header use is `s.trim().is_empty()`.
pub proof fn lemma_blank_iff_trims_to_empty(s: Seq<char>)
    ensures
        is_blank(s) <==> trim(s).len() == 0,
{
    let (lo, hi) = lemma_trim_shape(s);
    if is_blank(s) && lo < hi {
        assert(is_white(s[lo]));
    }
    if trim(s).len() == 0 {
        assert forall|i: int| 0 <= i < s.len() implies is_white(#[trigger] s[i]) by {
            if i >= lo {
                assert(i >= hi);
            }
        }
    }
}

/// Splitting `left + [sep] + right` at the first `sep`, when `left` holds no
/// `sep`, gives back `left` and `right`.
proof fn lemma_split_once_join(left: Seq<char>, sep: char, right: Seq<char>)
    requires
        !left.contains(sep),
    ensures
        split_once(left + seq![sep] + right, sep) == Some((left, right)),
{
    let w = left + seq![sep] + right;
    let n = left.len() as int;
    assert(w[n] == sep);
    assert(w.contains(sep));
    w.index_of_first_ensures(sep);
    let idx = w.index_of_first(sep).unwrap();
    if idx < n {
        assert(left[idx] == w[idx]);
    }
    if idx > n {
        assert(w[n] == sep);
    }
    assert(w.subrange(0, n) =~= left);
    assert(w.subrange(n + 1, w.len() as int) =~= right);
}

/// A custom header read from `NAME:VALUE` and written back as `NAME:VALUE`
/// reads as the same header again.
pub proof fn lemma_header_reparse(s: Seq<char>)
    requires
        header_outcome(s) is Ok,
    ensures
        ({
            let (name, value) = header_outcome(s)->Ok_0;
            header_outcome(name + seq![':'] + value) == header_outcome(s)
        }),
{
    let (raw_name, raw_value) = split_once(s, ':')->Some_0;
    s.index_of_first_ensures(':');
    let i = s.index_of_first(':')->Some_0;
    let name = trim(raw_name);
    let value = trim(raw_value);
    let (lo, hi) = lemma_trim_shape(raw_name);
    assert(!name.contains(':')) by {
        if name.contains(':') {
            let p = choose|p: int| 0 <= p < name.len() && name[p] == ':';
            assert(name[p] == raw_name[lo + p]);
            assert(raw_name[lo + p] == s[lo + p]);
        }
    }
    lemma_split_once_join(name, ':', value);
    lemma_trim_idempotent(raw_name);
    lemma_trim_idempotent(raw_value);
}

/// The number that a decimal digit stands for.
pub open spec fn digit_value(c: char) -> int {
    if c == '0' {
        0
    } else if c == '1' {
        1
    } else if c == '2' {
        2
    } else if c == '3' {
        3
    } else if c == '4' {
        4
    } else if c == '5' {
        5
    } else if c == '6' {
        6
    } else if c == '7' {
        7
    } else if c == '8' {
        8
    } else {
        9
    }
}

/// The number that a string of decimal digits stands for.
pub open spec fn decimal_value(s: Seq<char>) -> int
    decreases s.len(),
{
    if s.len() == 0 {
        0
    } else {
        decimal_value(s.drop_last()) * 10 + digit_value(s.last())
    }
}

/// A digit reads back as the number it renders.
proof fn lemma_digit_round_trip(d: int)
    requires
        0 <= d < 10,
    ensures
        digit_value(digit_char(d)) == d,
{
}

/// A decimal rendering reads back as the number rendered.
pub proof fn lemma_decimal_round_trip(n: nat)
    ensures
        decimal_value(decimal(n)) == n,
    decreases n,
{
    lemma_digit_round_trip(n as int % 10);
    let r = n as int % 10;
    if n < 10 {
        assert(decimal(n).drop_last() =~= Seq::<char>::empty());
        assert(r == n);
        assert(decimal(n).last() == digit_char(r));
    } else {
        lemma_decimal_round_trip(n / 10);
        assert(decimal(n).drop_last() =~= decimal(n / 10));
        assert(decimal(n).last() == digit_char(r));
        assert(n == (n / 10) * 10 + n % 10) by (nonlinear_arith);
    }
    assert(decimal_value(decimal(n)) == decimal_value(decimal(n).drop_last()) * 10 + digit_value(
        decimal(n).last(),
    ));
}

/// Distinct numbers have distinct decimal renderings, so the `X-TC-Timestamp`
/// header and the string to sign determine the timestamp.
pub proof fn lemma_decimal_injective(a: nat, b: nat)
    requires
        decimal(a) == decimal(b),
    ensures
        a == b,
{
    lemma_decimal_round_trip(a);
    lemma_decimal_round_trip(b);
}

/// Ten to the power `k`.
pub open spec fn pow10(k: nat) -> nat
    decreases k,
{
    if k == 0 {
        1
    } else {
        10 * pow10((k - 1) as nat)
    }
}

/// A number below `10^k` (with `k` at least one) has at most `k` digits.
proof fn lemma_decimal_len_bound(n: nat, k: nat)
    requires
        1 <= k,
        n < pow10(k),
    ensures
        1 <= decimal(n).len() <= k,
    decreases n,
{
    if n >= 10 {
        let p = pow10((k - 1) as nat);
        assert(k >= 2) by {
            if k == 1 {
                assert(pow10(1) == 10 * pow10(0));
            }
        }
        assert(n / 10 < p) by (nonlinear_arith)
            requires
                n < 10 * p,
        ;
        lemma_decimal_len_bound(n / 10, (k - 1) as nat);
    }
}

/// A date of a year from 0 to 9999 is laid out as `YYYY-MM-DD`: ten characters
/// with the dashes at positions 4 and 7.
pub proof fn lemma_date_layout(date: (int, int, int))
    requires
        0 <= date.0 <= 9999,
        1 <= date.1 <= 12,
        1 <= date.2 <= 31,
    ensures
        format_date(date).len() == 10,
        format_date(date)[4] == '-',
        format_date(date)[7] == '-',
{
    assert(pow10(4) == 10000 && pow10(2) == 100) by {
        reveal_with_fuel(pow10, 5);
    }
    lemma_decimal_len_bound(date.0 as nat, 4);
    lemma_decimal_len_bound(date.1 as nat, 2);
    lemma_decimal_len_bound(date.2 as nat, 2);
    let y = zero_pad(decimal(date.0 as nat), 4);
    let m = zero_pad(decimal(date.1 as nat), 2);
    let d = zero_pad(decimal(date.2 as nat), 2);
    assert(y.len() == 4);
    assert(m.len() == 2);
    assert(d.len() == 2);
    assert(format_date(date) =~= y + seq!['-'] + m + seq!['-'] + d);
}

/// The last `width` decimal digits of `n`, most significant first.
pub open spec fn fixed_digits(n: nat, width: nat) -> Seq<char>
    decreases width,
{
    if width == 0 {
        Seq::empty()
    } else {
        fixed_digits(n / 10, (width - 1) as nat).push(digit_char(n as int % 10))
    }
}

/// Digits of zero are all `'0'`.
proof fn lemma_fixed_digits_zero(width: nat)
    ensures
        fixed_digits(0, width) == Seq::new(width, |i: int| '0'),
    decreases width,
{
    if width > 0 {
        lemma_fixed_digits_zero((width - 1) as nat);
        assert(fixed_digits(0, width) =~= Seq::new(width, |i: int| '0'));
    }
}

/// Zero-padding the decimal rendering of a number that fits in `width`
/// digits gives its last `width` digits.
proof fn lemma_zero_pad_is_fixed(n: nat, width: nat)
    requires
        1 <= width,
        n < pow10(width),
    ensures
        zero_pad(decimal(n), width) == fixed_digits(n, width),
    decreases width,
{
    if n < 10 {
        lemma_fixed_digits_zero((width - 1) as nat);
        assert(n / 10 == 0);
        assert(zero_pad(decimal(n), width) =~= fixed_digits(n, width));
    } else {
        let p = pow10((width - 1) as nat);
        assert(width >= 2) by {
            if width == 1 {
                assert(pow10(1) == 10 * pow10(0));
            }
        }
        assert(n / 10 < p) by (nonlinear_arith)
            requires
                n < 10 * p,
        ;
        lemma_zero_pad_is_fixed(n / 10, (width - 1) as nat);
        lemma_decimal_len_bound(n / 10, (width - 1) as nat);
        assert(zero_pad(decimal(n), width) =~= zero_pad(decimal(n / 10), (width - 1) as nat).push(
            digit_char(n as int % 10),
        ));
    }
}

/// The code of a decimal digit grows with the digit.
proof fn lemma_digit_codes(d: int)
    requires
        0 <= d < 10,
    ensures
        digit_char(d) as u32 == 48 + d,
{
}

/// `a` comes strictly before `b` in dictionary order of character codes.
pub open spec fn lex_lt(a: Seq<char>, b: Seq<char>) -> bool {
    ||| exists|k: int|
        0 <= k < a.len() && k < b.len() && a.subrange(0, k) == b.subrange(0, k) && (
        #[trigger] a[k] as u32) < (b[k] as u32)
    ||| (a.len() < b.len() && a == b.subrange(0, a.len() as int))
}

/// `a` equals `b` or comes before it in dictionary order, as `str` compares.
pub open spec fn lex_le(a: Seq<char>, b: Seq<char>) -> bool {
    a == b || lex_lt(a, b)
}

/// Fixed-width digits order as the numbers do: the first differing digit is
/// smaller in the smaller number.
proof fn lemma_fixed_digits_ordered(a: nat, b: nat, width: nat) -> (k: int)
    requires
        a < b < pow10(width),
    ensures
        0 <= k < width,
        fixed_digits(a, width).len() == width,
        fixed_digits(b, width).len() == width,
        fixed_digits(a, width).subrange(0, k) == fixed_digits(b, width).subrange(0, k),
        (fixed_digits(a, width)[k] as u32) < (fixed_digits(b, width)[k] as u32),
    decreases width,
{
    lemma_fixed_len(a, width);
    lemma_fixed_len(b, width);
    assert(width >= 1) by {
        if width == 0 {
            assert(pow10(0) == 1);
        }
    }
    let w1 = (width - 1) as nat;
    let p = pow10(w1);
    assert(a / 10 <= b / 10) by (nonlinear_arith)
        requires
            a < b,
    ;
    lemma_digit_codes(a as int % 10);
    lemma_digit_codes(b as int % 10);
    if a / 10 < b / 10 {
        assert(b / 10 < p) by (nonlinear_arith)
            requires
                b < 10 * p,
        ;
        let k = lemma_fixed_digits_ordered(a / 10, b / 10, w1);
        let fa = fixed_digits(a / 10, w1);
        let fb = fixed_digits(b / 10, w1);
        assert(fixed_digits(a, width).subrange(0, k) =~= fa.subrange(0, k));
        assert(fixed_digits(b, width).subrange(0, k) =~= fb.subrange(0, k));
        assert(fixed_digits(a, width)[k] == fa[k]);
        assert(fixed_digits(b, width)[k] == fb[k]);
        k
    } else {
        assert(a as int % 10 < b as int % 10) by (nonlinear_arith)
            requires
                a < b,
                a / 10 == b / 10,
        ;
        lemma_fixed_len(a / 10, w1);
        assert(fixed_digits(a, width).subrange(0, w1 as int) =~= fixed_digits(a / 10, w1));
        assert(fixed_digits(b, width).subrange(0, w1 as int) =~= fixed_digits(b / 10, w1));
        w1 as int
    }
}

/// Fixed-width digits have the width as length.
proof fn lemma_fixed_len(n: nat, width: nat)
    ensures
        fixed_digits(n, width).len() == width,
    decreases width,
{
    if width > 0 {
        lemma_fixed_len(n / 10, (width - 1) as nat);
    }
}

/// A date of a year from 0 to 9999, as printed, is its fixed-width parts.
proof fn lemma_format_date_fixed(date: (int, int, int))
    requires
        0 <= date.0 <= 9999,
        1 <= date.1 <= 12,
        1 <= date.2 <= 31,
    ensures
        format_date(date) == fixed_digits(date.0 as nat, 4) + seq!['-'] + fixed_digits(
            date.1 as nat,
            2,
        ) + seq!['-'] + fixed_digits(date.2 as nat, 2),
{
    assert(pow10(4) == 10000 && pow10(2) == 100) by {
        reveal_with_fuel(pow10, 5);
    }
    lemma_zero_pad_is_fixed(date.0 as nat, 4);
    lemma_zero_pad_is_fixed(date.1 as nat, 2);
    lemma_zero_pad_is_fixed(date.2 as nat, 2);
}

/// Printed dates of years 0 to 9999 sort as the dates do.
proof fn lemma_format_date_ordered(a: (int, int, int), b: (int, int, int))
    requires
        0 <= a.0 <= 9999,
        1 <= a.1 <= 12,
        1 <= a.2 <= 31,
        0 <= b.0 <= 9999,
        1 <= b.1 <= 12,
        1 <= b.2 <= 31,
        date_before(a, b),
    ensures
        lex_lt(format_date(a), format_date(b)),
{
    assert(pow10(4) == 10000 && pow10(2) == 100) by {
        reveal_with_fuel(pow10, 5);
    }
    lemma_format_date_fixed(a);
    lemma_format_date_fixed(b);
    let (ya, ma, da) = (fixed_digits(a.0 as nat, 4), fixed_digits(a.1 as nat, 2), fixed_digits(a.2 as nat, 2));
    let (yb, mb, db) = (fixed_digits(b.0 as nat, 4), fixed_digits(b.1 as nat, 2), fixed_digits(b.2 as nat, 2));
    lemma_fixed_len(a.0 as nat, 4);
    lemma_fixed_len(a.1 as nat, 2);
    lemma_fixed_len(a.2 as nat, 2);
    lemma_fixed_len(b.0 as nat, 4);
    lemma_fixed_len(b.1 as nat, 2);
    lemma_fixed_len(b.2 as nat, 2);
    let fa = format_date(a);
    let fb = format_date(b);
    if a.0 < b.0 {
        let k = lemma_fixed_digits_ordered(a.0 as nat, b.0 as nat, 4);
        assert(fa.subrange(0, k) =~= ya.subrange(0, k));
        assert(fb.subrange(0, k) =~= yb.subrange(0, k));
        assert(fa[k] == ya[k] && fb[k] == yb[k]);
    } else if a.1 < b.1 {
        let j = lemma_fixed_digits_ordered(a.1 as nat, b.1 as nat, 2);
        let k = 5 + j;
        assert(fa.subrange(0, k) =~= ya + seq!['-'] + ma.subrange(0, j));
        assert(fb.subrange(0, k) =~= yb + seq!['-'] + mb.subrange(0, j));
        assert(fa[k] == ma[j] && fb[k] == mb[j]);
    } else {
        let j = lemma_fixed_digits_ordered(a.2 as nat, b.2 as nat, 2);
        let k = 8 + j;
        assert(fa.subrange(0, k) =~= ya + seq!['-'] + ma + seq!['-'] + da.subrange(0, j));
        assert(fb.subrange(0, k) =~= yb + seq!['-'] + mb + seq!['-'] + db.subrange(0, j));
        assert(fa[k] == da[j] && fb[k] == db[j]);
    }
}

/// The date of each day number from 0 to that of 9999-12-31 lies in the years
/// 1970 to 9999.
proof fn lemma_civil_date_years(day: int)
    requires
        0 <= day <= unix_day(MAX_UNIX_TIMESTAMP as int),
    ensures
        is_valid_date(civil_date(day).0, civil_date(day).1, civil_date(day).2),
        days_from_civil(civil_date(day).0, civil_date(day).1, civil_date(day).2) == day,
        1970 <= civil_date(day).0 <= 9999,
{
    let date = lemma_date_exists(day as nat);
    lemma_civil_date_is(day, date.0, date.1, date.2);
    if date.0 > 9999 {
        let last = (9999int, 12int, 31int);
        assert(days_from_civil(9999, 12, 31) == 2932896);
        lemma_day_number_increases(last, date);
    }
}

/// For timestamps from 0 to the last second of 9999, the UTC date is always
/// printed as `YYYY-MM-DD` (ten characters), a later timestamp never has an
/// earlier date in string order, and timestamps of the same day have the same date.
pub proof fn lemma_utc_date_order(t1: u64, t2: u64)
    requires
        t1 <= t2 <= MAX_UNIX_TIMESTAMP,
    ensures
        timestamp_in_range(t1),
        timestamp_in_range(t2),
        utc_date(t1).len() == 10,
        utc_date(t2).len() == 10,
        lex_le(utc_date(t1), utc_date(t2)),
        t1 / 86400 == t2 / 86400 ==> utc_date(t1) == utc_date(t2),
{
    let n1 = unix_day(signed_timestamp(t1) as int);
    let n2 = unix_day(signed_timestamp(t2) as int);
    assert(n1 == t1 / 86400 && n2 == t2 / 86400);
    assert(t1 / 86400 <= t2 / 86400) by (nonlinear_arith)
        requires
            t1 <= t2,
    ;
    assert(n2 <= unix_day(MAX_UNIX_TIMESTAMP as int));
    lemma_civil_date_years(n1);
    lemma_civil_date_years(n2);
    let c1 = civil_date(n1);
    let c2 = civil_date(n2);
    lemma_date_layout(c1);
    lemma_date_layout(c2);
    if c1 != c2 {
        if date_before(c2, c1) {
            lemma_day_number_increases(c2, c1);
        } else {
            assert(date_before(c1, c2));
            lemma_format_date_ordered(c1, c2);
        }
    }
}

/// A directory purge sends the flush type that was asked for: `flush` for
/// `Flush` (refresh what changed), `delete` for `Delete` (refresh all).
pub proof fn lemma_purge_path_cache_flush_type(args: PurgePathCacheArgs, submission: Submission)
    requires
        purge_path_cache_plan(args, submission),
    ensures
        submission matches Submission::PurgePathCache { request, .. } && {
            &&& (args.flush_type == FlushType::Flush ==> request.flush_type@ == "flush"@)
            &&& (args.flush_type == FlushType::Delete ==> request.flush_type@ == "delete"@)
        },
{
}

/// Two directory purges that ask for different flush types send different
/// flush types.
pub proof fn lemma_purge_path_cache_flush_types_differ(
    a: PurgePathCacheArgs,
    sa: Submission,
    b: PurgePathCacheArgs,
    sb: Submission,
)
    requires
        purge_path_cache_plan(a, sa),
        purge_path_cache_plan(b, sb),
        a.flush_type != b.flush_type,
    ensures
        sa matches Submission::PurgePathCache { request: ra, .. } && sb matches Submission::PurgePathCache { request: rb, .. } && ra.flush_type@ != rb.flush_type@,
{
    reveal_strlit("flush");
    reveal_strlit("delete");
    assert("flush"@[0] != "delete"@[0]);
}

/// A directory purge is signed with the caller's key pair and region and
/// carries the paths and options given.
pub proof fn lemma_purge_path_cache_passes_options(args: PurgePathCacheArgs, submission: Submission)
    requires
        purge_path_cache_plan(args, submission),
    ensures
        submission matches Submission::PurgePathCache { credentials, request } && {
            &&& credentials.secret_id@ == args.secret_id@
            &&& credentials.secret_key@ == args.secret_key@
            &&& credentials.region@ == args.region@
            &&& request.paths@ == args.paths@
            &&& request.url_encode == args.url_encode
            &&& request.area == args.area
        },
{
}

/// A URL purge is signed with the caller's own key pair (the SecretId as id,
/// the SecretKey as key), names no region, and carries the URLs and options given.
pub proof fn lemma_purge_urls_cache_key_pair(args: PurgeUrlsCacheArgs, submission: Submission)
    requires
        purge_urls_cache_plan(args, submission),
    ensures
        submission matches Submission::PurgeUrlsCache { credentials, request } && {
            &&& credentials.secret_id@ == args.secret_id@
            &&& credentials.secret_key@ == args.secret_key@
            &&& credentials.region@.len() == 0
            &&& request.urls@ == args.urls@
            &&& request.url_encode == args.url_encode
            &&& request.area == args.area
        },
{
}

/// A URL prefetch with at most `MAX_PUSH_HEADERS` custom headers is made,
/// signed with the caller's key pair, and carries every option unchanged:
/// URLs, user agent, area, layer, M3U8 parsing, range switch, URL encoding
/// and the headers (absent when none were given); with more it is refused.
pub proof fn lemma_push_urls_cache_passes_options(args: PushUrlsCacheArgs, res: Result<Submission, String>)
    requires
        push_urls_cache_outcome(args, res),
    ensures
        res is Ok <==> args.headers.len() <= MAX_PUSH_HEADERS,
        res matches Ok(submission) ==> submission matches Submission::PushUrlsCache {
            credentials,
            request,
        } && {
            &&& credentials.secret_id@ == args.secret_id@
            &&& credentials.secret_key@ == args.secret_key@
            &&& credentials.region@.len() == 0
            &&& request.urls@ == args.urls@
            &&& request.user_agent == args.user_agent
            &&& request.area == args.area
            &&& request.layer == args.layer
            &&& request.parse_m3u8 == args.parse_m3u8
            &&& request.disable_range == args.disable_range
            &&& (args.headers.len() == 0 ==> request.headers is None)
            &&& (args.headers.len() > 0 ==> request.headers == Some(args.headers))
            &&& request.url_encode == args.url_encode
        },
{
}

/// A call is signed for the UTC day of its own timestamp: the day number of
/// that timestamp (seconds divided by 86400, rounded down) belongs to a date,
/// and the `Authorization` header is the one whose credential scope and
/// signing key carry that date as `YYYY-MM-DD`.
pub proof fn lemma_authorization_dated_by_timestamp(
    secret_id: Seq<char>,
    secret_key: Seq<char>,
    payload: Seq<char>,
    timestamp: u64,
)
    ensures
        exists|date: (int, int, int)|
            is_valid_date(date.0, date.1, date.2) && #[trigger] days_from_civil(date.0, date.1, date.2)
                == unix_day(signed_timestamp(timestamp) as int),
        forall|date: (int, int, int)|
            is_valid_date(date.0, date.1, date.2) && #[trigger] days_from_civil(date.0, date.1, date.2)
                == unix_day(signed_timestamp(timestamp) as int) ==> authorization_of(
                secret_id,
                secret_key,
                payload,
                timestamp,
            ) == authorization_on(secret_id, secret_key, payload, timestamp, format_date(date)),
{
    let day = unix_day(signed_timestamp(timestamp) as int);
    let some = lemma_some_date(day);
    assert(is_valid_date(some.0, some.1, some.2) && days_from_civil(some.0, some.1, some.2) == day);
    lemma_authorization_written_out(secret_id, secret_key, payload, timestamp);
    assert forall|date: (int, int, int)|
        is_valid_date(date.0, date.1, date.2) && #[trigger] days_from_civil(date.0, date.1, date.2)
            == day implies authorization_of(secret_id, secret_key, payload, timestamp)
        == authorization_on(secret_id, secret_key, payload, timestamp, format_date(date)) by {
        lemma_civil_date_is(day, date.0, date.1, date.2);
    }
}

/// Two calls made on the same UTC day with the same key pair and body differ
/// only in the timestamp they sign: both carry the same date.
pub proof fn lemma_same_day_same_date(
    secret_id: Seq<char>,
    secret_key: Seq<char>,
    payload: Seq<char>,
    t1: u64,
    t2: u64,
)
    requires
        t1 <= MAX_UNIX_TIMESTAMP,
        t2 <= MAX_UNIX_TIMESTAMP,
        t1 / 86400 == t2 / 86400,
    ensures
        authorization_of(secret_id, secret_key, payload, t1) == authorization_on(
            secret_id,
            secret_key,
            payload,
            t1,
            utc_date(t2),
        ),
{
    lemma_authorization_written_out(secret_id, secret_key, payload, t1);
    assert(unix_day(signed_timestamp(t1) as int) == unix_day(signed_timestamp(t2) as int));
}

} // verus!
