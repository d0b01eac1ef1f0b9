//! Parser for the external tool's progress lines.
//!
//! A progress line starts with the sentinel prefix `download:` and may carry,
//! anywhere after it and in any combination, four tokens: a percentage
//! `DIGITS.DIGITS%`, a speed `[<value>/s]`, an ETA `ETA:<value>]`, and a size
//! `[<number><unit>/<number><unit>]`. Each token is searched for
//! independently, taking the leftmost occurrence; a missing token falls back
//! to its own default without rejecting the line. The percentage is kept as
//! an exact rational (numerator over denominator), the value of the
//! percentage divided by 100.

use vstd::prelude::*;
use vstd::string::*;

verus! {

// ---------------------------------------------------------------------------
// Character classes and digit runs
// ---------------------------------------------------------------------------

pub open spec fn is_digit_char(c: char) -> bool {
    48 <= c as u32 && c as u32 <= 57
}

pub open spec fn digit_value(c: char) -> nat
    recommends
        is_digit_char(c),
{
    (c as u32 - 48) as nat
}

/// The end of the run of decimal digits that starts at `i`: the first
/// position at or after `i` holding a non-digit, or the end of the text.
pub open spec fn digit_run_end(s: Seq<char>, i: int) -> int
    decreases s.len() - i,
{
    if i < s.len() && is_digit_char(s[i]) {
        digit_run_end(s, i + 1)
    } else {
        i
    }
}

pub proof fn lemma_digit_run_end(s: Seq<char>, i: int)
    requires
        0 <= i <= s.len(),
    ensures
        i <= digit_run_end(s, i) <= s.len(),
        forall|k: int| i <= k < digit_run_end(s, i) ==> is_digit_char(s[k]),
        digit_run_end(s, i) < s.len() ==> !is_digit_char(s[digit_run_end(s, i)]),
    decreases s.len() - i,
{
    if i < s.len() && is_digit_char(s[i]) {
        lemma_digit_run_end(s, i + 1);
    }
}

fn is_digit_exec(c: char) -> (b: bool)
    ensures
        b == is_digit_char(c),
{
    let u = c as u32;
    48 <= u && u <= 57
}

fn digit_run_end_exec(s: &Vec<char>, i: usize) -> (r: usize)
    requires
        i <= s.len(),
    ensures
        r == digit_run_end(s@, i as int),
        i <= r <= s.len(),
{
    let mut j = i;
    while j < s.len() && is_digit_exec(s[j])
        invariant
            i <= j <= s.len(),
            digit_run_end(s@, i as int) == digit_run_end(s@, j as int),
        decreases s@.len() - j,
    {
        j = j + 1;
    }
    proof {
        assert(digit_run_end(s@, j as int) == j);
        lemma_digit_run_end(s@, i as int);
    }
    j
}

// ---------------------------------------------------------------------------
// Decimal values and powers of ten
// ---------------------------------------------------------------------------

/// The value of a string of decimal digits, most significant first.
pub open spec fn dec_val(s: Seq<char>) -> nat
    decreases s.len(),
{
    if s.len() == 0 {
        0
    } else {
        dec_val(s.drop_last()) * 10 + digit_value(s.last())
    }
}

pub open spec fn pow10(n: nat) -> nat
    decreases n,
{
    if n == 0 {
        1
    } else {
        10 * pow10((n - 1) as nat)
    }
}

pub proof fn lemma_pow10_pos(n: nat)
    ensures
        pow10(n) >= 1,
    decreases n,
{
    if n > 0 {
        lemma_pow10_pos((n - 1) as nat);
    }
}

pub proof fn lemma_pow10_mono(m: nat, n: nat)
    requires
        m <= n,
    ensures
        pow10(m) <= pow10(n),
    decreases n,
{
    if m < n {
        lemma_pow10_mono(m, (n - 1) as nat);
        lemma_pow10_pos((n - 1) as nat);
    }
}

/// Appending one digit multiplies the value by ten and adds the digit.
proof fn lemma_dec_val_snoc(s: Seq<char>, from: int, j: int)
    requires
        0 <= from <= j < s.len(),
    ensures
        dec_val(s.subrange(from, j + 1)) == dec_val(s.subrange(from, j)) * 10 + digit_value(
            s[j],
        ),
{
    let t = s.subrange(from, j + 1);
    assert(t.drop_last() =~= s.subrange(from, j));
    assert(t.last() == s[j]);
}

/// A prefix of a digit string never exceeds the whole string in value.
proof fn lemma_dec_val_prefix_le(s: Seq<char>, from: int, j: int, to: int)
    requires
        0 <= from <= j <= to <= s.len(),
    ensures
        dec_val(s.subrange(from, j)) <= dec_val(s.subrange(from, to)),
    decreases to - j,
{
    if j < to {
        lemma_dec_val_snoc(s, from, j);
        lemma_dec_val_prefix_le(s, from, j + 1, to);
    }
}

/// The value of the digits `s[from..to]`, or `None` if it exceeds `u64::MAX`.
fn dec_val_u64(s: &Vec<char>, from: usize, to: usize) -> (r: Option<u64>)
    requires
        from <= to <= s.len(),
        forall|k: int| from <= k < to ==> is_digit_char(s@[k]),
    ensures
        match r {
            Some(v) => v == dec_val(s@.subrange(from as int, to as int)),
            None => dec_val(s@.subrange(from as int, to as int)) > u64::MAX,
        },
{
    let mut acc: u64 = 0;
    let mut j = from;
    proof {
        assert(s@.subrange(from as int, from as int) =~= Seq::<char>::empty());
    }
    while j < to
        invariant
            from <= j <= to <= s.len(),
            forall|k: int| from <= k < to ==> is_digit_char(s@[k]),
            acc == dec_val(s@.subrange(from as int, j as int)),
        decreases to - j,
    {
        let d = (s[j] as u32 - 48) as u64;
        proof {
            lemma_dec_val_snoc(s@, from as int, j as int);
        }
        let stepped = match acc.checked_mul(10) {
            Some(t) => t.checked_add(d),
            None => None,
        };
        match stepped {
            Some(v) => {
                acc = v;
            },
            None => {
                proof {
                    lemma_dec_val_prefix_le(s@, from as int, j as int + 1, to as int);
                }
                return None;
            },
        }
        j = j + 1;
    }
    Some(acc)
}

/// Ten to the `q`, or `None` if it exceeds `u64::MAX`.
fn pow10_u64(q: usize) -> (r: Option<u64>)
    ensures
        match r {
            Some(v) => v == pow10(q as nat),
            None => pow10(q as nat) > u64::MAX,
        },
{
    let mut acc: u64 = 1;
    let mut k: usize = 0;
    while k < q
        invariant
            k <= q,
            acc == pow10(k as nat),
        decreases q - k,
    {
        match acc.checked_mul(10) {
            Some(v) => {
                acc = v;
            },
            None => {
                proof {
                    lemma_pow10_mono((k + 1) as nat, q as nat);
                }
                return None;
            },
        }
        k = k + 1;
    }
    Some(acc)
}

// ---------------------------------------------------------------------------
// The percentage token: DIGITS '.' DIGITS '%'
// ---------------------------------------------------------------------------

/// Whether the percentage token matches exactly at position `i`: a run of
/// digits, a dot, a second run of digits, and a percent sign.
pub open spec fn percent_match_at(s: Seq<char>, i: int) -> bool {
    &&& 0 <= i < s.len()
    &&& is_digit_char(s[i])
    &&& {
        let a = digit_run_end(s, i);
        &&& a + 1 < s.len()
        &&& s[a] == '.'
        &&& is_digit_char(s[a + 1])
        &&& {
            let b = digit_run_end(s, a + 1);
            &&& b < s.len()
            &&& s[b] == '%'
        }
    }
}

/// The leftmost position at or after `i` where the percentage token matches.
pub open spec fn find_percent_from(s: Seq<char>, i: int) -> Option<int>
    decreases s.len() - i,
{
    if i >= s.len() {
        None
    } else if percent_match_at(s, i) {
        Some(i)
    } else {
        find_percent_from(s, i + 1)
    }
}

/// The integer digits and the fractional digits of the leftmost percentage
/// token, if the text holds one.
pub open spec fn spec_percent(s: Seq<char>) -> Option<(Seq<char>, Seq<char>)> {
    match find_percent_from(s, 0) {
        Some(i) => {
            let a = digit_run_end(s, i);
            let b = digit_run_end(s, a + 1);
            Some((s.subrange(i, a), s.subrange(a + 1, b)))
        },
        None => None,
    }
}

/// Checks the percentage token at one position; on a match, returns the end
/// of the integer digits and the position of the percent sign.
fn percent_at(s: &Vec<char>, i: usize) -> (r: Option<(usize, usize)>)
    requires
        i < s.len(),
    ensures
        r is Some <==> percent_match_at(s@, i as int),
        r matches Some((a, b)) ==> {
            &&& a == digit_run_end(s@, i as int)
            &&& b == digit_run_end(s@, a + 1)
            &&& i < a < b < s.len()
        },
{
    if !is_digit_exec(s[i]) {
        return None;
    }
    let a = digit_run_end_exec(s, i);
    if a >= s.len() || s[a] != '.' {
        return None;
    }
    if a + 1 >= s.len() || !is_digit_exec(s[a + 1]) {
        return None;
    }
    let b = digit_run_end_exec(s, a + 1);
    if !(b < s.len() && s[b] == '%') {
        return None;
    }
    proof {
        lemma_digit_run_end(s@, i as int);
        assert(a > i) by {
            assert(digit_run_end(s@, i as int) != i);
        }
        lemma_digit_run_end(s@, a as int + 1);
        assert(b > a + 1) by {
            assert(digit_run_end(s@, a as int + 1) != a + 1);
        }
    }
    Some((a, b))
}

/// Finds the leftmost percentage token of the whole text.
fn find_percent(s: &Vec<char>) -> (r: Option<(usize, usize, usize)>)
    ensures
        r is Some <==> find_percent_from(s@, 0) is Some,
        r matches Some((i, a, b)) ==> {
            &&& find_percent_from(s@, 0) == Some(i as int)
            &&& a == digit_run_end(s@, i as int)
            &&& b == digit_run_end(s@, a + 1)
            &&& i < a < b < s.len()
        },
{
    let mut i: usize = 0;
    while i < s.len()
        invariant
            i <= s.len(),
            find_percent_from(s@, 0) == find_percent_from(s@, i as int),
        decreases s@.len() - i,
    {
        match percent_at(s, i) {
            Some((a, b)) => {
                return Some((i, a, b));
            },
            None => {},
        }
        i = i + 1;
    }
    None
}

// ---------------------------------------------------------------------------
// The speed token: '[' CONTENT ']' where CONTENT ends with "/s"
// ---------------------------------------------------------------------------

/// The first position at or after `i` holding a closing bracket, or the end
/// of the text.
pub open spec fn rbracket_pos(s: Seq<char>, i: int) -> int
    decreases s.len() - i,
{
    if i < s.len() && s[i] != ']' {
        rbracket_pos(s, i + 1)
    } else {
        i
    }
}

pub proof fn lemma_rbracket_pos(s: Seq<char>, i: int)
    requires
        0 <= i <= s.len(),
    ensures
        i <= rbracket_pos(s, i) <= s.len(),
        forall|k: int| i <= k < rbracket_pos(s, i) ==> s[k] != ']',
        rbracket_pos(s, i) < s.len() ==> s[rbracket_pos(s, i)] == ']',
    decreases s.len() - i,
{
    if i < s.len() && s[i] != ']' {
        lemma_rbracket_pos(s, i + 1);
    }
}

fn rbracket_pos_exec(s: &Vec<char>, i: usize) -> (r: usize)
    requires
        i <= s.len(),
    ensures
        r == rbracket_pos(s@, i as int),
        i <= r <= s.len(),
{
    let mut j = i;
    while j < s.len() && s[j] != ']'
        invariant
            i <= j <= s.len(),
            rbracket_pos(s@, i as int) == rbracket_pos(s@, j as int),
        decreases s@.len() - j,
    {
        j = j + 1;
    }
    proof {
        lemma_rbracket_pos(s@, i as int);
    }
    j
}

/// Whether the speed token matches at `i`: an opening bracket whose content,
/// running to the next closing bracket, is at least three characters and ends
/// with `/s`.
pub open spec fn speed_match_at(s: Seq<char>, i: int) -> bool {
    &&& 0 <= i < s.len()
    &&& s[i] == '['
    &&& {
        let j = rbracket_pos(s, i + 1);
        &&& j < s.len()
        &&& j - (i + 1) >= 3
        &&& s[j - 2] == '/'
        &&& s[j - 1] == 's'
    }
}

pub open spec fn find_speed_from(s: Seq<char>, i: int) -> Option<int>
    decreases s.len() - i,
{
    if i >= s.len() {
        None
    } else if speed_match_at(s, i) {
        Some(i)
    } else {
        find_speed_from(s, i + 1)
    }
}

/// The content of the leftmost speed token, if the text holds one.
pub open spec fn spec_speed(s: Seq<char>) -> Option<Seq<char>> {
    match find_speed_from(s, 0) {
        Some(i) => Some(s.subrange(i + 1, rbracket_pos(s, i + 1))),
        None => None,
    }
}

/// Finds the leftmost speed token; on a match, returns the bounds of its
/// content.
fn find_speed(s: &Vec<char>) -> (r: Option<(usize, usize)>)
    ensures
        r is Some <==> find_speed_from(s@, 0) is Some,
        r matches Some((c, j)) ==> {
            &&& find_speed_from(s@, 0) == Some(c - 1)
            &&& j == rbracket_pos(s@, c as int)
            &&& 0 < c <= j <= s.len()
        },
{
    let mut i: usize = 0;
    while i < s.len()
        invariant
            i <= s.len(),
            find_speed_from(s@, 0) == find_speed_from(s@, i as int),
        decreases s@.len() - i,
    {
        if s[i] == '[' {
            let j = rbracket_pos_exec(s, i + 1);
            if j < s.len() && j - (i + 1) >= 3 && s[j - 2] == '/' && s[j - 1] == 's' {
                assert(speed_match_at(s@, i as int));
                return Some((i + 1, j));
            }
        }
        assert(!speed_match_at(s@, i as int));
        i = i + 1;
    }
    None
}

// ---------------------------------------------------------------------------
// The ETA token: "ETA:" then an optional '[' then a bracket-free value, ']'
// ---------------------------------------------------------------------------

/// The first position at or after `i` holding a bracket of either kind, or
/// the end of the text.
pub open spec fn bracket_pos(s: Seq<char>, i: int) -> int
    decreases s.len() - i,
{
    if i < s.len() && s[i] != ']' && s[i] != '[' {
        bracket_pos(s, i + 1)
    } else {
        i
    }
}

pub proof fn lemma_bracket_pos(s: Seq<char>, i: int)
    requires
        0 <= i <= s.len(),
    ensures
        i <= bracket_pos(s, i) <= s.len(),
        forall|k: int| i <= k < bracket_pos(s, i) ==> s[k] != ']' && s[k] != '[',
        bracket_pos(s, i) < s.len() ==> s[bracket_pos(s, i)] == ']' || s[bracket_pos(s, i)]
            == '[',
    decreases s.len() - i,
{
    if i < s.len() && s[i] != ']' && s[i] != '[' {
        lemma_bracket_pos(s, i + 1);
    }
}

fn bracket_pos_exec(s: &Vec<char>, i: usize) -> (r: usize)
    requires
        i <= s.len(),
    ensures
        r == bracket_pos(s@, i as int),
        i <= r <= s.len(),
{
    let mut j = i;
    while j < s.len() && s[j] != ']' && s[j] != '['
        invariant
            i <= j <= s.len(),
            bracket_pos(s@, i as int) == bracket_pos(s@, j as int),
        decreases s@.len() - j,
    {
        j = j + 1;
    }
    proof {
        lemma_bracket_pos(s@, i as int);
    }
    j
}

/// Where the ETA value starts, after the colon and one optional opening
/// bracket.
pub open spec fn eta_value_start(s: Seq<char>, i: int) -> int {
    if i + 4 < s.len() && s[i + 4] == '[' {
        i + 5
    } else {
        i + 4
    }
}

/// Whether the ETA token matches at `i`: the label `ETA:`, an optional
/// opening bracket, a non-empty bracket-free value, and a closing bracket.
pub open spec fn eta_match_at(s: Seq<char>, i: int) -> bool {
    &&& 0 <= i
    &&& i + 4 <= s.len()
    &&& s[i] == 'E' && s[i + 1] == 'T' && s[i + 2] == 'A' && s[i + 3] == ':'
    &&& {
        let k = eta_value_start(s, i);
        let j = bracket_pos(s, k);
        &&& j > k
        &&& j < s.len()
        &&& s[j] == ']'
    }
}

pub open spec fn find_eta_from(s: Seq<char>, i: int) -> Option<int>
    decreases s.len() - i,
{
    if i >= s.len() {
        None
    } else if eta_match_at(s, i) {
        Some(i)
    } else {
        find_eta_from(s, i + 1)
    }
}

/// The value of the leftmost ETA token, if the text holds one.
pub open spec fn spec_eta(s: Seq<char>) -> Option<Seq<char>> {
    match find_eta_from(s, 0) {
        Some(i) => {
            let k = eta_value_start(s, i);
            Some(s.subrange(k, bracket_pos(s, k)))
        },
        None => None,
    }
}

/// Finds the leftmost ETA token; on a match, returns the bounds of its value.
fn find_eta(s: &Vec<char>) -> (r: Option<(usize, usize)>)
    ensures
        r is Some <==> find_eta_from(s@, 0) is Some,
        r matches Some((k, j)) ==> find_eta_from(s@, 0) matches Some(i) && k == eta_value_start(
            s@,
            i,
        ) && j == bracket_pos(s@, k as int) && 0 <= i < k < j < s.len(),
{
    let mut i: usize = 0;
    while i < s.len()
        invariant
            i <= s.len(),
            find_eta_from(s@, 0) == find_eta_from(s@, i as int),
        decreases s@.len() - i,
    {
        if s.len() - i >= 4 && s[i] == 'E' && s[i + 1] == 'T' && s[i + 2] == 'A' && s[i + 3]
            == ':' {
            let k = if i + 4 < s.len() && s[i + 4] == '[' {
                i + 5
            } else {
                i + 4
            };
            let j = bracket_pos_exec(s, k);
            if j > k && j < s.len() && s[j] == ']' {
                assert(eta_match_at(s@, i as int));
                return Some((k, j));
            }
        }
        assert(!eta_match_at(s@, i as int));
        i = i + 1;
    }
    None
}

// ---------------------------------------------------------------------------
// The size token: '[' NUMBER '/' NUMBER ']' with NUMBER = DIGITS '.' DIGITS
// then one of K, M, G and the letters "iB"
// ---------------------------------------------------------------------------

pub open spec fn is_kmg(c: char) -> bool {
    c == 'K' || c == 'M' || c == 'G'
}

/// Parses one sized number starting at `p`; on success, the position just
/// after its final 'B'.
pub open spec fn size_number_end(s: Seq<char>, p: int) -> Option<int> {
    if 0 <= p < s.len() && is_digit_char(s[p]) {
        let a = digit_run_end(s, p);
        if a + 1 < s.len() && s[a] == '.' && is_digit_char(s[a + 1]) {
            let b = digit_run_end(s, a + 1);
            if b + 2 < s.len() && is_kmg(s[b]) && s[b + 1] == 'i' && s[b + 2] == 'B' {
                Some(b + 3)
            } else {
                None
            }
        } else {
            None
        }
    } else {
        None
    }
}

pub open spec fn size_match_at(s: Seq<char>, i: int) -> bool {
    &&& 0 <= i < s.len()
    &&& s[i] == '['
    &&& match size_number_end(s, i + 1) {
        Some(m) => {
            &&& m < s.len()
            &&& s[m] == '/'
            &&& match size_number_end(s, m + 1) {
                Some(e) => e < s.len() && s[e] == ']',
                None => false,
            }
        },
        None => false,
    }
}

pub open spec fn find_size_from(s: Seq<char>, i: int) -> Option<int>
    decreases s.len() - i,
{
    if i >= s.len() {
        None
    } else if size_match_at(s, i) {
        Some(i)
    } else {
        find_size_from(s, i + 1)
    }
}

/// The content of the leftmost size token, both numbers with the slash
/// between them, if the text holds one.
pub open spec fn spec_size(s: Seq<char>) -> Option<Seq<char>> {
    match find_size_from(s, 0) {
        Some(i) => {
            let m = size_number_end(s, i + 1)->Some_0;
            let e = size_number_end(s, m + 1)->Some_0;
            Some(s.subrange(i + 1, e))
        },
        None => None,
    }
}

fn size_number_end_exec(s: &Vec<char>, p: usize) -> (r: Option<usize>)
    requires
        p <= s.len(),
    ensures
        match r {
            Some(e) => size_number_end(s@, p as int) == Some(e as int) && p < e <= s.len(),
            None => size_number_end(s@, p as int) is None,
        },
{
    if p >= s.len() || !is_digit_exec(s[p]) {
        return None;
    }
    let a = digit_run_end_exec(s, p);
    if a >= s.len() || s[a] != '.' {
        return None;
    }
    if a + 1 >= s.len() || !is_digit_exec(s[a + 1]) {
        return None;
    }
    let b = digit_run_end_exec(s, a + 1);
    if b >= s.len() || s.len() - b < 3 {
        return None;
    }
    if (s[b] == 'K' || s[b] == 'M' || s[b] == 'G') && s[b + 1] == 'i' && s[b + 2] == 'B' {
        Some(b + 3)
    } else {
        None
    }
}

/// Finds the leftmost size token; on a match, returns the bounds of its
/// content.
fn find_size(s: &Vec<char>) -> (r: Option<(usize, usize)>)
    ensures
        r is Some <==> find_size_from(s@, 0) is Some,
        r matches Some((c, e)) ==> find_size_from(s@, 0) matches Some(i) && c == i + 1 && Some(
            s@.subrange(c as int, e as int),
        ) == spec_size(s@) && 0 < c <= e <= s.len(),
{
    let mut i: usize = 0;
    while i < s.len()
        invariant
            i <= s.len(),
            find_size_from(s@, 0) == find_size_from(s@, i as int),
        decreases s@.len() - i,
    {
        if s[i] == '[' {
            match size_number_end_exec(s, i + 1) {
                Some(m) => {
                    if m < s.len() && s[m] == '/' {
                        match size_number_end_exec(s, m + 1) {
                            Some(e) => {
                                if e < s.len() && s[e] == ']' {
                                    assert(size_match_at(s@, i as int));
                                    return Some((i + 1, e));
                                }
                            },
                            None => {},
                        }
                    }
                },
                None => {},
            }
        }
        assert(!size_match_at(s@, i as int));
        i = i + 1;
    }
    None
}

// ---------------------------------------------------------------------------
// The sentinel prefix
// ---------------------------------------------------------------------------

/// Whether the line starts with the sentinel prefix `download:` that marks a
/// progress line.
pub open spec fn has_sentinel(s: Seq<char>) -> bool {
    &&& s.len() >= 9
    &&& s[0] == 'd'
    &&& s[1] == 'o'
    &&& s[2] == 'w'
    &&& s[3] == 'n'
    &&& s[4] == 'l'
    &&& s[5] == 'o'
    &&& s[6] == 'a'
    &&& s[7] == 'd'
    &&& s[8] == ':'
}

/// The sentinel test is exactly a prefix test against the literal
/// `download:`.
pub proof fn lemma_sentinel_is_prefix(s: Seq<char>)
    ensures
        has_sentinel(s) <==> (s.len() >= 9 && s.subrange(0, 9) == "download:"@),
{
    reveal_strlit("download:");
    if s.len() >= 9 {
        if has_sentinel(s) {
            assert(s.subrange(0, 9) =~= "download:"@);
        }
        if s.subrange(0, 9) == "download:"@ {
            assert(forall|k: int| 0 <= k < 9 ==> s[k] == s.subrange(0, 9)[k]);
        }
    }
}

fn sentinel_check(s: &Vec<char>) -> (b: bool)
    ensures
        b == has_sentinel(s@),
{
    s.len() >= 9 && s[0] == 'd' && s[1] == 'o' && s[2] == 'w' && s[3] == 'n' && s[4] == 'l'
        && s[5] == 'o' && s[6] == 'a' && s[7] == 'd' && s[8] == ':'
}

// ---------------------------------------------------------------------------
// Snapshots
// ---------------------------------------------------------------------------

/// An exact rational number: `num / den`.
#[derive(Clone, Copy, PartialEq, Eq, Structural, Debug)]
pub struct Fraction {
    pub num: u64,
    pub den: u64,
}

/// The structured fields of one parsed progress line. The fraction is the
/// completed share of the download, in the closed range from zero to one on
/// well-formed lines.
#[derive(Debug)]
pub struct ProgressSnapshot {
    pub fraction: Fraction,
    pub speed: String,
    pub eta: String,
    pub size: String,
}

/// The mathematical content of a `ProgressSnapshot`.
pub struct SnapshotModel {
    pub num: nat,
    pub den: nat,
    pub speed: Seq<char>,
    pub eta: Seq<char>,
    pub size: Seq<char>,
}

impl View for ProgressSnapshot {
    type V = SnapshotModel;

    open spec fn view(&self) -> SnapshotModel {
        SnapshotModel {
            num: self.fraction.num as nat,
            den: self.fraction.den as nat,
            speed: self.speed@,
            eta: self.eta@,
            size: self.size@,
        }
    }
}

/// Whether the exact percentage and its denominator both fit in a machine
/// word, so the fraction can be represented without loss.
pub open spec fn frac_parts_fit(ip: Seq<char>, fp: Seq<char>) -> bool {
    &&& dec_val(ip) * pow10(fp.len()) + dec_val(fp) <= u64::MAX
    &&& 100 * pow10(fp.len()) <= u64::MAX
}

/// The fraction of a line as a pair of numerator and denominator: the
/// percentage value divided by one hundred, exactly. A line without a
/// percentage token, and the out-of-range case where the exact value would
/// not fit in a machine word, fall back to zero.
pub open spec fn spec_fraction(s: Seq<char>) -> (nat, nat) {
    match spec_percent(s) {
        Some((ip, fp)) => if frac_parts_fit(ip, fp) {
            (dec_val(ip) * pow10(fp.len()) + dec_val(fp), (100 * pow10(fp.len())) as nat)
        } else {
            (0nat, 100nat)
        },
        None => (0nat, 100nat),
    }
}

pub open spec fn spec_speed_text(s: Seq<char>) -> Seq<char> {
    match spec_speed(s) {
        Some(t) => t,
        None => "0B/s"@,
    }
}

pub open spec fn spec_eta_text(s: Seq<char>) -> Seq<char> {
    match spec_eta(s) {
        Some(t) => t,
        None => "00:00"@,
    }
}

pub open spec fn spec_size_text(s: Seq<char>) -> Seq<char> {
    match spec_size(s) {
        Some(t) => t,
        None => "0B/0B"@,
    }
}

/// The snapshot a progress line denotes, field by field.
pub open spec fn spec_snapshot(s: Seq<char>) -> SnapshotModel {
    SnapshotModel {
        num: spec_fraction(s).0,
        den: spec_fraction(s).1,
        speed: spec_speed_text(s),
        eta: spec_eta_text(s),
        size: spec_size_text(s),
    }
}

/// Computes the fraction of a line, falling back to zero where the exact
/// value would overflow.
fn fraction_of(s: &Vec<char>) -> (f: Fraction)
    ensures
        f.num as nat == spec_fraction(s@).0,
        f.den as nat == spec_fraction(s@).1,
        f.den >= 1,
{
    let zero = Fraction { num: 0, den: 100 };
    match find_percent(s) {
        None => zero,
        Some((i, a, b)) => {
            let ghost ip = s@.subrange(i as int, a as int);
            let ghost fp = s@.subrange(a as int + 1, b as int);
            proof {
                lemma_digit_run_end(s@, i as int);
                lemma_digit_run_end(s@, a as int + 1);
                assert(spec_percent(s@) == Some((ip, fp)));
                assert(fp.len() == b - (a + 1));
                lemma_pow10_pos(fp.len());
            }
            let q = b - (a + 1);
            let ipv = match dec_val_u64(s, i, a) {
                Some(v) => v,
                None => {
                    proof {
                        assert(dec_val(ip) * pow10(fp.len()) >= dec_val(ip) * 1)
                            by (nonlinear_arith)
                            requires pow10(fp.len()) >= 1;
                    }
                    return zero;
                },
            };
            let fpv = match dec_val_u64(s, a + 1, b) {
                Some(v) => v,
                None => {
                    return zero;
                },
            };
            let p10 = match pow10_u64(q) {
                Some(v) => v,
                None => {
                    return zero;
                },
            };
            let den = match 100u64.checked_mul(p10) {
                Some(v) => v,
                None => {
                    return zero;
                },
            };
            let hi = match ipv.checked_mul(p10) {
                Some(v) => v,
                None => {
                    return zero;
                },
            };
            let num = match hi.checked_add(fpv) {
                Some(v) => v,
                None => {
                    return zero;
                },
            };
            Fraction { num, den }
        },
    }
}

/// Collects the characters of a line for random access.
fn chars_of(line: &str) -> (v: Vec<char>)
    ensures
        v@ == line@,
{
    let n = line.unicode_len();
    let mut v: Vec<char> = Vec::new();
    let mut i: usize = 0;
    while i < n
        invariant
            n == line@.len(),
            i <= n,
            v@ == line@.subrange(0, i as int),
        decreases n - i,
    {
        let c = line.get_char(i);
        v.push(c);
        proof {
            assert(v@ =~= line@.subrange(0, i as int + 1));
        }
        i = i + 1;
    }
    proof {
        assert(line@.subrange(0, n as int) =~= line@);
    }
    v
}

/// Parses one line of the external tool's output.
///
/// Exactly the lines that start with the sentinel prefix `download:` yield a
/// snapshot; every other line yields nothing. Within a sentinel line the four
/// tokens are extracted independently, each falling back to its own default
/// when absent.
pub fn parse_progress_line(line: &str) -> (r: Option<ProgressSnapshot>)
    ensures
        r is Some <==> has_sentinel(line@),
        r matches Some(p) ==> p@ == spec_snapshot(line@),
{
    let chars = chars_of(line);
    if !sentinel_check(&chars) {
        return None;
    }
    let fraction = fraction_of(&chars);
    let speed = match find_speed(&chars) {
        Some((c, j)) => line.substring_char(c, j).to_owned(),
        None => String::from_str("0B/s"),
    };
    let eta = match find_eta(&chars) {
        Some((k, j)) => line.substring_char(k, j).to_owned(),
        None => String::from_str("00:00"),
    };
    let size = match find_size(&chars) {
        Some((c, e)) => line.substring_char(c, e).to_owned(),
        None => String::from_str("0B/0B"),
    };
    Some(ProgressSnapshot { fraction, speed, eta, size })
}

// ---------------------------------------------------------------------------
// Laws of the parser
// ---------------------------------------------------------------------------

/// On every line whose percentage token is `P.Q%`, the parsed fraction is
/// exactly the value `P.Q` divided by one hundred: the numerator is the
/// digits of `P` scaled past the digits of `Q`, and the denominator is one
/// hundred times ten to the number of digits of `Q`. The one proviso is that
/// the exact pair fits in a machine word.
pub proof fn lemma_fraction_is_percent_over_100(s: Seq<char>, ip: Seq<char>, fp: Seq<char>)
    requires
        spec_percent(s) == Some((ip, fp)),
        frac_parts_fit(ip, fp),
    ensures
        spec_snapshot(s).num == dec_val(ip) * pow10(fp.len()) + dec_val(fp),
        spec_snapshot(s).den == 100 * pow10(fp.len()),
{
}

/// A missing token defaults by itself: absent speed, ETA and size tokens
/// yield their fixed default texts, and an absent percentage yields the zero
/// fraction.
pub proof fn lemma_missing_tokens_default(s: Seq<char>)
    ensures
        spec_speed(s) is None ==> spec_snapshot(s).speed == "0B/s"@,
        spec_eta(s) is None ==> spec_snapshot(s).eta == "00:00"@,
        spec_size(s) is None ==> spec_snapshot(s).size == "0B/0B"@,
        spec_percent(s) is None ==> spec_snapshot(s).num == 0 && spec_snapshot(s).den == 100,
{
}

} // verus!
