//! The rules of the session store: integer ranges, session states and the
//! synthetic session that rows from before sessions existed are filed under.
use vstd::prelude::*;

verus! {

/// The session that rows written before sessions existed are filed under.
pub const LEGACY_SESSION_ID: &'static str = "legacy";

/// The state of a session row.
#[derive(Clone, Copy, Debug, PartialEq, Eq, Structural)]
pub enum SessionStatus {
    /// The run is going on, or ended without closing its session.
    Active,
    /// The run closed its session.
    Completed,
    /// A later run found the session still active and closed it.
    Recovered,
}

/// The text stored for a status.
pub open spec fn status_text(s: SessionStatus) -> Seq<char> {
    match s {
        SessionStatus::Active => "active"@,
        SessionStatus::Completed => "completed"@,
        SessionStatus::Recovered => "recovered"@,
    }
}

impl SessionStatus {
    /// The text stored for this status.
    pub fn as_str(&self) -> (r: &'static str)
        ensures
            r@ == status_text(*self),
    {
        match self {
            SessionStatus::Active => "active",
            SessionStatus::Completed => "completed",
            SessionStatus::Recovered => "recovered",
        }
    }
}

// ─── Integer ranges ───────────────────────────────────────────────────────────

/// The range a value had to fit.
#[derive(Clone, Copy, Debug, PartialEq, Eq, Structural)]
pub enum IntegerRange {
    /// SQLite's 64-bit signed INTEGER.
    SqliteInteger,
    /// An unsigned 64-bit count or timestamp.
    U64,
}

/// How a range is named in messages.
pub open spec fn range_name(r: IntegerRange) -> Seq<char> {
    match r {
        IntegerRange::SqliteInteger => "SQLite INTEGER"@,
        IntegerRange::U64 => "u64"@,
    }
}

/// A value that did not fit the range of the column or field it was meant for.
#[derive(Clone, Debug)]
pub struct RangeError {
    /// The column or field.
    pub field: String,
    /// The value, widened.
    pub value: i128,
    /// The range it missed.
    pub range: IntegerRange,
}

/// The decimal digit of `d`, for `d < 10`.
pub open spec fn digit_char(d: nat) -> char {
    (48 + d) as char
}

/// The decimal digits of a natural number, most significant first.
pub open spec fn nat_decimal(n: nat) -> Seq<char>
    decreases n,
{
    if n < 10 {
        seq![digit_char(n)]
    } else {
        nat_decimal(n / 10) + seq![digit_char(n % 10)]
    }
}

/// The decimal text of an integer, with a leading '-' when negative.
pub open spec fn int_decimal(v: int) -> Seq<char> {
    if v < 0 {
        seq!['-'] + nat_decimal((-v) as nat)
    } else {
        nat_decimal(v as nat)
    }
}

/// The message of a range error.
pub open spec fn range_message_text(field: Seq<char>, range: IntegerRange, value: int) -> Seq<char> {
    field + " out of "@ + range_name(range) + " range: "@ + int_decimal(value)
}

/// "{field} out of {range} range: {value}".
///
/// Calls `format!`, which writes the two strings as they are and the
/// integer in decimal with a leading '-' when negative.
#[verifier::external_body]
fn format_range_message(field: &str, range: &str, value: i128) -> (r: String)
    ensures
        r@ == field@ + " out of "@ + range@ + " range: "@ + int_decimal(value as int),
{
    format!("{field} out of {range} range: {value}")
}

impl IntegerRange {
    /// How this range is named in messages.
    pub fn name(&self) -> (r: &'static str)
        ensures
            r@ == range_name(*self),
    {
        match self {
            IntegerRange::SqliteInteger => "SQLite INTEGER",
            IntegerRange::U64 => "u64",
        }
    }
}

impl RangeError {
    /// "{field} out of {range} range: {value}".
    pub fn message(&self) -> (r: String)
        ensures
            r@ == range_message_text(self.field@, self.range, self.value as int),
    {
        format_range_message(self.field.as_str(), self.range.name(), self.value)
    }
}

/// A value as an SQLite INTEGER, or the error naming the field.
pub fn checked_i128_to_i64(value: i128, field: &str) -> (r: Result<i64, RangeError>)
    ensures
        match r {
            Ok(v) => v as int == value as int,
            Err(e) => {
                &&& !(i64::MIN <= value <= i64::MAX)
                &&& e.field@ == field@
                &&& e.value == value
                &&& e.range == IntegerRange::SqliteInteger
            },
        },
        r is Ok <==> i64::MIN <= value <= i64::MAX,
{
    if i64::MIN as i128 <= value && value <= i64::MAX as i128 {
        Ok(value as i64)
    } else {
        Err(RangeError { field: field.to_owned(), value, range: IntegerRange::SqliteInteger })
    }
}

/// A count or timestamp as an SQLite INTEGER, or the error naming the field.
pub fn checked_u64_to_i64(value: u64, field: &str) -> (r: Result<i64, RangeError>)
    ensures
        match r {
            Ok(v) => v as int == value as int,
            Err(e) => {
                &&& value > i64::MAX
                &&& e.field@ == field@
                &&& e.value == value as i128
                &&& e.range == IntegerRange::SqliteInteger
            },
        },
        r is Ok <==> value <= i64::MAX,
{
    if value <= i64::MAX as u64 {
        Ok(value as i64)
    } else {
        Err(RangeError { field: field.to_owned(), value: value as i128, range: IntegerRange::SqliteInteger })
    }
}

/// A stored INTEGER as an unsigned count or timestamp, or the error naming
/// the field.
pub fn checked_i64_to_u64(value: i64, field: &str) -> (r: Result<u64, RangeError>)
    ensures
        match r {
            Ok(v) => v as int == value as int,
            Err(e) => {
                &&& value < 0
                &&& e.field@ == field@
                &&& e.value == value as i128
                &&& e.range == IntegerRange::U64
            },
        },
        r is Ok <==> value >= 0,
{
    if value >= 0 {
        Ok(value as u64)
    } else {
        Err(RangeError { field: field.to_owned(), value: value as i128, range: IntegerRange::U64 })
    }
}


// ─── The legacy session ───────────────────────────────────────────────────────

/// Rows without a session exist in either table, so they must be filed
/// under the legacy session.
pub fn legacy_backfill_needed(missing_opportunities: i64, missing_price_snapshots: i64) -> (r: bool)
    ensures
        r == (missing_opportunities > 0 || missing_price_snapshots > 0),
{
    missing_opportunities > 0 || missing_price_snapshots > 0
}

/// The legacy session has no rows left in either table and is deleted.
pub fn legacy_session_orphaned(legacy_opportunities: i64, legacy_price_snapshots: i64) -> (r: bool)
    ensures
        r == (legacy_opportunities == 0 && legacy_price_snapshots == 0),
{
    legacy_opportunities == 0 && legacy_price_snapshots == 0
}

/// Byte-wise lexicographic order, the order of `String`'s `Ord`.
pub open spec fn bytes_lt(a: Seq<u8>, b: Seq<u8>) -> bool
    decreases a.len(),
{
    if a.len() == 0 {
        b.len() > 0
    } else if b.len() == 0 {
        false
    } else if a[0] != b[0] {
        a[0] < b[0]
    } else {
        bytes_lt(a.drop_first(), b.drop_first())
    }
}

/// No sequence comes before itself.
pub proof fn lemma_bytes_lt_irreflexive(a: Seq<u8>)
    ensures
        !bytes_lt(a, a),
    decreases a.len(),
{
    if a.len() > 0 {
        lemma_bytes_lt_irreflexive(a.drop_first());
    }
}

/// Of two different sequences, exactly one comes first.
pub proof fn lemma_bytes_lt_total(a: Seq<u8>, b: Seq<u8>)
    ensures
        a != b ==> (bytes_lt(a, b) || bytes_lt(b, a)),
        !(bytes_lt(a, b) && bytes_lt(b, a)),
    decreases a.len(),
{
    if a.len() > 0 && b.len() > 0 && a[0] == b[0] {
        lemma_bytes_lt_total(a.drop_first(), b.drop_first());
        if a != b {
            assert(a =~= seq![a[0]] + a.drop_first());
            assert(b =~= seq![b[0]] + b.drop_first());
        }
    } else if a.len() == 0 && b.len() == 0 {
        assert(a =~= b);
    }
}

/// The order is transitive.
pub proof fn lemma_bytes_lt_transitive(a: Seq<u8>, b: Seq<u8>, c: Seq<u8>)
    requires
        bytes_lt(a, b),
        bytes_lt(b, c),
    ensures
        bytes_lt(a, c),
    decreases a.len(),
{
    if a.len() > 0 && b.len() > 0 && c.len() > 0 && a[0] == b[0] && b[0] == c[0] {
        lemma_bytes_lt_transitive(a.drop_first(), b.drop_first(), c.drop_first());
    }
}

/// The UTF-8 bytes of a string.
pub open spec fn string_bytes(s: String) -> Seq<u8> {
    vstd::utf8::encode_utf8(s@)
}

fn bytes_less(a: &[u8], b: &[u8]) -> (r: bool)
    ensures
        r == bytes_lt(a@, b@),
{
    let mut i: usize = 0;
    assert(a@.subrange(0, a@.len() as int) =~= a@);
    assert(b@.subrange(0, b@.len() as int) =~= b@);
    while i < a.len() && i < b.len()
        invariant
            i <= a@.len(),
            i <= b@.len(),
            bytes_lt(a@, b@) == bytes_lt(
                a@.subrange(i as int, a@.len() as int),
                b@.subrange(i as int, b@.len() as int),
            ),
        decreases a@.len() - i,
    {
        let ghost ra = a@.subrange(i as int, a@.len() as int);
        let ghost rb = b@.subrange(i as int, b@.len() as int);
        if a[i] != b[i] {
            assert(ra[0] == a@[i as int] && rb[0] == b@[i as int]);
            return a[i] < b[i];
        }
        assert(ra.drop_first() =~= a@.subrange(i + 1, a@.len() as int));
        assert(rb.drop_first() =~= b@.subrange(i + 1, b@.len() as int));
        i = i + 1;
    }
    i < b.len()
}

fn bytes_equal(a: &[u8], b: &[u8]) -> (r: bool)
    ensures
        r == (a@ == b@),
{
    if a.len() != b.len() {
        return false;
    }
    let mut i: usize = 0;
    while i < a.len()
        invariant
            a@.len() == b@.len(),
            i <= a@.len(),
            forall|j: int| 0 <= j < i ==> a@[j] == b@[j],
        decreases a@.len() - i,
    {
        if a[i] != b[i] {
            return false;
        }
        i = i + 1;
    }
    assert(a@ =~= b@);
    true
}

/// Strictly increasing in byte order, so no two entries share their bytes.
pub open spec fn sorted_strict(s: Seq<String>) -> bool {
    forall|i: int, j: int|
        0 <= i < j < s.len() ==> bytes_lt(string_bytes(#[trigger] s[i]), string_bytes(#[trigger] s[j]))
}

/// Some entry of `s` has these bytes.
pub open spec fn has_bytes(s: Seq<String>, b: Seq<u8>) -> bool {
    exists|i: int| 0 <= i < s.len() && string_bytes(#[trigger] s[i]) == b
}

/// Some entry of `s` has this text.
pub open spec fn has_text(s: Seq<String>, t: Seq<char>) -> bool {
    exists|j: int| 0 <= j < s.len() && (#[trigger] s[j])@ == t
}

/// Every entry of `s` is, by its text, an entry of `a` or of `b`.
pub open spec fn drawn_from(s: Seq<String>, a: Seq<String>, b: Seq<String>) -> bool {
    forall|i: int| 0 <= i < s.len() ==> has_text(a, (#[trigger] s[i])@) || has_text(b, s[i]@)
}

/// Add `s` to a strictly sorted list unless an entry has its bytes already.
fn insert_sorted(list: &mut Vec<String>, s: &String)
    requires
        sorted_strict(old(list)@),
    ensures
        sorted_strict(final(list)@),
        forall|b: Seq<u8>| #[trigger] has_bytes(final(list)@, b) <==> has_bytes(old(list)@, b) || b == string_bytes(*s),
        forall|i: int|
            0 <= i < final(list)@.len() ==> has_text(old(list)@, (#[trigger] final(list)@[i])@)
                || final(list)@[i]@ == s@,
{
    let sb = s.as_str().as_bytes();
    let mut p: usize = 0;
    while p < list.len()
        invariant
            p <= list@.len(),
            sb@ == string_bytes(*s),
            forall|i: int| 0 <= i < p ==> bytes_lt(string_bytes(#[trigger] list@[i]), sb@),
        ensures
            p <= list@.len(),
            forall|i: int| 0 <= i < p ==> bytes_lt(string_bytes(#[trigger] list@[i]), sb@),
            p < list@.len() ==> !bytes_lt(string_bytes(list@[p as int]), sb@),
        decreases list@.len() - p,
    {
        if !bytes_less(list[p].as_str().as_bytes(), sb) {
            break;
        }
        p = p + 1;
    }
    let ghost before = list@;
    if p < list.len() && bytes_equal(list[p].as_str().as_bytes(), sb) {
        assert forall|b: Seq<u8>| #[trigger] has_bytes(before, b) <==> has_bytes(before, b) || b == string_bytes(*s) by {
            if b == string_bytes(*s) {
                assert(string_bytes(before[p as int]) == b);
            }
        }
        assert forall|i: int| 0 <= i < before.len() implies has_text(before, (#[trigger] before[i])@) by {
            assert(before[i]@ == before[i]@);
        }
        return;
    }
    // list[p] (if any) comes after s
    proof {
        if p < before.len() {
            let lb = string_bytes(before[p as int]);
            lemma_bytes_lt_total(lb, sb@);
        }
    }
    list.insert(p, s.clone());
    proof {
        let after = list@;
        assert(after == before.insert(p as int, *s));
        assert forall|i: int, j: int| 0 <= i < j < after.len() implies bytes_lt(
            string_bytes(#[trigger] after[i]),
            string_bytes(#[trigger] after[j]),
        ) by {
            if j < p {
                assert(after[i] == before[i] && after[j] == before[j]);
            } else if j == p {
                assert(after[i] == before[i]);
            } else if i < p {
                assert(after[i] == before[i] && after[j] == before[j - 1]);
                if p < before.len() {
                    assert(bytes_lt(sb@, string_bytes(before[p as int])));
                    if j - 1 > p {
                        lemma_bytes_lt_transitive(sb@, string_bytes(before[p as int]), string_bytes(before[j - 1]));
                    }
                    lemma_bytes_lt_transitive(string_bytes(before[i]), sb@, string_bytes(before[j - 1]));
                }
            } else if i == p {
                assert(after[j] == before[j - 1]);
                assert(bytes_lt(sb@, string_bytes(before[p as int])));
                if j - 1 > p {
                    lemma_bytes_lt_transitive(sb@, string_bytes(before[p as int]), string_bytes(before[j - 1]));
                }
            } else {
                assert(after[i] == before[i - 1] && after[j] == before[j - 1]);
            }
        }
        assert forall|b: Seq<u8>| #[trigger] has_bytes(after, b) <==> has_bytes(before, b) || b == string_bytes(*s) by {
            if has_bytes(before, b) {
                let k = choose|k: int| 0 <= k < before.len() && string_bytes(#[trigger] before[k]) == b;
                if k < p {
                    assert(after[k] == before[k]);
                } else {
                    assert(after[k + 1] == before[k]);
                }
            }
            if b == string_bytes(*s) {
                assert(after[p as int] == *s);
            }
            if has_bytes(after, b) {
                let k = choose|k: int| 0 <= k < after.len() && string_bytes(#[trigger] after[k]) == b;
                if k < p {
                    assert(after[k] == before[k]);
                } else if k > p {
                    assert(after[k] == before[k - 1]);
                }
            }
        }
        assert forall|i: int| 0 <= i < after.len() implies has_text(before, (#[trigger] after[i])@)
            || after[i]@ == s@ by {
            if i < p {
                assert(after[i] == before[i]);
            } else if i > p {
                assert(after[i] == before[i - 1]);
            }
        }
    }
}

/// `cs` is the union of the chain names of `a` and `b`, without repeats, in
/// byte order, each entry taken from `a` or `b`.
pub open spec fn is_chain_union(cs: Seq<String>, a: Seq<String>, b: Seq<String>) -> bool {
    &&& sorted_strict(cs)
    &&& forall|x: Seq<u8>| #[trigger] has_bytes(cs, x) <==> has_bytes(a, x) || has_bytes(b, x)
    &&& drawn_from(cs, a, b)
}

/// The chain names of two lists, merged as a sorted set.
pub fn merge_chains(a: &Vec<String>, b: &Vec<String>) -> (r: Vec<String>)
    ensures
        is_chain_union(r@, a@, b@),
{
    let mut out: Vec<String> = Vec::new();
    let mut i: usize = 0;
    while i < a.len()
        invariant
            i <= a@.len(),
            sorted_strict(out@),
            forall|x: Seq<u8>| #[trigger] has_bytes(out@, x) <==> has_bytes(a@.subrange(0, i as int), x),
            forall|k: int| 0 <= k < out@.len() ==> has_text(a@, (#[trigger] out@[k])@),
        decreases a@.len() - i,
    {
        let ghost prev = out@;
        insert_sorted(&mut out, &a[i]);
        proof {
            let pre = a@.subrange(0, i as int);
            let next = a@.subrange(0, i + 1);
            assert forall|x: Seq<u8>| #[trigger] has_bytes(out@, x) <==> has_bytes(next, x) by {
                if has_bytes(pre, x) {
                    let k = choose|k: int| 0 <= k < pre.len() && string_bytes(#[trigger] pre[k]) == x;
                    assert(next[k] == pre[k]);
                }
                if x == string_bytes(a@[i as int]) {
                    assert(next[i as int] == a@[i as int]);
                }
                if has_bytes(next, x) {
                    let k = choose|k: int| 0 <= k < next.len() && string_bytes(#[trigger] next[k]) == x;
                    if k < i {
                        assert(pre[k] == next[k]);
                    }
                }
            }
            assert forall|k: int| 0 <= k < out@.len() implies has_text(a@, (#[trigger] out@[k])@) by {
                if out@[k]@ == a@[i as int]@ {
                    assert(a@[i as int]@ == out@[k]@);
                } else {
                    let m = choose|m: int| 0 <= m < prev.len() && (#[trigger] prev[m])@ == out@[k]@;
                    assert(has_text(a@, prev[m]@));
                }
            }
        }
        i = i + 1;
    }
    assert(a@.subrange(0, a@.len() as int) =~= a@);
    assert(b@.subrange(0, 0) =~= Seq::<String>::empty());
    let mut i: usize = 0;
    while i < b.len()
        invariant
            i <= b@.len(),
            sorted_strict(out@),
            forall|x: Seq<u8>| #[trigger] has_bytes(out@, x) <==> has_bytes(a@, x) || has_bytes(b@.subrange(0, i as int), x),
            drawn_from(out@, a@, b@),
        decreases b@.len() - i,
    {
        let ghost prev = out@;
        insert_sorted(&mut out, &b[i]);
        proof {
            let pre = b@.subrange(0, i as int);
            let next = b@.subrange(0, i + 1);
            assert forall|x: Seq<u8>| #[trigger] has_bytes(out@, x) <==> has_bytes(a@, x) || has_bytes(next, x) by {
                if has_bytes(pre, x) {
                    let k = choose|k: int| 0 <= k < pre.len() && string_bytes(#[trigger] pre[k]) == x;
                    assert(next[k] == pre[k]);
                }
                if x == string_bytes(b@[i as int]) {
                    assert(next[i as int] == b@[i as int]);
                }
                if has_bytes(next, x) {
                    let k = choose|k: int| 0 <= k < next.len() && string_bytes(#[trigger] next[k]) == x;
                    if k < i {
                        assert(pre[k] == next[k]);
                    }
                }
            }
            assert forall|k: int| 0 <= k < out@.len() implies has_text(a@, (#[trigger] out@[k])@)
                || has_text(b@, out@[k]@) by {
                if out@[k]@ == b@[i as int]@ {
                    assert(b@[i as int]@ == out@[k]@);
                } else {
                    let m = choose|m: int| 0 <= m < prev.len() && (#[trigger] prev[m])@ == out@[k]@;
                    assert(has_text(a@, prev[m]@) || has_text(b@, prev[m]@));
                }
            }
        }
        i = i + 1;
    }
    assert(b@.subrange(0, b@.len() as int) =~= b@);
    out
}

/// Texts joined with commas.
pub open spec fn join_commas(s: Seq<Seq<char>>) -> Seq<char>
    decreases s.len(),
{
    if s.len() == 0 {
        seq![]
    } else if s.len() == 1 {
        s[0]
    } else {
        join_commas(s.drop_last()) + ","@ + s.last()
    }
}

/// The texts of a list of strings.
pub open spec fn texts(s: Seq<String>) -> Seq<Seq<char>> {
    s.map_values(|x: String| x@)
}

/// The chain names joined with commas.
pub fn join_chains(chains: &Vec<String>) -> (r: String)
    ensures
        r@ == join_commas(texts(chains@)),
{
    let mut out = String::new();
    let mut i: usize = 0;
    while i < chains.len()
        invariant
            i <= chains@.len(),
            out@ == join_commas(texts(chains@.subrange(0, i as int))),
        decreases chains@.len() - i,
    {
        proof {
            let next = texts(chains@.subrange(0, i + 1));
            assert(next.drop_last() =~= texts(chains@.subrange(0, i as int)));
            assert(next.last() == chains@[i as int]@);
        }
        if i > 0 {
            out.append(",");
        }
        out.append(chains[i].as_str());
        proof {
            if i == 0 {
                assert(out@ =~= texts(chains@.subrange(0, 1))[0]);
            }
        }
        i = i + 1;
    }
    assert(chains@.subrange(0, chains@.len() as int) =~= chains@);
    out
}

/// What is known of the rows filed under the legacy session.
#[derive(Clone, Debug)]
pub struct LegacySessionMetadata {
    pub started_at: u64,
    pub ended_at: Option<u64>,
    pub active_chains: String,
}

/// The earliest timestamp of the two tables, or 0 when both are empty.
pub open spec fn earliest(a: Option<(u64, u64)>, b: Option<(u64, u64)>) -> u64 {
    match (a, b) {
        (Some(x), Some(y)) => if x.0 <= y.0 { x.0 } else { y.0 },
        (Some(x), None) => x.0,
        (None, Some(y)) => y.0,
        (None, None) => 0,
    }
}

/// The latest timestamp of the two tables, if either has rows.
pub open spec fn latest(a: Option<(u64, u64)>, b: Option<(u64, u64)>) -> Option<u64> {
    match (a, b) {
        (Some(x), Some(y)) => Some(if x.1 >= y.1 { x.1 } else { y.1 }),
        (Some(x), None) => Some(x.1),
        (None, Some(y)) => Some(y.1),
        (None, None) => None,
    }
}

/// The span of the legacy rows: with no row in either table it starts at 0
/// and has no end; otherwise it starts at the earlier of the two tables'
/// first timestamps and ends at the later of their last timestamps, each
/// taken from a table that has rows.
pub proof fn lemma_legacy_span(a: Option<(u64, u64)>, b: Option<(u64, u64)>)
    ensures
        a is None && b is None ==> earliest(a, b) == 0 && latest(a, b) is None,
        latest(a, b) is Some <==> (a is Some || b is Some),
        a matches Some(x) ==> earliest(a, b) <= x.0,
        b matches Some(y) ==> earliest(a, b) <= y.0,
        (a is Some || b is Some) ==> ((a matches Some(x) && earliest(a, b) == x.0) || (b matches Some(
            y,
        ) && earliest(a, b) == y.0)),
        latest(a, b) matches Some(t) ==> {
            &&& (a matches Some(x) ==> x.1 <= t)
            &&& (b matches Some(y) ==> y.1 <= t)
            &&& ((a matches Some(x) && x.1 == t) || (b matches Some(y) && y.1 == t))
        },
{
}

/// The chain list stored for the legacy session: the names joined with
/// commas, or "legacy" when there are none.
pub open spec fn chains_text(cs: Seq<String>) -> Seq<char> {
    if cs.len() == 0 {
        "legacy"@
    } else {
        join_commas(texts(cs))
    }
}

/// The span and chains of the rows without a session: `opp_range` and
/// `snap_range` are the (MIN, MAX) timestamps of the opportunities and
/// price snapshots, and the chain lists are the distinct chains of each.
pub fn legacy_session_metadata(
    opp_range: Option<(u64, u64)>,
    snap_range: Option<(u64, u64)>,
    opp_chains: &Vec<String>,
    snap_chains: &Vec<String>,
) -> (r: LegacySessionMetadata)
    ensures
        r.started_at == earliest(opp_range, snap_range),
        r.ended_at == latest(opp_range, snap_range),
        opp_range matches Some(x) ==> r.started_at <= x.0,
        snap_range matches Some(y) ==> r.started_at <= y.0,
        r.ended_at is Some <==> (opp_range is Some || snap_range is Some),
        r.ended_at matches Some(t) ==> (opp_range matches Some(x) ==> x.1 <= t) && (
        snap_range matches Some(y) ==> y.1 <= t),
        exists|cs: Seq<String>|
            is_chain_union(cs, opp_chains@, snap_chains@) && r.active_chains@ == chains_text(cs),
{
    let started_at = match (opp_range, snap_range) {
        (Some(x), Some(y)) => if x.0 <= y.0 { x.0 } else { y.0 },
        (Some(x), None) => x.0,
        (None, Some(y)) => y.0,
        (None, None) => 0,
    };
    let ended_at = match (opp_range, snap_range) {
        (Some(x), Some(y)) => Some(if x.1 >= y.1 { x.1 } else { y.1 }),
        (Some(x), None) => Some(x.1),
        (None, Some(y)) => Some(y.1),
        (None, None) => None,
    };
    let chains = merge_chains(opp_chains, snap_chains);
    let active_chains = if chains.len() == 0 {
        "legacy".to_owned()
    } else {
        join_chains(&chains)
    };
    assert(is_chain_union(chains@, opp_chains@, snap_chains@) && active_chains@ == chains_text(chains@));
    LegacySessionMetadata { started_at, ended_at, active_chains }
}

/// The legacy session row to write.
#[derive(Clone, Debug)]
pub struct LegacySessionRow {
    pub started_at: i64,
    pub ended_at: Option<i64>,
    pub active_chains: String,
    pub status: SessionStatus,
}

/// Nothing is known of the legacy rows: no timestamps and no chain.
pub open spec fn legacy_metadata_empty(m: LegacySessionMetadata) -> bool {
    m.started_at == 0 && m.ended_at is None && string_bytes(m.active_chains) == vstd::utf8::encode_utf8("legacy"@)
}

/// The legacy session row for the metadata: `None` when nothing is known
/// of the legacy rows, completed when they have a latest timestamp and
/// active otherwise; an error when a timestamp exceeds SQLite's INTEGER.
pub fn legacy_session_row(meta: LegacySessionMetadata) -> (r: Result<Option<LegacySessionRow>, RangeError>)
    ensures
        legacy_metadata_empty(meta) ==> r == Ok::<Option<LegacySessionRow>, RangeError>(None),
        !legacy_metadata_empty(meta) ==> match r {
            Ok(None) => false,
            Ok(Some(row)) => {
                &&& meta.started_at <= i64::MAX
                &&& row.started_at == meta.started_at
                &&& match meta.ended_at {
                    Some(e) => e <= i64::MAX && row.ended_at == Some(e as i64),
                    None => row.ended_at is None,
                }
                &&& row.active_chains@ == meta.active_chains@
                &&& row.status == if meta.ended_at is Some {
                    SessionStatus::Completed
                } else {
                    SessionStatus::Active
                }
            },
            Err(e) => {
                ||| (meta.started_at > i64::MAX && e.field@ == "started_at"@ && e.value == meta.started_at as i128)
                ||| (meta.started_at <= i64::MAX && (meta.ended_at matches Some(t) && t > i64::MAX
                    && e.field@ == "ended_at"@ && e.value == t as i128))
            },
        },
{
    if meta.started_at == 0 && meta.ended_at.is_none() && bytes_equal(
        meta.active_chains.as_str().as_bytes(),
        "legacy".as_bytes(),
    ) {
        return Ok(None);
    }
    let started_at = match checked_u64_to_i64(meta.started_at, "started_at") {
        Ok(v) => v,
        Err(e) => return Err(e),
    };
    let ended_at = match meta.ended_at {
        Some(t) => match checked_u64_to_i64(t, "ended_at") {
            Ok(v) => Some(v),
            Err(e) => return Err(e),
        },
        None => None,
    };
    let status = if meta.ended_at.is_some() {
        SessionStatus::Completed
    } else {
        SessionStatus::Active
    };
    Ok(Some(LegacySessionRow { started_at, ended_at, active_chains: meta.active_chains, status }))
}

} // verus!
