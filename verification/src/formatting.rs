use vstd::prelude::*;
use vstd::string::*;
use vstd::utf8::encode_utf8;

use crate::cluster_store::{spec_query_string, AdapterCluster};

verus! {

/// The first `n` characters of `s`, or all of them when it is shorter.
pub open spec fn first_chars(s: Seq<char>, n: int) -> Seq<char> {
    if s.len() <= n {
        s
    } else {
        s.subrange(0, n)
    }
}

/// A text cut for display: when its UTF-8 encoding is longer than `limit` bytes,
/// its first `limit` characters followed by `...`; else the text itself.
pub open spec fn spec_truncated(s: Seq<char>, limit: int) -> Seq<char> {
    if encode_utf8(s).len() > limit {
        first_chars(s, limit) + "..."@
    } else {
        s
    }
}

fn truncate_text(value: &str, limit: usize) -> (res: String)
    ensures
        res@ == spec_truncated(value@, limit as int),
{
    if value.as_bytes().len() > limit {
        let chars = value.unicode_len();
        let end = if chars < limit { chars } else { limit };
        let head = value.substring_char(0, end);
        let mut s = String::from_str(head);
        s.append("...");
        assert(head@ =~= first_chars(value@, limit as int));
        s
    } else {
        String::from_str(value)
    }
}

/// A cluster name cut to fit a card: ten characters and `...` when it is longer
/// than ten bytes.
pub fn trunk_cluster_name(name: &str) -> (res: String)
    ensures
        res@ == spec_truncated(name@, 10),
{
    truncate_text(name, 10)
}

/// A sign-in nonce shown as `SESSION: ` and the nonce, cut to twenty characters and
/// `...` when that is longer than twenty bytes.
pub fn truncate_nonce(value: &str) -> (res: String)
    ensures
        res@ == spec_truncated("SESSION: "@ + value@, 20),
{
    let mut session = String::from_str("SESSION: ");
    session.append(value);
    truncate_text(session.as_str(), 20)
}

/// Every text whose UTF-8 encoding is longer than the limit is cut: the result is its
/// first `limit` characters (all of them, when it has fewer) followed by three dots, so
/// it never holds more than `limit` characters and the dots. A text that fits is kept whole.
pub proof fn law_truncated(s: Seq<char>, limit: int)
    requires
        0 <= limit,
    ensures
        encode_utf8(s).len() > limit ==> {
            let m = if s.len() < limit { s.len() as int } else { limit };
            let r = spec_truncated(s, limit);
            &&& r.len() == m + 3
            &&& r.len() <= limit + 3
            &&& forall|j: int| 0 <= j < m ==> r[j] == s[j]
            &&& r[m] == '.' && r[m + 1] == '.' && r[m + 2] == '.'
        },
        encode_utf8(s).len() <= limit ==> spec_truncated(s, limit) == s,
{
    reveal_strlit("...");
}

/// `p` is a prefix of `s`.
pub open spec fn bytes_start_with(s: Seq<u8>, p: Seq<u8>) -> bool {
    p.len() <= s.len() && s.subrange(0, p.len() as int) == p
}

fn starts_with(s: &str, p: &str) -> (res: bool)
    ensures
        res == bytes_start_with(s.spec_bytes(), p.spec_bytes()),
{
    let sb = s.as_bytes();
    let pb = p.as_bytes();
    if pb.len() > sb.len() {
        return false;
    }
    let n = pb.len();
    let mut i: usize = 0;
    while i < n
        invariant
            n == pb@.len(),
            n <= sb@.len(),
            sb@ == s.spec_bytes(),
            pb@ == p.spec_bytes(),
            i <= n,
            forall|j: int| 0 <= j < i ==> sb@[j] == pb@[j],
        decreases n - i,
    {
        if sb[i] != pb[i] {
            assert(sb@.subrange(0, n as int)[i as int] != pb@[i as int]);
            return false;
        }
        i = i + 1;
    }
    assert(sb@.subrange(0, n as int) =~= pb@);
    true
}

/// A custom cluster URL is accepted when it starts with `http://` or `https://`
/// and is longer than eight bytes.
pub open spec fn spec_valid_url(value: &str) -> bool {
    (bytes_start_with(value.spec_bytes(), encode_utf8("http://"@))
        || bytes_start_with(value.spec_bytes(), encode_utf8("https://"@)))
        && value.spec_bytes().len() > 8
}

/// Whether a custom cluster URL is accepted.
pub fn validate_url(value: &str) -> (res: bool)
    ensures
        res == spec_valid_url(value),
{
    let scheme_exists = starts_with(value, "http://") || starts_with(value, "https://");
    scheme_exists && value.as_bytes().len() > 8
}

/// A custom cluster URL is accepted exactly when its bytes begin with `http://` or with
/// `https://` and there are more than eight of them; no other byte of it matters.
pub proof fn law_valid_url(value: &str)
    ensures
        spec_valid_url(value) <==> {
            let b = value.spec_bytes();
            &&& b.len() > 8
            &&& (b.take(7) == seq![104u8, 116u8, 116u8, 112u8, 58u8, 47u8, 47u8]
                || b.take(8) == seq![104u8, 116u8, 116u8, 112u8, 115u8, 58u8, 47u8, 47u8])
        },
{
    reveal_strlit("http://");
    reveal_strlit("https://");
    vstd::utf8::is_ascii_chars_encode_utf8("http://"@);
    vstd::utf8::is_ascii_chars_encode_utf8("https://"@);
    assert(encode_utf8("http://"@) =~= seq![104u8, 116u8, 116u8, 112u8, 58u8, 47u8, 47u8]);
    assert(encode_utf8("https://"@) =~= seq![104u8, 116u8, 116u8, 112u8, 115u8, 58u8, 47u8, 47u8]);
}

/// The Solana explorer.
pub const EXPLORER: &'static str = "https://explorer.solana.com/";

/// The explorer page of an address, on the active cluster.
pub fn format_address_url(address: &str, active_cluster: &AdapterCluster) -> (res: String)
    ensures
        res@ == EXPLORER@ + "address/"@ + address@ + spec_query_string(active_cluster@),
{
    let mut s = String::from_str(EXPLORER);
    s.append("address/");
    s.append(address);
    let q = adapter_query_string(active_cluster);
    s.append(q.as_str());
    s
}

/// The explorer page of a transaction, on the active cluster.
pub fn format_tx_url(tx: &str, active_cluster: &AdapterCluster) -> (res: String)
    ensures
        res@ == EXPLORER@ + "tx/"@ + tx@ + spec_query_string(active_cluster@),
{
    let mut s = String::from_str(EXPLORER);
    s.append("tx/");
    s.append(tx);
    let q = adapter_query_string(active_cluster);
    s.append(q.as_str());
    s
}

/// The explorer query string of the active cluster.
pub fn adapter_query_string(active_cluster: &AdapterCluster) -> (res: String)
    ensures
        res@ == spec_query_string(active_cluster@),
{
    active_cluster.query_string()
}

/// The text is made of ASCII decimal digits only.
pub open spec fn all_digits(s: Seq<char>) -> bool {
    forall|i: int| 0 <= i < s.len() ==> '0' <= #[trigger] s[i] <= '9'
}

/// The number that a text of decimal digits writes.
pub open spec fn digits_value(s: Seq<char>) -> int
    decreases s.len(),
{
    if s.len() == 0 {
        0
    } else {
        digits_value(s.drop_last()) * 10 + (s.last() as int - 48)
    }
}

/// The digits of a text that `parse_u64` reads: everything after an optional leading `+`.
pub open spec fn unsigned_digits(s: Seq<char>) -> Seq<char> {
    if s.len() > 0 && s[0] == '+' {
        s.drop_first()
    } else {
        s
    }
}

/// The `u64` a text writes: an optional `+`, then one or more ASCII digits whose value
/// fits in a `u64`; `None` for any other text.
pub open spec fn spec_parse_u64(s: Seq<char>) -> Option<u64> {
    let d = unsigned_digits(s);
    if d.len() > 0 && all_digits(d) && digits_value(d) <= u64::MAX {
        Some(digits_value(d) as u64)
    } else {
        None
    }
}

/// A text of digits writes at least as much as any of its prefixes.
proof fn lemma_digits_value_prefix(s: Seq<char>, k: int)
    requires
        all_digits(s),
        0 <= k <= s.len(),
    ensures
        digits_value(s.take(k)) <= digits_value(s),
        0 <= digits_value(s.take(k)),
    decreases s.len(),
{
    if s.len() > 0 {
        assert(s.take(s.len() as int) =~= s);
        if k < s.len() {
            let t = s.drop_last();
            assert(s.take(k) =~= t.take(k));
            lemma_digits_value_prefix(t, k);
            lemma_digits_value_prefix(t, t.len() as int);
            assert(t.take(t.len() as int) =~= t);
        } else {
            lemma_digits_value_prefix(s.drop_last(), s.len() - 1);
            assert(s.drop_last().take(s.len() - 1) =~= s.drop_last());
        }
    }
}

/// Reads an unsigned decimal number the way `str::parse::<u64>` does: an optional `+`,
/// then one or more ASCII digits, with a value that fits in a `u64`.
pub fn parse_u64(text: &str) -> (res: Option<u64>)
    ensures
        res == spec_parse_u64(text@),
{
    let n = text.unicode_len();
    let mut start: usize = 0;
    if n > 0 && text.get_char(0) == '+' {
        start = 1;
    }
    let ghost d = unsigned_digits(text@);
    assert(d =~= text@.subrange(start as int, n as int));
    if start >= n {
        return None;
    }
    let mut value: u64 = 0;
    let mut i: usize = start;
    while i < n
        invariant
            n == text@.len(),
            start <= i <= n,
            start < n,
            d =~= text@.subrange(start as int, n as int),
            d == unsigned_digits(text@),
            all_digits(d.take(i - start)),
            value as int == digits_value(d.take(i - start)),
        decreases n - i,
    {
        let c = text.get_char(i);
        assert(c == d[i - start]);
        if c < '0' || c > '9' {
            assert(!('0' <= d[i - start] <= '9'));
            return None;
        }
        let digit = (c as u32 - 48) as u64;
        assert(d.take(i - start + 1).drop_last() =~= d.take(i - start));
        assert(d.take(i - start + 1).last() == c);
        if value > (u64::MAX - digit) / 10 {
            proof {
                assert(digits_value(d.take(i - start + 1)) > u64::MAX);
                if all_digits(d) {
                    lemma_digits_value_prefix(d, i - start + 1);
                }
            }
            return None;
        }
        value = value * 10 + digit;
        i = i + 1;
    }
    assert(d.take(n - start) =~= d);
    Some(value)
}

/// The lamports in one SOL.
pub const LAMPORTS_PER_SOL: u64 = 1_000_000_000;

/// The SOL an airdrop asks for: the number entered, or one when the input is not a
/// number.
pub open spec fn airdrop_sol(input: Seq<char>) -> int {
    match spec_parse_u64(input) {
        Some(n) => n as int,
        None => 1,
    }
}

/// The lamports an airdrop asks for: the SOL entered (one when the input is not a
/// number) times the lamports in one SOL.
pub fn airdrop_lamports(input: &str) -> (res: u64)
    requires
        airdrop_sol(input@) * LAMPORTS_PER_SOL <= u64::MAX,
    ensures
        res == airdrop_sol(input@) * LAMPORTS_PER_SOL,
{
    let sol = match parse_u64(input) {
        Some(n) => n,
        None => 1,
    };
    sol * LAMPORTS_PER_SOL
}

/// The lamports to send after an edit of the amount field: the number entered, or the
/// amount held before when the input is not a number.
pub fn entered_lamports(input: &str, previous: u64) -> (res: u64)
    ensures
        res == match spec_parse_u64(input@) {
            Some(n) => n,
            None => previous,
        },
{
    match parse_u64(input) {
        Some(n) => n,
        None => previous,
    }
}

} // verus!
