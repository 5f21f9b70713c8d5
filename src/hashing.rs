//! Content digests and the identifiers and paths derived from them.

use vstd::prelude::*;

verus! {

/// The lower-case hex text of the SHA-256 digest of `data`.
pub uninterp spec fn sha256_hex(data: Seq<u8>) -> Seq<char>;

/// `c` is a lower-case hex digit.
pub open spec fn is_lower_hex_digit(c: char) -> bool {
    ('0' <= c && c <= '9') || ('a' <= c && c <= 'f')
}

/// Relies on sha2's `Sha256::digest` and on the lower-hex formatting of its
/// 32-byte output: two lower-case hex digits for each byte.
#[verifier::external_body]
fn sha256_lower_hex(data: &[u8]) -> (r: String)
    ensures
        r@ == sha256_hex(data@),
        r@.len() == 64,
        forall|i: int| 0 <= i < 64 ==> is_lower_hex_digit(#[trigger] r@[i]),
{
    format!("{:x}", <sha2::Sha256 as sha2::Digest>::digest(data))
}

/// The content hash of a file's bytes: the lower-case hex SHA-256 digest.
pub fn content_hash(content: &[u8]) -> (r: String)
    ensures
        r@ == sha256_hex(content@),
        r@.len() == 64,
        forall|i: int| 0 <= i < r@.len() ==> is_lower_hex_digit(#[trigger] r@[i]),
{
    sha256_lower_hex(content)
}

/// The decimal digit for `d`, which is below ten.
pub open spec fn digit_char(d: nat) -> char {
    seq!['0', '1', '2', '3', '4', '5', '6', '7', '8', '9'][d as int]
}

/// The decimal digits of `n`, most significant first, without leading zeros.
pub open spec fn digits(n: nat) -> Seq<char>
    decreases n,
{
    if n < 10 {
        seq![digit_char(n)]
    } else {
        digits(n / 10).push(digit_char(n % 10))
    }
}

/// The decimal text of `n`, with a minus sign where it is negative.
pub open spec fn decimal(n: int) -> Seq<char> {
    if n < 0 {
        seq!['-'] + digits((-n) as nat)
    } else {
        digits(n as nat)
    }
}

/// Relies on `i64`'s `Display`, through `to_string`: its decimal text.
#[verifier::external_body]
fn decimal_text(n: i64) -> (r: String)
    ensures
        r@ == decimal(n as int),
{
    n.to_string()
}

/// How many characters of a content hash go into a quarantine id.
pub const ID_HASH_CHARS: usize = 16;

/// The leading part of a hash that names a quarantined file.
pub open spec fn hash_prefix(hash: Seq<char>) -> Seq<char> {
    if hash.len() <= ID_HASH_CHARS {
        hash
    } else {
        hash.subrange(0, ID_HASH_CHARS as int)
    }
}

/// The quarantine id of a file with this hash, isolated at this time.
pub open spec fn quarantine_id(hash: Seq<char>, timestamp: i64) -> Seq<char> {
    hash_prefix(hash) + seq!['_'] + decimal(timestamp as int)
}

/// The quarantine id: the first sixteen characters of the hash, an
/// underscore, and the time in seconds.
pub fn derive_quarantine_id(file_hash: &str, timestamp: i64) -> (r: String)
    ensures
        r@ == quarantine_id(file_hash@, timestamp),
{
    let len = file_hash.unicode_len();
    let cut = if len <= ID_HASH_CHARS { len } else { ID_HASH_CHARS };
    let mut id = String::from_str(file_hash.substring_char(0, cut));
    proof {
        reveal_strlit("_");
    }
    id.append("_");
    let stamp = decimal_text(timestamp);
    id.append(stamp.as_str());
    assert(id@ =~= quarantine_id(file_hash@, timestamp));
    id
}

/// `name` placed inside directory `dir`.
pub open spec fn join_path(dir: Seq<char>, name: Seq<char>) -> Seq<char> {
    if dir.len() == 0 {
        name
    } else if dir.last() == '/' {
        dir + name
    } else {
        dir + seq!['/'] + name
    }
}

/// The path of `name` inside directory `dir`.
pub fn join(dir: &str, name: &str) -> (r: String)
    ensures
        r@ == join_path(dir@, name@),
{
    let len = dir.unicode_len();
    if len == 0 {
        return String::from_str(name);
    }
    let mut path = String::from_str(dir);
    if dir.get_char(len - 1) != '/' {
        proof {
            reveal_strlit("/");
        }
        path.append("/");
    }
    path.append(name);
    assert(path@ =~= join_path(dir@, name@));
    path
}

/// Two hashes that differ in their first sixteen characters give two
/// different quarantine ids, whatever the two timestamps.
pub proof fn distinct_hash_prefixes_give_distinct_ids(h1: Seq<char>, h2: Seq<char>, t1: i64, t2: i64)
    requires
        h1.len() >= ID_HASH_CHARS,
        h2.len() >= ID_HASH_CHARS,
        h1.subrange(0, ID_HASH_CHARS as int) != h2.subrange(0, ID_HASH_CHARS as int),
    ensures
        quarantine_id(h1, t1) != quarantine_id(h2, t2),
{
    let a = quarantine_id(h1, t1);
    let b = quarantine_id(h2, t2);
    assert(hash_prefix(h1) =~= h1.subrange(0, 16));
    assert(hash_prefix(h2) =~= h2.subrange(0, 16));
    assert(a.subrange(0, 16) =~= h1.subrange(0, 16));
    assert(b.subrange(0, 16) =~= h2.subrange(0, 16));
}

} // verus!
