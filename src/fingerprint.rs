//! Stable identifier of a (chain id, log filter) pair.
use sha2::Digest;
use vstd::multiset::Multiset;
use vstd::prelude::*;

verus! {

/// A log filter in plain values: the contract addresses it matches, the set of
/// accepted 32-byte values at each of the four topic positions, and the first
/// block it covers.
pub struct LogFilter {
    pub addresses: Vec<[u8; 20]>,
    pub topics: [Vec<[u8; 32]>; 4],
    pub from_block: Option<u64>,
}

/// `a` comes strictly before `b` in byte-wise lexicographic order.
pub open spec fn bytes_lt(a: Seq<u8>, b: Seq<u8>) -> bool {
    exists|i: int| 0 <= i < a.len() && i < b.len() && a.take(i) == b.take(i) && a[i] < b[i]
}

pub open spec fn bytes_le(a: Seq<u8>, b: Seq<u8>) -> bool {
    a == b || bytes_lt(a, b)
}

pub open spec fn bytes_sorted(s: Seq<Seq<u8>>) -> bool {
    forall|i: int, j: int| 0 <= i < j < s.len() ==> bytes_le(#[trigger] s[i], #[trigger] s[j])
}

/// The ascending arrangement of a multiset of byte strings.
pub open spec fn sorted_form(m: Multiset<Seq<u8>>) -> Seq<Seq<u8>> {
    choose|s: Seq<Seq<u8>>| bytes_sorted(s) && s.to_multiset() == m
}

pub open spec fn topic_set(s: Seq<[u8; 32]>) -> Multiset<Seq<u8>> {
    s.map_values(|w: [u8; 32]| w@).to_multiset()
}

pub open spec fn address_set(s: Seq<[u8; 20]>) -> Multiset<Seq<u8>> {
    s.map_values(|a: [u8; 20]| a@).to_multiset()
}

/// The concatenation of a sequence of byte strings.
pub open spec fn concat(s: Seq<Seq<u8>>) -> Seq<u8>
    decreases s.len(),
{
    if s.len() == 0 {
        Seq::empty()
    } else {
        concat(s.drop_last()) + s.last()
    }
}

/// A `u64` as a big-endian 256-bit word.
pub open spec fn u64_word(n: u64) -> Seq<u8> {
    Seq::new(32, |i: int| if i < 24 { 0u8 } else { ((n >> (((31 - i) * 8) as u64)) & 0xff) as u8 })
}

/// A 20-byte address left-padded with zeros to a 32-byte word.
pub open spec fn pad_address(a: Seq<u8>) -> Seq<u8> {
    Seq::new(12, |i: int| 0u8) + a
}

pub open spec fn from_block_or_one(b: Option<u64>) -> u64 {
    match b {
        Some(n) => n,
        None => 1,
    }
}

/// The bytes that are hashed to identify `f` on chain `chain_id`.
pub open spec fn preimage(f: LogFilter, chain_id: u64) -> Seq<u8> {
    u64_word(chain_id) + u64_word(from_block_or_one(f.from_block)) + concat(
        sorted_form(topic_set(f.topics@[0]@)),
    ) + concat(sorted_form(topic_set(f.topics@[1]@))) + concat(
        sorted_form(topic_set(f.topics@[2]@)),
    ) + concat(sorted_form(topic_set(f.topics@[3]@))) + concat(
        sorted_form(address_set(f.addresses@)).map_values(|a: Seq<u8>| pad_address(a)),
    )
}

pub open spec fn hex_digit(d: u8) -> char {
    if d < 10 {
        ((d + 48) as u8) as char
    } else {
        ((d + 87) as u8) as char
    }
}

/// Lowercase hex digits of `b`, two per byte, most significant first.
pub open spec fn hex_body(b: Seq<u8>) -> Seq<char>
    decreases b.len(),
{
    if b.len() == 0 {
        Seq::empty()
    } else {
        hex_body(b.drop_last()) + seq![hex_digit(b.last() / 16), hex_digit(b.last() % 16)]
    }
}

pub open spec fn hex_text(b: Seq<u8>) -> Seq<char> {
    seq!['0', 'x'] + hex_body(b)
}

pub uninterp spec fn sha256_of(data: Seq<u8>) -> Seq<u8>;

pub uninterp spec fn keccak256_of(data: Seq<u8>) -> Seq<u8>;

/// The identifier of `f` on chain `chain_id`.
pub open spec fn fingerprint(f: LogFilter, chain_id: u64) -> Seq<char> {
    hex_text(keccak256_of(sha256_of(preimage(f, chain_id))))
}

/// Relies on sha2::Sha256::digest: the SHA-256 digest of the input.
#[verifier::external_body]
fn sha256(data: &Vec<u8>) -> (r: [u8; 32])
    ensures
        r@ == sha256_of(data@),
{
    sha2::Sha256::digest(data.as_slice()).into()
}

/// Relies on alloy::primitives::keccak256: the Keccak-256 digest of the input.
#[verifier::external_body]
fn keccak256(data: &[u8; 32]) -> (r: [u8; 32])
    ensures
        r@ == keccak256_of(data@),
{
    alloy::primitives::keccak256(data).0
}

/// Relies on slice::sort: the elements are put in ascending order (arrays of
/// bytes compare lexicographically), and no element is added or lost.
#[verifier::external_body]
fn sort_words<const N: usize>(v: &mut Vec<[u8; N]>)
    ensures
        bytes_sorted(final(v)@.map_values(|w: [u8; N]| w@)),
        final(v)@.map_values(|w: [u8; N]| w@).to_multiset() == old(v)@.map_values(
            |w: [u8; N]| w@,
        ).to_multiset(),
{
    v.sort()
}

/// Relies on String's FromIterator<char>: the characters in order.
#[verifier::external_body]
fn string_from_chars(cs: &Vec<char>) -> (r: String)
    ensures
        r@ == cs@,
{
    cs.iter().collect()
}

proof fn lemma_lt_asymmetric(a: Seq<u8>, b: Seq<u8>)
    ensures
        !(bytes_lt(a, b) && bytes_lt(b, a)),
        bytes_lt(a, b) ==> a != b,
{
    if bytes_lt(a, b) && bytes_lt(b, a) {
        let i = choose|i: int|
            0 <= i < a.len() && i < b.len() && a.take(i) == b.take(i) && a[i] < b[i];
        let j = choose|j: int|
            0 <= j < b.len() && j < a.len() && b.take(j) == a.take(j) && b[j] < a[j];
        if i < j {
            assert(a.take(j)[i] == b.take(j)[i]);
        } else if j < i {
            assert(a.take(i)[j] == b.take(i)[j]);
        }
    }
}

/// Two ascending sequences that hold the same elements are equal.
proof fn lemma_sorted_unique(s1: Seq<Seq<u8>>, s2: Seq<Seq<u8>>)
    requires
        bytes_sorted(s1),
        bytes_sorted(s2),
        s1.to_multiset() == s2.to_multiset(),
    ensures
        s1 == s2,
    decreases s1.len(),
{
    s1.to_multiset_ensures();
    s2.to_multiset_ensures();
    if s1.len() == 0 {
        assert(s1 =~= s2);
    } else {
        let n = s1.len() - 1;
        let a = s1[n];
        let b = s2[n];
        assert(s1.contains(a));
        assert(s2.to_multiset().count(a) > 0);
        let j = choose|j: int| 0 <= j < s2.len() && s2[j] == a;
        assert(bytes_le(a, b)) by {
            if j < n {
                assert(bytes_le(s2[j], s2[n]));
            }
        }
        assert(s2.contains(b));
        assert(s1.to_multiset().count(b) > 0);
        let k = choose|k: int| 0 <= k < s1.len() && s1[k] == b;
        assert(bytes_le(b, a)) by {
            if k < n {
                assert(bytes_le(s1[k], s1[n]));
            }
        }
        lemma_lt_asymmetric(a, b);
        assert(a == b);
        assert(s1.remove(n) =~= s1.drop_last());
        assert(s2.remove(n) =~= s2.drop_last());
        let d1 = s1.drop_last();
        let d2 = s2.drop_last();
        assert(bytes_sorted(d1)) by {
            assert forall|i: int, j: int| 0 <= i < j < d1.len() implies bytes_le(
                d1[i],
                d1[j],
            ) by {
                assert(bytes_le(s1[i], s1[j]));
            }
        }
        assert(bytes_sorted(d2)) by {
            assert forall|i: int, j: int| 0 <= i < j < d2.len() implies bytes_le(
                d2[i],
                d2[j],
            ) by {
                assert(bytes_le(s2[i], s2[j]));
            }
        }
        lemma_sorted_unique(d1, d2);
        assert(s1 =~= d1.push(a));
        assert(s2 =~= d2.push(b));
    }
}

/// An ascending arrangement of `m` is the one `sorted_form` names.
proof fn lemma_sorted_form(s: Seq<Seq<u8>>, m: Multiset<Seq<u8>>)
    requires
        bytes_sorted(s),
        s.to_multiset() == m,
    ensures
        sorted_form(m) == s,
{
    let t = sorted_form(m);
    assert(bytes_sorted(t) && t.to_multiset() == m);
    lemma_sorted_unique(t, s);
}

proof fn lemma_concat_step(s: Seq<Seq<u8>>, i: int)
    requires
        0 <= i < s.len(),
    ensures
        concat(s.take(i + 1)) == concat(s.take(i)) + s[i],
{
    assert(s.take(i + 1).drop_last() =~= s.take(i));
}

/// Appends `n` as a big-endian 256-bit word.
fn push_u64_word(out: &mut Vec<u8>, n: u64)
    ensures
        final(out)@ == old(out)@ + u64_word(n),
{
    let ghost start = out@;
    let mut i: usize = 0;
    while i < 32
        invariant
            i <= 32,
            out@ == start + u64_word(n).take(i as int),
        decreases 32 - i,
    {
        let byte: u8 = if i < 24 {
            0
        } else {
            ((n >> (((31 - i) * 8) as u64)) & 0xff) as u8
        };
        out.push(byte);
        i = i + 1;
        assert(out@ =~= start + u64_word(n).take(i as int));
    }
    assert(u64_word(n).take(32) =~= u64_word(n));
}

/// Appends the topic values of one position in ascending order.
fn push_sorted_topics(out: &mut Vec<u8>, topics: &Vec<[u8; 32]>)
    ensures
        final(out)@ == old(out)@ + concat(sorted_form(topic_set(topics@))),
{
    let mut v: Vec<[u8; 32]> = Vec::new();
    let mut i: usize = 0;
    while i < topics.len()
        invariant
            i <= topics.len(),
            v@ == topics@.take(i as int),
        decreases topics.len() - i,
    {
        v.push(topics[i]);
        i = i + 1;
        assert(v@ =~= topics@.take(i as int));
    }
    assert(topics@.take(topics@.len() as int) =~= topics@);
    sort_words(&mut v);
    let ghost words = v@.map_values(|w: [u8; 32]| w@);
    proof {
        lemma_sorted_form(words, topic_set(topics@));
    }
    let ghost start = out@;
    let mut k: usize = 0;
    while k < v.len()
        invariant
            k <= v.len(),
            words == v@.map_values(|w: [u8; 32]| w@),
            out@ == start + concat(words.take(k as int)),
        decreases v.len() - k,
    {
        let w = v[k];
        let mut j: usize = 0;
        while j < 32
            invariant
                j <= 32,
                k < v.len(),
                w == v@[k as int],
                words == v@.map_values(|w: [u8; 32]| w@),
                out@ == start + concat(words.take(k as int)) + w@.take(j as int),
            decreases 32 - j,
        {
            out.push(w[j]);
            j = j + 1;
            assert(out@ =~= start + concat(words.take(k as int)) + w@.take(j as int));
        }
        proof {
            lemma_concat_step(words, k as int);
            assert(w@.take(32) =~= w@);
        }
        k = k + 1;
        assert(out@ =~= start + concat(words.take(k as int)));
    }
    assert(words.take(words.len() as int) =~= words);
}

/// Appends the addresses in ascending order, each padded to a 32-byte word.
fn push_sorted_addresses(out: &mut Vec<u8>, addresses: &Vec<[u8; 20]>)
    ensures
        final(out)@ == old(out)@ + concat(
            sorted_form(address_set(addresses@)).map_values(|a: Seq<u8>| pad_address(a)),
        ),
{
    let mut v: Vec<[u8; 20]> = Vec::new();
    let mut i: usize = 0;
    while i < addresses.len()
        invariant
            i <= addresses.len(),
            v@ == addresses@.take(i as int),
        decreases addresses.len() - i,
    {
        v.push(addresses[i]);
        i = i + 1;
        assert(v@ =~= addresses@.take(i as int));
    }
    assert(addresses@.take(addresses@.len() as int) =~= addresses@);
    sort_words(&mut v);
    let ghost words = v@.map_values(|a: [u8; 20]| a@);
    let ghost padded = words.map_values(|a: Seq<u8>| pad_address(a));
    proof {
        lemma_sorted_form(words, address_set(addresses@));
    }
    let ghost start = out@;
    let mut k: usize = 0;
    while k < v.len()
        invariant
            k <= v.len(),
            words == v@.map_values(|a: [u8; 20]| a@),
            padded == words.map_values(|a: Seq<u8>| pad_address(a)),
            out@ == start + concat(padded.take(k as int)),
        decreases v.len() - k,
    {
        let a = v[k];
        let ghost base = out@;
        let mut j: usize = 0;
        while j < 32
            invariant
                j <= 32,
                k < v.len(),
                a == v@[k as int],
                padded == words.map_values(|a: Seq<u8>| pad_address(a)),
                words == v@.map_values(|a: [u8; 20]| a@),
                out@ == base + pad_address(a@).take(j as int),
            decreases 32 - j,
        {
            let byte: u8 = if j < 12 {
                0
            } else {
                a[j - 12]
            };
            out.push(byte);
            j = j + 1;
            assert(out@ =~= base + pad_address(a@).take(j as int));
        }
        proof {
            lemma_concat_step(padded, k as int);
            assert(pad_address(a@).take(32) =~= pad_address(a@));
        }
        k = k + 1;
        assert(out@ =~= start + concat(padded.take(k as int)));
    }
    assert(padded.take(padded.len() as int) =~= padded);
}

fn hex_char(d: u8) -> (c: char)
    requires
        d < 16,
    ensures
        c == hex_digit(d),
{
    if d < 10 {
        ((d + 48) as u8) as char
    } else {
        ((d + 87) as u8) as char
    }
}

/// `0x` followed by the lowercase hex digits of `b`.
fn to_hex(b: &[u8; 32]) -> (r: String)
    ensures
        r@ == hex_text(b@),
{
    let mut cs: Vec<char> = Vec::new();
    cs.push('0');
    cs.push('x');
    let mut i: usize = 0;
    while i < 32
        invariant
            i <= 32,
            cs@ == hex_text(b@.take(i as int)),
        decreases 32 - i,
    {
        let x = b[i];
        cs.push(hex_char(x / 16));
        cs.push(hex_char(x % 16));
        i = i + 1;
        assert(b@.take(i as int).drop_last() =~= b@.take(i as int - 1));
        assert(cs@ =~= hex_text(b@.take(i as int)));
    }
    assert(b@.take(32) =~= b@);
    string_from_chars(&cs)
}

/// The stable identifier of `filter` on chain `chain_id`: the SHA-256 digest of
/// the filter's canonical bytes, hashed again with Keccak-256, as `0x` and 64
/// lowercase hex digits.
pub fn filter_id(filter: &LogFilter, chain_id: u64) -> (r: String)
    ensures
        r@ == fingerprint(*filter, chain_id),
{
    let mut data: Vec<u8> = Vec::new();
    push_u64_word(&mut data, chain_id);
    let from = match filter.from_block {
        Some(b) => b,
        None => 1,
    };
    push_u64_word(&mut data, from);
    push_sorted_topics(&mut data, &filter.topics[0]);
    push_sorted_topics(&mut data, &filter.topics[1]);
    push_sorted_topics(&mut data, &filter.topics[2]);
    push_sorted_topics(&mut data, &filter.topics[3]);
    push_sorted_addresses(&mut data, &filter.addresses);
    assert(data@ =~= preimage(*filter, chain_id));
    let digest = sha256(&data);
    let id = keccak256(&digest);
    to_hex(&id)
}

} // verus!
