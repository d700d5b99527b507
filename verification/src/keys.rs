//! The keys of the cache: of a verified binary, of a verdict against a script,
//! and of the remembered version of a `perry`.

use crate::outside;
use crate::process;
use crate::text;
use vstd::prelude::*;
use vstd::string::*;
use vstd::utf8::*;

verus! {

// ---------------------------------------------------------------------------
// What a key is computed from
// ---------------------------------------------------------------------------

/// The bytes that stand between the source and the version.
pub open spec fn version_mark() -> Seq<u8> {
    encode_utf8("\0perry\0"@)
}

/// The bytes that stand between the version and the flags.
pub open spec fn flags_mark() -> Seq<u8> {
    encode_utf8("\0flags\0"@)
}

/// The bytes whose digest keys a binary: the source, the version of the compiler
/// and the flags it gets, each set off from the one before.
pub open spec fn preimage(
    source: Seq<u8>,
    version: Seq<char>,
    flags: Seq<Seq<char>>,
) -> Seq<u8> {
    encode_utf8("nub-cook-v1\0"@) + source + version_mark() + encode_utf8(version) + flags_mark()
        + encode_utf8(text::joined(flags, " "@))
}

/// The bytes whose digest keys a binary.
pub fn cache_preimage(source: &[u8], perry_version: &str, flags: &Vec<String>) -> (r: Vec<u8>)
    ensures
        r@ == preimage(source@, perry_version@, flags.deep_view()),
{
    let mut bytes: Vec<u8> = Vec::new();
    text::push_bytes(&mut bytes, "nub-cook-v1\0".as_bytes());
    assert(bytes@ =~= encode_utf8("nub-cook-v1\0"@));
    text::push_bytes(&mut bytes, source);
    text::push_bytes(&mut bytes, "\0perry\0".as_bytes());
    text::push_bytes(&mut bytes, perry_version.as_bytes());
    text::push_bytes(&mut bytes, "\0flags\0".as_bytes());
    let joined = text::join(flags, " ");
    text::push_bytes(&mut bytes, joined.as_str().as_bytes());
    bytes
}

/// What the file system says of the `perry` executable.
pub struct PerryStat<T> {
    /// Its canonical path.
    pub path: T,
    /// When it was last modified, in nanoseconds since the start of 1970.
    pub mtime: u128,
    /// Its size in bytes.
    pub len: u64,
}

impl View for PerryStat<String> {
    type V = PerryStat<Seq<char>>;

    open spec fn view(&self) -> PerryStat<Seq<char>> {
        PerryStat { path: self.path@, mtime: self.mtime, len: self.len }
    }
}

/// The `count` lowest bytes of `n`, the lowest first.
pub open spec fn le_bytes(n: nat, count: nat) -> Seq<u8>
    decreases count,
{
    if count == 0 {
        Seq::empty()
    } else {
        seq![(n % 256) as u8] + le_bytes(n / 256, (count - 1) as nat)
    }
}

/// Appends the `count` lowest bytes of `n`, the lowest first.
fn push_le_bytes(bytes: &mut Vec<u8>, n: u128, count: usize)
    ensures
        final(bytes)@ == old(bytes)@ + le_bytes(n as nat, count as nat),
{
    let ghost start = bytes@;
    let mut rest: u128 = n;
    let mut i: usize = 0;
    while i < count
        invariant
            i <= count,
            bytes@ + le_bytes(rest as nat, (count - i) as nat) == start + le_bytes(
                n as nat,
                count as nat,
            ),
        decreases count - i,
    {
        let ghost before = bytes@;
        bytes.push((rest % 256) as u8);
        assert(before + le_bytes(rest as nat, (count - i) as nat) =~= bytes@ + le_bytes(
            rest as nat / 256,
            (count - i - 1) as nat,
        ));
        rest = rest / 256;
        i += 1;
    }
    assert(bytes@ + le_bytes(rest as nat, 0) == bytes@);
}

/// The bytes whose digest identifies a `perry` executable: its path, a zero
/// byte, the time of its last change in 16 bytes, a zero byte, its size in 8.
pub open spec fn stamp_preimage(stat: PerryStat<Seq<char>>) -> Seq<u8> {
    encode_utf8(stat.path) + seq![0u8] + le_bytes(stat.mtime as nat, 16) + seq![0u8] + le_bytes(
        stat.len as nat,
        8,
    )
}

/// The bytes whose digest identifies a `perry` executable.
pub fn perry_stamp_preimage(stat: &PerryStat<String>) -> (r: Vec<u8>)
    ensures
        r@ == stamp_preimage(stat@),
{
    let mut bytes: Vec<u8> = Vec::new();
    text::push_bytes(&mut bytes, stat.path.as_str().as_bytes());
    assert(bytes@ =~= encode_utf8(stat.path@));
    bytes.push(0);
    assert(bytes@ =~= encode_utf8(stat.path@) + seq![0u8]);
    push_le_bytes(&mut bytes, stat.mtime, 16);
    let ghost before = bytes@;
    bytes.push(0);
    assert(bytes@ =~= before + seq![0u8]);
    push_le_bytes(&mut bytes, stat.len as u128, 8);
    bytes
}

// ---------------------------------------------------------------------------
// The keys
// ---------------------------------------------------------------------------

/// The key of a binary whose preimage has this digest.
pub open spec fn binary_key(digest: Seq<u8>) -> Seq<char> {
    "cook/"@ + text::hex(digest)
}

/// The key of a binary compiled from `source` by this version of `perry`.
pub open spec fn key_text(source: Seq<u8>, version: Seq<char>) -> Seq<char> {
    binary_key(outside::sha256_digest(preimage(source, version, process::flags())))
}

/// The key of a `perry`'s version whose preimage has this digest.
pub open spec fn stamp_key(digest: Seq<u8>) -> Seq<char> {
    "cook-perry-version/"@ + text::hex(digest)
}

/// The key of the version of this `perry`.
pub open spec fn stamp_text(stat: PerryStat<Seq<char>>) -> Seq<char> {
    stamp_key(outside::sha256_digest(stamp_preimage(stat)))
}

/// What follows the last slash; all of it where there is none.
pub open spec fn tail(key: Seq<char>) -> Seq<char>
    decreases key.len(),
{
    if key.len() == 0 || key.last() == '/' {
        Seq::empty()
    } else {
        tail(key.drop_last()).push(key.last())
    }
}

/// The key of the verdict that belongs to a binary's key.
pub open spec fn verdict_text(key: Seq<char>) -> Seq<char> {
    "cook-verdict/"@ + tail(key)
}

/// The key of a binary whose preimage has this digest.
pub fn key_of_digest(digest: &[u8]) -> (r: String)
    ensures
        r@ == binary_key(digest@),
{
    let hex = text::hex_text(digest);
    text::concat("cook/", hex.as_str())
}

/// The key of a binary: the digest of the source, the compiler's version and
/// the flags, so that a change of any of them leads to another key. It has 69
/// characters, 64 of them the digest.
pub fn cache_key(source: &[u8], perry_version: &str) -> (r: String)
    ensures
        r@ == key_text(source@, perry_version@),
        r@.len() == 69,
{
    let flags = process::compile_flags();
    let bytes = cache_preimage(source, perry_version, &flags);
    let digest = outside::sha256(bytes.as_slice());
    proof {
        reveal_strlit("cook/");
    }
    key_of_digest(digest.as_slice())
}

/// The key of a `perry`'s version whose preimage has this digest.
pub fn stamp_of_digest(digest: &[u8]) -> (r: String)
    ensures
        r@ == stamp_key(digest@),
{
    let hex = text::hex_text(digest);
    text::concat("cook-perry-version/", hex.as_str())
}

/// The key of the version of this `perry`: the digest of its path, the time of
/// its last change and its size, so that an upgrade in place leads to another
/// key. It has 83 characters, 64 of them the digest.
pub fn perry_stamp(stat: &PerryStat<String>) -> (r: String)
    ensures
        r@ == stamp_text(stat@),
        r@.len() == 83,
{
    let bytes = perry_stamp_preimage(stat);
    let digest = outside::sha256(bytes.as_slice());
    proof {
        reveal_strlit("cook-perry-version/");
    }
    stamp_of_digest(digest.as_slice())
}

/// What follows the last slash of a key: the name of the file that the binary
/// is materialized under.
pub fn key_tail(key: &str) -> (r: String)
    ensures
        r@ == tail(key@),
{
    let v = text::chars_of(key);
    let n = v.len();
    let mut from: usize = n;
    assert(v@.subrange(n as int, n as int) == Seq::<char>::empty());
    assert(v@.take(n as int) == v@);
    while from > 0 && v[from - 1] != '/'
        invariant
            from <= n == v@.len(),
            tail(v@) == tail(v@.take(from as int)) + v@.subrange(from as int, n as int),
        decreases from,
    {
        assert(v@.take(from as int).drop_last() == v@.take(from - 1));
        assert(tail(v@.take(from - 1)).push(v@[from - 1]) + v@.subrange(from as int, n as int)
            == tail(v@.take(from - 1)) + v@.subrange(from - 1, n as int));
        from -= 1;
    }
    assert(tail(v@.take(from as int)) == Seq::<char>::empty());
    assert(Seq::<char>::empty() + v@.subrange(from as int, n as int) == v@.subrange(
        from as int,
        n as int,
    ));
    text::text_of(&v, from, n)
}

/// The key of the verdict that belongs to a binary's key: the same digest under
/// another prefix.
pub fn verdict_key(key: &str) -> (r: String)
    ensures
        r@ == verdict_text(key@),
{
    let t = key_tail(key);
    text::concat("cook-verdict/", t.as_str())
}

// ---------------------------------------------------------------------------
// Laws
// ---------------------------------------------------------------------------

proof fn lemma_marks()
    ensures
        version_mark().len() == 7,
        version_mark()[6] == 0,
        flags_mark().len() == 7,
        flags_mark()[6] == 0,
{
    reveal_strlit("\0perry\0");
    reveal_strlit("\0flags\0");
    is_ascii_chars_encode_utf8("\0perry\0"@);
    is_ascii_chars_encode_utf8("\0flags\0"@);
}

/// No zero byte.
pub open spec fn no_zero(bytes: Seq<u8>) -> bool {
    forall|i: int| 0 <= i < bytes.len() ==> bytes[i] != 0
}

/// In the mark followed by the version, the mark occurs once only.
pub open spec fn mark_occurs_once(version: Seq<char>) -> bool {
    let row = version_mark() + encode_utf8(version);
    forall|k: int|
        0 < k && k + version_mark().len() <= row.len() ==> #[trigger] row.subrange(
            k,
            k + version_mark().len(),
        ) != version_mark()
}

/// Cutting the same number of bytes off the end of two equal rows.
proof fn lemma_cut_end(a: Seq<u8>, b: Seq<u8>, x: Seq<u8>, y: Seq<u8>)
    requires
        a + x == b + y,
        x.len() == y.len(),
    ensures
        a == b,
        x == y,
{
    let n = a.len() as int;
    assert((a + x).len() == a.len() + x.len());
    assert((b + y).len() == b.len() + y.len());
    assert(a =~= (a + x).take(n));
    assert(b =~= (b + y).take(n));
    assert(x =~= (a + x).skip(n));
    assert(y =~= (b + y).skip(n));
}

/// What follows the last zero byte of two equal rows is the same.
proof fn lemma_after_last_zero(a: Seq<u8>, b: Seq<u8>, x: Seq<u8>, y: Seq<u8>)
    requires
        a + x == b + y,
        a.len() > 0,
        b.len() > 0,
        a.last() == 0,
        b.last() == 0,
        no_zero(x),
        no_zero(y),
    ensures
        a == b,
        x == y,
{
    let row = a + x;
    assert(row.len() == a.len() + x.len() == b.len() + y.len());
    assert(row[a.len() - 1] == 0);
    assert((b + y)[b.len() - 1] == 0);
    if a.len() < b.len() {
        assert(row[b.len() - 1] == x[b.len() - 1 - a.len()]);
    } else if b.len() < a.len() {
        assert((b + y)[a.len() - 1] == y[a.len() - 1 - b.len()]);
    }
    lemma_cut_end(a, b, x, y);
}

proof fn lemma_utf8_injective(a: Seq<char>, b: Seq<char>)
    requires
        encode_utf8(a) == encode_utf8(b),
    ensures
        a == b,
{
    encode_utf8_decode_utf8(a);
    encode_utf8_decode_utf8(b);
}

/// Any change to the source or to the compiler's version changes what the key is
/// the digest of: a source that happens to end like a version cannot pass for
/// another pair. The version next to the shorter source must not itself hold the
/// mark that precedes it; one without a zero byte does not.
pub proof fn law_source_and_version_are_told_apart(
    source1: Seq<u8>,
    version1: Seq<char>,
    source2: Seq<u8>,
    version2: Seq<char>,
    flags: Seq<Seq<char>>,
)
    requires
        source1.len() <= source2.len(),
        mark_occurs_once(version1),
        preimage(source1, version1, flags) == preimage(source2, version2, flags),
    ensures
        source1 == source2,
        version1 == version2,
{
    lemma_marks();
    let p = encode_utf8("nub-cook-v1\0"@);
    let f = flags_mark() + encode_utf8(text::joined(flags, " "@));
    let m = version_mark();
    let v1 = encode_utf8(version1);
    let v2 = encode_utf8(version2);
    assert(preimage(source1, version1, flags) =~= (p + source1 + m + v1) + f);
    assert(preimage(source2, version2, flags) =~= (p + source2 + m + v2) + f);
    lemma_cut_end(p + source1 + m + v1, p + source2 + m + v2, f, f);
    let row = p + source1 + m + v1;
    let at: int = (p.len() + source2.len()) as int;
    let k = source2.len() - source1.len();
    assert(row.len() == (p + source2 + m + v2).len());
    if k > 0 {
        assert((p + source2 + m + v2).subrange(at, at + m.len()) =~= m);
        assert(row.subrange(at, at + m.len()) =~= (m + v1).subrange(k, k + m.len()));
        assert(false);
    }
    lemma_cut_end(p + source1 + m, p + source2 + m, v1, v2);
    lemma_cut_end(p + source1, p + source2, m, m);
    assert(source1 =~= (p + source1).skip(p.len() as int));
    assert(source2 =~= (p + source2).skip(p.len() as int));
    lemma_utf8_injective(version1, version2);
}

/// A version without a zero byte does not hold the mark.
pub proof fn law_plain_version_holds_no_mark(version: Seq<char>)
    requires
        no_zero(encode_utf8(version)),
    ensures
        mark_occurs_once(version),
{
    lemma_marks();
    let m = version_mark();
    let v = encode_utf8(version);
    let row = m + v;
    assert forall|k: int| 0 < k && k + m.len() <= row.len() implies #[trigger] row.subrange(
        k,
        k + m.len(),
    ) != m by {
        assert(row.subrange(k, k + m.len())[6] == row[k + 6]);
        assert(row[k + 6] == v[k - 1]);
    }
}

/// Any change to the source, to the compiler's version or to the flags as they
/// are written on a command line changes what the key is the digest of, as long
/// as versions and flags hold no zero byte.
pub proof fn law_every_change_changes_the_preimage(
    source1: Seq<u8>,
    version1: Seq<char>,
    flags1: Seq<Seq<char>>,
    source2: Seq<u8>,
    version2: Seq<char>,
    flags2: Seq<Seq<char>>,
)
    requires
        no_zero(encode_utf8(version1)),
        no_zero(encode_utf8(version2)),
        no_zero(encode_utf8(text::joined(flags1, " "@))),
        no_zero(encode_utf8(text::joined(flags2, " "@))),
        preimage(source1, version1, flags1) == preimage(source2, version2, flags2),
    ensures
        source1 == source2,
        version1 == version2,
        text::joined(flags1, " "@) == text::joined(flags2, " "@),
{
    lemma_marks();
    let p = encode_utf8("nub-cook-v1\0"@);
    let m = version_mark();
    let n = flags_mark();
    let v1 = encode_utf8(version1);
    let v2 = encode_utf8(version2);
    let f1 = encode_utf8(text::joined(flags1, " "@));
    let f2 = encode_utf8(text::joined(flags2, " "@));
    lemma_after_last_zero(p + source1 + m + v1 + n, p + source2 + m + v2 + n, f1, f2);
    lemma_cut_end(p + source1 + m + v1, p + source2 + m + v2, n, n);
    lemma_after_last_zero(p + source1 + m, p + source2 + m, v1, v2);
    lemma_cut_end(p + source1, p + source2, m, m);
    assert(source1 =~= (p + source1).skip(p.len() as int));
    assert(source2 =~= (p + source2).skip(p.len() as int));
    lemma_utf8_injective(version1, version2);
    lemma_utf8_injective(text::joined(flags1, " "@), text::joined(flags2, " "@));
}

/// Two binaries share a key exactly if their preimages share a digest.
pub proof fn law_keys_are_digests(
    source1: Seq<u8>,
    version1: Seq<char>,
    source2: Seq<u8>,
    version2: Seq<char>,
)
    ensures
        key_text(source1, version1) == key_text(source2, version2) <==> outside::sha256_digest(
            preimage(source1, version1, process::flags()),
        ) == outside::sha256_digest(preimage(source2, version2, process::flags())),
{
    let d1 = outside::sha256_digest(preimage(source1, version1, process::flags()));
    let d2 = outside::sha256_digest(preimage(source2, version2, process::flags()));
    if binary_key(d1) == binary_key(d2) {
        lemma_same_prefix("cook/"@, text::hex(d1), text::hex(d2));
        text::law_hex_is_injective(d1, d2);
    }
}

proof fn lemma_same_prefix(p: Seq<char>, a: Seq<char>, b: Seq<char>)
    requires
        p + a == p + b,
    ensures
        a == b,
{
    assert(a =~= (p + a).skip(p.len() as int));
    assert(b =~= (p + b).skip(p.len() as int));
}

/// The tail of a text after a slash, when it holds no slash itself.
proof fn lemma_tail(p: Seq<char>, a: Seq<char>)
    requires
        p.len() > 0,
        p.last() == '/',
        forall|i: int| 0 <= i < a.len() ==> a[i] != '/',
    ensures
        tail(p + a) == a,
    decreases a.len(),
{
    if a.len() == 0 {
        assert(p + a == p);
    } else {
        lemma_tail(p, a.drop_last());
        assert((p + a).drop_last() == p + a.drop_last());
        assert(a.drop_last().push(a.last()) == a);
    }
}

proof fn lemma_hex_has_no_slash(digest: Seq<u8>)
    ensures
        forall|i: int| 0 <= i < text::hex(digest).len() ==> text::hex(digest)[i] != '/',
{
    assert forall|i: int| 0 <= i < text::hex(digest).len() implies text::hex(digest)[i]
        != '/' by {
        let d = if i % 2 == 0 {
            digest[i / 2] as int / 16
        } else {
            digest[i / 2] as int % 16
        };
        assert(text::hex(digest)[i] == text::hex_digit(d));
    }
}

/// A binary's key, the key of its verdict and the name of its file are all made
/// of the same digest: the verdict's key and the file's name can be read off the
/// binary's key.
pub proof fn law_one_digest_names_all(digest: Seq<u8>)
    ensures
        tail(binary_key(digest)) == text::hex(digest),
        verdict_text(binary_key(digest)) == "cook-verdict/"@ + text::hex(digest),
{
    reveal_strlit("cook/");
    lemma_hex_has_no_slash(digest);
    lemma_tail("cook/"@, text::hex(digest));
}

/// A verdict belongs to one source content: two binaries share the key of a
/// verdict, or the name of a file, exactly if they share a key.
pub proof fn law_verdict_follows_content(digest1: Seq<u8>, digest2: Seq<u8>)
    ensures
        verdict_text(binary_key(digest1)) == verdict_text(binary_key(digest2)) <==> binary_key(
            digest1,
        ) == binary_key(digest2),
        tail(binary_key(digest1)) == tail(binary_key(digest2)) <==> binary_key(digest1)
            == binary_key(digest2),
{
    law_one_digest_names_all(digest1);
    law_one_digest_names_all(digest2);
    let h1 = text::hex(digest1);
    let h2 = text::hex(digest2);
    if "cook-verdict/"@ + h1 == "cook-verdict/"@ + h2 {
        lemma_same_prefix("cook-verdict/"@, h1, h2);
    }
    if "cook/"@ + h1 == "cook/"@ + h2 {
        lemma_same_prefix("cook/"@, h1, h2);
    }
}

/// Binaries, verdicts and versions never share a key.
pub proof fn law_namespaces_are_disjoint(digest: Seq<u8>, key: Seq<char>, stamp: Seq<u8>)
    ensures
        binary_key(digest) != verdict_text(key),
        binary_key(digest) != stamp_key(stamp),
        verdict_text(key) != stamp_key(stamp),
{
    reveal_strlit("cook/");
    reveal_strlit("cook-verdict/");
    reveal_strlit("cook-perry-version/");
    assert(binary_key(digest)[4] == '/');
    assert(verdict_text(key)[4] == '-');
    assert(stamp_key(stamp)[4] == '-');
    assert(verdict_text(key)[5] == 'v');
    assert(stamp_key(stamp)[5] == 'p');
}

/// The first number too large for `count` bytes.
spec fn pow256(count: nat) -> nat
    decreases count,
{
    if count == 0 {
        1
    } else {
        256 * pow256((count - 1) as nat)
    }
}

proof fn lemma_le_bytes_len(n: nat, count: nat)
    ensures
        le_bytes(n, count).len() == count,
    decreases count,
{
    if count > 0 {
        lemma_le_bytes_len(n / 256, (count - 1) as nat);
    }
}

proof fn lemma_le_bytes_injective(a: nat, b: nat, count: nat)
    requires
        a < pow256(count),
        b < pow256(count),
        le_bytes(a, count) == le_bytes(b, count),
    ensures
        a == b,
    decreases count,
{
    if count > 0 {
        let rest = (count - 1) as nat;
        let x = le_bytes(a, count);
        let y = le_bytes(b, count);
        assert(x[0] == (a % 256) as u8 && y[0] == (b % 256) as u8);
        assert(le_bytes(a / 256, rest) =~= x.skip(1));
        assert(le_bytes(b / 256, rest) =~= y.skip(1));
        lemma_le_bytes_injective(a / 256, b / 256, rest);
    }
}

/// A remembered version is never taken for that of another `perry`: a change of
/// path, of the time of the last change or of size changes what the stamp is the
/// digest of.
pub proof fn law_upgrade_changes_the_stamp(a: PerryStat<Seq<char>>, b: PerryStat<Seq<char>>)
    requires
        stamp_preimage(a) == stamp_preimage(b),
    ensures
        a == b,
{
    let pa = encode_utf8(a.path);
    let pb = encode_utf8(b.path);
    let ma = le_bytes(a.mtime as nat, 16);
    let mb = le_bytes(b.mtime as nat, 16);
    let la = le_bytes(a.len as nat, 8);
    let lb = le_bytes(b.len as nat, 8);
    let z = seq![0u8];
    lemma_le_bytes_len(a.mtime as nat, 16);
    lemma_le_bytes_len(b.mtime as nat, 16);
    lemma_le_bytes_len(a.len as nat, 8);
    lemma_le_bytes_len(b.len as nat, 8);
    lemma_cut_end(pa + z + ma + z, pb + z + mb + z, la, lb);
    lemma_cut_end(pa + z + ma, pb + z + mb, z, z);
    lemma_cut_end(pa + z, pb + z, ma, mb);
    lemma_cut_end(pa, pb, z, z);
    lemma_utf8_injective(a.path, b.path);
    reveal_with_fuel(pow256, 17);
    lemma_le_bytes_injective(a.mtime as nat, b.mtime as nat, 16);
    lemma_le_bytes_injective(a.len as nat, b.len as nat, 8);
}

/// The key of a binary is the digest of all of the source, all of the version and
/// the flags, each set off from the one before.
pub proof fn law_key_is_the_digest_of_source_version_and_flags(
    source: Seq<u8>,
    version: Seq<char>,
    flags: Seq<Seq<char>>,
)
    ensures
        key_text(source, version) == "cook/"@ + text::hex(
            outside::sha256_digest(
                encode_utf8("nub-cook-v1\0"@) + source + encode_utf8("\0perry\0"@) + encode_utf8(
                    version,
                ) + encode_utf8("\0flags\0"@),
            ),
        ),
        preimage(source, version, flags) == encode_utf8("nub-cook-v1\0"@) + source + encode_utf8(
            "\0perry\0"@,
        ) + encode_utf8(version) + encode_utf8("\0flags\0"@) + encode_utf8(
            text::joined(flags, seq![' ']),
        ),
{
    reveal_strlit(" ");
    assert(" "@ =~= seq![' ']);
    let none = Seq::<Seq<char>>::empty();
    assert(text::joined(none, " "@) == Seq::<char>::empty());
    reveal_with_fuel(encode_utf8, 1);
    assert(encode_utf8(Seq::<char>::empty()) =~= Seq::<u8>::empty());
    let head = encode_utf8("nub-cook-v1\0"@) + source + encode_utf8("\0perry\0"@) + encode_utf8(
        version,
    ) + encode_utf8("\0flags\0"@);
    assert(preimage(source, version, process::flags()) =~= head);
}

/// The keys for a digest are its hexadecimal text after a prefix.
pub proof fn law_keys_are_prefix_and_digest(digest: Seq<u8>, key: Seq<char>)
    ensures
        binary_key(digest) == "cook/"@ + text::hex(digest),
        stamp_key(digest) == "cook-perry-version/"@ + text::hex(digest),
        verdict_text(key) == "cook-verdict/"@ + tail(key),
{
}

/// The tail of a key is what follows its last slash: no slash is in it, and what
/// comes before it ends with one or is nothing.
pub proof fn law_tail_follows_the_last_slash(key: Seq<char>)
    ensures
        !tail(key).contains('/'),
        exists|head: Seq<char>|
            key == #[trigger] (head + tail(key)) && (head.len() == 0 || head.last() == '/'),
    decreases key.len(),
{
    if key.len() == 0 || key.last() == '/' {
        assert(key =~= key + tail(key));
    } else {
        law_tail_follows_the_last_slash(key.drop_last());
        let before = tail(key.drop_last());
        let head = choose|head: Seq<char>|
            key.drop_last() == #[trigger] (head + before) && (head.len() == 0 || head.last()
                == '/');
        assert(key == key.drop_last().push(key.last()));
        assert((head + before).push(key.last()) == head + tail(key));
        assert forall|i: int| 0 <= i < tail(key).len() implies tail(key)[i] != '/' by {
            if i < before.len() {
                assert(before.contains(before[i]));
            }
        }
    }
}

/// The bytes of a number, the lowest first, stand for it: each byte weighs 256
/// times the one before.
pub proof fn law_bytes_stand_for_the_number(n: nat, count: nat)
    ensures
        le_bytes(n, count).len() == count,
        count > 0 ==> le_bytes(n, count)[0] == n % 256,
        count > 0 ==> le_bytes(n, count).drop_first() == le_bytes(n / 256, (count - 1) as nat),
{
    lemma_le_bytes_len(n, count);
    if count > 0 {
        assert(le_bytes(n, count).drop_first() =~= le_bytes(n / 256, (count - 1) as nat));
    }
}

/// The stamp of a `perry` is the digest of all of its path, the time of its last
/// change in 16 bytes and its size in 8, with a zero byte after each of the first
/// two.
pub proof fn law_stamp_is_the_digest_of_path_time_and_size(stat: PerryStat<Seq<char>>)
    ensures
        stamp_text(stat) == "cook-perry-version/"@ + text::hex(
            outside::sha256_digest(
                encode_utf8(stat.path).push(0) + le_bytes(stat.mtime as nat, 16).push(0)
                    + le_bytes(stat.len as nat, 8),
            ),
        ),
{
    assert(stamp_preimage(stat) =~= encode_utf8(stat.path).push(0) + le_bytes(
        stat.mtime as nat,
        16,
    ).push(0) + le_bytes(stat.len as nat, 8));
}

/// What the file system says is seen in full.
pub proof fn law_stat_is_seen_in_full(stat: PerryStat<String>)
    ensures
        stat@.path == stat.path@,
        stat@.mtime == stat.mtime,
        stat@.len == stat.len,
{
}

} // verus!
