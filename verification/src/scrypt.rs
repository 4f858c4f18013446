//! Password hashing with scrypt, through the `crypto` crate, and the layout
//! of the hashes that this service stores.
use vstd::prelude::*;

use crypto::scrypt::{scrypt_check, scrypt_simple, ScryptParams};

verus! {

#[verifier::external_type_specification]
#[verifier::external_body]
pub struct ExIoError(std::io::Error);

/// The scrypt cost parameters under which passwords are hashed:
/// N = 2^14, r = 8, p = 1.
pub const HASH_LOG_N: u8 = 14;
pub const HASH_R: u32 = 8;
pub const HASH_P: u32 = 1;

/// The character that the standard base64 alphabet uses for `v` in 0..64.
pub open spec fn base64_char(v: int) -> char {
    if v < 26 {
        (65 + v) as char
    } else if v < 52 {
        (97 + (v - 26)) as char
    } else if v < 62 {
        (48 + (v - 52)) as char
    } else if v == 62 {
        '+'
    } else {
        '/'
    }
}

/// A character of the standard base64 alphabet (padding excluded).
pub open spec fn is_base64_digit(c: char) -> bool {
    ||| 65 <= c as u32 <= 90
    ||| 97 <= c as u32 <= 122
    ||| 48 <= c as u32 <= 57
    ||| c == '+'
    ||| c == '/'
}

/// The standard base64 encoding of the three bytes `a`, `b`, `c`.
pub open spec fn base64_of_three(a: int, b: int, c: int) -> Seq<char> {
    seq![
        base64_char(a / 4),
        base64_char((a % 4) * 16 + b / 16),
        base64_char((b % 16) * 4 + c / 64),
        base64_char(c % 64),
    ]
}

/// The fixed head of a compact ("format 0") hash: `$rscrypt$0$`.
pub open spec fn rscrypt_head() -> Seq<char> {
    seq!['$', 'r', 's', 'c', 'r', 'y', 'p', 't', '$', '0', '$']
}

/// Whether `c` may stand at position `i` of a compact hash whose
/// parameter block is `params`:
/// `$rscrypt$0$<params>$<salt: 22 digits and "==">$<key: 43 digits and "=">$`.
pub open spec fn hash_char_fits(c: char, i: int, params: Seq<char>) -> bool {
    if i < 11 {
        c == rscrypt_head()[i]
    } else if i < 15 {
        c == params[i - 11]
    } else if i == 15 || i == 40 || i == 85 {
        c == '$'
    } else if i < 38 {
        is_base64_digit(c)
    } else if i < 40 {
        c == '='
    } else if i < 84 {
        is_base64_digit(c)
    } else {
        c == '='
    }
}

/// The layout of what scrypt_simple returns in its compact format for the
/// parameters `(log_n, r, p)`: a 16-byte salt and a 32-byte derived key,
/// each in padded standard base64.
pub open spec fn compact_hash_layout(h: Seq<char>, log_n: int, r: int, p: int) -> bool {
    &&& h.len() == 86
    &&& forall|i: int|
        0 <= i < 86 ==> #[trigger] hash_char_fits(h[i], i, base64_of_three(log_n, r, p))
}

/// The layout of the hashes that this service stores.
pub open spec fn stored_hash_layout(h: Seq<char>) -> bool {
    compact_hash_layout(h, HASH_LOG_N as int, HASH_R as int, HASH_P as int)
}

/// The conditions of `crypto::scrypt::ScryptParams::new(log_n, r, p)`:
/// on any other parameters it panics.
pub open spec fn scrypt_params_valid(log_n: int, r: int, p: int) -> bool {
    &&& r > 0
    &&& p > 0
    &&& log_n > 0
    &&& log_n < usize::BITS
    &&& r * 128 * vstd::arithmetic::power2::pow2(log_n as nat) <= usize::MAX
    &&& r * 128 * p <= usize::MAX
    &&& log_n < r * 16
    &&& r * p < 0x40000000
}

/// `scrypt_params_valid` on the integer types of `ScryptParams::new`.
pub open spec fn valid_scrypt_params(log_n: u8, r: u32, p: u32) -> bool {
    scrypt_params_valid(log_n as int, r as int, p as int)
}

/// The state after splitting `h[0..i]` at each `$`, as `str::split('$')`
/// does: the segments closed so far, and the one being read.
pub open spec fn split_state(h: Seq<char>, i: int) -> (Seq<Seq<char>>, Seq<char>)
    decreases i,
{
    if i <= 0 {
        (Seq::empty(), Seq::empty())
    } else {
        let (done, cur) = split_state(h, i - 1);
        if h[i - 1] == '$' {
            (done.push(cur), Seq::empty())
        } else {
            (done, cur.push(h[i - 1]))
        }
    }
}

/// The segments of `h` between its `$` characters.
pub open spec fn dollar_segments(h: Seq<char>) -> Seq<Seq<char>> {
    let (done, cur) = split_state(h, h.len() as int);
    done.push(cur)
}

/// What the base64 decoder of `rustc-serialize` makes of a character:
/// its sextet (both the standard and the URL-safe alphabet), -2 for a line
/// break that it skips, -3 for the padding `=`, -1 for anything else.
pub open spec fn base64_code(c: char) -> int {
    let v = c as u32;
    if 65 <= v <= 90 {
        v - 65
    } else if 97 <= v <= 122 {
        v - 71
    } else if 48 <= v <= 57 {
        v + 4
    } else if v == 43 || v == 45 {
        62
    } else if v == 47 || v == 95 {
        63
    } else if v == 10 || v == 13 {
        -2
    } else if v == 61 {
        -3
    } else {
        -1
    }
}

/// The state of that decoder after `s[0..i]`: whether it has failed,
/// whether it has met the padding, and the sextets read before it.
pub open spec fn base64_state(s: Seq<char>, i: int) -> (bool, bool, Seq<int>)
    decreases i,
{
    if i <= 0 {
        (false, false, Seq::empty())
    } else {
        let (failed, padded, sextets) = base64_state(s, i - 1);
        let code = base64_code(s[i - 1]);
        if failed {
            (failed, padded, sextets)
        } else if padded {
            (code != -3 && code != -2, padded, sextets)
        } else if code == -2 {
            (failed, padded, sextets)
        } else if code == -3 {
            (failed, true, sextets)
        } else if code == -1 {
            (true, padded, sextets)
        } else {
            (failed, padded, sextets.push(code))
        }
    }
}

/// The sextets that the decoder reads from `s`.
pub open spec fn base64_sextets(s: Seq<char>) -> Seq<int> {
    base64_state(s, s.len() as int).2
}

/// Whether the decoder accepts `s`: no stray character, and not a single
/// sextet left over at the end.
pub open spec fn base64_decodes(s: Seq<char>) -> bool {
    &&& !base64_state(s, s.len() as int).0
    &&& base64_sextets(s).len() % 4 != 1
}

/// The number of bytes that the decoder makes of `s`.
pub open spec fn base64_decoded_len(s: Seq<char>) -> int {
    let d = base64_sextets(s).len() as int;
    (d / 4) * 3 + if d % 4 == 2 {
        1int
    } else if d % 4 == 3 {
        2int
    } else {
        0int
    }
}

/// Byte `k` of what the sextets `d` decode to, within whole groups of four.
pub open spec fn base64_byte(d: Seq<int>, k: int) -> int {
    let g = k / 3;
    let a = d[4 * g];
    let b = d[4 * g + 1];
    let c = d[4 * g + 2];
    let e = d[4 * g + 3];
    if k % 3 == 0 {
        a * 4 + b / 16
    } else if k % 3 == 1 {
        (b % 16) * 16 + c / 4
    } else {
        (c % 4) * 64 + e
    }
}

/// The little-endian 32-bit value of bytes `k..k+4` of what `d` decodes to.
pub open spec fn base64_le32(d: Seq<int>, k: int) -> int {
    base64_byte(d, k) + base64_byte(d, k + 1) * 256 + base64_byte(d, k + 2) * 65536
        + base64_byte(d, k + 3) * 16777216
}

/// The name segment of a hash: `rscrypt`.
pub open spec fn rscrypt_name() -> Seq<char> {
    seq!['r', 's', 'c', 'r', 'y', 'p', 't']
}

/// The parameters with which `scrypt_check` calls `ScryptParams::new` on
/// `hash`, or `None` where it returns an error before that call: the
/// hash must start `$rscrypt$`, then a format `0` with a parameter block
/// decoding to 3 bytes (log_n, r, p) or a format `1` with one decoding to 9
/// bytes (log_n, then r and p little-endian).
pub open spec fn scrypt_check_params(hash: Seq<char>) -> Option<(int, int, int)> {
    let s = dollar_segments(hash);
    if s.len() >= 4 && s[0].len() == 0 && s[1] == rscrypt_name() && base64_decodes(s[3]) {
        let d = base64_sextets(s[3]);
        if s[2] == seq!['0'] && d.len() == 4 {
            Some((base64_byte(d, 0), base64_byte(d, 1), base64_byte(d, 2)))
        } else if s[2] == seq!['1'] && d.len() == 12 {
            Some((base64_byte(d, 0), base64_le32(d, 1), base64_le32(d, 5)))
        } else {
            None
        }
    } else {
        None
    }
}

/// The length of the key that `scrypt_check` derives for `hash` once its
/// parameters are built, or `None` where it returns an error first: salt
/// and key must decode, and the hash must end with its last `$`.
pub open spec fn scrypt_check_key_len(hash: Seq<char>) -> Option<int> {
    let s = dollar_segments(hash);
    if s.len() == 7 && base64_decodes(s[4]) && base64_decodes(s[5]) && s[6].len() == 0 {
        Some(base64_decoded_len(s[5]))
    } else {
        None
    }
}

/// The hashes on which `crypto::scrypt::scrypt_check` returns rather than
/// panics: the parameters it builds, if it gets that far, meet
/// `ScryptParams::new`, and the key it derives, if it gets that far, is
/// neither empty nor longer than scrypt allows.
pub open spec fn scrypt_check_completes(hash: Seq<char>) -> bool {
    match scrypt_check_params(hash) {
        Some((log_n, r, p)) => {
            &&& scrypt_params_valid(log_n, r, p)
            &&& (scrypt_check_key_len(hash) matches Some(k) ==> 1 <= k && k / 32 <= 0xffffffff)
        },
        None => true,
    }
}

/// What `crypto::scrypt::scrypt_check(password, hash)` returns, with its
/// error taken as `None`: whether `password` hashes, under the salt and
/// parameters written in `hash`, to the key written in `hash`.
pub uninterp spec fn scrypt_check_verdict(password: Seq<char>, hash: Seq<char>) -> Option<bool>;

/// Hashes `password` with `crypto::scrypt::scrypt_simple` under the
/// parameters that `crypto::scrypt::ScryptParams::new(log_n, r, p)` builds.
///
/// Claimed: `ScryptParams::new` does not panic on parameters that meet its
/// assertions; on success `scrypt_simple` returns a hash that
/// `scrypt_check` accepts for the same password (its documentation says
/// so), on which `scrypt_check` therefore returns, and, where `r` and `p`
/// fit in a byte, the hash is in the compact format that its source
/// writes. The salt is drawn at random, so which hash comes back, and
/// whether the random source fails (a failure after it was opened panics),
/// is not stated.
#[verifier::external_body]
pub(crate) fn scrypt_simple_hash(password: &str, log_n: u8, r: u32, p: u32) -> (res: Result<
    String,
    std::io::Error,
>)
    requires
        valid_scrypt_params(log_n, r, p),
    ensures
        res matches Ok(h) ==> scrypt_check_verdict(password@, h@) == Some(true),
        res matches Ok(h) ==> scrypt_check_completes(h@),
        res matches Ok(h) ==> (r < 256 && p < 256 ==> compact_hash_layout(
            h@,
            log_n as int,
            r as int,
            p as int,
        )),
{
    scrypt_simple(password, &ScryptParams::new(log_n, r, p))
}

/// Checks `password` against `hash` with `crypto::scrypt::scrypt_check`,
/// its error taken as `None`.
///
/// Claimed: the result is `scrypt_check_verdict` of the two. The call
/// panics exactly outside `scrypt_check_completes`, which the `requires`
/// leaves out. How much memory and time it takes grows with the N and r
/// written in the hash; that an allocation of that size succeeds is not
/// stated.
#[verifier::external_body]
pub(crate) fn scrypt_check_password(password: &str, hash: &str) -> (verdict: Option<bool>)
    requires
        scrypt_check_completes(hash@),
    ensures
        verdict == scrypt_check_verdict(password@, hash@),
{
    scrypt_check(password, hash).ok()
}

/// `scrypt_check` returns on every hash whose parameters meet the
/// assertions of `ScryptParams::new` (written out here) and whose key, where
/// the check gets that far, is neither empty nor too long, whatever N it
/// asks for; and on every hash it refuses before building parameters. It
/// panics only on the others.
pub proof fn lemma_check_completes_exactly_off_the_panics(hash: Seq<char>)
    ensures
        scrypt_check_params(hash) is None ==> scrypt_check_completes(hash),
        scrypt_check_params(hash) matches Some((log_n, r, p)) ==> (scrypt_check_completes(hash)
            <==> {
            &&& 0 < r
            &&& 0 < p
            &&& 0 < log_n < usize::BITS
            &&& r * 128 * vstd::arithmetic::power2::pow2(log_n as nat) <= usize::MAX
            &&& r * 128 * p <= usize::MAX
            &&& log_n < r * 16
            &&& r * p < 0x40000000
            &&& (scrypt_check_key_len(hash) matches Some(k) ==> 1 <= k && k / 32 <= 0xffffffff)
        }),
{
}

/// The stored parameters meet the assertions of `ScryptParams::new`.
pub proof fn lemma_stored_params()
    ensures
        valid_scrypt_params(HASH_LOG_N, HASH_R, HASH_P),
{
    vstd::arithmetic::power2::lemma2_to64();
    assert(vstd::arithmetic::power2::pow2(14) == 16384);
    assert(8 * 128 * vstd::arithmetic::power2::pow2(14) <= usize::MAX);
}

/// The characters of `s`.
fn chars_of(s: &str) -> (v: Vec<char>)
    ensures
        v@ == s@,
{
    let mut v: Vec<char> = Vec::new();
    for c in it: s.chars()
        invariant
            v@ == it.seq().take(it.index() as int),
    {
        v.push(c);
    }
    proof {
        broadcast use vstd::string::axiom_spec_iter;
    }
    assert(v@ =~= s@);
    v
}

/// The views of a list of character vectors.
pub open spec fn views_of(v: Seq<Vec<char>>) -> Seq<Seq<char>> {
    v.map_values(|x: Vec<char>| x@)
}

/// The segments of `h` between its `$` characters.
fn split_dollar(h: &Vec<char>) -> (segs: Vec<Vec<char>>)
    ensures
        views_of(segs@) == dollar_segments(h@),
{
    let mut done: Vec<Vec<char>> = Vec::new();
    let mut cur: Vec<char> = Vec::new();
    let mut i: usize = 0;
    while i < h.len()
        invariant
            0 <= i <= h@.len(),
            (views_of(done@), cur@) == split_state(h@, i as int),
        decreases h@.len() - i,
    {
        let c = h[i];
        if c == '$' {
            let ghost before = done@;
            let closed = cur;
            done.push(closed);
            cur = Vec::new();
            assert(views_of(done@) =~= views_of(before).push(closed@));
        } else {
            cur.push(c);
        }
        i = i + 1;
    }
    let ghost before = done@;
    let last = cur;
    done.push(last);
    assert(views_of(done@) =~= views_of(before).push(last@));
    done
}

/// `base64_code` of `c`.
fn base64_code_of(c: char) -> (r: i8)
    ensures
        r as int == base64_code(c),
{
    let v: u32 = c as u32;
    if 65 <= v && v <= 90 {
        (v - 65) as i8
    } else if 97 <= v && v <= 122 {
        (v - 71) as i8
    } else if 48 <= v && v <= 57 {
        (v + 4) as i8
    } else if v == 43 || v == 45 {
        62
    } else if v == 47 || v == 95 {
        63
    } else if v == 10 || v == 13 {
        -2
    } else if v == 61 {
        -3
    } else {
        -1
    }
}

/// The sextets of a base64 segment as integers.
pub open spec fn sextets_of(v: Seq<u8>) -> Seq<int> {
    v.map_values(|x: u8| x as int)
}

/// Whether the base64 decoder accepts `s`, and the sextets it reads.
fn base64_scan(s: &Vec<char>) -> (r: (bool, Vec<u8>))
    ensures
        r.0 == base64_decodes(s@),
        sextets_of(r.1@) == base64_sextets(s@),
        forall|j: int| 0 <= j < r.1@.len() ==> r.1@[j] < 64,
{
    let mut failed = false;
    let mut padded = false;
    let mut sextets: Vec<u8> = Vec::new();
    let mut i: usize = 0;
    while i < s.len()
        invariant
            0 <= i <= s@.len(),
            (failed, padded, sextets_of(sextets@)) == base64_state(s@, i as int),
            forall|j: int| 0 <= j < sextets@.len() ==> sextets@[j] < 64,
        decreases s@.len() - i,
    {
        let code = base64_code_of(s[i]);
        if failed {
        } else if padded {
            failed = code != -3 && code != -2;
        } else if code == -2 {
        } else if code == -3 {
            padded = true;
        } else if code == -1 {
            failed = true;
        } else {
            let ghost before = sextets@;
            sextets.push(code as u8);
            assert(sextets_of(sextets@) =~= sextets_of(before).push(code as int));
        }
        i = i + 1;
    }
    (!failed && sextets.len() % 4 != 1, sextets)
}

/// `base64_byte` of the sextets `d`.
fn sextet_byte(d: &Vec<u8>, k: usize) -> (b: u32)
    requires
        4 * (k / 3) + 3 < d@.len(),
        forall|j: int| 0 <= j < d@.len() ==> d@[j] < 64,
    ensures
        b as int == base64_byte(sextets_of(d@), k as int),
        b < 256,
{
    let g = k / 3;
    let n: usize = d.len();
    assert(4 * g + 3 < n);
    let base: usize = 4 * g;
    let a = d[base] as u32;
    let b = d[base + 1] as u32;
    let c = d[base + 2] as u32;
    let e = d[base + 3] as u32;
    if k % 3 == 0 {
        a * 4 + b / 16
    } else if k % 3 == 1 {
        (b % 16) * 16 + c / 4
    } else {
        (c % 4) * 64 + e
    }
}

/// Whether `ScryptParams::new(log_n, r, p)` accepts its parameters.
fn scrypt_params_ok(log_n: u64, r: u64, p: u64) -> (b: bool)
    requires
        log_n < 256,
        r < 0x1_0000_0000,
        p < 0x1_0000_0000,
    ensures
        b == scrypt_params_valid(log_n as int, r as int, p as int),
{
    if r == 0 || p == 0 || log_n == 0 || log_n >= usize::BITS as u64 {
        return false;
    }
    let max: u128 = usize::MAX as u128;
    let r128: u128 = r as u128 * 128;
    proof {
        vstd::arithmetic::power2::lemma2_to64();
    }
    if r128 > max {
        proof {
            vstd::arithmetic::power2::lemma_pow2_pos(log_n as nat);
            assert(r128 <= r128 * vstd::arithmetic::power2::pow2(log_n as nat)) by (nonlinear_arith)
                requires
                    vstd::arithmetic::power2::pow2(log_n as nat) > 0,
                    r128 >= 0,
            ;
        }
        return false;
    }
    let mut m: u128 = r128;
    let mut i: u64 = 0;
    while i < log_n
        invariant
            0 <= i <= log_n,
            log_n < 256,
            max == usize::MAX,
            r128 == r * 128,
            m == r128 * vstd::arithmetic::power2::pow2(i as nat),
            m <= max,
        decreases log_n - i,
    {
        proof {
            vstd::arithmetic::power2::lemma_pow2_unfold((i + 1) as nat);
        }
        let doubled: u128 = m * 2;
        assert(doubled == r128 * vstd::arithmetic::power2::pow2((i + 1) as nat)) by (nonlinear_arith)
            requires
                m == r128 * vstd::arithmetic::power2::pow2(i as nat),
                vstd::arithmetic::power2::pow2((i + 1) as nat) == 2 * vstd::arithmetic::power2::pow2(
                    i as nat,
                ),
                doubled == m * 2,
        ;
        if doubled > max {
            proof {
                let e1 = (i + 1) as nat;
                let e2 = log_n as nat;
                if e1 < e2 {
                    vstd::arithmetic::power2::lemma_pow2_strictly_increases(e1, e2);
                }
                assert(r128 * vstd::arithmetic::power2::pow2(e1) <= r128
                    * vstd::arithmetic::power2::pow2(e2)) by (nonlinear_arith)
                    requires
                        vstd::arithmetic::power2::pow2(e1) <= vstd::arithmetic::power2::pow2(e2),
                        r128 >= 0,
                ;
            }
            return false;
        }
        m = doubled;
        i = i + 1;
    }
    assert(r128 * (p as u128) < 0x1_0000_0000_0000_0000_0000) by (nonlinear_arith)
        requires
            r128 <= 0x1_0000_0000 * 128,
            p < 0x1_0000_0000,
    ;
    if r128 * (p as u128) > max {
        return false;
    }
    assert((r as u128) * (p as u128) < 0x1_0000_0000_0000_0000) by (nonlinear_arith)
        requires
            r < 0x1_0000_0000,
            p < 0x1_0000_0000,
    ;
    log_n < r * 16 && (r as u128) * (p as u128) < 0x40000000
}

/// Whether `crypto::scrypt::scrypt_check` returns on `hash`, rather than
/// panicking on the parameters or the key that `hash` holds.
pub fn scrypt_check_completes_on(hash: &str) -> (b: bool)
    ensures
        b == scrypt_check_completes(hash@),
        scrypt_check_params(hash@) is None ==> b,
        scrypt_check_params(hash@) matches Some((log_n, r, p)) ==> (b <==> {
            &&& 0 < r
            &&& 0 < p
            &&& 0 < log_n < usize::BITS
            &&& r * 128 * vstd::arithmetic::power2::pow2(log_n as nat) <= usize::MAX
            &&& r * 128 * p <= usize::MAX
            &&& log_n < r * 16
            &&& r * p < 0x40000000
            &&& (scrypt_check_key_len(hash@) matches Some(k) ==> 1 <= k && k / 32 <= 0xffffffff)
        }),
{
    let chars = chars_of(hash);
    let segs = split_dollar(&chars);
    let ghost s = dollar_segments(hash@);
    if segs.len() < 4 {
        return true;
    }
    assert(segs@[0]@ == s[0] && segs@[1]@ == s[1] && segs@[2]@ == s[2] && segs@[3]@ == s[3]);
    if segs[0].len() != 0 {
        return true;
    }
    let name = &segs[1];
    if !(name.len() == 7 && name[0] == 'r' && name[1] == 's' && name[2] == 'c' && name[3] == 'r'
        && name[4] == 'y' && name[5] == 'p' && name[6] == 't') {
        assert(s[1] != rscrypt_name()) by {
            if s[1] == rscrypt_name() {
                assert(name@ == rscrypt_name());
            }
        }
        return true;
    }
    assert(s[1] =~= rscrypt_name());
    let (params_ok, d) = base64_scan(&segs[3]);
    if !params_ok {
        return true;
    }
    let format = &segs[2];
    let compact = format.len() == 1 && format[0] == '0';
    let expanded = format.len() == 1 && format[0] == '1';
    proof {
        if s[2] == seq!['0'] {
            assert(format@ == seq!['0']);
        }
        if s[2] == seq!['1'] {
            assert(format@ == seq!['1']);
        }
        if compact {
            assert(s[2] =~= seq!['0']);
        }
        if expanded {
            assert(s[2] =~= seq!['1']);
        }
    }
    let (log_n, r, p) = if compact && d.len() == 4 {
        (sextet_byte(&d, 0) as u64, sextet_byte(&d, 1) as u64, sextet_byte(&d, 2) as u64)
    } else if expanded && d.len() == 12 {
        let r: u64 = sextet_byte(&d, 1) as u64 + sextet_byte(&d, 2) as u64 * 256 + sextet_byte(&d, 3) as u64
            * 65536 + sextet_byte(&d, 4) as u64 * 16777216;
        let p: u64 = sextet_byte(&d, 5) as u64 + sextet_byte(&d, 6) as u64 * 256 + sextet_byte(&d, 7) as u64
            * 65536 + sextet_byte(&d, 8) as u64 * 16777216;
        (sextet_byte(&d, 0) as u64, r, p)
    } else {
        return true;
    };
    assert(scrypt_check_params(hash@) == Some((log_n as int, r as int, p as int)));
    if !scrypt_params_ok(log_n, r, p) {
        return false;
    }
    if segs.len() != 7 || segs[6].len() != 0 {
        return true;
    }
    assert(segs@[4]@ == s[4] && segs@[5]@ == s[5] && segs@[6]@ == s[6]);
    let (salt_ok, _salt) = base64_scan(&segs[4]);
    let (key_ok, key) = base64_scan(&segs[5]);
    if !salt_ok || !key_ok {
        return true;
    }
    let n: usize = key.len();
    let extra: usize = if n % 4 == 2 {
        1
    } else if n % 4 == 3 {
        2
    } else {
        0
    };
    let key_len: usize = (n / 4) * 3 + extra;
    1 <= key_len && key_len / 32 <= 0xffffffff
}

} // verus!
