//! Password hashing and verification: the configured algorithm hashes, the
//! stored hash's own prefix picks the algorithm that verifies.
use vstd::prelude::*;
use vstd::utf8::{decode_utf8, encode_utf8, valid_utf8};
use crate::config::{Config, PasswordHashingAlgo};
use crate::crypto::{
    base64_std_nopad_decode, base64_std_nopad_decoded, bcrypt_hash, bcrypt_hash_valid,
    bcrypt_verify, bcrypt_verify_outcome, generate_salt,
    pbkdf2_hash_valid, pbkdf2_hmac_sha512, pbkdf2_hmac_sha512_bytes, pbkdf2_phc_verifies,
    pbkdf2_sha512_hash, pbkdf2_verify, phc_parse_error, phc_parse_failure, random_bytes_16,
    scrypt_hash, scrypt_hash_valid, scrypt_phc_verifies, scrypt_verify, sha256, sha256_digest,
    starts_with, string_push, utf8_decode,
};

verus! {

/// Password hashing related errors.
#[derive(Debug)]
pub enum PasswordHashError {
    /// Bcrypt error.
    BCrypt { source: bcrypt::BcryptError },
    /// Crypto password-hash crate error (handles scrypt/pbkdf2 formatting).
    CryptoHash(String),
    /// A hashing task could not be joined.
    Join(String),
    /// Non UTF8 data.
    Utf8 { source: core::str::Utf8Error },
}

/// What a [`PasswordHashError`] says, without its outside sources.
pub enum HashErrorKind {
    BCrypt,
    CryptoHash(Seq<char>),
    Join,
    Utf8,
}

impl PasswordHashError {
    /// What the error says.
    pub open spec fn kind(&self) -> HashErrorKind {
        match self {
            PasswordHashError::BCrypt { .. } => HashErrorKind::BCrypt,
            PasswordHashError::CryptoHash(m) => HashErrorKind::CryptoHash(m@),
            PasswordHashError::Join(_) => HashErrorKind::Join,
            PasswordHashError::Utf8 { .. } => HashErrorKind::Utf8,
        }
    }
}

/// A verification result with its error reduced to what the error says.
pub open spec fn outcome_kind(r: Result<bool, PasswordHashError>) -> Result<bool, HashErrorKind> {
    match r {
        Ok(b) => Ok(b),
        Err(e) => Err(e.kind()),
    }
}

/// Whether `b` continues a UTF-8 encoded character.
pub open spec fn continuation_byte(b: u8) -> bool {
    128 <= b < 192
}

/// Where a truncation that starts at `end` ends: it steps back over
/// continuation bytes.
pub open spec fn trunc_end(p: Seq<u8>, end: int) -> int
    decreases end,
{
    if end <= 0 {
        0
    } else if continuation_byte(p[end]) {
        trunc_end(p, end - 1)
    } else {
        end
    }
}

/// `p`, truncated to at most `max` bytes without splitting a character
/// where it was longer.
pub open spec fn truncated_password(p: Seq<u8>, max: int) -> Seq<u8> {
    if p.len() > max {
        p.subrange(0, trunc_end(p, max))
    } else {
        p
    }
}

/// Verify the password length and truncate if necessary: a password longer
/// than `max_length` bytes is cut at `max_length`, stepping back to the start
/// of the character there.
pub fn verify_length_and_trunc_password(password: &[u8], max_length: usize) -> (res: &[u8])
    ensures
        res@ == truncated_password(password@, max_length as int),
        res@.len() <= max_length,
        res@ == password@.subrange(0, res@.len() as int),
        password@.len() <= max_length ==> res@ == password@,
        0 < res@.len() < password@.len() ==> !continuation_byte(password@[res@.len() as int]),
        password@.len() > max_length ==> forall|i: int|
            res@.len() < i <= max_length ==> continuation_byte(#[trigger] password@[i]),
{
    if password.len() > max_length {
        let mut end = max_length;
        while end > 0 && password[end] >= 128 && password[end] < 192
            invariant
                end <= max_length < password@.len(),
                trunc_end(password@, end as int) == trunc_end(password@, max_length as int),
                forall|i: int| end < i <= max_length ==> continuation_byte(#[trigger] password@[i]),
            decreases end,
        {
            end -= 1;
        }
        let (head, _) = password.split_at(end);
        return head;
    }
    password
}

/// The lowercase hex digit for `n` (below 16), as an ASCII byte.
pub open spec fn hex_digit(n: int) -> u8 {
    if n < 10 {
        (48 + n) as u8
    } else {
        (87 + n) as u8
    }
}

/// The lowercase hex text of `d`, as ASCII bytes: two digits per byte.
pub open spec fn hex_lower(d: Seq<u8>) -> Seq<u8> {
    Seq::new(
        2 * d.len(),
        |i: int|
            if i % 2 == 0 {
                hex_digit((d[i / 2] / 16) as int)
            } else {
                hex_digit((d[i / 2] % 16) as int)
            },
    )
}

fn hex_digit_exec(n: u8) -> (res: u8)
    requires
        n < 16,
    ensures
        res == hex_digit(n as int),
{
    if n < 10 {
        48 + n
    } else {
        87 + n
    }
}

/// The lowercase hex text of `d`, as ASCII bytes.
pub fn hex_lower_bytes(d: &[u8]) -> (res: Vec<u8>)
    ensures
        res@ == hex_lower(d@),
{
    let mut res: Vec<u8> = Vec::new();
    let mut i: usize = 0;
    while i < d.len()
        invariant
            i <= d@.len(),
            res@.len() == 2 * i,
            forall|j: int| 0 <= j < 2 * i ==> res@[j] == hex_lower(d@)[j],
        decreases d@.len() - i,
    {
        let b = d[i];
        res.push(hex_digit_exec(b / 16));
        res.push(hex_digit_exec(b % 16));
        assert forall|j: int| 0 <= j < 2 * (i + 1) implies res@[j] == hex_lower(d@)[j] by {
            if j == 2 * i {
                assert(j % 2 == 0 && j / 2 == i);
            } else if j == 2 * i + 1 {
                assert(j % 2 == 1 && j / 2 == i);
            }
        }
        i += 1;
    }
    assert(res@ =~= hex_lower(d@));
    res
}

/// The characters of `s`.
pub fn chars_of(s: &str) -> (res: Vec<char>)
    ensures
        res@ == s@,
{
    let n = s.unicode_len();
    let mut res: Vec<char> = Vec::new();
    let mut i: usize = 0;
    while i < n
        invariant
            n == s@.len(),
            i <= n,
            res@ == s@.subrange(0, i as int),
        decreases n - i,
    {
        res.push(s.get_char(i));
        assert(res@ =~= s@.subrange(0, i + 1));
        i += 1;
    }
    assert(res@ =~= s@);
    res
}

/// The string made of the characters `v`.
pub fn string_from_chars(v: &[char]) -> (res: String)
    ensures
        res@ == v@,
{
    let mut res = String::new();
    let mut i: usize = 0;
    while i < v.len()
        invariant
            i <= v@.len(),
            res@ == v@.subrange(0, i as int),
        decreases v@.len() - i,
    {
        string_push(&mut res, v[i]);
        assert(res@ =~= v@.subrange(0, i + 1));
        i += 1;
    }
    assert(res@ =~= v@);
    res
}

/// `s` with every '.' written as '+'.
pub open spec fn replace_dots(s: Seq<char>) -> Seq<char> {
    s.map_values(|c: char| if c == '.' { '+' } else { c })
}

/// `s` with every '.' written as '+'.
pub fn replace_dots_exec(s: &[char]) -> (res: Vec<char>)
    ensures
        res@ == replace_dots(s@),
{
    let mut res: Vec<char> = Vec::new();
    let mut i: usize = 0;
    while i < s.len()
        invariant
            i <= s@.len(),
            res@ == replace_dots(s@.subrange(0, i as int)),
        decreases s@.len() - i,
    {
        let c = s[i];
        res.push(if c == '.' { '+' } else { c });
        assert(replace_dots(s@.subrange(0, i + 1)) =~= replace_dots(s@.subrange(0, i as int)).push(
            if c == '.' { '+' } else { c },
        ));
        i += 1;
    }
    assert(s@.subrange(0, s@.len() as int) =~= s@);
    res
}

/// The views of a list of character lists.
pub open spec fn char_lists(v: Seq<Vec<char>>) -> Seq<Seq<char>> {
    v.map_values(|x: Vec<char>| x@)
}

/// The pieces of `s` between the occurrences of `sep`, as `str::split`
/// gives them: one more piece than there are separators.
pub open spec fn split_on(s: Seq<char>, sep: char) -> Seq<Seq<char>>
    decreases s.len(),
{
    if s.len() == 0 {
        seq![Seq::<char>::empty()]
    } else {
        let init = split_on(s.drop_last(), sep);
        if s.last() == sep {
            init.push(Seq::<char>::empty())
        } else {
            init.update(init.len() - 1, init.last().push(s.last()))
        }
    }
}

/// The pieces of `s` between the occurrences of `sep`.
pub fn split_chars(s: &[char], sep: char) -> (res: Vec<Vec<char>>)
    ensures
        char_lists(res@) == split_on(s@, sep),
{
    let mut done: Vec<Vec<char>> = Vec::new();
    let mut cur: Vec<char> = Vec::new();
    let mut i: usize = 0;
    assert(s@.subrange(0, 0) =~= Seq::<char>::empty());
    assert(char_lists(done@).push(cur@) =~= seq![Seq::<char>::empty()]);
    while i < s.len()
        invariant
            i <= s@.len(),
            split_on(s@.subrange(0, i as int), sep) == char_lists(done@).push(cur@),
        decreases s@.len() - i,
    {
        let c = s[i];
        let ghost before = char_lists(done@).push(cur@);
        assert(s@.subrange(0, i + 1).drop_last() =~= s@.subrange(0, i as int));
        if c == sep {
            let finished = cur;
            cur = Vec::new();
            done.push(finished);
            assert(char_lists(done@).push(cur@) =~= before.push(Seq::<char>::empty()));
        } else {
            let ghost old_cur = cur@;
            cur.push(c);
            assert(char_lists(done@).push(cur@) =~= before.update(
                before.len() - 1,
                before.last().push(c),
            ));
        }
        i += 1;
    }
    assert(s@.subrange(0, s@.len() as int) =~= s@);
    let ghost before = char_lists(done@).push(cur@);
    done.push(cur);
    assert(char_lists(done@) =~= before);
    done
}

/// Whether the characters `v` are those of `s`.
pub fn chars_eq_str(v: &[char], s: &str) -> (res: bool)
    ensures
        res == (v@ == s@),
{
    let n = s.unicode_len();
    if v.len() != n {
        return false;
    }
    let mut i: usize = 0;
    while i < n
        invariant
            n == s@.len(),
            v@.len() == n,
            i <= n,
            forall|j: int| 0 <= j < i ==> v@[j] == s@[j],
        decreases n - i,
    {
        if v[i] != s.get_char(i) {
            return false;
        }
        i += 1;
    }
    assert(v@ =~= s@);
    true
}

/// Whether the characters `v` begin with those of `prefix`.
pub fn has_prefix(v: &[char], prefix: &str) -> (res: bool)
    ensures
        res == starts_with(v@, prefix@),
{
    let n = prefix.unicode_len();
    if n > v.len() {
        return false;
    }
    let mut i: usize = 0;
    while i < n
        invariant
            n == prefix@.len(),
            n <= v@.len(),
            i <= n,
            forall|j: int| 0 <= j < i ==> v@[j] == prefix@[j],
        decreases n - i,
    {
        if v[i] != prefix.get_char(i) {
            assert(v@.subrange(0, n as int)[i as int] != prefix@[i as int]);
            return false;
        }
        i += 1;
    }
    assert(v@.subrange(0, n as int) =~= prefix@);
    true
}

/// Whether two byte strings are equal.
pub fn bytes_eq(a: &[u8], b: &[u8]) -> (res: bool)
    ensures
        res == (a@ == b@),
{
    if a.len() != b.len() {
        return false;
    }
    let mut i: usize = 0;
    while i < a.len()
        invariant
            a@.len() == b@.len(),
            i <= a@.len(),
            forall|j: int| 0 <= j < i ==> a@[j] == b@[j],
        decreases a@.len() - i,
    {
        if a[i] != b[i] {
            return false;
        }
        i += 1;
    }
    assert(a@ =~= b@);
    true
}

/// Whether `hash` begins with the prefix of one of the hashing algorithms.
pub open spec fn known_prefix(hash: Seq<char>) -> bool {
    ||| starts_with(hash, "$2b$"@)
    ||| starts_with(hash, "$2a$"@)
    ||| starts_with(hash, "$bcrypt-sha256$"@)
    ||| starts_with(hash, "$scrypt$"@)
    ||| starts_with(hash, "$pbkdf2-sha512$"@)
}

/// The algorithm that verifies `hash`: the one its prefix names, or else
/// the configured one.
pub open spec fn detected_algorithm(
    hash: Seq<char>,
    configured: PasswordHashingAlgo,
) -> PasswordHashingAlgo {
    if starts_with(hash, "$2b$"@) || starts_with(hash, "$2a$"@) {
        PasswordHashingAlgo::Bcrypt
    } else if starts_with(hash, "$bcrypt-sha256$"@) {
        PasswordHashingAlgo::BcryptSha256
    } else if starts_with(hash, "$scrypt$"@) {
        PasswordHashingAlgo::Scrypt
    } else if starts_with(hash, "$pbkdf2-sha512$"@) {
        PasswordHashingAlgo::Pbkdf2Sha512
    } else {
        configured
    }
}

/// Picks the algorithm that verifies `hash`.
pub fn detect_algorithm(hash: &[char], configured: PasswordHashingAlgo) -> (res: PasswordHashingAlgo)
    ensures
        res == detected_algorithm(hash@, configured),
{
    if has_prefix(hash, "$2b$") || has_prefix(hash, "$2a$") {
        PasswordHashingAlgo::Bcrypt
    } else if has_prefix(hash, "$bcrypt-sha256$") {
        PasswordHashingAlgo::BcryptSha256
    } else if has_prefix(hash, "$scrypt$") {
        PasswordHashingAlgo::Scrypt
    } else if has_prefix(hash, "$pbkdf2-sha512$") {
        PasswordHashingAlgo::Pbkdf2Sha512
    } else {
        configured
    }
}

/// The length limit for bcrypt input: the configured maximum, but at least
/// 72 bytes.
pub open spec fn bcrypt_limit(conf: &Config) -> int {
    if conf.identity.max_password_length > 72 {
        conf.identity.max_password_length as int
    } else {
        72
    }
}

/// The bcrypt cost: the configured rounds (12 when unset), cut to 32 bits.
pub open spec fn bcrypt_cost(conf: &Config) -> u32 {
    (match conf.identity.password_hash_rounds {
        Some(r) => r,
        None => 12usize,
    }) as u32
}

/// What bcrypt hashes of `p`.
pub open spec fn bcrypt_password(conf: &Config, p: Seq<u8>) -> Seq<u8> {
    truncated_password(p, bcrypt_limit(conf))
}

/// What bcrypt hashes of `p` under bcrypt-sha256: the lowercase hex text of
/// the SHA-256 digest of the truncated password.
pub open spec fn bcrypt_sha256_password(conf: &Config, p: Seq<u8>) -> Seq<u8> {
    hex_lower(sha256_digest(bcrypt_password(conf, p)))
}

fn bcrypt_limit_exec(conf: &Config) -> (res: usize)
    ensures
        res == bcrypt_limit(conf),
{
    if conf.identity.max_password_length > 72 {
        conf.identity.max_password_length
    } else {
        72
    }
}

fn bcrypt_cost_exec(conf: &Config) -> (res: u32)
    ensures
        res == bcrypt_cost(conf),
{
    let rounds: usize = match conf.identity.password_hash_rounds {
        Some(r) => r,
        None => 12,
    };
    rounds as u32
}

/// What holds of a hash that [`hash_password`] returns for `p`.
pub open spec fn hash_succeeded(conf: &Config, p: Seq<u8>, h: Seq<char>) -> bool {
    match conf.identity.password_hashing_algorithm {
        PasswordHashingAlgo::Bcrypt => bcrypt_hash_valid(bcrypt_password(conf, p), bcrypt_cost(conf), h),
        PasswordHashingAlgo::BcryptSha256 => bcrypt_hash_valid(
            bcrypt_sha256_password(conf, p),
            bcrypt_cost(conf),
            h,
        ),
        PasswordHashingAlgo::Scrypt => scrypt_hash_valid(p, h),
        PasswordHashingAlgo::Pbkdf2Sha512 => pbkdf2_hash_valid(p, h),
        PasswordHashingAlgo::Plaintext => valid_utf8(p) && h == decode_utf8(p),
    }
}

/// What holds of an error that [`hash_password`] returns for `p`.
pub open spec fn hash_failed(conf: &Config, p: Seq<u8>, e: PasswordHashError) -> bool {
    match conf.identity.password_hashing_algorithm {
        PasswordHashingAlgo::Bcrypt => e is BCrypt,
        PasswordHashingAlgo::BcryptSha256 => e is BCrypt,
        PasswordHashingAlgo::Scrypt => e is CryptoHash,
        PasswordHashingAlgo::Pbkdf2Sha512 => e is CryptoHash,
        PasswordHashingAlgo::Plaintext => !valid_utf8(p) && e is Utf8,
    }
}

/// Whether hashing must fail whatever the password: bcrypt with a cost
/// outside 4..=31.
pub open spec fn hash_must_fail(conf: &Config) -> bool {
    &&& (conf.identity.password_hashing_algorithm == PasswordHashingAlgo::Bcrypt
        || conf.identity.password_hashing_algorithm == PasswordHashingAlgo::BcryptSha256)
    &&& !(4 <= bcrypt_cost(conf) <= 31)
}

/// Calculate password hash with the configured algorithm.
pub fn hash_password(conf: &Config, password: &[u8]) -> (res: Result<String, PasswordHashError>)
    ensures
        res matches Ok(h) ==> hash_succeeded(conf, password@, h@),
        res matches Err(e) ==> hash_failed(conf, password@, e),
        hash_must_fail(conf) ==> res is Err,
        conf.identity.password_hashing_algorithm == PasswordHashingAlgo::Plaintext ==> (res is Ok
            <==> valid_utf8(password@)),
        conf.identity.password_hashing_algorithm == PasswordHashingAlgo::Scrypt
            || conf.identity.password_hashing_algorithm == PasswordHashingAlgo::Pbkdf2Sha512
            ==> res is Ok,
{
    match conf.identity.password_hashing_algorithm {
        PasswordHashingAlgo::Bcrypt => {
            let pw = verify_length_and_trunc_password(password, bcrypt_limit_exec(conf));
            match bcrypt_hash(pw, bcrypt_cost_exec(conf)) {
                Ok(h) => Ok(h),
                Err(e) => Err(PasswordHashError::BCrypt { source: e }),
            }
        },
        PasswordHashingAlgo::BcryptSha256 => {
            let pw = verify_length_and_trunc_password(password, bcrypt_limit_exec(conf));
            let digest = sha256(pw);
            let hex = hex_lower_bytes(digest.as_slice());
            match bcrypt_hash(hex.as_slice(), bcrypt_cost_exec(conf)) {
                Ok(h) => Ok(h),
                Err(e) => Err(PasswordHashError::BCrypt { source: e }),
            }
        },
        PasswordHashingAlgo::Scrypt => {
            let salt = generate_salt();
            match scrypt_hash(password, &salt) {
                Ok(h) => Ok(h),
                Err(m) => Err(PasswordHashError::CryptoHash(m)),
            }
        },
        PasswordHashingAlgo::Pbkdf2Sha512 => {
            let salt = generate_salt();
            match pbkdf2_sha512_hash(password, &salt) {
                Ok(h) => Ok(h),
                Err(m) => Err(PasswordHashError::CryptoHash(m)),
            }
        },
        PasswordHashingAlgo::Plaintext => match utf8_decode(password) {
            Ok(s) => Ok(s),
            Err(e) => Err(PasswordHashError::Utf8 { source: e }),
        },
    }
}

/// The printable ASCII password made from random bytes: each byte taken
/// modulo 95, plus 32.
pub open spec fn dummy_password_of(bytes: Seq<u8>) -> Seq<u8> {
    bytes.map_values(|b: u8| (b % 95 + 32) as u8)
}

/// The printable ASCII password made from random bytes.
pub fn dummy_password(bytes: &[u8]) -> (res: Vec<u8>)
    ensures
        res@ == dummy_password_of(bytes@),
        forall|i: int| 0 <= i < res@.len() ==> 32 <= #[trigger] res@[i] < 127,
{
    let mut res: Vec<u8> = Vec::new();
    let mut i: usize = 0;
    while i < bytes.len()
        invariant
            i <= bytes@.len(),
            res@ == dummy_password_of(bytes@.subrange(0, i as int)),
        decreases bytes@.len() - i,
    {
        res.push(bytes[i] % 95 + 32);
        assert(dummy_password_of(bytes@.subrange(0, i + 1)) =~= dummy_password_of(
            bytes@.subrange(0, i as int),
        ).push((bytes@[i as int] % 95 + 32) as u8));
        i += 1;
    }
    assert(bytes@.subrange(0, bytes@.len() as int) =~= bytes@);
    res
}

/// Generate a dummy password hash matching the configured algorithm, for
/// timing attack prevention: the hash of a random printable password of 16
/// characters.
pub fn generate_dummy_hash(conf: &Config) -> (res: Result<String, PasswordHashError>)
    ensures
        exists|r: Seq<u8>|
            #![trigger dummy_password_of(r)]
            r.len() == 16 && (res matches Ok(h) ==> hash_succeeded(
                conf,
                dummy_password_of(r),
                h@,
            )) && (res matches Err(e) ==> hash_failed(conf, dummy_password_of(r), e)),
        hash_must_fail(conf) ==> res is Err,
        conf.identity.password_hashing_algorithm == PasswordHashingAlgo::Scrypt
            || conf.identity.password_hashing_algorithm == PasswordHashingAlgo::Pbkdf2Sha512
            ==> res is Ok,
{
    let bytes = random_bytes_16();
    let password = dummy_password(bytes.as_slice());
    let res = hash_password(conf, password.as_slice());
    assert(bytes@.len() == 16 && password@ == dummy_password_of(bytes@));
    res
}

/// Whether every character of `t` is an ASCII decimal digit.
pub open spec fn all_digits(t: Seq<char>) -> bool {
    forall|i: int| 0 <= i < t.len() ==> '0' <= #[trigger] t[i] <= '9'
}

/// The value of a decimal digit character.
pub open spec fn digit_value(c: char) -> int {
    c as int - '0' as int
}

/// The value of a text of decimal digits.
pub open spec fn digits_value(t: Seq<char>) -> int
    decreases t.len(),
{
    if t.len() == 0 {
        0
    } else {
        digits_value(t.drop_last()) * 10 + digit_value(t.last())
    }
}

/// What `str::parse::<u32>` gives for `text`: an optional `+` followed by
/// one or more decimal digits whose value fits in 32 bits; nothing else.
pub open spec fn parse_u32_text(text: Seq<char>) -> Option<u32> {
    let digits = if text.len() > 0 && text[0] == '+' {
        text.subrange(1, text.len() as int)
    } else {
        text
    };
    if digits.len() > 0 && all_digits(digits) && digits_value(digits) <= u32::MAX {
        Some(digits_value(digits) as u32)
    } else {
        None
    }
}

/// A text of digits is worth at least any of its prefixes.
proof fn lemma_digits_value_grows(t: Seq<char>, k: int)
    requires
        all_digits(t),
        0 <= k <= t.len(),
    ensures
        digits_value(t.subrange(0, k)) <= digits_value(t),
        digits_value(t) >= 0,
    decreases t.len(),
{
    if t.len() > 0 {
        assert(all_digits(t.drop_last()));
        if k < t.len() {
            lemma_digits_value_grows(t.drop_last(), k);
            assert(t.drop_last().subrange(0, k) =~= t.subrange(0, k));
        } else {
            lemma_digits_value_grows(t.drop_last(), 0);
            assert(t.subrange(0, k) =~= t);
        }
    }
}

/// Parses a decimal `u32` as `str::parse::<u32>` does.
pub fn parse_u32(text: &[char]) -> (res: Option<u32>)
    ensures
        res == parse_u32_text(text@),
{
    let n = text.len();
    let start: usize = if n > 0 && text[0] == '+' {
        1
    } else {
        0
    };
    let ghost digits = text@.subrange(start as int, n as int);
    assert(digits =~= (if text@.len() > 0 && text@[0] == '+' {
        text@.subrange(1, text@.len() as int)
    } else {
        text@
    }));
    if start == n {
        return None;
    }
    let mut value: u64 = 0;
    let mut i: usize = start;
    while i < n
        invariant
            start <= i <= n,
            n == text@.len(),
            digits == text@.subrange(start as int, n as int),
            digits == (if text@.len() > 0 && text@[0] == '+' {
                text@.subrange(1, text@.len() as int)
            } else {
                text@
            }),
            digits.len() > 0,
            all_digits(digits.subrange(0, i - start)),
            value == digits_value(digits.subrange(0, i - start)),
            value <= u32::MAX,
        decreases n - i,
    {
        let c = text[i];
        let ghost prefix = digits.subrange(0, i - start);
        let ghost next = digits.subrange(0, i + 1 - start);
        assert(next.drop_last() =~= prefix);
        assert(digits[i - start] == c);
        if !('0' <= c && c <= '9') {
            assert(!all_digits(digits));
            return None;
        }
        let d: u64 = (c as u32 - '0' as u32) as u64;
        assert(next.last() == c);
        assert(d == digit_value(c));
        value = value * 10 + d;
        assert(all_digits(next));
        assert(value == digits_value(next));
        if value > 0xffff_ffffu64 {
            proof {
                if all_digits(digits) {
                    lemma_digits_value_grows(digits, i + 1 - start);
                }
            }
            return None;
        }
        i += 1;
    }
    assert(digits.subrange(0, n - start) =~= digits);
    Some(value as u32)
}

/// The outcome of verifying `p` against a legacy Passlib PBKDF2-SHA512 hash
/// `h`: `$pbkdf2-sha512$<rounds>$<salt>$<digest>` with '.' for '+' in the
/// base64 parts, and 25000 rounds where they do not parse.
pub open spec fn legacy_pbkdf2_outcome(p: Seq<u8>, h: Seq<char>) -> Result<bool, HashErrorKind> {
    let parts = split_on(h, '$');
    if parts.len() == 5 && parts[1] == "pbkdf2-sha512"@ {
        let rounds = match parse_u32_text(parts[2]) {
            Some(r) => r,
            None => 25000u32,
        };
        match base64_std_nopad_decoded(encode_utf8(replace_dots(parts[3]))) {
            None => Err(HashErrorKind::CryptoHash("Invalid legacy salt"@)),
            Some(salt) => match base64_std_nopad_decoded(encode_utf8(replace_dots(parts[4]))) {
                None => Err(HashErrorKind::CryptoHash("Invalid legacy hash"@)),
                Some(d) => Ok(pbkdf2_hmac_sha512_bytes(p, salt, rounds, d.len()) == d),
            },
        }
    } else {
        Err(HashErrorKind::CryptoHash("Invalid hash format"@))
    }
}

/// The outcome of verifying `p` against the stored hash `h`.
pub open spec fn verify_outcome(conf: &Config, p: Seq<u8>, h: Seq<char>) -> Result<
    bool,
    HashErrorKind,
> {
    match detected_algorithm(h, conf.identity.password_hashing_algorithm) {
        PasswordHashingAlgo::Bcrypt => Ok(
            bcrypt_verify_outcome(bcrypt_password(conf, p), h) == Some(true),
        ),
        PasswordHashingAlgo::BcryptSha256 => Ok(
            bcrypt_verify_outcome(bcrypt_sha256_password(conf, p), h) == Some(true),
        ),
        PasswordHashingAlgo::Scrypt => match phc_parse_failure(replace_dots(h)) {
            Some(m) => Err(HashErrorKind::CryptoHash(m)),
            None => Ok(scrypt_phc_verifies(p, replace_dots(h))),
        },
        PasswordHashingAlgo::Pbkdf2Sha512 => if phc_parse_failure(h) is None {
            Ok(pbkdf2_phc_verifies(p, h))
        } else {
            legacy_pbkdf2_outcome(p, h)
        },
        PasswordHashingAlgo::Plaintext => if valid_utf8(p) {
            Ok(decode_utf8(p) == h)
        } else {
            Err(HashErrorKind::Utf8)
        },
    }
}

fn legacy_pbkdf2_verify(password: &[u8], hash: &[char]) -> (res: Result<bool, PasswordHashError>)
    ensures
        outcome_kind(res) == legacy_pbkdf2_outcome(password@, hash@),
{
    let parts = split_chars(hash, '$');
    assert(char_lists(parts@).len() == parts@.len());
    if parts.len() == 5 && chars_eq_str(parts[1].as_slice(), "pbkdf2-sha512") {
        assert(char_lists(parts@)[1] == parts@[1]@);
        assert(char_lists(parts@)[2] == parts@[2]@);
        assert(char_lists(parts@)[3] == parts@[3]@);
        assert(char_lists(parts@)[4] == parts@[4]@);
        let rounds: u32 = match parse_u32(parts[2].as_slice()) {
            Some(r) => r,
            None => 25000,
        };
        let salt_text = string_from_chars(replace_dots_exec(parts[3].as_slice()).as_slice());
        let salt = match base64_std_nopad_decode(salt_text.as_str().as_bytes()) {
            Some(s) => s,
            None => {
                return Err(PasswordHashError::CryptoHash(String::from_str("Invalid legacy salt")));
            },
        };
        let digest_text = string_from_chars(replace_dots_exec(parts[4].as_slice()).as_slice());
        let expected = match base64_std_nopad_decode(digest_text.as_str().as_bytes()) {
            Some(d) => d,
            None => {
                return Err(PasswordHashError::CryptoHash(String::from_str("Invalid legacy hash")));
            },
        };
        let computed = pbkdf2_hmac_sha512(password, salt.as_slice(), rounds, expected.len());
        return Ok(bytes_eq(computed.as_slice(), expected.as_slice()));
    }
    Err(PasswordHashError::CryptoHash(String::from_str("Invalid hash format")))
}

/// Verify the password matches the hashed value. The algorithm is picked
/// from the hash's prefix, and the configured one is used for a hash
/// without a known prefix. Bcrypt failures count as a mismatch.
pub fn verify_password(conf: &Config, password: &[u8], hash: &str) -> (res: Result<
    bool,
    PasswordHashError,
>)
    ensures
        outcome_kind(res) == verify_outcome(conf, password@, hash@),
{
    let chars = chars_of(hash);
    match detect_algorithm(chars.as_slice(), conf.identity.password_hashing_algorithm) {
        PasswordHashingAlgo::Bcrypt => {
            let pw = verify_length_and_trunc_password(password, bcrypt_limit_exec(conf));
            match bcrypt_verify(pw, hash) {
                Ok(b) => Ok(b),
                Err(_) => Ok(false),
            }
        },
        PasswordHashingAlgo::BcryptSha256 => {
            let pw = verify_length_and_trunc_password(password, bcrypt_limit_exec(conf));
            let digest = sha256(pw);
            let hex = hex_lower_bytes(digest.as_slice());
            match bcrypt_verify(hex.as_slice(), hash) {
                Ok(b) => Ok(b),
                Err(_) => Ok(false),
            }
        },
        PasswordHashingAlgo::Scrypt => {
            let normalized = string_from_chars(replace_dots_exec(chars.as_slice()).as_slice());
            match phc_parse_error(normalized.as_str()) {
                Some(m) => Err(PasswordHashError::CryptoHash(m)),
                None => Ok(scrypt_verify(password, normalized.as_str())),
            }
        },
        PasswordHashingAlgo::Pbkdf2Sha512 => match phc_parse_error(hash) {
            None => Ok(pbkdf2_verify(password, hash)),
            Some(_) => legacy_pbkdf2_verify(password, chars.as_slice()),
        },
        PasswordHashingAlgo::Plaintext => match utf8_decode(password) {
            Ok(s) => {
                let h = String::from_str(hash);
                Ok(s == h)
            },
            Err(e) => Err(PasswordHashError::Utf8 { source: e }),
        },
    }
}

/// Hashing then verifying gives back a match: a password that
/// [`hash_password`] hashed to `hash` verifies against `hash` under the same
/// configuration. This holds for bcrypt, scrypt and PBKDF2, and for the
/// plaintext setting when the stored text does not itself begin with an
/// algorithm's prefix.
pub proof fn lemma_hash_then_verify(conf: &Config, password: Seq<u8>, hash: Seq<char>)
    requires
        hash_succeeded(conf, password, hash),
        conf.identity.password_hashing_algorithm != PasswordHashingAlgo::BcryptSha256,
        conf.identity.password_hashing_algorithm == PasswordHashingAlgo::Plaintext
            ==> !known_prefix(hash),
    ensures
        verify_outcome(conf, password, hash) == Ok::<bool, HashErrorKind>(true),
{
    reveal_strlit("$2b$");
    reveal_strlit("$2a$");
    reveal_strlit("$bcrypt-sha256$");
    reveal_strlit("$scrypt$");
    reveal_strlit("$pbkdf2-sha512$");
    match conf.identity.password_hashing_algorithm {
        PasswordHashingAlgo::Scrypt => {
            assert(hash.subrange(0, 8)[1] == 's');
            assert(hash[1] == 's');
            assert(replace_dots(hash) =~= hash);
        },
        PasswordHashingAlgo::Pbkdf2Sha512 => {
            assert(hash.subrange(0, 15)[1] == 'p');
            assert(hash[1] == 'p');
        },
        _ => {},
    }
}

/// A stored hash in a known format (bcrypt `$2b$` or `$2a$`,
/// `$bcrypt-sha256$`, `$scrypt$`, `$pbkdf2-sha512$`) is checked by the
/// algorithm it names, whatever algorithm is configured for new hashes: two
/// configurations with the same password length limit give the same answer.
pub proof fn lemma_verify_follows_hash_format(c1: &Config, c2: &Config, p: Seq<u8>, h: Seq<char>)
    requires
        known_prefix(h),
        c1.identity.max_password_length == c2.identity.max_password_length,
    ensures
        verify_outcome(c1, p, h) == verify_outcome(c2, p, h),
        starts_with(h, "$2b$"@) ==> verify_outcome(c1, p, h) == Ok::<bool, HashErrorKind>(
            bcrypt_verify_outcome(bcrypt_password(c1, p), h) == Some(true),
        ),
{
}

} // verus!
