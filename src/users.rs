//! Users service: the parts of it that decide or compute without the
//! record store, namely the current user and salted password hashes.

use vstd::prelude::*;
use vstd::utf8::{encode_utf8, is_ascii_chars};

verus! {

/// Failure of a users service operation that needs no record store.
#[derive(Debug, Clone, PartialEq, Eq)]
pub enum ServiceError {
    /// The request carried no user id.
    MissingUserId,
}

/// Decimal digit `d` as a character.
pub open spec fn digit_char(d: nat) -> char {
    if d == 0 { '0' } else if d == 1 { '1' } else if d == 2 { '2' } else if d == 3 { '3' }
    else if d == 4 { '4' } else if d == 5 { '5' } else if d == 6 { '6' } else if d == 7 { '7' }
    else if d == 8 { '8' } else { '9' }
}

/// Decimal notation of `n`, most significant digit first, without leading zeros.
pub open spec fn decimal(n: nat) -> Seq<char>
    decreases n,
{
    if n < 10 {
        seq![digit_char(n)]
    } else {
        decimal(n / 10).push(digit_char(n % 10))
    }
}

/// Salt drawn from `n`: its decimal digits after the tenth (none when there are
/// at most ten).
pub open spec fn salt_of(n: nat) -> Seq<char> {
    let d = decimal(n);
    if d.len() >= 10 {
        d.subrange(10, d.len() as int)
    } else {
        Seq::empty()
    }
}

/// Stored form of `clear` with `salt`: the base64 of the SHA3-256 digest of
/// the UTF-8 bytes of `clear` followed by `salt`, then a dot and the salt.
pub open spec fn salted_hash(clear: Seq<char>, salt: Seq<char>) -> Seq<char> {
    base64_of(sha3_256_of(encode_utf8(clear + salt))) + seq!['.'] + salt
}

/// SHA3-256 digest of `data`.
pub uninterp spec fn sha3_256_of(data: Seq<u8>) -> Seq<u8>;

/// Standard base64 encoding (with padding) of `data`.
pub uninterp spec fn base64_of(data: Seq<u8>) -> Seq<char>;

/// Relies on `sha3::Sha3_256` through `digest::Digest::digest`: the 32-byte
/// SHA3-256 digest of `data`.
#[verifier::external_body]
fn sha3_256(data: &[u8]) -> (r: Vec<u8>)
    ensures
        r@ == sha3_256_of(data@),
        r@.len() == 32,
{
    <sha3::Sha3_256 as sha3::Digest>::digest(data).to_vec()
}

/// Relies on `base64::encode`: the standard base64 encoding of `data`.
#[verifier::external_body]
fn base64_encode(data: &[u8]) -> (r: String)
    ensures
        r@ == base64_of(data@),
{
    base64::encode(data)
}

/// Relies on `rand::random::<u64>`: a value drawn from the thread-local
/// generator; nothing is known of it.
#[verifier::external_body]
fn random_u64() -> (r: u64) {
    rand::random::<u64>()
}

/// Relies on std's `ToString` for `u64`, which writes the decimal notation.
#[verifier::external_body]
fn u64_to_string(n: u64) -> (r: String)
    ensures
        r@ == decimal(n as nat),
{
    n.to_string()
}

/// Relies on std's `String::split_off`: keeps the first `at` bytes and returns
/// the rest. On ASCII text bytes and characters coincide, so `at` is a
/// character boundary.
#[verifier::external_body]
fn split_off(s: &mut String, at: usize) -> (r: String)
    requires
        is_ascii_chars(old(s)@),
        at <= old(s)@.len(),
    ensures
        r@ == old(s)@.subrange(at as int, old(s)@.len() as int),
        final(s)@ == old(s)@.subrange(0, at as int),
{
    s.split_off(at)
}

/// Relies on std's `String::push_str`: appends `t`.
#[verifier::external_body]
fn push_str(s: &mut String, t: &str)
    ensures
        final(s)@ == old(s)@ + t@,
{
    s.push_str(t)
}

proof fn lemma_decimal_ascii(n: nat)
    ensures
        is_ascii_chars(decimal(n)),
        decimal(n).len() >= 1,
    decreases n,
{
    if n >= 10 {
        lemma_decimal_ascii(n / 10);
        let d = decimal(n);
        assert forall|i: int| 0 <= i < d.len() implies '\0' <= #[trigger] d[i] <= '\u{7f}' by {
            if i < d.len() - 1 {
                assert(d[i] == decimal(n / 10)[i]);
            }
        }
    }
}

pub open spec fn pow10(k: nat) -> nat
    decreases k,
{
    if k == 0 { 1 } else { 10 * pow10((k - 1) as nat) }
}

/// `n` has more than `k` decimal digits exactly when it reaches `10^k`.
proof fn lemma_decimal_len(n: nat, k: nat)
    requires
        k >= 1,
    ensures
        decimal(n).len() >= 1,
        n < pow10(k) ==> decimal(n).len() <= k,
        n >= pow10(k) ==> decimal(n).len() >= k + 1,
    decreases n,
{
    let p = pow10((k - 1) as nat);
    assert(pow10(k) == 10 * p);
    lemma_pow10_positive((k - 1) as nat);
    if n >= 10 {
        if k == 1 {
            lemma_decimal_len(n / 10, 1);
        } else {
            assert(n < 10 * p ==> n / 10 < p) by (nonlinear_arith);
            assert(n >= 10 * p ==> n / 10 >= p) by (nonlinear_arith);
            lemma_decimal_len(n / 10, (k - 1) as nat);
        }
    } else {
        assert(n >= 10 * p ==> p == 0) by (nonlinear_arith)
            requires n < 10;
    }
}

proof fn lemma_pow10_positive(k: nat)
    ensures
        pow10(k) >= 1,
    decreases k,
{
    if k > 0 {
        lemma_pow10_positive((k - 1) as nat);
    }
}

/// Stored form of `clear_password` with the salt drawn from `salt_source`.
pub fn salted_password_hash(clear_password: String, salt_source: u64) -> (r: String)
    ensures
        r@ == salted_hash(clear_password@, salt_of(salt_source as nat)),
{
    let mut digits = u64_to_string(salt_source);
    proof {
        lemma_decimal_ascii(salt_source as nat);
        lemma_decimal_len(salt_source as nat, 9);
        reveal_with_fuel(pow10, 10);
    }
    let salt = if salt_source >= 1_000_000_000 {
        split_off(&mut digits, 10)
    } else {
        String::new()
    };
    assert(salt@ =~= salt_of(salt_source as nat));
    let mut pass = clear_password;
    push_str(&mut pass, salt.as_str());
    let hash = sha3_256(pass.as_str().as_bytes());
    let mut out = base64_encode(hash.as_slice());
    let dot = ".";
    proof {
        reveal_strlit(".");
    }
    push_str(&mut out, dot);
    push_str(&mut out, salt.as_str());
    assert(out@ =~= salted_hash(clear_password@, salt@));
    out
}

/// Operations of the users service that need no record store.
pub trait UsersService {
    spec fn request_user(&self) -> Option<i32>;

    /// Id of the user the request was made for.
    fn current_user_id(&self) -> (r: Result<i32, ServiceError>)
        ensures
            match self.request_user() {
                Some(id) => r == Ok::<i32, ServiceError>(id),
                None => r == Err::<i32, ServiceError>(ServiceError::MissingUserId),
            },
    ;

    /// Salted hash of `clear_password` to store, with a freshly drawn salt.
    fn password_create(clear_password: String) -> (r: String)
        ensures
            exists|n: u64| r@ == salted_hash(clear_password@, salt_of(n as nat)),
    ;
}

/// Users service bound to the user a request was made for, if any.
#[derive(Debug, Clone, Copy, PartialEq, Eq)]
pub struct UsersServiceImpl {
    pub user_id: Option<i32>,
}

impl UsersServiceImpl {
    pub fn new(user_id: Option<i32>) -> (r: Self)
        ensures
            r.user_id == user_id,
    {
        UsersServiceImpl { user_id }
    }
}

impl UsersService for UsersServiceImpl {
    open spec fn request_user(&self) -> Option<i32> {
        self.user_id
    }

    fn current_user_id(&self) -> (r: Result<i32, ServiceError>) {
        match self.user_id {
            Some(id) => Ok(id),
            None => Err(ServiceError::MissingUserId),
        }
    }

    fn password_create(clear_password: String) -> (r: String) {
        let n = random_u64();
        salted_password_hash(clear_password, n)
    }
}

} // verus!
