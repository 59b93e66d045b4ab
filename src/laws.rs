//! Properties of the protocol that hold for every input.
use vstd::prelude::*;
use crate::encoding::{
    decimal,
    is_hex_digits,
    lemma_decimal_chars,
    lemma_decimal_injective,
    lemma_lower_hex_chars,
    lemma_lower_hex_injective,
    lower_hex,
};
use crate::error::RejectReason;
use crate::keys::KeyPair;
use crate::primitives::ed25519_signature;
use crate::request::issued_for;
use crate::model::{Challenge, ChallengeResponse, challenge_message, is_zero_param, token_message};
use crate::response::response_verdict;

verus! {

/// Whether a text holds no `|`, the separator of signed messages.
pub open spec fn bar_free(s: Seq<char>) -> bool {
    forall|i: int| 0 <= i < s.len() ==> s[i] != '|'
}

/// Hex text holds no separator.
pub proof fn lemma_hex_digits_bar_free(s: Seq<char>)
    requires
        is_hex_digits(s),
    ensures
        bar_free(s),
{
    assert forall|i: int| 0 <= i < s.len() implies s[i] != '|' by {
        assert('0' <= s[i] <= '9' || 'a' <= s[i] <= 'f');
    }
}

/// Two texts that each start with a separator-free part followed by `|` split
/// the same way when they are equal.
pub proof fn lemma_split_at_bar(x1: Seq<char>, r1: Seq<char>, x2: Seq<char>, r2: Seq<char>)
    requires
        bar_free(x1),
        bar_free(x2),
        x1 + seq!['|'] + r1 == x2 + seq!['|'] + r2,
    ensures
        x1 == x2,
        r1 == r2,
{
    let s = x1 + seq!['|'] + r1;
    let t = x2 + seq!['|'] + r2;
    if x1.len() < x2.len() {
        assert(s[x1.len() as int] == '|');
        assert(t[x1.len() as int] == x2[x1.len() as int]);
    } else if x2.len() < x1.len() {
        assert(t[x2.len() as int] == '|');
        assert(s[x2.len() as int] == x1[x2.len() as int]);
    }
    assert(x1 =~= s.subrange(0, x1.len() as int));
    assert(x2 =~= t.subrange(0, x2.len() as int));
    assert(r1 =~= s.subrange(x1.len() as int + 1, s.len() as int));
    assert(r2 =~= t.subrange(x2.len() as int + 1, t.len() as int));
}

/// The part of a challenge's signed text after the nonce and its separator.
pub open spec fn after_nonce(c: Challenge) -> Seq<char> {
    decimal(c.created_time as int) + seq!['|'] + after_created(c)
}

/// The part of a challenge's signed text after the creation time and its separator.
pub open spec fn after_created(c: Challenge) -> Seq<char> {
    decimal(c.expiration_time as int) + seq!['|'] + after_expiration(c)
}

/// The part of a challenge's signed text after the expiration time and its separator.
pub open spec fn after_expiration(c: Challenge) -> Seq<char> {
    c.website_id@ + seq!['|'] + lower_hex(c.challenge_param@) + seq!['|'] + lower_hex(c.public_key@)
}

proof fn lemma_challenge_message_parts(c: Challenge)
    ensures
        challenge_message(c) == c.random_nonce@ + seq!['|'] + after_nonce(c),
{
    assert(challenge_message(c) =~= c.random_nonce@ + seq!['|'] + after_nonce(c));
}

/// The signed text of a challenge determines every field that it covers, so a
/// change to any one of them changes the text that the signature must match.
/// Nonces are taken to be free of `|`, as the hex nonces of issued challenges are.
pub proof fn lemma_challenge_message_determines_fields(c1: Challenge, c2: Challenge)
    requires
        bar_free(c1.random_nonce@),
        bar_free(c2.random_nonce@),
        challenge_message(c1) == challenge_message(c2),
    ensures
        c1.random_nonce@ == c2.random_nonce@,
        c1.created_time == c2.created_time,
        c1.expiration_time == c2.expiration_time,
        c1.website_id@ == c2.website_id@,
        c1.challenge_param == c2.challenge_param,
        c1.public_key == c2.public_key,
{
    lemma_challenge_message_parts(c1);
    lemma_challenge_message_parts(c2);
    lemma_split_at_bar(c1.random_nonce@, after_nonce(c1), c2.random_nonce@, after_nonce(c2));
    lemma_decimal_chars(c1.created_time as int);
    lemma_decimal_chars(c2.created_time as int);
    lemma_split_at_bar(
        decimal(c1.created_time as int),
        after_created(c1),
        decimal(c2.created_time as int),
        after_created(c2),
    );
    lemma_decimal_injective(c1.created_time as int, c2.created_time as int);
    lemma_decimal_chars(c1.expiration_time as int);
    lemma_decimal_chars(c2.expiration_time as int);
    lemma_split_at_bar(
        decimal(c1.expiration_time as int),
        after_expiration(c1),
        decimal(c2.expiration_time as int),
        after_expiration(c2),
    );
    lemma_decimal_injective(c1.expiration_time as int, c2.expiration_time as int);

    let t1 = after_expiration(c1);
    let t2 = after_expiration(c2);
    let w1 = c1.website_id@;
    let w2 = c2.website_id@;
    lemma_lower_hex_chars(c1.challenge_param@);
    lemma_lower_hex_chars(c2.challenge_param@);
    lemma_lower_hex_chars(c1.public_key@);
    lemma_lower_hex_chars(c2.public_key@);
    assert(w1.len() == w2.len());
    assert(w1 =~= t1.subrange(0, w1.len() as int));
    assert(w2 =~= t2.subrange(0, w2.len() as int));
    let a: int = w1.len() as int + 1;
    assert(lower_hex(c1.challenge_param@) =~= t1.subrange(a, a + 64));
    assert(lower_hex(c2.challenge_param@) =~= t2.subrange(a, a + 64));
    assert(lower_hex(c1.public_key@) =~= t1.subrange(a + 65, a + 129));
    assert(lower_hex(c2.public_key@) =~= t2.subrange(a + 65, a + 129));
    lemma_lower_hex_injective(c1.challenge_param@, c2.challenge_param@);
    lemma_lower_hex_injective(c1.public_key@, c2.public_key@);
    assert(c1.challenge_param@ =~= c2.challenge_param@);
    assert(c1.public_key@ =~= c2.public_key@);
}

/// For every challenge that the issuer produces, a challenge with a
/// separator-free nonce that carries the same signed text agrees with it on
/// every signed field: no change to one of them keeps the signature's text.
pub proof fn lemma_issued_challenge_binds_fields(
    issued: Challenge,
    other: Challenge,
    endpoint: Seq<char>,
    difficulty: u64,
    keys: KeyPair,
)
    requires
        issued_for(issued, endpoint, difficulty, keys),
        bar_free(other.random_nonce@),
        challenge_message(other) == challenge_message(issued),
    ensures
        other.random_nonce@ == issued.random_nonce@,
        other.created_time == issued.created_time,
        other.expiration_time == issued.expiration_time,
        other.website_id@ == issued.website_id@,
        other.challenge_param == issued.challenge_param,
        other.public_key == issued.public_key,
        issued.challenge_signature@ == ed25519_signature(keys.secret_key@, challenge_message(other)),
{
    lemma_hex_digits_bar_free(issued.random_nonce@);
    lemma_challenge_message_determines_fields(issued, other);
}

/// A text framed by the same prefix and suffix is determined by the frame.
pub proof fn lemma_same_frame(a: Seq<char>, x: Seq<char>, y: Seq<char>, b: Seq<char>)
    requires
        a + x + b == a + y + b,
    ensures
        x == y,
{
    let s = a + x + b;
    let t = a + y + b;
    assert(s.len() == t.len());
    assert(x =~= s.subrange(a.len() as int, (a.len() + x.len()) as int));
    assert(y =~= t.subrange(a.len() as int, (a.len() + y.len()) as int));
}

/// Whether `m` is `c` with exactly one of the fields that the signature covers changed.
pub open spec fn one_signed_field_changed(c: Challenge, m: Challenge) -> bool {
    let n = c.random_nonce@ == m.random_nonce@;
    let ct = c.created_time == m.created_time;
    let et = c.expiration_time == m.expiration_time;
    let w = c.website_id@ == m.website_id@;
    let p = c.challenge_param@ == m.challenge_param@;
    let k = c.public_key@ == m.public_key@;
    ||| !n && ct && et && w && p && k
    ||| n && !ct && et && w && p && k
    ||| n && ct && !et && w && p && k
    ||| n && ct && et && !w && p && k
    ||| n && ct && et && w && !p && k
    ||| n && ct && et && w && p && !k
}

/// Changing any one field that a challenge's signature covers changes the
/// signed text, whatever the new value: the signature no longer covers the
/// changed challenge's text.
pub proof fn lemma_single_field_change_changes_message(c: Challenge, m: Challenge)
    requires
        one_signed_field_changed(c, m),
    ensures
        challenge_message(m) != challenge_message(c),
{
    let sep = seq!['|'];
    let nc = c.random_nonce@;
    let nm = m.random_nonce@;
    let dc = decimal(c.created_time as int);
    let dm = decimal(m.created_time as int);
    let ec = decimal(c.expiration_time as int);
    let em = decimal(m.expiration_time as int);
    let wc = c.website_id@;
    let wm = m.website_id@;
    let pc = lower_hex(c.challenge_param@);
    let pm = lower_hex(m.challenge_param@);
    let kc = lower_hex(c.public_key@);
    let km = lower_hex(m.public_key@);
    if challenge_message(m) == challenge_message(c) {
        if nc != nm {
            let b = sep + dc + sep + ec + sep + wc + sep + pc + sep + kc;
            assert(challenge_message(c) =~= Seq::<char>::empty() + nc + b);
            assert(challenge_message(m) =~= Seq::<char>::empty() + nm + b);
            lemma_same_frame(Seq::<char>::empty(), nm, nc, b);
        } else if c.created_time != m.created_time {
            let a = nc + sep;
            let b = sep + ec + sep + wc + sep + pc + sep + kc;
            assert(challenge_message(c) =~= a + dc + b);
            assert(challenge_message(m) =~= a + dm + b);
            lemma_same_frame(a, dm, dc, b);
            lemma_decimal_injective(m.created_time as int, c.created_time as int);
        } else if c.expiration_time != m.expiration_time {
            let a = nc + sep + dc + sep;
            let b = sep + wc + sep + pc + sep + kc;
            assert(challenge_message(c) =~= a + ec + b);
            assert(challenge_message(m) =~= a + em + b);
            lemma_same_frame(a, em, ec, b);
            lemma_decimal_injective(m.expiration_time as int, c.expiration_time as int);
        } else if wc != wm {
            let a = nc + sep + dc + sep + ec + sep;
            let b = sep + pc + sep + kc;
            assert(challenge_message(c) =~= a + wc + b);
            assert(challenge_message(m) =~= a + wm + b);
            lemma_same_frame(a, wm, wc, b);
        } else if c.challenge_param@ != m.challenge_param@ {
            let a = nc + sep + dc + sep + ec + sep + wc + sep;
            let b = sep + kc;
            assert(challenge_message(c) =~= a + pc + b);
            assert(challenge_message(m) =~= a + pm + b);
            lemma_same_frame(a, pm, pc, b);
            lemma_lower_hex_injective(m.challenge_param@, c.challenge_param@);
        } else {
            let a = nc + sep + dc + sep + ec + sep + wc + sep + pc + sep;
            let b = Seq::<char>::empty();
            assert(challenge_message(c) =~= a + kc + b);
            assert(challenge_message(m) =~= a + km + b);
            lemma_same_frame(a, km, kc, b);
            lemma_lower_hex_injective(m.public_key@, c.public_key@);
        }
    }
}

/// The signed text of a token determines the challenge signature and the end
/// of validity, so a token whose `valid_for` is changed after issuance no
/// longer matches the text that its signature covers.
pub proof fn lemma_token_message_determines_fields(s1: Seq<u8>, v1: int, s2: Seq<u8>, v2: int)
    requires
        s1.len() == 64,
        s2.len() == 64,
        token_message(s1, v1) == token_message(s2, v2),
    ensures
        s1 == s2,
        v1 == v2,
{
    let m1 = token_message(s1, v1);
    let m2 = token_message(s2, v2);
    lemma_lower_hex_chars(s1);
    lemma_lower_hex_chars(s2);
    assert(lower_hex(s1) =~= m1.subrange(0, 128));
    assert(lower_hex(s2) =~= m2.subrange(0, 128));
    lemma_lower_hex_injective(s1, s2);
    assert(decimal(v1) =~= m1.subrange(129, m1.len() as int));
    assert(decimal(v2) =~= m2.subrange(129, m2.len() as int));
    lemma_decimal_injective(v1, v2);
}

/// A challenge past its expiration time is always rejected, whatever its
/// solution; with a non-negative solution the reason is the expiry.
pub proof fn lemma_expired_challenge_rejected(response: ChallengeResponse, now: int)
    requires
        now > response.solved_challenge.expiration_time,
    ensures
        response_verdict(response, now) is Err,
        response.solution >= 0 ==> response_verdict(response, now) == Err::<(), RejectReason>(
            RejectReason::ChallengeExpired,
        ),
{
}

/// An all-zero target never passes validation; once the earlier checks pass,
/// the reason is the invalid parameters.
pub proof fn lemma_zero_param_never_validates(response: ChallengeResponse, now: int)
    requires
        is_zero_param(response.solved_challenge.challenge_param@),
    ensures
        response_verdict(response, now) is Err,
        response.solution >= 0 && now <= response.solved_challenge.expiration_time
            && response.solved_challenge.website_id@.len() > 0 ==> response_verdict(response, now)
            == Err::<(), RejectReason>(RejectReason::InvalidParams),
{
}

/// Validation keeps no state: a response rejected at one time is rejected at
/// every later time, and a rejection for a negative solution or for expiry
/// keeps its reason.
pub proof fn lemma_rejection_persists(response: ChallengeResponse, t1: int, t2: int)
    requires
        t1 <= t2,
        response_verdict(response, t1) is Err,
    ensures
        response_verdict(response, t2) is Err,
        response_verdict(response, t1) == Err::<(), RejectReason>(RejectReason::InvalidSolution)
            ==> response_verdict(response, t2) == response_verdict(response, t1),
        response_verdict(response, t1) == Err::<(), RejectReason>(RejectReason::ChallengeExpired)
            ==> response_verdict(response, t2) == response_verdict(response, t1),
{
}

} // verus!
