//! The text that a token's claims are written as, and read back from.
//!
//! The claims travel as one JSON object, written without any white space:
//!
//! ```text
//! {"dat":{"t":"User","v":"<id>"},"sub":"<id>","iat":<seconds>,"exp":<seconds>}
//! ```
//!
//! An identifier is written as 32 lower-case hexadecimal digits in groups of
//! 8-4-4-4-12, a time as a decimal integer. [`claims_text`] defines the text of
//! given claims; [`parse_claims`] accepts exactly the texts that
//! [`render_claims`] can produce.

use vstd::prelude::*;
use crate::claims::{JwtClaims, JwtType, TokenKind};

verus! {

/// The byte `-`.
pub const DASH: u8 = 45;

/// The byte `0`.
pub const DIGIT_ZERO: u8 = 48;

/// The byte `a`.
pub const LOWER_A: u8 = 97;

/// The largest magnitude that a time can have: that of `i64::MIN`.
pub const MAX_MAGNITUDE: u64 = 0x8000_0000_0000_0000;

/// The bytes of an ASCII text.
pub open spec fn ascii(s: Seq<char>) -> Seq<u8> {
    Seq::new(s.len(), |i: int| s[i] as u8)
}

/// The tag that names a trust domain inside the text.
pub open spec fn tag_text(kind: TokenKind) -> Seq<u8> {
    match kind {
        TokenKind::Auth => ascii("User"@),
        TokenKind::EmailVerification => ascii("Email"@),
        TokenKind::TicketRedemption => ascii("Ticket"@),
    }
}

/// The hexadecimal digit of a value below 16.
pub open spec fn hex_digit(n: int) -> u8 {
    if n < 10 {
        (DIGIT_ZERO + n) as u8
    } else {
        (LOWER_A + n - 10) as u8
    }
}

/// The last `width` hexadecimal digits of `x`, most significant first.
pub open spec fn hex_text(x: nat, width: nat) -> Seq<u8>
    decreases width,
{
    if width == 0 {
        Seq::empty()
    } else {
        hex_text(x / 16, (width - 1) as nat).push(hex_digit((x % 16) as int))
    }
}

/// An identifier as 36 bytes: its 32 hexadecimal digits in groups of 8, 4, 4, 4
/// and 12, with a dash between two groups.
pub open spec fn uuid_text(id: u128) -> Seq<u8> {
    let h = hex_text(id as nat, 32);
    h.subrange(0, 8).push(DASH) + h.subrange(8, 12).push(DASH) + h.subrange(12, 16).push(DASH)
        + h.subrange(16, 20).push(DASH) + h.subrange(20, 32)
}

/// A natural number in decimal, without leading zeros.
pub open spec fn nat_text(n: nat) -> Seq<u8>
    decreases n,
{
    if n < 10 {
        seq![(DIGIT_ZERO + n) as u8]
    } else {
        nat_text(n / 10).push((DIGIT_ZERO + n % 10) as u8)
    }
}

/// An integer in decimal, with a leading `-` if it is negative.
pub open spec fn int_text(x: int) -> Seq<u8> {
    if x < 0 {
        seq![DASH] + nat_text((-x) as nat)
    } else {
        nat_text(x as nat)
    }
}

/// The text of the given claims.
pub open spec fn claims_text(c: JwtClaims) -> Seq<u8> {
    ascii("{\"dat\":{\"t\":\""@) + tag_text(c.dat.kind_spec()) + ascii("\",\"v\":\""@) + uuid_text(
        c.dat.id_spec(),
    ) + ascii("\"},\"sub\":\""@) + uuid_text(c.sub) + ascii("\",\"iat\":"@) + int_text(c.iat as int)
        + ascii(",\"exp\":"@) + int_text(c.exp as int) + ascii("}"@)
}

/// Whether the bytes are the text of some claims.
pub open spec fn is_claims_text(text: Seq<u8>) -> bool {
    exists|c: JwtClaims| text == claims_text(c)
}

/// The claims that a text stands for, or `None` if it is the text of no claims.
pub open spec fn claims_of_text(text: Seq<u8>) -> Option<JwtClaims> {
    if is_claims_text(text) {
        Some(choose|c: JwtClaims| text == claims_text(c))
    } else {
        None
    }
}

/// Appends an ASCII text to the buffer.
fn push_text(buf: &mut Vec<u8>, text: &str)
    requires
        text.is_ascii(),
    ensures
        final(buf)@ == old(buf)@ + ascii(text@),
{
    broadcast use vstd::string::is_ascii_spec_bytes;

    let bytes = text.as_bytes();
    let mut i: usize = 0;
    while i < bytes.len()
        invariant
            i <= bytes.len(),
            bytes@ == ascii(text@),
            buf@ == old(buf)@ + ascii(text@).subrange(0, i as int),
        decreases bytes.len() - i,
    {
        buf.push(bytes[i]);
        i += 1;
    }
    assert(ascii(text@).subrange(0, i as int) == ascii(text@));
}

/// Appends the bytes `from[lo..hi]` to the buffer.
fn push_range(buf: &mut Vec<u8>, from: &[u8], lo: usize, hi: usize)
    requires
        lo <= hi <= from.len(),
    ensures
        final(buf)@ == old(buf)@ + from@.subrange(lo as int, hi as int),
{
    let mut i: usize = lo;
    while i < hi
        invariant
            lo <= i <= hi <= from.len(),
            buf@ == old(buf)@ + from@.subrange(lo as int, i as int),
        decreases hi - i,
    {
        buf.push(from[i]);
        i += 1;
    }
}

/// Appends the last `width` hexadecimal digits of `x`.
fn push_hex(buf: &mut Vec<u8>, x: u128, width: u32)
    ensures
        final(buf)@ == old(buf)@ + hex_text(x as nat, width as nat),
    decreases width,
{
    if width > 0 {
        push_hex(buf, x / 16, width - 1);
        let d: u8 = (x % 16) as u8;
        if d < 10 {
            buf.push(DIGIT_ZERO + d);
        } else {
            buf.push(LOWER_A + (d - 10));
        }
        assert(buf@ == old(buf)@ + hex_text(x as nat, width as nat));
    } else {
        assert(buf@ == old(buf)@ + hex_text(x as nat, width as nat));
    }
}

/// The length of a hexadecimal text is its width.
proof fn lemma_hex_text_len(x: nat, width: nat)
    ensures
        hex_text(x, width).len() == width,
    decreases width,
{
    if width > 0 {
        lemma_hex_text_len(x / 16, (width - 1) as nat);
    }
}

/// Appends an identifier in its 36-byte form.
fn push_uuid(buf: &mut Vec<u8>, id: u128)
    ensures
        final(buf)@ == old(buf)@ + uuid_text(id),
{
    let mut digits: Vec<u8> = Vec::new();
    push_hex(&mut digits, id, 32);
    proof {
        lemma_hex_text_len(id as nat, 32);
        assert(digits@ == hex_text(id as nat, 32));
    }
    push_range(buf, digits.as_slice(), 0, 8);
    buf.push(DASH);
    push_range(buf, digits.as_slice(), 8, 12);
    buf.push(DASH);
    push_range(buf, digits.as_slice(), 12, 16);
    buf.push(DASH);
    push_range(buf, digits.as_slice(), 16, 20);
    buf.push(DASH);
    push_range(buf, digits.as_slice(), 20, 32);
    assert(buf@ == old(buf)@ + uuid_text(id));
}

/// Appends a natural number in decimal.
fn push_nat(buf: &mut Vec<u8>, n: u64)
    ensures
        final(buf)@ == old(buf)@ + nat_text(n as nat),
    decreases n,
{
    if n < 10 {
        buf.push(DIGIT_ZERO + (n as u8));
        assert(buf@ == old(buf)@ + nat_text(n as nat));
    } else {
        push_nat(buf, n / 10);
        buf.push(DIGIT_ZERO + ((n % 10) as u8));
        assert(buf@ == old(buf)@ + nat_text(n as nat));
    }
}

/// Appends an integer in decimal.
fn push_int(buf: &mut Vec<u8>, x: i64)
    ensures
        final(buf)@ == old(buf)@ + int_text(x as int),
{
    if x < 0 {
        buf.push(DASH);
        let magnitude: u64 = if x == i64::MIN {
            MAX_MAGNITUDE
        } else {
            (-x) as u64
        };
        push_nat(buf, magnitude);
        assert(buf@ == old(buf)@ + int_text(x as int));
    } else {
        push_nat(buf, x as u64);
    }
}

/// Writes the claims as text.
pub fn render_claims(claims: &JwtClaims) -> (text: Vec<u8>)
    ensures
        text@ == claims_text(*claims),
{
    let mut buf: Vec<u8> = Vec::new();
    proof {
        reveal_strlit("{\"dat\":{\"t\":\"");
        reveal_strlit("User");
        reveal_strlit("Email");
        reveal_strlit("Ticket");
        reveal_strlit("\",\"v\":\"");
        reveal_strlit("\"},\"sub\":\"");
        reveal_strlit("\",\"iat\":");
        reveal_strlit(",\"exp\":");
        reveal_strlit("}");
    }
    push_text(&mut buf, "{\"dat\":{\"t\":\"");
    match claims.dat.kind() {
        TokenKind::Auth => push_text(&mut buf, "User"),
        TokenKind::EmailVerification => push_text(&mut buf, "Email"),
        TokenKind::TicketRedemption => push_text(&mut buf, "Ticket"),
    }
    push_text(&mut buf, "\",\"v\":\"");
    push_uuid(&mut buf, claims.dat.id());
    push_text(&mut buf, "\"},\"sub\":\"");
    push_uuid(&mut buf, claims.sub);
    push_text(&mut buf, "\",\"iat\":");
    push_int(&mut buf, claims.iat);
    push_text(&mut buf, ",\"exp\":");
    push_int(&mut buf, claims.exp);
    push_text(&mut buf, "}");
    assert(buf@ == claims_text(*claims));
    buf
}

/// Whether the byte is a decimal digit.
spec fn is_digit(b: u8) -> bool {
    DIGIT_ZERO <= b <= DIGIT_ZERO + 9
}

/// The value of a hexadecimal digit; any other byte counts as 0.
spec fn nibble_of(b: u8) -> nat {
    if DIGIT_ZERO <= b <= DIGIT_ZERO + 9 {
        (b - DIGIT_ZERO) as nat
    } else if LOWER_A <= b <= LOWER_A + 5 {
        (b - LOWER_A + 10) as nat
    } else {
        0
    }
}

/// The number that the bytes spell in hexadecimal, read leniently.
spec fn hex_value(s: Seq<u8>) -> nat
    decreases s.len(),
{
    if s.len() == 0 {
        0
    } else {
        hex_value(s.drop_last()) * 16 + nibble_of(s.last())
    }
}

/// 16 to the power `n`.
spec fn pow16(n: nat) -> nat
    decreases n,
{
    if n == 0 {
        1
    } else {
        16 * pow16((n - 1) as nat)
    }
}

/// The 32 digits of a 36-byte identifier, without its dashes.
spec fn uuid_digits(t: Seq<u8>) -> Seq<u8> {
    t.subrange(0, 8) + t.subrange(9, 13) + t.subrange(14, 18) + t.subrange(19, 23) + t.subrange(
        24,
        36,
    )
}

/// The number of decimal digits that stand at position `p` and after it.
spec fn digit_run(s: Seq<u8>, p: int) -> nat
    decreases s.len() - p,
{
    if 0 <= p < s.len() && is_digit(s[p]) {
        1 + digit_run(s, p + 1)
    } else {
        0
    }
}

/// The number that the digits spell in decimal, held at [`MAX_MAGNITUDE`] once
/// it goes beyond.
spec fn capped_value(s: Seq<u8>) -> nat
    decreases s.len(),
{
    if s.len() == 0 {
        0
    } else {
        let v = capped_value(s.drop_last()) * 10 + (s.last() - DIGIT_ZERO);
        if v > MAX_MAGNITUDE {
            MAX_MAGNITUDE as nat
        } else {
            v as nat
        }
    }
}

/// The integer that stands at position `p`, read leniently, and the number of
/// bytes that it takes.
spec fn int_at(s: Seq<u8>, p: int) -> (int, int) {
    if p < 0 || p > s.len() {
        (0, 0)
    } else if p < s.len() && s[p] == DASH {
        let n = digit_run(s, p + 1);
        (-(capped_value(s.subrange(p + 1, p + 1 + n)) as int), n as int + 1)
    } else {
        let n = digit_run(s, p);
        let m = capped_value(s.subrange(p, p + n));
        (
            if m > i64::MAX {
                i64::MAX as int
            } else {
                m as int
            },
            n as int,
        )
    }
}

/// The trust domain whose tag starts with the given letter.
spec fn kind_of_letter(b: u8) -> Option<TokenKind> {
    if b == 85 {
        Some(TokenKind::Auth)
    } else if b == 69 {
        Some(TokenKind::EmailVerification)
    } else if b == 84 {
        Some(TokenKind::TicketRedemption)
    } else {
        None
    }
}

/// The length of the tag of a trust domain.
spec fn tag_len(kind: TokenKind) -> int {
    match kind {
        TokenKind::Auth => 4,
        TokenKind::EmailVerification => 5,
        TokenKind::TicketRedemption => 6,
    }
}

/// The claims found at the places where a claims text holds them. This reads
/// leniently: it looks at the places only, not at what stands between them.
spec fn extract(s: Seq<u8>) -> Option<JwtClaims> {
    if s.len() < 14 {
        None
    } else {
        match kind_of_letter(s[13]) {
            None => None,
            Some(kind) => {
                let p_id = 13 + tag_len(kind) + 7;
                let p_sub = p_id + 36 + 10;
                let p_iat = p_sub + 36 + 8;
                if s.len() < p_iat {
                    None
                } else {
                    let id = hex_value(uuid_digits(s.subrange(p_id, p_id + 36)));
                    let sub = hex_value(uuid_digits(s.subrange(p_sub, p_sub + 36)));
                    let iat = int_at(s, p_iat);
                    let exp = int_at(s, p_iat + iat.1 + 7);
                    if id <= u128::MAX && sub <= u128::MAX {
                        Some(
                            JwtClaims {
                                dat: JwtType::of_spec(kind, id as u128),
                                sub: sub as u128,
                                iat: iat.0 as i64,
                                exp: exp.0 as i64,
                            },
                        )
                    } else {
                        None
                    }
                }
            },
        }
    }
}


/// Reading back the hexadecimal text of a number that fits its width gives the
/// number.
proof fn lemma_hex_round_trip(x: nat, width: nat)
    requires
        x < pow16(width),
    ensures
        hex_value(hex_text(x, width)) == x,
    decreases width,
{
    if width > 0 {
        let t = hex_text(x, width);
        assert(t.drop_last() == hex_text(x / 16, (width - 1) as nat));
        lemma_hex_round_trip(x / 16, (width - 1) as nat);
    }
}

/// Every 128-bit number fits 32 hexadecimal digits.
proof fn lemma_pow16_32()
    ensures
        pow16(32) == 0x1_0000_0000_0000_0000_0000_0000_0000_0000,
{
    reveal_with_fuel(pow16, 9);
    assert(pow16(8) == 0x1_0000_0000);
    assert(pow16(16) == 0x1_0000_0000_0000_0000);
    assert(pow16(24) == 0x1_0000_0000_0000_0000_0000_0000);
}

/// Reading back the 36-byte form of an identifier gives the identifier.
proof fn lemma_uuid_round_trip(id: u128)
    ensures
        uuid_text(id).len() == 36,
        hex_value(uuid_digits(uuid_text(id))) == id,
{
    let h = hex_text(id as nat, 32);
    lemma_hex_text_len(id as nat, 32);
    lemma_pow16_32();
    lemma_hex_round_trip(id as nat, 32);
    assert(uuid_digits(uuid_text(id)) == h);
}

/// A decimal text is never empty and holds digits only.
proof fn lemma_nat_text_digits(n: nat)
    ensures
        nat_text(n).len() >= 1,
        forall|i: int| 0 <= i < nat_text(n).len() ==> is_digit(#[trigger] nat_text(n)[i]),
    decreases n,
{
    if n >= 10 {
        lemma_nat_text_digits(n / 10);
    }
}

/// Reading back the decimal text of a magnitude gives the magnitude.
proof fn lemma_nat_round_trip(n: nat)
    requires
        n <= MAX_MAGNITUDE,
    ensures
        capped_value(nat_text(n)) == n,
    decreases n,
{
    let t = nat_text(n);
    if n < 10 {
        assert(t.drop_last() == Seq::<u8>::empty());
        assert(capped_value(t.drop_last()) == 0);
        assert(t.last() == DIGIT_ZERO + n);
    } else {
        assert(t.drop_last() == nat_text(n / 10));
        lemma_nat_round_trip(n / 10);
        assert(t.last() == DIGIT_ZERO + n % 10);
    }
}

/// Digits that stand between two texts, the second of which does not start with
/// a digit, form a run of their own length.
proof fn lemma_digit_run(pre: Seq<u8>, digits: Seq<u8>, post: Seq<u8>)
    requires
        forall|i: int| 0 <= i < digits.len() ==> is_digit(#[trigger] digits[i]),
        post.len() == 0 || !is_digit(post[0]),
    ensures
        digit_run(pre + digits + post, pre.len() as int) == digits.len(),
    decreases digits.len(),
{
    let s = pre + digits + post;
    let p = pre.len() as int;
    if digits.len() == 0 {
        if post.len() > 0 {
            assert(s[p] == post[0]);
        }
    } else {
        assert(s[p] == digits[0]);
        let pre2 = pre.push(digits[0]);
        let digits2 = digits.drop_first();
        assert(pre2 + digits2 + post == s);
        assert forall|i: int| 0 <= i < digits2.len() implies is_digit(#[trigger] digits2[i]) by {
            assert(digits2[i] == digits[i + 1]);
        }
        lemma_digit_run(pre2, digits2, post);
    }
}

/// An integer that stands between two texts, the second of which starts with
/// something other than a digit, is read back as it was written.
proof fn lemma_int_round_trip(pre: Seq<u8>, x: i64, post: Seq<u8>)
    requires
        post.len() == 0 || !is_digit(post[0]),
    ensures
        int_at(pre + int_text(x as int) + post, pre.len() as int) == (
            x as int,
            int_text(x as int).len() as int,
        ),
{
    let s = pre + int_text(x as int) + post;
    let p = pre.len() as int;
    if x < 0 {
        let m = (-x) as nat;
        let digits = nat_text(m);
        lemma_nat_text_digits(m);
        lemma_nat_round_trip(m);
        assert(s[p] == DASH);
        let pre2 = pre.push(DASH);
        assert(pre2 + digits + post == s);
        lemma_digit_run(pre2, digits, post);
        assert(s.subrange(p + 1, p + 1 + digits.len()) == digits);
    } else {
        let digits = nat_text(x as nat);
        lemma_nat_text_digits(x as nat);
        lemma_nat_round_trip(x as nat);
        assert(s[p] == digits[0]);
        assert(is_digit(digits[0]));
        lemma_digit_run(pre, digits, post);
        assert(s.subrange(p, p + digits.len()) == digits);
    }
}


/// Reading the places of a claims text gives back the claims it was written
/// from.
proof fn lemma_extract_round_trip(c: JwtClaims)
    ensures
        extract(claims_text(c)) == Some(c),
{
    reveal_strlit("{\"dat\":{\"t\":\"");
    reveal_strlit("User");
    reveal_strlit("Email");
    reveal_strlit("Ticket");
    reveal_strlit("\",\"v\":\"");
    reveal_strlit("\"},\"sub\":\"");
    reveal_strlit("\",\"iat\":");
    reveal_strlit(",\"exp\":");
    reveal_strlit("}");
    let kind = c.dat.kind_spec();
    let head = ascii("{\"dat\":{\"t\":\""@);
    let tag = tag_text(kind);
    let a = ascii("\",\"v\":\""@);
    let id_t = uuid_text(c.dat.id_spec());
    let b = ascii("\"},\"sub\":\""@);
    let sub_t = uuid_text(c.sub);
    let d = ascii("\",\"iat\":"@);
    let iat_t = int_text(c.iat as int);
    let e = ascii(",\"exp\":"@);
    let exp_t = int_text(c.exp as int);
    let f = ascii("}"@);
    let s = claims_text(c);
    lemma_uuid_round_trip(c.dat.id_spec());
    lemma_uuid_round_trip(c.sub);
    assert(tag.len() == tag_len(kind));
    assert(s[13] == tag[0]);
    assert(kind_of_letter(s[13]) == Some(kind));
    let p_id = 13 + tag_len(kind) + 7;
    let p_sub = p_id + 36 + 10;
    let p_iat = p_sub + 36 + 8;
    assert(s.subrange(p_id, p_id + 36) == id_t);
    assert(s.subrange(p_sub, p_sub + 36) == sub_t);
    let pre1 = head + tag + a + id_t + b + sub_t + d;
    let post1 = e + exp_t + f;
    assert(s == pre1 + iat_t + post1);
    assert(post1[0] == e[0]);
    lemma_int_round_trip(pre1, c.iat, post1);
    let pre2 = pre1 + iat_t + e;
    assert(s == pre2 + exp_t + f);
    lemma_int_round_trip(pre2, c.exp, f);
    assert(pre1.len() == p_iat);
    assert(pre2.len() == p_iat + iat_t.len() + 7);
    assert(JwtType::of_spec(kind, c.dat.id_spec()) == c.dat);
}

/// Two claims with the same text are the same claims.
pub proof fn lemma_claims_text_injective(a: JwtClaims, b: JwtClaims)
    requires
        claims_text(a) == claims_text(b),
    ensures
        a == b,
{
    lemma_extract_round_trip(a);
    lemma_extract_round_trip(b);
}

/// The text of given claims stands for those claims.
pub proof fn lemma_claims_of_text(c: JwtClaims)
    ensures
        is_claims_text(claims_text(c)),
        claims_of_text(claims_text(c)) == Some(c),
{
    let found = choose|x: JwtClaims| claims_text(c) == claims_text(x);
    lemma_claims_text_injective(c, found);
}


/// Powers of 16 grow with the exponent.
proof fn lemma_pow16_monotonic(a: nat, b: nat)
    requires
        a <= b,
    ensures
        pow16(a) <= pow16(b),
    decreases b,
{
    if a < b {
        lemma_pow16_monotonic(a, (b - 1) as nat);
    }
}

/// The number that 32 bytes spell in hexadecimal.
fn hex_fold(digits: &Vec<u8>) -> (r: u128)
    requires
        digits.len() == 32,
    ensures
        r == hex_value(digits@),
{
    let mut acc: u128 = 0;
    let mut i: usize = 0;
    while i < 32
        invariant
            i <= 32,
            digits.len() == 32,
            acc == hex_value(digits@.subrange(0, i as int)),
            acc < pow16(i as nat),
        decreases 32 - i,
    {
        let b = digits[i];
        let nibble: u128 = if b >= DIGIT_ZERO && b <= DIGIT_ZERO + 9 {
            (b - DIGIT_ZERO) as u128
        } else if b >= LOWER_A && b <= LOWER_A + 5 {
            (b - LOWER_A + 10) as u128
        } else {
            0
        };
        proof {
            lemma_pow16_monotonic((i + 1) as nat, 32);
            lemma_pow16_32();
            assert(digits@.subrange(0, i + 1).drop_last() == digits@.subrange(0, i as int));
        }
        acc = acc * 16 + nibble;
        i += 1;
    }
    assert(digits@.subrange(0, 32) == digits@);
    acc
}

/// The identifier whose 36-byte form starts at position `p`, read leniently.
fn uuid_at(text: &[u8], p: usize) -> (r: u128)
    requires
        p + 36 <= text.len(),
    ensures
        r == hex_value(uuid_digits(text@.subrange(p as int, p + 36))),
{
    let mut digits: Vec<u8> = Vec::new();
    push_range(&mut digits, text, p, p + 8);
    push_range(&mut digits, text, p + 9, p + 13);
    push_range(&mut digits, text, p + 14, p + 18);
    push_range(&mut digits, text, p + 19, p + 23);
    push_range(&mut digits, text, p + 24, p + 36);
    assert(digits@ == uuid_digits(text@.subrange(p as int, p + 36)));
    hex_fold(&digits)
}

/// The digits that start at position `p`: what they spell, held at
/// [`MAX_MAGNITUDE`], and how many they are.
fn digits_at(text: &[u8], p: usize) -> (r: (u64, usize))
    requires
        p <= text.len(),
    ensures
        r.1 == digit_run(text@, p as int),
        p + r.1 <= text.len(),
        r.0 == capped_value(text@.subrange(p as int, p + r.1)),
        r.0 <= MAX_MAGNITUDE,
{
    let mut i: usize = p;
    let mut acc: u64 = 0;
    assert(text@.subrange(p as int, p as int) == Seq::<u8>::empty());
    while i < text.len() && text[i] >= DIGIT_ZERO && text[i] <= DIGIT_ZERO + 9
        invariant
            p <= i <= text.len(),
            acc == capped_value(text@.subrange(p as int, i as int)),
            acc <= MAX_MAGNITUDE,
            digit_run(text@, p as int) == (i - p) + digit_run(text@, i as int),
        decreases text.len() - i,
    {
        let wide: u128 = (acc as u128) * 10 + ((text[i] - DIGIT_ZERO) as u128);
        proof {
            assert(text@.subrange(p as int, i + 1).drop_last() == text@.subrange(
                p as int,
                i as int,
            ));
        }
        acc = if wide > MAX_MAGNITUDE as u128 {
            MAX_MAGNITUDE
        } else {
            wide as u64
        };
        i += 1;
    }
    (acc, i - p)
}

/// The integer that stands at position `p`, read leniently, and the number of
/// bytes that it takes.
fn int_at_exec(text: &[u8], p: usize) -> (r: (i64, usize))
    requires
        p <= text.len(),
    ensures
        (r.0 as int, r.1 as int) == int_at(text@, p as int),
        p + r.1 <= text.len(),
{
    if p < text.len() && text[p] == DASH {
        let (m, n) = digits_at(text, p + 1);
        let value: i64 = if m >= MAX_MAGNITUDE {
            i64::MIN
        } else {
            -(m as i64)
        };
        (value, n + 1)
    } else {
        let (m, n) = digits_at(text, p);
        let value: i64 = if m > i64::MAX as u64 {
            i64::MAX
        } else {
            m as i64
        };
        (value, n)
    }
}

/// Reads the places of a claims text.
fn extract_exec(text: &[u8]) -> (r: Option<JwtClaims>)
    ensures
        r == extract(text@),
{
    let len = text.len();
    if len < 14 {
        return None;
    }
    let letter = text[13];
    let (kind, tag_len): (TokenKind, usize) = if letter == 85 {
        (TokenKind::Auth, 4)
    } else if letter == 69 {
        (TokenKind::EmailVerification, 5)
    } else if letter == 84 {
        (TokenKind::TicketRedemption, 6)
    } else {
        return None;
    };
    let p_id: usize = 13 + tag_len + 7;
    let p_sub: usize = p_id + 36 + 10;
    let p_iat: usize = p_sub + 36 + 8;
    if len < p_iat {
        return None;
    }
    let id = uuid_at(text, p_id);
    let sub = uuid_at(text, p_sub);
    let (iat, n_iat) = int_at_exec(text, p_iat);
    let exp: i64 = if len - p_iat - n_iat >= 7 {
        int_at_exec(text, p_iat + n_iat + 7).0
    } else {
        0
    };
    Some(JwtClaims { dat: JwtType::of(kind, id), sub, iat, exp })
}

/// Whether two byte strings are the same.
fn bytes_equal(a: &[u8], b: &[u8]) -> (r: bool)
    ensures
        r == (a@ == b@),
{
    if a.len() != b.len() {
        return false;
    }
    let mut i: usize = 0;
    while i < a.len()
        invariant
            i <= a.len(),
            a.len() == b.len(),
            forall|j: int| 0 <= j < i ==> a@[j] == b@[j],
        decreases a.len() - i,
    {
        if a[i] != b[i] {
            return false;
        }
        i += 1;
    }
    assert(a@ =~= b@);
    true
}

/// Reads claims back from their text. Only a text that [`render_claims`] can
/// produce is accepted, and it gives the claims it was written from.
pub fn parse_claims(text: &[u8]) -> (r: Option<JwtClaims>)
    ensures
        r == claims_of_text(text@),
        r matches Some(c) ==> text@ == claims_text(c),
        r is None ==> forall|c: JwtClaims| text@ != #[trigger] claims_text(c),
{
    match extract_exec(text) {
        None => {
            proof {
                assert forall|c: JwtClaims| text@ != #[trigger] claims_text(c) by {
                    lemma_extract_round_trip(c);
                }
            }
            None
        },
        Some(c) => {
            let again = render_claims(&c);
            if bytes_equal(again.as_slice(), text) {
                proof {
                    lemma_claims_of_text(c);
                }
                Some(c)
            } else {
                proof {
                    assert forall|x: JwtClaims| text@ != #[trigger] claims_text(x) by {
                        lemma_extract_round_trip(x);
                    }
                }
                None
            }
        },
    }
}

} // verus!
