use vstd::prelude::*;

verus! {

/// The lowercase hexadecimal digit of a value below sixteen.
pub open spec fn hex_digit(n: int) -> char {
    if n < 10 {
        (n + 48) as char
    } else {
        (n + 87) as char
    }
}

/// The last `count` hexadecimal digits of `v`, most significant first.
pub open spec fn hex_digits(v: nat, count: nat) -> Seq<char>
    decreases count,
{
    if count == 0 {
        seq![]
    } else {
        hex_digits(v / 16, (count - 1) as nat).push(hex_digit((v % 16) as int))
    }
}

/// The hyphenated text of a UUID whose 128 bits, most significant first, are
/// `id`: its 32 lowercase hexadecimal digits in groups of 8, 4, 4, 4 and 12,
/// joined by hyphens.
pub open spec fn uuid_text(id: u128) -> Seq<char> {
    let h = hex_digits(id as nat, 32);
    h.subrange(0, 8) + seq!['-'] + h.subrange(8, 12) + seq!['-'] + h.subrange(12, 16) + seq!['-']
        + h.subrange(16, 20) + seq!['-'] + h.subrange(20, 32)
}

/// `hex_digits` gives exactly `count` digits.
pub proof fn lemma_hex_digits_len(v: nat, count: nat)
    ensures
        hex_digits(v, count).len() == count,
    decreases count,
{
    if count > 0 {
        lemma_hex_digits_len(v / 16, (count - 1) as nat);
    }
}

/// The hyphenated text of a UUID has 36 characters.
pub proof fn lemma_uuid_text_len(id: u128)
    ensures
        uuid_text(id).len() == 36,
{
    lemma_hex_digits_len(id as nat, 32);
}

/// Sixteen to the power `n`.
pub open spec fn pow16(n: nat) -> nat
    decreases n,
{
    if n == 0 { 1 } else { 16 * pow16((n - 1) as nat) }
}

/// Each digit is a lowercase hexadecimal digit, and different values below
/// sixteen have different digits.
pub proof fn lemma_hex_digit(a: int, b: int)
    requires
        0 <= a < 16,
        0 <= b < 16,
    ensures
        ('0' <= hex_digit(a) <= '9') || ('a' <= hex_digit(a) <= 'f'),
        hex_digit(a) == hex_digit(b) ==> a == b,
{
}

/// Values below `16^count` with the same `count` digits are equal.
pub proof fn lemma_hex_digits_injective(v: nat, w: nat, count: nat)
    requires
        v < pow16(count),
        w < pow16(count),
        hex_digits(v, count) == hex_digits(w, count),
    ensures
        v == w,
    decreases count,
{
    if count > 0 {
        let c1 = (count - 1) as nat;
        lemma_hex_digits_len(v / 16, c1);
        lemma_hex_digits_len(w / 16, c1);
        let hv = hex_digits(v, count);
        let hw = hex_digits(w, count);
        assert(hv[c1 as int] == hex_digit((v % 16) as int));
        assert(hw[c1 as int] == hex_digit((w % 16) as int));
        lemma_hex_digit((v % 16) as int, (w % 16) as int);
        assert(hex_digits(v / 16, c1) =~= hv.drop_last());
        assert(hex_digits(w / 16, c1) =~= hw.drop_last());
        let p = pow16(c1);
        assert(v / 16 < p) by (nonlinear_arith)
            requires
                v < 16 * p,
        ;
        assert(w / 16 < p) by (nonlinear_arith)
            requires
                w < 16 * p,
        ;
        lemma_hex_digits_injective(v / 16, w / 16, c1);
    }
}

/// Different UUIDs have different texts: the text identifies the UUID.
pub proof fn lemma_uuid_text_injective(a: u128, b: u128)
    requires
        uuid_text(a) == uuid_text(b),
    ensures
        a == b,
{
    lemma_hex_digits_len(a as nat, 32);
    lemma_hex_digits_len(b as nat, 32);
    let ha = hex_digits(a as nat, 32);
    let hb = hex_digits(b as nat, 32);
    let ta = uuid_text(a);
    let tb = uuid_text(b);
    assert(ha =~= ta.subrange(0, 8) + ta.subrange(9, 13) + ta.subrange(14, 18) + ta.subrange(19, 23)
        + ta.subrange(24, 36));
    assert(hb =~= tb.subrange(0, 8) + tb.subrange(9, 13) + tb.subrange(14, 18) + tb.subrange(19, 23)
        + tb.subrange(24, 36));
    reveal_with_fuel(pow16, 33);
    assert(pow16(32) == 0x1_0000_0000_0000_0000_0000_0000_0000_0000nat);
    lemma_hex_digits_injective(a as nat, b as nat, 32);
}

/// The text of a UUID has hyphens at positions 8, 13, 18 and 23 and a
/// lowercase hexadecimal digit everywhere else.
pub proof fn lemma_uuid_text_shape(id: u128)
    ensures
        uuid_text(id).len() == 36,
        uuid_text(id)[8] == '-',
        uuid_text(id)[13] == '-',
        uuid_text(id)[18] == '-',
        uuid_text(id)[23] == '-',
        forall|i: int|
            0 <= i < 36 && i != 8 && i != 13 && i != 18 && i != 23 ==> ('0' <= #[trigger] uuid_text(id)[i] <= '9')
                || ('a' <= uuid_text(id)[i] <= 'f'),
{
    lemma_uuid_text_len(id);
    lemma_hex_digits_chars(id as nat, 32);
    lemma_hex_digits_len(id as nat, 32);
    let h = hex_digits(id as nat, 32);
    let t = uuid_text(id);
    assert(t == h.subrange(0, 8) + seq!['-'] + h.subrange(8, 12) + seq!['-'] + h.subrange(12, 16) + seq!['-']
        + h.subrange(16, 20) + seq!['-'] + h.subrange(20, 32));
    assert forall|i: int| 0 <= i < 36 && i != 8 && i != 13 && i != 18 && i != 23 implies ('0' <= #[trigger] t[i] <= '9')
        || ('a' <= t[i] <= 'f') by {
        let k = if i < 8 { i } else if i < 13 { i - 1 } else if i < 18 { i - 2 } else if i < 23 { i - 3 } else { i - 4 };
        assert(t[i] == h[k]);
    }
}

/// Every one of the `count` digits is a lowercase hexadecimal digit.
pub proof fn lemma_hex_digits_chars(v: nat, count: nat)
    ensures
        forall|i: int| 0 <= i < count ==> ('0' <= #[trigger] hex_digits(v, count)[i] <= '9')
            || ('a' <= hex_digits(v, count)[i] <= 'f'),
    decreases count,
{
    lemma_hex_digits_len(v, count);
    if count > 0 {
        let c1 = (count - 1) as nat;
        lemma_hex_digits_chars(v / 16, c1);
        lemma_hex_digits_len(v / 16, c1);
        lemma_hex_digit((v % 16) as int, 0);
        assert forall|i: int| 0 <= i < count implies ('0' <= #[trigger] hex_digits(v, count)[i] <= '9')
            || ('a' <= hex_digits(v, count)[i] <= 'f') by {
            if i < c1 {
                assert(hex_digits(v, count)[i] == hex_digits(v / 16, c1)[i]);
            }
        }
    }
}

/// The nil UUID.
pub const NIL_UUID: u128 = 0;

/// Calls `uuid::Uuid::from_u128` and then the `Display` impl of `uuid::Uuid`,
/// which writes the hyphenated lowercase form. The contract claims that the
/// text is that form of the UUID whose bits, most significant first, are `id`.
#[verifier::external_body]
pub(crate) fn uuid_to_text(id: u128) -> (s: String)
    ensures
        s@ == uuid_text(id),
{
    uuid::Uuid::from_u128(id).to_string()
}

} // verus!
