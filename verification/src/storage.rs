use vstd::prelude::*;

verus! {

/// The directory under which page images are stored.
pub const DATA_DIR: &'static str = "./data";

/// The lowercase hexadecimal digit for `d` (0 <= d < 16).
pub open spec fn hex_digit(d: nat) -> char {
    if d < 10 {
        (('0' as int) + d) as char
    } else {
        (('a' as int) + (d - 10)) as char
    }
}

/// The last `n` lowercase hexadecimal digits of `v`, most significant first.
pub open spec fn lower_hex(v: nat, n: nat) -> Seq<char>
    decreases n,
{
    if n == 0 {
        Seq::<char>::empty()
    } else {
        lower_hex(v / 16, (n - 1) as nat).push(hex_digit(v % 16))
    }
}

/// 16 to the power `n`.
pub open spec fn pow16(n: nat) -> nat
    decreases n,
{
    if n == 0 {
        1
    } else {
        16 * pow16((n - 1) as nat)
    }
}

/// The simple form of the UUID with the 128 bits `uuid`: its 32 lowercase
/// hexadecimal digits without hyphens.
pub open spec fn uuid_simple(uuid: u128) -> Seq<char> {
    lower_hex(uuid as nat, 32)
}

/// Where the source image of page `uuid` is stored.
pub open spec fn source_image_path(uuid: u128) -> Seq<char> {
    DATA_DIR@ + "/pages/"@ + uuid_simple(uuid) + "/source"@
}

/// Where the translated image of page `uuid` is stored.
pub open spec fn translated_image_path(uuid: u128) -> Seq<char> {
    DATA_DIR@ + "/pages/"@ + uuid_simple(uuid) + "/translated"@
}

/// `Uuid::from_u128(uuid).simple().to_string()`. Claimed: the 32 lowercase
/// hexadecimal digits of the big-endian bytes, each byte's high nibble first,
/// which is `uuid_simple(uuid)`.
#[verifier::external_body]
fn uuid_simple_string(uuid: u128) -> (res: String)
    ensures
        res@ == uuid_simple(uuid),
{
    uuid::Uuid::from_u128(uuid).simple().to_string()
}

/// The path of the source image of page `uuid`:
/// `./data/pages/<uuid in simple form>/source`.
pub fn get_source_image_path(uuid: u128) -> (path: String)
    ensures
        path@ == source_image_path(uuid),
        path@.len() == 52,
        path@.subrange(0, 13) == "./data/pages/"@,
        path@.subrange(45, 52) == "/source"@,
{
    proof {
        lemma_source_image_path_layout(uuid);
    }
    let mut path = DATA_DIR.to_owned();
    path.append("/pages/");
    let id = uuid_simple_string(uuid);
    path.append(id.as_str());
    path.append("/source");
    path
}

/// The path of the translated image of page `uuid`:
/// `./data/pages/<uuid in simple form>/translated`.
pub fn get_translated_image_path(uuid: u128) -> (path: String)
    ensures
        path@ == translated_image_path(uuid),
        path@.len() == 56,
        path@.subrange(0, 13) == "./data/pages/"@,
        path@.subrange(45, 56) == "/translated"@,
{
    proof {
        lemma_translated_image_path_layout(uuid);
    }
    let mut path = DATA_DIR.to_owned();
    path.append("/pages/");
    let id = uuid_simple_string(uuid);
    path.append(id.as_str());
    path.append("/translated");
    path
}

proof fn lemma_lower_hex_len(v: nat, n: nat)
    ensures
        lower_hex(v, n).len() == n,
    decreases n,
{
    if n > 0 {
        lemma_lower_hex_len(v / 16, (n - 1) as nat);
    }
}

proof fn lemma_hex_digit_injective(a: nat, b: nat)
    requires
        0 <= a < 16,
        0 <= b < 16,
        hex_digit(a) == hex_digit(b),
    ensures
        a == b,
{
}

proof fn lemma_lower_hex_injective(a: nat, b: nat, n: nat)
    requires
        lower_hex(a, n) == lower_hex(b, n),
    ensures
        a % pow16(n) == b % pow16(n),
    decreases n,
{
    if n == 0 {
    } else {
        let m = (n - 1) as nat;
        let sa = lower_hex(a / 16, m);
        let sb = lower_hex(b / 16, m);
        lemma_lower_hex_len(a / 16, m);
        lemma_lower_hex_len(b / 16, m);
        assert(lower_hex(a, n) == sa.push(hex_digit(a % 16)));
        assert(lower_hex(b, n) == sb.push(hex_digit(b % 16)));
        assert(lower_hex(a, n)[m as int] == hex_digit(a % 16));
        assert(lower_hex(b, n)[m as int] == hex_digit(b % 16));
        lemma_hex_digit_injective(a % 16, b % 16);
        assert(sa =~= lower_hex(a, n).drop_last());
        assert(sb =~= lower_hex(b, n).drop_last());
        lemma_lower_hex_injective(a / 16, b / 16, m);
        lemma_pow16_positive(m);
        vstd::arithmetic::div_mod::lemma_mod_breakdown(a as int, 16, pow16(m) as int);
        vstd::arithmetic::div_mod::lemma_mod_breakdown(b as int, 16, pow16(m) as int);
    }
}

proof fn lemma_pow16_positive(n: nat)
    ensures
        pow16(n) > 0,
    decreases n,
{
    if n > 0 {
        lemma_pow16_positive((n - 1) as nat);
    }
}

/// The `i`-th of the `n` last hexadecimal digits of `v`, counted from the most
/// significant, is the digit of `v / 16^(n - 1 - i)`.
proof fn lemma_lower_hex_digit(v: nat, n: nat, i: int)
    requires
        0 <= i < n,
    ensures
        lower_hex(v, n).len() == n,
        lower_hex(v, n)[i] == hex_digit((v / pow16((n - 1 - i) as nat)) % 16),
    decreases n,
{
    lemma_lower_hex_len(v, n);
    let m = (n - 1) as nat;
    lemma_lower_hex_len(v / 16, m);
    assert(lower_hex(v, n) == lower_hex(v / 16, m).push(hex_digit(v % 16)));
    if i == m {
        assert(pow16(0) == 1);
        assert(v / 1 == v);
    } else {
        lemma_lower_hex_digit(v / 16, m, i);
        let k = (m - 1 - i) as nat;
        lemma_pow16_positive(k);
        vstd::arithmetic::div_mod::lemma_div_denominator(v as int, 16, pow16(k) as int);
        assert(pow16((n - 1 - i) as nat) == 16 * pow16(k));
        assert(lower_hex(v, n)[i] == lower_hex(v / 16, m)[i]);
    }
}

/// The 32 characters of a uuid in simple form, one for each of its nibbles
/// from the most significant: `'0'..='9'` for 0 to 9, `'a'..='f'` for 10 to 15.
proof fn lemma_uuid_simple_digits(uuid: u128)
    ensures
        uuid_simple(uuid).len() == 32,
        forall|j: int|
            0 <= j < 32 ==> #[trigger] uuid_simple(uuid)[j] == ({
                let d = (uuid as nat / pow16((31 - j) as nat)) % 16;
                if d < 10 {
                    (('0' as int) + d) as char
                } else {
                    (('a' as int) + d - 10) as char
                }
            }),
{
    lemma_lower_hex_len(uuid as nat, 32);
    assert forall|j: int| 0 <= j < 32 implies #[trigger] uuid_simple(uuid)[j] == ({
        let d = (uuid as nat / pow16((31 - j) as nat)) % 16;
        if d < 10 {
            (('0' as int) + d) as char
        } else {
            (('a' as int) + d - 10) as char
        }
    }) by {
        lemma_lower_hex_digit(uuid as nat, 32, j);
    }
}

/// Where a page's source image lies, written out: `./data/pages/`, then the
/// 32 lowercase hexadecimal digits of the uuid, most significant first, then
/// `/source`; 52 characters in all, for every uuid.
pub proof fn lemma_source_image_path_layout(uuid: u128)
    ensures
        source_image_path(uuid).len() == 52,
        source_image_path(uuid).subrange(0, 13) == "./data/pages/"@,
        source_image_path(uuid).subrange(45, 52) == "/source"@,
        forall|i: int|
            13 <= i < 45 ==> #[trigger] source_image_path(uuid)[i] == ({
                let d = (uuid as nat / pow16((44 - i) as nat)) % 16;
                if d < 10 {
                    (('0' as int) + d) as char
                } else {
                    (('a' as int) + d - 10) as char
                }
            }),
{
    reveal_strlit("./data");
    reveal_strlit("/pages/");
    reveal_strlit("./data/pages/");
    reveal_strlit("/source");
    lemma_uuid_simple_digits(uuid);
    let p = source_image_path(uuid);
    let hex = uuid_simple(uuid);
    assert(p.subrange(0, 13) =~= "./data/pages/"@);
    assert(p.subrange(45, 52) =~= "/source"@);
    assert forall|i: int| 13 <= i < 45 implies #[trigger] p[i] == hex[i - 13] by {}
}

/// Where a page's translated image lies, written out: `./data/pages/`, then
/// the 32 lowercase hexadecimal digits of the uuid, most significant first,
/// then `/translated`; 56 characters in all, for every uuid.
pub proof fn lemma_translated_image_path_layout(uuid: u128)
    ensures
        translated_image_path(uuid).len() == 56,
        translated_image_path(uuid).subrange(0, 13) == "./data/pages/"@,
        translated_image_path(uuid).subrange(45, 56) == "/translated"@,
        forall|i: int|
            13 <= i < 45 ==> #[trigger] translated_image_path(uuid)[i] == ({
                let d = (uuid as nat / pow16((44 - i) as nat)) % 16;
                if d < 10 {
                    (('0' as int) + d) as char
                } else {
                    (('a' as int) + d - 10) as char
                }
            }),
{
    reveal_strlit("./data");
    reveal_strlit("/pages/");
    reveal_strlit("./data/pages/");
    reveal_strlit("/translated");
    lemma_uuid_simple_digits(uuid);
    let p = translated_image_path(uuid);
    let hex = uuid_simple(uuid);
    assert(p.subrange(0, 13) =~= "./data/pages/"@);
    assert(p.subrange(45, 56) =~= "/translated"@);
    assert forall|i: int| 13 <= i < 45 implies #[trigger] p[i] == hex[i - 13] by {}
}

/// Two different pages never share an image file, and the source image of a
/// page is never stored where a translated image is.
pub proof fn lemma_image_paths_distinct(a: u128, b: u128)
    ensures
        source_image_path(a) != translated_image_path(b),
        source_image_path(a) == source_image_path(b) ==> a == b,
        translated_image_path(a) == translated_image_path(b) ==> a == b,
{
    reveal_strlit("./data");
    reveal_strlit("/pages/");
    reveal_strlit("/source");
    reveal_strlit("/translated");
    lemma_lower_hex_len(a as nat, 32);
    lemma_lower_hex_len(b as nat, 32);
    assert(source_image_path(a).len() != translated_image_path(b).len());
    assert(pow16(32) == 0x1_0000_0000_0000_0000_0000_0000_0000_0000) by {
        reveal_with_fuel(pow16, 33);
    }
    let prefix = DATA_DIR@ + "/pages/"@;
    if source_image_path(a) == source_image_path(b) {
        assert(uuid_simple(a) =~= source_image_path(a).subrange(
            prefix.len() as int,
            prefix.len() + 32int,
        ));
        assert(uuid_simple(b) =~= source_image_path(b).subrange(
            prefix.len() as int,
            prefix.len() + 32int,
        ));
        lemma_lower_hex_injective(a as nat, b as nat, 32);
    }
    if translated_image_path(a) == translated_image_path(b) {
        assert(uuid_simple(a) =~= translated_image_path(a).subrange(
            prefix.len() as int,
            prefix.len() + 32int,
        ));
        assert(uuid_simple(b) =~= translated_image_path(b).subrange(
            prefix.len() as int,
            prefix.len() + 32int,
        ));
        lemma_lower_hex_injective(a as nat, b as nat, 32);
    }
}

} // verus!
