use vstd::prelude::*;

use crate::text::{
    bool_text, dec_int, dec_nat, is_digit_char, lemma_dec_int_injective, lemma_dec_nat_digits,
    lemma_dec_nat_injective, push_bool, push_decimal, push_signed_decimal,
};

verus! {

/// The cache key of one micro: `micro_{id}`.
pub open spec fn micro_key_text(id: nat) -> Seq<char> {
    "micro_"@ + dec_nat(id)
}

/// The cache key of one page of a type: `micros_typ_{typ}_{page_num}_{is_desc}`.
pub open spec fn list_key_text(typ: int, page_num: nat, is_desc: bool) -> Seq<char> {
    "micros_typ_"@ + dec_int(typ) + "_"@ + dec_nat(page_num) + "_"@ + bool_text(is_desc)
}

/// The cache key of one micro: `micro_{id}`.
pub fn micro_key(id: u64) -> (r: String)
    ensures
        r@ == micro_key_text(id as nat),
{
    let mut out = String::from_str("micro_");
    push_decimal(&mut out, id);
    out
}

/// The cache key of one page of a type: `micros_typ_{typ}_{page_num}_{is_desc}`.
pub fn list_key(typ: i8, page_num: u16, is_desc: bool) -> (r: String)
    ensures
        r@ == list_key_text(typ as int, page_num as nat, is_desc),
{
    let mut out = String::from_str("micros_typ_");
    push_signed_decimal(&mut out, typ as i64);
    out.append("_");
    push_decimal(&mut out, page_num as u64);
    out.append("_");
    push_bool(&mut out, is_desc);
    assert(out@ =~= list_key_text(typ as int, page_num as nat, is_desc));
    out
}

/// Whether `s` holds no `_`.
pub open spec fn no_underscore(s: Seq<char>) -> bool {
    forall|k: int| 0 <= k < s.len() ==> #[trigger] s[k] != '_'
}

proof fn lemma_dec_int_no_underscore(i: int)
    ensures
        no_underscore(dec_int(i)),
{
    let n: nat = if i < 0 { (-i) as nat } else { i as nat };
    lemma_dec_nat_digits(n);
    assert forall|k: int| 0 <= k < dec_int(i).len() implies #[trigger] dec_int(i)[k] != '_' by {
        if i < 0 {
            if k > 0 {
                assert(dec_int(i)[k] == dec_nat(n)[k - 1]);
                assert(is_digit_char(dec_nat(n)[k - 1]));
            }
        } else {
            assert(is_digit_char(dec_nat(n)[k]));
        }
    }
}

proof fn lemma_dec_nat_no_underscore(n: nat)
    ensures
        no_underscore(dec_nat(n)),
{
    lemma_dec_nat_digits(n);
    assert forall|k: int| 0 <= k < dec_nat(n).len() implies #[trigger] dec_nat(n)[k] != '_' by {
        assert(is_digit_char(dec_nat(n)[k]));
    }
}

/// Splitting at the first `_`: a part free of `_`, then `_`, then the rest,
/// is split one way only.
proof fn lemma_split_at_underscore(x: Seq<char>, y: Seq<char>, x2: Seq<char>, y2: Seq<char>)
    requires
        no_underscore(x),
        no_underscore(x2),
        x + seq!['_'] + y == x2 + seq!['_'] + y2,
    ensures
        x == x2,
        y == y2,
{
    let s = x + seq!['_'] + y;
    let s2 = x2 + seq!['_'] + y2;
    if x.len() < x2.len() {
        assert(s[x.len() as int] == '_');
        assert(s2[x.len() as int] == x2[x.len() as int]);
    } else if x2.len() < x.len() {
        assert(s2[x2.len() as int] == '_');
        assert(s[x2.len() as int] == x[x2.len() as int]);
    } else {
        assert(x =~= s.subrange(0, x.len() as int));
        assert(x2 =~= s2.subrange(0, x2.len() as int));
        assert(y =~= s.subrange(x.len() as int + 1, s.len() as int));
        assert(y2 =~= s2.subrange(x2.len() as int + 1, s2.len() as int));
    }
}

/// Different micros are cached under different keys.
pub proof fn lemma_micro_key_injective(a: nat, b: nat)
    requires
        micro_key_text(a) == micro_key_text(b),
    ensures
        a == b,
{
    let p = "micro_"@;
    assert(dec_nat(a) =~= micro_key_text(a).subrange(p.len() as int, micro_key_text(a).len() as int));
    assert(dec_nat(b) =~= micro_key_text(b).subrange(p.len() as int, micro_key_text(b).len() as int));
    lemma_dec_nat_injective(a, b);
}

/// Different page queries (type, page number, order) are cached under
/// different keys.
pub proof fn lemma_list_key_injective(
    typ: int,
    page_num: nat,
    is_desc: bool,
    typ2: int,
    page_num2: nat,
    is_desc2: bool,
)
    requires
        list_key_text(typ, page_num, is_desc) == list_key_text(typ2, page_num2, is_desc2),
    ensures
        typ == typ2,
        page_num == page_num2,
        is_desc == is_desc2,
{
    reveal_strlit("_");
    let p = "micros_typ_"@;
    let k = list_key_text(typ, page_num, is_desc);
    let k2 = list_key_text(typ2, page_num2, is_desc2);
    let rest = dec_nat(page_num) + seq!['_'] + bool_text(is_desc);
    let rest2 = dec_nat(page_num2) + seq!['_'] + bool_text(is_desc2);
    assert(k =~= p + (dec_int(typ) + seq!['_'] + rest));
    assert(k2 =~= p + (dec_int(typ2) + seq!['_'] + rest2));
    let tail = k.subrange(p.len() as int, k.len() as int);
    assert(tail =~= dec_int(typ) + seq!['_'] + rest);
    assert(tail =~= dec_int(typ2) + seq!['_'] + rest2);
    lemma_dec_int_no_underscore(typ);
    lemma_dec_int_no_underscore(typ2);
    lemma_split_at_underscore(dec_int(typ), rest, dec_int(typ2), rest2);
    lemma_dec_int_injective(typ, typ2);
    lemma_dec_nat_no_underscore(page_num);
    lemma_dec_nat_no_underscore(page_num2);
    lemma_split_at_underscore(dec_nat(page_num), bool_text(is_desc), dec_nat(page_num2), bool_text(is_desc2));
    lemma_dec_nat_injective(page_num, page_num2);
    if is_desc != is_desc2 {
        assert(bool_text(is_desc).len() != bool_text(is_desc2).len());
    }
}

/// A micro's key never names a page: the two kinds of key differ at their
/// sixth character (`_` against `s`).
pub proof fn lemma_micro_key_is_not_list_key(id: nat, typ: int, page_num: nat, is_desc: bool)
    ensures
        micro_key_text(id) != list_key_text(typ, page_num, is_desc),
{
    reveal_strlit("micro_");
    reveal_strlit("micros_typ_");
    assert(micro_key_text(id)[5] == '_');
    assert(list_key_text(typ, page_num, is_desc)[5] == 's');
}

} // verus!
