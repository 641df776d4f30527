//! Byte encoding of the price book for persistence.
//!
//! The book is stored as a fixed-shape text record: eighteen lines, each
//! exactly twenty decimal digits followed by one newline.  The first line
//! is the numeric tag of the selected family, the rest are the book's
//! entries in a fixed order.  `decode` accepts exactly what `encode`
//! produces: anything else — wrong length, a stray byte, a value that does
//! not fit — is rejected, and the caller falls back to the built-in
//! defaults.  Decoding an encoded book gives the book back, field for
//! field; that round trip is proved below.

use vstd::prelude::*;

verus! {

use vstd::arithmetic::div_mod::{
    lemma_breakdown,
    lemma_div_denominator,
    lemma_div_pos_is_pos,
    lemma_fundamental_div_mod_converse,
    lemma_mod_bound,
    lemma_small_mod,
};
use crate::plise::PliseName;
use crate::price::{ColorPrice, Price, spec_default_price};

/// Digits per stored number.
pub const FIELD_DIGITS: usize = 20;

/// Bytes per line: the digits and the newline.
pub const LINE_BYTES: usize = 21;

/// Lines in a record.
pub const NUM_FIELDS: usize = 18;

/// Bytes in a whole record.
pub const RECORD_BYTES: usize = 378;

/// Powers of ten.
pub open spec fn pow10(n: nat) -> int
    decreases n,
{
    if n == 0 {
        1
    } else {
        10 * pow10((n - 1) as nat)
    }
}

/// The low `n` decimal digits of `v`, most significant first, as bytes.
pub open spec fn spec_pad(v: int, n: nat) -> Seq<u8>
    decreases n,
{
    if n == 0 {
        Seq::empty()
    } else {
        spec_pad(v / 10, (n - 1) as nat).push((48 + (v % 10)) as u8)
    }
}

/// One stored line: twenty digits and a newline.
pub open spec fn spec_line(v: u64) -> Seq<u8> {
    spec_pad(v as int, FIELD_DIGITS as nat).push(10u8)
}

/// The numeric value of a digit string, most significant first.
pub open spec fn parse_val(s: Seq<u8>) -> int
    decreases s.len(),
{
    if s.len() == 0 {
        0
    } else {
        parse_val(s.drop_last()) * 10 + (s.last() - 48)
    }
}

/// A decimal digit byte.
pub open spec fn is_digit(b: u8) -> bool {
    48 <= b <= 57
}

/// The stored numeric tag of a family.
pub open spec fn spec_name_tag(name: PliseName) -> u64 {
    match name {
        PliseName::Klasik => 0,
        PliseName::Genis => 1,
        PliseName::Ince => 2,
    }
}

/// The family a stored tag denotes.
pub open spec fn spec_name_of_tag(t: int) -> PliseName {
    if t == 0 {
        PliseName::Klasik
    } else if t == 1 {
        PliseName::Genis
    } else {
        PliseName::Ince
    }
}

/// The book's values in their stored order, the family tag first.
pub open spec fn spec_fields_of(p: Price) -> Seq<u64> {
    seq![
        spec_name_tag(p.plise_name),
        p.color_price.beyaz,
        p.color_price.boya,
        p.color_price.ahsap,
        p.tul_price,
        p.serit_price,
        p.teker_price,
        p.klips_price,
        p.stop_price,
        p.donus_price,
        p.klasik_kose_price,
        p.genis_kose_price,
        p.ince_kose_price,
        p.klasik_kar,
        p.genis_kar,
        p.ince_kar,
        p.isci_maliyeti,
        p.kdv,
    ]
}

/// The concatenation of the lines of a field list.
pub open spec fn spec_encode_fields(fs: Seq<u64>) -> Seq<u8>
    decreases fs.len(),
{
    if fs.len() == 0 {
        Seq::empty()
    } else {
        spec_line(fs[0]) + spec_encode_fields(fs.drop_first())
    }
}

/// The encoded record of a book.
pub open spec fn spec_encode(p: Price) -> Seq<u8> {
    spec_encode_fields(spec_fields_of(p))
}

/// The numeric value stored at line `i` of a record.
pub open spec fn spec_field_val(s: Seq<u8>, i: int) -> int {
    parse_val(s.subrange(21 * i, 21 * i + 20))
}

/// Line `i` of a record is well shaped: twenty digits, a newline, and a
/// value that fits a machine word.
pub open spec fn spec_line_ok(s: Seq<u8>, i: int) -> bool {
    &&& forall|j: int| 0 <= j < 20 ==> is_digit(#[trigger] s[21 * i + j])
    &&& s[21 * i + 20] == 10u8
    &&& spec_field_val(s, i) < 0x1_0000_0000_0000_0000
}

/// The book a well-shaped record denotes.
pub open spec fn spec_build(s: Seq<u8>) -> Price {
    Price {
        plise_name: spec_name_of_tag(spec_field_val(s, 0)),
        color_price: ColorPrice {
            beyaz: spec_field_val(s, 1) as u64,
            boya: spec_field_val(s, 2) as u64,
            ahsap: spec_field_val(s, 3) as u64,
        },
        tul_price: spec_field_val(s, 4) as u64,
        serit_price: spec_field_val(s, 5) as u64,
        teker_price: spec_field_val(s, 6) as u64,
        klips_price: spec_field_val(s, 7) as u64,
        stop_price: spec_field_val(s, 8) as u64,
        donus_price: spec_field_val(s, 9) as u64,
        klasik_kose_price: spec_field_val(s, 10) as u64,
        genis_kose_price: spec_field_val(s, 11) as u64,
        ince_kose_price: spec_field_val(s, 12) as u64,
        klasik_kar: spec_field_val(s, 13) as u64,
        genis_kar: spec_field_val(s, 14) as u64,
        ince_kar: spec_field_val(s, 15) as u64,
        isci_maliyeti: spec_field_val(s, 16) as u64,
        kdv: spec_field_val(s, 17) as u64,
    }
}

/// What a record means: the book it denotes if every line is well shaped
/// and the family tag is known, nothing otherwise.
pub open spec fn spec_decode(s: Seq<u8>) -> Option<Price> {
    if s.len() == 378 && (forall|i: int| 0 <= i < 18 ==> spec_line_ok(s, i)) && 0
        <= spec_field_val(s, 0) <= 2 {
        Some(spec_build(s))
    } else {
        None
    }
}

/// Powers of ten are positive.
pub proof fn lemma_pow10_pos(n: nat)
    ensures
        pow10(n) >= 1,
    decreases n,
{
    if n > 0 {
        lemma_pow10_pos((n - 1) as nat);
    }
}

/// Every machine word fits in twenty digits.
pub proof fn lemma_pow10_20()
    ensures
        pow10(20) == 100_000_000_000_000_000_000,
        pow10(20) > 0xFFFF_FFFF_FFFF_FFFF,
{
    reveal_with_fuel(pow10, 21);
}

/// A padded number is all digits, of the requested length.
pub proof fn lemma_pad_shape(v: int, n: nat)
    requires
        v >= 0,
    ensures
        spec_pad(v, n).len() == n,
        forall|j: int| 0 <= j < n ==> is_digit(#[trigger] spec_pad(v, n)[j]),
    decreases n,
{
    if n > 0 {
        lemma_div_pos_is_pos(v, 10);
        lemma_pad_shape(v / 10, (n - 1) as nat);
        lemma_mod_bound(v, 10);
    }
}

/// Parsing the padding of `v` gives `v` back, up to the modulus of the
/// digit count.
pub proof fn lemma_parse_pad(v: int, n: nat)
    requires
        v >= 0,
    ensures
        parse_val(spec_pad(v, n)) == v % pow10(n),
    decreases n,
{
    if n == 0 {
        lemma_fundamental_div_mod_converse(v, 1, v, 0);
    } else {
        lemma_div_pos_is_pos(v, 10);
        lemma_parse_pad(v / 10, (n - 1) as nat);
        let pad = spec_pad(v, n);
        assert(pad.drop_last() =~= spec_pad(v / 10, (n - 1) as nat));
        lemma_pow10_pos((n - 1) as nat);
        lemma_breakdown(v, 10, pow10((n - 1) as nat));
        lemma_mod_bound(v, 10);
    }
}

/// Splitting a digit string splits its value by place value.
pub proof fn lemma_parse_split(a: Seq<u8>, b: Seq<u8>)
    ensures
        parse_val(a + b) == parse_val(a) * pow10(b.len()) + parse_val(b),
    decreases b.len(),
{
    if b.len() == 0 {
        assert(a + b =~= a);
        assert(parse_val(a) * 1 == parse_val(a)) by (nonlinear_arith);
    } else {
        lemma_parse_split(a, b.drop_last());
        assert((a + b).drop_last() =~= a + b.drop_last());
        assert((a + b).last() == b.last());
        assert(parse_val(a) * (10 * pow10((b.len() - 1) as nat)) == (parse_val(a) * pow10(
            (b.len() - 1) as nat,
        )) * 10) by (nonlinear_arith);
    }
}

/// A digit string's value is non-negative and below the place value of its
/// length.
pub proof fn lemma_parse_bounds(s: Seq<u8>)
    requires
        forall|j: int| 0 <= j < s.len() ==> is_digit(#[trigger] s[j]),
    ensures
        0 <= parse_val(s) < pow10(s.len()),
    decreases s.len(),
{
    if s.len() == 0 {
    } else {
        lemma_parse_bounds(s.drop_last());
        lemma_pow10_pos((s.len() - 1) as nat);
        assert(parse_val(s.drop_last()) * 10 <= (pow10((s.len() - 1) as nat) - 1) * 10
            && parse_val(s.drop_last()) * 10 >= 0) by (nonlinear_arith)
            requires
                0 <= parse_val(s.drop_last()) <= pow10((s.len() - 1) as nat) - 1,
        ;
    }
}

/// The lines of a field list concatenate line by line.
pub proof fn lemma_encode_fields_len(fs: Seq<u64>)
    ensures
        spec_encode_fields(fs).len() == 21 * fs.len(),
    decreases fs.len(),
{
    if fs.len() > 0 {
        lemma_encode_fields_len(fs.drop_first());
        lemma_pad_shape(fs[0] as int, 20);
    }
}

/// Appending a field appends its line.
pub proof fn lemma_encode_fields_push(fs: Seq<u64>, v: u64)
    ensures
        spec_encode_fields(fs.push(v)) == spec_encode_fields(fs) + spec_line(v),
    decreases fs.len(),
{
    if fs.len() == 0 {
        assert(fs.push(v).drop_first() =~= fs);
        assert(spec_encode_fields(fs.push(v)) =~= spec_encode_fields(fs) + spec_line(v));
    } else {
        lemma_encode_fields_push(fs.drop_first(), v);
        assert(fs.push(v).drop_first() =~= fs.drop_first().push(v));
        assert(spec_line(fs[0]) + (spec_encode_fields(fs.drop_first()) + spec_line(v)) =~= (
        spec_line(fs[0]) + spec_encode_fields(fs.drop_first())) + spec_line(v));
    }
}

/// Line `i` of an encoded field list is the line of field `i`.
pub proof fn lemma_encode_fields_index(fs: Seq<u64>, i: int)
    requires
        0 <= i < fs.len(),
    ensures
        spec_encode_fields(fs).subrange(21 * i, 21 * i + 21) =~= spec_line(fs[i]),
    decreases i,
{
    lemma_pad_shape(fs[0] as int, 20);
    lemma_encode_fields_len(fs.drop_first());
    if i == 0 {
        assert(spec_encode_fields(fs).subrange(0, 21) =~= spec_line(fs[0]));
    } else {
        lemma_encode_fields_index(fs.drop_first(), i - 1);
        assert(spec_encode_fields(fs).subrange(21 * i, 21 * i + 21) =~= spec_encode_fields(
            fs.drop_first(),
        ).subrange(21 * (i - 1), 21 * (i - 1) + 21));
    }
}

/// Append the twenty-digit padding of `v` to `out`.
fn push_pad(out: &mut Vec<u8>, v: u64, n: usize)
    requires
        n <= 20,
    ensures
        final(out)@ == old(out)@ + spec_pad(v as int, n as nat),
    decreases n,
{
    if n == 0 {
        proof {
            assert(old(out)@ + spec_pad(v as int, 0) =~= old(out)@);
        }
    } else {
        push_pad(out, v / 10, n - 1);
        out.push(48 + (v % 10) as u8);
        proof {
            assert(old(out)@ + spec_pad(v as int, n as nat) =~= (old(out)@ + spec_pad(
                (v / 10) as int,
                (n - 1) as nat,
            )).push((48 + (v as int % 10)) as u8));
        }
    }
}

/// Append one stored line to `out`.
fn push_line(out: &mut Vec<u8>, v: u64)
    ensures
        final(out)@ == old(out)@ + spec_line(v),
{
    push_pad(out, v, 20);
    out.push(10u8);
    proof {
        assert(old(out)@ + spec_line(v) =~= (old(out)@ + spec_pad(v as int, 20)).push(10u8));
    }
}

/// Encode a book as its stored record.
pub fn encode(p: &Price) -> (r: Vec<u8>)
    ensures
        r@ == spec_encode(*p),
{
    let tag: u64 = match p.plise_name {
        PliseName::Klasik => 0,
        PliseName::Genis => 1,
        PliseName::Ince => 2,
    };
    let mut out: Vec<u8> = Vec::new();
    let ghost fs = spec_fields_of(*p);
    push_line(&mut out, tag);
    proof {
        lemma_encode_fields_push(fs.take(0), fs[0]);
        assert(fs.take(0).push(fs[0]) =~= fs.take(1));
        assert(spec_encode_fields(fs.take(0)) + spec_line(fs[0]) =~= spec_line(fs[0]));
        assert(Seq::<u8>::empty() + spec_line(tag) =~= spec_line(tag));
    }
    push_line(&mut out, p.color_price.beyaz);
    proof {
        lemma_encode_fields_push(fs.take(1), fs[1]);
        assert(fs.take(1).push(fs[1]) =~= fs.take(2));
    }
    push_line(&mut out, p.color_price.boya);
    proof {
        lemma_encode_fields_push(fs.take(2), fs[2]);
        assert(fs.take(2).push(fs[2]) =~= fs.take(3));
    }
    push_line(&mut out, p.color_price.ahsap);
    proof {
        lemma_encode_fields_push(fs.take(3), fs[3]);
        assert(fs.take(3).push(fs[3]) =~= fs.take(4));
    }
    push_line(&mut out, p.tul_price);
    proof {
        lemma_encode_fields_push(fs.take(4), fs[4]);
        assert(fs.take(4).push(fs[4]) =~= fs.take(5));
    }
    push_line(&mut out, p.serit_price);
    proof {
        lemma_encode_fields_push(fs.take(5), fs[5]);
        assert(fs.take(5).push(fs[5]) =~= fs.take(6));
    }
    push_line(&mut out, p.teker_price);
    proof {
        lemma_encode_fields_push(fs.take(6), fs[6]);
        assert(fs.take(6).push(fs[6]) =~= fs.take(7));
    }
    push_line(&mut out, p.klips_price);
    proof {
        lemma_encode_fields_push(fs.take(7), fs[7]);
        assert(fs.take(7).push(fs[7]) =~= fs.take(8));
    }
    push_line(&mut out, p.stop_price);
    proof {
        lemma_encode_fields_push(fs.take(8), fs[8]);
        assert(fs.take(8).push(fs[8]) =~= fs.take(9));
    }
    push_line(&mut out, p.donus_price);
    proof {
        lemma_encode_fields_push(fs.take(9), fs[9]);
        assert(fs.take(9).push(fs[9]) =~= fs.take(10));
    }
    push_line(&mut out, p.klasik_kose_price);
    proof {
        lemma_encode_fields_push(fs.take(10), fs[10]);
        assert(fs.take(10).push(fs[10]) =~= fs.take(11));
    }
    push_line(&mut out, p.genis_kose_price);
    proof {
        lemma_encode_fields_push(fs.take(11), fs[11]);
        assert(fs.take(11).push(fs[11]) =~= fs.take(12));
    }
    push_line(&mut out, p.ince_kose_price);
    proof {
        lemma_encode_fields_push(fs.take(12), fs[12]);
        assert(fs.take(12).push(fs[12]) =~= fs.take(13));
    }
    push_line(&mut out, p.klasik_kar);
    proof {
        lemma_encode_fields_push(fs.take(13), fs[13]);
        assert(fs.take(13).push(fs[13]) =~= fs.take(14));
    }
    push_line(&mut out, p.genis_kar);
    proof {
        lemma_encode_fields_push(fs.take(14), fs[14]);
        assert(fs.take(14).push(fs[14]) =~= fs.take(15));
    }
    push_line(&mut out, p.ince_kar);
    proof {
        lemma_encode_fields_push(fs.take(15), fs[15]);
        assert(fs.take(15).push(fs[15]) =~= fs.take(16));
    }
    push_line(&mut out, p.isci_maliyeti);
    proof {
        lemma_encode_fields_push(fs.take(16), fs[16]);
        assert(fs.take(16).push(fs[16]) =~= fs.take(17));
    }
    push_line(&mut out, p.kdv);
    proof {
        lemma_encode_fields_push(fs.take(17), fs[17]);
        assert(fs.take(17).push(fs[17]) =~= fs.take(18));
        assert(fs.take(18) =~= fs);
    }
    out
}

/// Decode a stored record; anything but a well-shaped record is rejected.
pub fn decode(data: &Vec<u8>) -> (r: Option<Price>)
    ensures
        r == spec_decode(data@),
{
    if data.len() != RECORD_BYTES {
        return None;
    }
    let mut vals: Vec<u64> = Vec::new();
    let mut i: usize = 0;
    while i < NUM_FIELDS
        invariant
            data@.len() == 378,
            i <= 18,
            vals@.len() == i as int,
            forall|k: int| 0 <= k < i ==> spec_line_ok(data@, k),
            forall|k: int|
                0 <= k < i ==> vals@[k] as int == spec_field_val(data@, k),
        decreases 18 - i,
    {
        let start = 21 * i;
        let mut acc: u64 = 0;
        let mut j: usize = 0;
        while j < FIELD_DIGITS
            invariant
                data@.len() == 378,
                i < 18,
                start == 21 * i,
                j <= 20,
                forall|k: int|
                    start <= k < start + j ==> is_digit(#[trigger] data@[k]),
                acc as int == parse_val(data@.subrange(start as int, start as int + j as int)),
            decreases 20 - j,
        {
            let b = data[start + j];
            if b < 48 || b > 57 {
                proof {
                    assert(!spec_line_ok(data@, i as int));
                }
                return None;
            }
            let d = (b - 48) as u64;
            let ghost prefix = data@.subrange(start as int, start as int + j as int);
            let ghost prefix1 = data@.subrange(start as int, start as int + j as int + 1);
            proof {
                assert(prefix1.drop_last() =~= prefix);
                assert(prefix1.last() == data@[start as int + j as int]);
            }
            let step = match acc.checked_mul(10) {
                Some(x) => x.checked_add(d),
                None => None,
            };
            match step {
                Some(x) => {
                    acc = x;
                },
                None => {
                    proof {
                        lemma_overflow_rejects(data@, i as int, j as int, acc as int, d as int);
                    }
                    return None;
                },
            }
            j = j + 1;
        }
        if *vstd::slice::slice_index_get(data.as_slice(), start + 20) != 10 {
            proof {
                assert(!spec_line_ok(data@, i as int));
            }
            return None;
        }
        proof {
            let line = data@.subrange(start as int, start as int + 20);
            assert(forall|j2: int| 0 <= j2 < 20 ==> data@[21 * (i as int) + j2] == line[j2]);
            assert(spec_line_ok(data@, i as int));
        }
        vals.push(acc);
        i = i + 1;
    }
    let tag = vals[0];
    if tag > 2 {
        return None;
    }
    let plise_name = if tag == 0 {
        PliseName::Klasik
    } else if tag == 1 {
        PliseName::Genis
    } else {
        PliseName::Ince
    };
    Some(
        Price {
            plise_name,
            color_price: ColorPrice { beyaz: vals[1], boya: vals[2], ahsap: vals[3] },
            tul_price: vals[4],
            serit_price: vals[5],
            teker_price: vals[6],
            klips_price: vals[7],
            stop_price: vals[8],
            donus_price: vals[9],
            klasik_kose_price: vals[10],
            genis_kose_price: vals[11],
            ince_kose_price: vals[12],
            klasik_kar: vals[13],
            genis_kar: vals[14],
            ince_kar: vals[15],
            isci_maliyeti: vals[16],
            kdv: vals[17],
        },
    )
}

/// What loading the settings store yields: the stored book where the
/// bytes hold a well-shaped record within the engine's caps, the built-in
/// defaults otherwise.  The flag asks the caller to rewrite the store
/// with the returned book: it is set exactly when the store was absent or
/// unusable.
pub fn price_from_bytes(data: Option<&Vec<u8>>) -> (r: (Price, bool))
    ensures
        r.0.wf(),
        match data {
            Some(d) => match spec_decode(d@) {
                Some(p) => if p.wf() {
                    r == (p, false)
                } else {
                    r == (spec_default_price(), true)
                },
                None => r == (spec_default_price(), true),
            },
            None => r == (spec_default_price(), true),
        },
{
    match data {
        Some(d) => match decode(d) {
            Some(p) => if p.wf_check() {
                (p, false)
            } else {
                (Price::default(), true)
            },
            None => (Price::default(), true),
        },
        None => (Price::default(), true),
    }
}

/// A line whose first digits already exceed a machine word is not well
/// shaped: either a later byte is no digit, or the full value is at least
/// as large as the prefix already is.
proof fn lemma_overflow_rejects(s: Seq<u8>, i: int, j: int, acc: int, d: int)
    requires
        s.len() == 378,
        0 <= i < 18,
        0 <= j < 20,
        0 <= d,
        acc == parse_val(s.subrange(21 * i, 21 * i + j)),
        acc * 10 + d >= 0x1_0000_0000_0000_0000,
        s.subrange(21 * i, 21 * i + j + 1).last() - 48 == d,
        forall|k: int| 21 * i <= k < 21 * i + j + 1 ==> is_digit(#[trigger] s[k]),
    ensures
        !spec_line_ok(s, i),
{
    if spec_line_ok(s, i) {
        let line = s.subrange(21 * i, 21 * i + 20);
        let a = s.subrange(21 * i, 21 * i + j + 1);
        let b = s.subrange(21 * i + j + 1, 21 * i + 20);
        assert(a.drop_last() =~= s.subrange(21 * i, 21 * i + j));
        assert(parse_val(a) == acc * 10 + d);
        assert(line =~= a + b);
        lemma_parse_split(a, b);
        assert forall|k: int| 0 <= k < b.len() implies is_digit(#[trigger] b[k]) by {
            assert(b[k] == s[21 * i + (j + 1 + k)]);
            assert(is_digit(s[21 * i + (j + 1 + k)]));
        }
        lemma_parse_bounds(b);
        lemma_pow10_pos(b.len());
        assert(parse_val(line) >= parse_val(a)) by (nonlinear_arith)
            requires
                parse_val(line) == parse_val(a) * pow10(b.len()) + parse_val(b),
                pow10(b.len()) >= 1,
                parse_val(b) >= 0,
                parse_val(a) >= 0,
        ;
    }
}

/// Decoding an encoded book gives the book back, field for field.
#[verifier::rlimit(100)]
pub proof fn lemma_encode_decode(p: Price)
    ensures
        spec_decode(spec_encode(p)) == Some(p),
{
    let fs = spec_fields_of(p);
    let s = spec_encode(p);
    lemma_encode_fields_len(fs);
    assert forall|i: int|
        0 <= i < 18 implies spec_line_ok(s, i) && spec_field_val(s, i) == fs[i] as int by {
        lemma_encode_fields_index(fs, i);
        let line = s.subrange(21 * i, 21 * i + 21);
        let v = fs[i] as int;
        lemma_pad_shape(v, 20);
        assert(line == spec_line(fs[i]));
        assert forall|j: int| 0 <= j < 20 implies is_digit(#[trigger] s[21 * i + j]) by {
            assert(s[21 * i + j] == line[j]);
            assert(line[j] == spec_pad(v, 20)[j]);
        }
        assert(s[21 * i + 20] == line[20]);
        assert(s[21 * i + 20] == 10u8);
        assert(s.subrange(21 * i, 21 * i + 20) =~= spec_pad(v, 20));
        lemma_parse_pad(v, 20);
        lemma_pow10_20();
        lemma_small_mod(v as nat, pow10(20) as nat);
        assert(spec_field_val(s, i) == v);
        assert(spec_line_ok(s, i));
    }
    assert(spec_build(s) == p);
}

} // verus!
