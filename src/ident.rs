use vstd::arithmetic::div_mod::{lemma_breakdown, lemma_fundamental_div_mod_converse, lemma_small_mod};
use vstd::prelude::*;

use crate::error::StratisError;

verus! {

/// The value of a hexadecimal digit of either case, or -1 for any other character.
pub open spec fn hex_val(c: char) -> int {
    if c == '0' { 0 } else if c == '1' { 1 } else if c == '2' { 2 } else if c == '3' { 3 }
    else if c == '4' { 4 } else if c == '5' { 5 } else if c == '6' { 6 } else if c == '7' { 7 }
    else if c == '8' { 8 } else if c == '9' { 9 } else if c == 'a' || c == 'A' { 10 }
    else if c == 'b' || c == 'B' { 11 } else if c == 'c' || c == 'C' { 12 }
    else if c == 'd' || c == 'D' { 13 } else if c == 'e' || c == 'E' { 14 }
    else if c == 'f' || c == 'F' { 15 } else { -1 }
}

/// The lowercase hexadecimal digit for `n` in `0..16`.
pub open spec fn hex_char(n: int) -> char {
    if n == 0 { '0' } else if n == 1 { '1' } else if n == 2 { '2' } else if n == 3 { '3' }
    else if n == 4 { '4' } else if n == 5 { '5' } else if n == 6 { '6' } else if n == 7 { '7' }
    else if n == 8 { '8' } else if n == 9 { '9' } else if n == 10 { 'a' } else if n == 11 { 'b' }
    else if n == 12 { 'c' } else if n == 13 { 'd' } else if n == 14 { 'e' } else { 'f' }
}

pub open spec fn is_hex_digit(c: char) -> bool {
    0 <= hex_val(c)
}

pub open spec fn is_lower_hex_digit(c: char) -> bool {
    is_hex_digit(c) && c != 'A' && c != 'B' && c != 'C' && c != 'D' && c != 'E' && c != 'F'
}

pub open spec fn all_hex(ds: Seq<char>) -> bool {
    forall|i: int| 0 <= i < ds.len() ==> is_hex_digit(#[trigger] ds[i])
}

pub open spec fn all_lower_hex(ds: Seq<char>) -> bool {
    forall|i: int| 0 <= i < ds.len() ==> is_lower_hex_digit(#[trigger] ds[i])
}

/// The number that a string of hexadecimal digits denotes, most significant first.
pub open spec fn digits_value(ds: Seq<char>) -> nat
    decreases ds.len(),
{
    if ds.len() == 0 {
        0
    } else {
        digits_value(ds.drop_last()) * 16 + hex_val(ds.last()) as nat
    }
}

/// The last `n` hexadecimal digits of `v`, most significant first.
pub open spec fn hex_digits(v: nat, n: nat) -> Seq<char>
    decreases n,
{
    if n == 0 {
        seq![]
    } else {
        hex_digits(v / 16, (n - 1) as nat).push(hex_char((v % 16) as int))
    }
}

pub open spec fn pow16(n: nat) -> nat
    decreases n,
{
    if n == 0 { 1 } else { 16 * pow16((n - 1) as nat) }
}

pub open spec fn is_hyphen_pos(i: int) -> bool {
    i == 8 || i == 13 || i == 18 || i == 23
}

/// Inserts the four hyphens of the canonical form into 32 digits.
pub open spec fn hyphenate(d: Seq<char>) -> Seq<char> {
    d.subrange(0, 8) + seq!['-'] + d.subrange(8, 12) + seq!['-'] + d.subrange(12, 16)
        + seq!['-'] + d.subrange(16, 20) + seq!['-'] + d.subrange(20, 32)
}

/// The 32 digits of a canonical identifier string, hyphens left out.
pub open spec fn canonical_digits(s: Seq<char>) -> Seq<char> {
    s.subrange(0, 8) + s.subrange(9, 13) + s.subrange(14, 18) + s.subrange(19, 23)
        + s.subrange(24, 36)
}

/// The hyphenated identifier form: 36 characters, hyphens at 8, 13, 18 and 23,
/// hexadecimal digits of either case elsewhere.
pub open spec fn is_hyphenated(s: Seq<char>) -> bool {
    &&& s.len() == 36
    &&& forall|i: int| 0 <= i < 36 ==> if is_hyphen_pos(i) {
        s[i] == '-'
    } else {
        is_hex_digit(#[trigger] s[i])
    }
}

/// The canonical identifier form: the hyphenated form with lowercase digits.
pub open spec fn is_canonical(s: Seq<char>) -> bool {
    &&& is_hyphenated(s)
    &&& forall|i: int| 0 <= i < 36 && !is_hyphen_pos(i) ==> is_lower_hex_digit(#[trigger] s[i])
}

/// The simple identifier form: 32 hexadecimal digits of either case.
pub open spec fn is_simple(s: Seq<char>) -> bool {
    s.len() == 32 && all_hex(s)
}

/// The braced identifier form: the hyphenated form between `{` and `}`.
pub open spec fn is_braced(s: Seq<char>) -> bool {
    s.len() == 38 && s[0] == '{' && s[37] == '}' && is_hyphenated(s.subrange(1, 37))
}

/// The URN identifier form: `urn:uuid:`, its letters of either case, then the
/// hyphenated form.
pub open spec fn is_urn(s: Seq<char>) -> bool {
    &&& s.len() == 45
    &&& (s[0] == 'u' || s[0] == 'U') && (s[1] == 'r' || s[1] == 'R') && (s[2] == 'n' || s[2] == 'N')
    &&& s[3] == ':'
    &&& (s[4] == 'u' || s[4] == 'U') && (s[5] == 'u' || s[5] == 'U') && (s[6] == 'i' || s[6] == 'I')
    &&& (s[7] == 'd' || s[7] == 'D') && s[8] == ':'
    &&& is_hyphenated(s.subrange(9, 45))
}

/// Whether a text is an identifier in one of the accepted forms.
pub open spec fn is_accepted(s: Seq<char>) -> bool {
    is_simple(s) || is_hyphenated(s) || is_braced(s) || is_urn(s)
}

/// The identifier that a text in one of the accepted forms denotes.
pub open spec fn accepted_value(s: Seq<char>) -> nat {
    if is_simple(s) {
        digits_value(s)
    } else if is_hyphenated(s) {
        canonical_value(s)
    } else if is_braced(s) {
        canonical_value(s.subrange(1, 37))
    } else {
        canonical_value(s.subrange(9, 45))
    }
}

/// The identifier that a hyphenated string denotes.
pub open spec fn canonical_value(s: Seq<char>) -> nat {
    digits_value(canonical_digits(s))
}

/// The canonical text of a 128-bit identifier.
pub open spec fn canonical_text(v: u128) -> Seq<char> {
    hyphenate(hex_digits(v as nat, 32))
}

/// Relies on uuid::Uuid::parse_str and Uuid::as_u128: a text in the simple,
/// hyphenated, braced or URN form is read as 32 hexadecimal digits in
/// big-endian order; any other text is refused.
#[verifier::external_body]
fn uuid_parse(s: &str) -> (r: Result<u128, uuid::Error>)
    ensures
        r is Ok <==> is_accepted(s@),
        r is Ok ==> r->Ok_0 as nat == accepted_value(s@),
{
    uuid::Uuid::parse_str(s).map(|u| u.as_u128())
}

/// Relies on uuid::Uuid::from_u128 and its Display: the hyphenated lowercase form.
#[verifier::external_body]
fn uuid_text(v: u128) -> (r: String)
    ensures
        r@ == canonical_text(v),
{
    uuid::Uuid::from_u128(v).to_string()
}

/// Whether an identifier carries the version 4 and the RFC 4122 variant bits.
pub open spec fn is_v4(v: u128) -> bool {
    (v >> 76u128) & 0xfu128 == 4 && (v >> 62u128) & 0x3u128 == 2
}

/// Relies on uuid::Uuid::new_v4: a randomly generated identifier whose version
/// and variant bits are set.
#[verifier::external_body]
fn uuid_random() -> (r: u128)
    ensures
        is_v4(r),
{
    uuid::Uuid::new_v4().as_u128()
}

proof fn lemma_v4_not_nil(v: u128)
    requires
        is_v4(v),
    ensures
        v != NIL_VALUE,
{
    assert((v >> 76u128) & 0xfu128 == 4 ==> v != 0u128) by (bit_vector);
}

proof fn lemma_digits_round_trip(ds: Seq<char>)
    requires
        all_lower_hex(ds),
    ensures
        hex_digits(digits_value(ds), ds.len()) == ds,
        digits_value(ds) < pow16(ds.len()),
    decreases ds.len(),
{
    if ds.len() > 0 {
        let init = ds.drop_last();
        assert(all_lower_hex(init)) by {
            assert forall|i: int| 0 <= i < init.len() implies is_lower_hex_digit(#[trigger] init[i]) by {
                assert(init[i] == ds[i]);
            }
        }
        lemma_digits_round_trip(init);
        let w = digits_value(init);
        let d = hex_val(ds.last());
        assert(is_lower_hex_digit(ds[ds.len() - 1]));
        lemma_fundamental_div_mod_converse((w * 16 + d) as int, 16, w as int, d);
        assert(hex_char(d) == ds.last());
        assert(hex_digits(digits_value(ds), ds.len()) =~= init.push(ds.last()));
        assert(init.push(ds.last()) =~= ds);
        let p = pow16(init.len());
        assert(w * 16 + d < 16 * p) by (nonlinear_arith)
            requires
                w < p,
                0 <= d < 16,
        ;
    }
}

proof fn lemma_canonical_parts(s: Seq<char>)
    requires
        is_canonical(s),
    ensures
        canonical_digits(s).len() == 32,
        all_lower_hex(canonical_digits(s)),
        hyphenate(canonical_digits(s)) == s,
{
    let d = canonical_digits(s);
    assert forall|i: int| 0 <= i < 32 implies is_lower_hex_digit(#[trigger] d[i]) by {
        let j = if i < 8 { i } else if i < 12 { i + 1 } else if i < 16 { i + 2 } else if i < 20 {
            i + 3
        } else {
            i + 4
        };
        assert(d[i] == s[j]);
        assert(!is_hyphen_pos(j));
        assert(is_lower_hex_digit(s[j]));
    }
    assert forall|i: int| 0 <= i < 36 implies #[trigger] hyphenate(d)[i] == s[i] by {
        if is_hyphen_pos(i) {
            assert(s[i] == '-');
        }
    }
    assert(hyphenate(d) =~= s);
}

/// The canonical value of every canonical string fits in 128 bits, and writing
/// it out again gives back the same string.
pub proof fn lemma_canonical_round_trip(s: Seq<char>)
    requires
        is_canonical(s),
    ensures
        canonical_value(s) <= u128::MAX,
        canonical_text(canonical_value(s) as u128) == s,
{
    lemma_canonical_parts(s);
    lemma_digits_round_trip(canonical_digits(s));
    reveal_with_fuel(pow16, 33);
    assert(pow16(32) == 0x1_0000_0000_0000_0000_0000_0000_0000_0000);
}

proof fn lemma_hex_digits_value(v: nat, n: nat)
    ensures
        hex_digits(v, n).len() == n,
        all_lower_hex(hex_digits(v, n)),
        digits_value(hex_digits(v, n)) == v % pow16(n),
    decreases n,
{
    if n == 0 {
        lemma_small_mod(0, 1);
        assert(v % 1 == 0) by (nonlinear_arith);
    } else {
        let n1 = (n - 1) as nat;
        lemma_hex_digits_value(v / 16, n1);
        let h = hex_digits(v, n);
        let c = hex_char((v % 16) as int);
        assert(hex_val(c) == v % 16);
        assert(h.drop_last() =~= hex_digits(v / 16, n1));
        assert forall|i: int| 0 <= i < h.len() implies is_lower_hex_digit(#[trigger] h[i]) by {
            if i < n1 {
                assert(h[i] == hex_digits(v / 16, n1)[i]);
            }
        }
        assert(pow16(n1) > 0) by {
            lemma_pow16_positive(n1);
        }
        lemma_breakdown(v as int, 16, pow16(n1) as int);
    }
}

proof fn lemma_pow16_positive(n: nat)
    ensures
        pow16(n) > 0,
    decreases n,
{
    if n > 0 {
        lemma_pow16_positive((n - 1) as nat);
    }
}

/// Writing out a 128-bit identifier gives a canonical string, and reading that
/// string gives back the same identifier.
pub proof fn lemma_text_round_trip(v: u128)
    ensures
        is_canonical(canonical_text(v)),
        canonical_value(canonical_text(v)) == v as nat,
{
    let d = hex_digits(v as nat, 32);
    lemma_hex_digits_value(v as nat, 32);
    reveal_with_fuel(pow16, 33);
    assert(pow16(32) == 0x1_0000_0000_0000_0000_0000_0000_0000_0000);
    lemma_small_mod(v as nat, pow16(32));
    let s = hyphenate(d);
    assert(canonical_digits(s) =~= d);
    assert forall|i: int| 0 <= i < 36 && !is_hyphen_pos(i) implies is_lower_hex_digit(
        #[trigger] s[i],
    ) by {
        let j = if i < 8 { i } else if i < 13 { i - 1 } else if i < 18 { i - 2 } else if i < 23 {
            i - 3
        } else {
            i - 4
        };
        assert(s[i] == d[j]);
    }
    assert forall|i: int| 0 <= i < 36 implies (if is_hyphen_pos(i) {
        s[i] == '-'
    } else {
        is_hex_digit(#[trigger] s[i])
    }) by {
        if !is_hyphen_pos(i) {
            let j = if i < 8 { i } else if i < 13 { i - 1 } else if i < 18 { i - 2 } else if i < 23 {
                i - 3
            } else {
                i - 4
            };
            assert(s[i] == d[j]);
        }
    }
}

/// The all-zero identifier, which stands for no identifier.
pub const NIL_VALUE: u128 = 0;

/// Identifies a block device.
#[derive(Clone, Copy, Debug, Hash, PartialEq, Eq, Structural)]
pub struct DevUuid(pub u128);

impl DevUuid {
    /// A freshly generated random identifier.
    pub fn new_v4() -> (r: Self)
        ensures
            is_v4(r.0),
            r.0 != NIL_VALUE,
    {
        let v = uuid_random();
        proof {
            lemma_v4_not_nil(v);
        }
        DevUuid(v)
    }

    /// Reads the identifier from its text in the simple, hyphenated, braced or
    /// URN form.
    pub fn parse_str(s: &str) -> (r: Result<Self, StratisError>)
        ensures
            r is Ok <==> is_accepted(s@),
            r is Ok ==> r->Ok_0.0 as nat == accepted_value(s@),
            is_canonical(s@) ==> r is Ok && r->Ok_0.0 as nat == canonical_value(s@),
            r is Err ==> r->Err_0 is Uuid,
    {
        match uuid_parse(s) {
            Ok(v) => Ok(DevUuid(v)),
            Err(e) => Err(StratisError::Uuid(e)),
        }
    }

    /// The all-zero identifier, which stands for no identifier.
    pub fn nil() -> (r: Self)
        ensures
            r.0 == NIL_VALUE,
    {
        DevUuid(NIL_VALUE)
    }

    /// The canonical text of the identifier.
    pub fn to_string(&self) -> (r: String)
        ensures
            r@ == canonical_text(self.0),
    {
        uuid_text(self.0)
    }
}

impl core::ops::Deref for DevUuid {
    type Target = u128;

    fn deref(&self) -> (r: &u128)
        ensures
            *r == self.0,
    {
        &self.0
    }
}

/// Identifies a filesystem.
#[derive(Clone, Copy, Debug, Hash, PartialEq, Eq, Structural)]
pub struct FilesystemUuid(pub u128);

impl FilesystemUuid {
    /// A freshly generated random identifier.
    pub fn new_v4() -> (r: Self)
        ensures
            is_v4(r.0),
            r.0 != NIL_VALUE,
    {
        let v = uuid_random();
        proof {
            lemma_v4_not_nil(v);
        }
        FilesystemUuid(v)
    }

    /// Reads the identifier from its text in the simple, hyphenated, braced or
    /// URN form.
    pub fn parse_str(s: &str) -> (r: Result<Self, StratisError>)
        ensures
            r is Ok <==> is_accepted(s@),
            r is Ok ==> r->Ok_0.0 as nat == accepted_value(s@),
            is_canonical(s@) ==> r is Ok && r->Ok_0.0 as nat == canonical_value(s@),
            r is Err ==> r->Err_0 is Uuid,
    {
        match uuid_parse(s) {
            Ok(v) => Ok(FilesystemUuid(v)),
            Err(e) => Err(StratisError::Uuid(e)),
        }
    }

    /// The all-zero identifier, which stands for no identifier.
    pub fn nil() -> (r: Self)
        ensures
            r.0 == NIL_VALUE,
    {
        FilesystemUuid(NIL_VALUE)
    }

    /// The canonical text of the identifier.
    pub fn to_string(&self) -> (r: String)
        ensures
            r@ == canonical_text(self.0),
    {
        uuid_text(self.0)
    }
}

impl core::ops::Deref for FilesystemUuid {
    type Target = u128;

    fn deref(&self) -> (r: &u128)
        ensures
            *r == self.0,
    {
        &self.0
    }
}

/// Identifies a pool.
#[derive(Clone, Copy, Debug, Hash, PartialEq, Eq, Structural)]
pub struct PoolUuid(pub u128);

impl PoolUuid {
    /// A freshly generated random identifier.
    pub fn new_v4() -> (r: Self)
        ensures
            is_v4(r.0),
            r.0 != NIL_VALUE,
    {
        let v = uuid_random();
        proof {
            lemma_v4_not_nil(v);
        }
        PoolUuid(v)
    }

    /// Reads the identifier from its text in the simple, hyphenated, braced or
    /// URN form.
    pub fn parse_str(s: &str) -> (r: Result<Self, StratisError>)
        ensures
            r is Ok <==> is_accepted(s@),
            r is Ok ==> r->Ok_0.0 as nat == accepted_value(s@),
            is_canonical(s@) ==> r is Ok && r->Ok_0.0 as nat == canonical_value(s@),
            r is Err ==> r->Err_0 is Uuid,
    {
        match uuid_parse(s) {
            Ok(v) => Ok(PoolUuid(v)),
            Err(e) => Err(StratisError::Uuid(e)),
        }
    }

    /// The all-zero identifier, which stands for no identifier.
    pub fn nil() -> (r: Self)
        ensures
            r.0 == NIL_VALUE,
    {
        PoolUuid(NIL_VALUE)
    }

    /// The canonical text of the identifier.
    pub fn to_string(&self) -> (r: String)
        ensures
            r@ == canonical_text(self.0),
    {
        uuid_text(self.0)
    }
}

impl core::ops::Deref for PoolUuid {
    type Target = u128;

    fn deref(&self) -> (r: &u128)
        ensures
            *r == self.0,
    {
        &self.0
    }
}

/// Any one of the identifier kinds, for code that handles identifiers of every
/// kind alike.
#[derive(Debug)]
pub enum StratisUuid {
    Dev(DevUuid),
    Fs(FilesystemUuid),
    Pool(PoolUuid),
}

impl StratisUuid {
    pub open spec fn value(&self) -> u128 {
        match self {
            StratisUuid::Dev(d) => d.0,
            StratisUuid::Fs(f) => f.0,
            StratisUuid::Pool(p) => p.0,
        }
    }

    /// The canonical text of the identifier held.
    pub fn to_string(&self) -> (r: String)
        ensures
            r@ == canonical_text(self.value()),
    {
        match self {
            StratisUuid::Dev(d) => d.to_string(),
            StratisUuid::Fs(f) => f.to_string(),
            StratisUuid::Pool(p) => p.to_string(),
        }
    }
}

impl core::ops::Deref for StratisUuid {
    type Target = u128;

    fn deref(&self) -> (r: &u128)
        ensures
            *r == self.value(),
    {
        match self {
            StratisUuid::Dev(d) => &d.0,
            StratisUuid::Fs(f) => &f.0,
            StratisUuid::Pool(p) => &p.0,
        }
    }
}

/// What every identifier kind offers.
pub trait AsUuid: Copy + Clone + core::fmt::Debug + core::hash::Hash + Eq + PartialEq + core::ops::Deref<Target = u128> {
}

impl AsUuid for DevUuid {
}

impl AsUuid for FilesystemUuid {
}

impl AsUuid for PoolUuid {
}

/// Every call of `nil` gives the same identifier, the all-zero one.
pub proof fn lemma_nil_stable(a: PoolUuid, b: PoolUuid)
    requires
        a.0 == NIL_VALUE,
        b.0 == NIL_VALUE,
    ensures
        a == b,
        a.0 == 0,
{
}

} // verus!
