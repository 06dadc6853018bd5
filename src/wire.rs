//! Protocol-buffer wire format: base-128 varints and tagged fields.
//!
//! A message is a sequence of fields. A field carries a tag and a varint
//! (wire type 0), a length-delimited byte string (wire type 2), or eight or
//! four fixed bytes (wire types 1 and 5). The message catalog of this crate
//! writes only the first two; fixed fields are read so that they can be
//! skipped where they are unknown.
use vstd::prelude::*;
use vstd::utf8::*;

verus! {

/// Largest field number that the wire format admits.
pub const MAX_TAG: u32 = 536870911;

/// Longest varint that can hold a `u64`.
pub const MAX_VARINT_LEN: u8 = 10;

/// The payload of a field, as a mathematical value.
pub enum WireValue {
    Varint(u64),
    Bytes(Seq<u8>),
    Fixed(Seq<u8>),
}

/// A field, as a mathematical value.
pub struct WireField {
    pub tag: u32,
    pub value: WireValue,
}

/// The payload of a field.
#[derive(Clone, Debug, PartialEq, Eq)]
pub enum FieldValue {
    Varint(u64),
    Bytes(Vec<u8>),
    /// Eight (wire type 1) or four (wire type 5) bytes.
    Fixed(Vec<u8>),
}

/// A tagged field of an encoded message.
#[derive(Clone, Debug, PartialEq, Eq)]
pub struct Field {
    pub tag: u32,
    pub value: FieldValue,
}

impl View for Field {
    type V = WireField;

    open spec fn view(&self) -> WireField {
        WireField {
            tag: self.tag,
            value: match self.value {
                FieldValue::Varint(v) => WireValue::Varint(v),
                FieldValue::Bytes(b) => WireValue::Bytes(b@),
                FieldValue::Fixed(b) => WireValue::Fixed(b@),
            },
        }
    }
}

pub open spec fn field_views(fs: Seq<Field>) -> Seq<WireField> {
    fs.map_values(|f: Field| f@)
}

/// Base-128 encoding of `n`, least significant group first.
pub open spec fn varint(n: nat) -> Seq<u8>
    decreases n,
{
    if n < 128 {
        seq![n as u8]
    } else {
        seq![(n % 128 + 128) as u8] + varint(n / 128)
    }
}

pub open spec fn bytes_field(tag: u32, b: Seq<u8>) -> WireField {
    WireField { tag, value: WireValue::Bytes(b) }
}

pub open spec fn varint_field(tag: u32, v: u64) -> WireField {
    WireField { tag, value: WireValue::Varint(v) }
}

/// The encoding of one field: key, then payload.
pub open spec fn field_bytes(f: WireField) -> Seq<u8> {
    match f.value {
        WireValue::Varint(v) => varint(f.tag as nat * 8) + varint(v as nat),
        WireValue::Bytes(b) => varint(f.tag as nat * 8 + 2) + varint(b.len()) + b,
        WireValue::Fixed(b) => varint(f.tag as nat * 8 + fixed_wire_type(b.len())) + b,
    }
}

/// The wire type of a fixed field of `width` bytes.
pub open spec fn fixed_wire_type(width: nat) -> nat {
    if width == 8 {
        1
    } else {
        5
    }
}

/// The encoding of a sequence of fields.
pub open spec fn fields_bytes(fs: Seq<WireField>) -> Seq<u8>
    decreases fs.len(),
{
    if fs.len() == 0 {
        seq![]
    } else {
        field_bytes(fs[0]) + fields_bytes(fs.drop_first())
    }
}

/// A field that the encoder can write and the decoder reads back.
pub open spec fn well_formed_field(f: WireField) -> bool {
    &&& 1 <= f.tag <= MAX_TAG
    &&& match f.value {
        WireValue::Varint(_) => true,
        WireValue::Bytes(b) => b.len() <= u64::MAX,
        WireValue::Fixed(b) => b.len() == 8 || b.len() == 4,
    }
}

pub open spec fn well_formed_fields(fs: Seq<WireField>) -> bool {
    forall|i: int| 0 <= i < fs.len() ==> well_formed_field(#[trigger] fs[i])
}

/// Reads a varint of at most `fuel` bytes: its value and its length.
pub open spec fn read_varint(s: Seq<u8>, fuel: nat) -> Option<(nat, nat)>
    decreases fuel,
{
    if fuel == 0 || s.len() == 0 {
        None
    } else if s[0] < 128 {
        Some((s[0] as nat, 1))
    } else {
        match read_varint(s.drop_first(), (fuel - 1) as nat) {
            Some((v, n)) => Some(((s[0] - 128) as nat + 128 * v, n + 1)),
            None => None,
        }
    }
}

/// Reads a varint that fits a `u64`.
pub open spec fn read_u64(s: Seq<u8>) -> Option<(u64, nat)> {
    match read_varint(s, MAX_VARINT_LEN as nat) {
        Some((v, n)) => if v <= u64::MAX {
            Some((v as u64, n))
        } else {
            None
        },
        None => None,
    }
}

/// Reads one field: the field and the number of bytes it takes.
pub open spec fn read_field(s: Seq<u8>) -> Option<(WireField, nat)> {
    match read_u64(s) {
        None => None,
        Some((key, kn)) => {
            let tag = key / 8;
            let wire_type = key % 8;
            let rest = s.skip(kn as int);
            if tag < 1 || tag > MAX_TAG {
                None
            } else if wire_type == 0 {
                match read_u64(rest) {
                    Some((v, vn)) => Some((varint_field(tag as u32, v), kn + vn)),
                    None => None,
                }
            } else if wire_type == 2 {
                match read_u64(rest) {
                    Some((len, ln)) => if ln + len <= rest.len() {
                        Some(
                            (
                                bytes_field(tag as u32, rest.subrange(ln as int, ln + len)),
                                (kn + ln + len) as nat,
                            ),
                        )
                    } else {
                        None
                    },
                    None => None,
                }
            } else if wire_type == 1 || wire_type == 5 {
                let width: nat = if wire_type == 1 {
                    8
                } else {
                    4
                };
                if width <= rest.len() {
                    Some(
                        (
                            WireField { tag: tag as u32, value: WireValue::Fixed(rest.subrange(0, width as int)) },
                            kn + width,
                        ),
                    )
                } else {
                    None
                }
            } else {
                None
            }
        },
    }
}

/// Reads a whole message as a sequence of fields.
pub open spec fn read_fields(s: Seq<u8>) -> Option<Seq<WireField>>
    decreases s.len(),
{
    if s.len() == 0 {
        Some(seq![])
    } else {
        match read_field(s) {
            Some((f, n)) => if 0 < n <= s.len() {
                match read_fields(s.skip(n as int)) {
                    Some(rest) => Some(seq![f] + rest),
                    None => None,
                }
            } else {
                None
            },
            None => None,
        }
    }
}

spec fn varint_cap(k: nat) -> nat
    decreases k,
{
    if k == 0 {
        1
    } else {
        128 * varint_cap((k - 1) as nat)
    }
}

proof fn lemma_varint_len_cap(n: nat, k: nat)
    requires
        n < varint_cap(k),
        k >= 1,
    ensures
        1 <= varint(n).len() <= k,
    decreases n,
{
    if n >= 128 {
        if k == 1 {
            assert(varint_cap(0) == 1);
        }
        let c = varint_cap((k - 1) as nat);
        assert(n / 128 < c) by (nonlinear_arith)
            requires
                n < 128 * c,
        ;
        lemma_varint_len_cap(n / 128, (k - 1) as nat);
    } else {
        if k == 0 {
            assert(varint_cap(0) == 1);
        }
    }
}

pub proof fn lemma_varint_len(n: nat)
    requires
        n <= u64::MAX,
    ensures
        1 <= varint(n).len() <= MAX_VARINT_LEN,
{
    reveal_with_fuel(varint_cap, 11);
    assert(varint_cap(10) == 1180591620717411303424nat);
    lemma_varint_len_cap(n, 10);
}

proof fn lemma_read_varint_of(n: nat, rest: Seq<u8>, fuel: nat)
    requires
        varint(n).len() <= fuel,
    ensures
        read_varint(varint(n) + rest, fuel) == Some((n, varint(n).len())),
    decreases n,
{
    let s = varint(n) + rest;
    if n < 128 {
        assert(s[0] == n as u8);
    } else {
        let tail = varint(n / 128);
        assert(s[0] == (n % 128 + 128) as u8);
        assert(s.drop_first() =~= tail + rest);
        lemma_read_varint_of(n / 128, rest, (fuel - 1) as nat);
    }
}

proof fn lemma_read_varint_len(s: Seq<u8>, fuel: nat)
    ensures
        match read_varint(s, fuel) {
            Some((v, n)) => 1 <= n <= s.len() && n <= fuel,
            None => true,
        },
    decreases fuel,
{
    if fuel > 0 && s.len() > 0 && s[0] >= 128 {
        lemma_read_varint_len(s.drop_first(), (fuel - 1) as nat);
    }
}

pub proof fn lemma_read_u64_of(v: u64, rest: Seq<u8>)
    ensures
        read_u64(varint(v as nat) + rest) == Some((v, varint(v as nat).len())),
{
    lemma_varint_len(v as nat);
    lemma_read_varint_of(v as nat, rest, MAX_VARINT_LEN as nat);
}

proof fn lemma_read_varint_field_of(tag: u32, v: u64, rest: Seq<u8>)
    requires
        1 <= tag <= MAX_TAG,
    ensures
        ({
            let f = WireField { tag, value: WireValue::Varint(v) };
            read_field(field_bytes(f) + rest) == Some((f, field_bytes(f).len()))
        }),
{
    let f = WireField { tag, value: WireValue::Varint(v) };
    let s = field_bytes(f) + rest;
    let key = (tag as nat * 8) as u64;
    assert(s =~= varint(key as nat) + (varint(v as nat) + rest));
    lemma_read_u64_of(key, varint(v as nat) + rest);
    let kn = varint(key as nat).len();
    assert(s.skip(kn as int) =~= varint(v as nat) + rest);
    lemma_read_u64_of(v, rest);
}

proof fn lemma_read_bytes_field_of(tag: u32, b: Seq<u8>, rest: Seq<u8>)
    requires
        1 <= tag <= MAX_TAG,
        b.len() <= u64::MAX,
    ensures
        ({
            let f = WireField { tag, value: WireValue::Bytes(b) };
            read_field(field_bytes(f) + rest) == Some((f, field_bytes(f).len()))
        }),
{
    let f = WireField { tag, value: WireValue::Bytes(b) };
    let s = field_bytes(f) + rest;
    let key = (tag as nat * 8 + 2) as u64;
    let len = b.len() as u64;
    assert(s =~= varint(key as nat) + (varint(len as nat) + b + rest));
    lemma_read_u64_of(key, varint(len as nat) + b + rest);
    let kn = varint(key as nat).len();
    let r1 = s.skip(kn as int);
    assert(r1 =~= varint(len as nat) + (b + rest));
    lemma_read_u64_of(len, b + rest);
    let ln = varint(len as nat).len();
    assert(r1.subrange(ln as int, ln + len) =~= b);
}

proof fn lemma_read_fixed_field_of(tag: u32, b: Seq<u8>, rest: Seq<u8>)
    requires
        1 <= tag <= MAX_TAG,
        b.len() == 8 || b.len() == 4,
    ensures
        ({
            let f = WireField { tag, value: WireValue::Fixed(b) };
            read_field(field_bytes(f) + rest) == Some((f, field_bytes(f).len()))
        }),
{
    let f = WireField { tag, value: WireValue::Fixed(b) };
    let s = field_bytes(f) + rest;
    let key = (tag as nat * 8 + fixed_wire_type(b.len())) as u64;
    assert(s =~= varint(key as nat) + (b + rest));
    lemma_read_u64_of(key, b + rest);
    let kn = varint(key as nat).len();
    assert(s.skip(kn as int) =~= b + rest);
    assert((b + rest).subrange(0, b.len() as int) =~= b);
}

pub proof fn lemma_read_field_of(f: WireField, rest: Seq<u8>)
    requires
        well_formed_field(f),
    ensures
        read_field(field_bytes(f) + rest) == Some((f, field_bytes(f).len())),
{
    match f.value {
        WireValue::Varint(v) => lemma_read_varint_field_of(f.tag, v, rest),
        WireValue::Bytes(b) => lemma_read_bytes_field_of(f.tag, b, rest),
        WireValue::Fixed(b) => lemma_read_fixed_field_of(f.tag, b, rest),
    }
}

pub proof fn lemma_fields_bytes_append(a: Seq<WireField>, b: Seq<WireField>)
    ensures
        fields_bytes(a + b) == fields_bytes(a) + fields_bytes(b),
    decreases a.len(),
{
    if a.len() == 0 {
        assert(a + b =~= b);
        assert(fields_bytes(a) =~= seq![]);
        assert(fields_bytes(b) =~= seq![] + fields_bytes(b));
    } else {
        assert((a + b).drop_first() =~= a.drop_first() + b);
        lemma_fields_bytes_append(a.drop_first(), b);
        assert((a + b)[0] == a[0]);
    }
}

/// Reading back what was written gives the same fields.
pub proof fn lemma_read_fields_of(fs: Seq<WireField>)
    requires
        well_formed_fields(fs),
    ensures
        read_fields(fields_bytes(fs)) == Some(fs),
    decreases fs.len(),
{
    let s = fields_bytes(fs);
    if fs.len() == 0 {
        assert(s.len() == 0);
        assert(fs =~= seq![]);
    } else {
        let f = fs[0];
        let tail = fs.drop_first();
        assert(well_formed_field(f));
        assert(well_formed_fields(tail)) by {
            assert forall|i: int| 0 <= i < tail.len() implies well_formed_field(
                #[trigger] tail[i],
            ) by {
                assert(tail[i] == fs[i + 1]);
            }
        }
        lemma_read_field_of(f, fields_bytes(tail));
        let n = field_bytes(f).len();
        lemma_field_bytes_nonempty(f);
        assert(s.skip(n as int) =~= fields_bytes(tail));
        lemma_read_fields_of(tail);
        assert(seq![f] + tail =~= fs);
    }
}

proof fn lemma_field_bytes_nonempty(f: WireField)
    requires
        well_formed_field(f),
    ensures
        field_bytes(f).len() > 0,
{
    match f.value {
        WireValue::Varint(v) => lemma_varint_len(f.tag as nat * 8),
        WireValue::Bytes(b) => lemma_varint_len(f.tag as nat * 8 + 2),
        WireValue::Fixed(b) => lemma_varint_len(f.tag as nat * 8 + fixed_wire_type(b.len())),
    }
}

/// Appends the varint encoding of `v`.
pub fn write_varint(out: &mut Vec<u8>, v: u64)
    ensures
        final(out)@ == old(out)@ + varint(v as nat),
{
    let mut rest: u64 = v;
    while rest >= 128
        invariant
            out@ + varint(rest as nat) == old(out)@ + varint(v as nat),
        decreases rest,
    {
        let ghost before = out@;
        out.push((rest % 128 + 128) as u8);
        proof {
            assert(varint(rest as nat) == seq![(rest as nat % 128 + 128) as u8] + varint(
                rest as nat / 128,
            ));
            assert(out@ + varint(rest as nat / 128) =~= before + varint(rest as nat));
        }
        rest = rest / 128;
    }
    out.push(rest as u8);
    proof {
        assert(varint(rest as nat) == seq![rest as u8]);
    }
}

/// Appends a length-delimited field.
pub fn write_bytes_field(out: &mut Vec<u8>, tag: u32, b: &[u8])
    requires
        1 <= tag <= MAX_TAG,
    ensures
        final(out)@ == old(out)@ + field_bytes(bytes_field(tag, b@)),
{
    write_varint(out, tag as u64 * 8 + 2);
    write_varint(out, b.len() as u64);
    let mut i: usize = 0;
    let ghost mid = out@;
    while i < b.len()
        invariant
            i <= b@.len(),
            out@ == mid + b@.subrange(0, i as int),
        decreases b@.len() - i,
    {
        out.push(b[i]);
        i = i + 1;
        proof {
            assert(out@ =~= mid + b@.subrange(0, i as int));
        }
    }
    proof {
        assert(b@.subrange(0, b@.len() as int) =~= b@);
    }
}

/// Appends a fixed field of eight or four bytes.
pub fn write_fixed_field(out: &mut Vec<u8>, tag: u32, b: &[u8])
    requires
        1 <= tag <= MAX_TAG,
        b@.len() == 8 || b@.len() == 4,
    ensures
        final(out)@ == old(out)@ + field_bytes(WireField { tag, value: WireValue::Fixed(b@) }),
{
    let wire_type: u64 = if b.len() == 8 {
        1
    } else {
        5
    };
    write_varint(out, tag as u64 * 8 + wire_type);
    let mut i: usize = 0;
    let ghost mid = out@;
    while i < b.len()
        invariant
            i <= b@.len(),
            out@ == mid + b@.subrange(0, i as int),
        decreases b@.len() - i,
    {
        out.push(b[i]);
        i = i + 1;
        proof {
            assert(out@ =~= mid + b@.subrange(0, i as int));
        }
    }
    proof {
        assert(b@.subrange(0, b@.len() as int) =~= b@);
    }
}

/// Appends a varint field.
pub fn write_varint_field(out: &mut Vec<u8>, tag: u32, v: u64)
    requires
        1 <= tag <= MAX_TAG,
    ensures
        final(out)@ == old(out)@ + field_bytes(varint_field(tag, v)),
{
    write_varint(out, tag as u64 * 8);
    write_varint(out, v);
    proof {
        assert(old(out)@ + varint(tag as nat * 8) + varint(v as nat) =~= old(out)@ + (varint(
            tag as nat * 8,
        ) + varint(v as nat)));
    }
}

fn read_varint_from(s: &[u8], pos: usize, fuel: u8) -> (r: Option<(u64, usize)>)
    requires
        pos <= s@.len(),
    ensures
        match read_varint(s@.skip(pos as int), fuel as nat) {
            Some((v, n)) => if v <= u64::MAX {
                r == Some((v as u64, n as usize)) && 1 <= n <= fuel && pos + n <= s@.len()
            } else {
                r is None
            },
            None => r is None,
        },
    decreases fuel,
{
    let ghost t = s@.skip(pos as int);
    proof {
        lemma_read_varint_len(t, fuel as nat);
    }
    if fuel == 0 || pos >= s.len() {
        return None;
    }
    let b = s[pos];
    assert(t[0] == b);
    if b < 128 {
        return Some((b as u64, 1));
    }
    let inner = read_varint_from(s, pos + 1, fuel - 1);
    assert(s@.skip(pos + 1) =~= t.drop_first());
    match inner {
        None => None,
        Some((v, n)) => {
            let low = (b - 128) as u64;
            if v > (u64::MAX - low) / 128 {
                proof {
                    assert(low + 128 * (v as nat) > u64::MAX) by (nonlinear_arith)
                        requires
                            v > (u64::MAX - low) / 128,
                            low < 128,
                    ;
                }
                None
            } else {
                proof {
                    assert(low + 128 * (v as nat) <= u64::MAX) by (nonlinear_arith)
                        requires
                            v <= (u64::MAX - low) / 128,
                            low < 128,
                    ;
                }
                Some((low + 128 * v, n + 1))
            }
        },
    }
}

/// Reads a varint at `pos`: its value and its length.
pub fn read_u64_at(s: &[u8], pos: usize) -> (r: Option<(u64, usize)>)
    requires
        pos <= s@.len(),
    ensures
        match read_u64(s@.skip(pos as int)) {
            Some((v, n)) => n <= MAX_VARINT_LEN && r == Some((v, n as usize)),
            None => r is None,
        },
        r matches Some((v, n)) ==> 1 <= n <= MAX_VARINT_LEN && pos + n <= s@.len(),
{
    read_varint_from(s, pos, MAX_VARINT_LEN)
}

fn slice_to_vec(s: &[u8], from: usize, to: usize) -> (r: Vec<u8>)
    requires
        from <= to <= s@.len(),
    ensures
        r@ == s@.subrange(from as int, to as int),
{
    let mut out: Vec<u8> = Vec::new();
    let mut i: usize = from;
    while i < to
        invariant
            from <= i <= to,
            to <= s@.len(),
            out@ == s@.subrange(from as int, i as int),
        decreases to - i,
    {
        out.push(s[i]);
        i = i + 1;
        proof {
            assert(out@ =~= s@.subrange(from as int, i as int));
        }
    }
    out
}

/// Reads the field that starts at `pos`, with the number of bytes it takes.
pub fn read_field_at(s: &[u8], pos: usize) -> (r: Option<(Field, usize)>)
    requires
        pos <= s@.len(),
    ensures
        match read_field(s@.skip(pos as int)) {
            Some((f, n)) => match r {
                Some((g, m)) => g@ == f && m == n,
                None => false,
            },
            None => r is None,
        },
{
    let ghost t = s@.skip(pos as int);
    let total: usize = s.len();
    let first = read_u64_at(s, pos);
    let (key, kn) = match first {
        Some(p) => p,
        None => return None,
    };
    assert(pos + kn <= s@.len());
    let tag = key / 8;
    let wire_type = key % 8;
    if tag < 1 || tag > MAX_TAG as u64 {
        return None;
    }
    let p1 = pos + kn;
    assert(s@.skip(p1 as int) =~= t.skip(kn as int));
    if wire_type == 1 || wire_type == 5 {
        let width: usize = if wire_type == 1 {
            8
        } else {
            4
        };
        if width > total - p1 {
            return None;
        }
        let b = slice_to_vec(s, p1, p1 + width);
        proof {
            assert(b@ =~= t.skip(kn as int).subrange(0, width as int));
        }
        return Some((Field { tag: tag as u32, value: FieldValue::Fixed(b) }, kn + width));
    }
    let second = read_u64_at(s, p1);
    let (v, vn) = match second {
        Some(p) => p,
        None => return None,
    };
    assert(p1 + vn <= s@.len());
    if wire_type == 0 {
        Some((Field { tag: tag as u32, value: FieldValue::Varint(v) }, kn + vn))
    } else if wire_type == 2 {
        let p2 = p1 + vn;
        if v > (total - p2) as u64 {
            return None;
        }
        let end = p2 + v as usize;
        let b = slice_to_vec(s, p2, end);
        proof {
            assert(b@ =~= t.skip(kn as int).subrange(vn as int, vn + v));
        }
        Some((Field { tag: tag as u32, value: FieldValue::Bytes(b) }, kn + vn + v as usize))
    } else {
        None
    }
}

/// Splits an encoded message into its fields.
pub fn decode_fields(s: &[u8]) -> (r: Option<Vec<Field>>)
    ensures
        match read_fields(s@) {
            Some(fs) => r is Some && field_views(r->0@) == fs,
            None => r is None,
        },
{
    let mut out: Vec<Field> = Vec::new();
    let mut pos: usize = 0;
    proof {
        assert(s@.skip(0) =~= s@);
        match read_fields(s@) {
            Some(rest) => assert(field_views(out@) + rest =~= rest),
            None => {},
        }
    }
    while pos < s.len()
        invariant
            pos <= s@.len(),
            read_fields(s@) == match read_fields(s@.skip(pos as int)) {
                Some(rest) => Some(field_views(out@) + rest),
                None => None,
            },
        decreases s@.len() - pos,
    {
        let ghost t = s@.skip(pos as int);
        let ghost before = out@;
        match read_field_at(s, pos) {
            None => {
                return None;
            },
            Some((f, n)) => {
                if n == 0 || n > s.len() - pos {
                    return None;
                }
                proof {
                    assert(s@.skip(pos + n) =~= t.skip(n as int));
                }
                out.push(f);
                pos = pos + n;
                proof {
                    assert(field_views(out@) =~= field_views(before) + seq![f@]);
                    match read_fields(s@.skip(pos as int)) {
                        Some(rest) => {
                            assert(field_views(before) + (seq![f@] + rest) =~= field_views(out@)
                                + rest);
                        },
                        None => {},
                    }
                }
            },
        }
    }
    proof {
        assert(s@.skip(pos as int).len() == 0);
        assert(field_views(out@) + seq![] =~= field_views(out@));
    }
    Some(out)
}

/// Encodes fields one after another.
pub fn encode_fields(fs: &Vec<Field>) -> (r: Vec<u8>)
    requires
        forall|i: int| 0 <= i < fs@.len() ==> well_formed_field(#[trigger] fs@[i]@),
    ensures
        r@ == fields_bytes(field_views(fs@)),
{
    let mut out: Vec<u8> = Vec::new();
    let mut i: usize = 0;
    while i < fs.len()
        invariant
            i <= fs@.len(),
            forall|j: int| 0 <= j < fs@.len() ==> well_formed_field(#[trigger] fs@[j]@),
            out@ == fields_bytes(field_views(fs@.subrange(0, i as int))),
        decreases fs@.len() - i,
    {
        let f = &fs[i];
        assert(well_formed_field(fs@[i as int]@));
        match &f.value {
            FieldValue::Varint(v) => write_varint_field(&mut out, f.tag, *v),
            FieldValue::Bytes(b) => write_bytes_field(&mut out, f.tag, b.as_slice()),
            FieldValue::Fixed(b) => write_fixed_field(&mut out, f.tag, b.as_slice()),
        }
        proof {
            let done = field_views(fs@.subrange(0, i as int));
            assert(field_views(fs@.subrange(0, i + 1)) =~= done + seq![f@]);
            lemma_fields_bytes_append(done, seq![f@]);
            assert(fields_bytes(seq![f@]) =~= field_bytes(f@) + fields_bytes(seq![f@].drop_first()));
            assert(fields_bytes(seq![f@].drop_first()) =~= seq![]);
        }
        i = i + 1;
    }
    proof {
        assert(fs@.subrange(0, fs@.len() as int) =~= fs@);
    }
    out
}


/// The value of the last field with `tag`: the one a decoder keeps.
pub open spec fn last_value(fs: Seq<WireField>, tag: u32) -> Option<WireValue>
    decreases fs.len(),
{
    if fs.len() == 0 {
        None
    } else if fs.last().tag == tag {
        Some(fs.last().value)
    } else {
        last_value(fs.drop_last(), tag)
    }
}

/// A length-delimited field: its bytes, empty when absent, `None` on a varint.
pub open spec fn bytes_or_empty(fs: Seq<WireField>, tag: u32) -> Option<Seq<u8>> {
    match last_value(fs, tag) {
        None => Some(seq![]),
        Some(WireValue::Bytes(b)) => Some(b),
        Some(_) => None,
    }
}

/// A varint field: its value, zero when absent, `None` on a byte string.
pub open spec fn varint_or_zero(fs: Seq<WireField>, tag: u32) -> Option<u64> {
    match last_value(fs, tag) {
        None => Some(0),
        Some(WireValue::Varint(v)) => Some(v),
        Some(_) => None,
    }
}

/// A string field: its characters, empty when absent, `None` unless UTF-8.
pub open spec fn text_or_empty(fs: Seq<WireField>, tag: u32) -> Option<Seq<char>> {
    match bytes_or_empty(fs, tag) {
        Some(b) => if valid_utf8(b) {
            Some(decode_utf8(b))
        } else {
            None
        },
        None => None,
    }
}

/// All byte strings under `tag`, in order; `None` if one of them is a varint.
pub open spec fn all_bytes(fs: Seq<WireField>, tag: u32) -> Option<Seq<Seq<u8>>>
    decreases fs.len(),
{
    if fs.len() == 0 {
        Some(seq![])
    } else {
        match all_bytes(fs.drop_last(), tag) {
            None => None,
            Some(prev) => if fs.last().tag != tag {
                Some(prev)
            } else {
                match fs.last().value {
                    WireValue::Bytes(b) => Some(prev.push(b)),
                    _ => None,
                }
            },
        }
    }
}

/// A byte-string field, left out when empty.
pub open spec fn opt_bytes(tag: u32, b: Seq<u8>) -> Seq<WireField> {
    if b.len() == 0 {
        seq![]
    } else {
        seq![bytes_field(tag, b)]
    }
}

/// A string field, left out when empty.
pub open spec fn opt_text(tag: u32, s: Seq<char>) -> Seq<WireField> {
    if s.len() == 0 {
        seq![]
    } else {
        seq![bytes_field(tag, encode_utf8(s))]
    }
}

/// A varint field, left out when zero.
pub open spec fn opt_varint(tag: u32, v: u64) -> Seq<WireField> {
    if v == 0 {
        seq![]
    } else {
        seq![varint_field(tag, v)]
    }
}

/// An embedded message, present exactly when `m` is `Some`.
pub open spec fn opt_message(tag: u32, m: Option<Seq<u8>>) -> Seq<WireField> {
    match m {
        Some(b) => seq![bytes_field(tag, b)],
        None => seq![],
    }
}

/// A repeated byte-string field.
pub open spec fn repeated_bytes(tag: u32, items: Seq<Seq<u8>>) -> Seq<WireField> {
    items.map_values(|b: Seq<u8>| bytes_field(tag, b))
}

pub broadcast proof fn lemma_last_value_append(a: Seq<WireField>, b: Seq<WireField>, tag: u32)
    ensures
        #[trigger] last_value(a + b, tag) == match last_value(b, tag) {
            Some(v) => Some(v),
            None => last_value(a, tag),
        },
    decreases b.len(),
{
    if b.len() == 0 {
        assert(a + b =~= a);
    } else {
        assert((a + b).drop_last() =~= a + b.drop_last());
        lemma_last_value_append(a, b.drop_last(), tag);
    }
}

pub broadcast proof fn lemma_last_value_single(f: WireField, tag: u32)
    ensures
        #[trigger] last_value(seq![f], tag) == if f.tag == tag {
            Some(f.value)
        } else {
            None
        },
{
    reveal_with_fuel(last_value, 2);
    assert(seq![f].drop_last() =~= Seq::<WireField>::empty());
}

pub broadcast proof fn lemma_last_value_empty(tag: u32)
    ensures
        #[trigger] last_value(Seq::<WireField>::empty(), tag) == None::<WireValue>,
{
}

pub broadcast proof fn lemma_well_formed_append(a: Seq<WireField>, b: Seq<WireField>)
    requires
        well_formed_fields(a),
        well_formed_fields(b),
    ensures
        #[trigger] well_formed_fields(a + b),
{
    assert forall|i: int| 0 <= i < (a + b).len() implies well_formed_field(#[trigger] (a + b)[i]) by {
        if i < a.len() {
            assert((a + b)[i] == a[i]);
        } else {
            assert((a + b)[i] == b[i - a.len()]);
        }
    }
}

pub broadcast group group_field_lookup {
    lemma_last_value_append,
    lemma_last_value_single,
    lemma_last_value_empty,
    lemma_well_formed_append,
}

/// Position of the last field with `tag`.
pub fn find_last(fs: &Vec<Field>, tag: u32) -> (r: Option<usize>)
    ensures
        match last_value(field_views(fs@), tag) {
            None => r is None,
            Some(v) => r matches Some(i) && i < fs@.len() && fs@[i as int]@.tag == tag
                && fs@[i as int]@.value == v,
        },
{
    let mut i: usize = fs.len();
    proof {
        assert(fs@.subrange(0, i as int) =~= fs@);
    }
    while i > 0
        invariant
            i <= fs@.len(),
            last_value(field_views(fs@), tag) == last_value(field_views(fs@.subrange(0, i as int)), tag),
        decreases i,
    {
        let ghost pre = field_views(fs@.subrange(0, i as int));
        assert(pre.last() == fs@[i - 1]@);
        assert(pre.drop_last() =~= field_views(fs@.subrange(0, i - 1)));
        if fs[i - 1].tag == tag {
            return Some(i - 1);
        }
        i = i - 1;
    }
    proof {
        assert(field_views(fs@.subrange(0, 0)) =~= Seq::<WireField>::empty());
    }
    None
}

/// The bytes of a length-delimited field: empty when absent.
pub fn get_bytes(fs: &Vec<Field>, tag: u32) -> (r: Option<Vec<u8>>)
    ensures
        match bytes_or_empty(field_views(fs@), tag) {
            Some(b) => r matches Some(v) && v@ == b,
            None => r is None,
        },
{
    proof {
        assert(field_views(fs@).len() == fs@.len());
    }
    match find_last(fs, tag) {
        None => Some(Vec::new()),
        Some(i) => match &fs[i].value {
            FieldValue::Bytes(b) => Some(b.clone()),
            _ => None,
        },
    }
}

/// The value of a varint field: zero when absent.
pub fn get_varint(fs: &Vec<Field>, tag: u32) -> (r: Option<u64>)
    ensures
        r == varint_or_zero(field_views(fs@), tag),
{
    match find_last(fs, tag) {
        None => Some(0),
        Some(i) => match &fs[i].value {
            FieldValue::Varint(v) => Some(*v),
            _ => None,
        },
    }
}

/// All byte strings under a repeated field, in order.
pub fn get_all_bytes(fs: &Vec<Field>, tag: u32) -> (r: Option<Vec<Vec<u8>>>)
    ensures
        match all_bytes(field_views(fs@), tag) {
            Some(items) => r matches Some(v) && v@.len() == items.len() && forall|j: int|
                0 <= j < items.len() ==> (#[trigger] v@[j])@ == items[j],
            None => r is None,
        },
{
    let mut out: Vec<Vec<u8>> = Vec::new();
    let mut i: usize = 0;
    proof {
        assert(field_views(fs@.subrange(0, 0)) =~= Seq::<WireField>::empty());
    }
    while i < fs.len()
        invariant
            i <= fs@.len(),
            all_bytes(field_views(fs@.subrange(0, i as int)), tag) matches Some(items) && out@.len()
                == items.len() && forall|j: int| 0 <= j < items.len() ==> (#[trigger] out@[j])@
                == items[j],
        decreases fs@.len() - i,
    {
        let ghost pre = field_views(fs@.subrange(0, i as int));
        let ghost next = field_views(fs@.subrange(0, i + 1));
        assert(next.drop_last() =~= pre);
        assert(next.last() == fs@[i as int]@);
        if fs[i].tag == tag {
            match &fs[i].value {
                FieldValue::Bytes(b) => {
                    out.push(b.clone());
                },
                _ => {
                    proof {
                        assert(field_views(fs@).subrange(0, i + 1) =~= next);
                        lemma_all_bytes_none_extends(field_views(fs@), i as int + 1, tag);
                    }
                    return None;
                },
            }
        }
        i = i + 1;
    }
    proof {
        assert(fs@.subrange(0, fs@.len() as int) =~= fs@);
    }
    Some(out)
}

proof fn lemma_all_bytes_none_extends(fs: Seq<WireField>, k: int, tag: u32)
    requires
        0 <= k <= fs.len(),
        all_bytes(fs.subrange(0, k), tag) is None,
    ensures
        all_bytes(fs, tag) is None,
    decreases fs.len() - k,
{
    if k == fs.len() {
        assert(fs.subrange(0, k) =~= fs);
    } else {
        assert(fs.subrange(0, k + 1).drop_last() =~= fs.subrange(0, k));
        lemma_all_bytes_none_extends(fs, k + 1, tag);
    }
}


pub broadcast proof fn lemma_fields_bytes_concat(a: Seq<WireField>, b: Seq<WireField>)
    ensures
        #[trigger] fields_bytes(a + b) == fields_bytes(a) + fields_bytes(b),
{
    lemma_fields_bytes_append(a, b);
}

pub broadcast proof fn lemma_fields_bytes_single(f: WireField)
    ensures
        #[trigger] fields_bytes(seq![f]) == field_bytes(f),
{
    reveal_with_fuel(fields_bytes, 2);
    assert(seq![f].drop_first() =~= Seq::<WireField>::empty());
    assert(field_bytes(f) + Seq::<u8>::empty() =~= field_bytes(f));
}

pub broadcast proof fn lemma_fields_bytes_empty()
    ensures
        #[trigger] fields_bytes(Seq::<WireField>::empty()) == Seq::<u8>::empty(),
{
}

pub broadcast proof fn lemma_well_formed_single(f: WireField)
    requires
        well_formed_field(f),
    ensures
        #[trigger] well_formed_fields(seq![f]),
{
}

pub broadcast proof fn lemma_well_formed_empty()
    ensures
        #[trigger] well_formed_fields(Seq::<WireField>::empty()),
{
}

pub broadcast group group_field_bytes {
    lemma_fields_bytes_concat,
    lemma_fields_bytes_single,
    lemma_fields_bytes_empty,
    lemma_well_formed_single,
    lemma_well_formed_empty,
}

/// Appends a byte-string field, left out when empty.
pub fn put_bytes(out: &mut Vec<u8>, tag: u32, b: &[u8])
    requires
        1 <= tag <= MAX_TAG,
    ensures
        final(out)@ == old(out)@ + fields_bytes(opt_bytes(tag, b@)),
{
    broadcast use group_field_bytes;

    if b.len() > 0 {
        write_bytes_field(out, tag, b);
    } else {
        assert(old(out)@ + Seq::<u8>::empty() =~= old(out)@);
    }
}

/// Appends a string field, left out when empty.
pub fn put_text(out: &mut Vec<u8>, tag: u32, s: &String)
    requires
        1 <= tag <= MAX_TAG,
    ensures
        final(out)@ == old(out)@ + fields_bytes(opt_text(tag, s@)),
{
    broadcast use group_field_bytes;

    let b = s.as_str().as_bytes();
    if s.as_str().is_empty() {
        assert(old(out)@ + Seq::<u8>::empty() =~= old(out)@);
    } else {
        write_bytes_field(out, tag, b);
    }
}

/// Appends a varint field, left out when zero.
pub fn put_varint(out: &mut Vec<u8>, tag: u32, v: u64)
    requires
        1 <= tag <= MAX_TAG,
    ensures
        final(out)@ == old(out)@ + fields_bytes(opt_varint(tag, v)),
{
    broadcast use group_field_bytes;

    if v != 0 {
        write_varint_field(out, tag, v);
    } else {
        assert(old(out)@ + Seq::<u8>::empty() =~= old(out)@);
    }
}

/// Appends an embedded message that is present.
pub fn put_message(out: &mut Vec<u8>, tag: u32, b: &[u8])
    requires
        1 <= tag <= MAX_TAG,
    ensures
        final(out)@ == old(out)@ + fields_bytes(opt_message(tag, Some(b@))),
{
    broadcast use group_field_bytes;

    write_bytes_field(out, tag, b);
}

/// Appends every byte string as a field of its own.
pub fn put_repeated_bytes(out: &mut Vec<u8>, tag: u32, items: &Vec<Vec<u8>>)
    requires
        1 <= tag <= MAX_TAG,
    ensures
        final(out)@ == old(out)@ + fields_bytes(
            repeated_bytes(tag, items@.map_values(|b: Vec<u8>| b@)),
        ),
{
    broadcast use group_field_bytes;

    let ghost all = items@.map_values(|b: Vec<u8>| b@);
    let mut i: usize = 0;
    proof {
        assert(repeated_bytes(tag, all.subrange(0, 0)) =~= Seq::<WireField>::empty());
        assert(old(out)@ + Seq::<u8>::empty() =~= old(out)@);
    }
    while i < items.len()
        invariant
            i <= items@.len(),
            1 <= tag <= MAX_TAG,
            all == items@.map_values(|b: Vec<u8>| b@),
            out@ == old(out)@ + fields_bytes(repeated_bytes(tag, all.subrange(0, i as int))),
        decreases items@.len() - i,
    {
        let ghost before = out@;
        write_bytes_field(out, tag, items[i].as_slice());
        proof {
            let pre = repeated_bytes(tag, all.subrange(0, i as int));
            let f = bytes_field(tag, items@[i as int]@);
            assert(repeated_bytes(tag, all.subrange(0, i + 1)) =~= pre + seq![f]);
            lemma_fields_bytes_concat(pre, seq![f]);
            lemma_fields_bytes_single(f);
            assert(out@ =~= old(out)@ + (fields_bytes(pre) + field_bytes(f)));
        }
        i = i + 1;
    }
    proof {
        assert(all.subrange(0, items@.len() as int) =~= all);
    }
}


pub broadcast proof fn lemma_opt_bytes_facts(tag: u32, b: Seq<u8>, t: u32)
    ensures
        1 <= tag <= MAX_TAG && b.len() <= u64::MAX ==> #[trigger] well_formed_fields(
            opt_bytes(tag, b),
        ),
        #[trigger] last_value(opt_bytes(tag, b), t) == if t == tag && b.len() > 0 {
            Some(WireValue::Bytes(b))
        } else {
            None
        },
{
    lemma_last_value_single(bytes_field(tag, b), t);
}

pub broadcast proof fn lemma_opt_text_facts(tag: u32, s: Seq<char>, t: u32)
    ensures
        1 <= tag <= MAX_TAG && encode_utf8(s).len() <= u64::MAX ==> #[trigger] well_formed_fields(
            opt_text(tag, s),
        ),
        #[trigger] last_value(opt_text(tag, s), t) == if t == tag && s.len() > 0 {
            Some(WireValue::Bytes(encode_utf8(s)))
        } else {
            None
        },
{
    lemma_last_value_single(bytes_field(tag, encode_utf8(s)), t);
}

pub broadcast proof fn lemma_opt_varint_facts(tag: u32, v: u64, t: u32)
    ensures
        1 <= tag <= MAX_TAG ==> #[trigger] well_formed_fields(opt_varint(tag, v)),
        #[trigger] last_value(opt_varint(tag, v), t) == if t == tag && v != 0 {
            Some(WireValue::Varint(v))
        } else {
            None
        },
{
    lemma_last_value_single(varint_field(tag, v), t);
}

pub broadcast proof fn lemma_opt_message_facts(tag: u32, m: Option<Seq<u8>>, t: u32)
    ensures
        1 <= tag <= MAX_TAG && (m matches Some(b) ==> b.len() <= u64::MAX)
            ==> #[trigger] well_formed_fields(opt_message(tag, m)),
        #[trigger] last_value(opt_message(tag, m), t) == if t == tag && m is Some {
            Some(WireValue::Bytes(m->0))
        } else {
            None
        },
{
    if m is Some {
        lemma_last_value_single(bytes_field(tag, m->0), t);
    }
}

pub broadcast group group_optional_fields {
    lemma_opt_bytes_facts,
    lemma_opt_text_facts,
    lemma_opt_varint_facts,
    lemma_opt_message_facts,
}

/// A byte-string field written by `opt_bytes` reads back as written.
pub proof fn lemma_bytes_back(fs: Seq<WireField>, tag: u32, b: Seq<u8>)
    requires
        last_value(fs, tag) == if b.len() > 0 {
            Some(WireValue::Bytes(b))
        } else {
            None
        },
    ensures
        bytes_or_empty(fs, tag) == Some(b),
{
    if b.len() == 0 {
        assert(b =~= seq![]);
    }
}

/// A string field written by `opt_text` reads back as written.
pub proof fn lemma_text_back(fs: Seq<WireField>, tag: u32, s: Seq<char>)
    requires
        last_value(fs, tag) == if s.len() > 0 {
            Some(WireValue::Bytes(encode_utf8(s)))
        } else {
            None
        },
    ensures
        text_or_empty(fs, tag) == Some(s),
{
    if s.len() == 0 {
        assert(s =~= seq![]);
        assert(seq![] =~= Seq::<u8>::empty());
        assert(decode_utf8(seq![]) =~= Seq::<char>::empty());
    } else {
        encode_utf8_valid_utf8(s);
        encode_utf8_decode_utf8(s);
    }
}

/// The characters of a string field: empty when absent.
pub fn get_text(fs: &Vec<Field>, tag: u32) -> (r: Option<String>)
    ensures
        match text_or_empty(field_views(fs@), tag) {
            Some(s) => r matches Some(v) && v@ == s,
            None => r is None,
        },
{
    match get_bytes(fs, tag) {
        None => None,
        Some(b) => crate::crypto::utf8_text(b.as_slice()),
    }
}

} // verus!
