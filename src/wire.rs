//! Big-endian integers and length-prefixed domain names on the wire.
use vstd::prelude::*;
use vstd::utf8::*;
use bytes::{Buf, BufMut};

verus! {

/// The two octets of `x`, most significant first.
pub open spec fn u16_bytes(x: u16) -> Seq<u8> {
    seq![(x / 256) as u8, (x % 256) as u8]
}

/// The value of two octets read most significant first.
pub open spec fn u16_of(hi: u8, lo: u8) -> u16 {
    (hi as int * 256 + lo as int) as u16
}

/// The four octets of the two's complement of `x`, most significant first.
pub open spec fn i32_bytes(x: i32) -> Seq<u8> {
    let u: int = if x < 0 { x + 0x1_0000_0000 } else { x as int };
    seq![
        (u / 0x100_0000) as u8,
        ((u / 0x1_0000) % 256) as u8,
        ((u / 256) % 256) as u8,
        (u % 256) as u8,
    ]
}

pub proof fn lemma_u16_round_trip(x: u16)
    ensures
        u16_of(u16_bytes(x)[0], u16_bytes(x)[1]) == x,
{
}

/// Relies on bytes::BufMut::put_u16 for Vec<u8>: appends the two octets of `n`,
/// most significant first.
#[verifier::external_body]
pub(crate) fn put_u16(out: &mut Vec<u8>, n: u16)
    ensures
        final(out)@ == old(out)@ + u16_bytes(n),
{
    out.put_u16(n)
}

/// Relies on bytes::BufMut::put_i32 for Vec<u8>: appends the four octets of `n`
/// in two's complement, most significant first.
#[verifier::external_body]
pub(crate) fn put_i32(out: &mut Vec<u8>, n: i32)
    ensures
        final(out)@ == old(out)@ + i32_bytes(n),
{
    out.put_i32(n)
}

/// Relies on bytes::BufMut::put_slice for Vec<u8>: appends the octets of `src`.
#[verifier::external_body]
pub(crate) fn put_slice(out: &mut Vec<u8>, src: &[u8])
    ensures
        final(out)@ == old(out)@ + src@,
{
    out.put_slice(src)
}

/// Relies on bytes::Buf::get_u16 for &[u8]: reads two octets, most significant
/// first, from position `at` on.
#[verifier::external_body]
pub(crate) fn get_u16(b: &[u8], at: usize) -> (r: u16)
    requires
        at + 2 <= b@.len(),
    ensures
        r == u16_of(b@[at as int], b@[at as int + 1]),
{
    let mut rest = &b[at..];
    rest.get_u16()
}

/// The characters of each label of a name.
pub open spec fn name_view(name: Seq<String>) -> Seq<Seq<char>> {
    name.map_values(|s: String| s@)
}

/// A label holds 1 to 63 octets once encoded as UTF-8.
pub open spec fn valid_label(label: Seq<char>) -> bool {
    1 <= encode_utf8(label).len() <= 63
}

/// Every label of the name is valid.
pub open spec fn valid_name(name: Seq<Seq<char>>) -> bool {
    forall|i: int| 0 <= i < name.len() ==> valid_label(#[trigger] name[i])
}

/// One length octet followed by the label's UTF-8 octets.
pub open spec fn label_wire(label: Seq<char>) -> Seq<u8> {
    seq![encode_utf8(label).len() as u8] + encode_utf8(label)
}

/// The labels of a name on the wire, without the final zero octet.
pub open spec fn labels_wire(name: Seq<Seq<char>>) -> Seq<u8>
    decreases name.len(),
{
    if name.len() == 0 {
        seq![]
    } else {
        labels_wire(name.drop_last()) + label_wire(name.last())
    }
}

/// A name on the wire: its labels, then one zero octet.
pub open spec fn name_wire(name: Seq<Seq<char>>) -> Seq<u8> {
    labels_wire(name) + seq![0u8]
}

/// The outcome of reading labels from position `i` of `b`: the labels read,
/// the position after them, and whether a zero octet ended the name. Reading
/// stops early, with the labels read so far, at the end of `b`, at a length
/// octet that points past the end of `b`, or at a label that is not UTF-8.
pub open spec fn parse_labels(b: Seq<u8>, i: int) -> (Seq<Seq<char>>, int, bool)
    decreases b.len() - i,
{
    if i < 0 || i >= b.len() {
        (seq![], i, false)
    } else if b[i] == 0 {
        (seq![], i + 1, true)
    } else {
        let end = i + 1 + b[i] as int;
        if end > b.len() || !valid_utf8(b.subrange(i + 1, end)) {
            (seq![], i, false)
        } else {
            let rest = parse_labels(b, end);
            (seq![decode_utf8(b.subrange(i + 1, end))] + rest.0, rest.1, rest.2)
        }
    }
}

/// Relies on String::from_utf8: `Ok` exactly when the octets are valid UTF-8,
/// and then a string made of those octets.
#[verifier::external_body]
fn string_from_utf8(v: Vec<u8>) -> (r: Option<String>)
    ensures
        r.is_some() == valid_utf8(v@),
        r matches Some(s) ==> encode_utf8(s@) == v@,
{
    String::from_utf8(v).ok()
}

/// Appends `name` to `out` as length-prefixed labels and a final zero octet.
pub fn put_name(out: &mut Vec<u8>, name: &Vec<String>)
    requires
        valid_name(name_view(name@)),
    ensures
        final(out)@ == old(out)@ + name_wire(name_view(name@)),
{
    let ghost start = out@;
    let ghost n = name_view(name@);
    let mut i: usize = 0;
    while i < name.len()
        invariant
            i <= name@.len(),
            n == name_view(name@),
            valid_name(n),
            out@ == start + labels_wire(n.take(i as int)),
        decreases name@.len() - i,
    {
        let label: &[u8] = name[i].as_str().as_bytes();
        assert(n[i as int] == name@[i as int]@);
        assert(valid_label(n[i as int]));
        out.push(label.len() as u8);
        put_slice(out, label);
        proof {
            assert(n.take(i + 1).drop_last() =~= n.take(i as int));
            assert(n.take(i + 1).last() == n[i as int]);
            assert(out@ =~= start + labels_wire(n.take(i + 1)));
        }
        i = i + 1;
    }
    out.push(0);
    assert(n.take(name@.len() as int) =~= n);
    assert(out@ =~= start + name_wire(n));
}

/// Reads labels from position `start` of `b`, as `parse_labels` says.
pub fn parse_name(b: &[u8], start: usize) -> (r: (Vec<String>, usize, bool))
    ensures
        name_view(r.0@) == parse_labels(b@, start as int).0,
        r.1 as int == parse_labels(b@, start as int).1,
        r.2 == parse_labels(b@, start as int).2,
{
    let ghost whole = parse_labels(b@, start as int);
    let mut qname: Vec<String> = Vec::new();
    let mut i: usize = start;
    loop
        invariant
            name_view(qname@) + parse_labels(b@, i as int).0 == whole.0,
            parse_labels(b@, i as int).1 == whole.1,
            parse_labels(b@, i as int).2 == whole.2,
            whole == parse_labels(b@, start as int),
        decreases b@.len() - i,
    {
        if i >= b.len() {
            assert(name_view(qname@) =~= whole.0);
            return (qname, i, false);
        }
        let len = b[i] as usize;
        if len == 0 {
            assert(name_view(qname@) =~= whole.0);
            return (qname, i + 1, true);
        }
        if len > b.len() - i - 1 {
            assert(name_view(qname@) =~= whole.0);
            return (qname, i, false);
        }
        let end = i + 1 + len;
        let mut v: Vec<u8> = Vec::new();
        let mut k: usize = i + 1;
        while k < end
            invariant
                i + 1 <= k <= end,
                end <= b@.len(),
                v@ == b@.subrange(i + 1, k as int),
            decreases end - k,
        {
            v.push(b[k]);
            k = k + 1;
            assert(v@ =~= b@.subrange(i + 1, k as int));
        }
        match string_from_utf8(v) {
            None => {
                assert(name_view(qname@) =~= whole.0);
                return (qname, i, false);
            },
            Some(label) => {
                proof {
                    broadcast use encode_utf8_decode_utf8;

                    assert(label@ == decode_utf8(b@.subrange(i + 1, end as int)));
                }
                let ghost before = qname@;
                qname.push(label);
                proof {
                    assert(name_view(qname@) =~= name_view(before).push(label@));
                    let rest = parse_labels(b@, end as int);
                    assert(parse_labels(b@, i as int).0 == seq![label@] + rest.0);
                    assert(name_view(qname@) + rest.0 =~= name_view(before) + (seq![label@]
                        + rest.0));
                }
                i = end;
            },
        }
    }
}

/// Checks that every label of `name` holds 1 to 63 octets.
pub fn is_valid_name(name: &Vec<String>) -> (r: bool)
    ensures
        r == valid_name(name_view(name@)),
{
    let ghost n = name_view(name@);
    let mut i: usize = 0;
    while i < name.len()
        invariant
            i <= name@.len(),
            n == name_view(name@),
            forall|j: int| 0 <= j < i ==> valid_label(#[trigger] n[j]),
        decreases name@.len() - i,
    {
        let len = name[i].as_str().as_bytes().len();
        assert(n[i as int] == name@[i as int]@);
        if len < 1 || len > 63 {
            return false;
        }
        i = i + 1;
    }
    true
}

proof fn lemma_labels_wire_first(name: Seq<Seq<char>>)
    requires
        name.len() > 0,
    ensures
        labels_wire(name) == label_wire(name[0]) + labels_wire(name.drop_first()),
    decreases name.len(),
{
    if name.len() == 1 {
        assert(name.drop_last() =~= seq![]);
        assert(name.drop_first() =~= seq![]);
        assert(labels_wire(name) =~= label_wire(name[0]) + labels_wire(name.drop_first()));
    } else {
        lemma_labels_wire_first(name.drop_last());
        assert(name.drop_last().drop_first() =~= name.drop_first().drop_last());
        assert(labels_wire(name) =~= label_wire(name[0]) + labels_wire(name.drop_first()));
    }
}

/// Reading an encoded valid name gives it back, with the position just after it.
pub proof fn lemma_name_round_trip(b: Seq<u8>, i: int, name: Seq<Seq<char>>)
    requires
        valid_name(name),
        0 <= i,
        i + name_wire(name).len() <= b.len(),
        b.subrange(i, i + name_wire(name).len()) == name_wire(name),
    ensures
        parse_labels(b, i) == (name, i + name_wire(name).len(), true),
    decreases name.len(),
{
    let w = name_wire(name);
    assert(b[i] == w[0]);
    if name.len() == 0 {
        assert(w =~= seq![0u8]);
    } else {
        broadcast use encode_utf8_valid_utf8, encode_utf8_decode_utf8;

        lemma_labels_wire_first(name);
        let label = name[0];
        let rest = name.drop_first();
        let e = encode_utf8(label);
        assert(valid_label(label));
        assert(w =~= label_wire(label) + name_wire(rest));
        let end = i + 1 + e.len();
        assert(b[i] as int == e.len());
        assert forall|k: int| 0 <= k < w.len() implies b[i + k] == #[trigger] w[k] by {
            assert(b.subrange(i, i + w.len())[k] == b[i + k]);
        }
        assert forall|k: int| 0 <= k < e.len() implies b[i + 1 + k] == #[trigger] e[k] by {
            assert(w[1 + k] == e[k]);
        }
        assert(b.subrange(i + 1, end) =~= e);
        assert forall|j: int| 0 <= j < rest.len() implies valid_label(#[trigger] rest[j]) by {
            assert(rest[j] == name[j + 1]);
        }
        assert forall|k: int| 0 <= k < name_wire(rest).len() implies b[end + k]
            == #[trigger] name_wire(rest)[k] by {
            assert(w[1 + e.len() + k] == name_wire(rest)[k]);
        }
        assert(b.subrange(end, end + name_wire(rest).len()) =~= name_wire(rest));
        lemma_name_round_trip(b, end, rest);
        assert(seq![label] + rest =~= name);
    }
}

} // verus!
