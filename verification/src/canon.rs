use vstd::prelude::*;

use crate::record::WipeCertificate;

verus! {

/// How one character of a field value appears in the canonical text: the two
/// JSON string delimiters are escaped with a backslash, everything else is
/// carried verbatim.
pub open spec fn esc_char(c: char) -> Seq<char> {
    if c == '"' {
        seq!['\\', '"']
    } else if c == '\\' {
        seq!['\\', '\\']
    } else {
        seq![c]
    }
}

/// A whole field value escaped for the canonical text.
pub open spec fn esc(s: Seq<char>) -> Seq<char>
    decreases s.len(),
{
    if s.len() == 0 {
        Seq::empty()
    } else {
        esc_char(s[0]) + esc(s.skip(1))
    }
}

/// The exact canonical text of a record, the text that is signed and
/// verified. It is a fixed schema: one JSON object whose keys appear in
/// lexicographic order, every field of the record except the signature
/// itself, with field values escaped by `esc`. It depends on nothing but the
/// six field values, so logically identical records canonicalize identically
/// on every platform.
pub open spec fn canon_seq(c: WipeCertificate) -> Seq<char> {
    "{\"certificate_id\":\""@ + esc(c.certificate_id@) + "\",\"device\":\""@ + esc(c.device@)
        + "\",\"method\":\""@ + esc(c.method@) + "\",\"public_key\":\""@ + esc(c.public_key@)
        + "\",\"status\":\""@ + esc(c.status@) + "\",\"timestamp\":\""@ + esc(c.timestamp@)
        + "\"}"@
}

/// Canonical encoding is order-independent: it is a function of the six
/// signed field values alone, so two logically identical records — however
/// their fields were assigned, and whatever their signature fields hold —
/// canonicalize to the same text.
pub proof fn lemma_canonical_order_independent(c1: WipeCertificate, c2: WipeCertificate)
    requires
        c1.certificate_id@ == c2.certificate_id@,
        c1.device@ == c2.device@,
        c1.method@ == c2.method@,
        c1.public_key@ == c2.public_key@,
        c1.status@ == c2.status@,
        c1.timestamp@ == c2.timestamp@,
    ensures
        canon_seq(c1) == canon_seq(c2),
{
}

/// Two concatenations with equally long first parts agree part by part.
proof fn lemma_split_eq(a1: Seq<char>, b1: Seq<char>, a2: Seq<char>, b2: Seq<char>)
    requires
        a1 + b1 == a2 + b2,
        a1.len() == a2.len(),
    ensures
        a1 == a2,
        b1 == b2,
{
    assert((a1 + b1).len() == a1.len() + b1.len());
    assert((a2 + b2).len() == a2.len() + b2.len());
    assert(b1.len() == b2.len());
    assert forall|i: int| 0 <= i < a1.len() implies a1[i] == a2[i] by {
        assert((a1 + b1)[i] == a1[i]);
        assert((a2 + b2)[i] == a2[i]);
    }
    assert(a1 =~= a2);
    assert forall|i: int| 0 <= i < b1.len() implies b1[i] == b2[i] by {
        assert((a1 + b1)[a1.len() + i] == b1[i]);
        assert((a2 + b2)[a2.len() + i] == b2[i]);
    }
    assert(b1 =~= b2);
}

/// The escaped form of a character never begins with the field terminator,
/// and begins with a backslash exactly for the two escaped characters.
proof fn lemma_esc_char_head(c: char)
    ensures
        1 <= esc_char(c).len() <= 2,
        esc_char(c)[0] != '"',
        (esc_char(c)[0] == '\\') <==> (c == '"' || c == '\\'),
{
}

/// An escaped field followed by its terminating quote parses uniquely: no
/// escaped text runs into the terminator, so equal streams mean equal fields
/// and equal tails.
proof fn lemma_esc_sep(s1: Seq<char>, t1: Seq<char>, s2: Seq<char>, t2: Seq<char>)
    requires
        esc(s1) + t1 == esc(s2) + t2,
        t1.len() > 0,
        t2.len() > 0,
        t1[0] == '"',
        t2[0] == '"',
    ensures
        s1 == s2,
        t1 == t2,
    decreases s1.len(),
{
    if s1.len() == 0 && s2.len() == 0 {
        assert(esc(s1) + t1 =~= t1);
        assert(esc(s2) + t2 =~= t2);
        assert(s1 =~= s2);
    } else if s1.len() == 0 {
        lemma_esc_char_head(s2[0]);
        assert(esc(s2) == esc_char(s2[0]) + esc(s2.skip(1)));
        assert((esc(s2) + t2)[0] == esc_char(s2[0])[0]);
        assert((esc(s1) + t1)[0] == t1[0]);
        assert(false);
    } else if s2.len() == 0 {
        lemma_esc_char_head(s1[0]);
        assert(esc(s1) == esc_char(s1[0]) + esc(s1.skip(1)));
        assert((esc(s1) + t1)[0] == esc_char(s1[0])[0]);
        assert((esc(s2) + t2)[0] == t2[0]);
        assert(false);
    } else {
        let c1 = s1[0];
        let c2 = s2[0];
        lemma_esc_char_head(c1);
        lemma_esc_char_head(c2);
        assert(esc(s1) == esc_char(c1) + esc(s1.skip(1)));
        assert(esc(s2) == esc_char(c2) + esc(s2.skip(1)));
        assert(esc(s1) + t1 =~= esc_char(c1) + (esc(s1.skip(1)) + t1));
        assert(esc(s2) + t2 =~= esc_char(c2) + (esc(s2.skip(1)) + t2));
        assert(esc_char(c1)[0] == esc_char(c2)[0]) by {
            assert((esc_char(c1) + (esc(s1.skip(1)) + t1))[0] == esc_char(c1)[0]);
            assert((esc_char(c2) + (esc(s2.skip(1)) + t2))[0] == esc_char(c2)[0]);
        }
        if c1 == '"' || c1 == '\\' {
            assert(c2 == '"' || c2 == '\\');
            assert(esc_char(c1)[1] == esc_char(c2)[1]) by {
                assert((esc_char(c1) + (esc(s1.skip(1)) + t1))[1] == esc_char(c1)[1]);
                assert((esc_char(c2) + (esc(s2.skip(1)) + t2))[1] == esc_char(c2)[1]);
            }
            assert(c1 == c2);
        } else {
            assert(esc_char(c1)[0] == c1);
            assert(!(c2 == '"' || c2 == '\\'));
            assert(c1 == c2);
        }
        lemma_split_eq(
            esc_char(c1),
            esc(s1.skip(1)) + t1,
            esc_char(c2),
            esc(s2.skip(1)) + t2,
        );
        lemma_esc_sep(s1.skip(1), t1, s2.skip(1), t2);
        assert forall|i: int| 0 <= i < s1.len() implies s1[i] == s2[i] by {
            if i > 0 {
                assert(s1.skip(1)[i - 1] == s1[i]);
                assert(s2.skip(1)[i - 1] == s2[i]);
            }
        }
        assert(s1 =~= s2);
    }
}

/// The canonical text from the timestamp field on.
spec fn seg_timestamp(c: WipeCertificate) -> Seq<char> {
    esc(c.timestamp@) + "\"}"@
}

/// The canonical text from the status field on.
spec fn seg_status(c: WipeCertificate) -> Seq<char> {
    esc(c.status@) + ("\",\"timestamp\":\""@ + seg_timestamp(c))
}

/// The canonical text from the public key field on.
spec fn seg_public_key(c: WipeCertificate) -> Seq<char> {
    esc(c.public_key@) + ("\",\"status\":\""@ + seg_status(c))
}

/// The canonical text from the method field on.
spec fn seg_method(c: WipeCertificate) -> Seq<char> {
    esc(c.method@) + ("\",\"public_key\":\""@ + seg_public_key(c))
}

/// The canonical text from the device field on.
spec fn seg_device(c: WipeCertificate) -> Seq<char> {
    esc(c.device@) + ("\",\"method\":\""@ + seg_method(c))
}

/// The canonical text from the identifier field on.
spec fn seg_certificate_id(c: WipeCertificate) -> Seq<char> {
    esc(c.certificate_id@) + ("\",\"device\":\""@ + seg_device(c))
}

/// The canonical text, grouped field by field.
#[verifier::rlimit(50)]
proof fn lemma_canon_seq_nested(c: WipeCertificate)
    ensures
        canon_seq(c) == "{\"certificate_id\":\""@ + seg_certificate_id(c),
{
    assert(canon_seq(c) =~= "{\"certificate_id\":\""@ + seg_certificate_id(c));
}

/// Canonical encoding is unambiguous: equal canonical texts can only come
/// from records that agree on every signed field. So any change to a signed
/// field after signing changes the text the signature is checked against.
#[verifier::rlimit(50)]
pub proof fn lemma_canonical_injective(c1: WipeCertificate, c2: WipeCertificate)
    requires
        canon_seq(c1) == canon_seq(c2),
    ensures
        c1.certificate_id@ == c2.certificate_id@,
        c1.device@ == c2.device@,
        c1.method@ == c2.method@,
        c1.public_key@ == c2.public_key@,
        c1.status@ == c2.status@,
        c1.timestamp@ == c2.timestamp@,
{
    reveal_strlit("{\"certificate_id\":\"");
    reveal_strlit("\",\"device\":\"");
    reveal_strlit("\",\"method\":\"");
    reveal_strlit("\",\"public_key\":\"");
    reveal_strlit("\",\"status\":\"");
    reveal_strlit("\",\"timestamp\":\"");
    reveal_strlit("\"}");
    lemma_canon_seq_nested(c1);
    lemma_canon_seq_nested(c2);
    lemma_split_eq(
        "{\"certificate_id\":\""@,
        seg_certificate_id(c1),
        "{\"certificate_id\":\""@,
        seg_certificate_id(c2),
    );
    lemma_esc_sep(
        c1.certificate_id@,
        "\",\"device\":\""@ + seg_device(c1),
        c2.certificate_id@,
        "\",\"device\":\""@ + seg_device(c2),
    );
    lemma_split_eq("\",\"device\":\""@, seg_device(c1), "\",\"device\":\""@, seg_device(c2));
    lemma_esc_sep(
        c1.device@,
        "\",\"method\":\""@ + seg_method(c1),
        c2.device@,
        "\",\"method\":\""@ + seg_method(c2),
    );
    lemma_split_eq("\",\"method\":\""@, seg_method(c1), "\",\"method\":\""@, seg_method(c2));
    lemma_esc_sep(
        c1.method@,
        "\",\"public_key\":\""@ + seg_public_key(c1),
        c2.method@,
        "\",\"public_key\":\""@ + seg_public_key(c2),
    );
    lemma_split_eq(
        "\",\"public_key\":\""@,
        seg_public_key(c1),
        "\",\"public_key\":\""@,
        seg_public_key(c2),
    );
    lemma_esc_sep(
        c1.public_key@,
        "\",\"status\":\""@ + seg_status(c1),
        c2.public_key@,
        "\",\"status\":\""@ + seg_status(c2),
    );
    lemma_split_eq("\",\"status\":\""@, seg_status(c1), "\",\"status\":\""@, seg_status(c2));
    lemma_esc_sep(
        c1.status@,
        "\",\"timestamp\":\""@ + seg_timestamp(c1),
        c2.status@,
        "\",\"timestamp\":\""@ + seg_timestamp(c2),
    );
    lemma_split_eq(
        "\",\"timestamp\":\""@,
        seg_timestamp(c1),
        "\",\"timestamp\":\""@,
        seg_timestamp(c2),
    );
    lemma_esc_sep(c1.timestamp@, "\"}"@, c2.timestamp@, "\"}"@);
}

/// Escaping distributes over appending one character.
proof fn lemma_esc_push(s: Seq<char>, c: char)
    ensures
        esc(s.push(c)) == esc(s) + esc_char(c),
    decreases s.len(),
{
    if s.len() == 0 {
        assert(s.push(c) =~= seq![c]);
        assert(seq![c].skip(1) =~= Seq::<char>::empty());
        assert(esc(Seq::<char>::empty()) == Seq::<char>::empty());
        assert(esc(seq![c]) == esc_char(c) + esc(seq![c].skip(1)));
        assert(esc(s.push(c)) =~= esc(s) + esc_char(c));
    } else {
        assert(s.push(c).skip(1) =~= s.skip(1).push(c));
        lemma_esc_push(s.skip(1), c);
        assert(s.push(c)[0] == s[0]);
        assert(esc(s.push(c)) == esc_char(s[0]) + esc(s.skip(1).push(c)));
        assert(esc(s.push(c)) =~= esc(s) + esc_char(c));
    }
}

/// Appends the escaped form of `s` to the canonical text under construction.
fn append_escaped(out: &mut String, s: &str)
    ensures
        final(out)@ == old(out)@ + esc(s@),
{
    let n = s.unicode_len();
    let mut i: usize = 0;
    while i < n
        invariant
            i <= n,
            n == s@.len(),
            out@ == old(out)@ + esc(s@.subrange(0, i as int)),
        decreases n - i,
    {
        let c = s.get_char(i);
        proof {
            assert(s@.subrange(0, i as int).push(s@[i as int]) =~= s@.subrange(0, i + 1));
            lemma_esc_push(s@.subrange(0, i as int), s@[i as int]);
        }
        if c == '"' {
            out.append("\\\"");
            proof {
                reveal_strlit("\\\"");
                assert(esc_char(c) =~= "\\\""@);
            }
        } else if c == '\\' {
            out.append("\\\\");
            proof {
                reveal_strlit("\\\\");
                assert(esc_char(c) =~= "\\\\"@);
            }
        } else {
            let piece = s.substring_char(i, i + 1);
            out.append(piece);
            proof {
                assert(esc_char(c) =~= s@.subrange(i as int, i + 1));
            }
        }
        proof {
            assert(out@ =~= old(out)@ + esc(s@.subrange(0, i + 1)));
        }
        i = i + 1;
    }
    proof {
        assert(s@.subrange(0, n as int) =~= s@);
    }
}

/// Builds the canonical text of a record: exactly `canon_seq`, the byte
/// sequence every verifier must reconstruct.
pub fn canonical_string(c: &WipeCertificate) -> (r: String)
    ensures
        r@ == canon_seq(*c),
{
    let mut out = String::from_str("{\"certificate_id\":\"");
    append_escaped(&mut out, c.certificate_id.as_str());
    out.append("\",\"device\":\"");
    append_escaped(&mut out, c.device.as_str());
    out.append("\",\"method\":\"");
    append_escaped(&mut out, c.method.as_str());
    out.append("\",\"public_key\":\"");
    append_escaped(&mut out, c.public_key.as_str());
    out.append("\",\"status\":\"");
    append_escaped(&mut out, c.status.as_str());
    out.append("\",\"timestamp\":\"");
    append_escaped(&mut out, c.timestamp.as_str());
    out.append("\"}");
    proof {
        assert(out@ =~= canon_seq(*c));
    }
    out
}

} // verus!
