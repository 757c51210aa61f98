//! Text fields separated by `;`, and the lossy decoding of received bytes.

use vstd::prelude::*;
use vstd::string::*;
use vstd::utf8::*;

verus! {

/// The character that separates the fields of a payload.
pub const DELIMITER: char = ';';

/// The position of the first delimiter at or after `from`, or the length of
/// `s` where there is none.
pub open spec fn next_delim(s: Seq<char>, from: int) -> int
    decreases s.len() - from,
{
    if from < 0 || from >= s.len() {
        s.len() as int
    } else if s[from] == DELIMITER {
        from
    } else {
        next_delim(s, from + 1)
    }
}

/// Where field `k` of `s` starts; past the end of `s` where `s` has fewer
/// than `k` delimiters.
pub open spec fn field_start(s: Seq<char>, k: nat) -> int
    decreases k,
{
    if k == 0 {
        0
    } else {
        next_delim(s, field_start(s, (k - 1) as nat)) + 1
    }
}

/// Whether `s` split at its delimiters has a field `k`.
pub open spec fn has_field(s: Seq<char>, k: nat) -> bool {
    field_start(s, k) <= s.len()
}

/// Field `k` of `s` split at its delimiters.
pub open spec fn field(s: Seq<char>, k: nat) -> Seq<char> {
    s.subrange(field_start(s, k), next_delim(s, field_start(s, k)))
}

/// Whether `s` holds no delimiter.
pub open spec fn no_delim(s: Seq<char>) -> bool {
    forall|i: int| 0 <= i < s.len() ==> s[i] != DELIMITER
}

/// `a`, a delimiter, then `b`.
pub open spec fn joined(a: Seq<char>, b: Seq<char>) -> Seq<char> {
    a + seq![DELIMITER] + b
}

/// The first delimiter at or after `from` is at `to` when none comes
/// between them and `to` holds one or is the end.
pub proof fn lemma_next_delim(s: Seq<char>, from: int, to: int)
    requires
        0 <= from <= to <= s.len(),
        forall|i: int| from <= i < to ==> s[i] != DELIMITER,
        to == s.len() || s[to] == DELIMITER,
    ensures
        next_delim(s, from) == to,
    decreases to - from,
{
    if from < to {
        lemma_next_delim(s, from + 1, to);
    }
}

/// The search for a delimiter ends within `s`, on a delimiter or at the
/// end, and passes none on its way.
pub proof fn lemma_next_delim_bounds(s: Seq<char>, from: int)
    requires
        0 <= from,
    ensures
        next_delim(s, from) <= s.len(),
        from <= s.len() ==> from <= next_delim(s, from),
        next_delim(s, from) < s.len() ==> s[next_delim(s, from)] == DELIMITER,
        forall|i: int| from <= i < next_delim(s, from) ==> s[i] != DELIMITER,
    decreases s.len() - from,
{
    if from < s.len() && s[from] != DELIMITER {
        lemma_next_delim_bounds(s, from + 1);
    }
}

proof fn lemma_next_delim_shift(a: Seq<char>, b: Seq<char>, st: int)
    requires
        0 <= st <= b.len() + 1,
    ensures
        next_delim(joined(a, b), a.len() + 1 + st) == a.len() + 1 + next_delim(b, st),
{
    let s = joined(a, b);
    if st <= b.len() {
        lemma_next_delim_bounds(b, st);
        assert forall|i: int| a.len() + 1 + st <= i < a.len() + 1 + next_delim(b, st) implies s[i]
            != DELIMITER by {
            assert(s[i] == b[i - a.len() - 1]);
        }
        if next_delim(b, st) < b.len() {
            assert(s[a.len() + 1 + next_delim(b, st)] == b[next_delim(b, st)]);
        }
        lemma_next_delim(s, a.len() + 1 + st, a.len() + 1 + next_delim(b, st));
    }
}

proof fn lemma_field_start_joined(a: Seq<char>, b: Seq<char>, k: nat)
    requires
        no_delim(a),
    ensures
        0 <= field_start(b, k) <= b.len() + 1,
        field_start(joined(a, b), k + 1) == a.len() + 1 + field_start(b, k),
    decreases k,
{
    let s = joined(a, b);
    lemma_joined_first(a, b);
    if k == 0 {
        assert(field_start(s, 0) == 0);
        assert(field_start(s, 1) == next_delim(s, 0) + 1);
    } else {
        lemma_field_start_joined(a, b, (k - 1) as nat);
        let st = field_start(b, (k - 1) as nat);
        lemma_next_delim_shift(a, b, st);
        lemma_next_delim_bounds(b, st);
        assert(field_start(s, k) == a.len() + 1 + st);
        assert(field_start(s, k + 1) == next_delim(s, field_start(s, k)) + 1);
        assert(field_start(b, k) == next_delim(b, st) + 1);
    }
}

proof fn lemma_joined_first(a: Seq<char>, b: Seq<char>)
    requires
        no_delim(a),
    ensures
        next_delim(joined(a, b), 0) == a.len(),
{
    let s = joined(a, b);
    assert forall|i: int| 0 <= i < a.len() implies s[i] != DELIMITER by {
        assert(s[i] == a[i]);
    }
    assert(s[a.len() as int] == DELIMITER);
    lemma_next_delim(s, 0, a.len() as int);
}

/// The fields of `a` joined to `b` are `a`, then those of `b`.
pub proof fn lemma_fields_of_joined(a: Seq<char>, b: Seq<char>, k: nat)
    requires
        no_delim(a),
    ensures
        has_field(joined(a, b), 0),
        field(joined(a, b), 0) == a,
        has_field(joined(a, b), k + 1) == has_field(b, k),
        has_field(b, k) ==> field(joined(a, b), k + 1) == field(b, k),
{
    let s = joined(a, b);
    lemma_joined_first(a, b);
    assert(field(s, 0) =~= a);
    lemma_field_start_joined(a, b, k);
    let st = field_start(b, k);
    if st <= b.len() {
        lemma_next_delim_shift(a, b, st);
        lemma_next_delim_bounds(b, st);
        assert(field(s, k + 1) =~= field(b, k));
    }
}

/// A text without delimiter is its own first and only field.
pub proof fn lemma_single_field(s: Seq<char>)
    requires
        no_delim(s),
    ensures
        has_field(s, 0),
        field(s, 0) == s,
        !has_field(s, 1),
{
    lemma_next_delim(s, 0, s.len() as int);
    assert(field(s, 0) =~= s);
}

/// Encoding a concatenation encodes each part in turn.
pub proof fn lemma_encode_concat(a: Seq<char>, b: Seq<char>)
    ensures
        encode_utf8(a + b) == encode_utf8(a) + encode_utf8(b),
    decreases a.len(),
{
    if a.len() == 0 {
        assert(a + b =~= b);
        assert(encode_utf8(a) =~= Seq::<u8>::empty());
        assert(encode_utf8(a) + encode_utf8(b) =~= encode_utf8(b));
    } else {
        assert((a + b).drop_first() =~= a.drop_first() + b);
        assert((a + b)[0] == a[0]);
        lemma_encode_concat(a.drop_first(), b);
        assert(encode_utf8(a + b) =~= encode_utf8(a) + encode_utf8(b));
    }
}

/// The delimiter is one byte on the wire.
pub proof fn lemma_encode_delimiter()
    ensures
        encode_utf8(seq![DELIMITER]) == seq![0x3Bu8],
{
    let d = seq![DELIMITER];
    assert(d.drop_first() =~= Seq::<char>::empty());
    assert(DELIMITER as u32 == 0x3B);
    assert(0x3Bu32 & 0x7F == 0x3B) by (bit_vector);
    assert(has_width_1_encoding(d[0] as u32));
    assert(leading_byte_width_1(d[0] as u32) == 0x3Bu8);
    assert(encode_scalar(d[0] as u32) =~= seq![0x3Bu8]);
    assert(encode_utf8(d.drop_first()) =~= Seq::<u8>::empty());
    assert(encode_utf8(d) == encode_scalar(d[0] as u32) + encode_utf8(d.drop_first()));
    assert(encode_utf8(d) =~= seq![0x3Bu8]);
}

/// The UTF-8 length of two texts joined by a delimiter.
pub proof fn lemma_joined_len(a: Seq<char>, b: Seq<char>)
    ensures
        encode_utf8(joined(a, b)).len() == encode_utf8(a).len() + 1 + encode_utf8(b).len(),
{
    lemma_encode_concat(a + seq![DELIMITER], b);
    lemma_encode_concat(a, seq![DELIMITER]);
    lemma_encode_delimiter();
}

/// A nonempty text has a nonempty encoding.
pub proof fn lemma_encode_nonempty(s: Seq<char>)
    requires
        s.len() > 0,
    ensures
        encode_utf8(s).len() > 0,
{
    assert(encode_utf8(s) == encode_scalar(s[0] as u32) + encode_utf8(s.drop_first()));
}

/// Text sent as UTF-8 is received as the same text.
pub proof fn lemma_received_encoded(s: Seq<char>)
    ensures
        received_text(encode_utf8(s)) == s,
{
    encode_utf8_valid_utf8(s);
    encode_utf8_decode_utf8(s);
}

/// The characters of `s`, in order.
pub fn chars_of(s: &str) -> (r: Vec<char>)
    ensures
        r@ == s@,
{
    broadcast use axiom_spec_iter;

    let mut v: Vec<char> = Vec::new();
    for c in it: s.chars()
        invariant
            it.seq() == s@,
            v@ == it.seq().subrange(0, it.index() as int),
    {
        v.push(c);
        assert(v@ =~= it.seq().subrange(0, it.index() + 1));
    }
    assert(v@ =~= s@);
    v
}

/// The position of the first delimiter at or after `from`, or the length
/// where there is none.
pub fn find_delimiter(chars: &Vec<char>, from: usize) -> (r: usize)
    requires
        from <= chars@.len(),
    ensures
        r == next_delim(chars@, from as int),
        from <= r <= chars@.len(),
{
    let mut i = from;
    while i < chars.len()
        invariant
            from <= i <= chars@.len(),
            next_delim(chars@, i as int) == next_delim(chars@, from as int),
        decreases chars@.len() - i,
    {
        if chars[i] == DELIMITER {
            return i;
        }
        i = i + 1;
    }
    i
}

/// The field of `s` that starts at `start`, and where it ends.
pub fn next_field(s: &str, chars: &Vec<char>, start: usize) -> (r: (String, usize))
    requires
        chars@ == s@,
        start <= s@.len(),
    ensures
        r.1 == next_delim(s@, start as int),
        start <= r.1 <= s@.len(),
        r.0@ == s@.subrange(start as int, r.1 as int),
{
    let end = find_delimiter(chars, start);
    let piece = s.substring_char(start, end);
    (piece.to_owned(), end)
}

/// `a` and `b` with a delimiter between them.
pub fn join_fields(a: &str, b: &str) -> (r: String)
    ensures
        r@ == joined(a@, b@),
{
    let mut r = String::from_str(a);
    let sep = ";";
    proof {
        reveal_strlit(";");
    }
    r.append(sep);
    r.append(b);
    r
}

/// What `String::from_utf8_lossy` makes of `b`.
pub uninterp spec fn lossy_utf8(b: Seq<u8>) -> Seq<char>;

/// The text that received bytes stand for: the characters they encode where
/// they are valid UTF-8, their lossy decoding otherwise.
pub open spec fn received_text(b: Seq<u8>) -> Seq<char> {
    if valid_utf8(b) {
        decode_utf8(b)
    } else {
        lossy_utf8(b)
    }
}

/// Relies on `String::from_utf8_lossy`: valid UTF-8 decodes to the characters
/// it encodes; other bytes decode to a text fixed by the bytes alone, with
/// replacement characters for the invalid sequences.
#[verifier::external_body]
pub(crate) fn decode_lossy(bytes: &[u8]) -> (r: String)
    ensures
        valid_utf8(bytes@) ==> r@ == decode_utf8(bytes@),
        !valid_utf8(bytes@) ==> r@ == lossy_utf8(bytes@),
{
    String::from_utf8_lossy(bytes).into_owned()
}

} // verus!
