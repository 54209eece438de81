use vstd::prelude::*;
use vstd::string::*;
use vstd::utf8::*;

verus! {

/// A character with its ASCII capital letter, if it is one, turned into the small one.
pub open spec fn lower_char(c: char) -> char {
    if 'A' <= c && c <= 'Z' {
        ((c as u8) + 32) as char
    } else {
        c
    }
}

/// A text with every ASCII capital letter turned into the small one.
pub open spec fn lower(s: Seq<char>) -> Seq<char> {
    Seq::new(s.len(), |i: int| lower_char(s[i]))
}

/// The octets of a text of ASCII characters, one for each character.
pub open spec fn octets(s: Seq<char>) -> Seq<u8> {
    Seq::new(s.len(), |i: int| s[i] as u8)
}

/// The text that a run of ASCII octets spells, one character for each octet.
pub open spec fn spelled(b: Seq<u8>) -> Seq<char> {
    Seq::new(b.len(), |i: int| b[i] as char)
}

/// Whether `pat` stands somewhere in `hay` as a contiguous run.
pub open spec fn occurs<T>(pat: Seq<T>, hay: Seq<T>) -> bool {
    exists|i: int| occurs_at(pat, hay, i)
}

/// Whether `pat` stands in `hay` at index `i`.
pub open spec fn occurs_at<T>(pat: Seq<T>, hay: Seq<T>, i: int) -> bool {
    &&& 0 <= i
    &&& i + pat.len() <= hay.len()
    &&& hay.subrange(i, i + pat.len()) == pat
}

/// The character of a decimal digit.
pub open spec fn digit(d: nat) -> char
    recommends
        d < 10,
{
    ((48 + d) as u8) as char
}

/// A number written in decimal digits, without leading zeros.
pub open spec fn decimal(n: nat) -> Seq<char>
    decreases n,
{
    if n < 10 {
        seq![digit(n)]
    } else {
        decimal(n / 10).push(digit(n % 10))
    }
}

/// Octets of an ASCII text are its characters, one for one.
pub proof fn lemma_ascii_octets(s: &str)
    requires
        s.is_ascii(),
    ensures
        s.spec_bytes() == octets(s@),
{
    is_ascii_chars_encode_utf8(s@);
}

/// Two ASCII texts with the same octets are the same text.
pub proof fn lemma_octets_injective(a: Seq<char>, b: Seq<char>)
    requires
        is_ascii_chars(a),
        is_ascii_chars(b),
        octets(a) == octets(b),
    ensures
        a == b,
{
    assert(b.len() == octets(b).len());
    assert forall|i: int| 0 <= i < a.len() implies a[i] == b[i] by {
        assert(octets(b)[i] == b[i] as u8);
    }
}

/// A run of octets stands in the octets of an ASCII text exactly where its text
/// stands in that text.
pub proof fn lemma_occurs_octets(pat: Seq<char>, hay: Seq<char>)
    requires
        is_ascii_chars(pat),
        is_ascii_chars(hay),
    ensures
        occurs(octets(pat), octets(hay)) == occurs(pat, hay),
{
    if occurs(pat, hay) {
        let i = choose|i: int| occurs_at(pat, hay, i);
        assert(octets(hay).subrange(i, i + octets(pat).len()) =~= octets(
            hay.subrange(i, i + pat.len()),
        ));
        assert(occurs_at(octets(pat), octets(hay), i));
    }
    if occurs(octets(pat), octets(hay)) {
        let i = choose|i: int| occurs_at(octets(pat), octets(hay), i);
        let part = hay.subrange(i, i + pat.len());
        assert(octets(part) =~= octets(hay).subrange(i, i + octets(pat).len()));
        assert(is_ascii_chars(part));
        lemma_octets_injective(part, pat);
        assert(occurs_at(pat, hay, i));
    }
}

/// Whether two runs of octets are the same.
pub fn same_octets(a: &[u8], b: &[u8]) -> (r: bool)
    ensures
        r == (a@ == b@),
{
    if a.len() != b.len() {
        return false;
    }
    let mut i: usize = 0;
    while i < a.len()
        invariant
            i <= a.len(),
            a.len() == b.len(),
            forall|j: int| 0 <= j < i ==> a@[j] == b@[j],
        decreases a.len() - i,
    {
        if a[i] != b[i] {
            return false;
        }
        i += 1;
    }
    assert(a@ =~= b@);
    true
}

/// Whether `pat` stands in `hay` at index `at`.
fn stands_at(pat: &[u8], hay: &[u8], at: usize) -> (r: bool)
    requires
        at + pat.len() <= hay.len(),
    ensures
        r == occurs_at(pat@, hay@, at as int),
{
    let mut j: usize = 0;
    while j < pat.len()
        invariant
            j <= pat.len(),
            at + pat.len() <= hay.len(),
            forall|k: int| 0 <= k < j ==> hay@[at + k] == pat@[k],
        decreases pat.len() - j,
    {
        if hay[at + j] != pat[j] {
            return false;
        }
        j += 1;
    }
    assert(hay@.subrange(at as int, at + pat@.len()) =~= pat@);
    true
}

/// Whether `pat` stands somewhere in `hay` as a contiguous run.
pub fn find_octets(hay: &[u8], pat: &[u8]) -> (r: bool)
    ensures
        r == occurs(pat@, hay@),
{
    if pat.len() > hay.len() {
        return false;
    }
    let last: usize = hay.len() - pat.len();
    let mut i: usize = 0;
    while i <= last
        invariant
            i <= last + 1,
            last == hay.len() - pat.len(),
            pat.len() <= hay.len(),
            forall|k: int| 0 <= k < i ==> !occurs_at(pat@, hay@, k),
        decreases last + 1 - i,
    {
        if stands_at(pat, hay, i) {
            return true;
        }
        if i == last {
            return false;
        }
        i += 1;
    }
    false
}

/// Whether two texts are the same.
pub fn same_text(a: &str, b: &str) -> (r: bool)
    ensures
        r == (a@ == b@),
{
    let r = same_octets(a.as_bytes(), b.as_bytes());
    proof {
        encode_utf8_decode_utf8(a@);
        encode_utf8_decode_utf8(b@);
    }
    r
}

/// Whether the UTF-8 octets of `pat` stand somewhere in those of `hay`. For two
/// ASCII texts that is whether `pat` stands somewhere in `hay`.
pub fn contains_text(hay: &str, pat: &str) -> (r: bool)
    ensures
        r == occurs(encode_utf8(pat@), encode_utf8(hay@)),
        hay.is_ascii() && pat.is_ascii() ==> r == occurs(pat@, hay@),
{
    proof {
        if hay.is_ascii() && pat.is_ascii() {
            lemma_ascii_octets(hay);
            lemma_ascii_octets(pat);
            lemma_occurs_octets(pat@, hay@);
        }
    }
    find_octets(hay.as_bytes(), pat.as_bytes())
}

/// Whether the run of octets `a` comes before `b` in the order of a dictionary: at
/// the first place where they differ `a` holds the smaller octet, or `a` ends there
/// and `b` goes on.
pub open spec fn before(a: Seq<u8>, b: Seq<u8>) -> bool
    decreases a.len(),
{
    if b.len() == 0 {
        false
    } else if a.len() == 0 {
        true
    } else if a[0] != b[0] {
        a[0] < b[0]
    } else {
        before(a.drop_first(), b.drop_first())
    }
}

/// Whether the text `a` comes before `b` in the order that `String` has: that of
/// their UTF-8 octets.
pub open spec fn precedes(a: Seq<char>, b: Seq<char>) -> bool {
    before(encode_utf8(a), encode_utf8(b))
}

/// No run of octets comes before itself.
pub proof fn lemma_before_irreflexive(a: Seq<u8>)
    ensures
        !before(a, a),
    decreases a.len(),
{
    if a.len() > 0 {
        lemma_before_irreflexive(a.drop_first());
    }
}

/// What comes before something that comes before a third comes before the third.
pub proof fn lemma_before_transitive(a: Seq<u8>, b: Seq<u8>, c: Seq<u8>)
    requires
        before(a, b),
        before(b, c),
    ensures
        before(a, c),
    decreases a.len(),
{
    if a.len() > 0 && a[0] == b[0] && b[0] == c[0] {
        lemma_before_transitive(a.drop_first(), b.drop_first(), c.drop_first());
    }
}

/// Of two runs of octets at most one comes before the other.
pub proof fn lemma_before_asymmetric(a: Seq<u8>, b: Seq<u8>)
    requires
        before(a, b),
    ensures
        !before(b, a),
{
    if before(b, a) {
        lemma_before_transitive(a, b, a);
        lemma_before_irreflexive(a);
    }
}

/// Two texts with the same UTF-8 octets are the same text.
pub proof fn lemma_encoding_injective(a: Seq<char>, b: Seq<char>)
    requires
        encode_utf8(a) == encode_utf8(b),
    ensures
        a == b,
{
    encode_utf8_decode_utf8(a);
    encode_utf8_decode_utf8(b);
}

/// Where one run of octets stands with regard to another.
#[derive(Clone, Copy, Debug, PartialEq, Eq, Structural)]
pub enum Place {
    Before,
    Same,
    After,
}

/// Where the text `a` stands with regard to `b` in the order that `String` has.
pub fn place(a: &str, b: &str) -> (r: Place)
    ensures
        r == Place::Before <==> precedes(a@, b@),
        r == Place::Same <==> a@ == b@,
        r == Place::After <==> precedes(b@, a@),
{
    let x = a.as_bytes();
    let y = b.as_bytes();
    let mut i: usize = 0;
    assert(x@.skip(0) =~= x@ && y@.skip(0) =~= y@);
    while i < x.len() && i < y.len()
        invariant
            i <= x.len(),
            i <= y.len(),
            x@ == encode_utf8(a@),
            y@ == encode_utf8(b@),
            x@.subrange(0, i as int) == y@.subrange(0, i as int),
            before(x@, y@) == before(x@.skip(i as int), y@.skip(i as int)),
            before(y@, x@) == before(y@.skip(i as int), x@.skip(i as int)),
        decreases x.len() - i,
    {
        if x[i] != y[i] {
            return if x[i] < y[i] {
                Place::Before
            } else {
                Place::After
            };
        }
        proof {
            assert(x@.skip(i as int).drop_first() =~= x@.skip(i as int + 1));
            assert(y@.skip(i as int).drop_first() =~= y@.skip(i as int + 1));
        }
        i += 1;
    }
    proof {
        if x.len() == y.len() {
            lemma_encoding_injective(a@, b@);
            lemma_before_irreflexive(x@);
        }
    }
    if x.len() == y.len() {
        Place::Same
    } else if x.len() < y.len() {
        Place::Before
    } else {
        Place::After
    }
}

/// The text of one decimal digit.
fn digit_text(d: u16) -> (r: &'static str)
    requires
        d < 10,
    ensures
        r@ == seq![digit(d as nat)],
{
    proof {
        reveal_strlit("0");
        reveal_strlit("1");
        reveal_strlit("2");
        reveal_strlit("3");
        reveal_strlit("4");
        reveal_strlit("5");
        reveal_strlit("6");
        reveal_strlit("7");
        reveal_strlit("8");
        reveal_strlit("9");
    }
    let r = match d {
        0 => "0",
        1 => "1",
        2 => "2",
        3 => "3",
        4 => "4",
        5 => "5",
        6 => "6",
        7 => "7",
        8 => "8",
        _ => "9",
    };
    r
}

/// A number written in decimal digits.
pub fn decimal_text(n: u16) -> (r: String)
    ensures
        r@ == decimal(n as nat),
    decreases n,
{
    if n < 10 {
        digit_text(n).to_owned()
    } else {
        let mut r = decimal_text(n / 10);
        r.append(digit_text(n % 10));
        r
    }
}

} // verus!
