//! Operations on text that the wire schema is built from.
use vstd::prelude::*;
use vstd::utf8::*;

verus! {

/// The characters of `s` as an indexable vector.
pub fn chars_of(s: &str) -> (r: Vec<char>)
    ensures
        r@ == s@,
{
    broadcast use vstd::string::group_string_axioms;

    let mut out: Vec<char> = Vec::new();
    for c in it: s.chars()
        invariant
            it.seq() == s@,
            out@ == it.seq().take(it.index()),
    {
        out.push(c);
    }
    assert(s@.take(s@.len() as int) == s@);
    out
}

/// Two texts with the same UTF-8 encoding are the same text.
pub proof fn lemma_encoding_is_injective(a: Seq<char>, b: Seq<char>)
    requires
        encode_utf8(a) == encode_utf8(b),
    ensures
        a == b,
{
    encode_utf8_decode_utf8(a);
    encode_utf8_decode_utf8(b);
}

/// Whether `a` and `b` hold the same text.
pub fn same_text(a: &str, b: &str) -> (r: bool)
    ensures
        r == (a@ == b@),
{
    let x = a.as_bytes();
    let y = b.as_bytes();
    if x.len() != y.len() {
        return false;
    }
    let mut i: usize = 0;
    while i < x.len()
        invariant
            i <= x.len(),
            x.len() == y.len(),
            x@ == encode_utf8(a@),
            y@ == encode_utf8(b@),
            x@.take(i as int) == y@.take(i as int),
        decreases x.len() - i,
    {
        if x[i] != y[i] {
            return false;
        }
        assert(x@.take(i + 1) == x@.take(i as int).push(x@[i as int]));
        assert(y@.take(i + 1) == y@.take(i as int).push(y@[i as int]));
        i += 1;
    }
    proof {
        assert(x@ == x@.take(i as int));
        assert(y@ == y@.take(i as int));
        lemma_encoding_is_injective(a@, b@);
    }
    true
}

/// Whether `list` holds the text `s`.
pub fn contains_text(list: &Vec<String>, s: &str) -> (r: bool)
    ensures
        r == list.deep_view().contains(s@),
{
    let mut i: usize = 0;
    while i < list.len()
        invariant
            i <= list.len(),
            forall|j: int| 0 <= j < i ==> list.deep_view()[j] != s@,
        decreases list.len() - i,
    {
        if same_text(list[i].as_str(), s) {
            assert(list.deep_view()[i as int] == s@);
            return true;
        }
        i += 1;
    }
    false
}

/// The texts of `list` that `excluded` does not hold, in their order.
pub open spec fn without(list: Seq<Seq<char>>, excluded: Seq<Seq<char>>) -> Seq<Seq<char>> {
    list.filter(|s: Seq<char>| !excluded.contains(s))
}

/// A text added at the end of a list stays exactly where it is not excluded.
pub proof fn lemma_without_push(list: Seq<Seq<char>>, s: Seq<char>, excluded: Seq<Seq<char>>)
    ensures
        without(list.push(s), excluded) == if excluded.contains(s) {
            without(list, excluded)
        } else {
            without(list, excluded).push(s)
        },
{
    reveal(Seq::filter);
    assert(list.push(s).drop_last() == list);
}

/// What is left of a list holds exactly the texts of the list that are not
/// excluded.
pub proof fn lemma_without_contains(list: Seq<Seq<char>>, excluded: Seq<Seq<char>>, s: Seq<char>)
    ensures
        without(list, excluded).contains(s) <==> list.contains(s) && !excluded.contains(s),
{
    let kept = |t: Seq<char>| !excluded.contains(t);
    if without(list, excluded).contains(s) {
        let i = choose|i: int|
            0 <= i < without(list, excluded).len() && without(list, excluded)[i] == s;
        list.lemma_filter_pred(kept, i);
        list.lemma_filter_contains_rev(kept, s);
    }
    if list.contains(s) && !excluded.contains(s) {
        let i = choose|i: int| 0 <= i < list.len() && list[i] == s;
        list.lemma_filter_contains(kept, i);
    }
}

/// What is left of a list without duplicates has no duplicates.
pub proof fn lemma_without_distinct(list: Seq<Seq<char>>, excluded: Seq<Seq<char>>)
    requires
        list.no_duplicates(),
    ensures
        without(list, excluded).no_duplicates(),
    decreases list.len(),
{
    if list.len() == 0 {
        reveal(Seq::filter);
    } else {
        let front = list.drop_last();
        let last = list.last();
        assert(list == front.push(last));
        lemma_without_distinct(front, excluded);
        lemma_without_push(front, last, excluded);
        lemma_without_contains(front, excluded, last);
        assert(!front.contains(last));
    }
}

/// The strings of `list` that `excluded` does not hold, in their order.
pub fn texts_without(list: &Vec<String>, excluded: &Vec<String>) -> (r: Vec<String>)
    ensures
        r.deep_view() == without(list.deep_view(), excluded.deep_view()),
{
    let mut out: Vec<String> = Vec::new();
    let mut i: usize = 0;
    proof {
        reveal(Seq::filter);
        assert(list.deep_view().take(0) =~= Seq::empty());
        assert(out.deep_view() =~= Seq::empty());
    }
    while i < list.len()
        invariant
            i <= list.len(),
            out.deep_view() == without(list.deep_view().take(i as int), excluded.deep_view()),
        decreases list.len() - i,
    {
        let ghost before = out.deep_view();
        proof {
            lemma_without_push(
                list.deep_view().take(i as int),
                list@[i as int]@,
                excluded.deep_view(),
            );
            assert(list.deep_view().take(i + 1) =~= list.deep_view().take(i as int).push(
                list@[i as int]@,
            ));
        }
        if !contains_text(excluded, list[i].as_str()) {
            out.push(list[i].clone());
            assert(out.deep_view() =~= before.push(list@[i as int]@));
        }
        i += 1;
    }
    assert(list.deep_view().take(i as int) == list.deep_view());
    out
}

/// A copy of `list` that owns its strings.
pub fn copy_texts(list: &[String]) -> (r: Vec<String>)
    ensures
        r@ == list@,
{
    let mut out: Vec<String> = Vec::new();
    let mut i: usize = 0;
    while i < list.len()
        invariant
            i <= list.len(),
            out@ == list@.take(i as int),
        decreases list.len() - i,
    {
        out.push(list[i].clone());
        assert(list@.take(i + 1) == list@.take(i as int).push(list@[i as int]));
        i += 1;
    }
    assert(list@.take(i as int) == list@);
    out
}

/// The UTF-8 encoding of `s`.
pub fn bytes_of(s: &str) -> (r: Vec<u8>)
    ensures
        r@ == encode_utf8(s@),
{
    s.as_bytes_vec()
}

/// The character that stands for the digit `d`.
pub open spec fn digit(d: nat) -> char {
    if d == 0 {
        '0'
    } else if d == 1 {
        '1'
    } else if d == 2 {
        '2'
    } else if d == 3 {
        '3'
    } else if d == 4 {
        '4'
    } else if d == 5 {
        '5'
    } else if d == 6 {
        '6'
    } else if d == 7 {
        '7'
    } else if d == 8 {
        '8'
    } else {
        '9'
    }
}

/// The decimal digits of `n`, without leading zeros.
pub open spec fn decimal(n: nat) -> Seq<char>
    decreases n,
{
    if n < 10 {
        seq![digit(n)]
    } else {
        decimal(n / 10).push(digit(n % 10))
    }
}

/// The decimal digits of `n`, after a minus sign where `n` is negative.
pub open spec fn signed_decimal(n: int) -> Seq<char> {
    if n < 0 {
        seq!['-'] + decimal((-n) as nat)
    } else {
        decimal(n as nat)
    }
}

/// The digit `d` as a text of one character.
fn digit_text(d: u32) -> (r: &'static str)
    requires
        d < 10,
    ensures
        r@ == seq![digit(d as nat)],
{
    proof {
        reveal_strlit("0");
        reveal_strlit("1");
        reveal_strlit("2");
        reveal_strlit("3");
        reveal_strlit("4");
        reveal_strlit("5");
        reveal_strlit("6");
        reveal_strlit("7");
        reveal_strlit("8");
        reveal_strlit("9");
    }
    let r = if d == 0 {
        "0"
    } else if d == 1 {
        "1"
    } else if d == 2 {
        "2"
    } else if d == 3 {
        "3"
    } else if d == 4 {
        "4"
    } else if d == 5 {
        "5"
    } else if d == 6 {
        "6"
    } else if d == 7 {
        "7"
    } else if d == 8 {
        "8"
    } else {
        "9"
    };
    assert(r@ =~= seq![digit(d as nat)]);
    r
}

/// `n` written in decimal.
pub fn decimal_text(n: u32) -> (r: String)
    ensures
        r@ == decimal(n as nat),
    decreases n,
{
    if n < 10 {
        String::from_str(digit_text(n))
    } else {
        let r = decimal_text(n / 10).concat(digit_text(n % 10));
        assert(r@ == decimal((n / 10) as nat).push(digit((n % 10) as nat)));
        r
    }
}

/// `n` written in decimal, with a minus sign where it is negative.
pub fn signed_decimal_text(n: i32) -> (r: String)
    ensures
        r@ == signed_decimal(n as int),
{
    if n < 0 {
        proof {
            reveal_strlit("-");
        }
        let magnitude: u32 = if n == i32::MIN {
            2147483648
        } else {
            (0 - n) as u32
        };
        let r = String::from_str("-").concat(decimal_text(magnitude).as_str());
        assert("-"@ == seq!['-']);
        r
    } else {
        decimal_text(n as u32)
    }
}

} // verus!
