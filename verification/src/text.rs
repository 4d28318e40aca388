use vstd::prelude::*;
use vstd::string::*;

verus! {

/// `s` ends with `suffix`.
pub open spec fn ends_with(s: Seq<char>, suffix: Seq<char>) -> bool {
    suffix.len() <= s.len() && s.subrange(s.len() - suffix.len(), s.len() as int) == suffix
}

/// The views of a sequence of strings.
pub open spec fn views(v: Seq<String>) -> Seq<Seq<char>> {
    v.map_values(|s: String| s@)
}

/// The pieces of `list` joined, with `sep` between each two of them.
pub open spec fn joined_with(list: Seq<Seq<char>>, sep: Seq<char>) -> Seq<char>
    decreases list.len(),
{
    if list.len() == 0 {
        Seq::empty()
    } else if list.len() == 1 {
        list[0]
    } else {
        joined_with(list.drop_last(), sep) + sep + list.last()
    }
}

/// Joining no pieces gives the empty text and joining one piece gives that
/// piece; joining one piece more to a nonempty list gives the joined list,
/// the separator and the new piece. These three equations fix the joined
/// text of every list.
pub proof fn lemma_joined_with_pieces(list: Seq<Seq<char>>, sep: Seq<char>, piece: Seq<char>)
    ensures
        joined_with(Seq::empty(), sep) == Seq::<char>::empty(),
        joined_with(seq![piece], sep) == piece,
        list.len() > 0 ==> joined_with(list.push(piece), sep) == joined_with(list, sep) + sep
            + piece,
{
    let longer = list.push(piece);
    assert(longer.drop_last() =~= list);
    assert(longer.last() == piece);
}

/// The total length of the pieces of `list`.
pub open spec fn pieces_len(list: Seq<Seq<char>>) -> nat
    decreases list.len(),
{
    if list.len() == 0 {
        0
    } else {
        pieces_len(list.drop_last()) + list.last().len()
    }
}

/// The joined text of a nonempty list holds every piece and one separator
/// between each two pieces, and nothing else: its length is the total length
/// of the pieces plus one separator less than there are pieces.
pub proof fn lemma_joined_with_len(list: Seq<Seq<char>>, sep: Seq<char>)
    requires
        list.len() > 0,
    ensures
        joined_with(list, sep).len() == pieces_len(list) + (list.len() - 1) * sep.len(),
    decreases list.len(),
{
    let n = list.len() as int;
    let m = sep.len() as int;
    if n > 1 {
        lemma_joined_with_len(list.drop_last(), sep);
        assert((n - 1) * m == (n - 2) * m + m) by (nonlinear_arith);
    } else {
        assert(pieces_len(list.drop_last()) == 0);
        assert(list.last() == list[0]);
    }
}

/// The character of a decimal digit.
pub open spec fn digit_char(d: nat) -> char {
    if d == 0 { '0' }
    else if d == 1 { '1' }
    else if d == 2 { '2' }
    else if d == 3 { '3' }
    else if d == 4 { '4' }
    else if d == 5 { '5' }
    else if d == 6 { '6' }
    else if d == 7 { '7' }
    else if d == 8 { '8' }
    else { '9' }
}

/// The decimal digits of `n`, most significant first, without leading zeros.
pub open spec fn digits(n: nat) -> Seq<char>
    decreases n,
{
    if n < 10 {
        seq![digit_char(n)]
    } else {
        digits(n / 10) + seq![digit_char(n % 10)]
    }
}

/// The decimal text of `n`, with a leading `-` when it is negative.
pub open spec fn decimal(n: int) -> Seq<char> {
    if n < 0 {
        seq!['-'] + digits((-n) as nat)
    } else {
        digits(n as nat)
    }
}

/// Whether `s` ends with `suffix`.
pub fn str_ends_with(s: &str, suffix: &str) -> (r: bool)
    ensures
        r == ends_with(s@, suffix@),
{
    let n: usize = s.unicode_len();
    let m: usize = suffix.unicode_len();
    if m > n {
        return false;
    }
    let tail = String::from_str(s.substring_char(n - m, n));
    let wanted = String::from_str(suffix);
    tail == wanted
}

/// The first `len` characters of `s`.
pub fn prefix_chars(s: &str, len: usize) -> (r: String)
    requires
        len <= s@.len(),
    ensures
        r@ == s@.subrange(0, len as int),
{
    String::from_str(s.substring_char(0, len))
}

/// The strings of `list` joined, with `sep` between each two of them.
pub fn join_with(list: &Vec<String>, sep: &str) -> (r: String)
    ensures
        r@ == joined_with(views(list@), sep@),
{
    let mut r = String::new();
    let ghost pieces = views(list@);
    let mut i: usize = 0;
    while i < list.len()
        invariant
            i <= list.len(),
            pieces == views(list@),
            pieces.len() == list@.len(),
            r@ == joined_with(pieces.take(i as int), sep@),
        decreases list.len() - i,
    {
        assert(pieces.take(i + 1).drop_last() == pieces.take(i as int));
        assert(pieces.take(i + 1).last() == list@[i as int]@);
        if i != 0 {
            r.append(sep);
        } else {
            assert(pieces.take(0) =~= Seq::<Seq<char>>::empty());
            assert(pieces.take(1) =~= seq![list@[0]@]);
        }
        r.append(list[i].as_str());
        i = i + 1;
    }
    assert(pieces.take(list.len() as int) =~= pieces);
    r
}

/// The text of one decimal digit.
fn digit_text(d: u64) -> (r: &'static str)
    requires
        d < 10,
    ensures
        r@ == seq![digit_char(d as nat)],
{
    proof {
        reveal_strlit("0");
        reveal_strlit("1");
        reveal_strlit("2");
        reveal_strlit("3");
        reveal_strlit("4");
        reveal_strlit("5");
        reveal_strlit("6");
        reveal_strlit("7");
        reveal_strlit("8");
        reveal_strlit("9");
    }
    if d == 0 {
        "0"
    } else if d == 1 {
        "1"
    } else if d == 2 {
        "2"
    } else if d == 3 {
        "3"
    } else if d == 4 {
        "4"
    } else if d == 5 {
        "5"
    } else if d == 6 {
        "6"
    } else if d == 7 {
        "7"
    } else if d == 8 {
        "8"
    } else {
        "9"
    }
}

/// Appends the decimal digits of `n` to `out`.
fn push_digits(out: &mut String, n: u64)
    ensures
        final(out)@ == old(out)@ + digits(n as nat),
    decreases n,
{
    if n >= 10 {
        push_digits(out, n / 10);
    }
    out.append(digit_text(n % 10));
    proof {
        assert(final(out)@ =~= old(out)@ + digits(n as nat));
    }
}

/// The decimal text of `n`, as `i32`'s `Display` writes it.
pub fn decimal_text(n: i32) -> (r: String)
    ensures
        r@ == decimal(n as int),
{
    let mut out = String::new();
    if n < 0 {
        proof {
            reveal_strlit("-");
        }
        out.append("-");
        let magnitude: i64 = -(n as i64);
        push_digits(&mut out, magnitude as u64);
    } else {
        push_digits(&mut out, n as u64);
    }
    out
}

} // verus!
