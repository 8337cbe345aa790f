//! String helpers with exact contracts over the character views of strings.
use vstd::prelude::*;

verus! {

/// Character-wise equality of two string slices.
pub fn str_equals(a: &str, b: &str) -> (r: bool)
    ensures
        r == (a@ == b@),
{
    let n = a.unicode_len();
    let m = b.unicode_len();
    if n != m {
        return false;
    }
    let mut i: usize = 0;
    while i < n
        invariant
            n == a@.len(),
            m == b@.len(),
            n == m,
            i <= n,
            forall|j: int| 0 <= j < i ==> a@[j] == b@[j],
        decreases n - i,
    {
        if a.get_char(i) != b.get_char(i) {
            return false;
        }
        i = i + 1;
    }
    assert(a@ =~= b@);
    true
}

/// A copy of a string slice as an owned string.
pub fn to_owned_string(s: &str) -> (r: String)
    ensures
        r@ == s@,
{
    String::from_str(s)
}

/// A copy of an owned string.
pub fn copy_string(s: &String) -> (r: String)
    ensures
        r@ == s@,
{
    s.clone()
}

/// A copy of an optional owned string.
pub fn copy_opt_string(s: &Option<String>) -> (r: Option<String>)
    ensures
        opt_view(r) == opt_view(*s),
{
    match s {
        Some(v) => Some(v.clone()),
        None => None,
    }
}

/// The character view of an optional string.
pub open spec fn opt_view(s: Option<String>) -> Option<Seq<char>> {
    match s {
        Some(v) => Some(v@),
        None => None,
    }
}


/// The pieces of `s` between occurrences of `sep`, in order, as `str::split`
/// gives them: one piece more than there are separators, empty pieces
/// included.
pub open spec fn split_spec(s: Seq<char>, sep: char) -> Seq<Seq<char>>
    decreases s.len(),
{
    if s.len() == 0 {
        seq![Seq::<char>::empty()]
    } else {
        let parts = split_spec(s.drop_last(), sep);
        if s.last() == sep {
            parts.push(Seq::<char>::empty())
        } else {
            parts.update(parts.len() - 1, parts.last().push(s.last()))
        }
    }
}

/// `split_spec` never yields an empty list of pieces.
pub proof fn lemma_split_nonempty(s: Seq<char>, sep: char)
    ensures
        split_spec(s, sep).len() >= 1,
    decreases s.len(),
{
    if s.len() > 0 {
        lemma_split_nonempty(s.drop_last(), sep);
    }
}

/// A string without the separator is a single piece.
pub proof fn lemma_split_single(s: Seq<char>, sep: char)
    requires
        forall|i: int| 0 <= i < s.len() ==> s[i] != sep,
    ensures
        split_spec(s, sep) == seq![s],
    decreases s.len(),
{
    if s.len() == 0 {
        assert(s =~= Seq::<char>::empty());
    } else {
        lemma_split_single(s.drop_last(), sep);
        assert(s.drop_last().push(s.last()) =~= s);
        let parts = split_spec(s.drop_last(), sep);
        assert(parts.update(parts.len() - 1, parts.last().push(s.last())) =~= seq![s]);
    }
}

/// The views of a sequence of string slices.
pub open spec fn str_views(v: Seq<&str>) -> Seq<Seq<char>> {
    v.map_values(|x: &str| x@)
}

/// Splits `s` at every occurrence of `sep`.
pub fn split_on(s: &str, sep: char) -> (r: Vec<&str>)
    ensures
        str_views(r@) == split_spec(s@, sep),
{
    let n = s.unicode_len();
    let mut parts: Vec<&str> = Vec::new();
    let mut start: usize = 0;
    let mut i: usize = 0;
    assert(s@.take(0) =~= Seq::<char>::empty());
    assert(s@.subrange(0, 0) =~= Seq::<char>::empty());
    assert(str_views(parts@).push(s@.subrange(0, 0)) =~= seq![Seq::<char>::empty()]);
    while i < n
        invariant
            n == s@.len(),
            start <= i <= n,
            str_views(parts@).push(s@.subrange(start as int, i as int)) == split_spec(
                s@.take(i as int),
                sep,
            ),
        decreases n - i,
    {
        let c = s.get_char(i);
        let ghost prev = s@.take(i as int);
        assert(s@.take(i as int + 1).drop_last() =~= prev);
        assert(s@.take(i as int + 1).last() == c);
        if c == sep {
            let piece = s.substring_char(start, i);
            parts.push(piece);
            start = i + 1;
            assert(str_views(parts@) =~= str_views(parts@.drop_last()).push(piece@));
            assert(s@.subrange(start as int, i as int + 1) =~= Seq::<char>::empty());
        } else {
            assert(s@.subrange(start as int, i as int + 1) =~= s@.subrange(
                start as int,
                i as int,
            ).push(c));
        }
        i = i + 1;
        assert(str_views(parts@).push(s@.subrange(start as int, i as int)) =~= split_spec(
            s@.take(i as int),
            sep,
        ));
    }
    let last = s.substring_char(start, n);
    parts.push(last);
    assert(s@.take(n as int) =~= s@);
    assert(str_views(parts@) =~= str_views(parts@.drop_last()).push(last@));
    parts
}

/// The pieces joined with `sep` between consecutive ones.
pub open spec fn join_spec(parts: Seq<Seq<char>>, sep: char) -> Seq<char>
    decreases parts.len(),
{
    if parts.len() == 0 {
        Seq::empty()
    } else if parts.len() == 1 {
        parts[0]
    } else {
        join_spec(parts.drop_last(), sep).push(sep) + parts.last()
    }
}

/// Splitting a join of pieces that hold no separator gives the pieces back.
pub proof fn lemma_split_join(parts: Seq<Seq<char>>, sep: char)
    requires
        parts.len() >= 1,
        forall|i: int, j: int|
            0 <= i < parts.len() && 0 <= j < parts[i].len() ==> #[trigger] parts[i][j] != sep,
    ensures
        split_spec(join_spec(parts, sep), sep) == parts,
    decreases parts.len(),
{
    if parts.len() == 1 {
        lemma_split_single(parts[0], sep);
    } else {
        let init = parts.drop_last();
        lemma_split_join(init, sep);
        lemma_split_append(join_spec(init, sep), parts.last(), sep);
        assert(init.push(parts.last()) =~= parts);
    }
}

/// Appending a separator and a piece without separators adds that piece.
proof fn lemma_split_append(a: Seq<char>, b: Seq<char>, sep: char)
    requires
        forall|j: int| 0 <= j < b.len() ==> b[j] != sep,
    ensures
        split_spec(a.push(sep) + b, sep) == split_spec(a, sep).push(b),
    decreases b.len(),
{
    if b.len() == 0 {
        assert(a.push(sep) + b =~= a.push(sep));
        assert(a.push(sep).drop_last() =~= a);
        assert(b =~= Seq::<char>::empty());
    } else {
        let b0 = b.drop_last();
        lemma_split_append(a, b0, sep);
        let whole = a.push(sep) + b;
        assert(whole.drop_last() =~= a.push(sep) + b0);
        assert(whole.last() == b.last());
        assert(b0.push(b.last()) =~= b);
        let p = split_spec(a, sep).push(b0);
        assert(p.update(p.len() - 1, p.last().push(b.last())) =~= split_spec(a, sep).push(b));
    }
}

/// Joins the pieces with `sep` between consecutive ones.
pub fn join_with(parts: &Vec<String>, sep: &str) -> (r: String)
    requires
        sep@.len() == 1,
    ensures
        r@ == join_spec(parts@.map_values(|x: String| x@), sep@[0]),
{
    let ghost views = parts@.map_values(|x: String| x@);
    let mut out = String::new();
    let mut i: usize = 0;
    while i < parts.len()
        invariant
            sep@.len() == 1,
            views == parts@.map_values(|x: String| x@),
            i <= parts.len(),
            out@ == join_spec(views.take(i as int), sep@[0]),
        decreases parts.len() - i,
    {
        assert(views.take(i as int + 1).drop_last() =~= views.take(i as int));
        if i > 0 {
            out.append(sep);
            assert(sep@ =~= seq![sep@[0]]);
        }
        out.append(parts[i].as_str());
        i = i + 1;
        assert(out@ =~= join_spec(views.take(i as int), sep@[0]));
    }
    assert(views.take(parts.len() as int) =~= views);
    out
}

/// The decimal digit character of a value below ten.
pub open spec fn digit_char(d: int) -> char {
    (('0' as int) + d) as char
}

/// The decimal digits of a natural number, most significant first.
pub open spec fn decimal_nat(n: nat) -> Seq<char>
    decreases n,
{
    if n < 10 {
        seq![digit_char(n as int)]
    } else {
        decimal_nat(n / 10).push(digit_char((n % 10) as int))
    }
}

/// The decimal text of an integer, with a leading minus sign when negative.
pub open spec fn decimal_int(n: int) -> Seq<char> {
    if n < 0 {
        seq!['-'] + decimal_nat((-n) as nat)
    } else {
        decimal_nat(n as nat)
    }
}

fn digit_str(d: u64) -> (r: &'static str)
    requires
        d < 10,
    ensures
        r@ == seq![digit_char(d as int)],
{
    proof {
        reveal_strlit("0");
        reveal_strlit("1");
        reveal_strlit("2");
        reveal_strlit("3");
        reveal_strlit("4");
        reveal_strlit("5");
        reveal_strlit("6");
        reveal_strlit("7");
        reveal_strlit("8");
        reveal_strlit("9");
    }
    match d {
        0 => "0",
        1 => "1",
        2 => "2",
        3 => "3",
        4 => "4",
        5 => "5",
        6 => "6",
        7 => "7",
        8 => "8",
        _ => "9",
    }
}

fn append_decimal(out: &mut String, n: u64)
    ensures
        final(out)@ == old(out)@ + decimal_nat(n as nat),
    decreases n,
{
    if n >= 10 {
        append_decimal(out, n / 10);
    }
    let ghost before = out@;
    out.append(digit_str(n % 10));
    proof {
        if n >= 10 {
            assert(before + seq![digit_char((n % 10) as int)] =~= old(out)@ + decimal_nat(n as nat));
        } else {
            assert(before =~= old(out)@);
        }
    }
}

/// The decimal text of a 64-bit integer.
pub fn decimal_string(n: i64) -> (r: String)
    ensures
        r@ == decimal_int(n as int),
{
    let mut out = String::new();
    if n < 0 {
        out.append("-");
        proof {
            reveal_strlit("-");
        }
        let magnitude: u64 = (-(n as i128)) as u64;
        append_decimal(&mut out, magnitude);
    } else {
        append_decimal(&mut out, n as u64);
        assert(out@ =~= decimal_int(n as int));
    }
    out
}
} // verus!
