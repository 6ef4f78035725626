//! Small string routines: comparison, decimal rendering, splitting on a
//! separator and trimming leading slashes.
use vstd::prelude::*;

verus! {

/// The characters of the decimal digits, in order of their value.
pub open spec fn decimal_digits() -> Seq<char> {
    seq!['0', '1', '2', '3', '4', '5', '6', '7', '8', '9']
}

/// The decimal rendering of a natural number, most significant digit first,
/// without leading zeros (zero renders as `0`).
pub open spec fn nat_decimal(n: nat) -> Seq<char>
    decreases n,
{
    if n < 10 {
        seq![decimal_digits()[n as int]]
    } else {
        nat_decimal(n / 10).push(decimal_digits()[(n % 10) as int])
    }
}

/// The decimal rendering of an integer: a `-` in front of negative values.
pub open spec fn int_decimal(i: int) -> Seq<char> {
    if i < 0 {
        seq!['-'] + nat_decimal((-i) as nat)
    } else {
        nat_decimal(i as nat)
    }
}

/// The pieces of `s` between occurrences of `sep`, left to right. A string
/// without `sep` is one piece; an empty string is one empty piece.
pub open spec fn split_on(s: Seq<char>, sep: char) -> Seq<Seq<char>>
    decreases s.len(),
{
    if s.len() == 0 {
        seq![Seq::<char>::empty()]
    } else {
        let init = split_on(s.drop_last(), sep);
        if s.last() == sep {
            init.push(Seq::<char>::empty())
        } else {
            init.update(init.len() - 1, init.last().push(s.last()))
        }
    }
}

/// The pieces joined back together, with `sep` between each two.
pub open spec fn join_with(pieces: Seq<Seq<char>>, sep: char) -> Seq<char>
    decreases pieces.len(),
{
    if pieces.len() <= 1 {
        if pieces.len() == 1 {
            pieces[0]
        } else {
            Seq::<char>::empty()
        }
    } else {
        join_with(pieces.drop_last(), sep) + seq![sep] + pieces.last()
    }
}

/// `s` with every leading `/` removed.
pub open spec fn trim_leading_slashes(s: Seq<char>) -> Seq<char>
    decreases s.len(),
{
    if s.len() > 0 && s[0] == '/' {
        trim_leading_slashes(s.drop_first())
    } else {
        s
    }
}

/// `n` copies of `/`.
pub open spec fn slashes(n: nat) -> Seq<char> {
    Seq::new(n, |i: int| '/')
}

/// Whether two strings hold the same characters.
pub fn str_equal(a: &str, b: &str) -> (r: bool)
    ensures
        r == (a@ == b@),
{
    let n = a.unicode_len();
    if n != b.unicode_len() {
        return false;
    }
    let mut i: usize = 0;
    while i < n
        invariant
            n == a@.len(),
            n == b@.len(),
            i <= n,
            forall|j: int| 0 <= j < i ==> a@[j] == b@[j],
        decreases n - i,
    {
        if a.get_char(i) != b.get_char(i) {
            return false;
        }
        i = i + 1;
    }
    assert(a@ =~= b@);
    true
}

/// The one-character string of the digit `d`.
fn digit_text(d: u64) -> (r: String)
    requires
        d < 10,
    ensures
        r@ == seq![decimal_digits()[d as int]],
{
    let digits = "0123456789";
    proof {
        reveal_strlit("0123456789");
    }
    assert(digits@ =~= decimal_digits());
    let i: usize = d as usize;
    let piece = digits.substring_char(i, i + 1);
    assert(piece@ =~= seq![decimal_digits()[d as int]]);
    String::from_str(piece)
}

/// Renders `n` in decimal.
pub fn u64_decimal(n: u64) -> (r: String)
    ensures
        r@ == nat_decimal(n as nat),
{
    let mut acc = digit_text(n % 10);
    let mut rest: u64 = n / 10;
    assert(n < 10 ==> acc@ =~= nat_decimal(n as nat));
    while rest > 0
        invariant
            rest > 0 ==> nat_decimal(n as nat) == nat_decimal(rest as nat) + acc@,
            rest == 0 ==> nat_decimal(n as nat) == acc@,
        decreases rest,
    {
        let d = digit_text(rest % 10);
        let ghost old_acc = acc@;
        acc = d.concat(acc.as_str());
        let ghost r = rest as nat;
        assert(acc@ == seq![decimal_digits()[(r % 10) as int]] + old_acc);
        if rest < 10 {
            assert(nat_decimal(r) =~= seq![decimal_digits()[(r % 10) as int]]);
            assert(nat_decimal(n as nat) =~= acc@);
        } else {
            assert(nat_decimal(r) + old_acc =~= nat_decimal(r / 10) + acc@);
        }
        rest = rest / 10;
    }
    acc
}

/// Renders `i` in decimal, with a leading `-` when it is negative.
pub fn i32_decimal(i: i32) -> (r: String)
    ensures
        r@ == int_decimal(i as int),
{
    if i < 0 {
        let wide: i64 = i as i64;
        let magnitude: u64 = (-wide) as u64;
        let digits = u64_decimal(magnitude);
        let minus = "-";
        proof {
            reveal_strlit("-");
        }
        let r = String::from_str(minus).concat(digits.as_str());
        assert(r@ =~= int_decimal(i as int));
        r
    } else {
        u64_decimal(i as u64)
    }
}

/// Splits `s` at every occurrence of `sep`, as `str::split` with a
/// one-character pattern does.
pub fn split_at_char(s: &str, sep: char) -> (pieces: Vec<String>)
    ensures
        pieces.deep_view() == split_on(s@, sep),
{
    let n = s.unicode_len();
    let mut done: Vec<String> = Vec::new();
    let mut cur = String::new();
    let mut i: usize = 0;
    assert(s@.take(0) =~= Seq::<char>::empty());
    assert(done.deep_view().push(cur@) =~= split_on(s@.take(0), sep));
    while i < n
        invariant
            n == s@.len(),
            i <= n,
            done.deep_view().push(cur@) == split_on(s@.take(i as int), sep),
        decreases n - i,
    {
        let c = s.get_char(i);
        let ghost prefix = s@.take(i as int + 1);
        assert(prefix.drop_last() =~= s@.take(i as int));
        assert(prefix.last() == c);
        if c == sep {
            done.push(cur);
            cur = String::new();
            assert(done.deep_view().push(cur@) =~= split_on(prefix, sep));
        } else {
            let ghost before = done.deep_view().push(cur@);
            let ghost old_cur = cur@;
            let piece = s.substring_char(i, i + 1);
            assert(piece@ =~= seq![c]);
            cur.append(piece);
            assert(cur@ =~= old_cur.push(c));
            assert(before.last() == old_cur);
            assert(done.deep_view().push(cur@) =~= before.update(
                before.len() - 1,
                before.last().push(c),
            ));
        }
        i = i + 1;
    }
    assert(s@.take(n as int) =~= s@);
    done.push(cur);
    done
}

/// `raw` without its leading `/` characters, as `str::trim_start_matches("/")`
/// gives it.
pub fn trim_slashes(raw: &str) -> (r: String)
    ensures
        r@ == trim_leading_slashes(raw@),
{
    let n = raw.unicode_len();
    let mut i: usize = 0;
    assert(raw@.skip(0) =~= raw@);
    while i < n && raw.get_char(i) == '/'
        invariant
            n == raw@.len(),
            i <= n,
            trim_leading_slashes(raw@) == trim_leading_slashes(raw@.skip(i as int)),
        decreases n - i,
    {
        assert(raw@.skip(i as int).drop_first() =~= raw@.skip(i as int + 1));
        i = i + 1;
    }
    let rest = raw.substring_char(i, n);
    assert(rest@ =~= raw@.skip(i as int));
    String::from_str(rest)
}

/// The value of a digit character.
pub open spec fn digit_value(c: char) -> int {
    (c as int) - ('0' as int)
}

/// The number that a sequence of decimal digits stands for.
pub open spec fn decimal_value(digits: Seq<char>) -> int
    decreases digits.len(),
{
    if digits.len() == 0 {
        0
    } else {
        decimal_value(digits.drop_last()) * 10 + digit_value(digits.last())
    }
}

/// Reading the decimal rendering of `n` gives back `n`; it is made of digits
/// only, and starts with a nonzero digit unless `n` is zero.
pub proof fn law_decimal_reads_back(n: nat)
    ensures
        decimal_value(nat_decimal(n)) == n,
        forall|i: int|
            0 <= i < nat_decimal(n).len() ==> 0 <= #[trigger] digit_value(nat_decimal(n)[i]) < 10,
        n > 0 ==> digit_value(nat_decimal(n)[0]) != 0,
    decreases n,
{
    assert(digit_value('0') == 0 && digit_value('1') == 1 && digit_value('2') == 2 && digit_value(
        '3',
    ) == 3 && digit_value('4') == 4 && digit_value('5') == 5 && digit_value('6') == 6
        && digit_value('7') == 7 && digit_value('8') == 8 && digit_value('9') == 9);
    assert(forall|d: int| 0 <= d < 10 ==> digit_value(#[trigger] decimal_digits()[d]) == d);
    if n >= 10 {
        law_decimal_reads_back(n / 10);
        let init = nat_decimal(n / 10);
        assert(nat_decimal(n).drop_last() =~= init);
        assert(nat_decimal(n).last() == decimal_digits()[(n % 10) as int]);
        assert(digit_value(nat_decimal(n).last()) == (n % 10) as int);
        assert(decimal_value(nat_decimal(n)) == decimal_value(init) * 10 + (n % 10) as int);
        assert((n / 10) * 10 + n % 10 == n);
        assert(nat_decimal(n)[0] == init[0]);
        assert(forall|i: int| 0 <= i < init.len() ==> nat_decimal(n)[i] == init[i]);
    } else {
        let d = nat_decimal(n);
        assert(d.drop_last() =~= Seq::<char>::empty());
        assert(digit_value(d.last()) == n);
        assert(decimal_value(d) == decimal_value(d.drop_last()) * 10 + digit_value(d.last()));
    }
}

/// A rendered integer is `-` followed by the magnitude's digits for a
/// negative value, and the digits alone otherwise.
pub proof fn law_int_decimal_sign(i: int)
    ensures
        i < 0 ==> int_decimal(i)[0] == '-' && decimal_value(int_decimal(i).drop_first()) == -i,
        i >= 0 ==> decimal_value(int_decimal(i)) == i,
{
    if i < 0 {
        law_decimal_reads_back((-i) as nat);
        assert(int_decimal(i).drop_first() =~= nat_decimal((-i) as nat));
    } else {
        law_decimal_reads_back(i as nat);
    }
}

/// Every piece that `split_on` gives is free of the separator, and there is
/// always at least one piece.
pub proof fn lemma_split_pieces_free_of_separator(s: Seq<char>, sep: char)
    ensures
        split_on(s, sep).len() >= 1,
        forall|i: int, j: int|
            0 <= i < split_on(s, sep).len() && 0 <= j < split_on(s, sep)[i].len()
                ==> split_on(s, sep)[i][j] != sep,
    decreases s.len(),
{
    if s.len() > 0 {
        lemma_split_pieces_free_of_separator(s.drop_last(), sep);
    }
}

/// Changing the last piece only changes the end of the joined text.
proof fn lemma_join_last_piece(pieces: Seq<Seq<char>>, sep: char, c: char)
    requires
        pieces.len() >= 1,
    ensures
        join_with(pieces.update(pieces.len() - 1, pieces.last().push(c)), sep) == join_with(
            pieces,
            sep,
        ).push(c),
{
    let updated = pieces.update(pieces.len() - 1, pieces.last().push(c));
    if pieces.len() == 1 {
        assert(updated[0] == pieces[0].push(c));
    } else {
        assert(updated.drop_last() =~= pieces.drop_last());
        assert(updated.last() == pieces.last().push(c));
        assert(join_with(updated, sep) =~= join_with(pieces, sep).push(c));
    }
}

/// Joining the pieces of a split with the separator gives back the text.
pub proof fn lemma_split_then_join(s: Seq<char>, sep: char)
    ensures
        join_with(split_on(s, sep), sep) == s,
    decreases s.len(),
{
    if s.len() > 0 {
        let init = s.drop_last();
        lemma_split_then_join(init, sep);
        lemma_split_pieces_free_of_separator(init, sep);
        let pieces = split_on(init, sep);
        if s.last() == sep {
            let pushed = pieces.push(Seq::<char>::empty());
            assert(pushed.drop_last() =~= pieces);
            assert(join_with(pushed, sep) =~= s);
        } else {
            lemma_join_last_piece(pieces, sep, s.last());
            assert(init.push(s.last()) =~= s);
        }
    }
}

/// Trimming leaves no leading `/`, and the input is the removed slashes
/// followed by the result.
pub proof fn lemma_trim_leading_slashes(s: Seq<char>)
    ensures
        trim_leading_slashes(s).len() > 0 ==> trim_leading_slashes(s)[0] != '/',
        s == slashes((s.len() - trim_leading_slashes(s).len()) as nat) + trim_leading_slashes(s),
    decreases s.len(),
{
    if s.len() > 0 && s[0] == '/' {
        lemma_trim_leading_slashes(s.drop_first());
        let t = trim_leading_slashes(s.drop_first());
        let k = (s.drop_first().len() - t.len()) as nat;
        assert(slashes(k + 1) =~= seq!['/'] + slashes(k));
        assert(s =~= seq!['/'] + s.drop_first());
        assert(s =~= slashes(k + 1) + t);
    } else {
        assert(s =~= slashes(0) + s);
    }
}

} // verus!
