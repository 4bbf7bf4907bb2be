//! Text helpers: display width, line splitting, decimal rendering,
//! joining and wrapping.
use vstd::prelude::*;
use vstd::string::StrSliceExecFns;
use vstd::string::StringExecFns;
use unicode_width::UnicodeWidthStr;
use textwrap;

verus! {

/// Display width of a text in terminal columns, as unicode-width computes it.
pub uninterp spec fn text_width(s: Seq<char>) -> nat;

/// Relies on `UnicodeWidthStr::width` of unicode-width: the width depends on
/// the characters alone.
#[verifier::external_body]
fn display_width(s: &str) -> (r: usize)
    ensures
        r as nat == text_width(s@),
{
    UnicodeWidthStr::width(s)
}

/// The pieces of `s` between line breaks, in order; a text without a line
/// break is one piece, and so is the empty text.
pub open spec fn split_lines(s: Seq<char>) -> Seq<Seq<char>>
    decreases s.len(),
{
    if s.len() == 0 {
        seq![Seq::<char>::empty()]
    } else {
        let rest = split_lines(s.drop_last());
        if s.last() == '\n' {
            rest.push(Seq::<char>::empty())
        } else {
            rest.update(rest.len() - 1, rest.last().push(s.last()))
        }
    }
}

/// The greatest display width among the given lines (0 for none).
pub open spec fn widest(lines: Seq<Seq<char>>) -> nat
    decreases lines.len(),
{
    if lines.len() == 0 {
        0
    } else {
        let w = widest(lines.drop_last());
        let l = text_width(lines.last());
        if l > w {
            l
        } else {
            w
        }
    }
}

/// Display width of a possibly multi-line text: that of its widest line.
pub open spec fn max_line_width(s: Seq<char>) -> nat {
    widest(split_lines(s))
}

proof fn lemma_split_lines_nonempty(s: Seq<char>)
    ensures
        split_lines(s).len() >= 1,
    decreases s.len(),
{
    if s.len() > 0 {
        lemma_split_lines_nonempty(s.drop_last());
    }
}

/// Width of the widest line of `s`.
pub fn line_max_width(s: &str) -> (r: usize)
    ensures
        r as nat == max_line_width(s@),
{
    let n = s.unicode_len();
    let mut start: usize = 0;
    let mut best: usize = 0;
    let mut i: usize = 0;
    proof {
        assert(s@.subrange(0, 0) =~= Seq::<char>::empty());
    }
    while i < n
        invariant
            n == s@.len(),
            start <= i <= n,
            split_lines(s@.subrange(0, i as int)).len() >= 1,
            split_lines(s@.subrange(0, i as int)).last() == s@.subrange(start as int, i as int),
            best as nat == widest(split_lines(s@.subrange(0, i as int)).drop_last()),
        decreases n - i,
    {
        let c = s.get_char(i);
        let ghost prev = s@.subrange(0, i as int);
        let ghost next = s@.subrange(0, i + 1);
        proof {
            assert(next.drop_last() =~= prev);
            assert(next.last() == c);
        }
        if c == '\n' {
            let w = display_width(s.substring_char(start, i));
            if w > best {
                best = w;
            }
            proof {
                let lines = split_lines(prev);
                assert(split_lines(next) == lines.push(Seq::<char>::empty()));
                assert(split_lines(next).drop_last() =~= lines);
                assert(lines.drop_last() =~= lines.subrange(0, lines.len() - 1));
            }
            start = i + 1;
            proof {
                assert(s@.subrange(start as int, i + 1) =~= Seq::<char>::empty());
            }
        } else {
            proof {
                let lines = split_lines(prev);
                let upd = lines.update(lines.len() - 1, lines.last().push(c));
                assert(split_lines(next) == upd);
                assert(upd.drop_last() =~= lines.drop_last());
                assert(upd.last() =~= s@.subrange(start as int, i + 1));
            }
        }
        i = i + 1;
    }
    let w = display_width(s.substring_char(start, n));
    proof {
        assert(s@.subrange(0, n as int) =~= s@);
        let lines = split_lines(s@);
        assert(lines =~= lines.drop_last().push(lines.last()));
        assert(lines.drop_last() =~= lines.subrange(0, lines.len() - 1));
    }
    if w > best {
        w
    } else {
        best
    }
}

/// The character of a decimal digit.
pub open spec fn digit_char(d: nat) -> char {
    if d == 0 { '0' }
    else if d == 1 { '1' }
    else if d == 2 { '2' }
    else if d == 3 { '3' }
    else if d == 4 { '4' }
    else if d == 5 { '5' }
    else if d == 6 { '6' }
    else if d == 7 { '7' }
    else if d == 8 { '8' }
    else { '9' }
}

/// Decimal digits of a natural number, most significant first, no leading zero.
pub open spec fn decimal_digits(n: nat) -> Seq<char>
    decreases n,
{
    if n < 10 {
        seq![digit_char(n)]
    } else {
        decimal_digits(n / 10).push(digit_char(n % 10))
    }
}

/// Decimal text of an integer, with a leading '-' when negative.
pub open spec fn decimal_text(n: int) -> Seq<char> {
    if n < 0 {
        seq!['-'] + decimal_digits((-n) as nat)
    } else {
        decimal_digits(n as nat)
    }
}

fn digit_str(d: u64) -> (r: &'static str)
    requires
        d < 10,
    ensures
        r@ == seq![digit_char(d as nat)],
{
    proof {
        reveal_strlit("0");
        reveal_strlit("1");
        reveal_strlit("2");
        reveal_strlit("3");
        reveal_strlit("4");
        reveal_strlit("5");
        reveal_strlit("6");
        reveal_strlit("7");
        reveal_strlit("8");
        reveal_strlit("9");
    }
    if d == 0 { "0" }
    else if d == 1 { "1" }
    else if d == 2 { "2" }
    else if d == 3 { "3" }
    else if d == 4 { "4" }
    else if d == 5 { "5" }
    else if d == 6 { "6" }
    else if d == 7 { "7" }
    else if d == 8 { "8" }
    else { "9" }
}

/// Appends the decimal digits of `n` to `out`.
pub fn push_decimal(out: &mut String, n: u64)
    ensures
        final(out)@ == old(out)@ + decimal_digits(n as nat),
    decreases n,
{
    if n >= 10 {
        push_decimal(out, n / 10);
    }
    out.append(digit_str(n % 10));
    proof {
        if n >= 10 {
            assert(decimal_digits(n as nat) == decimal_digits((n / 10) as nat).push(digit_char((n % 10) as nat)));
        }
    }
    assert(final(out)@ =~= old(out)@ + decimal_digits(n as nat));
}

/// Decimal text of a signed count.
pub fn int_to_text(n: i32) -> (r: String)
    ensures
        r@ == decimal_text(n as int),
{
    let mut out = String::new();
    if n < 0 {
        out.append("-");
        let m: i64 = -(n as i64);
        push_decimal(&mut out, m as u64);
        proof {
            reveal_strlit("-");
        }
    } else {
        push_decimal(&mut out, n as u64);
    }
    assert(out@ =~= decimal_text(n as int));
    out
}

/// Texts joined with ", " between consecutive ones.
pub open spec fn comma_joined(parts: Seq<Seq<char>>) -> Seq<char>
    decreases parts.len(),
{
    if parts.len() == 0 {
        Seq::<char>::empty()
    } else if parts.len() == 1 {
        parts[0]
    } else {
        comma_joined(parts.drop_last()) + seq![',', ' '] + parts.last()
    }
}

/// Texts joined with a line break between consecutive ones.
pub open spec fn break_joined(parts: Seq<Seq<char>>) -> Seq<char>
    decreases parts.len(),
{
    if parts.len() == 0 {
        Seq::<char>::empty()
    } else if parts.len() == 1 {
        parts[0]
    } else {
        break_joined(parts.drop_last()) + seq!['\n'] + parts.last()
    }
}

/// The views of a list of strings.
pub open spec fn views(v: Seq<String>) -> Seq<Seq<char>> {
    v.map_values(|s: String| s@)
}

/// Joins `parts` with `sep` between consecutive ones.
fn join_with(parts: &Vec<String>, sep: &str) -> (r: String)
    ensures
        sep@ == seq![',', ' '] ==> r@ == comma_joined(views(parts@)),
        sep@ == seq!['\n'] ==> r@ == break_joined(views(parts@)),
{
    let mut out = String::new();
    let mut i: usize = 0;
    while i < parts.len()
        invariant
            i <= parts@.len(),
            sep@ == seq![',', ' '] ==> out@ == comma_joined(views(parts@.subrange(0, i as int))),
            sep@ == seq!['\n'] ==> out@ == break_joined(views(parts@.subrange(0, i as int))),
        decreases parts@.len() - i,
    {
        let ghost before = out@;
        if i > 0 {
            out.append(sep);
        }
        out.append(parts[i].as_str());
        proof {
            let pre = views(parts@.subrange(0, i as int));
            let cur = views(parts@.subrange(0, i + 1));
            assert(cur.drop_last() =~= pre);
            assert(cur.last() == parts@[i as int]@);
            if i == 0 {
                assert(cur =~= seq![parts@[0]@]);
            }
        }
        i = i + 1;
    }
    proof {
        assert(parts@.subrange(0, parts@.len() as int) =~= parts@);
    }
    out
}

/// Joins the texts with ", ".
pub fn join_comma(parts: &Vec<String>) -> (r: String)
    ensures
        r@ == comma_joined(views(parts@)),
{
    proof {
        reveal_strlit(", ");
        assert(", "@ =~= seq![',', ' ']);
    }
    join_with(parts, ", ")
}

/// Joins the lines with line breaks.
pub fn join_lines(parts: &Vec<String>) -> (r: String)
    ensures
        r@ == break_joined(views(parts@)),
{
    proof {
        reveal_strlit("\n");
        assert("\n"@ =~= seq!['\n']);
    }
    join_with(parts, "\n")
}

/// Whether two texts hold the same characters.
pub fn same_text(a: &str, b: &str) -> (r: bool)
    ensures
        r == (a@ == b@),
{
    let n = a.unicode_len();
    let m = b.unicode_len();
    if n != m {
        return false;
    }
    let mut i: usize = 0;
    while i < n
        invariant
            n == a@.len(),
            n == b@.len(),
            i <= n,
            forall|k: int| 0 <= k < i ==> a@[k] == b@[k],
        decreases n - i,
    {
        if a.get_char(i) != b.get_char(i) {
            return false;
        }
        i = i + 1;
    }
    assert(a@ =~= b@);
    true
}

/// The lines into which textwrap breaks a text for the given column width.
pub uninterp spec fn wrapped_lines(s: Seq<char>, width: nat) -> Seq<Seq<char>>;

/// Relies on `textwrap::wrap`: the lines depend on the text and the width alone.
#[verifier::external_body]
fn wrap_to_lines(s: &str, width: usize) -> (r: Vec<String>)
    requires
        width >= 1,
    ensures
        views(r@) == wrapped_lines(s@, width as nat),
{
    textwrap::wrap(s, width).iter().map(|l| l.to_string()).collect()
}

/// Text reflowed to the column width, its lines joined with line breaks.
pub fn wrap_text(text: &str, width: usize) -> (r: String)
    requires
        width >= 1,
    ensures
        r@ == break_joined(wrapped_lines(text@, width as nat)),
{
    let lines = wrap_to_lines(text, width);
    join_lines(&lines)
}

/// Whether a text holds no line break.
pub open spec fn single_line(s: Seq<char>) -> bool {
    forall|i: int| 0 <= i < s.len() ==> s[i] != '\n'
}

proof fn lemma_split_extend(p: Seq<char>, b: Seq<char>)
    requires
        single_line(b),
    ensures
        split_lines(p + b) == split_lines(p).update(
            split_lines(p).len() - 1,
            split_lines(p).last() + b,
        ),
    decreases b.len(),
{
    lemma_split_lines_nonempty(p);
    let lines = split_lines(p);
    if b.len() == 0 {
        assert(p + b =~= p);
        assert(lines.last() + b =~= lines.last());
        assert(lines.update(lines.len() - 1, lines.last() + b) =~= lines);
    } else {
        let b0 = b.drop_last();
        assert(single_line(b0)) by {
            assert forall|i: int| 0 <= i < b0.len() implies b0[i] != '\n' by {
                assert(b0[i] == b[i]);
            }
        }
        lemma_split_extend(p, b0);
        assert((p + b).drop_last() =~= p + b0);
        assert((p + b).last() == b.last());
        assert(b.last() == b[b.len() - 1]);
        let mid = split_lines(p + b0);
        assert(mid.last() == lines.last() + b0);
        assert(mid.last().push(b.last()) =~= lines.last() + b);
        assert(mid.update(mid.len() - 1, mid.last().push(b.last())) =~= lines.update(
            lines.len() - 1,
            lines.last() + b,
        ));
    }
}

/// The width of two lines joined by a line break is that of the wider one,
/// not that of the whole text.
pub proof fn lemma_two_line_width(a: Seq<char>, b: Seq<char>)
    requires
        single_line(a),
        single_line(b),
    ensures
        max_line_width(a + seq!['\n'] + b) == if text_width(a) >= text_width(b) {
            text_width(a)
        } else {
            text_width(b)
        },
{
    let e = Seq::<char>::empty();
    lemma_split_extend(e, a);
    assert(e + a =~= a);
    assert(split_lines(e) == seq![e]);
    assert(split_lines(a) =~= seq![a]);
    let a1 = a + seq!['\n'];
    assert(a1.drop_last() =~= a);
    assert(split_lines(a1) =~= seq![a, e]);
    lemma_split_extend(a1, b);
    assert(e + b =~= b);
    assert(split_lines(a1 + b) =~= seq![a, b]);
    let lines = seq![a, b];
    assert(lines.drop_last() =~= seq![a]);
    assert(seq![a].drop_last() =~= Seq::<Seq<char>>::empty());
    assert(widest(Seq::<Seq<char>>::empty()) == 0);
    assert(widest(seq![a]) == text_width(a));
    assert(max_line_width(a1 + b) == widest(lines));
}

} // verus!
