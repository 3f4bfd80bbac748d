use vstd::prelude::*;

verus! {

/// The ten decimal digits, in order.
pub open spec fn digit_chars() -> Seq<char> {
    seq!['0', '1', '2', '3', '4', '5', '6', '7', '8', '9']
}

/// Decimal notation of a natural number, most significant digit first, no leading zeros.
pub open spec fn decimal_text(n: nat) -> Seq<char>
    decreases n,
{
    if n < 10 {
        seq![digit_chars()[n as int]]
    } else {
        decimal_text(n / 10) + seq![digit_chars()[(n % 10) as int]]
    }
}

fn digit_text(d: u64) -> (r: String)
    requires
        d < 10,
    ensures
        r@ == seq![digit_chars()[d as int]],
{
    let table = "0123456789";
    proof {
        reveal_strlit("0123456789");
    }
    assert(table@ =~= digit_chars());
    let s = table.substring_char(d as usize, (d + 1) as usize);
    String::from_str(s)
}

/// Writes `n` in decimal, as `u64`'s `Display` does.
pub fn decimal(n: u64) -> (r: String)
    ensures
        r@ == decimal_text(n as nat),
    decreases n,
{
    if n < 10 {
        digit_text(n)
    } else {
        let head = decimal(n / 10);
        let last = digit_text(n % 10);
        head.concat(last.as_str())
    }
}


/// Unicode `White_Space`, the set that `char::is_whitespace` and `str::trim` use.
pub open spec fn is_white_space(c: char) -> bool {
    let u = c as u32;
    ||| 0x09 <= u <= 0x0d
    ||| u == 0x20
    ||| u == 0x85
    ||| u == 0xa0
    ||| u == 0x1680
    ||| 0x2000 <= u <= 0x200a
    ||| u == 0x2028
    ||| u == 0x2029
    ||| u == 0x202f
    ||| u == 0x205f
    ||| u == 0x3000
}

/// `s` without its leading white space.
pub open spec fn trim_start_text(s: Seq<char>) -> Seq<char>
    decreases s.len(),
{
    if s.len() > 0 && is_white_space(s[0]) {
        trim_start_text(s.drop_first())
    } else {
        s
    }
}

/// `s` without its trailing white space.
pub open spec fn trim_end_text(s: Seq<char>) -> Seq<char>
    decreases s.len(),
{
    if s.len() > 0 && is_white_space(s.last()) {
        trim_end_text(s.drop_last())
    } else {
        s
    }
}

/// `s` without leading and trailing white space, as `str::trim` gives it.
pub open spec fn trim_text(s: Seq<char>) -> Seq<char> {
    trim_end_text(trim_start_text(s))
}

/// Whether `c` is white space, as `char::is_whitespace` says.
pub fn is_white_space_char(c: char) -> (r: bool)
    ensures
        r == is_white_space(c),
{
    let u = c as u32;
    (0x09 <= u && u <= 0x0d) || u == 0x20 || u == 0x85 || u == 0xa0 || u == 0x1680 || (0x2000
        <= u && u <= 0x200a) || u == 0x2028 || u == 0x2029 || u == 0x202f || u == 0x205f || u
        == 0x3000
}

proof fn lemma_trim_start_skip(s: Seq<char>, i: int)
    requires
        0 <= i < s.len(),
        is_white_space(s[i]),
    ensures
        trim_start_text(s.subrange(i, s.len() as int)) == trim_start_text(
            s.subrange(i + 1, s.len() as int),
        ),
{
    let t = s.subrange(i, s.len() as int);
    assert(t.drop_first() =~= s.subrange(i + 1, s.len() as int));
}

proof fn lemma_trim_end_skip(s: Seq<char>, j: int)
    requires
        0 < j <= s.len(),
        is_white_space(s[j - 1]),
    ensures
        trim_end_text(s.subrange(0, j)) == trim_end_text(s.subrange(0, j - 1)),
{
    let t = s.subrange(0, j);
    assert(t.drop_last() =~= s.subrange(0, j - 1));
}

/// `s` with leading and trailing white space removed, as `str::trim` does.
pub fn trim(s: &str) -> (r: String)
    ensures
        r@ == trim_text(s@),
{
    let n = s.unicode_len();
    let mut i: usize = 0;
    assert(s@.subrange(0, n as int) =~= s@);
    while i < n && is_white_space_char(s.get_char(i))
        invariant
            n == s@.len(),
            i <= n,
            trim_start_text(s@) == trim_start_text(s@.subrange(i as int, n as int)),
        decreases n - i,
    {
        proof {
            lemma_trim_start_skip(s@, i as int);
        }
        i = i + 1;
    }
    let ghost rest = s@.subrange(i as int, n as int);
    assert(trim_start_text(rest) == rest);
    let mut j: usize = n;
    assert(rest.subrange(0, (j - i) as int) =~= rest);
    while j > i && is_white_space_char(s.get_char(j - 1))
        invariant
            n == s@.len(),
            i <= j <= n,
            rest == s@.subrange(i as int, n as int),
            trim_end_text(rest) == trim_end_text(rest.subrange(0, (j - i) as int)),
        decreases j,
    {
        proof {
            lemma_trim_end_skip(rest, (j - i) as int);
            assert(rest.subrange(0, (j - i - 1) as int) =~= rest.subrange(0, (j - 1 - i) as int));
        }
        j = j - 1;
    }
    let ghost kept = rest.subrange(0, (j - i) as int);
    assert(kept =~= s@.subrange(i as int, j as int));
    assert(trim_end_text(kept) == kept);
    String::from_str(s.substring_char(i, j))
}

/// The prefix `\\?\` that marks a Windows verbatim path.
pub open spec fn verbatim_prefix() -> Seq<char> {
    seq!['\\', '\\', '?', '\\']
}

/// `s` without a leading verbatim prefix, unchanged where it has none.
pub open spec fn strip_verbatim_text(s: Seq<char>) -> Seq<char> {
    if s.len() >= 4 && s.subrange(0, 4) == verbatim_prefix() {
        s.subrange(4, s.len() as int)
    } else {
        s
    }
}

/// Removes the Windows verbatim path prefix `\\?\` (which node cannot resolve) from a path's
/// text; a path without it comes back unchanged.
pub fn strip_verbatim(p: String) -> (r: String)
    ensures
        r@ == strip_verbatim_text(p@),
{
    let n = p.unicode_len();
    if n >= 4 && p.get_char(0) == '\\' && p.get_char(1) == '\\' && p.get_char(2) == '?'
        && p.get_char(3) == '\\' {
        assert(p@.subrange(0, 4) =~= verbatim_prefix());
        String::from_str(p.substring_char(4, n))
    } else {
        assert(n >= 4 ==> p@.subrange(0, 4) != verbatim_prefix() ) by {
            if n >= 4 && p@.subrange(0, 4) == verbatim_prefix() {
                assert(p@.subrange(0, 4)[0] == p@[0]);
                assert(p@.subrange(0, 4)[1] == p@[1]);
                assert(p@.subrange(0, 4)[2] == p@[2]);
                assert(p@.subrange(0, 4)[3] == p@[3]);
            }
        }
        p
    }
}


/// The outcome of comparing two values: the first is less than, equal to, or greater than
/// the second.
#[derive(PartialEq, Eq, Structural, Clone, Copy, Debug)]
pub enum Order {
    Less,
    Equal,
    Greater,
}

impl Order {
    /// The outcome with the two sides swapped.
    pub open spec fn reversed(self) -> Order {
        match self {
            Order::Less => Order::Greater,
            Order::Equal => Order::Equal,
            Order::Greater => Order::Less,
        }
    }
}

/// Lexicographic order of two texts by code point, which is the byte order of their UTF-8
/// encodings, the order of `str`'s `Ord`.
pub open spec fn text_order(a: Seq<char>, b: Seq<char>) -> Order
    decreases a.len(),
{
    if a.len() == 0 {
        if b.len() == 0 {
            Order::Equal
        } else {
            Order::Less
        }
    } else if b.len() == 0 {
        Order::Greater
    } else if (a[0] as int) < (b[0] as int) {
        Order::Less
    } else if (a[0] as int) > (b[0] as int) {
        Order::Greater
    } else {
        text_order(a.drop_first(), b.drop_first())
    }
}

/// Every text is equal to itself, and swapping the two texts reverses their order.
pub proof fn lemma_text_order_reverse(a: Seq<char>, b: Seq<char>)
    ensures
        text_order(a, a) == Order::Equal,
        text_order(b, a) == text_order(a, b).reversed(),
    decreases a.len(),
{
    if a.len() > 0 {
        lemma_text_order_reverse(a.drop_first(), a.drop_first());
        if b.len() > 0 {
            lemma_text_order_reverse(a.drop_first(), b.drop_first());
        }
    }
}

proof fn lemma_text_order_suffix(a: Seq<char>, b: Seq<char>, i: int)
    requires
        0 <= i < a.len(),
        i < b.len(),
        a[i] == b[i],
    ensures
        text_order(a.subrange(i, a.len() as int), b.subrange(i, b.len() as int)) == text_order(
            a.subrange(i + 1, a.len() as int),
            b.subrange(i + 1, b.len() as int),
        ),
{
    assert(a.subrange(i, a.len() as int).drop_first() =~= a.subrange(i + 1, a.len() as int));
    assert(b.subrange(i, b.len() as int).drop_first() =~= b.subrange(i + 1, b.len() as int));
}

/// Compares two texts lexicographically, as `str`'s `Ord` does.
pub fn compare_text(a: &str, b: &str) -> (r: Order)
    ensures
        r == text_order(a@, b@),
{
    let n = a.unicode_len();
    let m = b.unicode_len();
    let mut i: usize = 0;
    assert(a@.subrange(0, n as int) =~= a@);
    assert(b@.subrange(0, m as int) =~= b@);
    while i < n && i < m
        invariant
            n == a@.len(),
            m == b@.len(),
            i <= n,
            i <= m,
            text_order(a@, b@) == text_order(
                a@.subrange(i as int, n as int),
                b@.subrange(i as int, m as int),
            ),
        decreases n - i,
    {
        let x = a.get_char(i);
        let y = b.get_char(i);
        if (x as u32) < (y as u32) {
            return Order::Less;
        } else if (x as u32) > (y as u32) {
            return Order::Greater;
        }
        proof {
            lemma_text_order_suffix(a@, b@, i as int);
        }
        i = i + 1;
    }
    if i == n && i == m {
        Order::Equal
    } else if i == n {
        Order::Less
    } else {
        Order::Greater
    }
}


/// `s` trimmed, where that leaves any text; `None` where it leaves nothing.
pub fn trimmed_nonempty(s: &str) -> (r: Option<String>)
    ensures
        trim_text(s@).len() > 0 ==> (r matches Some(v) && v@ == trim_text(s@)),
        trim_text(s@).len() == 0 ==> r is None,
{
    let v = trim(s);
    if v.unicode_len() == 0 {
        None
    } else {
        Some(v)
    }
}


/// Texts in the order `text_order` are equal exactly when they are the same text.
pub proof fn lemma_text_order_equal(a: Seq<char>, b: Seq<char>)
    ensures
        (text_order(a, b) == Order::Equal) == (a == b),
    decreases a.len(),
{
    if a.len() > 0 && b.len() > 0 {
        lemma_text_order_equal(a.drop_first(), b.drop_first());
        assert((a[0] as int) == (b[0] as int) ==> a[0] == b[0]);
        if a.drop_first() == b.drop_first() && a[0] == b[0] {
            assert(a =~= seq![a[0]] + a.drop_first());
            assert(b =~= seq![b[0]] + b.drop_first());
        }
        if a == b {
            assert(a.drop_first() == b.drop_first());
        }
    } else if a.len() == 0 && b.len() == 0 {
        assert(a =~= b);
    }
}

/// Whether two texts are the same.
pub fn equal_text(a: &str, b: &str) -> (r: bool)
    ensures
        r == (a@ == b@),
{
    proof {
        lemma_text_order_equal(a@, b@);
    }
    compare_text(a, b) == Order::Equal
}

} // verus!
