//! Pagination cursors and their rendering as a `Range` header value.
use vstd::prelude::*;
use vstd::string::StringExecFns;

verus! {

/// The character of a decimal digit.
pub open spec fn digit_char(d: nat) -> char {
    if d == 0 {
        '0'
    } else if d == 1 {
        '1'
    } else if d == 2 {
        '2'
    } else if d == 3 {
        '3'
    } else if d == 4 {
        '4'
    } else if d == 5 {
        '5'
    } else if d == 6 {
        '6'
    } else if d == 7 {
        '7'
    } else if d == 8 {
        '8'
    } else {
        '9'
    }
}

/// The shortest decimal notation of `n`, most significant digit first.
pub open spec fn decimal(n: nat) -> Seq<char>
    decreases n,
{
    if n < 10 {
        seq![digit_char(n)]
    } else {
        decimal(n / 10).push(digit_char(n % 10))
    }
}

/// The range specification `<key> ; order=<order>,max=<size>`.
pub open spec fn range_spec(key: Seq<char>, order: Seq<char>, size: nat) -> Seq<char> {
    key + " ; order="@ + order + ",max="@ + decimal(size)
}

fn digit_str(d: u32) -> (r: &'static str)
    requires
        d < 10,
    ensures
        r@ == seq![digit_char(d as nat)],
{
    proof {
        reveal_strlit("0");
        reveal_strlit("1");
        reveal_strlit("2");
        reveal_strlit("3");
        reveal_strlit("4");
        reveal_strlit("5");
        reveal_strlit("6");
        reveal_strlit("7");
        reveal_strlit("8");
        reveal_strlit("9");
    }
    if d == 0 {
        "0"
    } else if d == 1 {
        "1"
    } else if d == 2 {
        "2"
    } else if d == 3 {
        "3"
    } else if d == 4 {
        "4"
    } else if d == 5 {
        "5"
    } else if d == 6 {
        "6"
    } else if d == 7 {
        "7"
    } else if d == 8 {
        "8"
    } else {
        "9"
    }
}

/// Renders `n` in decimal.
pub fn decimal_string(n: u32) -> (r: String)
    ensures
        r@ == decimal(n as nat),
    decreases n,
{
    if n < 10 {
        String::from_str(digit_str(n))
    } else {
        let mut s = decimal_string(n / 10);
        s.append(digit_str(n % 10));
        s
    }
}

/// A decimal digit character.
pub open spec fn is_digit(c: char) -> bool {
    '0' <= c && c <= '9'
}

/// The value of a decimal digit character.
pub open spec fn digit_value(c: char) -> nat {
    (c as u32 - '0' as u32) as nat
}

/// The number that a string of decimal digits reads as.
pub open spec fn digits_value(s: Seq<char>) -> nat
    decreases s.len(),
{
    if s.len() == 0 {
        0
    } else {
        digits_value(s.drop_last()) * 10 + digit_value(s.last())
    }
}

proof fn lemma_digit_char(d: nat)
    requires
        d < 10,
    ensures
        is_digit(digit_char(d)),
        digit_value(digit_char(d)) == d,
{
}

/// The decimal notation of `n` is a non-empty run of digits, and reads back
/// as `n`.
pub proof fn lemma_decimal_reads_back(n: nat)
    ensures
        decimal(n).len() >= 1,
        forall|i: int| 0 <= i < decimal(n).len() ==> is_digit(#[trigger] decimal(n)[i]),
        digits_value(decimal(n)) == n,
    decreases n,
{
    if n < 10 {
        lemma_digit_char(n);
        assert(decimal(n).drop_last() =~= Seq::<char>::empty());
        assert(decimal(n).last() == digit_char(n));
        assert(digits_value(decimal(n)) == digits_value(Seq::<char>::empty()) * 10 + digit_value(
            digit_char(n),
        ));
    } else {
        lemma_decimal_reads_back(n / 10);
        lemma_digit_char(n % 10);
        assert(decimal(n).drop_last() =~= decimal(n / 10));
        assert(decimal(n).last() == digit_char(n % 10));
        assert(digits_value(decimal(n)) == digits_value(decimal(n / 10)) * 10 + digit_value(
            digit_char(n % 10),
        ));
        assert(n == (n / 10) * 10 + n % 10);
        assert forall|i: int| 0 <= i < decimal(n).len() implies is_digit(
            #[trigger] decimal(n)[i],
        ) by {
            if i < decimal(n).len() - 1 {
                assert(decimal(n)[i] == decimal(n / 10)[i]);
            }
        }
    }
}

/// A rendered range specification falls apart into exactly its parts: the
/// key, ` ; order=`, the order, `,max=`, and the page size in decimal digits
/// that read back as the size, with nothing else around them.
pub proof fn lemma_range_spec_reads_back(key: Seq<char>, order: Seq<char>, size: nat)
    ensures
        ({
            let s = range_spec(key, order, size);
            let a = key.len() as int;
            let b = a + 9;
            let c = b + order.len();
            let d = c + 5;
            &&& s.subrange(0, a) == key
            &&& s.subrange(a, b) == " ; order="@
            &&& s.subrange(b, c) == order
            &&& s.subrange(c, d) == ",max="@
            &&& d < s.len()
            &&& forall|i: int| d <= i < s.len() ==> is_digit(#[trigger] s[i])
            &&& digits_value(s.subrange(d, s.len() as int)) == size
        }),
{
    reveal_strlit(" ; order=");
    reveal_strlit(",max=");
    lemma_decimal_reads_back(size);
    let s = range_spec(key, order, size);
    let a = key.len() as int;
    let b = a + 9;
    let c = b + order.len();
    let d = c + 5;
    assert(s.subrange(0, a) =~= key);
    assert(s.subrange(a, b) =~= " ; order="@);
    assert(s.subrange(b, c) =~= order);
    assert(s.subrange(c, d) =~= ",max="@);
    assert(s.subrange(d, s.len() as int) =~= decimal(size));
    assert forall|i: int| d <= i < s.len() implies is_digit(#[trigger] s[i]) by {
        assert(s[i] == decimal(size)[i - d]);
    }
}

/// Whether `pat` stands in `s` at position `i`.
pub open spec fn occurs_at(s: Seq<char>, pat: Seq<char>, i: int) -> bool {
    0 <= i && i + pat.len() <= s.len() && s.subrange(i, i + pat.len()) == pat
}

/// Read back by searching: where the key holds no ` ; order=`, the first
/// ` ; order=` of a rendered range specification ends the key, the last
/// `,max=` ends the order, and what follows it is the page size in digits.
pub proof fn lemma_range_spec_splits(key: Seq<char>, order: Seq<char>, size: nat)
    requires
        forall|i: int| !occurs_at(key, " ; order="@, i),
    ensures
        ({
            let s = range_spec(key, order, size);
            let a = key.len() as int;
            let c = a + 9 + order.len();
            &&& occurs_at(s, " ; order="@, a)
            &&& forall|i: int| 0 <= i < a ==> !occurs_at(s, " ; order="@, i)
            &&& s.subrange(0, a) == key
            &&& occurs_at(s, ",max="@, c)
            &&& forall|j: int| c < j ==> !occurs_at(s, ",max="@, j)
            &&& s.subrange(a + 9, c) == order
            &&& c + 5 < s.len()
            &&& forall|k: int| c + 5 <= k < s.len() ==> is_digit(#[trigger] s[k])
            &&& digits_value(s.subrange(c + 5, s.len() as int)) == size
        }),
{
    lemma_range_spec_reads_back(key, order, size);
    reveal_strlit(" ; order=");
    reveal_strlit(",max=");
    let s = range_spec(key, order, size);
    let p = " ; order="@;
    let q = ",max="@;
    let a = key.len() as int;
    let c = a + 9 + order.len();
    assert(s.subrange(a, a + 9) == p);
    assert(s.subrange(c, c + 5) == q);
    assert forall|i: int| 0 <= i < a implies !occurs_at(s, p, i) by {
        if occurs_at(s, p, i) {
            if i + 9 <= a {
                assert(key.subrange(i, i + 9) =~= s.subrange(i, i + 9));
                assert(occurs_at(key, p, i));
            } else {
                let d = a - i;
                assert(s[a] == s.subrange(a, a + 9)[0]);
                assert(s[a] == s.subrange(i, i + 9)[d]);
                assert(s[a + 1] == s.subrange(a, a + 9)[1]);
                assert(s[a + 1] == s.subrange(i, i + 9)[d + 1]);
                assert(d == 2);
            }
        }
    }
    assert forall|j: int| c < j implies !occurs_at(s, q, j) by {
        if occurs_at(s, q, j) {
            assert(s[j + 4] == s.subrange(j, j + 5)[4]);
            assert(is_digit(s[j + 4]));
        }
    }
}

/// The range specification of the first page of a release listing.
pub proof fn lemma_first_releases_range()
    ensures
        range_spec("version"@, "desc"@, 1000) == "version ; order=desc,max=1000"@,
{
    reveal_strlit("version");
    reveal_strlit("desc");
    reveal_strlit(" ; order=");
    reveal_strlit(",max=");
    reveal_strlit("version ; order=desc,max=1000");
    reveal_with_fuel(decimal, 4);
    assert(decimal(1000) =~= seq!['1', '0', '0', '0']);
    assert(range_spec("version"@, "desc"@, 1000) =~= "version ; order=desc,max=1000"@);
}

/// Builds a range specification from its three parts.
fn render_range(key: &str, order: &str, per_page: u32) -> (r: String)
    ensures
        r@ == range_spec(key@, order@, per_page as nat),
{
    proof {
        reveal_strlit(" ; order=");
        reveal_strlit(",max=");
    }
    let mut s = String::from_str(key);
    s.append(" ; order=");
    s.append(order);
    s.append(",max=");
    let digits = decimal_string(per_page);
    s.append(digits.as_str());
    s
}

/// A position in a paginated collection.
///
/// A cursor is either built by the client from a sort key, an order and a
/// page size, or handed out by the server as an opaque continuation token
/// that is sent back unchanged.
#[derive(Debug, Clone, PartialEq, Eq)]
pub enum Page {
    Initial { key: String, order: String, per_page: u32 },
    Issued { range: String },
}

impl Page {
    /// The `Range` header value that this cursor stands for.
    pub open spec fn range_view(&self) -> Seq<char> {
        match self {
            Page::Initial { key, order, per_page } => range_spec(key@, order@, *per_page as nat),
            Page::Issued { range } => range@,
        }
    }

    /// A cursor built by the client.
    pub fn new(key: &str, order: &str, per_page: u32) -> (r: Page)
        ensures
            r is Initial,
            r.range_view() == range_spec(key@, order@, per_page as nat),
    {
        Page::Initial { key: String::from_str(key), order: String::from_str(order), per_page }
    }

    /// The first page of a release listing: newest releases first, a thousand
    /// at a time.
    pub fn first_releases() -> (r: Page)
        ensures
            r is Initial,
            r.range_view() == "version ; order=desc,max=1000"@,
    {
        proof {
            lemma_first_releases_range();
        }
        Page::new("version", "desc", 1000)
    }

    /// A cursor that forwards a continuation token verbatim.
    pub fn from_next_range(range: String) -> (r: Page)
        ensures
            r is Issued,
            r.range_view() == range@,
    {
        Page::Issued { range }
    }

    /// Renders `<key> ; order=<order>,max=<per_page>`.
    pub fn gen_range_format(key: &str, order: &str, per_page: u32) -> (r: String)
        ensures
            r@ == range_spec(key@, order@, per_page as nat),
    {
        render_range(key, order, per_page)
    }

    /// The `Range` header value to send for this cursor.
    pub fn range_format(&self) -> (r: String)
        ensures
            r@ == self.range_view(),
    {
        match self {
            Page::Initial { key, order, per_page } => render_range(
                key.as_str(),
                order.as_str(),
                *per_page,
            ),
            Page::Issued { range } => range.clone(),
        }
    }

    /// A copy of this cursor.
    pub fn duplicate(&self) -> (r: Page)
        ensures
            r == *self,
    {
        match self {
            Page::Initial { key, order, per_page } => Page::Initial {
                key: key.clone(),
                order: order.clone(),
                per_page: *per_page,
            },
            Page::Issued { range } => Page::Issued { range: range.clone() },
        }
    }
}

} // verus!
