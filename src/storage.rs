//! Naming of the stored documents: one file per document, named by its
//! timestamp, in a directory per user.
use vstd::prelude::*;

verus! {

/// The decimal digits of `n`.
pub open spec fn decimal(n: nat) -> Seq<char>
    decreases n,
{
    if n < 10 {
        seq![digit_char(n)]
    } else {
        decimal(n / 10) + seq![digit_char(n % 10)]
    }
}

pub open spec fn digit_char(d: nat) -> char {
    if d == 0 { '0' }
    else if d == 1 { '1' }
    else if d == 2 { '2' }
    else if d == 3 { '3' }
    else if d == 4 { '4' }
    else if d == 5 { '5' }
    else if d == 6 { '6' }
    else if d == 7 { '7' }
    else if d == 8 { '8' }
    else { '9' }
}

/// The decimal text of `n`.
pub fn decimal_text(n: u64) -> (r: String)
    ensures
        r@ == decimal(n as nat),
    decreases n,
{
    let digits = "0123456789";
    proof {
        reveal_strlit("0123456789");
    }
    let d = (n % 10) as usize;
    let piece = digits.substring_char(d, d + 1);
    assert(piece@ =~= seq![digit_char((n % 10) as nat)]);
    if n < 10 {
        String::from_str(piece)
    } else {
        let mut r = decimal_text(n / 10);
        r.append(piece);
        r
    }
}

pub open spec fn is_digit(c: char) -> bool {
    '0' <= c && c <= '9'
}

/// The value of a run of decimal digits.
pub open spec fn digits_value(s: Seq<char>) -> int
    decreases s.len(),
{
    if s.len() == 0 {
        0
    } else {
        digits_value(s.drop_last()) * 10 + (s.last() as int - '0' as int)
    }
}

/// The digits of a decimal numeral, after an optional `+`.
pub open spec fn numeral_digits(s: Seq<char>) -> Seq<char> {
    if s.len() > 0 && s[0] == '+' {
        s.drop_first()
    } else {
        s
    }
}

/// An unsigned 64-bit integer written in decimal: an optional `+`, then at
/// least one digit, and no more than `u64::MAX`.
pub open spec fn parsed_u64(s: Seq<char>) -> Option<u64> {
    let d = numeral_digits(s);
    if d.len() > 0 && (forall|i: int| 0 <= i < d.len() ==> is_digit(#[trigger] d[i]))
        && digits_value(d) <= u64::MAX {
        Some(digits_value(d) as u64)
    } else {
        None
    }
}

/// Where `c` last occurs in `s`.
pub open spec fn last_index_of(s: Seq<char>, c: char) -> Option<int>
    decreases s.len(),
{
    if s.len() == 0 {
        None
    } else if s.last() == c {
        Some(s.len() - 1)
    } else {
        last_index_of(s.drop_last(), c)
    }
}

/// The document named by a file: its name is a decimal identifier, a dot,
/// and the extension `md` (split at the last dot).
pub open spec fn file_identifier(name: Seq<char>) -> Option<u64> {
    match last_index_of(name, '.') {
        None => None,
        Some(i) => if name.subrange(i + 1, name.len() as int) == seq!['m', 'd'] {
            parsed_u64(name.take(i))
        } else {
            None
        },
    }
}

proof fn lemma_digits_value_grows(s: Seq<char>, k: int)
    requires
        0 <= k <= s.len(),
        forall|i: int| 0 <= i < s.len() ==> is_digit(#[trigger] s[i]),
    ensures
        digits_value(s.take(k)) <= digits_value(s),
        0 <= digits_value(s.take(k)),
    decreases s.len() - k,
{
    if k < s.len() {
        lemma_digits_value_grows(s, k + 1);
        assert(s.take(k + 1).drop_last() =~= s.take(k));
        assert(s.take(k + 1).last() == s[k]);
        assert(is_digit(s[k]));
    } else {
        assert(s.take(k) =~= s);
        lemma_digits_value_nonneg(s);
    }
}

proof fn lemma_digits_value_nonneg(s: Seq<char>)
    requires
        forall|i: int| 0 <= i < s.len() ==> is_digit(#[trigger] s[i]),
    ensures
        0 <= digits_value(s),
    decreases s.len(),
{
    if s.len() > 0 {
        assert(is_digit(s[s.len() - 1]));
        lemma_digits_value_nonneg(s.drop_last());
    }
}

/// The value of `s[from..to]` as a decimal numeral, as `str::parse::<u64>`
/// reads it.
fn parse_u64(s: &str, from: usize, to: usize) -> (r: Option<u64>)
    requires
        from <= to <= s@.len(),
    ensures
        r == parsed_u64(s@.subrange(from as int, to as int)),
{
    let ghost whole = s@.subrange(from as int, to as int);
    let mut start = from;
    if from < to && s.get_char(from) == '+' {
        start = from + 1;
    }
    let ghost d = numeral_digits(whole);
    assert(d =~= s@.subrange(start as int, to as int));
    if start == to {
        return None;
    }
    let mut acc: u64 = 0;
    let mut i: usize = start;
    while i < to
        invariant
            from <= start <= i <= to <= s@.len(),
            d == s@.subrange(start as int, to as int),
            d == numeral_digits(whole),
            whole == s@.subrange(from as int, to as int),
            forall|k: int| 0 <= k < i - start ==> is_digit(#[trigger] d[k]),
            acc as int == digits_value(d.take(i - start)),
        decreases to - i,
    {
        let c = s.get_char(i);
        assert(d[i - start] == c);
        if c < '0' || c > '9' {
            assert(!is_digit(d[i - start]));
            assert(parsed_u64(whole) is None);
            return None;
        }
        assert(is_digit(d[i - start]));
        let digit = (c as u32 - '0' as u32) as u64;
        assert(d.take(i - start + 1).drop_last() =~= d.take(i - start));
        assert(d.take(i - start + 1).last() == c);
        match acc.checked_mul(10) {
            None => {
                proof {
                    assert(digits_value(d.take(i - start + 1)) > u64::MAX);
                    lemma_overflow_has_no_value(d, i - start + 1);
                    assert(parsed_u64(whole) is None);
                }
                return None;
            },
            Some(m) => match m.checked_add(digit) {
                None => {
                    proof {
                        assert(digits_value(d.take(i - start + 1)) > u64::MAX);
                        lemma_overflow_has_no_value(d, i - start + 1);
                    }
                    return None;
                },
                Some(v) => {
                    acc = v;
                },
            },
        }
        i = i + 1;
    }
    assert(d.take(i - start) =~= d);
    Some(acc)
}

/// Once a prefix of a numeral exceeds `u64::MAX`, the numeral has no
/// 64-bit value, whatever follows.
proof fn lemma_overflow_has_no_value(d: Seq<char>, k: int)
    requires
        0 <= k <= d.len(),
        forall|i: int| 0 <= i < k ==> is_digit(#[trigger] d[i]),
        digits_value(d.take(k)) > u64::MAX,
    ensures
        digits_have_no_value(d),
{
    if forall|i: int| 0 <= i < d.len() ==> is_digit(#[trigger] d[i]) {
        lemma_digits_value_grows(d, k);
    }
}

/// Digits that are not a 64-bit value: a non-digit, or too large a value.
pub open spec fn digits_have_no_value(d: Seq<char>) -> bool {
    !((forall|i: int| 0 <= i < d.len() ==> is_digit(#[trigger] d[i])) && digits_value(d) <= u64::MAX)
}

/// Where `.` last occurs in `s`.
fn last_dot(s: &str, n: usize) -> (r: Option<usize>)
    requires
        n == s@.len(),
    ensures
        match r {
            Some(i) => last_index_of(s@, '.') == Some(i as int) && i < n,
            None => last_index_of(s@, '.') is None,
        },
{
    let mut i: usize = n;
    assert(s@.take(n as int) =~= s@);
    while i > 0
        invariant
            i <= n == s@.len(),
            last_index_of(s@, '.') == last_index_of(s@.take(i as int), '.'),
        decreases i,
    {
        let c = s.get_char(i - 1);
        assert(s@.take(i as int).last() == c);
        assert(s@.take(i as int).drop_last() =~= s@.take(i - 1));
        if c == '.' {
            return Some(i - 1);
        }
        i = i - 1;
    }
    None
}

/// Unix timestamp that (almost) uniquely identifies a document.
#[derive(Clone, Copy, Debug, PartialEq, Eq, Structural, PartialOrd, Ord)]
pub struct DocumentIdentifier(pub u64);

/// A note and its identifier.
pub struct Document {
    pub identifier: DocumentIdentifier,
    pub contents: String,
}

/// Newest first: identifiers never increase along the sequence.
pub open spec fn newest_first_order(s: Seq<Document>) -> bool {
    forall|i: int, j: int|
        0 <= i < j < s.len() ==> (#[trigger] s[i]).identifier.0 >= (#[trigger] s[j]).identifier.0
}

/// The same documents, newest (largest identifier) first.
pub fn newest_first(docs: Vec<Document>) -> (r: Vec<Document>)
    ensures
        r@.to_multiset() == docs@.to_multiset(),
        newest_first_order(r@),
{
    let ghost all = docs@.to_multiset();
    let mut rest = docs;
    let mut out: Vec<Document> = Vec::new();
    proof {
        out@.to_multiset_ensures();
    }
    assert(out@.to_multiset() =~= vstd::multiset::Multiset::empty());
    assert(out@.to_multiset().add(rest@.to_multiset()) =~= all);
    while rest.len() > 0
        invariant
            out@.to_multiset().add(rest@.to_multiset()) == all,
            newest_first_order(out@),
            forall|i: int, j: int|
                0 <= i < out@.len() && 0 <= j < rest@.len() ==> (#[trigger] out@[i]).identifier.0
                    >= (#[trigger] rest@[j]).identifier.0,
        decreases rest@.len(),
    {
        let mut m: usize = 0;
        let mut k: usize = 1;
        while k < rest.len()
            invariant
                0 <= m < rest@.len(),
                1 <= k <= rest@.len(),
                forall|j: int| 0 <= j < k ==> rest@[m as int].identifier.0 >= (#[trigger] rest@[j]).identifier.0,
            decreases rest@.len() - k,
        {
            if rest[k].identifier.0 > rest[m].identifier.0 {
                m = k;
            }
            k = k + 1;
        }
        let ghost before_rest = rest@;
        let ghost before_out = out@;
        let d = rest.remove(m);
        proof {
            before_rest.to_multiset_ensures();
            before_out.to_multiset_ensures();
        }
        assert(d == before_rest[m as int]);
        assert(before_rest.remove(m as int).to_multiset() == before_rest.to_multiset().remove(d));
        assert(before_rest.to_multiset().count(d) > 0) by {
            assert(before_rest.contains(d));
        }
        out.push(d);
        assert(out@.to_multiset() == before_out.to_multiset().insert(d));
        assert(out@.to_multiset().add(rest@.to_multiset()) =~= all);
        assert forall|i: int, j: int|
            0 <= i < out@.len() && 0 <= j < rest@.len() implies (#[trigger] out@[i]).identifier.0
                >= (#[trigger] rest@[j]).identifier.0 by {
            let oj = if j < m { j } else { j + 1 };
            assert(rest@[j] == before_rest[oj]);
            if i < before_out.len() {
                assert(out@[i] == before_out[i]);
            }
        }
        assert forall|i: int, j: int|
            0 <= i < j < out@.len() implies (#[trigger] out@[i]).identifier.0 >= (
            #[trigger] out@[j]).identifier.0 by {
            if j < before_out.len() {
                assert(out@[i] == before_out[i]);
                assert(out@[j] == before_out[j]);
            } else {
                assert(out@[i] == before_out[i]);
                assert(out@[j] == d);
            }
        }
    }
    proof {
        rest@.to_multiset_ensures();
    }
    assert(rest@.to_multiset() =~= vstd::multiset::Multiset::empty());
    assert(out@.to_multiset() =~= all);
    out
}

/// The documents of one user, stored under one directory.
pub struct UserStorage {
    path: String,
}

impl UserStorage {
    pub closed spec fn spec_path(&self) -> Seq<char> {
        self.path@
    }

    /// The storage of `user_id` under the storage root directory.
    pub fn new(root: &str, user_id: &str) -> (r: UserStorage)
        ensures
            r.spec_path() == root@ + "/"@ + user_id@,
    {
        let mut path = String::from_str(root);
        path.append("/");
        path.append(user_id);
        UserStorage { path }
    }

    /// The directory that holds the user's documents.
    pub fn directory(&self) -> (r: String)
        ensures
            r@ == self.spec_path(),
    {
        self.path.clone()
    }

    /// The file of a document: its identifier in decimal, with extension `md`.
    pub fn doc_path(&self, document: DocumentIdentifier) -> (r: String)
        ensures
            r@ == self.spec_path() + "/"@ + decimal(document.0 as nat) + ".md"@,
    {
        let mut r = self.path.clone();
        r.append("/");
        let name = decimal_text(document.0);
        r.append(name.as_str());
        r.append(".md");
        r
    }
}

/// The document that a file of the user's directory holds, if its name is
/// a decimal identifier with the extension `md`.
pub fn identifier_of_file_name(name: &str) -> (r: Option<DocumentIdentifier>)
    ensures
        match file_identifier(name@) {
            Some(v) => r == Some(DocumentIdentifier(v)),
            None => r is None,
        },
{
    let n = name.unicode_len();
    assert(name@.take(n as int) =~= name@);
    match last_dot(name, n) {
        None => None,
        Some(i) => {
            proof {
                reveal_strlit("md");
            }
            let ext = String::from_str(name.substring_char(i + 1, n));
            let md = String::from_str("md");
            assert(md@ =~= seq!['m', 'd']);
            if ext != md {
                return None;
            }
            assert(name@.take(i as int) =~= name@.subrange(0, i as int));
            match parse_u64(name, 0, i) {
                Some(v) => Some(DocumentIdentifier(v)),
                None => None,
            }
        },
    }
}

} // verus!
