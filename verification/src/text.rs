//! Small verified helpers over strings: character-wise equality and the
//! normalization (trimming and lowercasing) that console command dispatch
//! uses.

use vstd::prelude::*;

verus! {

/// Relies on `String::push`: appends exactly the given character.
pub assume_specification[ String::push ](s: &mut String, ch: char)
    ensures
        final(s)@ == old(s)@.push(ch),
;

/// Character-wise string equality, proved against the string views.
pub fn str_eq_check(a: &str, b: &str) -> (r: bool)
    ensures
        r == (a@ == b@),
{
    let n = a.unicode_len();
    let m = b.unicode_len();
    if n != m {
        return false;
    }
    let mut i: usize = 0;
    while i < n
        invariant
            n == a@.len(),
            n == b@.len(),
            i <= n,
            forall|j: int| 0 <= j < i ==> a@[j] == b@[j],
        decreases n - i,
    {
        if a.get_char(i) != b.get_char(i) {
            return false;
        }
        i += 1;
    }
    proof {
        assert(a@ =~= b@);
    }
    true
}

/// An ASCII whitespace character, as command trimming understands it.
pub open spec fn is_space(c: char) -> bool {
    c == ' ' || c == '\t' || c == '\n' || c == '\r'
}

/// The lowercase form of an ASCII letter; any other character is unchanged.
pub open spec fn lower_char(c: char) -> char {
    match c {
        'A' => 'a',
        'B' => 'b',
        'C' => 'c',
        'D' => 'd',
        'E' => 'e',
        'F' => 'f',
        'G' => 'g',
        'H' => 'h',
        'I' => 'i',
        'J' => 'j',
        'K' => 'k',
        'L' => 'l',
        'M' => 'm',
        'N' => 'n',
        'O' => 'o',
        'P' => 'p',
        'Q' => 'q',
        'R' => 'r',
        'S' => 's',
        'T' => 't',
        'U' => 'u',
        'V' => 'v',
        'W' => 'w',
        'X' => 'x',
        'Y' => 'y',
        'Z' => 'z',
        _ => c,
    }
}

fn lower_char_check(c: char) -> (r: char)
    ensures
        r == lower_char(c),
{
    match c {
        'A' => 'a',
        'B' => 'b',
        'C' => 'c',
        'D' => 'd',
        'E' => 'e',
        'F' => 'f',
        'G' => 'g',
        'H' => 'h',
        'I' => 'i',
        'J' => 'j',
        'K' => 'k',
        'L' => 'l',
        'M' => 'm',
        'N' => 'n',
        'O' => 'o',
        'P' => 'p',
        'Q' => 'q',
        'R' => 'r',
        'S' => 's',
        'T' => 't',
        'U' => 'u',
        'V' => 'v',
        'W' => 'w',
        'X' => 'x',
        'Y' => 'y',
        'Z' => 'z',
        _ => c,
    }
}

/// The string without its leading whitespace.
pub open spec fn trim_front(s: Seq<char>) -> Seq<char>
    decreases s.len(),
{
    if s.len() > 0 && is_space(s[0]) {
        trim_front(s.subrange(1, s.len() as int))
    } else {
        s
    }
}

/// The string without its trailing whitespace.
pub open spec fn trim_back(s: Seq<char>) -> Seq<char>
    decreases s.len(),
{
    if s.len() > 0 && is_space(s.last()) {
        trim_back(s.drop_last())
    } else {
        s
    }
}

/// The string lowercased character by character.
pub open spec fn lower_seq(s: Seq<char>) -> Seq<char> {
    s.map_values(|c: char| lower_char(c))
}

/// The normal form a console command is dispatched on: whitespace trimmed
/// from both ends, then ASCII-lowercased.
pub open spec fn normalized(s: Seq<char>) -> Seq<char> {
    lower_seq(trim_back(trim_front(s)))
}

fn is_space_check(c: char) -> (r: bool)
    ensures
        r == is_space(c),
{
    c == ' ' || c == '\t' || c == '\n' || c == '\r'
}

proof fn lemma_trim_front_skip(s: Seq<char>, start: int)
    requires
        0 <= start <= s.len(),
        forall|j: int| 0 <= j < start ==> is_space(s[j]),
    ensures
        trim_front(s) == trim_front(s.subrange(start, s.len() as int)),
    decreases start,
{
    if start > 0 {
        assert(is_space(s[0]));
        let t = s.subrange(1, s.len() as int);
        assert(trim_front(s) == trim_front(t));
        lemma_trim_front_skip(t, start - 1);
        assert(t.subrange(start - 1, t.len() as int) =~= s.subrange(start, s.len() as int));
    } else {
        assert(s.subrange(0, s.len() as int) =~= s);
    }
}

proof fn lemma_trim_back_skip(s: Seq<char>, end: int)
    requires
        0 <= end <= s.len(),
        forall|j: int| end <= j < s.len() ==> is_space(s[j]),
    ensures
        trim_back(s) == trim_back(s.subrange(0, end)),
    decreases s.len() - end,
{
    if end < s.len() {
        assert(is_space(s.last()));
        let t = s.drop_last();
        assert(trim_back(s) == trim_back(t));
        lemma_trim_back_skip(t, end);
        assert(t.subrange(0, end) =~= s.subrange(0, end));
    } else {
        assert(s.subrange(0, s.len() as int) =~= s);
    }
}

/// Trim whitespace from both ends and lowercase what remains.
pub fn normalize_command(s: &str) -> (r: String)
    ensures
        r@ == normalized(s@),
{
    let n = s.unicode_len();
    let mut start: usize = 0;
    while start < n && is_space_check(s.get_char(start))
        invariant
            n == s@.len(),
            start <= n,
            forall|j: int| 0 <= j < start ==> is_space(s@[j]),
        decreases n - start,
    {
        start += 1;
    }
    proof {
        lemma_trim_front_skip(s@, start as int);
    }
    let mut end: usize = n;
    while end > start && is_space_check(s.get_char(end - 1))
        invariant
            n == s@.len(),
            start <= end <= n,
            forall|j: int| end <= j < n ==> is_space(s@[j]),
        decreases end,
    {
        end -= 1;
    }
    let ghost mid = s@.subrange(start as int, n as int);
    let ghost core = s@.subrange(start as int, end as int);
    proof {
        assert(trim_front(s@) == mid);
        lemma_trim_back_skip(mid, end - start);
        assert(mid.subrange(0, end - start) =~= core);
        assert(trim_back(core) == core);
        assert(trim_back(trim_front(s@)) == core);
    }
    let mut r = String::new();
    let mut i: usize = start;
    while i < end
        invariant
            n == s@.len(),
            start <= i <= end <= n,
            core == s@.subrange(start as int, end as int),
            r@ == lower_seq(core.subrange(0, i - start)),
        decreases end - i,
    {
        let c = lower_char_check(s.get_char(i));
        r.push(c);
        proof {
            assert(core.subrange(0, i + 1 - start) =~= core.subrange(0, i - start).push(
                s@[i as int],
            ));
            assert(lower_seq(core.subrange(0, i - start)).push(lower_char(s@[i as int]))
                =~= lower_seq(core.subrange(0, i + 1 - start)));
        }
        i += 1;
    }
    proof {
        assert(core.subrange(0, end - start) =~= core);
    }
    r
}

/// Lowercasing maps whitespace to whitespace and nothing to whitespace.
pub proof fn lemma_lower_char_space(c: char)
    ensures
        is_space(lower_char(c)) == is_space(c),
{
}

/// Lowercasing is idempotent character by character.
pub proof fn lemma_lower_char_idempotent(c: char)
    ensures
        lower_char(lower_char(c)) == lower_char(c),
{
}

/// A trimmed-then-lowercased command normalizes to itself: dispatching on
/// the normal form is the same as dispatching on the raw buffer.
pub proof fn lemma_normalized_idempotent(s: Seq<char>)
    ensures
        normalized(normalized(s)) == normalized(s),
{
    let u = trim_front(s);
    let t = trim_back(u);
    lemma_trim_front_head(s);
    lemma_trim_back_prefix(u);
    lemma_trim_back_last(u);
    let l = lower_seq(t);
    if l.len() > 0 {
        assert(!is_space(t[0])) by {
            assert(t[0] == u[0]);
        }
        assert(is_space(l[0]) == is_space(t[0])) by {
            lemma_lower_char_space(t[0]);
        }
        assert(is_space(l.last()) == is_space(t.last())) by {
            lemma_lower_char_space(t.last());
        }
    }
    assert(trim_front(l) == l);
    assert(trim_back(l) == l);
    assert(lower_seq(l) =~= l) by {
        assert forall|j: int| 0 <= j < l.len() implies lower_seq(l)[j] == l[j] by {
            lemma_lower_char_idempotent(t[j]);
        }
    }
}

/// What trim_front returns never starts with whitespace.
proof fn lemma_trim_front_head(s: Seq<char>)
    ensures
        trim_front(s).len() > 0 ==> !is_space(trim_front(s)[0]),
    decreases s.len(),
{
    if s.len() > 0 && is_space(s[0]) {
        lemma_trim_front_head(s.subrange(1, s.len() as int));
    }
}

/// What trim_back returns never ends with whitespace.
proof fn lemma_trim_back_last(s: Seq<char>)
    ensures
        trim_back(s).len() > 0 ==> !is_space(trim_back(s).last()),
    decreases s.len(),
{
    if s.len() > 0 && is_space(s.last()) {
        lemma_trim_back_last(s.drop_last());
    }
}

/// trim_back only drops characters from the end: the result is a prefix.
proof fn lemma_trim_back_prefix(s: Seq<char>)
    ensures
        trim_back(s).len() <= s.len(),
        forall|j: int| 0 <= j < trim_back(s).len() ==> trim_back(s)[j] == s[j],
    decreases s.len(),
{
    if s.len() > 0 && is_space(s.last()) {
        lemma_trim_back_prefix(s.drop_last());
        assert(trim_back(s) == trim_back(s.drop_last()));
        assert forall|j: int| 0 <= j < trim_back(s).len() implies trim_back(s)[j] == s[j] by {
            assert(trim_back(s)[j] == s.drop_last()[j]);
        }
    }
}

} // verus!
