//! Text utilities for the kernel control files the controller reads:
//! ASCII decimal numerals, whitespace tokenization, line splitting, and
//! (case-insensitive) substring search. Exec code works on `&str` and on
//! `&[char]`; contracts are stated over `Seq<char>`.
use vstd::prelude::*;
use vstd::string::StrSliceExecFns;

verus! {

// ---------- character classes ----------

/// ASCII decimal digit.
pub open spec fn is_digit(c: char) -> bool {
    48 <= c as u32 && c as u32 <= 57
}

/// ASCII whitespace as it occurs in kernel text interfaces:
/// space, tab, line feed, carriage return.
pub open spec fn is_space(c: char) -> bool {
    c == ' ' || c == '\t' || c == '\n' || c == '\r'
}

/// Code point of `c` with an ASCII capital letter folded to lower case.
pub open spec fn lower32(c: char) -> u32 {
    if 65 <= c as u32 && c as u32 <= 90 {
        (c as u32 + 32) as u32
    } else {
        c as u32
    }
}

// ---------- conversion ----------

/// The characters of `s`, as a vector.
pub fn chars_of(s: &str) -> (r: Vec<char>)
    ensures
        r@ == s@,
{
    let n = s.unicode_len();
    let mut r: Vec<char> = Vec::new();
    let mut i: usize = 0;
    while i < n
        invariant
            0 <= i <= n,
            n as nat == s@.len(),
            r@ == s@.subrange(0, i as int),
        decreases n - i,
    {
        let c = s.get_char(i);
        r.push(c);
        proof {
            assert(r@ =~= s@.subrange(0, i as int + 1));
        }
        i = i + 1;
    }
    proof {
        assert(s@.subrange(0, n as int) =~= s@);
    }
    r
}

// ---------- decimal numerals ----------

pub open spec fn all_digits(s: Seq<char>) -> bool {
    forall|i: int| 0 <= i < s.len() ==> is_digit(#[trigger] s[i])
}

/// The value of `s` read as a decimal numeral, most significant digit first.
pub open spec fn dec_val(s: Seq<char>) -> int
    decreases s.len(),
{
    if s.len() == 0 {
        0
    } else {
        dec_val(s.drop_last()) * 10 + (s.last() as u32 - 48)
    }
}

/// A digit string denoting a value representable in a `u64`.
pub open spec fn is_u64_numeral(s: Seq<char>) -> bool {
    s.len() > 0 && all_digits(s) && dec_val(s) <= u64::MAX
}

/// A digit string never denotes a negative value.
pub proof fn lemma_dec_val_nonneg(s: Seq<char>)
    requires
        all_digits(s),
    ensures
        dec_val(s) >= 0,
    decreases s.len(),
{
    if s.len() > 0 {
        assert(is_digit(s.last()));
        lemma_dec_val_nonneg(s.drop_last());
    }
}

/// Once a prefix of a numeral exceeds `u64::MAX`, every extension does too.
proof fn lemma_dec_val_grows(s: Seq<char>, t: Seq<char>)
    requires
        s.len() <= t.len(),
        t.subrange(0, s.len() as int) == s,
        dec_val(s) > u64::MAX,
    ensures
        dec_val(t) > u64::MAX,
    decreases t.len(),
{
    if t.len() > s.len() {
        let u = t.drop_last();
        assert(u.subrange(0, s.len() as int) =~= s);
        lemma_dec_val_grows(s, u);
        assert(dec_val(t) == dec_val(u) * 10 + (t.last() as u32 - 48));
    } else {
        assert(t =~= s);
    }
}

/// Parses an ASCII decimal numeral. Returns `None` on an empty string, on a
/// non-digit character, and on a value that does not fit in a `u64`.
pub fn parse_u64(b: &[char]) -> (r: Option<u64>)
    ensures
        r is Some <==> is_u64_numeral(b@),
        r matches Some(v) ==> v as int == dec_val(b@),
{
    if b.len() == 0 {
        return None;
    }
    let mut val: u64 = 0;
    let mut i: usize = 0;
    while i < b.len()
        invariant
            0 <= i <= b@.len(),
            all_digits(b@.subrange(0, i as int)),
            val as int == dec_val(b@.subrange(0, i as int)),
        decreases b@.len() - i,
    {
        let u = b[i] as u32;
        if u < 48 || u > 57 {
            assert(!is_digit(b@[i as int]));
            return None;
        }
        let d = (u - 48) as u64;
        if val > (u64::MAX - d) / 10 {
            proof {
                let p = b@.subrange(0, i as int + 1);
                assert(p.drop_last() =~= b@.subrange(0, i as int));
                assert(dec_val(p) == val * 10 + d);
                lemma_dec_val_grows(p, b@);
            }
            return None;
        }
        val = val * 10 + d;
        proof {
            let p = b@.subrange(0, i as int + 1);
            assert(p.drop_last() =~= b@.subrange(0, i as int));
        }
        i = i + 1;
    }
    proof {
        assert(b@.subrange(0, b@.len() as int) =~= b@);
    }
    Some(val)
}

// ---------- comparison ----------

/// Character-wise equality of two string slices.
pub fn str_eq(a: &str, b: &str) -> (r: bool)
    ensures
        r <==> a@ == b@,
{
    let alen = a.unicode_len();
    let blen = b.unicode_len();
    if alen != blen {
        return false;
    }
    let mut i: usize = 0;
    while i < alen
        invariant
            0 <= i <= alen,
            alen as nat == a@.len(),
            alen as nat == b@.len(),
            forall|j: int| 0 <= j < i ==> a@[j] == b@[j],
        decreases alen - i,
    {
        let ca = a.get_char(i);
        let cb = b.get_char(i);
        if ca != cb {
            return false;
        }
        i = i + 1;
    }
    proof {
        assert(a@ =~= b@);
    }
    true
}

/// Equality of a character slice and a string slice.
pub fn slice_eq_str(a: &[char], b: &str) -> (r: bool)
    ensures
        r <==> a@ == b@,
{
    let blen = b.unicode_len();
    if a.len() != blen {
        return false;
    }
    let mut i: usize = 0;
    while i < blen
        invariant
            0 <= i <= blen,
            blen as nat == a@.len(),
            blen as nat == b@.len(),
            forall|j: int| 0 <= j < i ==> a@[j] == b@[j],
        decreases blen - i,
    {
        let cb = b.get_char(i);
        if a[i] != cb {
            return false;
        }
        i = i + 1;
    }
    proof {
        assert(a@ =~= b@);
    }
    true
}

/// `p` is a prefix of `b`.
pub open spec fn has_prefix(b: Seq<char>, p: Seq<char>) -> bool {
    p.len() <= b.len() && b.subrange(0, p.len() as int) == p
}

/// Whether the string `s` starts with `p`.
pub fn str_starts_with(s: &str, p: &str) -> (r: bool)
    ensures
        r <==> has_prefix(s@, p@),
{
    let plen = p.unicode_len();
    let slen = s.unicode_len();
    if plen > slen {
        return false;
    }
    let mut i: usize = 0;
    while i < plen
        invariant
            0 <= i <= plen,
            plen as nat == p@.len(),
            p@.len() <= s@.len(),
            forall|j: int| 0 <= j < i ==> s@[j] == p@[j],
        decreases plen - i,
    {
        let cs = s.get_char(i);
        let cp = p.get_char(i);
        if cs != cp {
            assert(s@.subrange(0, p@.len() as int)[i as int] != p@[i as int]);
            return false;
        }
        i = i + 1;
    }
    proof {
        assert(s@.subrange(0, p@.len() as int) =~= p@);
    }
    true
}

/// Whether the character slice `b` starts with the string `p`.
pub fn slice_starts_with(b: &[char], p: &str) -> (r: bool)
    ensures
        r <==> has_prefix(b@, p@),
{
    let plen = p.unicode_len();
    if plen > b.len() {
        return false;
    }
    let mut i: usize = 0;
    while i < plen
        invariant
            0 <= i <= plen,
            plen as nat == p@.len(),
            p@.len() <= b@.len(),
            forall|j: int| 0 <= j < i ==> b@[j] == p@[j],
        decreases plen - i,
    {
        let cp = p.get_char(i);
        if b[i] != cp {
            assert(b@.subrange(0, p@.len() as int)[i as int] != p@[i as int]);
            return false;
        }
        i = i + 1;
    }
    proof {
        assert(b@.subrange(0, p@.len() as int) =~= p@);
    }
    true
}

// ---------- substring search ----------

/// `n` occurs in `h` starting at index `i`.
pub open spec fn match_at(h: Seq<char>, n: Seq<char>, i: int) -> bool {
    0 <= i && i + n.len() <= h.len() && (forall|j: int| 0 <= j < n.len() ==> h[i + j] == n[j])
}

/// `n` occurs somewhere in `h`.
pub open spec fn contains_seq(h: Seq<char>, n: Seq<char>) -> bool {
    exists|i: int| match_at(h, n, i)
}

/// `n` occurs in `h` at index `i`, folding ASCII capitals to lower case.
pub open spec fn ci_match_at(h: Seq<char>, n: Seq<char>, i: int) -> bool {
    0 <= i && i + n.len() <= h.len() && (forall|j: int|
        0 <= j < n.len() ==> lower32(h[i + j]) == lower32(n[j]))
}

/// `n` occurs somewhere in `h`, ignoring ASCII case.
pub open spec fn contains_seq_ci(h: Seq<char>, n: Seq<char>) -> bool {
    exists|i: int| ci_match_at(h, n, i)
}

fn match_at_exec(h: &[char], n: &[char], i: usize) -> (r: bool)
    requires
        i + n@.len() <= h@.len(),
    ensures
        r <==> match_at(h@, n@, i as int),
{
    let hl = h.len();
    let mut j: usize = 0;
    while j < n.len()
        invariant
            i + n@.len() <= h@.len(),
            h@.len() == hl,
            0 <= j <= n@.len(),
            forall|k: int| 0 <= k < j ==> h@[i + k] == n@[k],
        decreases n@.len() - j,
    {
        if h[i + j] != n[j] {
            return false;
        }
        j = j + 1;
    }
    true
}

fn lower_exec(c: char) -> (r: u32)
    ensures
        r == lower32(c),
{
    let u = c as u32;
    if 65 <= u && u <= 90 {
        u + 32
    } else {
        u
    }
}

fn ci_match_at_exec(h: &[char], n: &[char], i: usize) -> (r: bool)
    requires
        i + n@.len() <= h@.len(),
    ensures
        r <==> ci_match_at(h@, n@, i as int),
{
    let hl = h.len();
    let mut j: usize = 0;
    while j < n.len()
        invariant
            i + n@.len() <= h@.len(),
            h@.len() == hl,
            0 <= j <= n@.len(),
            forall|k: int| 0 <= k < j ==> lower32(h@[i + k]) == lower32(n@[k]),
        decreases n@.len() - j,
    {
        if lower_exec(h[i + j]) != lower_exec(n[j]) {
            return false;
        }
        j = j + 1;
    }
    true
}

/// Naive substring search of `n` in `h`.
pub fn contains_chars(h: &[char], n: &str) -> (r: bool)
    ensures
        r <==> contains_seq(h@, n@),
{
    let nv = chars_of(n);
    if nv.len() > h.len() {
        return false;
    }
    if nv.len() == 0 {
        assert(match_at(h@, n@, 0));
        return true;
    }
    let hl = h.len();
    let last = hl - nv.len();
    let mut i: usize = 0;
    while i <= last
        invariant
            nv@ == n@,
            1 <= nv@.len() <= h@.len(),
            h@.len() == hl,
            last == h@.len() - nv@.len(),
            0 <= i <= last + 1,
            forall|k: int| 0 <= k < i ==> !match_at(h@, nv@, k),
        decreases last + 1 - i,
    {
        if match_at_exec(h, nv.as_slice(), i) {
            return true;
        }
        i = i + 1;
    }
    false
}

/// Naive substring search of `n` in `h`, ignoring ASCII case.
pub fn contains_chars_ci(h: &[char], n: &str) -> (r: bool)
    ensures
        r <==> contains_seq_ci(h@, n@),
{
    let nv = chars_of(n);
    if nv.len() > h.len() {
        return false;
    }
    if nv.len() == 0 {
        assert(ci_match_at(h@, n@, 0));
        return true;
    }
    let hl = h.len();
    let last = hl - nv.len();
    let mut i: usize = 0;
    while i <= last
        invariant
            nv@ == n@,
            1 <= nv@.len() <= h@.len(),
            h@.len() == hl,
            last == h@.len() - nv@.len(),
            0 <= i <= last + 1,
            forall|k: int| 0 <= k < i ==> !ci_match_at(h@, nv@, k),
        decreases last + 1 - i,
    {
        if ci_match_at_exec(h, nv.as_slice(), i) {
            return true;
        }
        i = i + 1;
    }
    false
}

// ---------- line splitting ----------

/// Splitting at line feeds, with `cur` the partial line already read.
/// A final line is reported only if it is nonempty, as `str::lines` does.
pub open spec fn lines_acc(b: Seq<char>, cur: Seq<char>) -> Seq<Seq<char>>
    decreases b.len(),
{
    if b.len() == 0 {
        if cur.len() == 0 {
            Seq::empty()
        } else {
            seq![cur]
        }
    } else if b[0] == '\n' {
        seq![cur] + lines_acc(b.drop_first(), Seq::empty())
    } else {
        lines_acc(b.drop_first(), cur.push(b[0]))
    }
}

/// The lines of `b`, split at line feeds.
pub open spec fn spec_lines(b: Seq<char>) -> Seq<Seq<char>> {
    lines_acc(b, Seq::empty())
}

/// Splits `b` into lines at line feeds. A trailing line feed does not
/// produce an empty final line.
pub fn split_lines(b: &[char]) -> (r: Vec<Vec<char>>)
    ensures
        r.deep_view() == spec_lines(b@),
{
    let mut acc: Vec<Vec<char>> = Vec::new();
    let mut cur: Vec<char> = Vec::new();
    let mut i: usize = 0;
    proof {
        assert(b@.skip(0) =~= b@);
        assert(acc.deep_view() + lines_acc(b@.skip(0), cur@) =~~= spec_lines(b@));
    }
    while i < b.len()
        invariant
            0 <= i <= b@.len(),
            spec_lines(b@) == acc.deep_view() + lines_acc(b@.skip(i as int), cur@),
        decreases b@.len() - i,
    {
        proof {
            assert(b@.skip(i as int).drop_first() =~= b@.skip(i as int + 1));
        }
        let c = b[i];
        if c == '\n' {
            let done = cur;
            cur = Vec::new();
            let ghost prev = acc.deep_view();
            let ghost dv = done@;
            acc.push(done);
            proof {
                assert(acc.deep_view() =~~= prev + seq![dv]);
                assert((prev + seq![dv]) + lines_acc(b@.skip(i as int + 1), Seq::empty())
                    =~~= prev + (seq![dv] + lines_acc(b@.skip(i as int + 1), Seq::empty())));
            }
        } else {
            cur.push(c);
        }
        i = i + 1;
    }
    proof {
        assert(b@.skip(i as int) =~= Seq::<char>::empty());
    }
    if cur.len() > 0 {
        let ghost prev = acc.deep_view();
        let ghost cv = cur@;
        acc.push(cur);
        proof {
            assert(acc.deep_view() =~~= prev + seq![cv]);
        }
    } else {
        proof {
            assert(acc.deep_view() + Seq::<Seq<char>>::empty() =~= acc.deep_view());
        }
    }
    proof {
        assert(acc.deep_view() =~~= spec_lines(b@));
    }
    acc
}

// ---------- whitespace tokenization ----------

/// Whitespace tokenization, with `cur` the partial token already read.
pub open spec fn fields_acc(b: Seq<char>, cur: Seq<char>) -> Seq<Seq<char>>
    decreases b.len(),
{
    if b.len() == 0 {
        if cur.len() == 0 {
            Seq::empty()
        } else {
            seq![cur]
        }
    } else if is_space(b[0]) {
        if cur.len() == 0 {
            fields_acc(b.drop_first(), Seq::empty())
        } else {
            seq![cur] + fields_acc(b.drop_first(), Seq::empty())
        }
    } else {
        fields_acc(b.drop_first(), cur.push(b[0]))
    }
}

/// The maximal runs of non-whitespace characters of `b`, in order.
pub open spec fn spec_fields(b: Seq<char>) -> Seq<Seq<char>> {
    fields_acc(b, Seq::empty())
}

/// Splits `b` into whitespace-separated fields, as `str::split_whitespace`
/// does on ASCII text.
pub fn split_fields(b: &[char]) -> (r: Vec<Vec<char>>)
    ensures
        r.deep_view() == spec_fields(b@),
{
    let mut acc: Vec<Vec<char>> = Vec::new();
    let mut cur: Vec<char> = Vec::new();
    let mut i: usize = 0;
    proof {
        assert(b@.skip(0) =~= b@);
        assert(acc.deep_view() + fields_acc(b@.skip(0), cur@) =~~= spec_fields(b@));
    }
    while i < b.len()
        invariant
            0 <= i <= b@.len(),
            spec_fields(b@) == acc.deep_view() + fields_acc(b@.skip(i as int), cur@),
        decreases b@.len() - i,
    {
        proof {
            assert(b@.skip(i as int).drop_first() =~= b@.skip(i as int + 1));
        }
        let c = b[i];
        if c == ' ' || c == '\t' || c == '\n' || c == '\r' {
            if cur.len() > 0 {
                let done = cur;
                cur = Vec::new();
                let ghost prev = acc.deep_view();
                let ghost dv = done@;
                acc.push(done);
                proof {
                    assert(acc.deep_view() =~~= prev + seq![dv]);
                    assert((prev + seq![dv]) + fields_acc(b@.skip(i as int + 1), Seq::empty())
                        =~~= prev + (seq![dv] + fields_acc(b@.skip(i as int + 1), Seq::empty())));
                }
            } else {
                proof {
                    assert(cur@ =~= Seq::<char>::empty());
                }
            }
        } else {
            cur.push(c);
        }
        i = i + 1;
    }
    proof {
        assert(b@.skip(i as int) =~= Seq::<char>::empty());
    }
    if cur.len() > 0 {
        let ghost prev = acc.deep_view();
        let ghost cv = cur@;
        acc.push(cur);
        proof {
            assert(acc.deep_view() =~~= prev + seq![cv]);
        }
    } else {
        proof {
            assert(acc.deep_view() + Seq::<Seq<char>>::empty() =~= acc.deep_view());
        }
    }
    proof {
        assert(acc.deep_view() =~~= spec_fields(b@));
    }
    acc
}

} // verus!
