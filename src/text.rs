use vstd::prelude::*;

verus! {

/// A line without the carriage return that ends it, if any.
pub open spec fn strip_cr(line: Seq<char>) -> Seq<char> {
    if line.len() > 0 && line.last() == '\r' {
        line.drop_last()
    } else {
        line
    }
}

/// Reading `s` from the left: the lines already ended by a newline, and the
/// characters read since the last newline.
pub open spec fn line_scan(s: Seq<char>) -> (Seq<Seq<char>>, Seq<char>)
    decreases s.len(),
{
    if s.len() == 0 {
        (seq![], seq![])
    } else {
        let (done, cur) = line_scan(s.drop_last());
        if s.last() == '\n' {
            (done.push(strip_cr(cur)), seq![])
        } else {
            (done, cur.push(s.last()))
        }
    }
}

/// The lines of a text: split at each `\n` (a `\r` just before it is dropped),
/// with the text after the last newline as a final line when it is not empty.
pub open spec fn lines_of(s: Seq<char>) -> Seq<Seq<char>> {
    let (done, cur) = line_scan(s);
    if cur.len() == 0 {
        done
    } else {
        done.push(cur)
    }
}

/// Appends one character to a string.
/// Relies on `String::push`: the character is added at the end.
#[verifier::external_body]
pub(crate) fn push_char(s: &mut String, c: char)
    ensures
        final(s)@ == old(s)@.push(c),
{
    s.push(c)
}

/// The characters of a string slice, in order.
pub fn chars_of(s: &str) -> (r: Vec<char>)
    ensures
        r@ == s@,
{
    let mut r: Vec<char> = Vec::new();
    for c in it: s.chars()
        invariant
            r@ == it.seq().take(it.index() as int),
    {
        r.push(c);
    }
    r
}

/// Appends the characters of `cs` from index `from` on.
pub fn push_chars(s: &mut String, cs: &[char], from: usize)
    requires
        from <= cs@.len(),
    ensures
        final(s)@ == old(s)@ + cs@.skip(from as int),
{
    let n = cs.len();
    let mut i = from;
    while i < n
        invariant
            n == cs@.len(),
            from <= i <= n,
            s@ == old(s)@ + cs@.subrange(from as int, i as int),
        decreases n - i,
    {
        push_char(s, cs[i]);
        assert(cs@.subrange(from as int, i + 1) == cs@.subrange(from as int, i as int).push(
            cs@[i as int],
        ));
        i = i + 1;
    }
    assert(cs@.subrange(from as int, n as int) == cs@.skip(from as int));
}

/// A string holding the given characters.
pub fn string_of(cs: &[char]) -> (r: String)
    ensures
        r@ == cs@,
{
    let mut r = String::new();
    let n = cs.len();
    for i in 0..n
        invariant
            n == cs@.len(),
            r@ == cs@.take(i as int),
    {
        push_char(&mut r, cs[i]);
        assert(cs@.take(i + 1) == cs@.take(i as int).push(cs@[i as int]));
    }
    assert(cs@.take(n as int) == cs@);
    r
}

proof fn lemma_scan_step(s: Seq<char>, i: int)
    requires
        0 <= i < s.len(),
    ensures
        s.take(i + 1).drop_last() == s.take(i),
        s.take(i + 1).last() == s[i],
{
    assert(s.take(i + 1).drop_last() =~= s.take(i));
}

/// Splits character data into lines, as `lines_of` describes.
pub fn split_line_chars(cs: &Vec<char>) -> (r: Vec<Vec<char>>)
    ensures
        r@.len() == lines_of(cs@).len(),
        forall|k: int| 0 <= k < r@.len() ==> #[trigger] r@[k]@ == lines_of(cs@)[k],
{
    let mut done: Vec<Vec<char>> = Vec::new();
    let mut cur: Vec<char> = Vec::new();
    let n = cs.len();
    for i in 0..n
        invariant
            n == cs@.len(),
            done@.len() == line_scan(cs@.take(i as int)).0.len(),
            forall|k: int| 0 <= k < done@.len() ==> #[trigger] done@[k]@ == line_scan(
                cs@.take(i as int),
            ).0[k],
            cur@ == line_scan(cs@.take(i as int)).1,
    {
        proof {
            lemma_scan_step(cs@, i as int);
        }
        let c = cs[i];
        if c == '\n' {
            let len = cur.len();
            if len > 0 && cur[len - 1] == '\r' {
                cur.pop();
            }
            let ghost prev = done@;
            done.push(cur);
            cur = Vec::new();
            assert forall|k: int| 0 <= k < done@.len() implies #[trigger] done@[k]@ == line_scan(
                cs@.take(i + 1),
            ).0[k] by {
                if k < prev.len() {
                    assert(done@[k] == prev[k]);
                }
            }
        } else {
            cur.push(c);
        }
    }
    assert(cs@.take(n as int) == cs@);
    if cur.len() > 0 {
        let ghost prev = done@;
        done.push(cur);
        assert forall|k: int| 0 <= k < done@.len() implies #[trigger] done@[k]@ == lines_of(
            cs@,
        )[k] by {
            if k < prev.len() {
                assert(done@[k] == prev[k]);
            }
        }
    }
    done
}

/// Splits a text into its lines, as `lines_of` describes.
pub fn split_lines(s: &str) -> (r: Vec<String>)
    ensures
        r@.len() == lines_of(s@).len(),
        forall|k: int| 0 <= k < r@.len() ==> #[trigger] r@[k]@ == lines_of(s@)[k],
{
    let cs = chars_of(s);
    let parts = split_line_chars(&cs);
    let mut r: Vec<String> = Vec::new();
    let n = parts.len();
    for i in 0..n
        invariant
            n == parts@.len(),
            n == lines_of(s@).len(),
            cs@ == s@,
            forall|k: int| 0 <= k < n ==> #[trigger] parts@[k]@ == lines_of(s@)[k],
            r@.len() == i,
            forall|k: int| 0 <= k < i ==> #[trigger] r@[k]@ == lines_of(s@)[k],
    {
        let line = string_of(parts[i].as_slice());
        r.push(line);
    }
    r
}

/// The number of lines of a text, as `lines_of` describes them.
pub fn count_lines(s: &str) -> (r: usize)
    ensures
        r == lines_of(s@).len(),
{
    let cs = chars_of(s);
    let n = cs.len();
    let mut count: usize = 0;
    let mut open = false;
    for i in 0..n
        invariant
            n == cs@.len(),
            cs@ == s@,
            count <= i,
            open ==> count < i,
            count == line_scan(cs@.take(i as int)).0.len(),
            open == (line_scan(cs@.take(i as int)).1.len() > 0),
    {
        proof {
            lemma_scan_step(cs@, i as int);
        }
        if cs[i] == '\n' {
            count = count + 1;
            open = false;
        } else {
            open = true;
        }
    }
    assert(cs@.take(n as int) == cs@);
    if open {
        count + 1
    } else {
        count
    }
}

/// `p` is a prefix of `s`.
pub open spec fn has_prefix(s: Seq<char>, p: Seq<char>) -> bool {
    p.len() <= s.len() && s.take(p.len() as int) == p
}

/// Whether `s` starts with `p`.
pub fn starts_with(s: &str, p: &str) -> (r: bool)
    ensures
        r == has_prefix(s@, p@),
{
    let sc = chars_of(s);
    let pc = chars_of(p);
    if pc.len() > sc.len() {
        return false;
    }
    let n = pc.len();
    for i in 0..n
        invariant
            n == pc@.len(),
            n <= sc@.len(),
            sc@ == s@,
            pc@ == p@,
            sc@.take(i as int) == pc@.take(i as int),
    {
        if sc[i] != pc[i] {
            assert(sc@.take(n as int)[i as int] != pc@[i as int]);
            return false;
        }
        assert(sc@.take(i + 1) == sc@.take(i as int).push(sc@[i as int]));
        assert(pc@.take(i + 1) == pc@.take(i as int).push(pc@[i as int]));
    }
    assert(pc@.take(n as int) == pc@);
    true
}

/// Whether `a` and `b` hold the same characters.
pub fn same_text(a: &str, b: &str) -> (r: bool)
    ensures
        r == (a@ == b@),
{
    if a.unicode_len() != b.unicode_len() {
        return false;
    }
    let r = starts_with(a, b);
    assert(a@.take(a@.len() as int) =~= a@);
    r
}

} // verus!
