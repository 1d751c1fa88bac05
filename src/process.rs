//! Recognising running command-line clients in the output of the system's
//! process listings (`pgrep -x codex`, `ps -eo pid,comm`, and `tasklist` in
//! CSV form). Whitespace means ASCII whitespace, and letters are compared
//! after ASCII lower-casing.
use vstd::prelude::*;

verus! {

/// What the interface is told about running clients.
#[derive(Debug, Clone)]
pub struct CodexProcessInfo {
    pub count: usize,
    /// Switching is allowed only while no client runs.
    pub can_switch: bool,
    pub pids: Vec<u32>,
}

/// Summarises the running clients.
pub fn check_codex_processes(pids: Vec<u32>) -> (r: CodexProcessInfo)
    ensures
        r.pids@ == pids@,
        r.count == pids@.len(),
        r.can_switch == (pids@.len() == 0),
{
    let count = pids.len();
    CodexProcessInfo { count, can_switch: count == 0, pids }
}

pub open spec fn is_ws(c: u8) -> bool {
    c == 32 || (9 <= c && c <= 13)
}

pub open spec fn is_digit(c: u8) -> bool {
    48 <= c && c <= 57
}

/// The value of a string of decimal digits.
pub open spec fn digits_value(s: Seq<u8>) -> nat
    decreases s.len(),
{
    if s.len() == 0 {
        0
    } else {
        digits_value(s.drop_last()) * 10 + (s.last() - 48) as nat
    }
}

/// A number's text without its optional leading `+`.
pub open spec fn unsigned_part(s: Seq<u8>) -> Seq<u8> {
    if s.len() > 0 && s[0] == 43 {
        s.drop_first()
    } else {
        s
    }
}

pub open spec fn all_digits(d: Seq<u8>) -> bool {
    forall|i: int| 0 <= i < d.len() ==> is_digit(#[trigger] d[i])
}

/// An unsigned 32-bit number in decimal: an optional `+`, then at least
/// one digit, and a value that fits.
pub open spec fn parse_u32_of(s: Seq<u8>) -> Option<u32> {
    let d = unsigned_part(s);
    if d.len() == 0 || !all_digits(d) || digits_value(d) > u32::MAX {
        None
    } else {
        Some(digits_value(d) as u32)
    }
}

/// Reads an unsigned 32-bit number in decimal.
pub fn parse_u32(s: &[u8]) -> (r: Option<u32>)
    ensures
        r == parse_u32_of(s@),
{
    let start: usize = if s.len() > 0 && s[0] == 43 {
        1
    } else {
        0
    };
    let ghost d = unsigned_part(s@);
    assert(d =~= s@.skip(start as int));
    if start == s.len() {
        return None;
    }
    let mut value: u64 = 0;
    let mut over = false;
    let mut i: usize = start;
    while i < s.len()
        invariant
            start <= i <= s@.len(),
            d == unsigned_part(s@),
            d =~= s@.skip(start as int),
            forall|k: int| start <= k < i ==> is_digit(#[trigger] s@[k]),
            !over ==> value == digits_value(d.take(i - start)) && value <= u32::MAX,
            over ==> digits_value(d.take(i - start)) > u32::MAX,
        decreases s@.len() - i,
    {
        let c = s[i];
        if c < 48 || c > 57 {
            assert(d[i - start] == s@[i as int]);
            assert(!is_digit(d[i - start]));
            return None;
        }
        let ghost prev = digits_value(d.take(i - start));
        assert(d.take(i - start + 1).drop_last() =~= d.take(i - start));
        assert(digits_value(d.take(i - start + 1)) == prev * 10 + (c - 48) as nat);
        if !over {
            let next: u64 = value * 10 + (c - 48) as u64;
            if next > 4294967295 {
                over = true;
            } else {
                value = next;
            }
        } else {
            assert(prev * 10 + (c - 48) as nat > u32::MAX) by (nonlinear_arith)
                requires
                    prev > u32::MAX,
            ;
        }
        i = i + 1;
    }
    assert(d.take(i - start) =~= d);
    assert forall|k: int| 0 <= k < d.len() implies is_digit(#[trigger] d[k]) by {
        assert(d[k] == s@[k + start]);
    }
    if over {
        None
    } else {
        Some(value as u32)
    }
}

/// A text without its leading whitespace.
pub open spec fn trim_start(s: Seq<u8>) -> Seq<u8>
    decreases s.len(),
{
    if s.len() > 0 && is_ws(s[0]) {
        trim_start(s.drop_first())
    } else {
        s
    }
}

/// A text without its trailing whitespace.
pub open spec fn trim_end(s: Seq<u8>) -> Seq<u8>
    decreases s.len(),
{
    if s.len() > 0 && is_ws(s.last()) {
        trim_end(s.drop_last())
    } else {
        s
    }
}

pub open spec fn trim(s: Seq<u8>) -> Seq<u8> {
    trim_end(trim_start(s))
}

/// The bounds of the trimmed part of `s[lo..hi]`.
fn trim_bounds(s: &[u8], lo: usize, hi: usize) -> (r: (usize, usize))
    requires
        lo <= hi <= s@.len(),
    ensures
        lo <= r.0 <= r.1 <= hi,
        s@.subrange(r.0 as int, r.1 as int) == trim(s@.subrange(lo as int, hi as int)),
{
    let mut a = lo;
    while a < hi && (s[a] == 32 || (9 <= s[a] && s[a] <= 13))
        invariant
            lo <= a <= hi <= s@.len(),
            trim_start(s@.subrange(lo as int, hi as int)) == trim_start(s@.subrange(a as int, hi as int)),
        decreases hi - a,
    {
        assert(s@.subrange(a as int, hi as int).drop_first() =~= s@.subrange(a + 1, hi as int));
        a = a + 1;
    }
    let mut z = hi;
    while z > a && (s[z - 1] == 32 || (9 <= s[z - 1] && s[z - 1] <= 13))
        invariant
            lo <= a <= z <= hi <= s@.len(),
            trim_start(s@.subrange(lo as int, hi as int)) == s@.subrange(a as int, hi as int),
            trim_end(s@.subrange(a as int, hi as int)) == trim_end(s@.subrange(a as int, z as int)),
        decreases z - a,
    {
        assert(s@.subrange(a as int, z as int).drop_last() =~= s@.subrange(a as int, z - 1));
        z = z - 1;
    }
    (a, z)
}

/// The pieces of a text between separators, as `split` gives them.
pub open spec fn segments(s: Seq<u8>, sep: u8) -> Seq<Seq<u8>>
    decreases s.len(),
{
    if s.len() == 0 {
        seq![Seq::empty()]
    } else {
        let t = segments(s.drop_last(), sep);
        if s.last() == sep {
            t.push(Seq::empty())
        } else {
            t.update(t.len() - 1, t.last().push(s.last()))
        }
    }
}

proof fn lemma_segments_nonempty(s: Seq<u8>, sep: u8)
    ensures
        segments(s, sep).len() >= 1,
    decreases s.len(),
{
    if s.len() > 0 {
        lemma_segments_nonempty(s.drop_last(), sep);
    }
}

/// A line without the carriage return of a `\r\n` ending.
pub open spec fn strip_cr(x: Seq<u8>) -> Seq<u8> {
    if x.len() > 0 && x.last() == 13 {
        x.drop_last()
    } else {
        x
    }
}

/// The lines of a text, as `lines` gives them: split at `\n`, a `\r`
/// before it dropped, and no empty line after a final line ending.
pub open spec fn lines_of(s: Seq<u8>) -> Seq<Seq<u8>> {
    let g = segments(s, 10);
    let ended = g.drop_last().map_values(|x: Seq<u8>| strip_cr(x));
    if g.last().len() == 0 {
        ended
    } else {
        ended.push(g.last())
    }
}

/// The bounds of each line of a text.
fn line_bounds(b: &[u8]) -> (r: Vec<(usize, usize)>)
    ensures
        r@.len() == lines_of(b@).len(),
        forall|k: int| 0 <= k < r@.len() ==> (#[trigger] r@[k]).0 <= r@[k].1 <= b@.len(),
        forall|k: int|
            0 <= k < r@.len() ==> b@.subrange(r@[k].0 as int, r@[k].1 as int)
                == #[trigger] lines_of(b@)[k],
{
    let mut r: Vec<(usize, usize)> = Vec::new();
    let mut start: usize = 0;
    let mut i: usize = 0;
    proof {
        lemma_segments_nonempty(b@.take(0), 10);
        assert(b@.take(0) =~= Seq::<u8>::empty());
    }
    while i < b.len()
        invariant
            start <= i <= b@.len(),
            segments(b@.take(i as int), 10).len() == r@.len() + 1,
            segments(b@.take(i as int), 10).last() == b@.subrange(start as int, i as int),
            forall|k: int| 0 <= k < r@.len() ==> (#[trigger] r@[k]).0 <= r@[k].1 <= start,
            forall|k: int|
                0 <= k < r@.len() ==> b@.subrange(r@[k].0 as int, r@[k].1 as int) == strip_cr(
                    #[trigger] segments(b@.take(i as int), 10)[k],
                ),
        decreases b@.len() - i,
    {
        let ghost g = segments(b@.take(i as int), 10);
        assert(b@.take(i + 1).drop_last() =~= b@.take(i as int));
        if b[i] == 10 {
            let end: usize = if i > start && b[i - 1] == 13 {
                i - 1
            } else {
                i
            };
            assert(b@.subrange(start as int, end as int) =~= strip_cr(g.last()));
            r.push((start, end));
            start = i + 1;
            assert(b@.subrange(start as int, (i + 1) as int) =~= Seq::<u8>::empty());
        } else {
            assert(b@.subrange(start as int, (i + 1) as int) =~= g.last().push(b@[i as int]));
        }
        i = i + 1;
        proof {
            let g2 = segments(b@.take(i as int), 10);
            assert(b@.take(i as int).drop_last() =~= b@.take(i - 1));
            assert forall|k: int| 0 <= k < r@.len() implies b@.subrange(
                r@[k].0 as int,
                r@[k].1 as int,
            ) == strip_cr(#[trigger] g2[k]) by {
                if k < g.len() - 1 {
                    assert(g2[k] == g[k]);
                }
            }
        }
    }
    let ghost g = segments(b@, 10);
    assert(b@.take(i as int) =~= b@);
    if start < b.len() {
        r.push((start, b.len()));
    }
    proof {
        let ended = g.drop_last().map_values(|x: Seq<u8>| strip_cr(x));
        assert forall|k: int| 0 <= k < r@.len() implies b@.subrange(
            r@[k].0 as int,
            r@[k].1 as int,
        ) == #[trigger] lines_of(b@)[k] by {
            if k < ended.len() {
                assert(lines_of(b@)[k] == ended[k]);
                assert(ended[k] == strip_cr(g[k]));
            }
        }
    }
    r
}

/// What one line of `pgrep` output adds: its number, unless it is this
/// process's own.
pub open spec fn pgrep_step(p: Seq<u32>, line: Seq<u8>, own: u32) -> Seq<u32> {
    match parse_u32_of(trim(line)) {
        Some(pid) => if pid != own {
            p.push(pid)
        } else {
            p
        },
        None => p,
    }
}

pub open spec fn pgrep_fold(p: Seq<u32>, ls: Seq<Seq<u8>>, own: u32) -> Seq<u32>
    decreases ls.len(),
{
    if ls.len() == 0 {
        p
    } else {
        pgrep_step(pgrep_fold(p, ls.drop_last(), own), ls.last(), own)
    }
}

/// Adds the process ids that `pgrep` printed, one per line, except this
/// process's own.
pub fn add_pgrep_pids(out: &str, own_pid: u32, pids: &mut Vec<u32>)
    ensures
        final(pids)@ == pgrep_fold(old(pids)@, lines_of(vstd::utf8::encode_utf8(out@)), own_pid),
{
    let b = out.as_bytes();
    let lines = line_bounds(b);
    let ghost ls = lines_of(b@);
    let ghost start_pids = pids@;
    assert(pids@ == pgrep_fold(start_pids, ls.take(0), own_pid));
    let mut k: usize = 0;
    while k < lines.len()
        invariant
            k <= lines@.len() == ls.len(),
            ls == lines_of(b@),
            forall|j: int| 0 <= j < lines@.len() ==> (#[trigger] lines@[j]).0 <= lines@[j].1 <= b@.len(),
            forall|j: int|
                0 <= j < lines@.len() ==> b@.subrange(lines@[j].0 as int, lines@[j].1 as int)
                    == #[trigger] lines_of(b@)[j],
            pids@ == pgrep_fold(start_pids, ls.take(k as int), own_pid),
        decreases lines@.len() - k,
    {
        assert(ls.take(k + 1).drop_last() =~= ls.take(k as int));
        let (lo, hi) = lines[k];
        let (a, z) = trim_bounds(b, lo, hi);
        let slice = vstd::slice::slice_subrange(b, a, z);
        if let Some(pid) = parse_u32(slice) {
            if pid != own_pid {
                pids.push(pid);
            }
        }
        k = k + 1;
    }
    assert(ls.take(k as int) =~= ls);
}

/// The whitespace-separated words of a text, as `split_whitespace` gives
/// them.
pub open spec fn tokens_of(s: Seq<u8>) -> Seq<Seq<u8>>
    decreases s.len(),
{
    if s.len() == 0 {
        Seq::empty()
    } else {
        let t = tokens_of(s.drop_last());
        if is_ws(s.last()) {
            t
        } else if s.len() >= 2 && !is_ws(s[s.len() - 2]) {
            t.update(t.len() - 1, t.last().push(s.last()))
        } else {
            t.push(seq![s.last()])
        }
    }
}

/// The bounds of each word of `b[lo..hi]`.
fn token_bounds(b: &[u8], lo: usize, hi: usize) -> (r: Vec<(usize, usize)>)
    requires
        lo <= hi <= b@.len(),
    ensures
        r@.len() == tokens_of(b@.subrange(lo as int, hi as int)).len(),
        forall|k: int| 0 <= k < r@.len() ==> lo <= (#[trigger] r@[k]).0 <= r@[k].1 <= hi,
        forall|k: int|
            0 <= k < r@.len() ==> b@.subrange(r@[k].0 as int, r@[k].1 as int)
                == #[trigger] tokens_of(b@.subrange(lo as int, hi as int))[k],
{
    let mut r: Vec<(usize, usize)> = Vec::new();
    let mut i: usize = lo;
    assert(b@.subrange(lo as int, lo as int) =~= Seq::<u8>::empty());
    while i < hi
        invariant
            lo <= i <= hi <= b@.len(),
            r@.len() == tokens_of(b@.subrange(lo as int, i as int)).len(),
            forall|k: int| 0 <= k < r@.len() ==> lo <= (#[trigger] r@[k]).0 <= r@[k].1 <= i,
            forall|k: int|
                0 <= k < r@.len() ==> b@.subrange(r@[k].0 as int, r@[k].1 as int)
                    == #[trigger] tokens_of(b@.subrange(lo as int, i as int))[k],
            i > lo && !is_ws(b@[i - 1]) ==> r@.len() > 0 && r@.last().1 == i,
        decreases hi - i,
    {
        let ghost t = tokens_of(b@.subrange(lo as int, i as int));
        let ghost sub = b@.subrange(lo as int, i + 1);
        assert(sub.drop_last() =~= b@.subrange(lo as int, i as int));
        let c = b[i];
        if c == 32 || (9 <= c && c <= 13) {
        } else if i > lo && !(b[i - 1] == 32 || (9 <= b[i - 1] && b[i - 1] <= 13)) {
            assert(sub[sub.len() - 2] == b@[i - 1]);
            let last = r.pop().unwrap();
            r.push((last.0, i + 1));
            assert(b@.subrange(last.0 as int, i + 1) =~= t.last().push(c));
        } else {
            r.push((i, i + 1));
            assert(b@.subrange(i as int, i + 1) =~= seq![c]);
        }
        i = i + 1;
        proof {
            let t2 = tokens_of(b@.subrange(lo as int, i as int));
            assert forall|k: int| 0 <= k < r@.len() implies b@.subrange(
                r@[k].0 as int,
                r@[k].1 as int,
            ) == #[trigger] t2[k] by {
                if k < t.len() && !(k == t.len() - 1 && !is_ws(c) && i - 1 > lo && !is_ws(
                    b@[i - 2],
                )) {
                    assert(t2[k] == t[k]);
                }
            }
        }
    }
    r
}

/// Words joined with single spaces.
pub open spec fn join_space(ts: Seq<Seq<u8>>) -> Seq<u8>
    decreases ts.len(),
{
    if ts.len() == 0 {
        Seq::empty()
    } else if ts.len() == 1 {
        ts[0]
    } else {
        join_space(ts.drop_last()) + seq![32u8] + ts.last()
    }
}

pub open spec fn starts_with(s: Seq<u8>, p: Seq<u8>) -> bool {
    p.len() <= s.len() && s.take(p.len() as int) == p
}

pub open spec fn ends_with(s: Seq<u8>, p: Seq<u8>) -> bool {
    p.len() <= s.len() && s.skip(s.len() - p.len()) == p
}

pub open spec fn occurs_at(s: Seq<u8>, p: Seq<u8>, i: int) -> bool {
    0 <= i && i + p.len() <= s.len() && s.subrange(i, i + p.len()) == p
}

pub open spec fn contains_seq(s: Seq<u8>, p: Seq<u8>) -> bool {
    exists|i: int| occurs_at(s, p, i)
}

/// Whether `p` stands in `s` at position `i`.
fn matches_at(s: &[u8], p: &[u8], i: usize) -> (r: bool)
    ensures
        r == occurs_at(s@, p@, i as int),
{
    if i > s.len() || p.len() > s.len() - i {
        return false;
    }
    assert(s@.len() <= usize::MAX);
    let mut k: usize = 0;
    while k < p.len()
        invariant
            k <= p@.len(),
            i + p@.len() <= s@.len(),
            s@.len() <= usize::MAX,
            forall|j: int| 0 <= j < k ==> s@[i + j] == #[trigger] p@[j],
        decreases p@.len() - k,
    {
        if s[i + k] != p[k] {
            assert(s@.subrange(i as int, i + p@.len())[k as int] != p@[k as int]);
            return false;
        }
        k = k + 1;
    }
    assert(s@.subrange(i as int, i + p@.len()) =~= p@);
    true
}

/// Whether `p` stands anywhere in `s`.
fn contains_bytes(s: &[u8], p: &[u8]) -> (r: bool)
    ensures
        r == contains_seq(s@, p@),
{
    if p.len() > s.len() {
        assert forall|j: int| !occurs_at(s@, p@, j) by {}
        return false;
    }
    if p.len() == 0 {
        assert(s@.subrange(0, 0) =~= p@);
        assert(occurs_at(s@, p@, 0));
        return true;
    }
    let n = s.len();
    let last = n - p.len();
    let mut i: usize = 0;
    while i <= last
        invariant
            n == s@.len(),
            last == s@.len() - p@.len(),
            last < s@.len(),
            i <= last + 1,
            forall|j: int| 0 <= j < i ==> !occurs_at(s@, p@, j),
        decreases last + 1 - i,
    {
        if matches_at(s, p, i) {
            return true;
        }
        i = i + 1;
    }
    assert forall|j: int| !occurs_at(s@, p@, j) by {
        if 0 <= j && j + p@.len() <= s@.len() {
            assert(j < i);
        }
    }
    false
}

/// The bytes of a text.
pub open spec fn bytes_of(t: Seq<char>) -> Seq<u8> {
    vstd::utf8::encode_utf8(t)
}

/// A command name that is the client's own: the bare name, a path ending
/// in it, or the name followed by arguments; but not this application.
pub open spec fn is_client_command(cmd: Seq<u8>) -> bool {
    &&& (cmd == bytes_of("codex"@) || ends_with(cmd, bytes_of("/codex"@)) || starts_with(
        cmd,
        bytes_of("codex "@),
    ))
    &&& !contains_seq(cmd, bytes_of("codex-switcher"@))
    &&& !contains_seq(cmd, bytes_of("Codex Switcher"@))
}

/// Tells whether a command name is the client's.
pub fn is_client_command_exec(cmd: &[u8]) -> (r: bool)
    ensures
        r == is_client_command(cmd@),
{
    let name = "codex".as_bytes();
    let path_end = "/codex".as_bytes();
    let with_args = "codex ".as_bytes();
    let exact = cmd.len() == name.len() && matches_at(cmd, name, 0);
    proof {
        if cmd@.len() == name@.len() {
            assert(cmd@.subrange(0, name@.len() as int) =~= cmd@);
        }
    }
    let at_end = path_end.len() <= cmd.len() && matches_at(cmd, path_end, cmd.len() - path_end.len());
    proof {
        if path_end@.len() <= cmd@.len() {
            assert(cmd@.subrange(cmd@.len() - path_end@.len(), cmd@.len() as int) =~= cmd@.skip(
                cmd@.len() - path_end@.len(),
            ));
        }
    }
    let at_start = matches_at(cmd, with_args, 0);
    proof {
        if with_args@.len() <= cmd@.len() {
            assert(cmd@.subrange(0, with_args@.len() as int) =~= cmd@.take(with_args@.len() as int));
        }
    }
    let is_client = exact || at_end || at_start;
    let own_app = contains_bytes(cmd, "codex-switcher".as_bytes()) || contains_bytes(
        cmd,
        "Codex Switcher".as_bytes(),
    );
    is_client && !own_app
}

/// Joins words of `b`, given by their bounds, with single spaces.
fn join_tokens(b: &[u8], toks: &Vec<(usize, usize)>, from: usize) -> (r: Vec<u8>)
    requires
        from <= toks@.len(),
        forall|k: int| 0 <= k < toks@.len() ==> (#[trigger] toks@[k]).0 <= toks@[k].1 <= b@.len(),
    ensures
        r@ == join_space(
            toks@.subrange(from as int, toks@.len() as int).map_values(
                |t: (usize, usize)| b@.subrange(t.0 as int, t.1 as int),
            ),
        ),
{
    let ghost words = toks@.map_values(|t: (usize, usize)| b@.subrange(t.0 as int, t.1 as int));
    let mut r: Vec<u8> = Vec::new();
    let mut k: usize = from;
    assert(words.subrange(from as int, from as int) =~= Seq::<Seq<u8>>::empty());
    while k < toks.len()
        invariant
            from <= k <= toks@.len(),
            words == toks@.map_values(|t: (usize, usize)| b@.subrange(t.0 as int, t.1 as int)),
            forall|j: int| 0 <= j < toks@.len() ==> (#[trigger] toks@[j]).0 <= toks@[j].1 <= b@.len(),
            r@ == join_space(words.subrange(from as int, k as int)),
        decreases toks@.len() - k,
    {
        let ghost before = r@;
        let ghost ws = words.subrange(from as int, k + 1);
        assert(ws.drop_last() =~= words.subrange(from as int, k as int));
        if k > from {
            r.push(32);
        }
        let (lo, hi) = toks[k];
        let ghost base = r@;
        let mut j: usize = lo;
        assert(b@.subrange(lo as int, lo as int) =~= Seq::<u8>::empty());
        while j < hi
            invariant
                lo <= j <= hi <= b@.len(),
                r@ == base + b@.subrange(lo as int, j as int),
            decreases hi - j,
        {
            r.push(b[j]);
            j = j + 1;
            assert(r@ =~= base + b@.subrange(lo as int, j as int));
        }
        proof {
            if k > from {
                assert(r@ =~= before + seq![32u8] + ws.last());
            } else {
                assert(r@ =~= ws[0]);
            }
        }
        k = k + 1;
    }
    assert(toks@.subrange(from as int, toks@.len() as int).map_values(
        |t: (usize, usize)| b@.subrange(t.0 as int, t.1 as int),
    ) =~= words.subrange(from as int, toks@.len() as int));
    r
}

/// Whether a process id is already listed.
fn listed(pids: &Vec<u32>, pid: u32) -> (r: bool)
    ensures
        r == pids@.contains(pid),
{
    let mut i: usize = 0;
    while i < pids.len()
        invariant
            i <= pids@.len(),
            forall|j: int| 0 <= j < i ==> pids@[j] != pid,
        decreases pids@.len() - i,
    {
        if pids[i] == pid {
            return true;
        }
        i = i + 1;
    }
    false
}

/// What one line of `ps -eo pid,comm` output adds: the process id of a
/// client's command, unless it is this process's own or already listed.
pub open spec fn ps_step(p: Seq<u32>, line: Seq<u8>, own: u32) -> Seq<u32> {
    let t = tokens_of(line);
    if t.len() >= 2 && is_client_command(join_space(t.subrange(1, t.len() as int))) {
        match parse_u32_of(t[0]) {
            Some(pid) => if pid != own && !p.contains(pid) {
                p.push(pid)
            } else {
                p
            },
            None => p,
        }
    } else {
        p
    }
}

pub open spec fn ps_fold(p: Seq<u32>, ls: Seq<Seq<u8>>, own: u32) -> Seq<u32>
    decreases ls.len(),
{
    if ls.len() == 0 {
        p
    } else {
        ps_step(ps_fold(p, ls.drop_last(), own), ls.last(), own)
    }
}

/// Applies one line of `ps` output.
fn add_ps_line(b: &[u8], lo: usize, hi: usize, own_pid: u32, pids: &mut Vec<u32>)
    requires
        lo <= hi <= b@.len(),
    ensures
        final(pids)@ == ps_step(old(pids)@, b@.subrange(lo as int, hi as int), own_pid),
{
    let ghost line = b@.subrange(lo as int, hi as int);
    let toks = token_bounds(b, lo, hi);
    if toks.len() < 2 {
        return;
    }
    let ghost t = tokens_of(line);
    let cmd = join_tokens(b, &toks, 1);
    proof {
        let words = toks@.subrange(1, toks@.len() as int).map_values(
            |x: (usize, usize)| b@.subrange(x.0 as int, x.1 as int),
        );
        assert(words =~= t.subrange(1, t.len() as int));
    }
    if !is_client_command_exec(cmd.as_slice()) {
        return;
    }
    let (a, z) = toks[0];
    if let Some(pid) = parse_u32(vstd::slice::slice_subrange(b, a, z)) {
        if pid != own_pid && !listed(pids, pid) {
            pids.push(pid);
        }
    }
}

/// The lines after the header line.
pub open spec fn after_header(ls: Seq<Seq<u8>>) -> Seq<Seq<u8>> {
    if ls.len() == 0 {
        ls
    } else {
        ls.drop_first()
    }
}

/// Adds the ids of the clients that `ps -eo pid,comm` lists, once each, except
/// this process's own. The first line is the header.
pub fn add_ps_pids(out: &str, own_pid: u32, pids: &mut Vec<u32>)
    ensures
        final(pids)@ == ps_fold(old(pids)@, after_header(lines_of(vstd::utf8::encode_utf8(out@))), own_pid),
{
    let b = out.as_bytes();
    let lines = line_bounds(b);
    let ghost ls = lines_of(b@);
    let ghost start_pids = pids@;
    if lines.len() == 0 {
        return;
    }
    let mut k: usize = 1;
    assert(ls.subrange(1, 1) =~= Seq::<Seq<u8>>::empty());
    while k < lines.len()
        invariant
            1 <= k <= lines@.len() == ls.len(),
            ls == lines_of(b@),
            forall|j: int| 0 <= j < lines@.len() ==> (#[trigger] lines@[j]).0 <= lines@[j].1 <= b@.len(),
            forall|j: int|
                0 <= j < lines@.len() ==> b@.subrange(lines@[j].0 as int, lines@[j].1 as int)
                    == #[trigger] lines_of(b@)[j],
            pids@ == ps_fold(start_pids, ls.subrange(1, k as int), own_pid),
        decreases lines@.len() - k,
    {
        assert(ls.subrange(1, k + 1).drop_last() =~= ls.subrange(1, k as int));
        let (lo, hi) = lines[k];
        add_ps_line(b, lo, hi, own_pid, pids);
        k = k + 1;
    }
    assert(ls.subrange(1, k as int) =~= ls.drop_first());
}

/// The position of the first `c` in a text, or its length where there is
/// none.
pub open spec fn first_index(s: Seq<u8>, c: u8) -> nat
    decreases s.len(),
{
    if s.len() == 0 {
        0
    } else if s[0] == c {
        0
    } else {
        1 + first_index(s.drop_first(), c)
    }
}

/// The position of the first `c` in `b[lo..hi]`, or `hi`.
fn find_byte(b: &[u8], lo: usize, hi: usize, c: u8) -> (r: usize)
    requires
        lo <= hi <= b@.len(),
    ensures
        lo <= r <= hi,
        r - lo == first_index(b@.subrange(lo as int, hi as int), c),
{
    let mut i: usize = lo;
    while i < hi
        invariant
            lo <= i <= hi <= b@.len(),
            first_index(b@.subrange(lo as int, hi as int), c) == (i - lo) + first_index(
                b@.subrange(i as int, hi as int),
                c,
            ),
        decreases hi - i,
    {
        if b[i] == c {
            return i;
        }
        assert(b@.subrange(i as int, hi as int).drop_first() =~= b@.subrange(i + 1, hi as int));
        i = i + 1;
    }
    i
}

/// A text without the double quotes at its ends.
pub open spec fn trim_quotes_start(s: Seq<u8>) -> Seq<u8>
    decreases s.len(),
{
    if s.len() > 0 && s[0] == 34 {
        trim_quotes_start(s.drop_first())
    } else {
        s
    }
}

pub open spec fn trim_quotes_end(s: Seq<u8>) -> Seq<u8>
    decreases s.len(),
{
    if s.len() > 0 && s.last() == 34 {
        trim_quotes_end(s.drop_last())
    } else {
        s
    }
}

pub open spec fn trim_quotes(s: Seq<u8>) -> Seq<u8> {
    trim_quotes_end(trim_quotes_start(s))
}

/// The bounds of `b[lo..hi]` without the double quotes at its ends.
fn trim_quote_bounds(s: &[u8], lo: usize, hi: usize) -> (r: (usize, usize))
    requires
        lo <= hi <= s@.len(),
    ensures
        lo <= r.0 <= r.1 <= hi,
        s@.subrange(r.0 as int, r.1 as int) == trim_quotes(s@.subrange(lo as int, hi as int)),
{
    let mut a = lo;
    while a < hi && s[a] == 34
        invariant
            lo <= a <= hi <= s@.len(),
            trim_quotes_start(s@.subrange(lo as int, hi as int)) == trim_quotes_start(
                s@.subrange(a as int, hi as int),
            ),
        decreases hi - a,
    {
        assert(s@.subrange(a as int, hi as int).drop_first() =~= s@.subrange(a + 1, hi as int));
        a = a + 1;
    }
    let mut z = hi;
    while z > a && s[z - 1] == 34
        invariant
            lo <= a <= z <= hi <= s@.len(),
            trim_quotes_start(s@.subrange(lo as int, hi as int)) == s@.subrange(a as int, hi as int),
            trim_quotes_end(s@.subrange(a as int, hi as int)) == trim_quotes_end(
                s@.subrange(a as int, z as int),
            ),
        decreases z - a,
    {
        assert(s@.subrange(a as int, z as int).drop_last() =~= s@.subrange(a as int, z - 1));
        z = z - 1;
    }
    (a, z)
}

pub open spec fn lower_byte(c: u8) -> u8 {
    if 65 <= c && c <= 90 {
        (c + 32) as u8
    } else {
        c
    }
}

/// A text with its ASCII capitals made small.
pub open spec fn ascii_lower(s: Seq<u8>) -> Seq<u8> {
    s.map_values(|c: u8| lower_byte(c))
}

/// Whether `b[lo..hi]`, lower-cased, is `target`.
fn lower_equals(b: &[u8], lo: usize, hi: usize, target: &[u8]) -> (r: bool)
    requires
        lo <= hi <= b@.len(),
    ensures
        r == (ascii_lower(b@.subrange(lo as int, hi as int)) == target@),
{
    let ghost low = ascii_lower(b@.subrange(lo as int, hi as int));
    if hi - lo != target.len() {
        assert(low.len() != target@.len());
        return false;
    }
    let mut k: usize = 0;
    while k < target.len()
        invariant
            lo <= hi <= b@.len(),
            hi - lo == target@.len(),
            low == ascii_lower(b@.subrange(lo as int, hi as int)),
            k <= target@.len(),
            forall|j: int| 0 <= j < k ==> low[j] == #[trigger] target@[j],
        decreases target@.len() - k,
    {
        let c = b[lo + k];
        let l: u8 = if 65 <= c && c <= 90 {
            c + 32
        } else {
            c
        };
        assert(low[k as int] == l);
        if l != target[k] {
            return false;
        }
        k = k + 1;
    }
    assert(low =~= target@);
    true
}

/// What one line of `tasklist` CSV output adds: the process id in its
/// second field where its first field names the client's executable,
/// unless it is this process's own.
pub open spec fn tasklist_step(p: Seq<u32>, line: Seq<u8>, own: u32) -> Seq<u32> {
    let i = first_index(line, 44) as int;
    if i < line.len() {
        let name = trim_quotes(line.take(i));
        let rest = line.skip(i + 1);
        let pid_text = trim_quotes(rest.take(first_index(rest, 44) as int));
        if ascii_lower(name) == bytes_of("codex.exe"@) {
            match parse_u32_of(pid_text) {
                Some(pid) => if pid != own {
                    p.push(pid)
                } else {
                    p
                },
                None => p,
            }
        } else {
            p
        }
    } else {
        p
    }
}

pub open spec fn tasklist_fold(p: Seq<u32>, ls: Seq<Seq<u8>>, own: u32) -> Seq<u32>
    decreases ls.len(),
{
    if ls.len() == 0 {
        p
    } else {
        tasklist_step(tasklist_fold(p, ls.drop_last(), own), ls.last(), own)
    }
}

/// Applies one line of `tasklist` output.
fn add_tasklist_line(b: &[u8], lo: usize, hi: usize, own_pid: u32, pids: &mut Vec<u32>)
    requires
        lo <= hi <= b@.len(),
    ensures
        final(pids)@ == tasklist_step(old(pids)@, b@.subrange(lo as int, hi as int), own_pid),
{
    let ghost line = b@.subrange(lo as int, hi as int);
    let comma = find_byte(b, lo, hi, 44);
    if comma == hi {
        return;
    }
    assert(line.take(comma - lo) =~= b@.subrange(lo as int, comma as int));
    let ghost rest = line.skip(comma - lo + 1);
    assert(rest =~= b@.subrange(comma + 1, hi as int));
    let (na, nz) = trim_quote_bounds(b, lo, comma);
    if !lower_equals(b, na, nz, "codex.exe".as_bytes()) {
        return;
    }
    let second_end = find_byte(b, comma + 1, hi, 44);
    assert(rest.take(second_end - comma - 1) =~= b@.subrange(comma + 1, second_end as int));
    let (pa, pz) = trim_quote_bounds(b, comma + 1, second_end);
    if let Some(pid) = parse_u32(vstd::slice::slice_subrange(b, pa, pz)) {
        if pid != own_pid {
            pids.push(pid);
        }
    }
}

/// Adds the ids of the clients that `tasklist /FO CSV /NH` lists, except this
/// process's own.
pub fn add_tasklist_pids(out: &str, own_pid: u32, pids: &mut Vec<u32>)
    ensures
        final(pids)@ == tasklist_fold(old(pids)@, lines_of(vstd::utf8::encode_utf8(out@)), own_pid),
{
    let b = out.as_bytes();
    let lines = line_bounds(b);
    let ghost ls = lines_of(b@);
    let ghost start_pids = pids@;
    let mut k: usize = 0;
    assert(ls.take(0) =~= Seq::<Seq<u8>>::empty());
    while k < lines.len()
        invariant
            k <= lines@.len() == ls.len(),
            ls == lines_of(b@),
            forall|j: int| 0 <= j < lines@.len() ==> (#[trigger] lines@[j]).0 <= lines@[j].1 <= b@.len(),
            forall|j: int|
                0 <= j < lines@.len() ==> b@.subrange(lines@[j].0 as int, lines@[j].1 as int)
                    == #[trigger] lines_of(b@)[j],
            pids@ == tasklist_fold(start_pids, ls.take(k as int), own_pid),
        decreases lines@.len() - k,
    {
        assert(ls.take(k + 1).drop_last() =~= ls.take(k as int));
        let (lo, hi) = lines[k];
        add_tasklist_line(b, lo, hi, own_pid, pids);
        k = k + 1;
    }
    assert(ls.take(k as int) =~= ls);
}

} // verus!
