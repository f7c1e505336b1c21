//! Quote-aware whitespace tokenization of a command line.
//!
//! A service's stored executable path may carry embedded launch arguments,
//! e.g. `"C:\Program Files\svc.exe" --flag value`.  Splitting breaks such a
//! line at unquoted whitespace; a token may be wrapped in matching quote
//! characters (`"` or `'`), which are stripped from the output.  Joining
//! reassembles tokens into a single line, wrapping a token in double quotes
//! when it is empty or contains whitespace, and the two operations round-trip.

use vstd::prelude::*;

verus! {

/// Characters that separate tokens when they appear outside quotes.
pub open spec fn is_space(c: char) -> bool {
    c == ' ' || c == '\t'
}

/// Characters that may wrap a token; a token opened with one of them is
/// closed only by the same character.
pub open spec fn is_quote(c: char) -> bool {
    c == '"' || c == '\''
}

/// State of the scanner after consuming a prefix of the input.
pub ghost struct ScanState {
    /// The quote character currently open, if any.
    pub quote: Option<char>,
    /// Whether the current token has begun (so that a quoted empty token
    /// is still emitted at the next separator).
    pub started: bool,
    /// Content of the token being accumulated.
    pub cur: Seq<char>,
    /// Tokens already completed, in input order.
    pub done: Seq<Seq<char>>,
}

pub open spec fn scan_init() -> ScanState {
    ScanState { quote: None, started: false, cur: Seq::empty(), done: Seq::empty() }
}

/// One step of the scanner on the next input character.
pub open spec fn scan_step(st: ScanState, c: char) -> ScanState {
    match st.quote {
        Some(q) => {
            if c == q {
                ScanState { quote: None, started: st.started, cur: st.cur, done: st.done }
            } else {
                ScanState { quote: st.quote, started: st.started, cur: st.cur.push(c), done: st.done }
            }
        },
        None => {
            if is_quote(c) {
                ScanState { quote: Some(c), started: true, cur: st.cur, done: st.done }
            } else if is_space(c) {
                if st.started {
                    ScanState {
                        quote: None,
                        started: false,
                        cur: Seq::empty(),
                        done: st.done.push(st.cur),
                    }
                } else {
                    st
                }
            } else {
                ScanState { quote: None, started: true, cur: st.cur.push(c), done: st.done }
            }
        },
    }
}

/// The scanner folded over a whole character sequence.
pub open spec fn scan_seq(st: ScanState, s: Seq<char>) -> ScanState
    decreases s.len(),
{
    if s.len() == 0 {
        st
    } else {
        scan_seq(scan_step(st, s[0]), s.drop_first())
    }
}

/// The tokens of a command line: scan it and emit the trailing token if one
/// has begun.
pub open spec fn split_spec(s: Seq<char>) -> Seq<Seq<char>> {
    let st = scan_seq(scan_init(), s);
    if st.started {
        st.done.push(st.cur)
    } else {
        st.done
    }
}

/// The views of a sequence of token vectors.
pub open spec fn tokens_view(ts: Seq<Vec<char>>) -> Seq<Seq<char>> {
    Seq::new(ts.len(), |i: int| ts[i]@)
}

/// Scanning one more character at the end equals one more step.
pub proof fn lemma_scan_snoc(st: ScanState, s: Seq<char>, c: char)
    ensures
        scan_seq(st, s.push(c)) == scan_step(scan_seq(st, s), c),
    decreases s.len(),
{
    if s.len() == 0 {
        assert(s.push(c)[0] == c);
        assert(s.push(c).drop_first() =~= Seq::<char>::empty());
        assert(scan_seq(st, s.push(c)) == scan_seq(scan_step(st, c), Seq::<char>::empty()));
        assert(scan_seq(st, s) == st);
    } else {
        assert(s.push(c)[0] == s[0]);
        assert(s.push(c).drop_first() =~= s.drop_first().push(c));
        assert(scan_seq(st, s.push(c)) == scan_seq(scan_step(st, s[0]), s.drop_first().push(c)));
        lemma_scan_snoc(scan_step(st, s[0]), s.drop_first(), c);
        assert(scan_seq(st, s) == scan_seq(scan_step(st, s[0]), s.drop_first()));
    }
}

/// Split a command line at unquoted whitespace, stripping matching quotes.
pub fn split_tokens(line: &Vec<char>) -> (r: Vec<Vec<char>>)
    ensures
        tokens_view(r@) == split_spec(line@),
{
    let mut quote: Option<char> = None;
    let mut started: bool = false;
    let mut cur: Vec<char> = Vec::new();
    let mut done: Vec<Vec<char>> = Vec::new();
    let mut i: usize = 0;
    proof {
        assert(line@.take(0) =~= Seq::<char>::empty());
        assert(tokens_view(done@) =~= Seq::<Seq<char>>::empty());
    }
    while i < line.len()
        invariant
            i <= line.len(),
            (quote, started, cur@, tokens_view(done@)) == ({
                let st = scan_seq(scan_init(), line@.take(i as int));
                (st.quote, st.started, st.cur, st.done)
            }),
        decreases line.len() - i,
    {
        proof {
            assert(line@.take(i + 1) =~= line@.take(i as int).push(line@[i as int]));
            lemma_scan_snoc(scan_init(), line@.take(i as int), line@[i as int]);
        }
        let ghost pre_done = tokens_view(done@);
        let ghost pre_cur = cur@;
        let c = line[i];
        match quote {
            Some(q) => {
                if c == q {
                    quote = None;
                } else {
                    cur.push(c);
                }
            },
            None => {
                if c == '"' || c == '\'' {
                    quote = Some(c);
                    started = true;
                } else if c == ' ' || c == '\t' {
                    if started {
                        done.push(cur);
                        cur = Vec::new();
                        started = false;
                        proof {
                            assert(tokens_view(done@) =~= pre_done.push(pre_cur));
                        }
                    }
                } else {
                    cur.push(c);
                    started = true;
                }
            },
        }
        i = i + 1;
    }
    proof {
        assert(line@.take(line@.len() as int) =~= line@);
    }
    if started {
        let ghost pre_done = tokens_view(done@);
        let ghost pre_cur = cur@;
        done.push(cur);
        proof {
            assert(tokens_view(done@) =~= pre_done.push(pre_cur));
        }
    }
    done
}

/// A command line split into the executable and its argument vector.
pub struct CommandLine {
    pub executable: Vec<char>,
    pub arguments: Vec<Vec<char>>,
}

/// Split a stored command line into executable path and arguments: the first
/// token is the executable, the rest are the arguments, in order.  Returns
/// `None` exactly when the line holds no token at all.
pub fn split_command_line(line: &Vec<char>) -> (r: Option<CommandLine>)
    ensures
        r is None <==> split_spec(line@).len() == 0,
        (r matches Some(cl) ==> cl.executable@ == split_spec(line@)[0]
            && tokens_view(cl.arguments@) == split_spec(line@).drop_first()),
{
    let mut tokens = split_tokens(line);
    if tokens.len() == 0 {
        None
    } else {
        let ghost all = tokens_view(tokens@);
        let executable = tokens.remove(0);
        proof {
            assert(tokens_view(tokens@) =~= all.drop_first());
        }
        Some(CommandLine { executable, arguments: tokens })
    }
}

/// A token free of quote characters; only such tokens can be reassembled
/// into a line that splits back to them.
pub open spec fn token_clean(t: Seq<char>) -> bool {
    forall|i: int| 0 <= i < t.len() ==> !is_quote(#[trigger] t[i])
}

/// A token that must be wrapped in quotes when reassembled: it is empty or
/// contains a separator character.
pub open spec fn token_needs_quotes(t: Seq<char>) -> bool {
    t.len() == 0 || exists|i: int| 0 <= i < t.len() && is_space(#[trigger] t[i])
}

/// A token as it appears in the reassembled line.
pub open spec fn encode_token(t: Seq<char>) -> Seq<char> {
    if token_needs_quotes(t) {
        seq!['"'] + t + seq!['"']
    } else {
        t
    }
}

/// Tokens reassembled into one line: encoded tokens separated by single
/// spaces.
pub open spec fn join_spec(ts: Seq<Seq<char>>) -> Seq<char>
    decreases ts.len(),
{
    if ts.len() == 0 {
        Seq::empty()
    } else if ts.len() == 1 {
        encode_token(ts[0])
    } else {
        join_spec(ts.drop_last()) + seq![' '] + encode_token(ts.last())
    }
}

/// Scanning a single character is one step.
pub proof fn lemma_scan_one(st: ScanState, c: char)
    ensures
        scan_seq(st, seq![c]) == scan_step(st, c),
{
    assert(seq![c][0] == c);
    assert(seq![c].drop_first() =~= Seq::<char>::empty());
    assert(scan_seq(st, seq![c]) == scan_seq(scan_step(st, c), seq![c].drop_first()));
    assert(scan_seq(scan_step(st, c), seq![c].drop_first()) == scan_step(st, c));
}

/// Scanning a concatenation scans the parts in order.
pub proof fn lemma_scan_concat(st: ScanState, a: Seq<char>, b: Seq<char>)
    ensures
        scan_seq(st, a + b) == scan_seq(scan_seq(st, a), b),
    decreases a.len(),
{
    if a.len() == 0 {
        assert(a + b =~= b);
    } else {
        assert((a + b)[0] == a[0]);
        assert((a + b).drop_first() =~= a.drop_first() + b);
        assert(scan_seq(st, a + b) == scan_seq(scan_step(st, a[0]), a.drop_first() + b));
        lemma_scan_concat(scan_step(st, a[0]), a.drop_first(), b);
    }
}

/// Outside quotes, a run of ordinary characters only lengthens the current
/// token.
pub proof fn lemma_scan_plain(st: ScanState, t: Seq<char>)
    requires
        st.quote is None,
        forall|i: int| 0 <= i < t.len() ==> !is_quote(#[trigger] t[i]) && !is_space(t[i]),
    ensures
        scan_seq(st, t) == (ScanState {
            quote: None,
            started: st.started || t.len() > 0,
            cur: st.cur + t,
            done: st.done,
        }),
    decreases t.len(),
{
    if t.len() == 0 {
        assert(st.cur + t =~= st.cur);
        assert(scan_seq(st, t) == st);
    } else {
        let st1 = scan_step(st, t[0]);
        assert(st1.cur == st.cur.push(t[0]));
        lemma_scan_plain(st1, t.drop_first());
        assert(st.cur.push(t[0]) + t.drop_first() =~= st.cur + t);
    }
}

/// Inside a quote, characters other than the closing quote only lengthen
/// the current token.
pub proof fn lemma_scan_quoted(st: ScanState, t: Seq<char>, q: char)
    requires
        st.quote == Some(q),
        forall|i: int| 0 <= i < t.len() ==> #[trigger] t[i] != q,
    ensures
        scan_seq(st, t) == (ScanState {
            quote: Some(q),
            started: st.started,
            cur: st.cur + t,
            done: st.done,
        }),
    decreases t.len(),
{
    if t.len() == 0 {
        assert(st.cur + t =~= st.cur);
        assert(scan_seq(st, t) == st);
    } else {
        let st1 = scan_step(st, t[0]);
        assert(st1.cur == st.cur.push(t[0]));
        lemma_scan_quoted(st1, t.drop_first(), q);
        assert(st.cur.push(t[0]) + t.drop_first() =~= st.cur + t);
    }
}

/// From a token boundary, scanning one encoded clean token accumulates
/// exactly that token.
pub proof fn lemma_scan_encoded(st: ScanState, t: Seq<char>)
    requires
        st.quote is None,
        !st.started,
        st.cur == Seq::<char>::empty(),
        token_clean(t),
    ensures
        scan_seq(st, encode_token(t)) == (ScanState {
            quote: None,
            started: true,
            cur: t,
            done: st.done,
        }),
{
    if token_needs_quotes(t) {
        let open = seq!['"'];
        assert(encode_token(t) == open + t + open);
        lemma_scan_concat(st, open + t, open);
        lemma_scan_concat(st, open, t);
        assert(open.drop_first() =~= Seq::<char>::empty());
        lemma_scan_one(st, '"');
        let st1 = scan_seq(st, open);
        assert(st1 == scan_step(st, '"'));
        assert(st1 == (ScanState {
            quote: Some('"'),
            started: true,
            cur: st.cur,
            done: st.done,
        }));
        assert(forall|i: int| 0 <= i < t.len() ==> #[trigger] t[i] != '"') by {
            assert(forall|i: int| 0 <= i < t.len() ==> !is_quote(#[trigger] t[i]));
        }
        lemma_scan_quoted(st1, t, '"');
        let st2 = scan_seq(st1, t);
        assert(st2.cur =~= t);
        lemma_scan_one(st2, '"');
        assert(scan_seq(st2, open) == scan_step(st2, '"'));
    } else {
        assert(t.len() > 0);
        assert(forall|i: int| 0 <= i < t.len() ==> !is_quote(#[trigger] t[i]) && !is_space(t[i]))
            by {
            assert(forall|i: int| 0 <= i < t.len() ==> !(0 <= i < t.len() && is_space(#[trigger] t[i])));
        }
        lemma_scan_plain(st, t);
        assert(st.cur + t =~= t);
    }
}

/// From a token boundary, scanning a whole joined line completes all tokens
/// but the last, which rests in the accumulator.
pub proof fn lemma_scan_join(st: ScanState, ts: Seq<Seq<char>>)
    requires
        st.quote is None,
        !st.started,
        st.cur == Seq::<char>::empty(),
        forall|i: int| 0 <= i < ts.len() ==> token_clean(#[trigger] ts[i]),
    ensures
        ts.len() == 0 ==> scan_seq(st, join_spec(ts)) == st,
        ts.len() > 0 ==> scan_seq(st, join_spec(ts)) == (ScanState {
            quote: None,
            started: true,
            cur: ts.last(),
            done: st.done + ts.drop_last(),
        }),
    decreases ts.len(),
{
    if ts.len() == 0 {
        assert(scan_seq(st, join_spec(ts)) == st);
    } else if ts.len() == 1 {
        lemma_scan_encoded(st, ts[0]);
        assert(st.done + ts.drop_last() =~= st.done);
    } else {
        let head = ts.drop_last();
        let sep = seq![' '];
        let tail = encode_token(ts.last());
        assert(join_spec(ts) == join_spec(head) + sep + tail);
        lemma_scan_concat(st, join_spec(head) + sep, tail);
        lemma_scan_concat(st, join_spec(head), sep);
        assert(forall|i: int| 0 <= i < head.len() ==> token_clean(#[trigger] head[i])) by {
            assert(forall|i: int| 0 <= i < head.len() ==> head[i] == ts[i]);
        }
        lemma_scan_join(st, head);
        let st1 = scan_seq(st, join_spec(head));
        assert(sep.drop_first() =~= Seq::<char>::empty());
        lemma_scan_one(st1, ' ');
        let st2 = scan_seq(st1, sep);
        assert(st2 == scan_step(st1, ' '));
        assert(st2 == (ScanState {
            quote: None,
            started: false,
            cur: Seq::<char>::empty(),
            done: (st.done + head.drop_last()).push(head.last()),
        }));
        assert((st.done + head.drop_last()).push(head.last()) =~= st.done + ts.drop_last());
        lemma_scan_encoded(st2, ts.last());
    }
}

/// Round-trip law: a joined line splits back into exactly the tokens it was
/// built from, in order, provided no token holds a quote character.
pub proof fn lemma_split_join_roundtrip(ts: Seq<Seq<char>>)
    requires
        forall|i: int| 0 <= i < ts.len() ==> token_clean(#[trigger] ts[i]),
    ensures
        split_spec(join_spec(ts)) == ts,
{
    lemma_scan_join(scan_init(), ts);
    if ts.len() == 0 {
        assert(split_spec(join_spec(ts)) =~= ts);
    } else {
        let st = scan_seq(scan_init(), join_spec(ts));
        assert(st.done.push(st.cur) =~= ts);
    }
}

/// Whether a token must be wrapped in quotes for reassembly.
pub fn needs_quoting(t: &Vec<char>) -> (r: bool)
    ensures
        r == token_needs_quotes(t@),
{
    if t.len() == 0 {
        return true;
    }
    let mut i: usize = 0;
    while i < t.len()
        invariant
            i <= t.len(),
            forall|j: int| 0 <= j < i ==> !is_space(#[trigger] t@[j]),
        decreases t.len() - i,
    {
        let c = t[i];
        if c == ' ' || c == '\t' {
            proof {
                assert(is_space(t@[i as int]));
            }
            return true;
        }
        i = i + 1;
    }
    false
}

/// Append all characters of `t` to `out`.
fn push_all(out: &mut Vec<char>, t: &Vec<char>)
    ensures
        final(out)@ == old(out)@ + t@,
{
    let mut j: usize = 0;
    proof {
        assert(out@ + t@.take(0) =~= out@);
    }
    while j < t.len()
        invariant
            j <= t.len(),
            out@ == old(out)@ + t@.take(j as int),
        decreases t.len() - j,
    {
        out.push(t[j]);
        proof {
            assert(old(out)@ + t@.take(j as int) + seq![t@[j as int]]
                =~= old(out)@ + t@.take(j + 1));
        }
        j = j + 1;
    }
    proof {
        assert(t@.take(t@.len() as int) =~= t@);
    }
}

/// Reassemble tokens into one command line, quoting where needed; argument
/// order is preserved.
pub fn join_tokens(tokens: &Vec<Vec<char>>) -> (r: Vec<char>)
    ensures
        r@ == join_spec(tokens_view(tokens@)),
{
    let ghost ts = tokens_view(tokens@);
    let mut out: Vec<char> = Vec::new();
    let mut i: usize = 0;
    proof {
        assert(out@ =~= join_spec(ts.take(0)));
    }
    while i < tokens.len()
        invariant
            i <= tokens.len(),
            ts == tokens_view(tokens@),
            out@ == join_spec(ts.take(i as int)),
        decreases tokens.len() - i,
    {
        let ghost before = out@;
        if i > 0 {
            out.push(' ');
        }
        let ghost mid = out@;
        let t = &tokens[i];
        if needs_quoting(t) {
            out.push('"');
            push_all(&mut out, t);
            out.push('"');
            proof {
                assert(out@ =~= mid + encode_token(t@));
            }
        } else {
            push_all(&mut out, t);
            proof {
                assert(out@ =~= mid + encode_token(t@));
            }
        }
        proof {
            assert(ts.take(i + 1).last() == t@);
            assert(ts.take(i + 1).drop_last() =~= ts.take(i as int));
            if i == 0 {
                assert(out@ =~= encode_token(ts.take(1)[0]));
            } else {
                assert(out@ =~= join_spec(ts.take(i as int)) + seq![' '] + encode_token(ts.take(i + 1).last()));
            }
        }
        i = i + 1;
    }
    proof {
        assert(ts.take(tokens@.len() as int) =~= ts);
    }
    out
}

} // verus!
