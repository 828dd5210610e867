use vstd::prelude::*;

verus! {

/// The scanner's state after a prefix of the line: the words completed so
/// far, the word being built, and the three quoting flags.
pub struct ScanState {
    pub words: Seq<Seq<char>>,
    pub current: Seq<char>,
    pub in_single: bool,
    pub in_double: bool,
    pub escaped: bool,
}

pub open spec fn initial_state() -> ScanState {
    ScanState { words: Seq::empty(), current: Seq::empty(), in_single: false, in_double: false, escaped: false }
}

/// How one character moves the scanner.
pub open spec fn scan_step(s: ScanState, c: char) -> ScanState {
    if s.escaped {
        ScanState { current: s.current.push(c), escaped: false, ..s }
    } else if c == '\'' && !s.in_double {
        ScanState { in_single: !s.in_single, ..s }
    } else if c == '"' && !s.in_single {
        ScanState { in_double: !s.in_double, ..s }
    } else if c == '\\' && !s.in_single {
        ScanState { escaped: true, ..s }
    } else if (c == ' ' || c == '\t') && !s.in_single && !s.in_double {
        if s.current.len() > 0 {
            ScanState { words: s.words.push(s.current), current: Seq::empty(), ..s }
        } else {
            s
        }
    } else {
        ScanState { current: s.current.push(c), ..s }
    }
}

/// The scanner's state after reading all of `line`.
pub open spec fn scan(line: Seq<char>) -> ScanState
    decreases line.len(),
{
    if line.len() == 0 {
        initial_state()
    } else {
        scan_step(scan(line.drop_last()), line.last())
    }
}

/// The words of a line: those completed by the scan, then the pending one
/// if it is not empty. Unterminated quotes and a trailing backslash are
/// tolerated.
pub open spec fn words_of(line: Seq<char>) -> Seq<Seq<char>> {
    let s = scan(line);
    if s.current.len() > 0 {
        s.words.push(s.current)
    } else {
        s.words
    }
}

pub open spec fn strings_view(v: Seq<String>) -> Seq<Seq<char>> {
    v.map_values(|w: String| w@)
}

proof fn lemma_scan_words_nonempty(line: Seq<char>)
    ensures
        forall|i: int| 0 <= i < scan(line).words.len() ==> #[trigger] scan(line).words[i].len() > 0,
    decreases line.len(),
{
    if line.len() > 0 {
        let prev = scan(line.drop_last());
        lemma_scan_words_nonempty(line.drop_last());
        let next = scan_step(prev, line.last());
        assert(scan(line) == next);
        assert forall|i: int| 0 <= i < next.words.len() implies #[trigger] next.words[i].len() > 0 by {
            if i < prev.words.len() {
                assert(prev.words[i].len() > 0);
            }
        }
    }
}

/// Whitespace runs collapse: no word of any line is empty.
pub proof fn lemma_words_nonempty(line: Seq<char>)
    ensures
        forall|i: int| 0 <= i < words_of(line).len() ==> #[trigger] words_of(line)[i].len() > 0,
{
    lemma_scan_words_nonempty(line);
}

/// Splits a line into words, honoring single quotes, double quotes and
/// backslash escapes.
pub fn tokenize(input: &str) -> (r: Vec<String>)
    ensures
        strings_view(r@) == words_of(input@),
{
    let mut args: Vec<String> = Vec::new();
    let mut current = String::new();
    let mut in_single = false;
    let mut in_double = false;
    let mut in_backslash = false;
    let n = input.unicode_len();
    let mut i: usize = 0;
    assert(strings_view(args@) =~= Seq::<Seq<char>>::empty());
    assert(input@.subrange(0, 0) =~= Seq::<char>::empty());
    while i < n
        invariant
            n == input@.len(),
            i <= n,
            scan(input@.subrange(0, i as int)) == (ScanState {
                words: strings_view(args@),
                current: current@,
                in_single,
                in_double,
                escaped: in_backslash,
            }),
        decreases n - i,
    {
        let c = input.get_char(i);
        let ghost before = input@.subrange(0, i as int);
        assert(input@.subrange(0, i + 1).drop_last() =~= before);
        if in_backslash {
            current.push(c);
            in_backslash = false;
        } else if c == '\'' && !in_double {
            in_single = !in_single;
        } else if c == '"' && !in_single {
            in_double = !in_double;
        } else if c == '\\' && !in_single {
            in_backslash = true;
        } else if (c == ' ' || c == '\t') && !in_single && !in_double {
            if !current.as_str().is_empty() {
                let ghost old_args = args@;
                args.push(current.clone());
                assert(strings_view(args@) =~= strings_view(old_args).push(current@));
                current = String::new();
            }
        } else {
            current.push(c);
        }
        i = i + 1;
    }
    assert(input@.subrange(0, n as int) =~= input@);
    if !current.as_str().is_empty() {
        let ghost old_args = args@;
        args.push(current);
        assert(strings_view(args@) =~= strings_view(old_args).push(current@));
    }
    args
}

} // verus!
