use vstd::prelude::*;
use crate::text::{leading_words, same_word};

verus! {

/// Where a command's output is sent instead of the terminal.
pub enum Redirect<'a> {
    AppendStdout(&'a str),
    AppendStderr(&'a str),
    Stderr(&'a str),
    Stdout(&'a str),
}

/// The families of redirection operators, in the order in which they are
/// tried.
#[derive(Clone, Copy, PartialEq, Eq, Structural)]
pub enum OpClass {
    AppendOut,
    AppendErr,
    OverwriteErr,
    OverwriteOut,
}

/// Whether a word is an operator of the given family.
pub open spec fn is_op(w: Seq<char>, k: OpClass) -> bool {
    match k {
        OpClass::AppendOut => w == ">>"@ || w == "1>>"@,
        OpClass::AppendErr => w == "2>>"@,
        OpClass::OverwriteErr => w == "2>"@,
        OpClass::OverwriteOut => w == ">"@ || w == "1>"@,
    }
}

/// The first position at or after `from` that holds an operator of the
/// family, or the length of `ws` when there is none.
pub open spec fn first_op(ws: Seq<&str>, k: OpClass, from: int) -> int
    decreases ws.len() - from,
{
    if from >= ws.len() {
        ws.len() as int
    } else if is_op(ws[from]@, k) {
        from
    } else {
        first_op(ws, k, from + 1)
    }
}

/// Whether the first operator of the family has a word after it.
pub open spec fn honored(ws: Seq<&str>, k: OpClass) -> bool {
    first_op(ws, k, 0) + 1 < ws.len()
}

/// The operand words and the redirection: the first family, in precedence
/// order, whose first operator is followed by a word wins; that word is the
/// target, and the words before the operator are the operands.
pub open spec fn resolve<'a>(ws: Seq<&'a str>) -> (Seq<&'a str>, Option<Redirect<'a>>) {
    if honored(ws, OpClass::AppendOut) {
        let p = first_op(ws, OpClass::AppendOut, 0);
        (ws.take(p), Some(Redirect::AppendStdout(ws[p + 1])))
    } else if honored(ws, OpClass::AppendErr) {
        let p = first_op(ws, OpClass::AppendErr, 0);
        (ws.take(p), Some(Redirect::AppendStderr(ws[p + 1])))
    } else if honored(ws, OpClass::OverwriteErr) {
        let p = first_op(ws, OpClass::OverwriteErr, 0);
        (ws.take(p), Some(Redirect::Stderr(ws[p + 1])))
    } else if honored(ws, OpClass::OverwriteOut) {
        let p = first_op(ws, OpClass::OverwriteOut, 0);
        (ws.take(p), Some(Redirect::Stdout(ws[p + 1])))
    } else {
        (ws, None)
    }
}

/// Whether `w` is an operator of family `k`.
pub fn is_operator(w: &str, k: OpClass) -> (r: bool)
    ensures
        r == is_op(w@, k),
{
    match k {
        OpClass::AppendOut => same_word(w, ">>") || same_word(w, "1>>"),
        OpClass::AppendErr => same_word(w, "2>>"),
        OpClass::OverwriteErr => same_word(w, "2>"),
        OpClass::OverwriteOut => same_word(w, ">") || same_word(w, "1>"),
    }
}

/// The position of the first operator of family `k`, or the length of
/// `args` when there is none.
pub fn find_operator(args: &[&str], k: OpClass) -> (r: usize)
    ensures
        r == first_op(args@, k, 0),
        r <= args@.len(),
{
    let mut i: usize = 0;
    while i < args.len()
        invariant
            i <= args@.len(),
            first_op(args@, k, 0) == first_op(args@, k, i as int),
        decreases args@.len() - i,
    {
        if is_operator(args[i], k) {
            return i;
        }
        i = i + 1;
    }
    i
}

/// Splits the words of a command into its operands and the redirection
/// they name, if any.
pub fn split_redirect<'a>(args: &[&'a str]) -> (r: (Vec<&'a str>, Option<Redirect<'a>>))
    ensures
        (r.0@, r.1) == resolve(args@),
{
    let p = find_operator(args, OpClass::AppendOut);
    if p < args.len() && p + 1 < args.len() {
        return (leading_words(args, p), Some(Redirect::AppendStdout(args[p + 1])));
    }
    let p = find_operator(args, OpClass::AppendErr);
    if p < args.len() && p + 1 < args.len() {
        return (leading_words(args, p), Some(Redirect::AppendStderr(args[p + 1])));
    }
    let p = find_operator(args, OpClass::OverwriteErr);
    if p < args.len() && p + 1 < args.len() {
        return (leading_words(args, p), Some(Redirect::Stderr(args[p + 1])));
    }
    let p = find_operator(args, OpClass::OverwriteOut);
    if p < args.len() && p + 1 < args.len() {
        return (leading_words(args, p), Some(Redirect::Stdout(args[p + 1])));
    }
    let all = leading_words(args, args.len());
    assert(args@.take(args@.len() as int) =~= args@);
    (all, None)
}

} // verus!
