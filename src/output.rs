use vstd::prelude::*;
use crate::redirect::Redirect;

verus! {

/// A place that text is written to.
#[derive(Debug, PartialEq, Eq)]
pub enum Sink<'a> {
    /// The terminal's standard output.
    Stdout,
    /// The terminal's standard error.
    Stderr,
    /// A file, created or truncated first.
    Overwrite(&'a str),
    /// A file, created if absent, written at its end.
    Append(&'a str),
}

/// One write: exactly `text`, to `sink`.
pub struct Emit<'a> {
    pub sink: Sink<'a>,
    pub text: String,
}

/// The writes as pairs of place and characters.
pub open spec fn emits_view<'a>(v: Seq<Emit<'a>>) -> Seq<(Sink<'a>, Seq<char>)> {
    v.map_values(|e: Emit<'a>| (e.sink, e.text@))
}

/// The file that a redirection names, with its mode.
pub open spec fn file_sink<'a>(r: Redirect<'a>) -> Sink<'a> {
    match r {
        Redirect::AppendStdout(f) => Sink::Append(f),
        Redirect::AppendStderr(f) => Sink::Append(f),
        Redirect::Stdout(f) => Sink::Overwrite(f),
        Redirect::Stderr(f) => Sink::Overwrite(f),
    }
}

/// Where a command's standard output and standard error go under a
/// redirection: the redirected stream to the file, the other to the
/// terminal.
pub open spec fn routes<'a>(r: Option<Redirect<'a>>) -> (Sink<'a>, Sink<'a>) {
    match r {
        None => (Sink::Stdout, Sink::Stderr),
        Some(Redirect::AppendStdout(f)) => (Sink::Append(f), Sink::Stderr),
        Some(Redirect::Stdout(f)) => (Sink::Overwrite(f), Sink::Stderr),
        Some(Redirect::AppendStderr(f)) => (Sink::Stdout, Sink::Append(f)),
        Some(Redirect::Stderr(f)) => (Sink::Stdout, Sink::Overwrite(f)),
    }
}

/// The single line of a report (the answer of `type`, the error of `cd`):
/// with a redirection, the bare message goes to the file that it names,
/// whichever stream it names; without one, the message and a newline go to
/// `terminal`.
pub open spec fn report_emits<'a>(msg: Seq<char>, r: Option<Redirect<'a>>, terminal: Sink<'a>)
    -> Seq<(Sink<'a>, Seq<char>)>
{
    match r {
        None => seq![(terminal, msg + "\n"@)],
        Some(f) => seq![(file_sink(f), msg)],
    }
}

/// The stream routing of a redirection.
pub fn route<'a>(r: &Option<Redirect<'a>>) -> (s: (Sink<'a>, Sink<'a>))
    ensures
        s == routes(*r),
{
    match r {
        None => (Sink::Stdout, Sink::Stderr),
        Some(Redirect::AppendStdout(f)) => (Sink::Append(*f), Sink::Stderr),
        Some(Redirect::Stdout(f)) => (Sink::Overwrite(*f), Sink::Stderr),
        Some(Redirect::AppendStderr(f)) => (Sink::Stdout, Sink::Append(*f)),
        Some(Redirect::Stderr(f)) => (Sink::Stdout, Sink::Overwrite(*f)),
    }
}

/// The file that a redirection names, with its mode.
pub fn file_of<'a>(r: &Redirect<'a>) -> (s: Sink<'a>)
    ensures
        s == file_sink(*r),
{
    match r {
        Redirect::AppendStdout(f) => Sink::Append(*f),
        Redirect::AppendStderr(f) => Sink::Append(*f),
        Redirect::Stdout(f) => Sink::Overwrite(*f),
        Redirect::Stderr(f) => Sink::Overwrite(*f),
    }
}

/// Routes the single line of a report.
pub fn report<'a>(msg: String, r: &Option<Redirect<'a>>, terminal: Sink<'a>) -> (out: Vec<Emit<'a>>)
    ensures
        emits_view(out@) == report_emits(msg@, *r, terminal),
{
    let mut out: Vec<Emit<'a>> = Vec::new();
    match r {
        None => {
            let text = msg.concat("\n");
            out.push(Emit { sink: terminal, text });
        },
        Some(f) => {
            out.push(Emit { sink: file_of(f), text: msg });
        },
    }
    assert(emits_view(out@) =~= report_emits(msg@, *r, terminal));
    out
}

} // verus!
