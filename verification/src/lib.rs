//! Contextual filesystem error wrapping.
//!
//! A failed filesystem operation is reported as a [`FsExplicitIoError`]: a
//! value that carries the underlying system error's message, the path that
//! was involved, and the name of the logical operation that was attempted.
//! [`wrap_io_error`] turns a raw outcome into such a value on the failure
//! branch and passes a success through unchanged; [`FsExplicitIoError::render`]
//! produces the one-line diagnostic text.

use vstd::prelude::*;
use vstd::string::StrSliceExecFns;
use vstd::string::StringExecFns;

verus! {

/// Relies on `String::push`: appends the given character to the end of the
/// string.
pub assume_specification[ String::push ](s: &mut String, ch: char)
    ensures
        final(s)@ == old(s)@ + seq![ch],
;

/// How one character of a path appears inside the quoted form: a double
/// quote or a backslash gets a leading backslash, every other character
/// stands as itself.
pub open spec fn escape_char(c: char) -> Seq<char> {
    if c == '"' || c == '\\' {
        seq!['\\', c]
    } else {
        seq![c]
    }
}

/// The characters of `s` with each one escaped.
pub open spec fn escaped(s: Seq<char>) -> Seq<char>
    decreases s.len(),
{
    if s.len() == 0 {
        Seq::empty()
    } else {
        escaped(s.drop_last()) + escape_char(s.last())
    }
}

/// The quoted form of a path as it appears in a rendered error: the text
/// between double quotes, with quotes and backslashes escaped.
pub open spec fn debug_quoted(s: Seq<char>) -> Seq<char> {
    seq!['"'] + escaped(s) + seq!['"']
}

/// `needle` occurs contiguously somewhere in `hay`.
pub open spec fn contains_seq(hay: Seq<char>, needle: Seq<char>) -> bool {
    exists|i: int|
        0 <= i && i + needle.len() <= hay.len() && #[trigger] hay.subrange(
            i,
            i + needle.len() as int,
        ) == needle
}

/// Builds the quoted form of `s`: `debug_quoted` realised character by
/// character.
pub fn debug_quote(s: &str) -> (r: String)
    ensures
        r@ == debug_quoted(s@),
{
    let mut out = String::from_str("\"");
    proof {
        reveal_strlit("\"");
        assert(out@ =~= seq!['"']);
    }
    let len = s.unicode_len();
    let mut i: usize = 0;
    while i < len
        invariant
            len == s@.len(),
            i <= len,
            out@ == seq!['"'] + escaped(s@.subrange(0, i as int)),
        decreases len - i,
    {
        let c = s.get_char(i);
        if c == '"' || c == '\\' {
            out.append("\\");
            proof {
                reveal_strlit("\\");
                assert("\\"@ =~= seq!['\\']);
            }
        }
        out.push(c);
        proof {
            let prev = s@.subrange(0, i as int);
            let cur = s@.subrange(0, i as int + 1);
            assert(cur.drop_last() =~= prev);
            assert(cur.last() == s@[i as int]);
            assert(escaped(cur) == escaped(prev) + escape_char(s@[i as int]));
            assert(out@ =~= seq!['"'] + escaped(cur));
        }
        i = i + 1;
    }
    proof {
        assert(s@.subrange(0, len as int) =~= s@);
    }
    out.append("\"");
    proof {
        reveal_strlit("\"");
        assert("\""@ =~= seq!['"']);
        assert(out@ =~= debug_quoted(s@));
    }
    out
}

/// The error of a failed filesystem operation.
///
/// It always carries all three pieces of context: the underlying system
/// error, represented by its human-readable message; an owned copy of the
/// path the operation targeted; and the fixed name of the logical operation
/// that failed.
#[derive(Debug)]
pub enum FsExplicitIoError {
    IoError { source: String, path: String, function: String },
}

impl FsExplicitIoError {
    /// The underlying system error's message, unchanged from what the
    /// platform reported.
    pub open spec fn source_msg(self) -> Seq<char> {
        match self {
            FsExplicitIoError::IoError { source, .. } => source@,
        }
    }

    /// The path the failed operation targeted.
    pub open spec fn path_text(self) -> Seq<char> {
        match self {
            FsExplicitIoError::IoError { path, .. } => path@,
        }
    }

    /// The name of the logical operation that failed.
    pub open spec fn function_name(self) -> Seq<char> {
        match self {
            FsExplicitIoError::IoError { function, .. } => function@,
        }
    }

    /// The one-line diagnostic text of the error: operation name, quoted
    /// path and system error message, in that fixed order.
    pub open spec fn render_spec(self) -> Seq<char> {
        "IO error in function "@ + self.function_name() + " for path: "@ + debug_quoted(
            self.path_text(),
        ) + " - "@ + self.source_msg()
    }

    /// Produces the diagnostic line that `render_spec` describes.
    pub fn render(&self) -> (r: String)
        ensures
            r@ == self.render_spec(),
    {
        match self {
            FsExplicitIoError::IoError { source, path, function } => {
                let mut out = String::from_str("IO error in function ");
                out.append(function.as_str());
                out.append(" for path: ");
                let quoted = debug_quote(path.as_str());
                out.append(quoted.as_str());
                out.append(" - ");
                out.append(source.as_str());
                out
            },
        }
    }
}

/// On success, hands the value through unchanged; on failure, builds a
/// `FsExplicitIoError` from the system error's message, an owned copy of the
/// path, and the operation name.
pub fn wrap_io_error<T>(result: Result<T, String>, path: &str, function: &'static str) -> (r:
    Result<T, FsExplicitIoError>)
    ensures
        r is Ok <==> result is Ok,
        result is Ok ==> r->Ok_0 == result->Ok_0,
        result is Err ==> r->Err_0.source_msg() == result->Err_0@,
        result is Err ==> r->Err_0.path_text() == path@,
        result is Err ==> r->Err_0.function_name() == function@,
{
    match result {
        Ok(value) => Ok(value),
        Err(source) => Err(
            FsExplicitIoError::IoError {
                source,
                path: String::from_str(path),
                function: String::from_str(function),
            },
        ),
    }
}

proof fn lemma_concat_contains_middle(a: Seq<char>, b: Seq<char>, c: Seq<char>)
    ensures
        contains_seq(a + b + c, b),
{
    let whole = a + b + c;
    let i = a.len() as int;
    assert(whole.subrange(i, i + b.len() as int) =~= b);
    assert(0 <= i && i + b.len() <= whole.len());
}

/// Law: a rendered error always names its context. The operation name and
/// the quoted path both occur in the diagnostic text.
pub proof fn lemma_render_contains_context(e: FsExplicitIoError)
    ensures
        contains_seq(e.render_spec(), e.function_name()),
        contains_seq(e.render_spec(), debug_quoted(e.path_text())),
{
    let l1 = "IO error in function "@;
    let l2 = " for path: "@;
    let l3 = " - "@;
    let f = e.function_name();
    let q = debug_quoted(e.path_text());
    let s = e.source_msg();
    assert(e.render_spec() =~= l1 + f + (l2 + q + l3 + s));
    lemma_concat_contains_middle(l1, f, l2 + q + l3 + s);
    assert(e.render_spec() =~= (l1 + f + l2) + q + (l3 + s));
    lemma_concat_contains_middle(l1 + f + l2, q, l3 + s);
}

/// Law: the underlying system error's message is preserved verbatim. It is
/// exactly the tail of the rendered text, so it occurs in it unchanged.
pub proof fn lemma_render_preserves_source(e: FsExplicitIoError)
    ensures
        e.render_spec().len() >= e.source_msg().len(),
        e.render_spec().subrange(
            e.render_spec().len() - e.source_msg().len(),
            e.render_spec().len() as int,
        ) == e.source_msg(),
        contains_seq(e.render_spec(), e.source_msg()),
{
    let prefix = "IO error in function "@ + e.function_name() + " for path: "@ + debug_quoted(
        e.path_text(),
    ) + " - "@;
    let s = e.source_msg();
    assert(e.render_spec() =~= prefix + s);
    assert(e.render_spec().subrange(prefix.len() as int, e.render_spec().len() as int) =~= s);
    lemma_concat_contains_middle(prefix, s, Seq::empty());
    assert(prefix + s + Seq::<char>::empty() =~= e.render_spec());
}

/// Law: rendering is deterministic. Two errors that carry the same message,
/// path and operation name render to the same text.
pub proof fn lemma_render_deterministic(e1: FsExplicitIoError, e2: FsExplicitIoError)
    requires
        e1.source_msg() == e2.source_msg(),
        e1.path_text() == e2.path_text(),
        e1.function_name() == e2.function_name(),
    ensures
        e1.render_spec() == e2.render_spec(),
{
}

} // verus!
