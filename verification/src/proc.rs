use vstd::prelude::*;

use vstd::string::{StrSliceExecFns, StringExecFns};
use vstd::utf8::{decode_utf8, valid_utf8};

verus! {

/// One host-process invocation: the program to spawn and its arguments, in
/// order. The dispatchers build these; the surrounding server runs them.
#[derive(Debug)]
pub struct Invocation {
    pub program: String,
    pub args: Vec<String>,
}

/// A file to write before an invocation runs: the staging step of
/// compile-then-run and bridged execution.
#[derive(Debug)]
pub struct StagedFile {
    pub path: String,
    pub contents: String,
}

/// What became of one spawned process, as the surrounding server reports it
/// back: it ran to completion (with its exit status and captured streams), it
/// could not be started at all, or it outlived its wall-clock deadline and
/// was terminated.
pub enum ProcessOutcome {
    Completed { success: bool, exit_code: Option<i32>, stdout: Vec<u8>, stderr: Vec<u8> },
    SpawnFailed { message: String },
    TimedOut,
}

/// What std's permissive UTF-8 decoding returns on the given bytes: a
/// function of the bytes alone.
pub uninterp spec fn lossy_decode_of(b: Seq<u8>) -> Seq<char>;

/// Relies on std's `String::from_utf8_lossy`: invalid sequences are replaced
/// rather than failing, and valid UTF-8 decodes exactly, as vstd's UTF-8
/// model states.
#[verifier::external_body]
pub(crate) fn lossy_decode(b: &[u8]) -> (r: String)
    ensures
        r@ == lossy_decode_of(b@),
        valid_utf8(b@) ==> r@ == decode_utf8(b@),
{
    String::from_utf8_lossy(b).into_owned()
}

/// The whitespace that display trimming strips: the ASCII blank, newline,
/// tab and carriage-return characters.
pub open spec fn is_ws(c: char) -> bool {
    c == ' ' || c == '\n' || c == '\t' || c == '\r'
}

/// `s` without its leading whitespace.
pub open spec fn drop_leading_ws(s: Seq<char>) -> Seq<char>
    decreases s.len(),
{
    if s.len() > 0 && is_ws(s[0]) {
        drop_leading_ws(s.drop_first())
    } else {
        s
    }
}

/// `s` without its trailing whitespace.
pub open spec fn drop_trailing_ws(s: Seq<char>) -> Seq<char>
    decreases s.len(),
{
    if s.len() > 0 && is_ws(s.last()) {
        drop_trailing_ws(s.drop_last())
    } else {
        s
    }
}

/// `s` without leading and trailing whitespace.
pub open spec fn trim_of(s: Seq<char>) -> Seq<char> {
    drop_trailing_ws(drop_leading_ws(s))
}

/// The display form of a completed process's two streams: both decoded
/// permissively, joined by a newline, and trimmed.
pub open spec fn combined_output_of(stdout: Seq<u8>, stderr: Seq<u8>) -> Seq<char> {
    trim_of(lossy_decode_of(stdout) + "\n"@ + lossy_decode_of(stderr))
}

proof fn lemma_drop_leading_ws_at(s: Seq<char>, a: int)
    requires
        0 <= a <= s.len(),
        forall|j: int| 0 <= j < a ==> is_ws(s[j]),
        a < s.len() ==> !is_ws(s[a]),
    ensures
        drop_leading_ws(s) == s.subrange(a, s.len() as int),
    decreases a,
{
    if a == 0 {
        assert(s.subrange(0, s.len() as int) =~= s);
    } else {
        assert(is_ws(s[0]));
        let t = s.drop_first();
        lemma_drop_leading_ws_at(t, a - 1);
        assert(t.subrange(a - 1, t.len() as int) =~= s.subrange(a, s.len() as int));
    }
}

proof fn lemma_drop_trailing_ws_at(s: Seq<char>, b: int)
    requires
        0 <= b <= s.len(),
        forall|j: int| b <= j < s.len() ==> is_ws(s[j]),
        b > 0 ==> !is_ws(s[b - 1]),
    ensures
        drop_trailing_ws(s) == s.subrange(0, b),
    decreases s.len() - b,
{
    if b == s.len() {
        assert(s.subrange(0, b) =~= s);
    } else {
        assert(is_ws(s.last()));
        let t = s.drop_last();
        lemma_drop_trailing_ws_at(t, b);
        assert(t.subrange(0, b) =~= s.subrange(0, b));
    }
}

fn is_ws_char(c: char) -> (r: bool)
    ensures
        r == is_ws(c),
{
    c == ' ' || c == '\n' || c == '\t' || c == '\r'
}

/// Strips leading and trailing whitespace, proved equal to `trim_of`.
pub fn trim_str(s: &str) -> (r: String)
    ensures
        r@ == trim_of(s@),
{
    let len = s.unicode_len();
    let mut a: usize = 0;
    while a < len && is_ws_char(s.get_char(a))
        invariant
            len == s@.len(),
            a <= len,
            forall|j: int| 0 <= j < a ==> is_ws(s@[j]),
        decreases len - a,
    {
        a += 1;
    }
    if a == len {
        proof {
            lemma_drop_leading_ws_at(s@, a as int);
            assert(s@.subrange(len as int, len as int) =~= Seq::<char>::empty());
            lemma_drop_trailing_ws_at(Seq::<char>::empty(), 0);
            assert(Seq::<char>::empty().subrange(0, 0) =~= Seq::<char>::empty());
        }
        return String::new();
    }
    let mut b: usize = len;
    while b > a && is_ws_char(s.get_char(b - 1))
        invariant
            len == s@.len(),
            a < len,
            !is_ws(s@[a as int]),
            a <= b <= len,
            forall|j: int| b <= j < len ==> is_ws(s@[j]),
        decreases b,
    {
        b -= 1;
    }
    assert(b > a) by {
        if b == a {
            assert(is_ws(s@[a as int]));
        }
    }
    let core = s.substring_char(a, b);
    proof {
        lemma_drop_leading_ws_at(s@, a as int);
        let t = s@.subrange(a as int, len as int);
        lemma_drop_trailing_ws_at(t, b - a);
        assert(t.subrange(0, b - a) =~= s@.subrange(a as int, b as int));
    }
    core.to_owned()
}

/// The display form of a completed process's streams, proved equal to
/// `combined_output_of`.
pub fn combined_output(stdout: &[u8], stderr: &[u8]) -> (r: String)
    ensures
        r@ == combined_output_of(stdout@, stderr@),
{
    let so = lossy_decode(stdout);
    let se = lossy_decode(stderr);
    let mut c = so;
    c.append("\n");
    c.append(se.as_str());
    trim_str(c.as_str())
}

} // verus!
