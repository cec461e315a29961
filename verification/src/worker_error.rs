//! Classification of a worker's `ErrorEvent` into a crash (respawn may help)
//! or a script error (permanent).

use vstd::prelude::*;

use crate::error::BridgeError;

verus! {

/// What `str::to_lowercase` returns for a string with these characters.
pub uninterp spec fn spec_lowercase(s: Seq<char>) -> Seq<char>;

/// Lower-cases a string.
///
/// Trusted: calls `str::to_lowercase`; claims only that the result is
/// `spec_lowercase` of the argument's characters (Unicode lower-case mapping,
/// a function of the argument alone).
#[verifier::external_body]
fn to_lowercase(s: &str) -> (r: String)
    ensures
        r@ == spec_lowercase(s@),
{
    s.to_lowercase()
}

/// Lower-case fragments of error messages that mean the WASM instance died.
pub open spec fn crash_patterns() -> Seq<Seq<char>> {
    seq![
        "unreachable"@,
        "runtimeerror"@,
        "memory access"@,
        "call stack"@,
        "out of memory"@,
        "recursion"@,
        "maximum call stack"@,
    ]
}

/// `needle` occurs in `hay` as a contiguous run.
pub open spec fn contains_run(hay: Seq<char>, needle: Seq<char>) -> bool {
    exists|i: int| 0 <= i && i + needle.len() <= hay.len() && #[trigger] hay.subrange(i, i + needle.len()) == needle
}

/// Whether an error message (and its lower-case form) denotes a crash: an
/// empty message, or one whose lower-case form holds a crash pattern.
pub open spec fn spec_is_crash_message(message: Seq<char>, lowered: Seq<char>) -> bool {
    message.len() == 0 || exists|k: int| 0 <= k < crash_patterns().len() && contains_run(lowered, #[trigger] crash_patterns()[k])
}

fn chars_of(s: &str) -> (r: Vec<char>)
    ensures
        r@ == s@,
{
    let mut out: Vec<char> = Vec::new();
    for c in it: s.chars()
        invariant
            out@ == it.seq().take(it.index() as int),
    {
        out.push(c);
    }
    out
}

/// Whether `needle` occurs in `hay` as a contiguous run.
fn contains_chars(hay: &Vec<char>, needle: &Vec<char>) -> (r: bool)
    ensures
        r == contains_run(hay@, needle@),
{
    if needle.len() > hay.len() {
        return false;
    }
    let last: usize = hay.len() - needle.len();
    let mut start: usize = 0;
    while start <= last
        invariant
            last == hay@.len() - needle@.len(),
            needle@.len() <= hay@.len(),
            hay@.len() <= usize::MAX,
            start <= last + 1,
            forall|i: int| 0 <= i < start ==> #[trigger] hay@.subrange(i, i + needle@.len()) != needle@,
        decreases last + 1 - start,
    {
        let mut j: usize = 0;
        let mut matched = true;
        while j < needle.len()
            invariant
                start <= last,
                last == hay@.len() - needle@.len(),
                needle@.len() <= hay@.len(),
                hay@.len() <= usize::MAX,
                j <= needle@.len(),
                matched <==> forall|m: int| 0 <= m < j ==> hay@[start + m] == needle@[m],
            decreases needle@.len() - j,
        {
            if hay[start + j] != needle[j] {
                matched = false;
            }
            j = j + 1;
        }
        if matched {
            assert(hay@.subrange(start as int, start + needle@.len()) =~= needle@);
            return true;
        }
        assert(hay@.subrange(start as int, start + needle@.len()) != needle@) by {
            let m: int = choose|m: int| 0 <= m < needle@.len() && hay@[start + m] != needle@[m];
            assert(hay@.subrange(start as int, start + needle@.len())[m] == hay@[start + m]);
        }
        if start == last {
            assert forall|i: int| 0 <= i && i + needle@.len() <= hay@.len() implies #[trigger] hay@.subrange(i, i + needle@.len()) != needle@ by {
                assert(i <= start);
            }
            return false;
        }
        start = start + 1;
    }
    false
}

/// Classify a worker error from its message and the message's lower-case form.
pub fn classify_lowered(message: &str, lowered: &str) -> (r: BridgeError)
    ensures
        spec_is_crash_message(message@, lowered@) ==> r is WorkerCrashed,
        !spec_is_crash_message(message@, lowered@) ==> (r matches BridgeError::WorkerError(m) && m@ == message@),
{
    if message.is_empty() {
        assert(message@.len() == 0);
        return BridgeError::WorkerCrashed;
    }
    let hay = chars_of(lowered);
    let patterns: [&str; 7] = [
        "unreachable",
        "runtimeerror",
        "memory access",
        "call stack",
        "out of memory",
        "recursion",
        "maximum call stack",
    ];
    assert(patterns@.len() == crash_patterns().len());
    assert(forall|k: int| 0 <= k < 7 ==> (#[trigger] patterns@[k])@ == crash_patterns()[k]);
    let mut k: usize = 0;
    while k < 7
        invariant
            hay@ == lowered@,
            message@.len() > 0,
            patterns@.len() == 7,
            forall|q: int| 0 <= q < 7 ==> (#[trigger] patterns@[q])@ == crash_patterns()[q],
            forall|q: int| 0 <= q < k ==> !contains_run(lowered@, #[trigger] crash_patterns()[q]),
        decreases 7 - k,
    {
        let needle = chars_of(patterns[k]);
        if contains_chars(&hay, &needle) {
            assert(contains_run(lowered@, crash_patterns()[k as int]));
            return BridgeError::WorkerCrashed;
        }
        k = k + 1;
    }
    BridgeError::WorkerError(message.to_owned())
}

/// Classify a Worker `ErrorEvent` message into a crash (recoverable by
/// respawn) or a script error (permanent): an empty message, or one whose
/// lower-case form holds a crash pattern, is a crash.
pub fn classify_worker_error(message: &str) -> (r: BridgeError)
    ensures
        spec_is_crash_message(message@, spec_lowercase(message@)) ==> r is WorkerCrashed,
        !spec_is_crash_message(message@, spec_lowercase(message@)) ==> (r matches BridgeError::WorkerError(m)
            && m@ == message@),
{
    let lowered = to_lowercase(message);
    classify_lowered(message, lowered.as_str())
}

/// An empty error message always denotes a crash, whatever its lower-case form.
pub proof fn lemma_empty_message_is_crash(message: Seq<char>, lowered: Seq<char>)
    ensures
        message.len() == 0 ==> spec_is_crash_message(message, lowered),
{
}

/// A message is a crash exactly when it is empty or its lower-case form
/// contains one of the documented WASM-death fragments: "unreachable",
/// "runtimeerror", "memory access", "call stack", "out of memory",
/// "recursion" or "maximum call stack". Every other message is a script error.
pub proof fn lemma_crash_fragments(message: Seq<char>, lowered: Seq<char>)
    ensures
        spec_is_crash_message(message, lowered) <==> (message.len() == 0
            || contains_run(lowered, "unreachable"@)
            || contains_run(lowered, "runtimeerror"@)
            || contains_run(lowered, "memory access"@)
            || contains_run(lowered, "call stack"@)
            || contains_run(lowered, "out of memory"@)
            || contains_run(lowered, "recursion"@)
            || contains_run(lowered, "maximum call stack"@)),
{
    let p = crash_patterns();
    assert(p[0] == "unreachable"@);
    assert(p[1] == "runtimeerror"@);
    assert(p[2] == "memory access"@);
    assert(p[3] == "call stack"@);
    assert(p[4] == "out of memory"@);
    assert(p[5] == "recursion"@);
    assert(p[6] == "maximum call stack"@);
    assert(p.len() == 7);
    if message.len() != 0 && spec_is_crash_message(message, lowered) {
        let k = choose|k: int| 0 <= k < p.len() && contains_run(lowered, #[trigger] p[k]);
        assert(k == 0 || k == 1 || k == 2 || k == 3 || k == 4 || k == 5 || k == 6);
    }
    if contains_run(lowered, "unreachable"@) { assert(contains_run(lowered, p[0])); }
    if contains_run(lowered, "runtimeerror"@) { assert(contains_run(lowered, p[1])); }
    if contains_run(lowered, "memory access"@) { assert(contains_run(lowered, p[2])); }
    if contains_run(lowered, "call stack"@) { assert(contains_run(lowered, p[3])); }
    if contains_run(lowered, "out of memory"@) { assert(contains_run(lowered, p[4])); }
    if contains_run(lowered, "recursion"@) { assert(contains_run(lowered, p[5])); }
    if contains_run(lowered, "maximum call stack"@) { assert(contains_run(lowered, p[6])); }
}

/// A message whose lower-case form holds a run of characters equal to
/// "runtimeerror" anywhere (a WASM trap as browsers report it) is a crash,
/// whatever else it says.
pub proof fn lemma_runtime_error_is_crash(message: Seq<char>, lowered: Seq<char>, at: int)
    requires
        0 <= at,
        at + "runtimeerror"@.len() <= lowered.len(),
        lowered.subrange(at, at + "runtimeerror"@.len()) == "runtimeerror"@,
    ensures
        spec_is_crash_message(message, lowered),
{
    lemma_crash_fragments(message, lowered);
    assert(contains_run(lowered, "runtimeerror"@));
}

} // verus!
