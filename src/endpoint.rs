use vstd::prelude::*;
use vstd::string::StrSliceExecFns;
use crate::text::{concat2, contains, ends_with, has_substring, is_suffix};

verus! {

/// Wire format of the inference backend.
#[derive(PartialEq, Eq, Structural, Clone, Copy, Debug)]
pub enum Dialect {
    /// Requests and replies shaped as OpenAI's chat completions.
    OpenAiCompatible,
    /// The native chat API of a local model server.
    Native,
}

/// `s` with every trailing `/` removed.
pub open spec fn strip_trailing_slashes(s: Seq<char>) -> Seq<char>
    decreases s.len(),
{
    if s.len() > 0 && s.last() == '/' {
        strip_trailing_slashes(s.drop_last())
    } else {
        s
    }
}

/// `s` ends with `/v` and one ASCII digit, after at least one more character.
pub open spec fn ends_with_version(s: Seq<char>) -> bool {
    &&& s.len() > 3
    &&& s[s.len() - 3] == '/'
    &&& s[s.len() - 2] == 'v'
    &&& '0' <= s[s.len() - 1] <= '9'
}

/// The dialect and request URL for a configured endpoint, first rule that
/// applies winning.
pub open spec fn resolve(url: Seq<char>) -> (Dialect, Seq<char>) {
    let b = strip_trailing_slashes(url);
    if is_suffix(b, "/chat/completions"@) {
        (Dialect::OpenAiCompatible, b)
    } else if is_suffix(b, "/api/chat"@) {
        (Dialect::Native, b)
    } else if is_suffix(b, "/api/generate"@) {
        (Dialect::Native, b.take(b.len() - "/api/generate"@.len()) + "/api/chat"@)
    } else if ends_with_version(b) {
        (Dialect::OpenAiCompatible, b + "/chat/completions"@)
    } else if is_suffix(b, "/api"@) {
        (Dialect::Native, b + "/chat"@)
    } else if has_substring(b, ":11434"@) || has_substring(b, "ollama"@) {
        (Dialect::Native, b + "/api/chat"@)
    } else {
        (Dialect::OpenAiCompatible, b + "/v1/chat/completions"@)
    }
}

fn trim_trailing_slashes(s: &str) -> (r: &str)
    ensures
        r@ == strip_trailing_slashes(s@),
{
    let mut k = s.unicode_len();
    proof {
        assert(s@.take(k as int) =~= s@);
    }
    while k > 0 && s.get_char(k - 1) == '/'
        invariant
            k <= s@.len(),
            strip_trailing_slashes(s@) == strip_trailing_slashes(s@.take(k as int)),
        decreases k,
    {
        proof {
            assert(s@.take(k as int).drop_last() =~= s@.take(k - 1));
        }
        k = k - 1;
    }
    s.substring_char(0, k)
}

fn is_versioned(b: &str) -> (r: bool)
    ensures
        r == ends_with_version(b@),
{
    let n = b.unicode_len();
    if n <= 3 {
        return false;
    }
    let d = b.get_char(n - 1);
    b.get_char(n - 3) == '/' && b.get_char(n - 2) == 'v' && '0' <= d && d <= '9'
}

/// Classifies an endpoint URL into a dialect and derives the URL that chat
/// requests go to.
pub fn detect_api_mode(api_url: &str) -> (r: (Dialect, String))
    ensures
        r.0 == resolve(api_url@).0,
        r.1@ == resolve(api_url@).1,
{
    let base = trim_trailing_slashes(api_url);
    if ends_with(base, "/chat/completions") {
        (Dialect::OpenAiCompatible, String::from_str(base))
    } else if ends_with(base, "/api/chat") {
        (Dialect::Native, String::from_str(base))
    } else if ends_with(base, "/api/generate") {
        let keep = base.unicode_len() - "/api/generate".unicode_len();
        (Dialect::Native, concat2(base.substring_char(0, keep), "/api/chat"))
    } else if is_versioned(base) {
        (Dialect::OpenAiCompatible, concat2(base, "/chat/completions"))
    } else if ends_with(base, "/api") {
        (Dialect::Native, concat2(base, "/chat"))
    } else if contains(base, ":11434") || contains(base, "ollama") {
        (Dialect::Native, concat2(base, "/api/chat"))
    } else {
        (Dialect::OpenAiCompatible, concat2(base, "/v1/chat/completions"))
    }
}

} // verus!
