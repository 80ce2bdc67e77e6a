use vstd::prelude::*;
use vstd::string::StrSliceExecFns;
use crate::catalog::GitHubRepo;
use crate::text::{decimal, decimal_text, join, join_texts, matches_at, opt_view};

verus! {

/// Separator between the evidence records of a prompt.
pub open spec fn record_separator() -> Seq<char> {
    "\n\n---\n\n"@
}

/// Separator between the repository names of a prompt.
pub open spec fn name_separator() -> Seq<char> {
    ", "@
}

pub open spec fn full_prompt(user: Seq<char>, repos: Seq<char>, names: Seq<char>, lang: Seq<char>, count: Seq<char>) -> Seq<char> {
    "You are a senior software analyst and branding expert. Analyze the following GitHub profile data deeply.\n\nCRITICAL RULES:\n- Respond ENTIRELY in "@
        + lang
        + ".\n- You MUST generate an entry for EVERY repository listed below. Do NOT skip any.\n- Required repos (you MUST include ALL of these): ["@
        + names
        + "]\n- If a project has SOURCE CODE provided, READ and UNDERSTAND the code to determine what the project does.\n- If a project has NO README, use the code, dependencies, description, language, and metadata to infer the project's purpose. NEVER leave a project without analysis.\n- If a project only has metadata (name, language, description), use that to intelligently infer what the project does and generate a meaningful description.\n- Be specific and technical in your descriptions — do NOT use generic phrases like \"this is a project\".\n- Every project MUST have a detailed_description (3-5 sentences) and at least 2 use_cases.\n- Respond ONLY with valid JSON. No markdown fences, no extra text.\n\nGitHub User: "@
        + user
        + "\n\nRepository Data:\n"@
        + repos
        + "\n\nRespond in this exact JSON format (include ALL "@
        + count
        + " repositories):\n{\n  \"hero_title\": \"A short, impactful professional title for this developer (in "@
        + lang
        + ")\",\n  \"bio\": \"A 3-4 sentence professional biography highlighting their expertise, tech focus, and impact (in "@
        + lang
        + ")\",\n  \"projects\": [\n    {\n      \"name\": \"exact-repo-name\",\n      \"problem_solved\": \"One clear sentence about the core problem this project solves (in "@
        + lang
        + ")\",\n      \"detailed_description\": \"3-5 sentence deep technical description of what the project does, its architecture, and key features (in "@
        + lang
        + ")\",\n      \"use_cases\": [\"Specific use case 1 (in "@
        + lang
        + ")\", \"Specific use case 2 (in "@
        + lang
        + ")\", \"Specific use case 3 (in "@
        + lang
        + ")\"],\n      \"tech_stack\": [\"technology1\", \"technology2\", \"technology3\"]\n    }\n  ]\n}"@
}

fn render_full(user: &str, repos: &str, names: &str, lang: &str, count: &str) -> (r: String)
    ensures
        r@ == full_prompt(user@, repos@, names@, lang@, count@),
{
    let mut r = String::from_str("You are a senior software analyst and branding expert. Analyze the following GitHub profile data deeply.\n\nCRITICAL RULES:\n- Respond ENTIRELY in ");
    r.append(lang);
    r.append(".\n- You MUST generate an entry for EVERY repository listed below. Do NOT skip any.\n- Required repos (you MUST include ALL of these): [");
    r.append(names);
    r.append("]\n- If a project has SOURCE CODE provided, READ and UNDERSTAND the code to determine what the project does.\n- If a project has NO README, use the code, dependencies, description, language, and metadata to infer the project's purpose. NEVER leave a project without analysis.\n- If a project only has metadata (name, language, description), use that to intelligently infer what the project does and generate a meaningful description.\n- Be specific and technical in your descriptions — do NOT use generic phrases like \"this is a project\".\n- Every project MUST have a detailed_description (3-5 sentences) and at least 2 use_cases.\n- Respond ONLY with valid JSON. No markdown fences, no extra text.\n\nGitHub User: ");
    r.append(user);
    r.append("\n\nRepository Data:\n");
    r.append(repos);
    r.append("\n\nRespond in this exact JSON format (include ALL ");
    r.append(count);
    r.append(" repositories):\n{\n  \"hero_title\": \"A short, impactful professional title for this developer (in ");
    r.append(lang);
    r.append(")\",\n  \"bio\": \"A 3-4 sentence professional biography highlighting their expertise, tech focus, and impact (in ");
    r.append(lang);
    r.append(")\",\n  \"projects\": [\n    {\n      \"name\": \"exact-repo-name\",\n      \"problem_solved\": \"One clear sentence about the core problem this project solves (in ");
    r.append(lang);
    r.append(")\",\n      \"detailed_description\": \"3-5 sentence deep technical description of what the project does, its architecture, and key features (in ");
    r.append(lang);
    r.append(")\",\n      \"use_cases\": [\"Specific use case 1 (in ");
    r.append(lang);
    r.append(")\", \"Specific use case 2 (in ");
    r.append(lang);
    r.append(")\", \"Specific use case 3 (in ");
    r.append(lang);
    r.append(")\"],\n      \"tech_stack\": [\"technology1\", \"technology2\", \"technology3\"]\n    }\n  ]\n}");
    r
}

pub open spec fn batch_prompt(repos: Seq<char>, names: Seq<char>, lang: Seq<char>, count: Seq<char>) -> Seq<char> {
    "You are a senior software analyst. Analyze the following repositories deeply.\n\nCRITICAL RULES:\n- Respond ENTIRELY in "@
        + lang
        + ".\n- You MUST generate an entry for EVERY repository: ["@
        + names
        + "]\n- If a project has SOURCE CODE, READ and UNDERSTAND the code to determine what it does.\n- If a project has NO README, use code, dependencies, description, language, and metadata to infer purpose.\n- Be specific and technical. Do NOT use generic phrases.\n- Every project MUST have detailed_description (3-5 sentences) and at least 2 use_cases.\n- Respond ONLY with valid JSON. No markdown fences, no extra text.\n\nRepository Data:\n"@
        + repos
        + "\n\nRespond in this exact JSON format (include ALL "@
        + count
        + " repositories):\n{\n  \"projects\": [\n    {\n      \"name\": \"exact-repo-name\",\n      \"problem_solved\": \"One clear sentence (in "@
        + lang
        + ")\",\n      \"detailed_description\": \"3-5 sentence technical description (in "@
        + lang
        + ")\",\n      \"use_cases\": [\"Use case 1 (in "@
        + lang
        + ")\", \"Use case 2 (in "@
        + lang
        + ")\"],\n      \"tech_stack\": [\"tech1\", \"tech2\"]\n    }\n  ]\n}"@
}

fn render_batch(repos: &str, names: &str, lang: &str, count: &str) -> (r: String)
    ensures
        r@ == batch_prompt(repos@, names@, lang@, count@),
{
    let mut r = String::from_str("You are a senior software analyst. Analyze the following repositories deeply.\n\nCRITICAL RULES:\n- Respond ENTIRELY in ");
    r.append(lang);
    r.append(".\n- You MUST generate an entry for EVERY repository: [");
    r.append(names);
    r.append("]\n- If a project has SOURCE CODE, READ and UNDERSTAND the code to determine what it does.\n- If a project has NO README, use code, dependencies, description, language, and metadata to infer purpose.\n- Be specific and technical. Do NOT use generic phrases.\n- Every project MUST have detailed_description (3-5 sentences) and at least 2 use_cases.\n- Respond ONLY with valid JSON. No markdown fences, no extra text.\n\nRepository Data:\n");
    r.append(repos);
    r.append("\n\nRespond in this exact JSON format (include ALL ");
    r.append(count);
    r.append(" repositories):\n{\n  \"projects\": [\n    {\n      \"name\": \"exact-repo-name\",\n      \"problem_solved\": \"One clear sentence (in ");
    r.append(lang);
    r.append(")\",\n      \"detailed_description\": \"3-5 sentence technical description (in ");
    r.append(lang);
    r.append(")\",\n      \"use_cases\": [\"Use case 1 (in ");
    r.append(lang);
    r.append(")\", \"Use case 2 (in ");
    r.append(lang);
    r.append(")\"],\n      \"tech_stack\": [\"tech1\", \"tech2\"]\n    }\n  ]\n}");
    r
}

/// The prompt for the first batch: it asks for a title, a biography and one
/// project entry per listed repository.
pub fn build_llm_prompt_full(username: &str, contexts: &Vec<String>, language: &str, repo_names: &Vec<String>) -> (r: String)
    requires
        repo_names@.len() <= u64::MAX,
    ensures
        r@ == full_prompt(
            username@,
            join(contexts.deep_view(), record_separator()),
            join(repo_names.deep_view(), name_separator()),
            language@,
            decimal(repo_names@.len()),
        ),
{
    let repo_data = join_texts(contexts, "\n\n---\n\n");
    let names_list = join_texts(repo_names, ", ");
    let count = decimal_text(repo_names.len() as u64);
    render_full(username, repo_data.as_str(), names_list.as_str(), language, count.as_str())
}

/// The prompt for every later batch: it asks for project entries only.
pub fn build_llm_prompt_batch(contexts: &Vec<String>, language: &str, repo_names: &Vec<String>) -> (r: String)
    requires
        repo_names@.len() <= u64::MAX,
    ensures
        r@ == batch_prompt(
            join(contexts.deep_view(), record_separator()),
            join(repo_names.deep_view(), name_separator()),
            language@,
            decimal(repo_names@.len()),
        ),
{
    let repo_data = join_texts(contexts, "\n\n---\n\n");
    let names_list = join_texts(repo_names, ", ");
    let count = decimal_text(repo_names.len() as u64);
    render_batch(repo_data.as_str(), names_list.as_str(), language, count.as_str())
}

pub open spec fn full_system_message(lang: Seq<char>) -> Seq<char> {
    "You are a senior software analyst and branding expert. Respond ONLY with valid JSON. No markdown fences, no extra text. All text content must be in "@
        + lang + "."@
}

pub open spec fn batch_system_message(lang: Seq<char>) -> Seq<char> {
    "You are a senior software analyst. Respond ONLY with valid JSON. No markdown fences, no extra text. All text content must be in "@
        + lang + "."@
}

/// The system message that goes with a prompt: it fixes the reply
/// language and asks for JSON only.
pub fn system_message(full: bool, language: &str) -> (r: String)
    ensures
        r@ == if full { full_system_message(language@) } else { batch_system_message(language@) },
{
    let mut r = if full {
        String::from_str("You are a senior software analyst and branding expert. Respond ONLY with valid JSON. No markdown fences, no extra text. All text content must be in ")
    } else {
        String::from_str("You are a senior software analyst. Respond ONLY with valid JSON. No markdown fences, no extra text. All text content must be in ")
    };
    r.append(language);
    r.append(".");
    r
}

/// White space as `char::is_whitespace` has it (the Unicode `White_Space`
/// property).
pub open spec fn is_white(c: char) -> bool {
    ('\u{9}' <= c <= '\u{d}') || c == ' ' || c == '\u{85}' || c == '\u{a0}' || c == '\u{1680}'
        || ('\u{2000}' <= c <= '\u{200a}') || c == '\u{2028}' || c == '\u{2029}' || c == '\u{202f}'
        || c == '\u{205f}' || c == '\u{3000}'
}

fn is_white_exec(c: char) -> (r: bool)
    ensures
        r == is_white(c),
{
    ('\u{9}' <= c && c <= '\u{d}') || c == ' ' || c == '\u{85}' || c == '\u{a0}' || c == '\u{1680}'
        || ('\u{2000}' <= c && c <= '\u{200a}') || c == '\u{2028}' || c == '\u{2029}' || c == '\u{202f}'
        || c == '\u{205f}' || c == '\u{3000}'
}

/// Number of leading white-space characters of `s`.
pub open spec fn lead_white(s: Seq<char>) -> nat
    decreases s.len(),
{
    if s.len() > 0 && is_white(s[0]) {
        1 + lead_white(s.skip(1))
    } else {
        0
    }
}

/// `s` without trailing white space.
pub open spec fn trim_end_white(s: Seq<char>) -> Seq<char>
    decreases s.len(),
{
    if s.len() > 0 && is_white(s.last()) {
        trim_end_white(s.drop_last())
    } else {
        s
    }
}

/// `s` without leading and trailing white space.
pub open spec fn trim_white(s: Seq<char>) -> Seq<char> {
    trim_end_white(s.skip(lead_white(s) as int))
}

/// `s` with every leading repetition of `p` removed.
pub open spec fn strip_leading(s: Seq<char>, p: Seq<char>) -> Seq<char>
    decreases s.len(),
{
    if p.len() > 0 && p.len() <= s.len() && s.take(p.len() as int) == p {
        strip_leading(s.skip(p.len() as int), p)
    } else {
        s
    }
}

/// `s` with every trailing repetition of `p` removed.
pub open spec fn strip_trailing(s: Seq<char>, p: Seq<char>) -> Seq<char>
    decreases s.len(),
{
    if p.len() > 0 && p.len() <= s.len() && s.skip(s.len() - p.len()) == p {
        strip_trailing(s.take(s.len() - p.len()), p)
    } else {
        s
    }
}

/// A model reply without surrounding white space and code-fence markers.
pub open spec fn cleaned_reply(s: Seq<char>) -> Seq<char> {
    trim_white(
        strip_trailing(strip_leading(strip_leading(trim_white(s), "```json"@), "```"@), "```"@),
    )
}

proof fn lemma_lead_white_bound(s: Seq<char>)
    ensures
        lead_white(s) <= s.len(),
    decreases s.len(),
{
    if s.len() > 0 && is_white(s[0]) {
        lemma_lead_white_bound(s.skip(1));
    }
}

fn skip_lead_white(s: &str, lo: usize, hi: usize) -> (r: usize)
    requires
        lo <= hi <= s@.len(),
    ensures
        lo <= r <= hi,
        s@.subrange(r as int, hi as int) == s@.subrange(lo as int, hi as int).skip(
            lead_white(s@.subrange(lo as int, hi as int)) as int,
        ),
{
    let ghost t0 = s@.subrange(lo as int, hi as int);
    let mut i = lo;
    proof {
        assert(t0.skip(lead_white(t0) as int) =~= s@.subrange(i as int, hi as int).skip(
            lead_white(s@.subrange(i as int, hi as int)) as int));
    }
    while i < hi && is_white_exec(s.get_char(i))
        invariant
            lo <= i <= hi <= s@.len(),
            t0.skip(lead_white(t0) as int) == s@.subrange(i as int, hi as int).skip(
                lead_white(s@.subrange(i as int, hi as int)) as int,
            ),
        decreases hi - i,
    {
        let ghost t = s@.subrange(i as int, hi as int);
        proof {
            assert(t[0] == s@[i as int]);
            assert(t.skip(1) =~= s@.subrange(i + 1, hi as int));
            assert(lead_white(t) == 1 + lead_white(t.skip(1)));
            lemma_lead_white_bound(t.skip(1));
            assert(t.skip(lead_white(t) as int) =~= t.skip(1).skip(lead_white(t.skip(1)) as int));
        }
        i = i + 1;
    }
    proof {
        let t = s@.subrange(i as int, hi as int);
        if i < hi {
            assert(t[0] == s@[i as int]);
        }
        assert(t.skip(0) =~= t);
    }
    i
}

fn drop_trail_white(s: &str, lo: usize, hi: usize) -> (r: usize)
    requires
        lo <= hi <= s@.len(),
    ensures
        lo <= r <= hi,
        s@.subrange(lo as int, r as int) == trim_end_white(s@.subrange(lo as int, hi as int)),
{
    let ghost t0 = s@.subrange(lo as int, hi as int);
    let mut j = hi;
    while j > lo && is_white_exec(s.get_char(j - 1))
        invariant
            lo <= j <= hi <= s@.len(),
            trim_end_white(t0) == trim_end_white(s@.subrange(lo as int, j as int)),
        decreases j,
    {
        let ghost t = s@.subrange(lo as int, j as int);
        proof {
            assert(t.last() == s@[j - 1]);
            assert(t.drop_last() =~= s@.subrange(lo as int, j - 1));
        }
        j = j - 1;
    }
    proof {
        let t = s@.subrange(lo as int, j as int);
        if j > lo {
            assert(t.last() == s@[j - 1]);
        }
    }
    j
}

fn strip_lead_pattern(s: &str, lo: usize, hi: usize, p: &str) -> (r: usize)
    requires
        lo <= hi <= s@.len(),
    ensures
        lo <= r <= hi,
        s@.subrange(r as int, hi as int) == strip_leading(s@.subrange(lo as int, hi as int), p@),
{
    let ghost t0 = s@.subrange(lo as int, hi as int);
    let m = p.unicode_len();
    if m == 0 {
        return lo;
    }
    let mut i = lo;
    while m <= hi - i && matches_at(s, p, i)
        invariant
            lo <= i <= hi <= s@.len(),
            m == p@.len(),
            m > 0,
            strip_leading(t0, p@) == strip_leading(s@.subrange(i as int, hi as int), p@),
        decreases hi - i,
    {
        let ghost t = s@.subrange(i as int, hi as int);
        proof {
            assert(t.take(m as int) =~= s@.subrange(i as int, i + m));
            assert(t.skip(m as int) =~= s@.subrange(i + m, hi as int));
        }
        i = i + m;
    }
    proof {
        let t = s@.subrange(i as int, hi as int);
        if m <= hi - i {
            assert(t.take(m as int) =~= s@.subrange(i as int, i + m));
        }
    }
    i
}

fn strip_trail_pattern(s: &str, lo: usize, hi: usize, p: &str) -> (r: usize)
    requires
        lo <= hi <= s@.len(),
    ensures
        lo <= r <= hi,
        s@.subrange(lo as int, r as int) == strip_trailing(s@.subrange(lo as int, hi as int), p@),
{
    let ghost t0 = s@.subrange(lo as int, hi as int);
    let m = p.unicode_len();
    if m == 0 {
        return hi;
    }
    let mut j = hi;
    while m <= j - lo && matches_at(s, p, j - m)
        invariant
            lo <= j <= hi <= s@.len(),
            m == p@.len(),
            m > 0,
            strip_trailing(t0, p@) == strip_trailing(s@.subrange(lo as int, j as int), p@),
        decreases j,
    {
        let ghost t = s@.subrange(lo as int, j as int);
        proof {
            assert(t.skip(t.len() - m) =~= s@.subrange(j - m, j as int));
            assert(t.take(t.len() - m) =~= s@.subrange(lo as int, j - m));
        }
        j = j - m;
    }
    proof {
        let t = s@.subrange(lo as int, j as int);
        if m <= j - lo {
            assert(t.skip(t.len() - m) =~= s@.subrange(j - m, j as int));
        }
    }
    j
}

/// Strips surrounding white space and Markdown code-fence markers
/// (`` ```json `` or `` ``` `` in front, `` ``` `` behind) from a model reply.
pub fn clean_reply(content: &str) -> (r: String)
    ensures
        r@ == cleaned_reply(content@),
{
    let n = content.unicode_len();
    let ghost s = content@;
    let lo = skip_lead_white(content, 0, n);
    let hi = drop_trail_white(content, lo, n);
    proof {
        assert(s.subrange(0, n as int) =~= s);
        assert(s.subrange(lo as int, hi as int) =~= trim_white(s));
    }
    let lo = strip_lead_pattern(content, lo, hi, "```json");
    let lo = strip_lead_pattern(content, lo, hi, "```");
    let hi = strip_trail_pattern(content, lo, hi, "```");
    let lo2 = skip_lead_white(content, lo, hi);
    let hi2 = drop_trail_white(content, lo2, hi);
    String::from_str(content.substring_char(lo2, hi2))
}

/// One line of the single-prompt listing of a repository.
pub open spec fn listing_line(r: GitHubRepo) -> Seq<char> {
    "- "@ + r.name@ + " | lang: "@ + match opt_view(r.language) {
        Some(l) => l,
        None => "unknown"@,
    } + " | stars: "@ + decimal(r.stargazers_count as nat) + " | forks: "@ + decimal(r.forks_count as nat)
        + " | topics: "@ + if r.topics@.len() == 0 {
        "none"@
    } else {
        join(r.topics.deep_view(), ", "@)
    } + " | desc: "@ + match opt_view(r.description) {
        Some(d) => d,
        None => Seq::empty(),
    } + "\n"@
}

pub open spec fn listing_lines(repos: Seq<GitHubRepo>) -> Seq<char>
    decreases repos.len(),
{
    if repos.len() == 0 {
        Seq::empty()
    } else {
        listing_lines(repos.drop_last()) + listing_line(repos.last())
    }
}

/// The single prompt that asks for title, biography and projects from the
/// repository metadata alone.
pub open spec fn single_prompt(username: Seq<char>, lines: Seq<char>, language: Seq<char>) -> Seq<char> {
    "You are a senior software analyst and branding expert. Return ONLY valid JSON in "@ + language
        + ".\n\nUser: "@ + username + "\nRepositories:\n"@ + lines
        + "\n\nReturn this JSON shape:\n{\n  \"hero_title\": \"...\",\n  \"bio\": \"...\",\n  \"projects\": [\n    {\n      \"name\": \"repo-name\",\n      \"problem_solved\": \"...\",\n      \"detailed_description\": \"...\",\n      \"use_cases\": [\"...\"],\n      \"tech_stack\": [\"...\"]\n    }\n  ]\n}\n\nRules:\n- Include every listed repository in projects.\n- Match each project.name exactly to repository name.\n- Keep descriptions concise and factual."@
}

fn listing_line_text(r: &GitHubRepo) -> (t: String)
    ensures
        t@ == listing_line(*r),
{
    let mut t = String::from_str("- ");
    t.append(r.name.as_str());
    t.append(" | lang: ");
    match &r.language {
        Some(l) => t.append(l.as_str()),
        None => t.append("unknown"),
    }
    t.append(" | stars: ");
    let stars = decimal_text(r.stargazers_count as u64);
    t.append(stars.as_str());
    t.append(" | forks: ");
    let forks = decimal_text(r.forks_count as u64);
    t.append(forks.as_str());
    t.append(" | topics: ");
    if r.topics.len() == 0 {
        t.append("none");
    } else {
        let topics = join_texts(&r.topics, ", ");
        t.append(topics.as_str());
    }
    t.append(" | desc: ");
    match &r.description {
        Some(d) => t.append(d.as_str()),
        None => {
            proof {
                assert(t@ + Seq::<char>::empty() =~= t@);
            }
        },
    }
    t.append("\n");
    t
}

/// The single prompt over a repository listing, one metadata line per
/// repository, for a client that sends one request only.
pub fn build_prompt(username: &str, repos: &Vec<GitHubRepo>, language: &str) -> (r: String)
    ensures
        r@ == single_prompt(username@, listing_lines(repos@), language@),
{
    let mut lines = String::new();
    let mut i: usize = 0;
    while i < repos.len()
        invariant
            i <= repos@.len(),
            lines@ == listing_lines(repos@.take(i as int)),
        decreases repos@.len() - i,
    {
        proof {
            assert(repos@.take(i + 1).drop_last() =~= repos@.take(i as int));
        }
        let line = listing_line_text(&repos[i]);
        lines.append(line.as_str());
        i = i + 1;
    }
    proof {
        assert(repos@.take(i as int) =~= repos@);
    }
    let mut r = String::from_str("You are a senior software analyst and branding expert. Return ONLY valid JSON in ");
    r.append(language);
    r.append(".\n\nUser: ");
    r.append(username);
    r.append("\nRepositories:\n");
    r.append(lines.as_str());
    r.append("\n\nReturn this JSON shape:\n{\n  \"hero_title\": \"...\",\n  \"bio\": \"...\",\n  \"projects\": [\n    {\n      \"name\": \"repo-name\",\n      \"problem_solved\": \"...\",\n      \"detailed_description\": \"...\",\n      \"use_cases\": [\"...\"],\n      \"tech_stack\": [\"...\"]\n    }\n  ]\n}\n\nRules:\n- Include every listed repository in projects.\n- Match each project.name exactly to repository name.\n- Keep descriptions concise and factual.");
    r
}

} // verus!
