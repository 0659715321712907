//! Locale resolution.
//!
//! The resolver decides the interface language from up to three signals, in
//! order: the process locale environment variable, the output of a Windows
//! culture probe, and the output of a macOS preferred-languages probe. The
//! probes themselves are operating-system work done by the host shell; the
//! resolver here is the total decision function over whatever text the
//! probes produced (`None` standing for a probe that failed or does not
//! apply on the host platform). It never fails: any inconclusive signal
//! falls through to the next step, and the final default is `"en"`.

use vstd::prelude::*;
use vstd::string::StrSliceExecFns;
use vstd::string::StringExecFns;

verus! {

/// The descriptor handed back to the shell: the resolved system language,
/// and the default interface language, which currently always equals it
/// (a separate field so that a future user override can diverge).
#[derive(Debug)]
pub struct LanguageInfo {
    pub system_language: String,
    pub default_language: String,
}

/// A `"zh"` match at position `i`, ignoring ASCII case.
pub open spec fn zh_any_case_at(s: Seq<char>, i: int) -> bool {
    (s[i] == 'z' || s[i] == 'Z') && (s[i + 1] == 'h' || s[i + 1] == 'H')
}

/// The text contains the substring `"zh"`, ignoring ASCII case.
pub open spec fn contains_zh_any_case(s: Seq<char>) -> bool {
    exists|i: int| 0 <= i && i + 1 < s.len() && #[trigger] zh_any_case_at(s, i)
}

/// A literal `"zh"` match at position `i`.
pub open spec fn zh_exact_at(s: Seq<char>, i: int) -> bool {
    s[i] == 'z' && s[i + 1] == 'h'
}

/// The text contains the substring `"zh"` exactly.
pub open spec fn contains_zh_exact(s: Seq<char>) -> bool {
    exists|i: int| 0 <= i && i + 1 < s.len() && #[trigger] zh_exact_at(s, i)
}

/// The resolved language tag, over the three probe signals in order:
/// environment variable (case-insensitive), Windows culture probe
/// (case-insensitive), macOS preferred-languages probe (case-sensitive),
/// and finally the `"en"` default.
pub open spec fn resolved_language(
    env: Option<Seq<char>>,
    culture: Option<Seq<char>>,
    preference: Option<Seq<char>>,
) -> Seq<char> {
    if env matches Some(l) && contains_zh_any_case(l) {
        "zh"@
    } else if culture matches Some(c) && contains_zh_any_case(c) {
        "zh"@
    } else if preference matches Some(p) && contains_zh_exact(p) {
        "zh"@
    } else {
        "en"@
    }
}

/// Whether the text contains `"zh"`, ignoring ASCII case.
pub fn text_mentions_zh_any_case(s: &str) -> (r: bool)
    ensures
        r == contains_zh_any_case(s@),
{
    let n = s.unicode_len();
    if n < 2 {
        return false;
    }
    let mut i: usize = 0;
    while i < n - 1
        invariant
            n == s@.len(),
            2 <= n,
            i <= n - 1,
            forall|j: int| 0 <= j < i ==> !zh_any_case_at(s@, j),
        decreases n - i,
    {
        let c0 = s.get_char(i);
        let c1 = s.get_char(i + 1);
        if (c0 == 'z' || c0 == 'Z') && (c1 == 'h' || c1 == 'H') {
            assert(zh_any_case_at(s@, i as int));
            return true;
        }
        i = i + 1;
    }
    false
}

/// Whether the text contains `"zh"` exactly.
pub fn text_mentions_zh(s: &str) -> (r: bool)
    ensures
        r == contains_zh_exact(s@),
{
    let n = s.unicode_len();
    if n < 2 {
        return false;
    }
    let mut i: usize = 0;
    while i < n - 1
        invariant
            n == s@.len(),
            2 <= n,
            i <= n - 1,
            forall|j: int| 0 <= j < i ==> !zh_exact_at(s@, j),
        decreases n - i,
    {
        let c0 = s.get_char(i);
        let c1 = s.get_char(i + 1);
        if c0 == 'z' && c1 == 'h' {
            assert(zh_exact_at(s@, i as int));
            return true;
        }
        i = i + 1;
    }
    false
}

/// Resolve the language tag from the three probe signals, first match wins.
pub fn detect_system_language(
    env_lang: Option<&str>,
    culture_probe: Option<&str>,
    preference_probe: Option<&str>,
) -> (r: String)
    ensures
        r@ == resolved_language(
            env_lang.deep_view(),
            culture_probe.deep_view(),
            preference_probe.deep_view(),
        ),
{
    if let Some(l) = env_lang {
        if text_mentions_zh_any_case(l) {
            return String::from_str("zh");
        }
    }
    if let Some(c) = culture_probe {
        if text_mentions_zh_any_case(c) {
            return String::from_str("zh");
        }
    }
    if let Some(p) = preference_probe {
        if text_mentions_zh(p) {
            return String::from_str("zh");
        }
    }
    String::from_str("en")
}

/// Build the descriptor for the shell. Always succeeds; the `Result` is the
/// shape the command channel expects. Both fields carry the resolved tag.
pub fn get_system_language(
    env_lang: Option<&str>,
    culture_probe: Option<&str>,
    preference_probe: Option<&str>,
) -> (r: Result<LanguageInfo, String>)
    ensures
        r is Ok,
        r matches Ok(info) ==> info.system_language@ == resolved_language(
            env_lang.deep_view(),
            culture_probe.deep_view(),
            preference_probe.deep_view(),
        ),
        r matches Ok(info) ==> info.default_language@ == info.system_language@,
{
    let tag = detect_system_language(env_lang, culture_probe, preference_probe);
    let default_tag = tag.clone();
    Ok(LanguageInfo { system_language: tag, default_language: default_tag })
}

/// An environment value that mentions `"zh"` in any case wins over every
/// probe outcome.
pub proof fn lemma_env_zh_overrides_probes(
    env: Seq<char>,
    culture: Option<Seq<char>>,
    preference: Option<Seq<char>>,
)
    requires
        contains_zh_any_case(env),
    ensures
        resolved_language(Some(env), culture, preference) == "zh"@,
{
}

/// With no `"zh"` signal from the environment or from any probe, resolution
/// falls through to `"en"`.
pub proof fn lemma_no_zh_signal_defaults_en(
    env: Option<Seq<char>>,
    culture: Option<Seq<char>>,
    preference: Option<Seq<char>>,
)
    requires
        env matches Some(l) ==> !contains_zh_any_case(l),
        culture matches Some(c) ==> !contains_zh_any_case(c),
        preference matches Some(p) ==> !contains_zh_exact(p),
    ensures
        resolved_language(env, culture, preference) == "en"@,
{
}

} // verus!
