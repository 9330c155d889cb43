//! Custom URL schemes: the scheme a registration names, and whether the
//! app's Info.plist declares it.
use vstd::prelude::*;
use crate::strings::{
    append, chars_of, eq_ignore_ascii_case, is_whitespace, owned, spec_eq_ignore_ascii_case,
    spec_is_whitespace, string_from_chars,
};

verus! {

/// `s` without its leading white space.
pub open spec fn spec_trim_start(s: Seq<char>) -> Seq<char>
    decreases s.len(),
{
    if s.len() > 0 && spec_is_whitespace(s[0]) {
        spec_trim_start(s.drop_first())
    } else {
        s
    }
}

/// `s` without its trailing white space.
pub open spec fn spec_trim_end(s: Seq<char>) -> Seq<char>
    decreases s.len(),
{
    if s.len() > 0 && spec_is_whitespace(s.last()) {
        spec_trim_end(s.drop_last())
    } else {
        s
    }
}

/// Whether `s` ends with `://`.
pub open spec fn ends_with_separator(s: Seq<char>) -> bool {
    s.len() >= 3 && s[s.len() - 3] == ':' && s[s.len() - 2] == '/' && s[s.len() - 1] == '/'
}

/// `s` with every trailing `://` removed.
pub open spec fn spec_strip_separators(s: Seq<char>) -> Seq<char>
    decreases s.len(),
{
    if ends_with_separator(s) {
        spec_strip_separators(s.subrange(0, s.len() - 3))
    } else {
        s
    }
}

/// The part of `s` before its first `:` (all of `s` when it has none).
pub open spec fn spec_before_colon(s: Seq<char>) -> Seq<char>
    decreases s.len(),
{
    if s.len() == 0 {
        s
    } else if s[0] == ':' {
        seq![]
    } else {
        seq![s[0]] + spec_before_colon(s.drop_first())
    }
}

/// The scheme a URL registration names: the string trimmed of white space,
/// stripped of trailing `://`, up to its first `:`.
pub open spec fn spec_url_scheme(url: Seq<char>) -> Seq<char> {
    spec_before_colon(spec_strip_separators(spec_trim_end(spec_trim_start(url))))
}

proof fn lemma_trim_start_step(v: Seq<char>, i: int)
    requires
        0 <= i < v.len(),
        spec_is_whitespace(v[i]),
    ensures
        spec_trim_start(v.subrange(i, v.len() as int)) == spec_trim_start(
            v.subrange(i + 1, v.len() as int),
        ),
{
    assert(v.subrange(i, v.len() as int).drop_first() == v.subrange(i + 1, v.len() as int));
}

proof fn lemma_trim_end_step(v: Seq<char>, a: int, b: int)
    requires
        0 <= a < b <= v.len(),
        spec_is_whitespace(v[b - 1]),
    ensures
        spec_trim_end(v.subrange(a, b)) == spec_trim_end(v.subrange(a, b - 1)),
{
    assert(v.subrange(a, b).drop_last() == v.subrange(a, b - 1));
}

proof fn lemma_before_colon_step(v: Seq<char>, k: int, end: int)
    requires
        0 <= k < end <= v.len(),
        v[k] != ':',
    ensures
        spec_before_colon(v.subrange(k, end)) == seq![v[k]] + spec_before_colon(
            v.subrange(k + 1, end),
        ),
{
    assert(v.subrange(k, end).drop_first() == v.subrange(k + 1, end));
}

/// The scheme of a URL string, as `register_url_scheme` extracts it.
pub fn url_scheme(url: &str) -> (scheme: String)
    ensures
        scheme@ == spec_url_scheme(url@),
{
    let v = chars_of(url);
    let n = v.len();
    let mut start: usize = 0;
    assert(v@.subrange(0, n as int) == v@);
    while start < n && is_whitespace(v[start])
        invariant
            n == v@.len(),
            start <= n,
            spec_trim_start(v@) == spec_trim_start(v@.subrange(start as int, n as int)),
        decreases n - start,
    {
        proof {
            lemma_trim_start_step(v@, start as int);
        }
        start = start + 1;
    }
    let ghost trimmed_start = v@.subrange(start as int, n as int);
    assert(spec_trim_start(v@) == trimmed_start);
    let mut end: usize = n;
    while end > start && is_whitespace(v[end - 1])
        invariant
            n == v@.len(),
            start <= end <= n,
            spec_trim_end(trimmed_start) == spec_trim_end(v@.subrange(start as int, end as int)),
        decreases end - start,
    {
        proof {
            lemma_trim_end_step(v@, start as int, end as int);
        }
        end = end - 1;
    }
    let ghost trimmed = v@.subrange(start as int, end as int);
    assert(trimmed.len() > 0 ==> trimmed.last() == v@[end - 1]);
    assert(spec_trim_end(trimmed_start) == trimmed);
    while end - start >= 3 && v[end - 3] == ':' && v[end - 2] == '/' && v[end - 1] == '/'
        invariant
            n == v@.len(),
            start <= end <= n,
            spec_strip_separators(trimmed) == spec_strip_separators(
                v@.subrange(start as int, end as int),
            ),
        decreases end - start,
    {
        proof {
            let cur = v@.subrange(start as int, end as int);
            assert(ends_with_separator(cur));
            assert(cur.subrange(0, cur.len() - 3) == v@.subrange(start as int, end - 3));
        }
        end = end - 3;
    }
    let ghost stripped = v@.subrange(start as int, end as int);
    proof {
        if stripped.len() >= 3 {
            assert(stripped[stripped.len() - 3] == v@[end - 3]);
            assert(stripped[stripped.len() - 2] == v@[end - 2]);
            assert(stripped[stripped.len() - 1] == v@[end - 1]);
        }
    }
    assert(spec_strip_separators(trimmed) == stripped);
    let mut out: Vec<char> = Vec::new();
    let mut k: usize = start;
    while k < end && v[k] != ':'
        invariant
            n == v@.len(),
            start <= k <= end <= n,
            out@ == v@.subrange(start as int, k as int),
            spec_before_colon(stripped) == out@ + spec_before_colon(
                v@.subrange(k as int, end as int),
            ),
        decreases end - k,
    {
        proof {
            lemma_before_colon_step(v@, k as int, end as int);
        }
        out.push(v[k]);
        assert(v@.subrange(start as int, k + 1) == v@.subrange(start as int, k as int).push(v@[k as int]));
        k = k + 1;
    }
    proof {
        let rest = v@.subrange(k as int, end as int);
        if k < end {
            assert(rest[0] == ':');
        }
        assert(spec_before_colon(rest) == Seq::<char>::empty());
        assert(out@ + Seq::<char>::empty() == out@);
    }
    string_from_chars(&out)
}

/// Whether `scheme` appears, up to ASCII case, among the schemes the
/// Info.plist declares.
pub fn scheme_is_declared(declared: &[String], scheme: &str) -> (found: bool)
    ensures
        found == exists|i: int| 0 <= i < declared@.len() && spec_eq_ignore_ascii_case(
            declared@[i]@,
            scheme@,
        ),
{
    let mut i: usize = 0;
    while i < declared.len()
        invariant
            i <= declared.len(),
            forall|j: int| 0 <= j < i ==> !spec_eq_ignore_ascii_case(declared@[j]@, scheme@),
        decreases declared.len() - i,
    {
        if eq_ignore_ascii_case(declared[i].as_str(), scheme) {
            return true;
        }
        i = i + 1;
    }
    false
}

/// Why a URL scheme cannot be registered.
#[derive(Debug)]
pub enum UrlSchemeError {
    /// The app has no main bundle.
    BundleUnavailable,
    /// The main bundle has no Info.plist.
    InfoPlistMissing,
    /// The scheme is not among the Info.plist's `CFBundleURLTypes`.
    NotDeclared { scheme: String },
}

impl UrlSchemeError {
    /// The error's message.
    pub fn message(&self) -> (m: String)
        ensures
            self is BundleUnavailable ==> m@
                == "main bundle unavailable; cannot validate URL scheme"@,
            self is InfoPlistMissing ==> m@ == "Info.plist missing; cannot validate URL scheme"@,
            self matches UrlSchemeError::NotDeclared { scheme } ==> m@ == "URL scheme '"@
                + scheme@ + "' is not declared in CFBundleURLTypes"@,
    {
        match self {
            UrlSchemeError::BundleUnavailable => owned(
                "main bundle unavailable; cannot validate URL scheme",
            ),
            UrlSchemeError::InfoPlistMissing => owned(
                "Info.plist missing; cannot validate URL scheme",
            ),
            UrlSchemeError::NotDeclared { scheme } => {
                let mut m = owned("URL scheme '");
                append(&mut m, scheme.as_str());
                append(&mut m, "' is not declared in CFBundleURLTypes");
                m
            },
        }
    }
}

/// What the app bundle says about URL types.
pub enum BundleUrlTypes {
    /// No main bundle.
    NoBundle,
    /// A bundle without an Info.plist.
    NoInfoPlist,
    /// An Info.plist without `CFBundleURLTypes`.
    NoUrlTypes,
    /// The schemes the Info.plist's URL types declare, in order.
    Declared(Vec<String>),
}

/// `register_url_scheme`: iOS cannot register schemes at run time, so the
/// registration succeeds when the scheme `url` names is declared in the
/// Info.plist, and fails otherwise.
pub fn register_url_scheme(url: &str, bundle: &BundleUrlTypes) -> (r: Result<(), UrlSchemeError>)
    ensures
        bundle is NoBundle ==> r matches Err(UrlSchemeError::BundleUnavailable),
        bundle is NoInfoPlist ==> r matches Err(UrlSchemeError::InfoPlistMissing),
        bundle is NoUrlTypes ==> (r matches Err(UrlSchemeError::NotDeclared { scheme }) && scheme@
            == spec_url_scheme(url@)),
        bundle matches BundleUrlTypes::Declared(schemes) ==> ({
            let found = exists|i: int| 0 <= i < schemes@.len() && spec_eq_ignore_ascii_case(
                schemes@[i]@,
                spec_url_scheme(url@),
            );
            &&& found ==> r is Ok
            &&& !found ==> (r matches Err(UrlSchemeError::NotDeclared { scheme }) && scheme@
                == spec_url_scheme(url@))
        }),
{
    let scheme = url_scheme(url);
    match bundle {
        BundleUrlTypes::NoBundle => Err(UrlSchemeError::BundleUnavailable),
        BundleUrlTypes::NoInfoPlist => Err(UrlSchemeError::InfoPlistMissing),
        BundleUrlTypes::NoUrlTypes => Err(UrlSchemeError::NotDeclared { scheme }),
        BundleUrlTypes::Declared(schemes) => {
            if scheme_is_declared(schemes.as_slice(), scheme.as_str()) {
                Ok(())
            } else {
                Err(UrlSchemeError::NotDeclared { scheme })
            }
        },
    }
}

/// The part before the first colon never contains a colon.
proof fn lemma_before_colon_has_no_colon(s: Seq<char>)
    ensures
        forall|i: int| 0 <= i < spec_before_colon(s).len() ==> spec_before_colon(s)[i] != ':',
    decreases s.len(),
{
    if s.len() > 0 && s[0] != ':' {
        lemma_before_colon_has_no_colon(s.drop_first());
        let rest = spec_before_colon(s.drop_first());
        assert forall|i: int| 0 <= i < spec_before_colon(s).len() implies spec_before_colon(s)[i]
            != ':' by {
            if i > 0 {
                assert(spec_before_colon(s)[i] == rest[i - 1]);
            }
        }
    }
}

/// An extracted scheme never contains a colon, so extracting it again
/// from itself stops only at its end.
pub proof fn lemma_scheme_has_no_colon(url: Seq<char>)
    ensures
        forall|i: int| 0 <= i < spec_url_scheme(url).len() ==> spec_url_scheme(url)[i] != ':',
{
    lemma_before_colon_has_no_colon(spec_strip_separators(spec_trim_end(spec_trim_start(url))));
}

} // verus!
