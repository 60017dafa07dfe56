//! The allow list a request is matched against.

use crate::config::webhook::{method_name, AllowedMethod};
use crate::error::Error;
use crate::converter::{header_value_accepts, header_value_ok, pairs_view, forwarded_headers, ActixToReqwestConverter, HeaderPair};
use crate::text::{concat, str_equals};
use vstd::slice::slice_to_vec;
use vstd::string::StringSliceAdditionalSpecFns;
use vstd::prelude::*;

verus! {

// ---------------------------------------------------------------------------------------------
// The regex crate
// ---------------------------------------------------------------------------------------------

/// Whether `regex::RegexSet::new` compiles `patterns`, one regex each.
pub uninterp spec fn regex_set_builds(patterns: Seq<Seq<char>>) -> bool;

/// The patterns a `regex::RegexSet` was compiled from, in the order it was given them.
pub uninterp spec fn regex_set_patterns(set: regex::RegexSet) -> Seq<Seq<char>>;

/// The indices of the patterns among `patterns` that match somewhere in `haystack`, as
/// `regex::RegexSet::matches` reports them.
pub uninterp spec fn regex_set_matches(patterns: Seq<Seq<char>>, haystack: Seq<char>) -> Set<int>;

/// The views of a sequence of strings.
pub open spec fn string_views(strings: Seq<String>) -> Seq<Seq<char>> {
    strings.map_values(|s: String| s@)
}

/// `regex::RegexSet::new`.
///
/// Trusted: succeeds exactly when the patterns compile (named), and the set it builds holds the
/// patterns in the order given. The error is handed back as the regex crate's description of it.
#[verifier::external_body]
fn regex_set_new(patterns: &Vec<String>) -> (set: Result<regex::RegexSet, String>)
    ensures
        set is Ok <==> regex_set_builds(string_views(patterns@)),
        set matches Ok(s) ==> regex_set_patterns(s) == string_views(patterns@),
{
    match regex::RegexSet::new(patterns) {
        Ok(set) => Ok(set),
        Err(e) => Err(e.to_string()),
    }
}

/// `regex::RegexSet::matches`, its indices collected in the order they are yielded.
///
/// Trusted: the indices are exactly those of the set's patterns that match `haystack` (named),
/// each below the number of patterns, yielded in ascending order.
#[verifier::external_body]
fn regex_set_matching(set: &regex::RegexSet, haystack: &str) -> (indices: Vec<usize>)
    ensures
        forall|j: int|
            0 <= j < indices@.len() ==> regex_set_matches(regex_set_patterns(*set), haystack@).contains(
                #[trigger] indices@[j] as int,
            ),
        forall|k: int|
            #![trigger regex_set_matches(regex_set_patterns(*set), haystack@).contains(k)]
            regex_set_matches(regex_set_patterns(*set), haystack@).contains(k) ==> exists|j: int|
                0 <= j < indices@.len() && indices@[j] as int == k,
        forall|j: int| 0 <= j < indices@.len() ==> (#[trigger] indices@[j] as int) < regex_set_patterns(*set).len(),
        forall|a: int, b: int| 0 <= a < b < indices@.len() ==> indices@[a] < indices@[b],
{
    set.matches(haystack).into_iter().collect()
}

/// Whether `regex::Regex::new` compiles `pattern` on its own.
pub uninterp spec fn regex_builds(pattern: Seq<char>) -> bool;

/// `regex::Regex::new`, asked only whether it compiles `pattern`.
///
/// Trusted: succeeds exactly when the pattern compiles (named); a refusal is handed back as the
/// regex crate's description of it.
#[verifier::external_body]
fn regex_check(pattern: &str) -> (checked: Result<(), String>)
    ensures
        checked is Ok <==> regex_builds(pattern@),
{
    match regex::Regex::new(pattern) {
        Ok(_) => Ok(()),
        Err(e) => Err(e.to_string()),
    }
}

/// Whether every entry's pattern is a regex on its own, before it is anchored.
pub open spec fn patterns_valid(entries: Seq<(Seq<char>, AllowedPathView)>) -> bool {
    forall|i: int| 0 <= i < entries.len() ==> regex_builds(#[trigger] entries[i].0)
}

// ---------------------------------------------------------------------------------------------
// One path pattern's methods
// ---------------------------------------------------------------------------------------------

/// What an [`AllowedPath`] admits: every method, or the listed ones.
pub struct AllowedPathView {
    pub all: bool,
    pub methods: Seq<AllowedMethod>,
}

impl AllowedPathView {
    /// Whether a request whose method is named `method` is admitted.
    pub open spec fn allows(self, method: Seq<char>) -> bool {
        self.all || exists|i: int| 0 <= i < self.methods.len() && method_name(#[trigger] self.methods[i]) == method
    }
}

/// The methods one path pattern admits.
#[derive(Debug)]
pub struct AllowedPath {
    all: bool,
    methods: Vec<AllowedMethod>,
}

impl View for AllowedPath {
    type V = AllowedPathView;

    closed spec fn view(&self) -> AllowedPathView {
        AllowedPathView { all: self.all, methods: self.methods@ }
    }
}

/// The methods a configured list allows besides `ALL`: each once, in the order first listed.
pub open spec fn listed_methods_normal(listed: Seq<AllowedMethod>, kept: Seq<AllowedMethod>) -> bool {
    &&& forall|i: int| 0 <= i < kept.len() ==> #[trigger] kept[i] != AllowedMethod::ALL
    &&& forall|i: int, j: int| 0 <= i < j < kept.len() ==> kept[i] != kept[j]
    &&& forall|m: AllowedMethod| kept.contains(m) <==> (listed.contains(m) && m != AllowedMethod::ALL)
}

impl AllowedPath {
    /// A path admitting every method when `all`, and the `methods` listed otherwise.
    pub fn new(all: bool, methods: Vec<AllowedMethod>) -> (path: AllowedPath)
        ensures
            path@ == (AllowedPathView { all, methods: methods@ }),
    {
        AllowedPath { all, methods }
    }

    /// Whether every method is admitted.
    pub fn all(&self) -> (all: bool)
        ensures
            all == self@.all,
    {
        self.all
    }

    /// The methods admitted one by one.
    pub fn methods(&self) -> (methods: &Vec<AllowedMethod>)
        ensures
            methods@ == self@.methods,
    {
        &self.methods
    }

    /// The path a configured method list describes: `ALL` anywhere in it admits every method,
    /// and the rest are kept once each.
    pub fn from_methods(listed: Vec<AllowedMethod>) -> (path: AllowedPath)
        ensures
            path@.all == listed@.contains(AllowedMethod::ALL),
            listed_methods_normal(listed@, path@.methods),
    {
        let mut all = false;
        let mut kept: Vec<AllowedMethod> = Vec::new();
        let mut i: usize = 0;
        while i < listed.len()
            invariant
                0 <= i <= listed@.len(),
                all == listed@.take(i as int).contains(AllowedMethod::ALL),
                listed_methods_normal(listed@.take(i as int), kept@),
            decreases listed@.len() - i,
        {
            let m = listed[i];
            let ghost before = kept@;
            proof {
                assert(listed@.take(i + 1) =~= listed@.take(i as int).push(m));
            }
            if m == AllowedMethod::ALL {
                all = true;
            } else {
                let mut seen = false;
                let mut j: usize = 0;
                while j < kept.len()
                    invariant
                        0 <= j <= kept@.len(),
                        seen == kept@.take(j as int).contains(m),
                        kept@ == before,
                    decreases kept@.len() - j,
                {
                    proof {
                        assert(kept@.take(j + 1) =~= kept@.take(j as int).push(kept@[j as int]));
                    }
                    if kept[j] == m {
                        seen = true;
                    }
                    proof {
                        let t = kept@.take(j + 1);
                        assert(t.last() == kept@[j as int]);
                        if kept@.take(j as int).contains(m) {
                            let k = choose|k: int| 0 <= k < j && kept@.take(j as int)[k] == m;
                            assert(t[k] == m);
                        }
                        if t.contains(m) && kept@[j as int] != m {
                            let k = choose|k: int| 0 <= k < t.len() && t[k] == m;
                            assert(kept@.take(j as int)[k] == m);
                        }
                    }
                    j = j + 1;
                }
                proof {
                    assert(kept@.take(kept@.len() as int) =~= kept@);
                }
                if !seen {
                    kept.push(m);
                    proof {
                        assert(kept@ == before.push(m));
                        assert(kept@[kept@.len() - 1] == m);
                    }
                }
            }
            proof {
                let lt = listed@.take(i + 1);
                assert(lt[i as int] == m);
                assert(lt.contains(m));
                assert forall|x: AllowedMethod| lt.contains(x) <==> (listed@.take(i as int).contains(x) || x == m) by {
                    if lt.contains(x) {
                        let k = choose|k: int| 0 <= k < lt.len() && lt[k] == x;
                        if k < i {
                            assert(listed@.take(i as int)[k] == x);
                        }
                    }
                    if listed@.take(i as int).contains(x) {
                        let k = choose|k: int| 0 <= k < i && listed@.take(i as int)[k] == x;
                        assert(lt[k] == x);
                    }
                }
                assert forall|x: AllowedMethod| kept@.contains(x) <==> (before.contains(x) || (x == m && x != AllowedMethod::ALL)) by {
                    if kept@.contains(x) && kept@ != before {
                        let k = choose|k: int| 0 <= k < kept@.len() && kept@[k] == x;
                        if k < before.len() {
                            assert(before[k] == x);
                        }
                    }
                    if before.contains(x) && kept@ != before {
                        let k = choose|k: int| 0 <= k < before.len() && before[k] == x;
                        assert(kept@[k] == x);
                    }
                }
            }
            i = i + 1;
        }
        proof {
            assert(listed@.take(listed@.len() as int) =~= listed@);
        }
        AllowedPath { all, methods: kept }
    }

    /// Whether a request whose method is named `method` is admitted.
    pub fn allows(&self, method: &str) -> (allowed: bool)
        ensures
            allowed == self@.allows(method@),
    {
        if self.all {
            return true;
        }
        let mut i: usize = 0;
        while i < self.methods.len()
            invariant
                !self.all,
                0 <= i <= self.methods@.len(),
                forall|k: int| 0 <= k < i ==> method_name(#[trigger] self.methods@[k]) != method@,
            decreases self.methods@.len() - i,
        {
            if str_equals(self.methods[i].name(), method) {
                assert(self@.methods[i as int] == self.methods@[i as int]);
                assert(method_name(self@.methods[i as int]) == method@);
                return true;
            }
            i = i + 1;
        }
        false
    }
}

/// A path that admits every method admits a request of any method.
pub proof fn lemma_all_admits_any_method(path: AllowedPathView, method: Seq<char>)
    requires
        path.all,
    ensures
        path.allows(method),
{
}

/// Read from a configured list, a path admits exactly the methods listed, by name, unless the
/// list holds `ALL`, in which case it admits every method.
pub proof fn lemma_listed_methods_admitted(listed: Seq<AllowedMethod>, kept: Seq<AllowedMethod>, method: Seq<char>)
    requires
        listed_methods_normal(listed, kept),
    ensures
        (AllowedPathView { all: listed.contains(AllowedMethod::ALL), methods: kept }).allows(method)
            <==> (listed.contains(AllowedMethod::ALL) || exists|m: AllowedMethod| listed.contains(m) && m != AllowedMethod::ALL && method_name(m) == method),
{
    let view = AllowedPathView { all: listed.contains(AllowedMethod::ALL), methods: kept };
    if !listed.contains(AllowedMethod::ALL) {
        if view.allows(method) {
            let i = choose|i: int| 0 <= i < kept.len() && method_name(kept[i]) == method;
            assert(kept.contains(kept[i]));
            assert(listed.contains(kept[i]) && kept[i] != AllowedMethod::ALL && method_name(kept[i]) == method);
        }
        if exists|m: AllowedMethod| listed.contains(m) && m != AllowedMethod::ALL && method_name(m) == method {
            let m = choose|m: AllowedMethod| listed.contains(m) && m != AllowedMethod::ALL && method_name(m) == method;
            assert(kept.contains(m));
            let i = choose|i: int| 0 <= i < kept.len() && kept[i] == m;
            assert(method_name(kept[i]) == method);
        }
    }
}

// ---------------------------------------------------------------------------------------------
// Every path pattern
// ---------------------------------------------------------------------------------------------

/// The regex a configured pattern is compiled as: anchored at both ends, so it has to match the
/// whole path rather than any part of it.
pub open spec fn anchored(pattern: Seq<char>) -> Seq<char> {
    "^(?:"@ + pattern + ")$"@
}

/// The anchored regexes of every entry, in the entries' order.
pub open spec fn anchored_patterns(entries: Seq<(Seq<char>, AllowedPathView)>) -> Seq<Seq<char>> {
    entries.map_values(|e: (Seq<char>, AllowedPathView)| anchored(e.0))
}

/// Whether a request for `path` with the method named `method` is admitted by `entries`: some
/// entry's anchored pattern matches the path, and that entry allows the method.
pub open spec fn admits(entries: Seq<(Seq<char>, AllowedPathView)>, path: Seq<char>, method: Seq<char>) -> bool {
    exists|i: int|
        0 <= i < entries.len() && #[trigger] regex_set_matches(anchored_patterns(entries), path).contains(i)
            && entries[i].1.allows(method)
}

/// A request is admitted exactly through a configured pattern that, anchored at both ends and
/// with nothing else added (`^(?:` before it, `)$` after it), matches the path, and that lists
/// the request's method by name or lists `ALL`.
pub proof fn lemma_admitted_exactly_through_a_listing_match(
    entries: Seq<(Seq<char>, AllowedPathView)>,
    path: Seq<char>,
    method: Seq<char>,
)
    ensures
        admits(entries, path, method) <==> exists|i: int| #![trigger entries[i]]
            0 <= i < entries.len() && regex_set_matches(
                Seq::new(entries.len(), |k: int| "^(?:"@ + entries[k].0 + ")$"@),
                path,
            ).contains(i) && (entries[i].1.all || exists|j: int|
                0 <= j < entries[i].1.methods.len() && method_name(#[trigger] entries[i].1.methods[j]) == method),
{
    let compiled = Seq::new(entries.len(), |k: int| "^(?:"@ + entries[k].0 + ")$"@);
    assert(anchored_patterns(entries) =~= compiled);
    if admits(entries, path, method) {
        let i = choose|i: int|
            0 <= i < entries.len() && #[trigger] regex_set_matches(anchored_patterns(entries), path).contains(i)
                && entries[i].1.allows(method);
        assert(entries[i] == entries[i]);
    }
    if exists|i: int| #![trigger entries[i]]
        0 <= i < entries.len() && regex_set_matches(compiled, path).contains(i) && (entries[i].1.all
            || exists|j: int| 0 <= j < entries[i].1.methods.len() && method_name(#[trigger] entries[i].1.methods[j]) == method) {
        let i = choose|i: int| #![trigger entries[i]]
            0 <= i < entries.len() && regex_set_matches(compiled, path).contains(i) && (entries[i].1.all
                || exists|j: int| 0 <= j < entries[i].1.methods.len() && method_name(#[trigger] entries[i].1.methods[j]) == method);
        assert(regex_set_matches(anchored_patterns(entries), path).contains(i));
    }
}

/// A request whose path no pattern matches is refused, whatever its method.
pub proof fn lemma_unmatched_path_refused(entries: Seq<(Seq<char>, AllowedPathView)>, path: Seq<char>, method: Seq<char>)
    requires
        forall|i: int| 0 <= i < entries.len() ==> !#[trigger] regex_set_matches(anchored_patterns(entries), path).contains(i),
    ensures
        !admits(entries, path, method),
{
}

/// A request is admitted as soon as one matching pattern allows its method, whatever the other
/// patterns say: the allow lists of the patterns are joined, never intersected.
pub proof fn lemma_one_allowing_match_admits(entries: Seq<(Seq<char>, AllowedPathView)>, path: Seq<char>, method: Seq<char>, i: int)
    requires
        0 <= i < entries.len(),
        regex_set_matches(anchored_patterns(entries), path).contains(i),
        entries[i].1.allows(method),
    ensures
        admits(entries, path, method),
{
}

/// The views of configured entries.
pub open spec fn entries_view(entries: Seq<(String, AllowedPath)>) -> Seq<(Seq<char>, AllowedPathView)> {
    entries.map_values(|e: (String, AllowedPath)| (e.0@, e.1@))
}

/// Whether no pattern occurs twice among `entries`, as the keys of the configured table.
pub open spec fn distinct_patterns(entries: Seq<(Seq<char>, AllowedPathView)>) -> bool {
    forall|i: int, j: int| 0 <= i < j < entries.len() ==> (#[trigger] entries[i]).0 != (#[trigger] entries[j]).0
}

/// Every configured path pattern with the methods it admits, compiled into one
/// `regex::RegexSet` over the anchored patterns.
#[derive(Debug)]
pub struct AllowedPaths {
    entries: Vec<(String, AllowedPath)>,
    patterns: Vec<String>,
    set: regex::RegexSet,
}

impl View for AllowedPaths {
    type V = Seq<(Seq<char>, AllowedPathView)>;

    closed spec fn view(&self) -> Seq<(Seq<char>, AllowedPathView)> {
        entries_view(self.entries@)
    }
}

impl AllowedPaths {
    #[verifier::type_invariant]
    closed spec fn compiled(self) -> bool {
        &&& distinct_patterns(entries_view(self.entries@))
        &&& string_views(self.patterns@) == anchored_patterns(entries_view(self.entries@))
        &&& regex_set_patterns(self.set) == string_views(self.patterns@)
    }

    /// Checks that every entry's pattern is a regex on its own, then compiles the anchored form
    /// of each into one set. Checking each pattern first is what keeps a pattern such as
    /// `a)|(b`, which only compiles once wrapped, from escaping its anchors. The patterns are
    /// the keys of a table, so none occurs twice.
    ///
    /// # Errors
    /// [`Error::Regex`] when some pattern is not a regex on its own, or the anchored patterns do
    /// not compile together.
    pub fn new(entries: Vec<(String, AllowedPath)>) -> (paths: Result<AllowedPaths, Error>)
        requires
            distinct_patterns(entries_view(entries@)),
        ensures
            paths is Ok <==> patterns_valid(entries_view(entries@))
                && regex_set_builds(anchored_patterns(entries_view(entries@))),
            paths matches Ok(p) ==> p@ == entries_view(entries@),
            paths matches Err(e) ==> e is Regex,
    {
        let mut k: usize = 0;
        while k < entries.len()
            invariant
                0 <= k <= entries@.len(),
                forall|j: int| 0 <= j < k ==> regex_builds(#[trigger] entries_view(entries@)[j].0),
            decreases entries@.len() - k,
        {
            match regex_check(entries[k].0.as_str()) {
                Ok(()) => {},
                Err(text) => {
                    proof {
                        assert(!regex_builds(entries_view(entries@)[k as int].0));
                    }
                    return Err(Error::Regex(text));
                },
            }
            k = k + 1;
        }
        let mut patterns: Vec<String> = Vec::new();
        let mut i: usize = 0;
        while i < entries.len()
            invariant
                0 <= i <= entries@.len(),
                string_views(patterns@) == anchored_patterns(entries_view(entries@)).take(i as int),
            decreases entries@.len() - i,
        {
            let open = concat("^(?:", entries[i].0.as_str());
            let anchored_pattern = concat(open.as_str(), ")$");
            let ghost before = patterns@;
            patterns.push(anchored_pattern);
            proof {
                assert(anchored_pattern@ == anchored(entries_view(entries@)[i as int].0));
                assert(string_views(patterns@) =~= string_views(before).push(anchored_pattern@));
                assert(string_views(patterns@) =~= anchored_patterns(entries_view(entries@)).take(i + 1));
            }
            i = i + 1;
        }
        proof {
            assert(anchored_patterns(entries_view(entries@)).take(entries@.len() as int)
                =~= anchored_patterns(entries_view(entries@)));
        }
        match regex_set_new(&patterns) {
            Ok(set) => Ok(AllowedPaths { entries, patterns, set }),
            Err(text) => Err(Error::Regex(text)),
        }
    }

    /// Compiles a configured path table: each pattern, a key of the table and so given once,
    /// with its method list, read as [`AllowedPath::from_methods`] reads it.
    ///
    /// # Errors
    /// [`Error::Regex`] when some pattern is not a regex on its own, or the anchored patterns do
    /// not compile together.
    pub fn from_config(paths: Vec<(String, Vec<AllowedMethod>)>) -> (compiled: Result<AllowedPaths, Error>)
        requires
            forall|i: int, j: int| 0 <= i < j < paths@.len() ==> (#[trigger] paths@[i]).0@ != (#[trigger] paths@[j]).0@,
        ensures
            compiled matches Ok(p) ==> {
                &&& p@.len() == paths@.len()
                &&& forall|i: int| 0 <= i < paths@.len() ==> {
                    &&& (#[trigger] p@[i]).0 == paths@[i].0@
                    &&& p@[i].1.all == paths@[i].1@.contains(AllowedMethod::ALL)
                    &&& listed_methods_normal(paths@[i].1@, p@[i].1.methods)
                }
            },
            compiled is Ok <==> (forall|i: int| 0 <= i < paths@.len() ==> regex_builds(#[trigger] paths@[i].0@))
                && regex_set_builds(paths@.map_values(|e: (String, Vec<AllowedMethod>)| anchored(e.0@))),
            compiled matches Err(e) ==> e is Regex,
    {
        let mut entries: Vec<(String, AllowedPath)> = Vec::new();
        let mut rest = paths;
        let ghost original = rest@;
        let total = rest.len();
        let mut done: usize = 0;
        while rest.len() > 0
            invariant
                done + rest@.len() == original.len(),
                original.len() == total,
                rest@ == original.subrange(done as int, original.len() as int),
                entries@.len() == done,
                forall|i: int| 0 <= i < done ==> {
                    &&& (#[trigger] entries@[i]).0@ == original[i].0@
                    &&& entries@[i].1@.all == original[i].1@.contains(AllowedMethod::ALL)
                    &&& listed_methods_normal(original[i].1@, entries@[i].1@.methods)
                },
            decreases rest@.len(),
        {
            let (pattern, listed) = rest.remove(0);
            entries.push((pattern, AllowedPath::from_methods(listed)));
            done = done + 1;
        }
        proof {
            let v = entries_view(entries@);
            assert forall|i: int, j: int| 0 <= i < j < v.len() implies (#[trigger] v[i]).0 != (#[trigger] v[j]).0 by {
                assert(v[i].0 == original[i].0@);
                assert(v[j].0 == original[j].0@);
            }
            assert forall|i: int| 0 <= i < v.len() implies #[trigger] v[i].0 == original[i].0@ by {}
            assert(patterns_valid(v) <==> (forall|i: int| 0 <= i < original.len() ==> regex_builds(#[trigger] original[i].0@))) by {
                if patterns_valid(v) {
                    assert forall|i: int| 0 <= i < original.len() implies regex_builds(#[trigger] original[i].0@) by {
                        assert(v[i].0 == original[i].0@);
                    }
                }
                if forall|i: int| 0 <= i < original.len() ==> regex_builds(#[trigger] original[i].0@) {
                    assert forall|i: int| 0 <= i < v.len() implies regex_builds(#[trigger] v[i].0) by {
                        assert(v[i].0 == original[i].0@);
                    }
                }
            }
            assert(anchored_patterns(entries_view(entries@)) =~= original.map_values(
                |e: (String, Vec<AllowedMethod>)| anchored(e.0@),
            ));
        }
        let compiled = AllowedPaths::new(entries);
        proof {
            if compiled is Ok {
                let v = compiled->Ok_0@;
                assert forall|i: int| 0 <= i < original.len() implies (#[trigger] v[i]).0 == original[i].0@ by {
                    assert(v[i] == (entries@[i].0@, entries@[i].1@));
                }
            }
        }
        compiled
    }

    /// Every entry, each pattern as configured with the methods it admits. No pattern occurs
    /// twice.
    pub fn allowed_paths(&self) -> (entries: &Vec<(String, AllowedPath)>)
        ensures
            entries_view(entries@) == self@,
            distinct_patterns(self@),
    {
        proof {
            use_type_invariant(self);
        }
        &self.entries
    }

    /// Whether a request for `path` whose method is named `method` may be forwarded.
    pub fn is_allowed(&self, path: &str, method: &str) -> (allowed: bool)
        ensures
            allowed == admits(self@, path@, method@),
    {
        proof {
            use_type_invariant(self);
        }
        let matched = regex_set_matching(&self.set, path);
        let mut j: usize = 0;
        while j < matched.len()
            invariant
                0 <= j <= matched@.len(),
                regex_set_patterns(self.set) == anchored_patterns(self@),
                self@ == entries_view(self.entries@),
                self.entries@.len() == self@.len(),
                forall|k: int| 0 <= k < matched@.len() ==> regex_set_matches(anchored_patterns(self@), path@).contains(#[trigger] matched@[k] as int),
                forall|k: int| 0 <= k < matched@.len() ==> (#[trigger] matched@[k] as int) < self@.len(),
                forall|k: int| 0 <= k < j ==> !self@[#[trigger] matched@[k] as int].1.allows(method@),
            decreases matched@.len() - j,
        {
            let index = matched[j];
            if self.entries[index].1.allows(method) {
                return true;
            }
            j = j + 1;
        }
        proof {
            assert forall|i: int| 0 <= i < self@.len() && #[trigger] regex_set_matches(anchored_patterns(self@), path@).contains(i)
                implies !self@[i].1.allows(method@) by {
                let k = choose|k: int| 0 <= k < matched@.len() && matched@[k] as int == i;
                assert(!self@[matched@[k] as int].1.allows(method@));
            }
        }
        false
    }
}

// ---------------------------------------------------------------------------------------------
// One generation of the proxy
// ---------------------------------------------------------------------------------------------

/// What `reqwest::Url::join` makes of `input` against `base`: the joined URL, or the text of
/// the url crate's description of why it refused.
pub uninterp spec fn url_joined(base: reqwest::Url, input: Seq<char>) -> Result<reqwest::Url, Seq<char>>;

/// The message a path that will not join onto the target base is refused with.
pub open spec fn join_failure_message(description: Seq<char>) -> Seq<char> {
    "Can't join the target URL: "@ + description
}

/// `reqwest::Url::join`.
///
/// Trusted: the result is what the url crate makes of `input` against `base` (named), a
/// refusal handed back as the text of its description. Which inputs it refuses is left to the
/// name.
#[verifier::external_body]
fn url_join(base: &reqwest::Url, input: &str) -> (joined: Result<reqwest::Url, String>)
    ensures
        match joined {
            Ok(u) => url_joined(*base, input@) == Ok::<reqwest::Url, Seq<char>>(u),
            Err(t) => url_joined(*base, input@) == Err::<reqwest::Url, Seq<char>>(t@),
        },
{
    match base.join(input) {
        Ok(url) => Ok(url),
        Err(e) => Err(e.to_string()),
    }
}

/// The header name the Cloudflare Access client id travels under.
pub open spec fn client_id_header() -> Seq<char> {
    "cf-access-client-id"@
}

/// The header name the Cloudflare Access client secret travels under.
pub open spec fn client_secret_header() -> Seq<char> {
    "cf-access-client-secret"@
}

/// What a [`WebHookData`] decides with: the allow list and the two credentials, as the bytes of
/// their header values.
pub struct WebHookDataView {
    pub allowed_paths: Seq<(Seq<char>, AllowedPathView)>,
    pub access_id: Seq<u8>,
    pub access_secret: Seq<u8>,
}

/// Everything one generation of the proxy forwards with: the shared client, the target, the
/// compiled allow list and the Cloudflare Access credentials, already checked as header values.
pub struct WebHookData {
    client: reqwest::Client,
    target_base: reqwest::Url,
    allowed_paths: AllowedPaths,
    access_id: Vec<u8>,
    access_secret: Vec<u8>,
}

impl View for WebHookData {
    type V = WebHookDataView;

    closed spec fn view(&self) -> WebHookDataView {
        WebHookDataView {
            allowed_paths: self.allowed_paths@,
            access_id: self.access_id@,
            access_secret: self.access_secret@,
        }
    }
}

/// The headers one forwarded request carries: the inbound ones that travel, then the client id
/// and the client secret.
pub open spec fn outbound_headers(
    inbound: Seq<(Seq<char>, Seq<u8>)>,
    access_id: Seq<u8>,
    access_secret: Seq<u8>,
) -> Seq<(Seq<char>, Seq<u8>)> {
    forwarded_headers(inbound).push((client_id_header(), access_id)).push((client_secret_header(), access_secret))
}

/// The headers of a forwarded request are the inbound ones that travel, in order, followed by
/// exactly two more: `cf-access-client-id` carrying the client id, then
/// `cf-access-client-secret` carrying the client secret.
pub proof fn lemma_credentials_appended(
    inbound: Seq<(Seq<char>, Seq<u8>)>,
    access_id: Seq<u8>,
    access_secret: Seq<u8>,
)
    ensures
        ({
            let out = outbound_headers(inbound, access_id, access_secret);
            let n = forwarded_headers(inbound).len();
            &&& out.len() == n + 2
            &&& out.subrange(0, n as int) == forwarded_headers(inbound)
            &&& out[n as int] == ("cf-access-client-id"@, access_id)
            &&& out[n + 1int] == ("cf-access-client-secret"@, access_secret)
        }),
{
    let out = outbound_headers(inbound, access_id, access_secret);
    assert(out.subrange(0, forwarded_headers(inbound).len() as int) =~= forwarded_headers(inbound));
}

/// What the forwarding handler does with one request.
pub enum Route {
    /// The allow list refuses it: answered `404`, and the target is never contacted.
    NotFound,
    /// Admitted, and forwarded to this URL.
    Forward(reqwest::Url),
    /// Admitted, but the target URL could not be built: answered `400`.
    BadRequest(Error),
}

impl WebHookData {
    /// Decides what happens to a request for `path` whose method is named `method`: refused
    /// unless the allow list admits it, and otherwise forwarded to `path` joined onto the target
    /// base.
    pub fn route(&self, path: &str, method: &str) -> (route: Route)
        ensures
            route is NotFound <==> !admits(self@.allowed_paths, path@, method@),
            route matches Route::Forward(u) ==> url_joined(self.held_target_base(), path@) == Ok::<reqwest::Url, Seq<char>>(u),
            route matches Route::BadRequest(e) ==> url_joined(self.held_target_base(), path@) matches Err(t)
                && e matches Error::Custom(m) && m@ == join_failure_message(t),
    {
        if !self.is_allowed_path(path, method) {
            return Route::NotFound;
        }
        match self.get_target_url(path) {
            Ok(url) => Route::Forward(url),
            Err(e) => Route::BadRequest(e),
        }
    }

    /// Builds one generation from its parts, checking both credentials as header values.
    ///
    /// # Errors
    /// [`Error::Custom`] when the client id or the client secret holds a byte no header value
    /// may carry.
    pub fn new(
        client: reqwest::Client,
        target_base: reqwest::Url,
        allowed_paths: AllowedPaths,
        client_id: &str,
        client_secret: &str,
    ) -> (data: Result<WebHookData, Error>)
        ensures
            data is Ok <==> header_value_accepts(client_id.spec_bytes()) && header_value_accepts(client_secret.spec_bytes()),
            data matches Ok(d) ==> d@ == (WebHookDataView {
                allowed_paths: allowed_paths@,
                access_id: client_id.spec_bytes(),
                access_secret: client_secret.spec_bytes(),
            }),
            data matches Ok(d) ==> d.held_client() == client && d.held_target_base() == target_base,
            data matches Err(e) ==> e is Custom,
    {
        let id = client_id.as_bytes();
        if !header_value_ok(id) {
            return Err(Error::custom("Invalid Cloudflare Access client id: not a valid header value"));
        }
        let secret = client_secret.as_bytes();
        if !header_value_ok(secret) {
            return Err(Error::custom("Invalid Cloudflare Access client secret: not a valid header value"));
        }
        let access_id = slice_to_vec(id);
        let access_secret = slice_to_vec(secret);
        Ok(WebHookData { client, target_base, allowed_paths, access_id, access_secret })
    }

    /// The HTTP client this generation was built with.
    pub closed spec fn held_client(&self) -> reqwest::Client {
        self.client
    }

    /// The target base this generation was built with.
    pub closed spec fn held_target_base(&self) -> reqwest::Url {
        self.target_base
    }

    /// The shared HTTP client: the one this generation was built with.
    pub fn client(&self) -> (client: &reqwest::Client)
        ensures
            *client == self.held_client(),
    {
        &self.client
    }

    /// The base URL every allowed path is joined onto: the one this generation was built with.
    pub fn target_base(&self) -> (target_base: &reqwest::Url)
        ensures
            *target_base == self.held_target_base(),
    {
        &self.target_base
    }

    /// The compiled allow list.
    pub fn allowed_paths(&self) -> (paths: &AllowedPaths)
        ensures
            paths@ == self@.allowed_paths,
    {
        &self.allowed_paths
    }

    /// The client id, as the bytes of its header value.
    pub fn access_id(&self) -> (id: &Vec<u8>)
        ensures
            id@ == self@.access_id,
    {
        &self.access_id
    }

    /// The client secret, as the bytes of its header value.
    pub fn access_secret(&self) -> (secret: &Vec<u8>)
        ensures
            secret@ == self@.access_secret,
    {
        &self.access_secret
    }

    /// Whether a request for `path` whose method is named `method` may be forwarded.
    pub fn is_allowed_path(&self, path: &str, method: &str) -> (allowed: bool)
        ensures
            allowed == admits(self@.allowed_paths, path@, method@),
    {
        self.allowed_paths.is_allowed(path, method)
    }

    /// The URL a request for `path` is forwarded to: `path` joined onto the target base.
    ///
    /// # Errors
    /// [`Error::Custom`] when the URL crate will not join them, carrying its description.
    pub fn get_target_url(&self, path: &str) -> (url: Result<reqwest::Url, Error>)
        ensures
            match url {
                Ok(u) => url_joined(self.held_target_base(), path@) == Ok::<reqwest::Url, Seq<char>>(u),
                Err(e) => url_joined(self.held_target_base(), path@) matches Err(t)
                    && e matches Error::Custom(m) && m@ == join_failure_message(t),
            },
    {
        match url_join(&self.target_base, path) {
            Ok(url) => Ok(url),
            Err(text) => Err(Error::Custom(concat("Can't join the target URL: ", text.as_str()))),
        }
    }

    /// The headers a forwarded request carries: the inbound ones that travel, with the client
    /// id and the client secret appended.
    pub fn forward_headers(&self, inbound: &Vec<HeaderPair>) -> (outbound: Vec<HeaderPair>)
        ensures
            pairs_view(outbound@) == outbound_headers(pairs_view(inbound@), self@.access_id, self@.access_secret),
    {
        let mut outbound = ActixToReqwestConverter::convert_headers(inbound);
        let ghost converted = outbound@;
        outbound.push((String::from_str("cf-access-client-id"), self.access_id.clone()));
        outbound.push((String::from_str("cf-access-client-secret"), self.access_secret.clone()));
        proof {
            assert(pairs_view(outbound@) =~= pairs_view(converted).push((client_id_header(), self@.access_id)).push((client_secret_header(), self@.access_secret)));
        }
        outbound
    }
}

} // verus!
