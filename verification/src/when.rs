//! The conditions under which a component is recommended for a workspace,
//! how they are checked against what is known of the workspace, and how
//! they are explained.

use crate::text::{clone_opt_text, clone_opt_texts, contains_text, opt_text, opt_texts};
use crate::text::{same_opt_text, same_text, texts};
use crate::workspace::{files_view, grep_files, grep_found, is_using_crate, opt_metadata_view};
use crate::workspace::{uses_crate, FileView, Metadata, MetadataView, SourceFile};
use vstd::prelude::*;

verus! {

/// A pattern that must be found in the files of a workspace.
#[derive(Debug, PartialEq, Eq)]
pub struct GrepCondition {
    /// The pattern to search for.
    pub pattern: String,
    /// The glob of the paths to search in; every file where it is absent.
    pub path: Option<String>,
}

/// The conditions of a recommendation. The conditions that are present
/// must all hold; `any` holds where one of its conditions does, `all` where
/// each does.
#[derive(Debug, Default, PartialEq, Eq)]
pub struct When {
    /// A file that must exist in the root of the workspace.
    pub file_exists: Option<String>,
    /// Files that must all exist in the root of the workspace.
    pub files_exist: Option<Vec<String>>,
    /// A crate that the workspace must depend on.
    pub using_crate: Option<String>,
    /// Crates that the workspace must all depend on.
    pub using_crates: Option<Vec<String>>,
    /// A pattern that must be found in the files.
    pub grep: Option<GrepCondition>,
    /// Conditions of which one must hold.
    pub any: Option<Vec<When>>,
    /// Conditions that must all hold.
    pub all: Option<Vec<When>>,
}

/// The mathematical value of a [`GrepCondition`].
pub struct GrepView {
    pub pattern: Seq<char>,
    pub path: Option<Seq<char>>,
}

/// The mathematical value of a [`When`].
pub struct WhenView {
    pub file_exists: Option<Seq<char>>,
    pub files_exist: Option<Seq<Seq<char>>>,
    pub using_crate: Option<Seq<char>>,
    pub using_crates: Option<Seq<Seq<char>>>,
    pub grep: Option<GrepView>,
    pub any: WhenList,
    pub all: WhenList,
}

/// A list of conditions that may be absent.
pub enum WhenList {
    Absent,
    Present(Seq<WhenView>),
}

impl View for GrepCondition {
    type V = GrepView;

    open spec fn view(&self) -> GrepView {
        GrepView { pattern: self.pattern@, path: opt_text(self.path) }
    }
}

/// The value of an optional pattern.
pub open spec fn opt_grep_view(g: Option<GrepCondition>) -> Option<GrepView> {
    match g {
        Some(g) => Some(g@),
        None => None,
    }
}

/// The conditions that ask for nothing.
pub open spec fn no_conditions() -> WhenView {
    WhenView {
        file_exists: None,
        files_exist: None,
        using_crate: None,
        using_crates: None,
        grep: None,
        any: WhenList::Absent,
        all: WhenList::Absent,
    }
}

/// The value of conditions.
pub open spec fn when_value(w: When) -> WhenView
    decreases w,
{
    WhenView {
        file_exists: opt_text(w.file_exists),
        files_exist: opt_texts(w.files_exist),
        using_crate: opt_text(w.using_crate),
        using_crates: opt_texts(w.using_crates),
        grep: opt_grep_view(w.grep),
        any: match w.any {
            Some(v) => WhenList::Present(values_upto(v@, v@.len() as int)),
            None => WhenList::Absent,
        },
        all: match w.all {
            Some(v) => WhenList::Present(values_upto(v@, v@.len() as int)),
            None => WhenList::Absent,
        },
    }
}

/// The values of the first `n` conditions of a list.
pub open spec fn values_upto(v: Seq<When>, n: int) -> Seq<WhenView>
    decreases v, n,
{
    if n <= 0 || n > v.len() {
        Seq::empty()
    } else {
        values_upto(v, n - 1).push(when_value(v[n - 1]))
    }
}

impl View for When {
    type V = WhenView;

    open spec fn view(&self) -> WhenView {
        when_value(*self)
    }
}

/// The values of the first `n` conditions are `n` values, each that of the
/// condition at its place.
pub proof fn values_upto_lists(v: Seq<When>, n: int)
    requires
        0 <= n <= v.len(),
    ensures
        values_upto(v, n).len() == n,
        forall|i: int| 0 <= i < n ==> (#[trigger] values_upto(v, n)[i]) == v[i]@,
    decreases n,
{
    if n > 0 {
        values_upto_lists(v, n - 1);
    }
}

/// The values of a list of conditions.
pub open spec fn whens_view(v: Seq<When>) -> Seq<WhenView> {
    Seq::new(v.len(), |i: int| v[i]@)
}

/// The value of an optional list of conditions.
pub open spec fn when_list(v: Option<Vec<When>>) -> WhenList {
    match v {
        Some(v) => WhenList::Present(whens_view(v@)),
        None => WhenList::Absent,
    }
}

/// The value of optional conditions.
pub open spec fn opt_when_view(w: Option<When>) -> Option<WhenView> {
    match w {
        Some(w) => Some(w@),
        None => None,
    }
}

/// The view of conditions lists the views of the conditions under `any`
/// and under `all`.
pub proof fn when_view_lists(w: When)
    ensures
        w@.any == when_list(w.any),
        w@.all == when_list(w.all),
{
    match w.any {
        Some(v) => {
            values_upto_lists(v@, v@.len() as int);
            assert(w@.any->Present_0 =~= whens_view(v@));
        },
        None => {},
    }
    match w.all {
        Some(v) => {
            values_upto_lists(v@, v@.len() as int);
            assert(w@.all->Present_0 =~= whens_view(v@));
        },
        None => {},
    }
}

impl Clone for GrepCondition {
    fn clone(&self) -> (r: GrepCondition)
        ensures
            r@ == self@,
    {
        GrepCondition { pattern: self.pattern.clone(), path: clone_opt_text(&self.path) }
    }
}

/// A copy of a list of conditions.
fn clone_whens(v: &Vec<When>) -> (r: Vec<When>)
    ensures
        whens_view(r@) == whens_view(v@),
    decreases v,
{
    let mut out: Vec<When> = Vec::new();
    let mut i: usize = 0;
    while i < v.len()
        invariant
            i <= v.len(),
            out.len() == i,
            forall|k: int| 0 <= k < i ==> out@[k]@ == v@[k]@,
        decreases v.len() - i,
    {
        proof {
            assert(decreases_to!(v => v@));
            assert(decreases_to!(v@ => v@[i as int]));
        }
        let w = &v[i];
        out.push(w.clone());
        i += 1;
    }
    proof {
        assert(whens_view(out@) =~= whens_view(v@));
    }
    out
}

impl Clone for When {
    fn clone(&self) -> (r: When)
        ensures
            r@ == self@,
        decreases self,
    {
        let any = match &self.any {
            Some(v) => {
                proof {
                    assert(self.any->Some_0 == *v);
                    assert(decreases_to!(self => self.any));
                    assert(decreases_to!(self.any => v));
                }
                Some(clone_whens(v))
            },
            None => None,
        };
        let all = match &self.all {
            Some(v) => {
                proof {
                    assert(self.all->Some_0 == *v);
                    assert(decreases_to!(self => self.all));
                    assert(decreases_to!(self.all => v));
                }
                Some(clone_whens(v))
            },
            None => None,
        };
        let grep = match &self.grep {
            Some(g) => Some(g.clone()),
            None => None,
        };
        let r = When {
            file_exists: clone_opt_text(&self.file_exists),
            files_exist: clone_opt_texts(&self.files_exist),
            using_crate: clone_opt_text(&self.using_crate),
            using_crates: clone_opt_texts(&self.using_crates),
            grep,
            any,
            all,
        };
        proof {
            when_view_lists(r);
            when_view_lists(*self);
        }
        r
    }
}

/// A copy of optional conditions.
pub fn clone_opt_when(w: &Option<When>) -> (r: Option<When>)
    ensures
        opt_when_view(r) == opt_when_view(*w),
{
    match w {
        Some(w) => Some(w.clone()),
        None => None,
    }
}

/// What is known of a workspace, as far as conditions ask: the files that
/// exist in its root, its packages where `cargo metadata` gave them, and
/// its files with what they hold.
#[derive(Debug)]
pub struct WorkspaceFacts {
    pub existing_files: Vec<String>,
    pub metadata: Option<Metadata>,
    pub files: Vec<SourceFile>,
}

/// The mathematical value of [`WorkspaceFacts`].
pub struct FactsView {
    pub existing_files: Seq<Seq<char>>,
    pub metadata: Option<MetadataView>,
    pub files: Seq<FileView>,
}

impl View for WorkspaceFacts {
    type V = FactsView;

    open spec fn view(&self) -> FactsView {
        FactsView {
            existing_files: texts(self.existing_files@),
            metadata: opt_metadata_view(self.metadata),
            files: files_view(self.files@),
        }
    }
}

/// Whether the workspace uses every one of the crates.
pub open spec fn uses_all(names: Seq<Seq<char>>, metadata: Option<MetadataView>) -> bool {
    forall|i: int| 0 <= i < names.len() ==> uses_crate(metadata, #[trigger] names[i])
}

/// Whether every one of `wanted` is among `known`.
pub open spec fn all_among(wanted: Seq<Seq<char>>, known: Seq<Seq<char>>) -> bool {
    forall|i: int| 0 <= i < wanted.len() ==> known.contains(#[trigger] wanted[i])
}

/// Whether the conditions hold of a workspace: each condition that is
/// present holds.
pub open spec fn met(w: WhenView, facts: FactsView) -> bool
    decreases w,
{
    &&& w.file_exists matches Some(path) ==> facts.existing_files.contains(path)
    &&& w.files_exist matches Some(paths) ==> all_among(paths, facts.existing_files)
    &&& w.using_crate matches Some(name) ==> uses_crate(facts.metadata, name)
    &&& w.using_crates matches Some(names) ==> uses_all(names, facts.metadata)
    &&& w.grep matches Some(g) ==> grep_found(g, facts.files)
    &&& w.any matches WhenList::Present(conditions) ==> one_met(
        conditions,
        conditions.len() as int,
        facts,
    )
    &&& w.all matches WhenList::Present(conditions) ==> each_met(
        conditions,
        conditions.len() as int,
        facts,
    )
}

/// Whether one of the first `n` conditions holds.
pub open spec fn one_met(conditions: Seq<WhenView>, n: int, facts: FactsView) -> bool
    decreases conditions, n,
{
    if n <= 0 || n > conditions.len() {
        false
    } else {
        one_met(conditions, n - 1, facts) || met(conditions[n - 1], facts)
    }
}

/// Whether each of the first `n` conditions holds.
pub open spec fn each_met(conditions: Seq<WhenView>, n: int, facts: FactsView) -> bool
    decreases conditions, n,
{
    if n <= 0 || n > conditions.len() {
        true
    } else {
        each_met(conditions, n - 1, facts) && met(conditions[n - 1], facts)
    }
}

/// A condition that holds among the first `n` holds among more.
pub proof fn one_met_stays(conditions: Seq<WhenView>, n: int, m: int, facts: FactsView)
    requires
        0 <= n <= m <= conditions.len(),
        one_met(conditions, n, facts),
    ensures
        one_met(conditions, m, facts),
    decreases m - n,
{
    if n < m {
        one_met_stays(conditions, n, m - 1, facts);
    }
}

/// A condition that fails among the first `n` fails among more.
pub proof fn each_met_fails(conditions: Seq<WhenView>, n: int, m: int, facts: FactsView)
    requires
        0 <= n <= m <= conditions.len(),
        !each_met(conditions, n, facts),
    ensures
        !each_met(conditions, m, facts),
    decreases m - n,
{
    if n < m {
        each_met_fails(conditions, n, m - 1, facts);
    }
}

/// Whether every string of `wanted` is among `known`.
pub fn all_contained(wanted: &Vec<String>, known: &Vec<String>) -> (r: bool)
    ensures
        r == all_among(texts(wanted@), texts(known@)),
{
    let mut i: usize = 0;
    while i < wanted.len()
        invariant
            i <= wanted.len(),
            forall|k: int| 0 <= k < i ==> texts(known@).contains(#[trigger] texts(wanted@)[k]),
        decreases wanted.len() - i,
    {
        if !contains_text(known, wanted[i].as_str()) {
            proof {
                assert(texts(wanted@)[i as int] == wanted@[i as int]@);
            }
            return false;
        }
        proof {
            assert(texts(wanted@)[i as int] == wanted@[i as int]@);
        }
        i += 1;
    }
    true
}

impl GrepCondition {
    /// Whether two patterns are the same.
    pub fn same(&self, other: &GrepCondition) -> (r: bool)
        ensures
            r == (self@ == other@),
    {
        same_text(self.pattern.as_str(), other.pattern.as_str()) && same_opt_text(
            &self.path,
            &other.path,
        )
    }

    /// Whether the pattern is found in the files of the workspace.
    pub fn is_met(&self, facts: &WorkspaceFacts) -> (r: bool)
        ensures
            r == grep_found(self@, facts@.files),
    {
        grep_files(self, &facts.files)
    }
}

/// Whether the workspace uses every one of `names`.
pub fn uses_all_crates(names: &Vec<String>, metadata: &Option<Metadata>) -> (r: bool)
    ensures
        r == uses_all(texts(names@), opt_metadata_view(*metadata)),
{
    let mut i: usize = 0;
    while i < names.len()
        invariant
            i <= names.len(),
            forall|k: int|
                0 <= k < i ==> uses_crate(opt_metadata_view(*metadata), #[trigger] texts(names@)[k]),
        decreases names.len() - i,
    {
        proof {
            assert(texts(names@)[i as int] == names@[i as int]@);
        }
        if !is_using_crate(metadata, names[i].as_str()) {
            return false;
        }
        i += 1;
    }
    true
}

impl When {
    /// Whether the conditions hold of the workspace.
    pub fn is_met(&self, facts: &WorkspaceFacts) -> (r: bool)
        ensures
            r == met(self@, facts@),
        decreases self,
    {
        proof {
            when_view_lists(*self);
        }
        if let Some(path) = &self.file_exists {
            if !contains_text(&facts.existing_files, path.as_str()) {
                return false;
            }
        }
        if let Some(paths) = &self.files_exist {
            if !all_contained(paths, &facts.existing_files) {
                return false;
            }
        }
        if let Some(name) = &self.using_crate {
            if !is_using_crate(&facts.metadata, name.as_str()) {
                return false;
            }
        }
        if let Some(names) = &self.using_crates {
            if !uses_all_crates(names, &facts.metadata) {
                return false;
            }
        }
        if let Some(grep) = &self.grep {
            if !grep.is_met(facts) {
                return false;
            }
        }
        if let Some(conditions) = &self.any {
            let ghost views = whens_view(conditions@);
            let mut found = false;
            let mut i: usize = 0;
            while i < conditions.len() && !found
                invariant
                    i <= conditions.len(),
                    views == whens_view(conditions@),
                    self.any == Some(*conditions),
                    found == one_met(views, i as int, facts@),
                decreases conditions.len() - i,
            {
                proof {
                    assert(self.any->Some_0 == *conditions);
                    assert(decreases_to!(self => self.any));
                    assert(decreases_to!(self.any => conditions));
                    assert(decreases_to!(conditions => conditions@));
                    assert(decreases_to!(conditions@ => conditions@[i as int]));
                    assert(views[i as int] == conditions@[i as int]@);
                }
                let c = &conditions[i];
                found = c.is_met(facts);
                i += 1;
            }
            proof {
                if found {
                    one_met_stays(views, i as int, views.len() as int, facts@);
                }
            }
            if !found {
                return false;
            }
        }
        if let Some(conditions) = &self.all {
            let ghost views = whens_view(conditions@);
            let mut holds = true;
            let mut i: usize = 0;
            while i < conditions.len() && holds
                invariant
                    i <= conditions.len(),
                    views == whens_view(conditions@),
                    self.all == Some(*conditions),
                    holds == each_met(views, i as int, facts@),
                decreases conditions.len() - i,
            {
                proof {
                    assert(self.all->Some_0 == *conditions);
                    assert(decreases_to!(self => self.all));
                    assert(decreases_to!(self.all => conditions));
                    assert(decreases_to!(conditions => conditions@));
                    assert(decreases_to!(conditions@ => conditions@[i as int]));
                    assert(views[i as int] == conditions@[i as int]@);
                }
                let c = &conditions[i];
                holds = c.is_met(facts);
                i += 1;
            }
            proof {
                if !holds {
                    each_met_fails(views, i as int, views.len() as int, facts@);
                }
            }
            if !holds {
                return false;
            }
        }
        true
    }
}

/// The reason that a file gives: that it exists, or that it no longer does.
pub open spec fn file_reason(path: Seq<char>, stale: bool) -> Seq<char> {
    if stale {
        "because `"@ + path + "` no longer exists"@
    } else {
        "because `"@ + path + "` exists"@
    }
}

/// The reason that a crate gives: that it is used, or that it no longer is.
pub open spec fn crate_reason(name: Seq<char>, stale: bool) -> Seq<char> {
    if stale {
        "because no longer using crate `"@ + name + "`"@
    } else {
        "because using crate `"@ + name + "`"@
    }
}

/// The reason that a pattern gives: that it was found, or that it no longer
/// is. A pattern without a path is said to be searched in `*`.
pub open spec fn grep_reason(g: GrepView, stale: bool) -> Seq<char> {
    let path = match g.path {
        Some(p) => p,
        None => "*"@,
    };
    if stale {
        "because `"@ + g.pattern + "` no longer found in `"@ + path + "`"@
    } else {
        "because `"@ + g.pattern + "` found in `"@ + path + "`"@
    }
}

/// The reasons that a list of files gives, one for each file.
pub open spec fn file_reasons(paths: Seq<Seq<char>>, stale: bool) -> Seq<Seq<char>> {
    Seq::new(paths.len(), |i: int| file_reason(paths[i], stale))
}

/// The reasons that a list of crates gives, one for each crate.
pub open spec fn crate_reasons(names: Seq<Seq<char>>, stale: bool) -> Seq<Seq<char>> {
    Seq::new(names.len(), |i: int| crate_reason(names[i], stale))
}

/// The reasons of the conditions that are no lists of conditions.
pub open spec fn own_reasons(w: WhenView, stale: bool) -> Seq<Seq<char>> {
    (match w.file_exists {
        Some(path) => seq![file_reason(path, stale)],
        None => Seq::empty(),
    }) + (match w.files_exist {
        Some(paths) => file_reasons(paths, stale),
        None => Seq::empty(),
    }) + (match w.using_crate {
        Some(name) => seq![crate_reason(name, stale)],
        None => Seq::empty(),
    }) + (match w.using_crates {
        Some(names) => crate_reasons(names, stale),
        None => Seq::empty(),
    }) + (match w.grep {
        Some(g) => seq![grep_reason(g, stale)],
        None => Seq::empty(),
    })
}

/// Why conditions add a recommendation, or, with `stale`, why they no
/// longer hold. The conditions speak in the order of their fields. Of
/// conditions of which one must hold, the first that has reasons explains
/// an addition, and all together explain why none holds any more; of
/// conditions that must all hold it is the other way round.
pub open spec fn reasons(w: WhenView, stale: bool) -> Seq<Seq<char>>
    decreases w,
{
    own_reasons(w, stale) + (match w.any {
        WhenList::Present(conditions) => if stale {
            all_reasons(conditions, conditions.len() as int, stale)
        } else {
            first_reasons(conditions, conditions.len() as int, stale)
        },
        WhenList::Absent => Seq::empty(),
    }) + (match w.all {
        WhenList::Present(conditions) => if stale {
            first_reasons(conditions, conditions.len() as int, stale)
        } else {
            all_reasons(conditions, conditions.len() as int, stale)
        },
        WhenList::Absent => Seq::empty(),
    })
}

/// The reasons of the first among the first `n` conditions that has any.
pub open spec fn first_reasons(conditions: Seq<WhenView>, n: int, stale: bool) -> Seq<Seq<char>>
    decreases conditions, n,
{
    if n <= 0 || n > conditions.len() {
        Seq::empty()
    } else if first_reasons(conditions, n - 1, stale).len() > 0 {
        first_reasons(conditions, n - 1, stale)
    } else {
        reasons(conditions[n - 1], stale)
    }
}

/// The reasons of the first `n` conditions, one after another.
pub open spec fn all_reasons(conditions: Seq<WhenView>, n: int, stale: bool) -> Seq<Seq<char>>
    decreases conditions, n,
{
    if n <= 0 || n > conditions.len() {
        Seq::empty()
    } else {
        all_reasons(conditions, n - 1, stale) + reasons(conditions[n - 1], stale)
    }
}

/// Once one of the first `n` conditions has reasons, more conditions do not
/// change which reasons are the first.
pub proof fn first_reasons_stay(conditions: Seq<WhenView>, n: int, m: int, stale: bool)
    requires
        0 <= n <= m <= conditions.len(),
        first_reasons(conditions, n, stale).len() > 0,
    ensures
        first_reasons(conditions, m, stale) == first_reasons(conditions, n, stale),
    decreases m - n,
{
    if n < m {
        first_reasons_stay(conditions, n, m - 1, stale);
    }
}

fn file_reason_text(path: &str, stale: bool) -> (r: String)
    ensures
        r@ == file_reason(path@, stale),
{
    let mut s = String::from_str("because `");
    s.append(path);
    if stale {
        s.append("` no longer exists");
    } else {
        s.append("` exists");
    }
    s
}

fn crate_reason_text(name: &str, stale: bool) -> (r: String)
    ensures
        r@ == crate_reason(name@, stale),
{
    let mut s = if stale {
        String::from_str("because no longer using crate `")
    } else {
        String::from_str("because using crate `")
    };
    s.append(name);
    s.append("`");
    s
}

fn grep_reason_text(g: &GrepCondition, stale: bool) -> (r: String)
    ensures
        r@ == grep_reason(g@, stale),
{
    let mut s = String::from_str("because `");
    s.append(g.pattern.as_str());
    if stale {
        s.append("` no longer found in `");
    } else {
        s.append("` found in `");
    }
    match &g.path {
        Some(p) => s.append(p.as_str()),
        None => s.append("*"),
    }
    s.append("`");
    s
}

/// Adds to `out` everything in `more`.
fn extend_texts(out: &mut Vec<String>, more: Vec<String>)
    ensures
        texts(final(out)@) == texts(old(out)@) + texts(more@),
{
    let mut more = more;
    let ghost before = out@;
    let ghost added = more@;
    out.append(&mut more);
    proof {
        assert(texts(out@) =~= texts(before) + texts(added));
    }
}

fn one_file_reason(path: &Option<String>, stale: bool) -> (r: Vec<String>)
    ensures
        texts(r@) == match opt_text(*path) {
            Some(path) => seq![file_reason(path, stale)],
            None => Seq::empty(),
        },
{
    let mut out: Vec<String> = Vec::new();
    if let Some(path) = path {
        out.push(file_reason_text(path.as_str(), stale));
        proof {
            assert(texts(out@) =~= seq![file_reason(path@, stale)]);
        }
    } else {
        proof {
            assert(texts(out@) =~= Seq::<Seq<char>>::empty());
        }
    }
    out
}

fn one_crate_reason(name: &Option<String>, stale: bool) -> (r: Vec<String>)
    ensures
        texts(r@) == match opt_text(*name) {
            Some(name) => seq![crate_reason(name, stale)],
            None => Seq::empty(),
        },
{
    let mut out: Vec<String> = Vec::new();
    if let Some(name) = name {
        out.push(crate_reason_text(name.as_str(), stale));
        proof {
            assert(texts(out@) =~= seq![crate_reason(name@, stale)]);
        }
    } else {
        proof {
            assert(texts(out@) =~= Seq::<Seq<char>>::empty());
        }
    }
    out
}

fn one_grep_reason(grep: &Option<GrepCondition>, stale: bool) -> (r: Vec<String>)
    ensures
        texts(r@) == match opt_grep_view(*grep) {
            Some(g) => seq![grep_reason(g, stale)],
            None => Seq::empty(),
        },
{
    let mut out: Vec<String> = Vec::new();
    if let Some(g) = grep {
        out.push(grep_reason_text(g, stale));
        proof {
            assert(texts(out@) =~= seq![grep_reason(g@, stale)]);
        }
    } else {
        proof {
            assert(texts(out@) =~= Seq::<Seq<char>>::empty());
        }
    }
    out
}

fn many_file_reasons(paths: &Option<Vec<String>>, stale: bool) -> (r: Vec<String>)
    ensures
        texts(r@) == match opt_texts(*paths) {
            Some(paths) => file_reasons(paths, stale),
            None => Seq::empty(),
        },
{
    let mut out: Vec<String> = Vec::new();
    if let Some(paths) = paths {
        let mut i: usize = 0;
        while i < paths.len()
            invariant
                i <= paths.len(),
                out@.len() == i,
                forall|k: int| 0 <= k < i ==> (#[trigger] out@[k])@ == file_reason(paths@[k]@, stale),
            decreases paths.len() - i,
        {
            out.push(file_reason_text(paths[i].as_str(), stale));
            i += 1;
        }
        proof {
            assert(texts(out@) =~= file_reasons(texts(paths@), stale));
        }
    } else {
        proof {
            assert(texts(out@) =~= Seq::<Seq<char>>::empty());
        }
    }
    out
}

fn many_crate_reasons(names: &Option<Vec<String>>, stale: bool) -> (r: Vec<String>)
    ensures
        texts(r@) == match opt_texts(*names) {
            Some(names) => crate_reasons(names, stale),
            None => Seq::empty(),
        },
{
    let mut out: Vec<String> = Vec::new();
    if let Some(names) = names {
        let mut i: usize = 0;
        while i < names.len()
            invariant
                i <= names.len(),
                out@.len() == i,
                forall|k: int|
                    0 <= k < i ==> (#[trigger] out@[k])@ == crate_reason(names@[k]@, stale),
            decreases names.len() - i,
        {
            out.push(crate_reason_text(names[i].as_str(), stale));
            i += 1;
        }
        proof {
            assert(texts(out@) =~= crate_reasons(texts(names@), stale));
        }
    } else {
        proof {
            assert(texts(out@) =~= Seq::<Seq<char>>::empty());
        }
    }
    out
}

impl When {
    /// The reasons of the conditions that are no lists of conditions.
    fn explain_own(&self, stale: bool) -> (r: Vec<String>)
        ensures
            texts(r@) == own_reasons(self@, stale),
    {
        let mut out = one_file_reason(&self.file_exists, stale);
        extend_texts(&mut out, many_file_reasons(&self.files_exist, stale));
        extend_texts(&mut out, one_crate_reason(&self.using_crate, stale));
        extend_texts(&mut out, many_crate_reasons(&self.using_crates, stale));
        extend_texts(&mut out, one_grep_reason(&self.grep, stale));
        out
    }

    /// The reasons of the first of `conditions` that has any.
    fn explain_first(&self, conditions: &Vec<When>, stale: bool) -> (r: Vec<String>)
        requires
            self.any == Some(*conditions) || self.all == Some(*conditions),
        ensures
            texts(r@) == first_reasons(whens_view(conditions@), conditions@.len() as int, stale),
        decreases self, 0int,
    {
        let ghost views = whens_view(conditions@);
        let mut i: usize = 0;
        while i < conditions.len()
            invariant
                i <= conditions.len(),
                views == whens_view(conditions@),
                self.any == Some(*conditions) || self.all == Some(*conditions),
                first_reasons(views, i as int, stale).len() == 0,
            decreases conditions.len() - i,
        {
            proof {
                if self.any == Some(*conditions) {
                    assert(self.any->Some_0 == *conditions);
                    assert(decreases_to!(self => self.any));
                    assert(decreases_to!(self.any => conditions));
                } else {
                    assert(self.all->Some_0 == *conditions);
                    assert(decreases_to!(self => self.all));
                    assert(decreases_to!(self.all => conditions));
                }
                assert(decreases_to!(conditions => conditions@));
                assert(decreases_to!(conditions@ => conditions@[i as int]));
                assert(views[i as int] == conditions@[i as int]@);
            }
            let c = &conditions[i];
            let sub = c.explain(stale);
            if sub.len() > 0 {
                proof {
                    first_reasons_stay(views, i + 1, views.len() as int, stale);
                }
                return sub;
            }
            proof {
                assert(texts(sub@) =~= Seq::<Seq<char>>::empty());
            }
            i += 1;
        }
        let none: Vec<String> = Vec::new();
        proof {
            assert(texts(none@) =~= Seq::<Seq<char>>::empty());
        }
        none
    }

    /// The reasons of all of `conditions`, one after another.
    fn explain_all(&self, conditions: &Vec<When>, stale: bool) -> (r: Vec<String>)
        requires
            self.any == Some(*conditions) || self.all == Some(*conditions),
        ensures
            texts(r@) == all_reasons(whens_view(conditions@), conditions@.len() as int, stale),
        decreases self, 0int,
    {
        let ghost views = whens_view(conditions@);
        let mut out: Vec<String> = Vec::new();
        let mut i: usize = 0;
        proof {
            assert(texts(out@) =~= Seq::<Seq<char>>::empty());
        }
        while i < conditions.len()
            invariant
                i <= conditions.len(),
                views == whens_view(conditions@),
                self.any == Some(*conditions) || self.all == Some(*conditions),
                texts(out@) == all_reasons(views, i as int, stale),
            decreases conditions.len() - i,
        {
            proof {
                if self.any == Some(*conditions) {
                    assert(self.any->Some_0 == *conditions);
                    assert(decreases_to!(self => self.any));
                    assert(decreases_to!(self.any => conditions));
                } else {
                    assert(self.all->Some_0 == *conditions);
                    assert(decreases_to!(self => self.all));
                    assert(decreases_to!(self.all => conditions));
                }
                assert(decreases_to!(conditions => conditions@));
                assert(decreases_to!(conditions@ => conditions@[i as int]));
                assert(views[i as int] == conditions@[i as int]@);
            }
            let c = &conditions[i];
            let sub = c.explain(stale);
            extend_texts(&mut out, sub);
            i += 1;
        }
        out
    }

    /// Why the conditions add a recommendation, or, with `stale`, why they
    /// no longer hold.
    fn explain(&self, stale: bool) -> (r: Vec<String>)
        ensures
            texts(r@) == reasons(self@, stale),
        decreases self, 1int,
    {
        proof {
            when_view_lists(*self);
        }
        let mut out = self.explain_own(stale);
        if let Some(conditions) = &self.any {
            let sub = if stale {
                self.explain_all(conditions, stale)
            } else {
                self.explain_first(conditions, stale)
            };
            extend_texts(&mut out, sub);
        } else {
            proof {
                assert(texts(out@) + Seq::<Seq<char>>::empty() =~= texts(out@));
            }
        }
        if let Some(conditions) = &self.all {
            let sub = if stale {
                self.explain_first(conditions, stale)
            } else {
                self.explain_all(conditions, stale)
            };
            extend_texts(&mut out, sub);
        } else {
            proof {
                assert(texts(out@) + Seq::<Seq<char>>::empty() =~= texts(out@));
            }
        }
        out
    }

    /// Why the conditions add a recommendation.
    pub fn explain_why_added(&self) -> (r: Vec<String>)
        ensures
            texts(r@) == reasons(self@, false),
    {
        self.explain(false)
    }

    /// Why the conditions, which held once, make an extension stale.
    pub fn explain_why_stale(&self) -> (r: Vec<String>)
        ensures
            texts(r@) == reasons(self@, true),
    {
        self.explain(true)
    }
}

} // verus!
