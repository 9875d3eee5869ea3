//! Recommendations: which components are suggested for a workspace, how the
//! suggestions differ from what is configured, and how the difference is
//! shown and applied.

use crate::source::{shown_name, sources_view, ComponentSource, SourceView};
use crate::text::{decimal, decimal_string, join, joined, texts, trim_start_matches, without_leading};
use crate::user_config::{configured, without_source, ExtensionConfig, ExtensionView};
use crate::user_config::WorkspaceConfig;
use crate::when::{clone_opt_when, met, opt_when_view, reasons, FactsView, When, WhenView};
use crate::when::WorkspaceFacts;
use vstd::prelude::*;

verus! {

/// A component that is recommended, with the conditions under which it is.
#[derive(Debug)]
pub struct Recommendation {
    /// The source of the component, which is its identity.
    pub source: ComponentSource,
    /// The conditions; a recommendation without conditions always applies.
    pub when: Option<When>,
}

/// The mathematical value of a [`Recommendation`].
pub struct RecommendationView {
    pub source: SourceView,
    pub when: Option<WhenView>,
}

impl View for Recommendation {
    type V = RecommendationView;

    open spec fn view(&self) -> RecommendationView {
        RecommendationView { source: self.source@, when: opt_when_view(self.when) }
    }
}

impl Clone for Recommendation {
    fn clone(&self) -> (r: Recommendation)
        ensures
            r@ == self@,
    {
        Recommendation { source: self.source.clone(), when: clone_opt_when(&self.when) }
    }
}

/// The values of a list of recommendations.
pub open spec fn recommendations_view(v: Seq<Recommendation>) -> Seq<RecommendationView> {
    Seq::new(v.len(), |i: int| v[i]@)
}

/// The reasons of optional conditions: none where there are no conditions.
pub open spec fn reasons_of(when: Option<WhenView>, stale: bool) -> Seq<Seq<char>> {
    match when {
        Some(w) => reasons(w, stale),
        None => Seq::empty(),
    }
}

/// Reasons as they are shown: between brackets, with commas between them;
/// nothing where there are none.
pub open spec fn bracketed(reasons: Seq<Seq<char>>) -> Seq<char> {
    if reasons.len() == 0 {
        Seq::empty()
    } else {
        "["@ + joined(reasons, ", "@) + "]"@
    }
}

/// Why optional conditions add a recommendation, or make an extension
/// stale.
pub fn explain(when: &Option<When>, stale: bool) -> (r: Vec<String>)
    ensures
        texts(r@) == reasons_of(opt_when_view(*when), stale),
{
    match when {
        Some(w) => if stale {
            w.explain_why_stale()
        } else {
            w.explain_why_added()
        },
        None => {
            let none: Vec<String> = Vec::new();
            proof {
                assert(texts(none@) =~= Seq::<Seq<char>>::empty());
            }
            none
        },
    }
}

/// Reasons between brackets.
pub fn format_reasons(reasons: &Vec<String>) -> (r: String)
    ensures
        r@ == bracketed(texts(reasons@)),
{
    if reasons.len() == 0 {
        String::new()
    } else {
        let mut out = String::from_str("[");
        let inner = join(reasons, ", ");
        out.append(inner.as_str());
        out.append("]");
        out
    }
}

impl Recommendation {
    /// The name under which the recommendation is shown.
    pub fn display_name(&self) -> (r: String)
        ensures
            r@ == shown_name(self@.source),
    {
        self.source.display_name()
    }

    /// Why the recommendation is made.
    pub fn explain_why_added(&self) -> (r: Vec<String>)
        ensures
            texts(r@) == reasons_of(self@.when, false),
    {
        explain(&self.when, false)
    }

    /// Why the recommendation no longer applies.
    pub fn explain_why_stale(&self) -> (r: Vec<String>)
        ensures
            texts(r@) == reasons_of(self@.when, true),
    {
        explain(&self.when, true)
    }

    /// Why the recommendation is made, as it is shown.
    pub fn format_added_explanation(&self) -> (r: String)
        ensures
            r@ == bracketed(reasons_of(self@.when, false)),
    {
        let reasons = self.explain_why_added();
        format_reasons(&reasons)
    }

    /// Why the recommendation no longer applies, as it is shown.
    pub fn format_stale_explanation(&self) -> (r: String)
        ensures
            r@ == bracketed(reasons_of(self@.when, true)),
    {
        let reasons = self.explain_why_stale();
        format_reasons(&reasons)
    }
}

/// All recommendations.
#[derive(Debug)]
pub struct Recommendations {
    pub extensions: Vec<Recommendation>,
}

/// The recommendations that apply to one workspace.
#[derive(Debug)]
pub struct WorkspaceRecommendations {
    pub extensions: Vec<Recommendation>,
}

/// Whether a recommendation applies to a workspace: it has no conditions,
/// or its conditions hold.
pub open spec fn applies(r: RecommendationView, facts: FactsView) -> bool {
    match r.when {
        Some(w) => met(w, facts),
        None => true,
    }
}

/// Those of the first `n` recommendations that apply, in order.
pub open spec fn applicable(recs: Seq<RecommendationView>, facts: FactsView, n: int) -> Seq<
    RecommendationView,
>
    decreases n,
{
    if n <= 0 || n > recs.len() {
        Seq::empty()
    } else if applies(recs[n - 1], facts) {
        applicable(recs, facts, n - 1).push(recs[n - 1])
    } else {
        applicable(recs, facts, n - 1)
    }
}

/// The sources of recommendations, in order.
pub open spec fn sources_of(recs: Seq<RecommendationView>) -> Seq<SourceView> {
    Seq::new(recs.len(), |i: int| recs[i].source)
}

/// The place of the first recommendation at or after `start` that has
/// `source`, or the length of the list.
pub open spec fn find_recommended_from(recs: Seq<RecommendationView>, source: SourceView, start: int) -> int
    decreases recs.len() - start,
{
    if start < 0 || start >= recs.len() {
        recs.len() as int
    } else if recs[start].source == source {
        start
    } else {
        find_recommended_from(recs, source, start + 1)
    }
}

/// Whether `source` is recommended.
pub open spec fn recommended(recs: Seq<RecommendationView>, source: SourceView) -> bool {
    find_recommended_from(recs, source, 0) < recs.len()
}

impl Recommendations {
    /// No recommendations.
    pub fn empty() -> (r: Self)
        ensures
            r.extensions@.len() == 0,
    {
        Recommendations { extensions: Vec::new() }
    }

    /// The recommendations that apply to the workspace of which `facts` are
    /// known, in order.
    pub fn for_workspace(&self, facts: &WorkspaceFacts) -> (r: WorkspaceRecommendations)
        ensures
            recommendations_view(r.extensions@) == applicable(
                recommendations_view(self.extensions@),
                facts@,
                self.extensions@.len() as int,
            ),
    {
        let ghost recs = recommendations_view(self.extensions@);
        let mut extensions: Vec<Recommendation> = Vec::new();
        let mut i: usize = 0;
        proof {
            assert(recommendations_view(extensions@) =~= Seq::<RecommendationView>::empty());
        }
        while i < self.extensions.len()
            invariant
                i <= self.extensions.len(),
                recs == recommendations_view(self.extensions@),
                recommendations_view(extensions@) == applicable(recs, facts@, i as int),
            decreases self.extensions.len() - i,
        {
            let rec = &self.extensions[i];
            let applies = match &rec.when {
                Some(w) => w.is_met(facts),
                None => true,
            };
            if applies {
                let ghost before = recommendations_view(extensions@);
                extensions.push(rec.clone());
                proof {
                    assert(recommendations_view(extensions@) =~= before.push(recs[i as int]));
                }
            }
            i += 1;
        }
        WorkspaceRecommendations { extensions }
    }
}

impl WorkspaceRecommendations {
    /// The sources of the recommendations, in order.
    pub fn extension_sources(&self) -> (r: Vec<ComponentSource>)
        ensures
            sources_view(r@) == sources_of(recommendations_view(self.extensions@)),
    {
        let mut out: Vec<ComponentSource> = Vec::new();
        let mut i: usize = 0;
        while i < self.extensions.len()
            invariant
                i <= self.extensions.len(),
                out@.len() == i,
                forall|k: int| 0 <= k < i ==> (#[trigger] out@[k])@ == self.extensions@[k]@.source,
            decreases self.extensions.len() - i,
        {
            out.push(self.extensions[i].source.clone());
            i += 1;
        }
        proof {
            assert(sources_view(out@) =~= sources_of(recommendations_view(self.extensions@)));
        }
        out
    }

    /// The place of the first recommendation with `source`.
    fn find(&self, source: &ComponentSource) -> (r: Option<usize>)
        ensures
            match r {
                Some(i) => i == find_recommended_from(
                    recommendations_view(self.extensions@),
                    source@,
                    0,
                ) && i < self.extensions@.len(),
                None => !recommended(recommendations_view(self.extensions@), source@),
            },
    {
        let ghost recs = recommendations_view(self.extensions@);
        let mut i: usize = 0;
        while i < self.extensions.len()
            invariant
                i <= self.extensions.len(),
                recs == recommendations_view(self.extensions@),
                find_recommended_from(recs, source@, 0) == find_recommended_from(
                    recs,
                    source@,
                    i as int,
                ),
            decreases self.extensions.len() - i,
        {
            if self.extensions[i].source.same(source) {
                return Some(i);
            }
            i += 1;
        }
        None
    }

    /// The first recommendation with `source`.
    pub fn get_recommendation(&self, source: &ComponentSource) -> (r: Option<&Recommendation>)
        ensures
            match r {
                Some(rec) => recommended(recommendations_view(self.extensions@), source@) && *rec
                    == self.extensions@[find_recommended_from(
                    recommendations_view(self.extensions@),
                    source@,
                    0,
                )],
                None => !recommended(recommendations_view(self.extensions@), source@),
            },
    {
        match self.find(source) {
            Some(i) => Some(&self.extensions[i]),
            None => None,
        }
    }
}

/// A recommendation that the configuration does not hold yet.
#[derive(Debug)]
pub struct NewRecommendation {
    pub recommendation: Recommendation,
    /// Whether the user means to take it.
    pub accepted: bool,
}

/// An extension that is configured and no longer recommended.
#[derive(Debug)]
pub struct StaleExtension {
    pub source: ComponentSource,
    /// The conditions under which it was recommended.
    pub when: Option<When>,
}

/// How recommendations differ from a configuration.
#[derive(Debug)]
pub struct RecommendationDiff {
    /// What is recommended and not configured.
    pub new: Vec<NewRecommendation>,
    /// What is configured and not recommended.
    pub stale: Vec<StaleExtension>,
}

/// The mathematical value of a [`NewRecommendation`].
pub struct NewView {
    pub recommendation: RecommendationView,
    pub accepted: bool,
}

/// The mathematical value of a [`StaleExtension`].
pub struct StaleView {
    pub source: SourceView,
    pub when: Option<WhenView>,
}

/// The mathematical value of a [`RecommendationDiff`].
pub struct DiffView {
    pub new: Seq<NewView>,
    pub stale: Seq<StaleView>,
}

impl View for NewRecommendation {
    type V = NewView;

    open spec fn view(&self) -> NewView {
        NewView { recommendation: self.recommendation@, accepted: self.accepted }
    }
}

impl View for StaleExtension {
    type V = StaleView;

    open spec fn view(&self) -> StaleView {
        StaleView { source: self.source@, when: opt_when_view(self.when) }
    }
}

/// The values of a list of new recommendations.
pub open spec fn news_view(v: Seq<NewRecommendation>) -> Seq<NewView> {
    Seq::new(v.len(), |i: int| v[i]@)
}

/// The values of a list of stale extensions.
pub open spec fn stales_view(v: Seq<StaleExtension>) -> Seq<StaleView> {
    Seq::new(v.len(), |i: int| v[i]@)
}

impl View for RecommendationDiff {
    type V = DiffView;

    open spec fn view(&self) -> DiffView {
        DiffView { new: news_view(self.new@), stale: stales_view(self.stale@) }
    }
}

/// How a new recommendation is shown at `index`: the index, what is done
/// with it, its name and, where it has reasons, the reasons. A
/// recommendation that is not taken says its reasons as what it is ignored
/// in spite of.
pub open spec fn shown_new(new: NewView, index: nat) -> Seq<char> {
    let reasons = reasons_of(new.recommendation.when, false);
    let head = decimal(index) + ". "@ + (if new.accepted {
        "ADD"@
    } else {
        "IGNORE"@
    }) + " "@ + shown_name(new.recommendation.source);
    if reasons.len() == 0 {
        head
    } else if new.accepted {
        head + " "@ + bracketed(reasons)
    } else {
        head + " "@ + ("[even though "@ + without_leading(joined(reasons, ", "@), "because "@)
            + "]"@)
    }
}

/// How a stale extension is shown.
pub open spec fn shown_stale(stale: StaleView) -> Seq<char> {
    let reasons = reasons_of(stale.when, true);
    if reasons.len() == 0 {
        "- "@ + shown_name(stale.source) + " is stale"@
    } else {
        "- "@ + shown_name(stale.source) + " is stale ["@ + joined(reasons, ", "@) + "]"@
    }
}

impl NewRecommendation {
    /// The recommendation as one line of the prompt.
    pub fn format_display(&self, index: usize) -> (r: String)
        ensures
            r@ == shown_new(self@, index as nat),
    {
        let reasons = self.recommendation.explain_why_added();
        let mut out = decimal_string(index as u64);
        out.append(". ");
        if self.accepted {
            out.append("ADD");
        } else {
            out.append("IGNORE");
        }
        out.append(" ");
        let name = self.recommendation.display_name();
        out.append(name.as_str());
        if reasons.len() == 0 {
            return out;
        }
        out.append(" ");
        if self.accepted {
            let explanation = format_reasons(&reasons);
            out.append(explanation.as_str());
        } else {
            let all = join(&reasons, ", ");
            let rest = trim_start_matches(all.as_str(), "because ");
            let mut explanation = String::from_str("[even though ");
            explanation.append(rest.as_str());
            explanation.append("]");
            out.append(explanation.as_str());
        }
        out
    }
}

impl StaleExtension {
    /// The extension as one line of the prompt.
    pub fn format_display(&self) -> (r: String)
        ensures
            r@ == shown_stale(self@),
    {
        let reasons = explain(&self.when, true);
        let mut out = String::from_str("- ");
        let name = self.source.display_name();
        out.append(name.as_str());
        if reasons.len() == 0 {
            out.append(" is stale");
        } else {
            out.append(" is stale [");
            let all = join(&reasons, ", ");
            out.append(all.as_str());
            out.append("]");
        }
        out
    }
}

/// What is new among the first `n` recommendations: those whose source is
/// not configured, each taken at first.
pub open spec fn new_among(recs: Seq<RecommendationView>, extensions: Seq<ExtensionView>, n: int) -> Seq<
    NewView,
>
    decreases n,
{
    if n <= 0 || n > recs.len() {
        Seq::empty()
    } else if configured(extensions, recs[n - 1].source) {
        new_among(recs, extensions, n - 1)
    } else {
        new_among(recs, extensions, n - 1).push(
            NewView { recommendation: recs[n - 1], accepted: true },
        )
    }
}

/// What is stale among the first `n` extensions: those whose source is not
/// recommended, with the conditions they were configured with.
pub open spec fn stale_among(extensions: Seq<ExtensionView>, recs: Seq<RecommendationView>, n: int) -> Seq<
    StaleView,
>
    decreases n,
{
    if n <= 0 || n > extensions.len() {
        Seq::empty()
    } else if recommended(recs, extensions[n - 1].source) {
        stale_among(extensions, recs, n - 1)
    } else {
        stale_among(extensions, recs, n - 1).push(
            StaleView { source: extensions[n - 1].source, when: extensions[n - 1].when },
        )
    }
}

/// The extensions as they are once the first `n` new recommendations are
/// added, each enabled where it was taken.
pub open spec fn with_new(extensions: Seq<ExtensionView>, new: Seq<NewView>, n: int) -> Seq<
    ExtensionView,
>
    decreases n,
{
    if n <= 0 || n > new.len() {
        extensions
    } else {
        with_new(extensions, new, n - 1).push(
            ExtensionView {
                source: new[n - 1].recommendation.source,
                enabled: new[n - 1].accepted,
                when: new[n - 1].recommendation.when,
            },
        )
    }
}

/// The extensions as they are once the first `n` stale extensions are
/// taken out.
pub open spec fn without_stale(extensions: Seq<ExtensionView>, stale: Seq<StaleView>, n: int) -> Seq<
    ExtensionView,
>
    decreases n,
{
    if n <= 0 || n > stale.len() {
        extensions
    } else {
        without_source(without_stale(extensions, stale, n - 1), stale[n - 1].source)
    }
}

/// The message that refuses an index that names no new recommendation.
pub open spec fn invalid_index_message(index: nat, len: nat) -> Seq<char> {
    "Invalid index "@ + decimal(index) + ". Valid range is 1-"@ + decimal(len)
}

/// The lines of the new recommendations, numbered from 1, for the first `n`.
pub open spec fn new_lines(new: Seq<NewView>, n: int) -> Seq<Seq<char>>
    decreases n,
{
    if n <= 0 || n > new.len() {
        Seq::empty()
    } else {
        new_lines(new, n - 1).push(shown_new(new[n - 1], n as nat))
    }
}

/// The lines of the first `n` stale extensions.
pub open spec fn stale_lines(stale: Seq<StaleView>, n: int) -> Seq<Seq<char>>
    decreases n,
{
    if n <= 0 || n > stale.len() {
        Seq::empty()
    } else {
        stale_lines(stale, n - 1).push(shown_stale(stale[n - 1]))
    }
}

/// The part of the prompt that lists what is new.
pub open spec fn new_section(diff: DiffView) -> Seq<Seq<char>> {
    if diff.new.len() == 0 {
        Seq::empty()
    } else {
        seq!["The following agent extensions are recommended:"@, Seq::empty()] + new_lines(
            diff.new,
            diff.new.len() as int,
        )
    }
}

/// The part of the prompt that lists what is stale.
pub open spec fn stale_section(diff: DiffView) -> Seq<Seq<char>> {
    if diff.stale.len() == 0 {
        Seq::empty()
    } else {
        (if diff.new.len() == 0 {
            Seq::empty()
        } else {
            seq![Seq::<char>::empty()]
        }) + seq![
            "The following agent extensions are stale and will be removed:"@,
            Seq::empty(),
        ] + stale_lines(diff.stale, diff.stale.len() as int)
    }
}

/// The part of the prompt that says what can be done.
pub open spec fn instructions(diff: DiffView) -> Seq<Seq<char>> {
    seq![
        Seq::empty(),
        "How would you like to proceed?"@,
        Seq::empty(),
        "* SAVE the new recommendations"@,
        "* IGNORE all new recommendations (you can add them later)"@,
    ] + (if diff.new.len() == 0 {
        Seq::empty()
    } else {
        seq![
            "* 1..."@ + decimal(diff.new.len()) + " toggle the status of a specific recommendation"@,
        ]
    })
}

/// The lines of the prompt.
pub open spec fn prompt_lines(diff: DiffView) -> Seq<Seq<char>> {
    new_section(diff) + stale_section(diff) + instructions(diff)
}

impl RecommendationDiff {
    /// The difference between what is recommended and what is configured.
    pub fn compute(recommendations: &WorkspaceRecommendations, config: &WorkspaceConfig) -> (r:
        Self)
        ensures
            r@.new == new_among(
                recommendations_view(recommendations.extensions@),
                config@.extensions,
                recommendations.extensions@.len() as int,
            ),
            r@.stale == stale_among(
                config@.extensions,
                recommendations_view(recommendations.extensions@),
                config.extensions@.len() as int,
            ),
    {
        let ghost recs = recommendations_view(recommendations.extensions@);
        let ghost exts = config@.extensions;
        let mut new: Vec<NewRecommendation> = Vec::new();
        let mut i: usize = 0;
        proof {
            assert(news_view(new@) =~= Seq::<NewView>::empty());
        }
        while i < recommendations.extensions.len()
            invariant
                i <= recommendations.extensions.len(),
                recs == recommendations_view(recommendations.extensions@),
                exts == config@.extensions,
                news_view(new@) == new_among(recs, exts, i as int),
            decreases recommendations.extensions.len() - i,
        {
            let rec = &recommendations.extensions[i];
            if !config.has_extension(&rec.source) {
                let ghost before = news_view(new@);
                new.push(NewRecommendation { recommendation: rec.clone(), accepted: true });
                proof {
                    assert(news_view(new@) =~= before.push(
                        NewView { recommendation: recs[i as int], accepted: true },
                    ));
                }
            }
            i += 1;
        }
        let mut stale: Vec<StaleExtension> = Vec::new();
        let mut j: usize = 0;
        proof {
            assert(stales_view(stale@) =~= Seq::<StaleView>::empty());
        }
        while j < config.extensions.len()
            invariant
                j <= config.extensions.len(),
                recs == recommendations_view(recommendations.extensions@),
                exts == config@.extensions,
                stales_view(stale@) == stale_among(exts, recs, j as int),
            decreases config.extensions.len() - j,
        {
            let extension = &config.extensions[j];
            if recommendations.get_recommendation(&extension.source).is_none() {
                let ghost before = stales_view(stale@);
                stale.push(
                    StaleExtension {
                        source: extension.source.clone(),
                        when: clone_opt_when(&extension.when),
                    },
                );
                proof {
                    assert(stales_view(stale@) =~= before.push(
                        StaleView { source: exts[j as int].source, when: exts[j as int].when },
                    ));
                }
            }
            j += 1;
        }
        RecommendationDiff { new, stale }
    }

    /// Whether anything is new or stale.
    pub fn has_changes(&self) -> (r: bool)
        ensures
            r == (self.new@.len() > 0 || self.stale@.len() > 0),
    {
        self.new.len() > 0 || self.stale.len() > 0
    }

    /// Whether something is stale and nothing is new.
    pub fn is_stale_only(&self) -> (r: bool)
        ensures
            r == (self.new@.len() == 0 && self.stale@.len() > 0),
    {
        self.new.len() == 0 && self.stale.len() > 0
    }

    /// Whether something is new and nothing is stale.
    pub fn is_new_only(&self) -> (r: bool)
        ensures
            r == (self.new@.len() > 0 && self.stale@.len() == 0),
    {
        self.new.len() > 0 && self.stale.len() == 0
    }

    /// How many recommendations are new, where any is.
    pub fn new_len(&self) -> (r: Option<usize>)
        ensures
            r == if self.new@.len() == 0 {
                None
            } else {
                Some(self.new@.len() as usize)
            },
    {
        if self.new.len() == 0 {
            None
        } else {
            Some(self.new.len())
        }
    }

    /// Turns the new recommendation at `index`, counted from 1, from taken
    /// to not taken or back. An index that names none is refused.
    pub fn toggle(&mut self, index: usize) -> (r: Result<(), String>)
        ensures
            final(self)@.stale == old(self)@.stale,
            match r {
                Ok(()) => {
                    &&& 1 <= index <= old(self).new@.len()
                    &&& final(self)@.new == old(self)@.new.update(
                        index - 1,
                        NewView {
                            recommendation: old(self)@.new[index - 1].recommendation,
                            accepted: !old(self)@.new[index - 1].accepted,
                        },
                    )
                },
                Err(message) => {
                    &&& index == 0 || index > old(self).new@.len()
                    &&& message@ == invalid_index_message(index as nat, old(self).new@.len())
                    &&& final(self)@.new == old(self)@.new
                },
            },
    {
        if index == 0 || index > self.new.len() {
            let mut message = String::from_str("Invalid index ");
            let shown = decimal_string(index as u64);
            message.append(shown.as_str());
            message.append(". Valid range is 1-");
            let len = decimal_string(self.new.len() as u64);
            message.append(len.as_str());
            return Err(message);
        }
        let ghost before = self@.new;
        let current = &self.new[index - 1];
        let toggled = NewRecommendation {
            recommendation: current.recommendation.clone(),
            accepted: !current.accepted,
        };
        self.new.set(index - 1, toggled);
        proof {
            assert(self@.new =~= before.update(
                index - 1,
                NewView {
                    recommendation: before[index - 1].recommendation,
                    accepted: !before[index - 1].accepted,
                },
            ));
        }
        Ok(())
    }

    /// The prompt that shows the difference and asks what to do with it.
    pub fn format_prompt(&self) -> (r: String)
        ensures
            r@ == joined(prompt_lines(self@), "\n"@),
    {
        let ghost diff = self@;
        let mut lines: Vec<String> = Vec::new();
        proof {
            assert(texts(lines@) =~= Seq::<Seq<char>>::empty());
        }
        if self.new.len() > 0 {
            lines.push(String::from_str("The following agent extensions are recommended:"));
            lines.push(String::new());
            let ghost head = texts(lines@);
            proof {
                assert(head =~= seq![
                    "The following agent extensions are recommended:"@,
                    Seq::<char>::empty(),
                ]);
            }
            let mut i: usize = 0;
            while i < self.new.len()
                invariant
                    i <= self.new.len(),
                    diff == self@,
                    texts(lines@) == head + new_lines(diff.new, i as int),
                decreases self.new.len() - i,
            {
                let ghost before = texts(lines@);
                lines.push(self.new[i].format_display(i + 1));
                proof {
                    assert(texts(lines@) =~= before.push(shown_new(diff.new[i as int], (i + 1) as nat)));
                    assert(before.push(shown_new(diff.new[i as int], (i + 1) as nat)) =~= head
                        + new_lines(diff.new, i + 1));
                }
                i += 1;
            }
        }
        proof {
            assert(texts(lines@) =~= new_section(diff));
        }
        if self.stale.len() > 0 {
            let ghost start = texts(lines@);
            if self.new.len() > 0 {
                lines.push(String::new());
            }
            lines.push(
                String::from_str("The following agent extensions are stale and will be removed:"),
            );
            lines.push(String::new());
            let ghost head = texts(lines@);
            proof {
                assert(head =~= start + (if diff.new.len() == 0 {
                    Seq::<Seq<char>>::empty()
                } else {
                    seq![Seq::<char>::empty()]
                }) + seq![
                    "The following agent extensions are stale and will be removed:"@,
                    Seq::<char>::empty(),
                ]);
            }
            let mut i: usize = 0;
            while i < self.stale.len()
                invariant
                    i <= self.stale.len(),
                    diff == self@,
                    texts(lines@) == head + stale_lines(diff.stale, i as int),
                decreases self.stale.len() - i,
            {
                let ghost before = texts(lines@);
                lines.push(self.stale[i].format_display());
                proof {
                    assert(texts(lines@) =~= before.push(shown_stale(diff.stale[i as int])));
                    assert(before.push(shown_stale(diff.stale[i as int])) =~= head + stale_lines(
                        diff.stale,
                        i + 1,
                    ));
                }
                i += 1;
            }
            proof {
                assert(texts(lines@) =~= new_section(diff) + stale_section(diff));
            }
        } else {
            proof {
                assert(texts(lines@) =~= new_section(diff) + stale_section(diff));
            }
        }
        let ghost listed = texts(lines@);
        lines.push(String::new());
        lines.push(String::from_str("How would you like to proceed?"));
        lines.push(String::new());
        lines.push(String::from_str("* SAVE the new recommendations"));
        lines.push(
            String::from_str("* IGNORE all new recommendations (you can add them later)"),
        );
        if let Some(n) = self.new_len() {
            let mut line = String::from_str("* 1...");
            let count = decimal_string(n as u64);
            line.append(count.as_str());
            line.append(" toggle the status of a specific recommendation");
            lines.push(line);
        }
        proof {
            assert(texts(lines@) =~= listed + instructions(diff));
        }
        join(&lines, "\n")
    }

    /// Takes the stale extensions out of the configuration.
    pub fn apply_stale_removal(&self, config: &mut WorkspaceConfig)
        ensures
            final(config).agent == old(config).agent,
            final(config)@.extensions == without_stale(
                old(config)@.extensions,
                self@.stale,
                self.stale@.len() as int,
            ),
    {
        let ghost stale = self@.stale;
        let ghost start = config@.extensions;
        let mut i: usize = 0;
        while i < self.stale.len()
            invariant
                i <= self.stale.len(),
                stale == self@.stale,
                config.agent == old(config).agent,
                config@.extensions == without_stale(start, stale, i as int),
            decreases self.stale.len() - i,
        {
            config.remove_extension(&self.stale[i].source);
            i += 1;
        }
    }

    /// Leaves the new recommendations aside: only the stale extensions are
    /// taken out of the configuration.
    pub fn apply_ignore(&self, config: &mut WorkspaceConfig)
        ensures
            final(config).agent == old(config).agent,
            final(config)@.extensions == without_stale(
                old(config)@.extensions,
                self@.stale,
                self.stale@.len() as int,
            ),
    {
        self.apply_stale_removal(config);
    }

    /// Saves the difference: each new recommendation is added to the
    /// configuration, enabled where it was taken, and the stale extensions
    /// are taken out.
    pub fn apply_save(&self, config: &mut WorkspaceConfig)
        ensures
            final(config).agent == old(config).agent,
            final(config)@.extensions == without_stale(
                with_new(old(config)@.extensions, self@.new, self.new@.len() as int),
                self@.stale,
                self.stale@.len() as int,
            ),
    {
        let ghost new = self@.new;
        let ghost start = config@.extensions;
        let mut i: usize = 0;
        while i < self.new.len()
            invariant
                i <= self.new.len(),
                new == self@.new,
                config.agent == old(config).agent,
                config@.extensions == with_new(start, new, i as int),
            decreases self.new.len() - i,
        {
            let rec = &self.new[i];
            let ghost before = config@.extensions;
            config.extensions.push(
                ExtensionConfig {
                    source: rec.recommendation.source.clone(),
                    enabled: rec.accepted,
                    when: clone_opt_when(&rec.recommendation.when),
                },
            );
            proof {
                assert(config@.extensions =~= before.push(
                    ExtensionView {
                        source: new[i as int].recommendation.source,
                        enabled: new[i as int].accepted,
                        when: new[i as int].recommendation.when,
                    },
                ));
            }
            i += 1;
        }
        self.apply_stale_removal(config);
    }
}

} // verus!
