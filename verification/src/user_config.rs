//! The configuration of a workspace: the agent, and the extensions with
//! their state. A component's source is its identity, so each source stands
//! among the extensions at most once.

use crate::source::{sources_view, ComponentSource, SourceView};
use crate::text::texts;
use crate::when::{clone_opt_when, opt_when_view, When, WhenView};
use vstd::prelude::*;
use vstd::string::StringSliceAdditionalSpecFns;

verus! {

/// One extension of a workspace.
#[derive(Debug, PartialEq, Eq)]
pub struct ExtensionConfig {
    /// The source of the extension, which is its identity.
    pub source: ComponentSource,
    /// Whether the extension is enabled.
    pub enabled: bool,
    /// The conditions under which the extension was recommended.
    pub when: Option<When>,
}

/// The mathematical value of an [`ExtensionConfig`].
pub struct ExtensionView {
    pub source: SourceView,
    pub enabled: bool,
    pub when: Option<WhenView>,
}

impl View for ExtensionConfig {
    type V = ExtensionView;

    open spec fn view(&self) -> ExtensionView {
        ExtensionView {
            source: self.source@,
            enabled: self.enabled,
            when: opt_when_view(self.when),
        }
    }
}

impl Clone for ExtensionConfig {
    fn clone(&self) -> (r: ExtensionConfig)
        ensures
            r@ == self@,
    {
        ExtensionConfig {
            source: self.source.clone(),
            enabled: self.enabled,
            when: clone_opt_when(&self.when),
        }
    }
}

impl ExtensionConfig {
    /// An enabled extension with the given conditions.
    pub fn enabled_with_when(source: ComponentSource, when: Option<When>) -> (r: Self)
        ensures
            r@ == (ExtensionView { source: source@, enabled: true, when: opt_when_view(when) }),
    {
        ExtensionConfig { source, enabled: true, when }
    }

    /// A disabled extension with the given conditions.
    pub fn disabled_with_when(source: ComponentSource, when: Option<When>) -> (r: Self)
        ensures
            r@ == (ExtensionView { source: source@, enabled: false, when: opt_when_view(when) }),
    {
        ExtensionConfig { source, enabled: false, when }
    }
}

/// The values of a list of extensions.
pub open spec fn extensions_view(v: Seq<ExtensionConfig>) -> Seq<ExtensionView> {
    Seq::new(v.len(), |i: int| v[i]@)
}

/// The place of the first extension at or after `start` that has `source`,
/// or the length of the list.
pub open spec fn find_source_from(extensions: Seq<ExtensionView>, source: SourceView, start: int) -> int
    decreases extensions.len() - start,
{
    if start < 0 || start >= extensions.len() {
        extensions.len() as int
    } else if extensions[start].source == source {
        start
    } else {
        find_source_from(extensions, source, start + 1)
    }
}

/// The place of the extension with `source`, or the length of the list.
pub open spec fn place_of(extensions: Seq<ExtensionView>, source: SourceView) -> int {
    find_source_from(extensions, source, 0)
}

/// Whether an extension with `source` is configured.
pub open spec fn configured(extensions: Seq<ExtensionView>, source: SourceView) -> bool {
    place_of(extensions, source) < extensions.len()
}

/// The extension with `source`, if one is configured.
pub open spec fn extension_of(extensions: Seq<ExtensionView>, source: SourceView) -> Option<
    ExtensionView,
> {
    if configured(extensions, source) {
        Some(extensions[place_of(extensions, source)])
    } else {
        None
    }
}

/// Whether each source stands in the list once.
pub open spec fn distinct_sources(extensions: Seq<ExtensionView>) -> bool {
    forall|i: int, j: int|
        0 <= i < j < extensions.len() ==> extensions[i].source != extensions[j].source
}

/// An extension as it is when it is first added: enabled, without
/// conditions.
pub open spec fn fresh_extension(source: SourceView) -> ExtensionView {
    ExtensionView { source, enabled: true, when: None }
}

/// The list with `entry` under its source: in the place of the extension
/// that had this source, or at the end.
pub open spec fn with_extension(extensions: Seq<ExtensionView>, entry: ExtensionView) -> Seq<
    ExtensionView,
> {
    let at = place_of(extensions, entry.source);
    if at < extensions.len() {
        extensions.update(at, entry)
    } else {
        extensions.push(entry)
    }
}

/// The first `n` extensions without those that have `source`.
pub open spec fn without_source_upto(extensions: Seq<ExtensionView>, source: SourceView, n: int) -> Seq<
    ExtensionView,
>
    decreases n,
{
    if n <= 0 || n > extensions.len() {
        Seq::empty()
    } else if extensions[n - 1].source == source {
        without_source_upto(extensions, source, n - 1)
    } else {
        without_source_upto(extensions, source, n - 1).push(extensions[n - 1])
    }
}

/// The list without the extensions that have `source`.
pub open spec fn without_source(extensions: Seq<ExtensionView>, source: SourceView) -> Seq<
    ExtensionView,
> {
    without_source_upto(extensions, source, extensions.len() as int)
}

/// The extensions that a new configuration has for the first `n` of
/// `sources`: one for each source, in order, a source that comes again
/// passed over.
pub open spec fn initial_extensions(sources: Seq<SourceView>, n: int) -> Seq<ExtensionView>
    decreases n,
{
    if n <= 0 || n > sources.len() {
        Seq::empty()
    } else if configured(initial_extensions(sources, n - 1), sources[n - 1]) {
        initial_extensions(sources, n - 1)
    } else {
        initial_extensions(sources, n - 1).push(fresh_extension(sources[n - 1]))
    }
}

/// The sources of the enabled among the first `n` extensions, in order.
pub open spec fn enabled_sources(extensions: Seq<ExtensionView>, n: int) -> Seq<SourceView>
    decreases n,
{
    if n <= 0 || n > extensions.len() {
        Seq::empty()
    } else if extensions[n - 1].enabled {
        enabled_sources(extensions, n - 1).push(extensions[n - 1].source)
    } else {
        enabled_sources(extensions, n - 1)
    }
}

/// The search for a source finds the first extension that has it.
pub proof fn find_source_is_first(extensions: Seq<ExtensionView>, source: SourceView, start: int)
    requires
        0 <= start <= extensions.len(),
    ensures
        start <= find_source_from(extensions, source, start) <= extensions.len(),
        find_source_from(extensions, source, start) < extensions.len() ==> extensions[find_source_from(
            extensions,
            source,
            start,
        )].source == source,
        forall|k: int|
            start <= k < find_source_from(extensions, source, start) ==> (
            #[trigger] extensions[k]).source != source,
    decreases extensions.len() - start,
{
    if start < extensions.len() && extensions[start].source != source {
        find_source_is_first(extensions, source, start + 1);
    }
}

/// Where `source` stands nowhere from `start` on, the search finds nothing.
pub proof fn find_source_misses(extensions: Seq<ExtensionView>, source: SourceView, start: int)
    requires
        0 <= start <= extensions.len(),
        forall|k: int| start <= k < extensions.len() ==> (#[trigger] extensions[k]).source != source,
    ensures
        find_source_from(extensions, source, start) == extensions.len(),
    decreases extensions.len() - start,
{
    if start < extensions.len() {
        find_source_misses(extensions, source, start + 1);
    }
}

/// What is left once a source is taken out holds no extension of that
/// source, and no more extensions than before.
pub proof fn without_source_has_none(extensions: Seq<ExtensionView>, source: SourceView, n: int)
    requires
        0 <= n <= extensions.len(),
    ensures
        without_source_upto(extensions, source, n).len() <= n,
        forall|k: int|
            0 <= k < without_source_upto(extensions, source, n).len() ==> (
            #[trigger] without_source_upto(extensions, source, n)[k]).source != source,
    decreases n,
{
    if n > 0 {
        without_source_has_none(extensions, source, n - 1);
    }
}

/// The configuration of a workspace.
#[derive(Debug, PartialEq, Eq)]
pub struct WorkspaceConfig {
    /// The agent of the workspace.
    pub agent: ComponentSource,
    /// The extensions, each with its state.
    pub extensions: Vec<ExtensionConfig>,
}

/// The mathematical value of a [`WorkspaceConfig`].
pub struct ConfigView {
    pub agent: SourceView,
    pub extensions: Seq<ExtensionView>,
}

impl View for WorkspaceConfig {
    type V = ConfigView;

    open spec fn view(&self) -> ConfigView {
        ConfigView { agent: self.agent@, extensions: extensions_view(self.extensions@) }
    }
}

impl Clone for WorkspaceConfig {
    fn clone(&self) -> (r: WorkspaceConfig)
        ensures
            r@ == self@,
    {
        let mut extensions: Vec<ExtensionConfig> = Vec::new();
        let mut i: usize = 0;
        while i < self.extensions.len()
            invariant
                i <= self.extensions.len(),
                extensions@.len() == i,
                forall|k: int| 0 <= k < i ==> (#[trigger] extensions@[k])@ == self.extensions@[k]@,
            decreases self.extensions.len() - i,
        {
            extensions.push(self.extensions[i].clone());
            i += 1;
        }
        proof {
            assert(extensions_view(extensions@) =~= extensions_view(self.extensions@));
        }
        WorkspaceConfig { agent: self.agent.clone(), extensions }
    }
}

/// The default agent for new workspaces.
#[derive(Debug, PartialEq, Eq)]
pub struct GlobalAgentConfig {
    pub agent: ComponentSource,
}

impl GlobalAgentConfig {
    /// The configuration with `agent` as the default.
    pub fn new(agent: ComponentSource) -> (r: Self)
        ensures
            r.agent == agent,
    {
        GlobalAgentConfig { agent }
    }

    /// The file that holds the default agent, below the home directory.
    pub fn path(home: &Vec<String>) -> (r: Vec<String>)
        ensures
            texts(r@) == texts(home@) + seq![".symposium"@, "config"@, "agent.json"@],
    {
        crate::paths::global_agent_path(home)
    }
}

impl WorkspaceConfig {
    /// Each source stands among the extensions once.
    pub open spec fn wf(&self) -> bool {
        distinct_sources(self@.extensions)
    }

    /// The place of the extension with `source`.
    fn find(&self, source: &ComponentSource) -> (r: Option<usize>)
        ensures
            match r {
                Some(i) => i == place_of(self@.extensions, source@) && i < self.extensions@.len()
                    && self.extensions@[i as int]@.source == source@,
                None => !configured(self@.extensions, source@),
            },
    {
        let ghost views = self@.extensions;
        let mut i: usize = 0;
        while i < self.extensions.len()
            invariant
                i <= self.extensions.len(),
                views == extensions_view(self.extensions@),
                find_source_from(views, source@, 0) == find_source_from(views, source@, i as int),
            decreases self.extensions.len() - i,
        {
            if self.extensions[i].source.same(source) {
                return Some(i);
            }
            i += 1;
        }
        None
    }

    /// The file that holds the configuration of the workspace at
    /// `workspace_path`, whose last component is `last_component`, below the
    /// home directory.
    pub fn config_path(home: &Vec<String>, last_component: Option<&str>, workspace_path: &str) -> (r:
        Vec<String>)
        ensures
            texts(r@) == texts(home@) + seq![
                ".symposium"@,
                "config"@,
                crate::paths::encoded_name(
                    match last_component {
                        Some(name) => Some(name@),
                        None => None,
                    },
                    crate::paths::sha256(workspace_path.spec_bytes()),
                ),
                "config.json"@,
            ],
    {
        crate::paths::config_path(home, crate::paths::encode_path(last_component, workspace_path))
    }

    /// The directory that holds the configuration of the workspace at
    /// `workspace_path`.
    pub fn workspace_config_dir(
        home: &Vec<String>,
        last_component: Option<&str>,
        workspace_path: &str,
    ) -> (r: Vec<String>)
        ensures
            texts(r@) == texts(home@) + seq![
                ".symposium"@,
                "config"@,
                crate::paths::encoded_name(
                    match last_component {
                        Some(name) => Some(name@),
                        None => None,
                    },
                    crate::paths::sha256(workspace_path.spec_bytes()),
                ),
            ],
    {
        crate::paths::workspace_config_dir(
            home,
            crate::paths::encode_path(last_component, workspace_path),
        )
    }

    /// Whether an extension with `source` is configured.
    pub fn has_extension(&self, source: &ComponentSource) -> (r: bool)
        ensures
            r == configured(self@.extensions, source@),
    {
        self.find(source).is_some()
    }

    /// The configuration with `agent` and an enabled extension for each of
    /// `extensions`.
    pub fn new(agent: ComponentSource, extensions: Vec<ComponentSource>) -> (r: Self)
        ensures
            r@.agent == agent@,
            r@.extensions == initial_extensions(
                sources_view(extensions@),
                extensions@.len() as int,
            ),
            r.wf(),
    {
        let ghost sources = sources_view(extensions@);
        let mut config = WorkspaceConfig { agent, extensions: Vec::new() };
        proof {
            assert(config@.extensions =~= Seq::<ExtensionView>::empty());
        }
        let mut i: usize = 0;
        while i < extensions.len()
            invariant
                i <= extensions.len(),
                sources == sources_view(extensions@),
                config.agent == agent,
                config@.extensions == initial_extensions(sources, i as int),
                config.wf(),
            decreases extensions.len() - i,
        {
            config.add_extension(extensions[i].clone());
            i += 1;
        }
        config
    }

    /// The sources of the enabled extensions, in order.
    pub fn enabled_extensions(&self) -> (r: Vec<ComponentSource>)
        ensures
            sources_view(r@) == enabled_sources(self@.extensions, self.extensions@.len() as int),
    {
        let ghost views = self@.extensions;
        let mut out: Vec<ComponentSource> = Vec::new();
        let mut i: usize = 0;
        proof {
            assert(sources_view(out@) =~= Seq::<SourceView>::empty());
        }
        while i < self.extensions.len()
            invariant
                i <= self.extensions.len(),
                views == extensions_view(self.extensions@),
                sources_view(out@) == enabled_sources(views, i as int),
            decreases self.extensions.len() - i,
        {
            if self.extensions[i].enabled {
                let ghost before = sources_view(out@);
                out.push(self.extensions[i].source.clone());
                proof {
                    assert(sources_view(out@) =~= before.push(views[i as int].source));
                }
            }
            i += 1;
        }
        out
    }

    /// Adds an extension, enabled and without conditions, unless its source
    /// is configured already.
    pub fn add_extension(&mut self, source: ComponentSource)
        ensures
            final(self).agent == old(self).agent,
            final(self)@.extensions == if configured(old(self)@.extensions, source@) {
                old(self)@.extensions
            } else {
                old(self)@.extensions.push(fresh_extension(source@))
            },
            old(self).wf() ==> final(self).wf(),
    {
        let ghost before = self@.extensions;
        if self.find(&source).is_none() {
            self.extensions.push(ExtensionConfig { source, enabled: true, when: None });
            proof {
                assert(self@.extensions =~= before.push(fresh_extension(source@)));
                find_source_is_first(before, source@, 0);
            }
        }
    }

    /// Puts `entry` under its source: in the place of the extension that had
    /// this source, or at the end.
    fn put(&mut self, entry: ExtensionConfig)
        ensures
            final(self).agent == old(self).agent,
            final(self)@.extensions == with_extension(old(self)@.extensions, entry@),
            old(self).wf() ==> final(self).wf(),
    {
        let ghost before = self@.extensions;
        proof {
            find_source_is_first(before, entry@.source, 0);
        }
        match self.find(&entry.source) {
            Some(i) => {
                self.extensions.set(i, entry);
                proof {
                    assert(self@.extensions =~= before.update(i as int, entry@));
                }
            },
            None => {
                self.extensions.push(entry);
                proof {
                    assert(self@.extensions =~= before.push(entry@));
                }
            },
        }
    }

    /// Takes the extension with `source` out of the configuration.
    pub fn remove_extension(&mut self, source: &ComponentSource)
        ensures
            final(self).agent == old(self).agent,
            final(self)@.extensions == without_source(old(self)@.extensions, source@),
            !configured(final(self)@.extensions, source@),
            old(self).wf() ==> final(self).wf(),
    {
        let ghost before = self@.extensions;
        let mut kept: Vec<ExtensionConfig> = Vec::new();
        let mut rest: Vec<ExtensionConfig> = Vec::new();
        std::mem::swap(&mut rest, &mut self.extensions);
        let n = rest.len();
        let mut reversed: Vec<ExtensionConfig> = Vec::new();
        while rest.len() > 0
            invariant
                rest@.len() <= n,
                n == before.len(),
                reversed@.len() == n - rest@.len(),
                extensions_view(rest@) =~= before.take(rest@.len() as int),
                forall|k: int|
                    0 <= k < reversed@.len() ==> (#[trigger] reversed@[k])@ == before[n - 1 - k],
                self.agent == old(self).agent,
            decreases rest.len(),
        {
            let ghost len = rest.len() as int;
            let e = rest.pop().unwrap();
            proof {
                assert(extensions_view(rest@) =~= before.take(len - 1));
                assert(before.take(len)[len - 1] == before[len - 1]);
            }
            reversed.push(e);
        }
        proof {
            assert(extensions_view(kept@) =~= Seq::<ExtensionView>::empty());
        }
        while reversed.len() > 0
            invariant
                reversed@.len() <= n,
                n == before.len(),
                forall|k: int|
                    0 <= k < reversed@.len() ==> (#[trigger] reversed@[k])@ == before[n - 1 - k],
                extensions_view(kept@) == without_source_upto(
                    before,
                    source@,
                    n - reversed@.len(),
                ),
                self.agent == old(self).agent,
            decreases reversed.len(),
        {
            let ghost at = n - reversed.len();
            let ghost so_far = extensions_view(kept@);
            let e = reversed.pop().unwrap();
            proof {
                assert(e@ == before[at]);
            }
            if !e.source.same(source) {
                kept.push(e);
                proof {
                    assert(extensions_view(kept@) =~= so_far.push(before[at]));
                }
            }
        }
        self.extensions = kept;
        proof {
            without_source_has_none(before, source@, n as int);
            find_source_misses(self@.extensions, source@, 0);
            if old(self).wf() {
                without_source_keeps_distinct(before, source@, n as int);
            }
        }
    }

    /// Turns an extension on where it is off, and off where it is on, and
    /// says which it is now. An extension that is not configured is added,
    /// enabled.
    pub fn toggle_extension(&mut self, source: &ComponentSource) -> (r: bool)
        ensures
            final(self).agent == old(self).agent,
            match extension_of(old(self)@.extensions, source@) {
                Some(e) => r == !e.enabled && final(self)@.extensions == with_extension(
                    old(self)@.extensions,
                    ExtensionView { source: source@, enabled: !e.enabled, when: e.when },
                ),
                None => r && final(self)@.extensions == old(self)@.extensions.push(
                    fresh_extension(source@),
                ),
            },
            old(self).wf() ==> final(self).wf(),
    {
        proof {
            find_source_is_first(self@.extensions, source@, 0);
        }
        match self.find(source) {
            Some(i) => {
                let enabled = !self.extensions[i].enabled;
                let when = clone_opt_when(&self.extensions[i].when);
                self.put(ExtensionConfig { source: source.clone(), enabled, when });
                enabled
            },
            None => {
                self.put(ExtensionConfig { source: source.clone(), enabled: true, when: None });
                true
            },
        }
    }

    /// Sets whether an extension is enabled. An extension that is not
    /// configured is added in that state, without conditions.
    pub fn set_extension_enabled(&mut self, source: &ComponentSource, enabled: bool)
        ensures
            final(self).agent == old(self).agent,
            final(self)@.extensions == with_extension(
                old(self)@.extensions,
                ExtensionView {
                    source: source@,
                    enabled,
                    when: match extension_of(old(self)@.extensions, source@) {
                        Some(e) => e.when,
                        None => None,
                    },
                },
            ),
            old(self).wf() ==> final(self).wf(),
    {
        let when = match self.find(source) {
            Some(i) => clone_opt_when(&self.extensions[i].when),
            None => None,
        };
        self.put(ExtensionConfig { source: source.clone(), enabled, when });
    }

    /// Adds an extension with its state and conditions, in the place of the
    /// extension that had this source if there was one.
    pub fn add_extension_with_when(
        &mut self,
        source: ComponentSource,
        enabled: bool,
        when: Option<When>,
    )
        ensures
            final(self).agent == old(self).agent,
            final(self)@.extensions == with_extension(
                old(self)@.extensions,
                ExtensionView { source: source@, enabled, when: opt_when_view(when) },
            ),
            old(self).wf() ==> final(self).wf(),
    {
        self.put(ExtensionConfig { source, enabled, when });
    }

    /// The conditions under which the extension with `source` was
    /// recommended.
    pub fn extension_when(&self, source: &ComponentSource) -> (r: Option<When>)
        ensures
            opt_when_view(r) == match extension_of(self@.extensions, source@) {
                Some(e) => e.when,
                None => None,
            },
    {
        match self.find(source) {
            Some(i) => clone_opt_when(&self.extensions[i].when),
            None => None,
        }
    }

    /// Whether the extension with `source` is configured and enabled.
    pub fn is_extension_enabled(&self, source: &ComponentSource) -> (r: bool)
        ensures
            r == match extension_of(self@.extensions, source@) {
                Some(e) => e.enabled,
                None => false,
            },
    {
        match self.find(source) {
            Some(i) => self.extensions[i].enabled,
            None => false,
        }
    }
}

/// Taking a source out of extensions whose sources differ from one another
/// leaves extensions whose sources differ from one another, each of them
/// one of the extensions before.
pub proof fn without_source_keeps_distinct(extensions: Seq<ExtensionView>, source: SourceView, n: int)
    requires
        0 <= n <= extensions.len(),
        distinct_sources(extensions),
    ensures
        distinct_sources(without_source_upto(extensions, source, n)),
        forall|k: int|
            0 <= k < without_source_upto(extensions, source, n).len() ==> exists|j: int|
                0 <= j < n && extensions[j] == #[trigger] without_source_upto(
                    extensions,
                    source,
                    n,
                )[k],
    decreases n,
{
    if n > 0 {
        without_source_keeps_distinct(extensions, source, n - 1);
        let prev = without_source_upto(extensions, source, n - 1);
        let cur = without_source_upto(extensions, source, n);
        if extensions[n - 1].source != source {
            assert forall|k: int| 0 <= k < cur.len() implies exists|j: int|
                0 <= j < n && extensions[j] == #[trigger] cur[k] by {
                if k < prev.len() {
                    let j = choose|j: int| 0 <= j < n - 1 && extensions[j] == prev[k];
                    assert(extensions[j] == cur[k]);
                } else {
                    assert(extensions[n - 1] == cur[k]);
                }
            }
            assert forall|a: int, b: int| 0 <= a < b < cur.len() implies cur[a].source
                != cur[b].source by {
                if b == prev.len() {
                    let j = choose|j: int| 0 <= j < n - 1 && extensions[j] == prev[a];
                    assert(extensions[j].source != extensions[n - 1].source);
                }
            }
        }
    }
}

} // verus!
