//! The registry of runtime components and their versions.
use crate::smap::StrMap;
use crate::sys::unix_now_secs;
use crate::text::dec_seq;
use crate::text::u64_string;
use vstd::prelude::*;

verus! {

/// The lifecycle state of one component.
#[derive(Debug, Clone, Copy, PartialEq, Eq, Structural)]
pub enum ComponentStatus {
    Running,
    Stopped,
    Error,
    Updating,
    NotInstalled,
    Unknown,
}

/// The display form of a component status.
pub open spec fn component_status_name(s: ComponentStatus) -> Seq<char> {
    match s {
        ComponentStatus::Running => "[OK] Running"@,
        ComponentStatus::Stopped => "[STOP] Stopped"@,
        ComponentStatus::Error => "[ERR] Error"@,
        ComponentStatus::Updating => "[UPD] Updating"@,
        ComponentStatus::NotInstalled => "[--] Not Installed"@,
        ComponentStatus::Unknown => "[?] Unknown"@,
    }
}

impl ComponentStatus {
    /// The display form of this status.
    pub fn as_str(&self) -> (r: &'static str)
        ensures
            r@ == component_status_name(*self),
    {
        match self {
            ComponentStatus::Running => "[OK] Running",
            ComponentStatus::Stopped => "[STOP] Stopped",
            ComponentStatus::Error => "[ERR] Error",
            ComponentStatus::Updating => "[UPD] Updating",
            ComponentStatus::NotInstalled => "[--] Not Installed",
            ComponentStatus::Unknown => "[?] Unknown",
        }
    }
}

/// Where a component comes from.
#[derive(Debug, Clone, Copy, PartialEq, Eq, Structural)]
pub enum ComponentSource {
    Builtin,
    Docker,
    Lxc,
    System,
    Binary,
    External,
}

/// The display form of a component source.
pub open spec fn component_source_name(s: ComponentSource) -> Seq<char> {
    match s {
        ComponentSource::Builtin => "Built-in"@,
        ComponentSource::Docker => "Docker"@,
        ComponentSource::Lxc => "LXC"@,
        ComponentSource::System => "System"@,
        ComponentSource::Binary => "Binary"@,
        ComponentSource::External => "External"@,
    }
}

impl ComponentSource {
    /// The display form of this source.
    pub fn as_str(&self) -> (r: &'static str)
        ensures
            r@ == component_source_name(*self),
    {
        match self {
            ComponentSource::Builtin => "Built-in",
            ComponentSource::Docker => "Docker",
            ComponentSource::Lxc => "LXC",
            ComponentSource::System => "System",
            ComponentSource::Binary => "Binary",
            ComponentSource::External => "External",
        }
    }
}

/// One component's version and state.  Timestamps are whole seconds
/// since the Unix epoch.
#[derive(Debug)]
pub struct ComponentVersion {
    pub name: String,
    pub version: String,
    pub latest_version: Option<String>,
    pub update_available: bool,
    pub status: ComponentStatus,
    pub last_checked_secs: Option<i64>,
    pub source: ComponentSource,
    pub metadata: StrMap<String>,
}

/// How many listed components are currently running.
pub open spec fn count_running(s: Seq<(Seq<char>, ComponentVersion)>) -> int
    decreases s.len(),
{
    if s.len() == 0 {
        0
    } else {
        count_running(s.drop_last()) + if s.last().1.status == ComponentStatus::Running {
            1int
        } else {
            0int
        }
    }
}

/// How many listed components have an update available.
pub open spec fn count_updates(s: Seq<(Seq<char>, ComponentVersion)>) -> int
    decreases s.len(),
{
    if s.len() == 0 {
        0
    } else {
        count_updates(s.drop_last()) + if s.last().1.update_available {
            1int
        } else {
            0int
        }
    }
}

/// The values of the update-available entries, in registry order.
pub open spec fn updates_of(s: Seq<(Seq<char>, ComponentVersion)>) -> Seq<ComponentVersion>
    decreases s.len(),
{
    if s.len() == 0 {
        Seq::empty()
    } else if s.last().1.update_available {
        updates_of(s.drop_last()).push(s.last().1)
    } else {
        updates_of(s.drop_last())
    }
}

/// The update count is the length of the update list.
pub proof fn lemma_count_updates_is_len(s: Seq<(Seq<char>, ComponentVersion)>)
    ensures
        updates_of(s).len() == count_updates(s),
    decreases s.len(),
{
    if s.len() > 0 {
        lemma_count_updates_is_len(s.drop_last());
    }
}

/// Both counts lie between zero and the number of components.
proof fn lemma_counts_in_range(s: Seq<(Seq<char>, ComponentVersion)>)
    ensures
        0 <= count_running(s) <= s.len(),
        0 <= count_updates(s) <= s.len(),
    decreases s.len(),
{
    if s.len() > 0 {
        lemma_counts_in_range(s.drop_last());
    }
}

/// The version of this crate, as the registry reports it.
pub fn get_botserver_version() -> (r: &'static str)
    ensures
        r@ == "0.1.0"@,
{
    "0.1.0"
}

/// The crate's name and version on one line.
pub fn version_string() -> (r: String)
    ensures
        r@ == "botserver v0.1.0"@,
{
    String::from_str("botserver v0.1.0")
}

/// All known components, with the core's own version.
#[derive(Debug)]
pub struct VersionRegistry {
    pub core_version: String,
    pub components: StrMap<ComponentVersion>,
    pub last_update_check_secs: Option<i64>,
    pub update_url: Option<String>,
}

impl Default for VersionRegistry {
    /// An empty registry for this core version.
    fn default() -> (r: Self)
        ensures
            r.core_version@ == "0.1.0"@,
            r.components@ == Map::<Seq<char>, ComponentVersion>::empty(),
            r.components.entries() == Seq::<(Seq<char>, ComponentVersion)>::empty(),
            r.last_update_check_secs is None,
            r.update_url matches Some(u) && u@ == "https://api.generalbots.com/updates"@,
    {
        VersionRegistry {
            core_version: String::from_str("0.1.0"),
            components: StrMap::new(),
            last_update_check_secs: None,
            update_url: Some(String::from_str("https://api.generalbots.com/updates")),
        }
    }
}

/// What a freshly registered builtin component looks like.
pub open spec fn is_fresh_builtin(c: ComponentVersion, name: Seq<char>) -> bool {
    &&& c.name@ == name
    &&& c.version@ == "0.1.0"@
    &&& c.latest_version is None
    &&& c.update_available == false
    &&& c.status == ComponentStatus::Running
    &&& c.last_checked_secs is Some
    &&& c.source == ComponentSource::Builtin
}

impl VersionRegistry {
    /// A registry with the builtin components already registered.
    pub fn new() -> (r: Self)
        ensures
            r.core_version@ == "0.1.0"@,
            r.last_update_check_secs is None,
            r.update_url matches Some(u) && u@ == "https://api.generalbots.com/updates"@,
            forall|k: Seq<char>|
                #[trigger] r.components@.contains_key(k) <==> (k == "botserver"@ || k == "basic"@
                    || k == "llm"@),
            is_fresh_builtin(r.components@["botserver"@], "botserver"@),
            is_fresh_builtin(r.components@["basic"@], "basic"@),
            is_fresh_builtin(r.components@["llm"@], "llm"@),
    {
        let mut registry = Self::default();
        registry.register_builtin_components();
        registry
    }

    /// Registers the components that ship inside this binary: the core
    /// server, the BASIC interpreter and the LLM integration.
    fn register_builtin_components(&mut self)
        ensures
            final(self).core_version == old(self).core_version,
            final(self).last_update_check_secs == old(self).last_update_check_secs,
            final(self).update_url == old(self).update_url,
            forall|k: Seq<char>|
                #[trigger] final(self).components@.contains_key(k) <==> (old(
                    self,
                ).components@.contains_key(k) || k == "botserver"@ || k == "basic"@ || k
                    == "llm"@),
            is_fresh_builtin(final(self).components@["botserver"@], "botserver"@),
            is_fresh_builtin(final(self).components@["basic"@], "basic"@),
            is_fresh_builtin(final(self).components@["llm"@], "llm"@),
    {
        let mut meta = StrMap::new();
        meta.insert(String::from_str("description"), String::from_str("Core bot server"));
        meta.insert(
            String::from_str("repo"),
            String::from_str("https://github.com/GeneralBots/botserver"),
        );
        self.register_component(
            ComponentVersion {
                name: String::from_str("botserver"),
                version: String::from_str("0.1.0"),
                latest_version: None,
                update_available: false,
                status: ComponentStatus::Running,
                last_checked_secs: Some(unix_now_secs()),
                source: ComponentSource::Builtin,
                metadata: meta,
            },
        );

        let mut meta = StrMap::new();
        meta.insert(String::from_str("description"), String::from_str("BASIC script interpreter"));
        self.register_component(
            ComponentVersion {
                name: String::from_str("basic"),
                version: String::from_str("0.1.0"),
                latest_version: None,
                update_available: false,
                status: ComponentStatus::Running,
                last_checked_secs: Some(unix_now_secs()),
                source: ComponentSource::Builtin,
                metadata: meta,
            },
        );

        let mut meta = StrMap::new();
        meta.insert(
            String::from_str("description"),
            String::from_str("LLM integration"),
        );
        self.register_component(
            ComponentVersion {
                name: String::from_str("llm"),
                version: String::from_str("0.1.0"),
                latest_version: None,
                update_available: false,
                status: ComponentStatus::Running,
                last_checked_secs: Some(unix_now_secs()),
                source: ComponentSource::Builtin,
                metadata: meta,
            },
        );
    }

    /// Adds or replaces a component, keyed by its name.
    pub fn register_component(&mut self, component: ComponentVersion)
        ensures
            final(self).components@ == old(self).components@.insert(component.name@, component),
            final(self).core_version == old(self).core_version,
            final(self).last_update_check_secs == old(self).last_update_check_secs,
            final(self).update_url == old(self).update_url,
    {
        let key = component.name.clone();
        self.components.insert(key, component);
    }

    /// Sets the status of a known component; unknown names are ignored.
    pub fn update_status(&mut self, name: &str, status: ComponentStatus)
        ensures
            final(self).core_version == old(self).core_version,
            final(self).last_update_check_secs == old(self).last_update_check_secs,
            final(self).update_url == old(self).update_url,
            old(self).components@.contains_key(name@) ==> final(self).components@ == old(
                self,
            ).components@.insert(
                name@,
                ComponentVersion { status, ..old(self).components@[name@] },
            ),
            !old(self).components@.contains_key(name@) ==> final(self).components@ == old(
                self,
            ).components@,
    {
        match self.components.take(name) {
            Some(c) => {
                let updated = ComponentVersion { status, ..c };
                self.components.insert(name.to_owned(), updated);
                proof {
                    assert(self.components@ =~= old(self).components@.insert(
                        name@,
                        ComponentVersion { status, ..old(self).components@[name@] },
                    ));
                }
            },
            None => {},
        }
    }

    /// Sets the version of a known component and stamps the check time;
    /// unknown names are ignored.
    pub fn update_version(&mut self, name: &str, version: String)
        ensures
            final(self).core_version == old(self).core_version,
            final(self).last_update_check_secs == old(self).last_update_check_secs,
            final(self).update_url == old(self).update_url,
            !old(self).components@.contains_key(name@) ==> final(self).components@ == old(
                self,
            ).components@,
            old(self).components@.contains_key(name@) ==> {
                &&& final(self).components@.dom() == old(self).components@.dom()
                &&& final(self).components@[name@].version == version
                &&& final(self).components@[name@].last_checked_secs is Some
                &&& final(self).components@[name@].name == old(self).components@[name@].name
                &&& final(self).components@[name@].latest_version == old(
                    self,
                ).components@[name@].latest_version
                &&& final(self).components@[name@].update_available == old(
                    self,
                ).components@[name@].update_available
                &&& final(self).components@[name@].status == old(self).components@[name@].status
                &&& final(self).components@[name@].source == old(self).components@[name@].source
                &&& forall|k: Seq<char>|
                    (#[trigger] final(self).components@.contains_key(k)) && k != name@
                        ==> final(self).components@[k] == old(self).components@[k]
            },
    {
        match self.components.take(name) {
            Some(c) => {
                let updated = ComponentVersion {
                    version,
                    last_checked_secs: Some(unix_now_secs()),
                    ..c
                };
                self.components.insert(name.to_owned(), updated);
                proof {
                    assert(self.components@.dom() =~= old(self).components@.dom());
                }
            },
            None => {},
        }
    }

    /// The component registered under `name`, if any.
    pub fn get_component(&self, name: &str) -> (r: Option<&ComponentVersion>)
        ensures
            match r {
                Some(c) => self.components@.contains_key(name@) && *c == self.components@[name@],
                None => !self.components@.contains_key(name@),
            },
    {
        self.components.get(name)
    }

    /// The whole component map.
    pub fn get_all_components(&self) -> (r: &StrMap<ComponentVersion>)
        ensures
            r == &self.components,
    {
        &self.components
    }

    /// Exactly the components with an update available, in registry
    /// order.
    pub fn get_available_updates(&self) -> (r: Vec<&ComponentVersion>)
        ensures
            r@.len() == updates_of(self.components.entries()).len(),
            r@.len() == count_updates(self.components.entries()),
            forall|i: int|
                0 <= i < r@.len() ==> *(#[trigger] r@[i]) == updates_of(
                    self.components.entries(),
                )[i],
    {
        proof {
            lemma_count_updates_is_len(self.components.entries());
        }
        let mut out: Vec<&ComponentVersion> = Vec::new();
        let n = self.components.entry_count();
        let mut i: usize = 0;
        while i < n
            invariant
                n == self.components.entries().len(),
                i <= n,
                out@.len() == updates_of(self.components.entries().take(i as int)).len(),
                forall|a: int|
                    0 <= a < out@.len() ==> *(#[trigger] out@[a]) == updates_of(
                        self.components.entries().take(i as int),
                    )[a],
            decreases n - i,
        {
            let ghost pre = self.components.entries().take(i as int);
            let c = self.components.value_at(i);
            if c.update_available {
                out.push(c);
            }
            proof {
                let cur = self.components.entries().take(i + 1 as int);
                assert(cur.drop_last() =~= pre);
                assert(cur.last() == self.components.entries()[i as int]);
            }
            i = i + 1;
        }
        proof {
            assert(self.components.entries().take(n as int) =~= self.components.entries());
        }
        out
    }

    /// A one-line summary: the core's name and version, how many
    /// components are running, and how many updates are available.
    pub fn summary(&self) -> (r: String)
        ensures
            r@ == "botserver v"@ + self.core_version@ + " | "@ + dec_seq(
                count_running(self.components.entries()) as nat,
            ) + "/"@ + dec_seq(self.components.entries().len() as nat) + " components running | "@
                + dec_seq(count_updates(self.components.entries()) as nat)
                + " updates available"@,
    {
        let n = self.components.entry_count();
        let mut running: u64 = 0;
        let mut updates: u64 = 0;
        let mut i: usize = 0;
        proof {
            lemma_counts_in_range(self.components.entries());
        }
        while i < n
            invariant
                n == self.components.entries().len(),
                i <= n,
                running == count_running(self.components.entries().take(i as int)),
                updates == count_updates(self.components.entries().take(i as int)),
                running <= i,
                updates <= i,
                n <= u64::MAX,
            decreases n - i,
        {
            let ghost pre = self.components.entries().take(i as int);
            proof {
                lemma_counts_in_range(pre);
                let cur = self.components.entries().take(i + 1 as int);
                assert(cur.drop_last() =~= pre);
                assert(cur.last() == self.components.entries()[i as int]);
            }
            let c = self.components.value_at(i);
            if c.status == ComponentStatus::Running {
                running = running + 1;
            }
            if c.update_available {
                updates = updates + 1;
            }
            i = i + 1;
        }
        proof {
            assert(self.components.entries().take(n as int) =~= self.components.entries());
        }
        let mut s = String::from_str("botserver v");
        s.append(self.core_version.as_str());
        s.append(" | ");
        let run_str = u64_string(running);
        s.append(run_str.as_str());
        s.append("/");
        let total_str = u64_string(n as u64);
        s.append(total_str.as_str());
        s.append(" components running | ");
        let upd_str = u64_string(updates);
        s.append(upd_str.as_str());
        s.append(" updates available");
        s
    }
}

} // verus!
