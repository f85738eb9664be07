//! What is kept on disk: web apps, the profiles that they belong to, and the user's settings.

use std::collections::BTreeMap;

use vstd::prelude::*;

use crate::link::Link;
use crate::text::same_text;

verus! {

/// A way to open URLs of a scheme: a URL with `%s` where the opened one goes. The URL is missing
/// where the manifest holds none that can be written out.
pub struct ProtocolHandler {
    pub protocol: String,
    pub url: Option<String>,
}

/// The model of a `ProtocolHandler`.
pub ghost struct HandlerModel {
    pub protocol: Seq<char>,
    pub url: Option<Seq<char>>,
}

impl DeepView for ProtocolHandler {
    type V = HandlerModel;

    open spec fn deep_view(&self) -> HandlerModel {
        HandlerModel { protocol: self.protocol@, url: self.url.deep_view() }
    }
}

impl Clone for ProtocolHandler {
    fn clone(&self) -> (r: Self)
        ensures
            r.deep_view() == self.deep_view(),
    {
        ProtocolHandler { protocol: self.protocol.clone(), url: self.url.clone() }
    }
}

/// What the user decided about a web app.
pub struct SiteConfig {
    pub name: Option<String>,
    pub description: Option<String>,
    pub categories: Option<Vec<String>>,
    pub keywords: Option<Vec<String>>,
    pub document_url: Link,
    pub manifest_url: Link,
    pub start_url: Option<Link>,
    pub icon_url: Option<Link>,
    pub enabled_url_handlers: Vec<String>,
    pub enabled_protocol_handlers: Vec<String>,
    pub custom_protocol_handlers: Vec<ProtocolHandler>,
    pub launch_on_login: bool,
    pub launch_on_browser: bool,
    /// The identifier under which the browser knows the web app.
    pub webapp_id: Option<u128>,
    pub external_links: Option<bool>,
    pub allowed_domains: Vec<String>,
    pub hardware_webrtc: bool,
    pub software_rendering: bool,
    pub scheduling: Option<String>,
    pub user_agent: Option<String>,
    pub start_hidden: bool,
}

/// The model of a `SiteConfig`.
pub ghost struct ConfigModel {
    pub name: Option<Seq<char>>,
    pub description: Option<Seq<char>>,
    pub categories: Option<Seq<Seq<char>>>,
    pub keywords: Option<Seq<Seq<char>>>,
    pub document_url: Seq<char>,
    pub manifest_url: Seq<char>,
    pub start_url: Option<Seq<char>>,
    pub icon_url: Option<Seq<char>>,
    pub enabled_url_handlers: Seq<Seq<char>>,
    pub enabled_protocol_handlers: Seq<Seq<char>>,
    pub custom_protocol_handlers: Seq<HandlerModel>,
    pub launch_on_login: bool,
    pub launch_on_browser: bool,
    pub webapp_id: Option<u128>,
    pub external_links: Option<bool>,
    pub allowed_domains: Seq<Seq<char>>,
    pub hardware_webrtc: bool,
    pub software_rendering: bool,
    pub scheduling: Option<Seq<char>>,
    pub user_agent: Option<Seq<char>>,
    pub start_hidden: bool,
}

impl View for SiteConfig {
    type V = ConfigModel;

    open spec fn view(&self) -> ConfigModel {
        ConfigModel {
            name: self.name.deep_view(),
            description: self.description.deep_view(),
            categories: self.categories.deep_view(),
            keywords: self.keywords.deep_view(),
            document_url: self.document_url@,
            manifest_url: self.manifest_url@,
            start_url: self.start_url.deep_view(),
            icon_url: self.icon_url.deep_view(),
            enabled_url_handlers: self.enabled_url_handlers.deep_view(),
            enabled_protocol_handlers: self.enabled_protocol_handlers.deep_view(),
            custom_protocol_handlers: self.custom_protocol_handlers.deep_view(),
            launch_on_login: self.launch_on_login,
            launch_on_browser: self.launch_on_browser,
            webapp_id: self.webapp_id,
            external_links: self.external_links,
            allowed_domains: self.allowed_domains.deep_view(),
            hardware_webrtc: self.hardware_webrtc,
            software_rendering: self.software_rendering,
            scheduling: self.scheduling.deep_view(),
            user_agent: self.user_agent.deep_view(),
            start_hidden: self.start_hidden,
        }
    }
}

/// What the website says about itself, as far as it is read here.
pub struct Manifest {
    pub protocol_handlers: Vec<ProtocolHandler>,
}

/// An installed web app.
pub struct Site {
    pub ulid: u128,
    pub profile: u128,
    pub config: SiteConfig,
    pub manifest: Manifest,
}

/// The model of a `Site`.
pub ghost struct SiteModel {
    pub ulid: u128,
    pub profile: u128,
    pub config: ConfigModel,
    pub handlers: Seq<HandlerModel>,
}

impl View for Site {
    type V = SiteModel;

    open spec fn view(&self) -> SiteModel {
        SiteModel {
            ulid: self.ulid,
            profile: self.profile,
            config: self.config@,
            handlers: self.manifest.protocol_handlers.deep_view(),
        }
    }
}

/// What is shown of a web app that may be missing.
pub open spec fn shown(site: Option<Site>) -> Option<SiteModel> {
    match site {
        Some(site) => Some(site@),
        None => None,
    }
}

/// A browser profile, and the web apps that share it.
pub struct Profile {
    pub ulid: u128,
    pub sites: Vec<u128>,
}

/// The model of a `Profile`.
pub ghost struct ProfileModel {
    pub ulid: u128,
    pub sites: Seq<u128>,
}

impl View for Profile {
    type V = ProfileModel;

    open spec fn view(&self) -> ProfileModel {
        ProfileModel { ulid: self.ulid, sites: self.sites@ }
    }
}

/// Environment variables: names with a value each, no name twice.
pub struct Variables {
    entries: Vec<(String, String)>,
}

/// No name twice.
spec fn names_distinct(entries: Seq<(String, String)>) -> bool {
    forall|i: int, j: int|
        0 <= i < j < entries.len() ==> (#[trigger] entries[i]).0@ != (#[trigger] entries[j]).0@
}

/// The values by name.
spec fn values_of(entries: Seq<(String, String)>) -> Map<Seq<char>, Seq<char>>
    decreases entries.len(),
{
    if entries.len() == 0 {
        Map::empty()
    } else {
        values_of(entries.drop_last()).insert(entries.last().0@, entries.last().1@)
    }
}

proof fn lemma_values_of_absent(entries: Seq<(String, String)>, name: Seq<char>)
    requires
        forall|i: int| 0 <= i < entries.len() ==> (#[trigger] entries[i]).0@ != name,
    ensures
        !values_of(entries).contains_key(name),
    decreases entries.len(),
{
    if entries.len() > 0 {
        let shorter = entries.drop_last();
        assert forall|i: int| 0 <= i < shorter.len() implies (#[trigger] shorter[i]).0@ != name by {
            assert(shorter[i] == entries[i]);
        }
        lemma_values_of_absent(shorter, name);
        assert(entries[entries.len() - 1].0@ != name);
    }
}

proof fn lemma_values_of_present(entries: Seq<(String, String)>, i: int)
    requires
        names_distinct(entries),
        0 <= i < entries.len(),
    ensures
        values_of(entries).contains_key(entries[i].0@),
        values_of(entries)[entries[i].0@] == entries[i].1@,
    decreases entries.len(),
{
    if i < entries.len() - 1 {
        let shorter = entries.drop_last();
        assert(names_distinct(shorter));
        lemma_values_of_present(shorter, i);
        assert(entries[i].0@ != entries[entries.len() - 1].0@);
    }
}

proof fn lemma_values_of_update(entries: Seq<(String, String)>, i: int, entry: (String, String))
    requires
        names_distinct(entries),
        0 <= i < entries.len(),
        entry.0@ == entries[i].0@,
    ensures
        names_distinct(entries.update(i, entry)),
        values_of(entries.update(i, entry)) == values_of(entries).insert(entry.0@, entry.1@),
    decreases entries.len(),
{
    let updated = entries.update(i, entry);
    let shorter = entries.drop_last();
    assert(names_distinct(shorter));
    if i == entries.len() - 1 {
        assert(updated.drop_last() =~= shorter);
        assert(values_of(updated) =~= values_of(entries).insert(entry.0@, entry.1@));
    } else {
        lemma_values_of_update(shorter, i, entry);
        assert(updated.drop_last() =~= shorter.update(i, entry));
        assert(entries[i].0@ != entries[entries.len() - 1].0@);
        assert(values_of(updated) =~= values_of(entries).insert(entry.0@, entry.1@));
    }
}

impl View for Variables {
    type V = Map<Seq<char>, Seq<char>>;

    /// The values by name.
    closed spec fn view(&self) -> Map<Seq<char>, Seq<char>> {
        values_of(self.entries@)
    }
}

impl Variables {
    #[verifier::type_invariant]
    spec fn no_name_twice(self) -> bool {
        names_distinct(self.entries@)
    }

    /// No variables.
    pub fn new() -> (r: Variables)
        ensures
            r@ == Map::<Seq<char>, Seq<char>>::empty(),
    {
        Variables { entries: Vec::new() }
    }

    /// With a value for a name, in place of an earlier one.
    pub fn with(self, name: &str, value: &str) -> (r: Variables)
        ensures
            r@ == self@.insert(name@, value@),
    {
        proof {
            use_type_invariant(&self);
        }
        let ghost before = self.entries@;
        let mut entries = self.entries;
        let mut i: usize = 0;
        while i < entries.len()
            invariant
                i <= entries.len(),
                entries@ == before,
                names_distinct(before),
                self@ == values_of(before),
                forall|j: int| 0 <= j < i ==> (#[trigger] before[j]).0@ != name@,
            decreases entries.len() - i,
        {
            if same_text(entries[i].0.as_str(), name) {
                let entry = (name.to_owned(), value.to_owned());
                proof {
                    lemma_values_of_update(before, i as int, entry);
                }
                entries.set(i, entry);
                return Variables { entries };
            }
            i = i + 1;
        }
        entries.push((name.to_owned(), value.to_owned()));
        assert(entries@.drop_last() =~= before);
        Variables { entries }
    }

    /// The value of a name.
    pub fn get(&self, name: &str) -> (r: Option<&str>)
        ensures
            r.deep_view() == (if self@.contains_key(name@) {
                Some(self@[name@])
            } else {
                None
            }),
    {
        proof {
            use_type_invariant(&*self);
        }
        let mut i: usize = 0;
        while i < self.entries.len()
            invariant
                i <= self.entries.len(),
                names_distinct(self.entries@),
                forall|j: int| 0 <= j < i ==> (#[trigger] self.entries@[j]).0@ != name@,
            decreases self.entries.len() - i,
        {
            if same_text(self.entries[i].0.as_str(), name) {
                proof {
                    lemma_values_of_present(self.entries@, i as int);
                }
                return Some(self.entries[i].1.as_str());
            }
            i = i + 1;
        }
        proof {
            lemma_values_of_absent(self.entries@, name@);
        }
        None
    }

    /// The names with their values, for handing on.
    pub fn entries(&self) -> (r: &Vec<(String, String)>)
        ensures
            forall|i: int|
                0 <= i < r.len() ==> self@.contains_key((#[trigger] r[i]).0@)
                    && self@[r[i].0@] == r[i].1@,
            forall|name: Seq<char>|
                self@.contains_key(name) ==> exists|i: int|
                    0 <= i < r.len() && (#[trigger] r[i]).0@ == name,
    {
        proof {
            use_type_invariant(&*self);
            assert forall|i: int| 0 <= i < self.entries.len() implies self@.contains_key(
                (#[trigger] self.entries[i]).0@,
            ) && self@[self.entries[i].0@] == self.entries[i].1@ by {
                lemma_values_of_present(self.entries@, i);
            }
            assert forall|name: Seq<char>| self@.contains_key(name) implies exists|i: int|
                0 <= i < self.entries.len() && (#[trigger] self.entries[i]).0@ == name by {
                if forall|i: int|
                    0 <= i < self.entries.len() ==> (#[trigger] self.entries@[i]).0@ != name {
                    lemma_values_of_absent(self.entries@, name);
                }
            }
        }
        &self.entries
    }
}

impl Clone for Variables {
    fn clone(&self) -> (r: Self)
        ensures
            r@ == self@,
    {
        proof {
            use_type_invariant(&*self);
        }
        let mut entries: Vec<(String, String)> = Vec::new();
        let mut i: usize = 0;
        while i < self.entries.len()
            invariant
                i <= self.entries.len(),
                entries@ == self.entries@.take(i as int),
            decreases self.entries.len() - i,
        {
            entries.push((self.entries[i].0.clone(), self.entries[i].1.clone()));
            i = i + 1;
            assert(entries@ =~= self.entries@.take(i as int));
        }
        assert(entries@ =~= self.entries@);
        Variables { entries }
    }
}

/// Everything that is kept.
pub struct Storage {
    /// Arguments for the browser, where a command gives none.
    pub arguments: Vec<String>,
    /// Variables for the browser's environment.
    pub variables: Variables,
    /// Whether the runtime is the system's browser, linked.
    pub use_linked_runtime: bool,
    pub profiles: BTreeMap<u128, Profile>,
    pub sites: BTreeMap<u128, Site>,
}

/// The model of a `Storage`.
pub ghost struct StorageModel {
    pub arguments: Seq<Seq<char>>,
    pub variables: Map<Seq<char>, Seq<char>>,
    pub use_linked_runtime: bool,
    pub profiles: Map<u128, ProfileModel>,
    pub sites: Map<u128, SiteModel>,
}

impl View for Storage {
    type V = StorageModel;

    open spec fn view(&self) -> StorageModel {
        StorageModel {
            arguments: self.arguments.deep_view(),
            variables: self.variables@,
            use_linked_runtime: self.use_linked_runtime,
            profiles: self.profiles@.map_values(|profile: Profile| profile@),
            sites: self.sites@.map_values(|site: Site| site@),
        }
    }
}

impl StorageModel {
    /// Profiles and web apps agree: each is kept under its own identifier, every web app is listed
    /// once, in the profile that it belongs to, and every profile lists only web apps that are
    /// there.
    pub open spec fn consistent(self) -> bool {
        &&& forall|p: u128| #[trigger]
            self.profiles.contains_key(p) ==> self.profiles[p].ulid == p
                && self.profiles[p].sites.no_duplicates()
        &&& forall|p: u128, i: int|
            #![trigger self.profiles[p].sites[i]]
            self.profiles.contains_key(p) && 0 <= i < self.profiles[p].sites.len() ==> {
                &&& self.sites.contains_key(self.profiles[p].sites[i])
                &&& self.sites[self.profiles[p].sites[i]].profile == p
            }
        &&& forall|s: u128| #[trigger]
            self.sites.contains_key(s) ==> {
                &&& self.sites[s].ulid == s
                &&& self.profiles.contains_key(self.sites[s].profile)
                &&& self.profiles[self.sites[s].profile].sites.contains(s)
            }
    }

    /// With another web app in place of what was kept under its identifier.
    pub open spec fn with_site(self, id: u128, site: SiteModel) -> StorageModel {
        StorageModel { sites: self.sites.insert(id, site), ..self }
    }

    /// With another profile in place of what was kept under its identifier.
    pub open spec fn with_profile(self, id: u128, profile: ProfileModel) -> StorageModel {
        StorageModel { profiles: self.profiles.insert(id, profile), ..self }
    }
}

/// A copy of a list of texts.
pub(crate) fn copy_texts(texts: &Vec<String>) -> (r: Vec<String>)
    ensures
        r.deep_view() == texts.deep_view(),
{
    let r = texts.clone();
    assert(r.deep_view() =~= texts.deep_view());
    r
}

/// A copy of a list of texts that may be missing.
pub(crate) fn copy_optional_texts(texts: &Option<Vec<String>>) -> (r: Option<Vec<String>>)
    ensures
        r.deep_view() == texts.deep_view(),
{
    match texts {
        Some(texts) => Some(copy_texts(texts)),
        None => None,
    }
}

/// A copy of a list of URLs.
pub(crate) fn copy_links(links: &Vec<Link>) -> (r: Vec<Link>)
    ensures
        r.deep_view() == links.deep_view(),
{
    let r = links.clone();
    assert(r.deep_view() =~= links.deep_view());
    r
}

/// A copy of a list of handlers.
fn copy_handlers(handlers: &Vec<ProtocolHandler>) -> (r: Vec<ProtocolHandler>)
    ensures
        r.deep_view() == handlers.deep_view(),
{
    let r = handlers.clone();
    assert(r.deep_view() =~= handlers.deep_view());
    r
}

/// A copy of the settings of a web app.
fn copy_config(config: &SiteConfig) -> (r: SiteConfig)
    ensures
        r@ == config@,
{
    SiteConfig {
        name: config.name.clone(),
        description: config.description.clone(),
        categories: copy_optional_texts(&config.categories),
        keywords: copy_optional_texts(&config.keywords),
        document_url: config.document_url.clone(),
        manifest_url: config.manifest_url.clone(),
        start_url: config.start_url.clone(),
        icon_url: config.icon_url.clone(),
        enabled_url_handlers: copy_texts(&config.enabled_url_handlers),
        enabled_protocol_handlers: copy_texts(&config.enabled_protocol_handlers),
        custom_protocol_handlers: copy_handlers(&config.custom_protocol_handlers),
        launch_on_login: config.launch_on_login,
        launch_on_browser: config.launch_on_browser,
        webapp_id: config.webapp_id,
        external_links: config.external_links,
        allowed_domains: copy_texts(&config.allowed_domains),
        hardware_webrtc: config.hardware_webrtc,
        software_rendering: config.software_rendering,
        scheduling: config.scheduling.clone(),
        user_agent: config.user_agent.clone(),
        start_hidden: config.start_hidden,
    }
}

/// A copy of a web app.
pub(crate) fn copy_site(site: &Site) -> (r: Site)
    ensures
        r@ == site@,
{
    Site {
        ulid: site.ulid,
        profile: site.profile,
        config: copy_config(&site.config),
        manifest: Manifest {
            protocol_handlers: copy_handlers(&site.manifest.protocol_handlers),
        },
    }
}

/// What a map shows of one of its values.
pub(crate) proof fn lemma_viewed<V: View>(map: Map<u128, V>, key: u128, value: V)
    ensures
        map.insert(key, value).map_values(|v: V| v@) == map.map_values(|v: V| v@).insert(
            key,
            value@,
        ),
        map.remove(key).map_values(|v: V| v@) == map.map_values(|v: V| v@).remove(key),
{
    assert(map.insert(key, value).map_values(|v: V| v@) =~= map.map_values(|v: V| v@).insert(
        key,
        value@,
    ));
    assert(map.remove(key).map_values(|v: V| v@) =~= map.map_values(|v: V| v@).remove(key));
}

} // verus!
